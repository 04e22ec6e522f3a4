use tradebot::commands::{command_request, open_position_note, sleep_announcement, state_report, Command, RequestType};
use tradebot::lifecycle::{open_position, record_exit, OrderDirection, State};
use tradebot::money::Quotation;

#[test]
fn commands_translate_to_requests() {
    assert!(command_request(&Command::Help).is_none());
    let (req, ack) = command_request(&Command::State).unwrap();
    assert_eq!(req, RequestType::StateRequest);
    assert_eq!(ack, "Запрашиваю состояние портфеля");
    let (req, _) = command_request(&Command::Stat).unwrap();
    assert_eq!(req, RequestType::StatRequest);
    let (req, ack) = command_request(&Command::Stop).unwrap();
    assert_eq!(req, RequestType::StopRequest);
    assert_eq!(ack, "Запрашиваю остановку");
}

#[test]
fn seeking_report_names_the_portfolio() {
    let state = State::Seeking(Quotation { units: 1000, nano: 0 });
    assert_eq!(state_report(&state, 0), "Ищем точку входа, портфель: 1000.0 RUB");
}

#[test]
fn waiting_position_report_names_entry() {
    let pos = open_position(
        Quotation { units: 5, nano: 90_0000000 },
        8,
        OrderDirection::Sell,
        String::from("1001"),
    );
    let state = State::InPosition(pos);
    assert_eq!(
        state_report(&state, 0),
        "Ожидаем открытия позиции:\nвход 8 лотов по цене 5.9 RUB"
    );
}

#[test]
fn closing_position_report_names_both_prices() {
    let pos = open_position(
        Quotation { units: 5, nano: 90_0000000 },
        8,
        OrderDirection::Sell,
        String::from("1001"),
    );
    let pos = record_exit(pos, Quotation { units: 5, nano: 91_0000000 }, String::from("1002"));
    let state = State::InPosition(pos);
    assert_eq!(
        state_report(&state, 0),
        "Открытые позиции:\nвход 8 лотов по цене 5.9 RUB\nожидаем выход по цене 5.91 RUB"
    );
}

#[test]
fn sleeping_report_counts_minutes() {
    let state = State::Sleeping(0, 3540);
    assert_eq!(state_report(&state, 600), "Спим 59 минут, уже проспали 10 минут");
}

#[test]
fn stop_notes_open_positions_only() {
    let seeking = State::Seeking(Quotation { units: 1000, nano: 0 });
    assert!(open_position_note(&seeking).is_none());
    let pos = open_position(
        Quotation { units: 5, nano: 90_0000000 },
        8,
        OrderDirection::Sell,
        String::from("1001"),
    );
    let note = open_position_note(&State::InPosition(pos)).unwrap();
    assert_eq!(note, "Есть открытые позиции: 8 лотов по 5.9 RUB");
}

#[test]
fn sleep_announcement_counts_minutes() {
    assert_eq!(sleep_announcement(3540), "Идём спать на 59 минут!");
}
