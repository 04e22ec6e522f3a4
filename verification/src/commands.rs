//! The command channel's vocabulary and the replies the core owes for each
//! request: a status report of the current lifecycle state, the day's
//! statistics, or a stop. The front end only ferries these values; what is
//! said for each state is decided and proved here.

use vstd::prelude::*;

verus! {

use crate::lifecycle::PosState;
use crate::lifecycle::State;
use crate::numfmt::dec_digits;
use crate::numfmt::dec_signed;

/// A request pushed to the control loop by the front end.
#[derive(Clone, Copy, PartialEq, Eq, Structural, Debug)]
pub enum RequestType {
    Something,
    StateRequest,
    StatRequest,
    StopRequest,
}

/// A chat command the front end understands.
#[derive(Clone, Copy, PartialEq, Eq, Structural, Debug)]
pub enum Command {
    Help,
    State,
    Stat,
    Stop,
}

/// The request a chat command translates to, with the acknowledgement sent
/// back at once; help is answered by the front end itself and translates to
/// nothing.
pub fn command_request(cmd: &Command) -> (r: Option<(RequestType, String)>)
    ensures
        match *cmd {
            Command::Help => r is None,
            Command::State => r matches Some(p) && p.0 == RequestType::StateRequest && p.1@
                == "Запрашиваю состояние портфеля"@,
            Command::Stat => r matches Some(p) && p.0 == RequestType::StatRequest && p.1@
                == "Запрашиваю статистику"@,
            Command::Stop => r matches Some(p) && p.0 == RequestType::StopRequest && p.1@
                == "Запрашиваю остановку"@,
        },
{
    match cmd {
        Command::Help => None,
        Command::State => Some(
            (RequestType::StateRequest, String::new().concat("Запрашиваю состояние портфеля")),
        ),
        Command::Stat => Some(
            (RequestType::StatRequest, String::new().concat("Запрашиваю статистику")),
        ),
        Command::Stop => Some(
            (RequestType::StopRequest, String::new().concat("Запрашиваю остановку")),
        ),
    }
}

/// May the state be reported at all: every money value that would be shown
/// is in canonical form.
pub open spec fn reportable(state: State) -> bool {
    match state {
        State::InPosition(pos) => pos.price_in.is_normal() && pos.price_out.is_normal(),
        State::Seeking(m) => m.is_normal(),
        State::Sleeping(_, _) => true,
    }
}

/// The status text owed for a state request: the open position with its
/// entry (and, once placed, exit) order, the portfolio while seeking, or
/// how long the loop has slept of its owed sleep.
pub open spec fn spec_state_report(state: State, elapsed_secs: u64) -> Seq<char> {
    match state {
        State::InPosition(pos) => match pos.state {
            PosState::WaitClose => "Открытые позиции:\nвход "@ + dec_signed(pos.lots as int)
                + " лотов по цене "@ + pos.price_in.spec_display()
                + " RUB\nожидаем выход по цене "@ + pos.price_out.spec_display() + " RUB"@,
            PosState::PartialClose => "Открытые позиции:\nвход "@ + dec_signed(pos.lots as int)
                + " лотов по цене "@ + pos.price_in.spec_display()
                + " RUB\nожидаем выход по цене "@ + pos.price_out.spec_display()
                + " RUB, частично закрыто(пока не могу узнать сколько точно :))"@,
            PosState::WaitOpen => "Ожидаем открытия позиции:\nвход "@ + dec_signed(
                pos.lots as int,
            ) + " лотов по цене "@ + pos.price_in.spec_display() + " RUB"@,
            PosState::PartialOpen => "Открытые позиции:\nвход "@ + dec_signed(pos.lots as int)
                + " лотов (из x лотов, хз сколько :)) по цене "@ + pos.price_in.spec_display()
                + " RUB"@,
            PosState::Hold => "Открытые позиции:\nвход "@ + dec_signed(pos.lots as int)
                + " лотов по цене "@ + pos.price_in.spec_display()
                + " RUB\nзаявка на закрытие ещё не выставлена"@,
        },
        State::Seeking(m) => "Ищем точку входа, портфель: "@ + m.spec_display() + " RUB"@,
        State::Sleeping(_, d) => "Спим "@ + dec_digits((d / 60) as int)
            + " минут, уже проспали "@ + dec_digits((elapsed_secs / 60) as int) + " минут"@,
    }
}

/// Builds the status text for a state request. For a sleeping state the
/// caller passes how many seconds have been slept so far.
pub fn state_report(state: &State, elapsed_secs: u64) -> (r: String)
    requires
        reportable(*state),
    ensures
        r@ == spec_state_report(*state, elapsed_secs),
{
    match state {
        State::InPosition(pos) => {
            let lots = crate::numfmt::i64_to_dec(pos.lots);
            let p_in = pos.price_in.display();
            match pos.state {
                PosState::WaitClose => {
                    let p_out = pos.price_out.display();
                    let s = String::new().concat("Открытые позиции:\nвход ").concat(
                        lots.as_str(),
                    ).concat(" лотов по цене ").concat(p_in.as_str()).concat(
                        " RUB\nожидаем выход по цене ",
                    ).concat(p_out.as_str()).concat(" RUB");
                    proof {
                        assert(s@ =~= spec_state_report(*state, elapsed_secs));
                    }
                    s
                },
                PosState::PartialClose => {
                    let p_out = pos.price_out.display();
                    let s = String::new().concat("Открытые позиции:\nвход ").concat(
                        lots.as_str(),
                    ).concat(" лотов по цене ").concat(p_in.as_str()).concat(
                        " RUB\nожидаем выход по цене ",
                    ).concat(p_out.as_str()).concat(
                        " RUB, частично закрыто(пока не могу узнать сколько точно :))",
                    );
                    proof {
                        assert(s@ =~= spec_state_report(*state, elapsed_secs));
                    }
                    s
                },
                PosState::WaitOpen => {
                    let s = String::new().concat("Ожидаем открытия позиции:\nвход ").concat(
                        lots.as_str(),
                    ).concat(" лотов по цене ").concat(p_in.as_str()).concat(" RUB");
                    proof {
                        assert(s@ =~= spec_state_report(*state, elapsed_secs));
                    }
                    s
                },
                PosState::PartialOpen => {
                    let s = String::new().concat("Открытые позиции:\nвход ").concat(
                        lots.as_str(),
                    ).concat(" лотов (из x лотов, хз сколько :)) по цене ").concat(
                        p_in.as_str(),
                    ).concat(" RUB");
                    proof {
                        assert(s@ =~= spec_state_report(*state, elapsed_secs));
                    }
                    s
                },
                PosState::Hold => {
                    let s = String::new().concat("Открытые позиции:\nвход ").concat(
                        lots.as_str(),
                    ).concat(" лотов по цене ").concat(p_in.as_str()).concat(
                        " RUB\nзаявка на закрытие ещё не выставлена",
                    );
                    proof {
                        assert(s@ =~= spec_state_report(*state, elapsed_secs));
                    }
                    s
                },
            }
        },
        State::Seeking(m) => {
            let shown = m.display();
            let s = String::new().concat("Ищем точку входа, портфель: ").concat(
                shown.as_str(),
            ).concat(" RUB");
            proof {
                assert(s@ =~= spec_state_report(*state, elapsed_secs));
            }
            s
        },
        State::Sleeping(_, d) => {
            let mins = crate::numfmt::u64_to_dec(*d / 60);
            let slept = crate::numfmt::u64_to_dec(elapsed_secs / 60);
            let s = String::new().concat("Спим ").concat(mins.as_str()).concat(
                " минут, уже проспали ",
            ).concat(slept.as_str()).concat(" минут");
            proof {
                assert(s@ =~= spec_state_report(*state, elapsed_secs));
            }
            s
        },
    }
}

/// The note owed before stopping when a position is still open: its lot
/// count and entry price; nothing when no position is open.
pub fn open_position_note(state: &State) -> (r: Option<String>)
    requires
        reportable(*state),
    ensures
        match *state {
            State::InPosition(pos) => r matches Some(s) && s@ == "Есть открытые позиции: "@
                + dec_signed(pos.lots as int) + " лотов по "@ + pos.price_in.spec_display()
                + " RUB"@,
            _ => r is None,
        },
{
    match state {
        State::InPosition(pos) => {
            let lots = crate::numfmt::i64_to_dec(pos.lots);
            let p_in = pos.price_in.display();
            let s = String::new().concat("Есть открытые позиции: ").concat(lots.as_str()).concat(
                " лотов по ",
            ).concat(p_in.as_str()).concat(" RUB");
            proof {
                assert(s@ =~= "Есть открытые позиции: "@ + dec_signed(pos.lots as int)
                    + " лотов по "@ + pos.price_in.spec_display() + " RUB"@);
            }
            Some(s)
        },
        State::Seeking(_) => None,
        State::Sleeping(_, _) => None,
    }
}

/// The announcement sent when the loop parks for the night: the owed sleep
/// in whole minutes.
pub fn sleep_announcement(dur_secs: u64) -> (r: String)
    ensures
        r@ == "Идём спать на "@ + dec_digits((dur_secs / 60) as int) + " минут!"@,
{
    let mins = crate::numfmt::u64_to_dec(dur_secs / 60);
    let s = String::new().concat("Идём спать на ").concat(mins.as_str()).concat(" минут!");
    proof {
        assert(s@ =~= "Идём спать на "@ + dec_digits((dur_secs / 60) as int) + " минут!"@);
    }
    s
}

} // verus!
