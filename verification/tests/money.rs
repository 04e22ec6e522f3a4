use tradebot::Quotation;

#[test]
fn sub_quotation() {
    let x = Quotation { units: 4, nano: 22_0000000 };
    let y = Quotation { units: 2, nano: 12_0000000 };
    assert_eq!(Quotation { units: 2, nano: 10_0000000 }, x.sub(y));
    let x = Quotation { units: 3, nano: 22_0000000 };
    let y = Quotation { units: 5, nano: 22_0000000 };
    assert_eq!(Quotation { units: -2, nano: 00_0000000 }, x.sub(y));
    let x = Quotation { units: 4, nano: 22_0000000 };
    let y = Quotation { units: 3, nano: 33_0000000 };
    assert_eq!(Quotation { units: 0, nano: 89_0000000 }, x.sub(y));
}

#[test]
fn sum_quotation() {
    let x = Quotation { units: 3, nano: 22_0000000 };
    let y = Quotation { units: 2, nano: 12_0000000 };
    assert_eq!(Quotation { units: 5, nano: 34_0000000 }, x.add(y));
    let x = Quotation { units: 3, nano: 82_0000000 };
    let y = Quotation { units: 5, nano: 43_0000000 };
    assert_eq!(Quotation { units: 9, nano: 25_0000000 }, x.add(y));
    let x = Quotation { units: 4, nano: 22_0000000 };
    let y = Quotation { units: 3, nano: 78_0000000 };
    assert_eq!(Quotation { units: 8, nano: 00_0000000 }, x.add(y));
}

#[test]
fn mul_quotation() {
    let x = Quotation { units: 3, nano: 02_0000000 };
    let y = Quotation { units: 2, nano: 01_0000000 };
    assert_eq!(Quotation { units: 6, nano: 07_0200000 }, x.mul(y));
    let x = Quotation { units: 3, nano: 20_0000000 };
    let y = Quotation { units: 2, nano: 01_0000000 };
    assert_eq!(Quotation { units: 6, nano: 43_2000000 }, x.mul(y));
    let x = Quotation { units: 3, nano: 22_0000000 };
    let y = Quotation { units: 2, nano: 12_0000000 };
    assert_eq!(Quotation { units: 6, nano: 82_6400000 }, x.mul(y));
    let x = Quotation { units: 12, nano: 22_0000000 };
    let y = Quotation { units: 66, nano: 78_0000000 };
    assert_eq!(Quotation { units: 816, nano: 05_1600000 }, x.mul(y));
    let x = Quotation { units: 999999, nano: 99_9999999 };
    let y = Quotation { units: 999999, nano: 99_9999999 };
    x.mul(y);
    let x = Quotation { units: 20, nano: 14_2112222 };
    let y = Quotation { units: 0, nano: 14_0412543 };
    assert_eq!(Quotation { units: 2, nano: 82_8205198 }, x.mul(y));
}

#[test]
fn add_is_associative() {
    let a = Quotation { units: 1, nano: 70_0000000 };
    let b = Quotation { units: 2, nano: 80_0000000 };
    let c = Quotation { units: 3, nano: 90_0000000 };
    assert_eq!(a.add(b).add(c), a.add(b.add(c)));
}

#[test]
fn sub_undoes_add() {
    let a = Quotation { units: 7, nano: 35_0000000 };
    let b = Quotation { units: 1, nano: 99_0000000 };
    assert_eq!(a.add(b).sub(b), a);
}

#[test]
fn add_keeps_sign_consistency() {
    let a = Quotation { units: 3, nano: 82_0000000 };
    let b = Quotation { units: 5, nano: 43_0000000 };
    let r = a.add(b);
    assert!(r.nano >= 0 && r.nano < 1_000_000_000);
    let r = a.sub(b);
    assert!(r.nano >= 0 && r.nano < 1_000_000_000);
}

#[test]
fn display_strips_trailing_zeros() {
    assert_eq!(Quotation { units: 5, nano: 90_0000000 }.display(), "5.9");
    assert_eq!(Quotation { units: 5, nano: 09_0000000 }.display(), "5.09");
    assert_eq!(Quotation { units: 2, nano: 0 }.display(), "2.0");
    assert_eq!(Quotation { units: 1000, nano: 1 }.display(), "1000.000000001");
    assert_eq!(Quotation { units: -3, nano: 89_0000000 }.display(), "-3.89");
}

#[test]
fn mul_by_whole_lots_is_exact() {
    // A whole number of lots times a price loses nothing.
    let lots = Quotation { units: 8, nano: 0 };
    let price = Quotation { units: 5, nano: 90_0000000 };
    assert_eq!(lots.mul(price), Quotation { units: 47, nano: 20_0000000 });
    let loss = Quotation { units: -1, nano: 99_0000000 };
    assert_eq!(lots.mul(loss), Quotation { units: -1, nano: 92_0000000 });
}
