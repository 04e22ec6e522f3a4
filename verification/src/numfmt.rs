//! Verified decimal rendering: numbers to strings, with the zero-padding and
//! trailing-zero stripping the money display calls for.

use vstd::prelude::*;

verus! {

/// The character for one decimal digit.
pub open spec fn digit_char(d: int) -> char {
    if d == 0 {
        '0'
    } else if d == 1 {
        '1'
    } else if d == 2 {
        '2'
    } else if d == 3 {
        '3'
    } else if d == 4 {
        '4'
    } else if d == 5 {
        '5'
    } else if d == 6 {
        '6'
    } else if d == 7 {
        '7'
    } else if d == 8 {
        '8'
    } else {
        '9'
    }
}

/// The decimal digits of a non-negative number, most significant first.
pub open spec fn dec_digits(n: int) -> Seq<char>
    decreases n,
{
    if n < 10 {
        seq![digit_char(n)]
    } else {
        dec_digits(n / 10).push(digit_char(n % 10))
    }
}

/// The decimal rendering of a signed number.
pub open spec fn dec_signed(n: int) -> Seq<char> {
    if n >= 0 {
        dec_digits(n)
    } else {
        seq!['-'] + dec_digits(-n)
    }
}

/// Exactly `k` decimal digits of `n`, zero-padded at the front.
pub open spec fn dec_digits_k(n: int, k: nat) -> Seq<char>
    decreases k,
{
    if k == 0 {
        Seq::<char>::empty()
    } else {
        dec_digits_k(n / 10, (k - 1) as nat).push(digit_char(n % 10))
    }
}

/// Drop trailing zero digits, but keep at least one digit.
pub open spec fn strip_zeros(s: Seq<char>) -> Seq<char>
    decreases s.len(),
{
    if s.len() <= 1 {
        s
    } else if s[s.len() - 1] == '0' {
        strip_zeros(s.drop_last())
    } else {
        s
    }
}

proof fn lemma_dec_digits_len_pos(n: int)
    ensures
        dec_digits(n).len() >= 1,
    decreases n,
{
    if n >= 10 {
        lemma_dec_digits_len_pos(n / 10);
    }
}

/// Decimal rendering tells numbers apart: distinct non-negative numbers
/// never render to the same digit sequence.
pub proof fn lemma_dec_digits_injective(a: int, b: int)
    requires
        0 <= a,
        0 <= b,
        a != b,
    ensures
        dec_digits(a) != dec_digits(b),
    decreases a + b,
{
    let da = dec_digits(a);
    let db = dec_digits(b);
    if a < 10 && b < 10 {
        assert(da[0] == digit_char(a) && db[0] == digit_char(b));
        assert(digit_char(a) != digit_char(b));
    } else if a < 10 {
        lemma_dec_digits_len_pos(b / 10);
        assert(da.len() == 1 && db.len() >= 2);
    } else if b < 10 {
        lemma_dec_digits_len_pos(a / 10);
        assert(db.len() == 1 && da.len() >= 2);
    } else {
        assert(da == dec_digits(a / 10).push(digit_char(a % 10)));
        assert(db == dec_digits(b / 10).push(digit_char(b % 10)));
        if a % 10 != b % 10 {
            assert(da.last() == digit_char(a % 10) && db.last() == digit_char(b % 10));
            assert(digit_char(a % 10) != digit_char(b % 10));
        } else {
            assert(a / 10 != b / 10) by {
                assert(a == 10 * (a / 10) + a % 10 && b == 10 * (b / 10) + b % 10);
            }
            lemma_dec_digits_injective(a / 10, b / 10);
            if da == db {
                assert(da.drop_last() =~= dec_digits(a / 10));
                assert(db.drop_last() =~= dec_digits(b / 10));
                assert(false);
            }
        }
    }
}

proof fn lemma_dec_digits_k_len(n: int, k: nat)
    ensures
        dec_digits_k(n, k).len() == k,
    decreases k,
{
    if k > 0 {
        lemma_dec_digits_k_len(n / 10, (k - 1) as nat);
    }
}

/// Appends one digit character.
fn push_digit(s: String, d: u64) -> (r: String)
    requires
        d < 10,
    ensures
        r@ == s@.push(digit_char(d as int)),
{
    let t: &str = if d == 0 {
        "0"
    } else if d == 1 {
        "1"
    } else if d == 2 {
        "2"
    } else if d == 3 {
        "3"
    } else if d == 4 {
        "4"
    } else if d == 5 {
        "5"
    } else if d == 6 {
        "6"
    } else if d == 7 {
        "7"
    } else if d == 8 {
        "8"
    } else {
        "9"
    };
    proof {
        reveal_strlit("0");
        reveal_strlit("1");
        reveal_strlit("2");
        reveal_strlit("3");
        reveal_strlit("4");
        reveal_strlit("5");
        reveal_strlit("6");
        reveal_strlit("7");
        reveal_strlit("8");
        reveal_strlit("9");
        assert(s@ + t@ =~= s@.push(digit_char(d as int)));
    }
    s.concat(t)
}

/// Renders a non-negative number in decimal.
pub fn u64_to_dec(n: u64) -> (r: String)
    ensures
        r@ == dec_digits(n as int),
    decreases n,
{
    if n < 10 {
        let s = push_digit(String::new(), n);
        proof {
            assert(Seq::<char>::empty().push(digit_char(n as int)) =~= seq![
                digit_char(n as int),
            ]);
        }
        s
    } else {
        let s = u64_to_dec(n / 10);
        push_digit(s, n % 10)
    }
}

/// Renders a signed number in decimal, with a leading minus where due.
pub fn i64_to_dec(n: i64) -> (r: String)
    ensures
        r@ == dec_signed(n as int),
{
    if n >= 0 {
        u64_to_dec(n as u64)
    } else {
        let m: u64 = (-(n as i128)) as u64;
        let sign = String::new().concat("-");
        let rest = u64_to_dec(m);
        proof {
            reveal_strlit("-");
            assert(sign@ =~= seq!['-']);
            assert(sign@ + rest@ =~= dec_signed(n as int));
        }
        sign.concat(rest.as_str())
    }
}

/// Renders exactly `k` digits of `n`, zero-padded at the front.
fn render_k(m: u64, k: u32) -> (r: String)
    ensures
        r@ == dec_digits_k(m as int, k as nat),
    decreases k,
{
    if k == 0 {
        let s = String::new();
        proof {
            assert(s@ =~= dec_digits_k(m as int, 0));
        }
        s
    } else {
        let s = render_k(m / 10, k - 1);
        push_digit(s, m % 10)
    }
}

/// Renders a nine-digit fractional part with its trailing zeros stripped,
/// never to fewer than one digit.
pub fn frac_to_dec(nano: u32) -> (r: String)
    requires
        nano < 1_000_000_000,
    ensures
        r@ == strip_zeros(dec_digits_k(nano as int, 9)),
{
    let mut m: u32 = nano;
    let mut k: u32 = 9;
    while k > 1 && m % 10 == 0
        invariant
            1 <= k <= 9,
            strip_zeros(dec_digits_k(nano as int, 9)) == strip_zeros(
                dec_digits_k(m as int, k as nat),
            ),
        decreases k,
    {
        proof {
            lemma_dec_digits_k_len(m as int, k as nat);
            lemma_dec_digits_k_len(m as int / 10, (k - 1) as nat);
            assert(dec_digits_k(m as int, k as nat).drop_last() =~= dec_digits_k(
                m as int / 10,
                (k - 1) as nat,
            ));
        }
        m = m / 10;
        k = k - 1;
    }
    proof {
        lemma_dec_digits_k_len(m as int, k as nat);
        if k > 1 {
            assert(digit_char(m as int % 10) != '0');
        }
        assert(strip_zeros(dec_digits_k(m as int, k as nat)) == dec_digits_k(
            m as int,
            k as nat,
        ));
    }
    render_k(m as u64, k)
}

} // verus!
