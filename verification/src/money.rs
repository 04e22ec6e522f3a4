//! Fixed-point money values: `units` whole units plus `nano` billionths.
//! All prices, balances and profits downstream are computed through this type.

use vstd::prelude::*;

verus! {

use crate::numfmt::dec_digits_k;
use crate::numfmt::dec_signed;
use crate::numfmt::frac_to_dec;
use crate::numfmt::i64_to_dec;
use crate::numfmt::strip_zeros;

/// A decimal-like money value: `units + nano / 1_000_000_000`.
#[derive(Clone, Copy, PartialEq, Eq, Structural, Debug)]
pub struct Quotation {
    pub units: i64,
    pub nano: i32,
}

impl Quotation {
    /// The exact value, measured in billionths of a unit.
    pub open spec fn as_nanos(self) -> int {
        self.units * 1_000_000_000 + self.nano
    }

    /// The fractional part carries at most nine decimal digits.
    pub open spec fn nano_in_range(self) -> bool {
        -1_000_000_000 < self.nano < 1_000_000_000
    }

    /// Canonical form kept by `add` and `sub`: the fractional part is
    /// non-negative, so a value never pairs positive `units` with a
    /// negative `nano`.
    pub open spec fn is_normal(self) -> bool {
        0 <= self.nano < 1_000_000_000
    }

    /// What `add` computes: sum the fractional parts and carry one unit
    /// when they exceed nine digits.
    pub open spec fn spec_add(self, rhs: Quotation) -> Quotation {
        let nano_sum = self.nano + rhs.nano;
        let units_sum = self.units + rhs.units;
        if nano_sum > 999_999_999 {
            Quotation { units: (units_sum + 1) as i64, nano: (nano_sum - 1_000_000_000) as i32 }
        } else {
            Quotation { units: units_sum as i64, nano: nano_sum as i32 }
        }
    }

    /// What `sub` computes: subtract the fractional parts and borrow one
    /// unit when they go negative.
    pub open spec fn spec_sub(self, rhs: Quotation) -> Quotation {
        let nano_sub = self.nano - rhs.nano;
        let units_sub = self.units - rhs.units;
        if nano_sub < 0 {
            Quotation { units: (units_sub - 1) as i64, nano: (nano_sub + 1_000_000_000) as i32 }
        } else {
            Quotation { units: units_sub as i64, nano: nano_sub as i32 }
        }
    }

    /// Exact addition: no precision is ever lost.
    pub fn add(self, rhs: Quotation) -> (r: Quotation)
        requires
            self.nano_in_range(),
            rhs.nano_in_range(),
            i64::MIN < self.units + rhs.units,
            self.units + rhs.units < i64::MAX,
        ensures
            r == self.spec_add(rhs),
            r.as_nanos() == self.as_nanos() + rhs.as_nanos(),
            self.nano + rhs.nano > -1_000_000_000 ==> r.nano_in_range(),
            self.is_normal() && rhs.is_normal() ==> r.is_normal(),
    {
        let mut nano_sum: i32 = self.nano + rhs.nano;
        let mut units_sum: i64 = self.units + rhs.units;
        if nano_sum > 999_999_999 {
            nano_sum = nano_sum - 1_000_000_000;
            units_sum = units_sum + 1;
        }
        Quotation { units: units_sum, nano: nano_sum }
    }

    /// Exact subtraction: no precision is ever lost.
    pub fn sub(self, rhs: Quotation) -> (r: Quotation)
        requires
            self.nano_in_range(),
            rhs.nano_in_range(),
            i64::MIN < self.units - rhs.units,
            self.units - rhs.units < i64::MAX,
        ensures
            r == self.spec_sub(rhs),
            r.as_nanos() == self.as_nanos() - rhs.as_nanos(),
            self.nano - rhs.nano < 1_000_000_000 ==> r.nano_in_range(),
            self.is_normal() && rhs.is_normal() ==> r.is_normal(),
    {
        let mut nano_sub: i32 = self.nano - rhs.nano;
        let mut units_sub: i64 = self.units - rhs.units;
        if nano_sub < 0 {
            nano_sub = 1_000_000_000 + nano_sub;
            units_sub = units_sub - 1;
        }
        Quotation { units: units_sub, nano: nano_sub }
    }
}

/// Magnitude of an integer.
pub open spec fn iabs(a: int) -> int {
    if a >= 0 {
        a
    } else {
        -a
    }
}

/// Division truncating toward zero, as the machine divides: the quotient of
/// the magnitudes, carrying the dividend's sign. `b` must be positive.
pub open spec fn tdiv(a: int, b: int) -> int {
    if a >= 0 {
        a / b
    } else {
        -((-a) / b)
    }
}

/// Truncating division for a divisor of either sign, as the machine
/// divides: the quotient of the magnitudes with the usual sign rule.
pub open spec fn tdiv_signed(a: int, b: int) -> int {
    if b >= 0 {
        tdiv(a, b)
    } else {
        -tdiv(a, -b)
    }
}

/// Remainder of truncating division: what `tdiv` leaves over, carrying the
/// dividend's sign.
pub open spec fn trem(a: int, b: int) -> int {
    if a >= 0 {
        a % b
    } else {
        -((-a) % b)
    }
}

/// The machine's division and remainder recompose the dividend.
pub proof fn lemma_tdiv_trem(a: int, b: int)
    requires
        b > 0,
    ensures
        b * tdiv(a, b) + trem(a, b) == a,
        -b < trem(a, b) < b,
        iabs(tdiv(a, b)) <= iabs(a),
{
    vstd::arithmetic::div_mod::lemma_fundamental_div_mod(a, b);
    vstd::arithmetic::div_mod::lemma_fundamental_div_mod(-a, b);
    if a < 0 {
        let q = (-a) / b;
        let r0 = (-a) % b;
        assert(-a == b * q + r0);
        assert(tdiv(a, b) == -q);
        assert(trem(a, b) == -r0);
        assert(b * (-q) == -(b * q)) by (nonlinear_arith);
    }
}

/// Powers of ten.
pub open spec fn pow10(k: nat) -> int
    decreases k,
{
    if k == 0 {
        1
    } else {
        10 * pow10((k - 1) as nat)
    }
}

/// How many trailing zero digits a decimal carries: the scale of a fractional
/// part. Zero itself counts none.
pub open spec fn dec_trailing_zeros(n: int) -> int
    decreases iabs(n),
{
    if n == 0 {
        0
    } else if trem(n, 10) != 0 {
        0
    } else {
        1 + dec_trailing_zeros(tdiv(n, 10))
    }
}

/// The count of digits from the lowest non-zero digit to the top, accumulated
/// digit by digit from the low end: the significant span of a decimal.
pub open spec fn dec_span(n: int, counting: bool, acc: int) -> int
    decreases iabs(n),
{
    if n == 0 {
        acc
    } else {
        let c = counting || trem(n, 10) != 0;
        dec_span(tdiv(n, 10), c, if c {
            acc + 1
        } else {
            acc
        })
    }
}

/// Drop low digits until at most nine remain (only applied from above; a
/// value already at or below nine digits is untouched).
pub open spec fn trunc9(n: int) -> int
    decreases n,
{
    if n > 999_999_999 {
        trunc9(n / 10)
    } else {
        n
    }
}

/// Divide by ten, `k` times, truncating toward zero at each step.
pub open spec fn shift_div(n: int, k: int) -> int
    decreases k,
{
    if k <= 0 {
        n
    } else {
        shift_div(tdiv(n, 10), k - 1)
    }
}

proof fn lemma_pow10_pos(k: nat)
    ensures
        pow10(k) >= 1,
    decreases k,
{
    if k > 0 {
        lemma_pow10_pos((k - 1) as nat);
    }
}

proof fn lemma_pow10_mono(a: nat, b: nat)
    requires
        a <= b,
    ensures
        pow10(a) <= pow10(b),
    decreases b,
{
    if a < b && b > 0 {
        lemma_pow10_mono(a, (b - 1) as nat);
        lemma_pow10_pos((b - 1) as nat);
    }
}

proof fn lemma_trailing_zeros_pow(n: int)
    requires
        n != 0,
    ensures
        dec_trailing_zeros(n) >= 0,
        iabs(n) >= pow10(dec_trailing_zeros(n) as nat),
    decreases iabs(n),
{
    if trem(n, 10) == 0 {
        let t = tdiv(n, 10);
        assert(t != 0 && iabs(t) == iabs(n) / 10 && 10 * iabs(t) <= iabs(n));
        lemma_trailing_zeros_pow(t);
    }
}

proof fn lemma_span_bound(n: int, counting: bool, acc: int, k: nat)
    requires
        iabs(n) < pow10(k),
    ensures
        acc <= dec_span(n, counting, acc) <= acc + k,
    decreases iabs(n),
{
    if n != 0 {
        lemma_pow10_pos(k);
        assert(k >= 1) by {
            if k == 0 {
                assert(pow10(0) == 1);
            }
        }
        let c = counting || trem(n, 10) != 0;
        let t = tdiv(n, 10);
        assert(iabs(t) == iabs(n) / 10);
        assert(iabs(t) < pow10((k - 1) as nat));
        if c {
            lemma_span_bound(t, c, acc + 1, (k - 1) as nat);
        } else {
            lemma_span_bound(t, c, acc, (k - 1) as nat);
        }
    }
}

proof fn lemma_trunc9_bounds(n: int)
    ensures
        n >= 0 ==> 0 <= trunc9(n) <= n,
        n >= 0 ==> trunc9(n) <= 999_999_999,
        n < 0 ==> trunc9(n) == n,
    decreases n,
{
    if n > 999_999_999 {
        lemma_trunc9_bounds(n / 10);
    }
}

proof fn lemma_shift_div_bounds(n: int, k: int)
    ensures
        iabs(shift_div(n, k)) <= iabs(n),
        n >= 0 ==> shift_div(n, k) >= 0,
    decreases k,
{
    if k > 0 {
        assert(iabs(tdiv(n, 10)) <= iabs(n));
        lemma_shift_div_bounds(tdiv(n, 10), k - 1);
    }
}

/// Truncating division by a positive divisor, as `/` rounds in executable
/// code.
fn tdiv_i64(a: i64, b: i64) -> (r: i64)
    requires
        b > 0,
        a > i64::MIN,
    ensures
        r == tdiv(a as int, b as int),
{
    if a >= 0 {
        ((a as u64) / (b as u64)) as i64
    } else {
        -((((-a) as u64) / (b as u64)) as i64)
    }
}

/// Truncating division by a divisor of either sign, as `/` rounds in
/// executable code.
pub(crate) fn tdiv_i64_signed(a: i64, b: i64) -> (r: i64)
    requires
        b != 0,
        a > i64::MIN,
        b > i64::MIN,
    ensures
        r == tdiv_signed(a as int, b as int),
{
    proof {
        lemma_tdiv_trem(a as int, iabs(b as int));
    }
    if b > 0 {
        tdiv_i64(a, b)
    } else {
        -tdiv_i64(a, -b)
    }
}

/// Truncating remainder by a positive divisor, as `%` rounds in executable
/// code.
fn trem_i64(a: i64, b: i64) -> (r: i64)
    requires
        b > 0,
        a > i64::MIN,
    ensures
        r == trem(a as int, b as int),
{
    proof {
        vstd::arithmetic::div_mod::lemma_fundamental_div_mod(a as int, b as int);
        vstd::arithmetic::div_mod::lemma_fundamental_div_mod(-(a as int), b as int);
    }
    if a >= 0 {
        ((a as u64) % (b as u64)) as i64
    } else {
        -((((-a) as u64) % (b as u64)) as i64)
    }
}

/// Counts the trailing zero digits of a fractional part.
fn trailing_zeros_of(n0: i32) -> (r: i32)
    ensures
        r == dec_trailing_zeros(n0 as int),
        0 <= r <= 10,
{
    proof {
        if n0 != 0 {
            lemma_trailing_zeros_pow(n0 as int);
            if dec_trailing_zeros(n0 as int) > 10 {
                lemma_pow10_mono(11, dec_trailing_zeros(n0 as int) as nat);
                reveal_with_fuel(pow10, 12);
                assert(false);
            }
        }
    }
    let mut n: i64 = n0 as i64;
    let mut res: i32 = 0;
    while n != 0 && trem_i64(n, 10) == 0
        invariant
            n > i64::MIN,
            dec_trailing_zeros(n0 as int) == res + dec_trailing_zeros(n as int),
            0 <= res <= 10,
            res + dec_trailing_zeros(n as int) <= 10,
            dec_trailing_zeros(n as int) >= 0,
        decreases iabs(n as int),
    {
        proof {
            assert(dec_trailing_zeros(n as int) == 1 + dec_trailing_zeros(
                tdiv(n as int, 10),
            ));
            if tdiv(n as int, 10) != 0 {
                lemma_trailing_zeros_pow(tdiv(n as int, 10));
            }
        }
        res = res + 1;
        n = tdiv_i64(n, 10);
    }
    res
}

/// Counts the significant span of a product of fractional parts: the digits
/// from the lowest non-zero one to the top.
fn span_of(n0: i64) -> (r: i32)
    requires
        n0 > i64::MIN,
    ensures
        r == dec_span(n0 as int, false, 0),
        0 <= r <= 19,
{
    proof {
        reveal_with_fuel(pow10, 20);
        lemma_span_bound(n0 as int, false, 0, 19);
    }
    let mut n: i64 = n0;
    let mut counting: bool = false;
    let mut res: i32 = 0;
    while n != 0
        invariant
            n > i64::MIN,
            dec_span(n0 as int, false, 0) == dec_span(n as int, counting, res as int),
            0 <= res <= 19,
            dec_span(n as int, counting, res as int) <= 19,
            res <= dec_span(n as int, counting, res as int),
        decreases iabs(n as int),
    {
        proof {
            reveal_with_fuel(pow10, 20);
            lemma_span_bound(n as int, counting, res as int, 19);
            let c = counting || trem(n as int, 10) != 0;
            lemma_span_bound(
                tdiv(n as int, 10),
                c,
                if c {
                    res + 1
                } else {
                    res as int
                },
                19,
            );
            assert(iabs(tdiv(n as int, 10)) <= iabs(n as int));
        }
        if trem_i64(n, 10) != 0 {
            counting = true;
        }
        if counting {
            res = res + 1;
        }
        n = tdiv_i64(n, 10);
    }
    res
}

impl Quotation {
    /// What `mul` computes. The whole-unit and unit-times-fraction products
    /// are exact; the product of the two fractional parts is rescaled by
    /// digit counting and truncated beyond nine significant digits, the
    /// documented lossy edge.
    pub open spec fn spec_mul(self, rhs: Quotation) -> Quotation {
        let uu = self.units * rhs.units;
        let un = self.units * rhs.nano;
        let first = Quotation {
            units: (uu + tdiv(un, 1_000_000_000)) as i64,
            nano: trem(un, 1_000_000_000) as i32,
        };
        let nu = self.nano * rhs.units;
        let shift0 = (9 - dec_trailing_zeros(self.nano as int)) + (9 - dec_trailing_zeros(
            rhs.nano as int,
        )) - 1;
        let nn0 = self.nano * rhs.nano;
        let signs = dec_span(nn0, false, 0) - 1;
        let nn1 = trunc9(nn0);
        let nn2 = shift_div(nn1, shift0 - signs);
        let nano_total = nu + nn2;
        let second = Quotation {
            units: tdiv(nano_total, 1_000_000_000) as i64,
            nano: trem(nano_total, 1_000_000_000) as i32,
        };
        first.spec_add(second)
    }

    /// Fixed-point multiplication, exactly as `spec_mul` lays it out.
    pub fn mul(self, rhs: Quotation) -> (r: Quotation)
        requires
            self.nano_in_range(),
            rhs.nano_in_range(),
            -8_000_000_000 <= self.units <= 8_000_000_000,
            -8_000_000_000 <= rhs.units <= 8_000_000_000,
            -9_000_000_000_000_000_000 <= self.units * rhs.units <= 9_000_000_000_000_000_000,
        ensures
            r == self.spec_mul(rhs),
    {
        proof {
            assert(iabs(self.units * rhs.nano) <= 8_000_000_000 * 999_999_999)
                by (nonlinear_arith)
                requires
                    -8_000_000_000 <= self.units <= 8_000_000_000,
                    -1_000_000_000 < rhs.nano < 1_000_000_000,
            ;
            assert(iabs(self.nano * rhs.units) <= 999_999_999 * 8_000_000_000)
                by (nonlinear_arith)
                requires
                    -8_000_000_000 <= rhs.units <= 8_000_000_000,
                    -1_000_000_000 < self.nano < 1_000_000_000,
            ;
            assert(iabs(self.nano * rhs.nano) <= 999_999_999 * 999_999_999)
                by (nonlinear_arith)
                requires
                    -1_000_000_000 < self.nano < 1_000_000_000,
                    -1_000_000_000 < rhs.nano < 1_000_000_000,
            ;
        }
        let uu: i64 = self.units * rhs.units;
        let un: i64 = self.units * (rhs.nano as i64);
        let first = Quotation {
            units: uu + tdiv_i64(un, 1_000_000_000),
            nano: trem_i64(un, 1_000_000_000) as i32,
        };
        let nu: i64 = (self.nano as i64) * rhs.units;
        let shift0: i32 = (9 - trailing_zeros_of(self.nano)) + (9 - trailing_zeros_of(rhs.nano))
            - 1;
        let nn0: i64 = (self.nano as i64) * (rhs.nano as i64);
        let signs: i32 = span_of(nn0) - 1;
        let mut nn: i64 = nn0;
        while nn > 999_999_999
            invariant
                trunc9(nn0 as int) == trunc9(nn as int),
                nn0 >= nn > i64::MIN,
            decreases nn,
        {
            nn = nn / 10;
        }
        proof {
            lemma_trunc9_bounds(nn0 as int);
        }
        let shift: i32 = shift0 - signs;
        let ghost nn1 = nn as int;
        let mut j: i32 = 0;
        while j < shift
            invariant
                shift <= 20,
                0 <= j,
                j <= 20,
                nn > i64::MIN,
                iabs(nn as int) <= iabs(nn1),
                shift_div(nn1, shift as int) == shift_div(nn as int, shift - j),
            decreases shift - j,
        {
            proof {
                assert(iabs(tdiv(nn as int, 10)) <= iabs(nn as int));
            }
            nn = tdiv_i64(nn, 10);
            j = j + 1;
        }
        proof {
            if shift <= 0 {
                assert(shift_div(nn1, shift as int) == nn1);
            }
            lemma_shift_div_bounds(nn1, shift as int);
        }
        let nano_total: i64 = nu + nn;
        let second = Quotation {
            units: tdiv_i64(nano_total, 1_000_000_000),
            nano: trem_i64(nano_total, 1_000_000_000) as i32,
        };
        first.add(second)
    }

    /// The canonical rendering: whole units, a dot, then the fractional
    /// digits with their trailing zeros stripped (a zero fraction shows one
    /// zero digit).
    pub open spec fn spec_display(self) -> Seq<char> {
        dec_signed(self.units as int) + seq!['.'] + strip_zeros(dec_digits_k(self.nano as int, 9))
    }

    /// Renders the value for people to read.
    pub fn display(self) -> (r: String)
        requires
            self.is_normal(),
        ensures
            r@ == self.spec_display(),
    {
        let u = i64_to_dec(self.units);
        let dot = u.concat(".");
        let f = frac_to_dec(self.nano as u32);
        proof {
            reveal_strlit(".");
            assert(dot@ + f@ =~= self.spec_display());
        }
        dot.concat(f.as_str())
    }
}

proof fn lemma_shift_div_zero(k: int)
    ensures
        shift_div(0, k) == 0,
    decreases k,
{
    if k > 0 {
        lemma_shift_div_zero(k - 1);
    }
}

/// Multiplying by a whole number of units on the left loses nothing: the
/// result is exactly the scalar times the value.
pub proof fn lemma_mul_exact_int_left(a: Quotation, b: Quotation)
    requires
        a.nano == 0,
        b.nano_in_range(),
        -8_000_000_000 <= a.units <= 8_000_000_000,
        -8_000_000_000 <= b.units <= 8_000_000_000,
        -9_000_000_000_000_000_000 <= a.units * b.units <= 9_000_000_000_000_000_000,
    ensures
        a.spec_mul(b).as_nanos() == a.units * b.as_nanos(),
{
    let un = a.units * b.nano;
    lemma_tdiv_trem(un, 1_000_000_000);
    lemma_shift_div_zero(
        (9 - dec_trailing_zeros(a.nano as int)) + (9 - dec_trailing_zeros(b.nano as int)) - 1 - (
        dec_span(0, false, 0) - 1),
    );
    assert(iabs(un) <= 8_000_000_000 * 999_999_999) by (nonlinear_arith)
        requires
            -8_000_000_000 <= a.units <= 8_000_000_000,
            -1_000_000_000 < b.nano < 1_000_000_000,
            un == a.units * b.nano,
    ;
    assert(iabs(tdiv(un, 1_000_000_000)) <= 8_000_000_001) by {
        assert(1_000_000_000 * tdiv(un, 1_000_000_000) + trem(un, 1_000_000_000) == un);
    }
    let uu = a.units * b.units;
    let r = a.spec_mul(b);
    assert(r.as_nanos() == uu * 1_000_000_000 + un);
    assert(uu * 1_000_000_000 + un == a.units * (b.units * 1_000_000_000 + b.nano))
        by (nonlinear_arith)
        requires
            uu == a.units * b.units,
            un == a.units * b.nano,
    ;
}

/// Multiplying by a whole number of units on the right loses nothing.
pub proof fn lemma_mul_exact_int_right(a: Quotation, b: Quotation)
    requires
        a.nano_in_range(),
        b.nano == 0,
        -8_000_000_000 <= a.units <= 8_000_000_000,
        -8_000_000_000 <= b.units <= 8_000_000_000,
        -9_000_000_000_000_000_000 <= a.units * b.units <= 9_000_000_000_000_000_000,
    ensures
        a.spec_mul(b).as_nanos() == b.units * a.as_nanos(),
{
    let nu = a.nano * b.units;
    lemma_tdiv_trem(nu, 1_000_000_000);
    lemma_shift_div_zero(
        (9 - dec_trailing_zeros(a.nano as int)) + (9 - dec_trailing_zeros(b.nano as int)) - 1 - (
        dec_span(0, false, 0) - 1),
    );
    assert(iabs(nu) <= 999_999_999 * 8_000_000_000) by (nonlinear_arith)
        requires
            -8_000_000_000 <= b.units <= 8_000_000_000,
            -1_000_000_000 < a.nano < 1_000_000_000,
            nu == a.nano * b.units,
    ;
    assert(iabs(tdiv(nu, 1_000_000_000)) <= 8_000_000_001) by {
        assert(1_000_000_000 * tdiv(nu, 1_000_000_000) + trem(nu, 1_000_000_000) == nu);
    }
    let uu = a.units * b.units;
    let r = a.spec_mul(b);
    assert(r.as_nanos() == uu * 1_000_000_000 + nu);
    assert(uu * 1_000_000_000 + nu == b.units * (a.units * 1_000_000_000 + a.nano))
        by (nonlinear_arith)
        requires
            uu == a.units * b.units,
            nu == a.nano * b.units,
    ;
}

/// How far a product can reach: its units are bounded by the product of the
/// operands' units plus lower-order slack, and products of non-negative
/// values keep a well-ranged fractional part. This is what lets one product
/// feed the next multiplication.
pub proof fn lemma_mul_units_bound(a: Quotation, b: Quotation)
    requires
        a.nano_in_range(),
        b.nano_in_range(),
        -8_000_000_000 <= a.units <= 8_000_000_000,
        -8_000_000_000 <= b.units <= 8_000_000_000,
        -9_000_000_000_000_000_000 <= a.units * b.units <= 9_000_000_000_000_000_000,
    ensures
        iabs(a.spec_mul(b).units as int) <= iabs(a.units * b.units) + iabs(a.units as int) + iabs(b.units as int)
            + 1_000_000_003,
        a.nano >= 0 && b.nano >= 0 && b.units >= 0 ==> a.spec_mul(b).nano_in_range(),
        a.nano >= 0 && b.nano >= 0 && b.units >= 0 && a.units >= 0 ==> a.spec_mul(b).is_normal(),
        a.nano == 0 && a.units >= 0 && b.nano >= 0 ==> a.spec_mul(b).is_normal(),
{
    let un = a.units * b.nano;
    let nu = a.nano * b.units;
    let nn0 = a.nano * b.nano;
    let uu = a.units * b.units;
    assert(iabs(un) <= iabs(a.units as int) * 999_999_999 && (a.units >= 0 && b.nano >= 0 ==> un >= 0))
        by (nonlinear_arith)
        requires
            -1_000_000_000 < b.nano < 1_000_000_000,
            un == a.units * b.nano,
    ;
    assert(iabs(nu) <= 999_999_999 * iabs(b.units as int) && (a.nano >= 0 && b.units >= 0 ==> nu >= 0))
        by (nonlinear_arith)
        requires
            -1_000_000_000 < a.nano < 1_000_000_000,
            nu == a.nano * b.units,
    ;
    assert(iabs(nn0) <= 999_999_999 * 999_999_999 && (a.nano >= 0 && b.nano >= 0 ==> nn0 >= 0))
        by (nonlinear_arith)
        requires
            -1_000_000_000 < a.nano < 1_000_000_000,
            -1_000_000_000 < b.nano < 1_000_000_000,
            nn0 == a.nano * b.nano,
    ;
    lemma_tdiv_trem(un, 1_000_000_000);
    assert(iabs(tdiv(un, 1_000_000_000)) <= iabs(a.units as int)) by {
        assert(1_000_000_000 * tdiv(un, 1_000_000_000) + trem(un, 1_000_000_000) == un);
    }
    let shift0 = (9 - dec_trailing_zeros(a.nano as int)) + (9 - dec_trailing_zeros(
        b.nano as int,
    )) - 1;
    let signs = dec_span(nn0, false, 0) - 1;
    let nn1 = trunc9(nn0);
    let nn2 = shift_div(nn1, shift0 - signs);
    lemma_trunc9_bounds(nn0);
    lemma_shift_div_bounds(nn1, shift0 - signs);
    assert(iabs(nn2) <= iabs(nn0));
    assert(nn0 >= 0 ==> nn2 >= 0);
    let nano_total = nu + nn2;
    lemma_tdiv_trem(nano_total, 1_000_000_000);
    assert(iabs(tdiv(nano_total, 1_000_000_000)) <= iabs(b.units as int) + 1_000_000_000) by {
        assert(1_000_000_000 * tdiv(nano_total, 1_000_000_000) + trem(
            nano_total,
            1_000_000_000,
        ) == nano_total);
    }
    assert(a.nano >= 0 && b.nano >= 0 && b.units >= 0 ==> tdiv(nano_total, 1_000_000_000) >= 0
        && trem(nano_total, 1_000_000_000) >= 0);
    assert(a.units >= 0 && b.nano >= 0 ==> trem(un, 1_000_000_000) >= 0 && tdiv(
        un,
        1_000_000_000,
    ) >= 0);
}

/// Count of decimal digits; zero has none.
pub open spec fn ndigits(n: int) -> int
    decreases n,
{
    if n <= 0 {
        0
    } else {
        1 + ndigits(n / 10)
    }
}

proof fn lemma_pow10_add(x: nat, y: nat)
    ensures
        pow10(x + y) == pow10(x) * pow10(y),
    decreases x,
{
    if x == 0 {
        lemma_pow10_pos(y);
    } else {
        lemma_pow10_add((x - 1) as nat, y);
        assert(10 * (pow10((x - 1) as nat) * pow10(y)) == (10 * pow10((x - 1) as nat)) * pow10(
            y,
        )) by (nonlinear_arith);
    }
}

proof fn lemma_ndigits_bounds(n: int)
    requires
        n >= 1,
    ensures
        ndigits(n) >= 1,
        pow10((ndigits(n) - 1) as nat) <= n < pow10(ndigits(n) as nat),
    decreases n,
{
    if n < 10 {
        assert(ndigits(0) == 0);
        assert(ndigits(n) == 1);
    } else {
        lemma_ndigits_bounds(n / 10);
        let d = ndigits(n);
        assert(10 * pow10((d - 2) as nat) <= 10 * (n / 10));
        vstd::arithmetic::div_mod::lemma_fundamental_div_mod(n, 10);
        assert(10 * (n / 10) <= n);
        assert(n < 10 * (n / 10) + 10);
        assert(10 * (n / 10) + 10 <= 10 * pow10((d - 1) as nat));
    }
}

proof fn lemma_span_counting(n: int, acc: int)
    requires
        n >= 0,
    ensures
        dec_span(n, true, acc) == acc + ndigits(n),
    decreases n,
{
    if n > 0 {
        lemma_span_counting(n / 10, acc + 1);
    }
}

proof fn lemma_span_plain(n: int, acc: int)
    requires
        n >= 0,
    ensures
        dec_span(n, false, acc) == acc + ndigits(n) - dec_trailing_zeros(n),
    decreases n,
{
    if n > 0 {
        if trem(n, 10) == 0 {
            lemma_span_plain(n / 10, acc);
        } else {
            lemma_span_counting(n / 10, acc + 1);
        }
    }
}

proof fn lemma_trunc9_div(n: int)
    requires
        0 <= n,
    ensures
        ndigits(n) <= 9 ==> trunc9(n) == n,
        ndigits(n) > 9 ==> trunc9(n) == n / pow10((ndigits(n) - 9) as nat),
    decreases n,
{
    if n > 999_999_999 {
        assert(ndigits(n) > 9) by {
            lemma_ndigits_bounds(n);
            if ndigits(n) <= 9 {
                lemma_pow10_mono(ndigits(n) as nat, 9);
                reveal_with_fuel(pow10, 10);
            }
        }
        lemma_trunc9_div(n / 10);
        let d = ndigits(n);
        assert(ndigits(n / 10) == d - 1);
        if d == 10 {
            assert(trunc9(n / 10) == n / 10);
            assert(pow10(1) == 10) by {
                reveal_with_fuel(pow10, 2);
            }
        } else {
            assert(trunc9(n / 10) == (n / 10) / pow10((d - 10) as nat));
            lemma_pow10_pos((d - 10) as nat);
            vstd::arithmetic::div_mod::lemma_div_denominator(n, 10, pow10((d - 10) as nat));
            assert(pow10((d - 9) as nat) == 10 * pow10((d - 10) as nat));
        }
    } else {
        assert(ndigits(n) <= 9) by {
            if ndigits(n) > 9 {
                lemma_ndigits_bounds(n);
                lemma_pow10_mono(9, (ndigits(n) - 1) as nat);
                reveal_with_fuel(pow10, 10);
            }
        }
    }
}

proof fn lemma_shift_div_pow(n: int, k: int)
    requires
        n >= 0,
        k >= 0,
    ensures
        shift_div(n, k) == n / pow10(k as nat),
    decreases k,
{
    if k == 0 {
        assert(pow10(0) == 1);
    } else {
        lemma_shift_div_pow(n / 10, k - 1);
        lemma_pow10_pos((k - 1) as nat);
        vstd::arithmetic::div_mod::lemma_div_denominator(n, 10, pow10((k - 1) as nat));
        assert(pow10(k as nat) == 10 * pow10((k - 1) as nat));
    }
}

/// Within the nine-digit precision budget the product is exact: as long as
/// the product of the two fractional parts carries no trailing zeros beyond
/// those its factors already carried, the result is the true product
/// truncated to nine fractional digits. (When the product does gain
/// trailing zeros, low digits are dropped: the documented lossy edge.)
pub proof fn lemma_mul_exact_within_budget(a: Quotation, b: Quotation)
    requires
        a.is_normal(),
        b.is_normal(),
        a.nano > 0,
        b.nano > 0,
        0 <= a.units <= 8_000_000_000,
        0 <= b.units <= 8_000_000_000,
        a.units * b.units <= 9_000_000_000_000_000_000,
        dec_trailing_zeros(a.nano * b.nano) == dec_trailing_zeros(a.nano as int)
            + dec_trailing_zeros(b.nano as int),
    ensures
        a.spec_mul(b).as_nanos() == (a.as_nanos() * b.as_nanos()) / 1_000_000_000,
{
    let an = a.nano as int;
    let bn = b.nano as int;
    let uu = a.units * b.units;
    let un = a.units * bn;
    let nu = an * b.units;
    let nn0 = an * bn;
    assert(0 < nn0 <= 999_999_999 * 999_999_999 && 0 <= un <= 8_000_000_000 * 999_999_999 && 0
        <= nu <= 999_999_999 * 8_000_000_000) by (nonlinear_arith)
        requires
            0 < an < 1_000_000_000,
            0 < bn < 1_000_000_000,
            0 <= a.units <= 8_000_000_000,
            0 <= b.units <= 8_000_000_000,
            nn0 == an * bn,
            un == a.units * bn,
            nu == an * b.units,
    ;
    let zx = dec_trailing_zeros(an);
    let zy = dec_trailing_zeros(bn);
    let d = ndigits(nn0);
    lemma_ndigits_bounds(nn0);
    assert(d <= 18) by {
        if d >= 19 {
            lemma_pow10_mono(18, (d - 1) as nat);
            reveal_with_fuel(pow10, 19);
        }
    }
    lemma_trailing_zeros_pow(an);
    lemma_trailing_zeros_pow(bn);
    lemma_span_plain(nn0, 0);
    let signs = dec_span(nn0, false, 0) - 1;
    let shift0 = (9 - zx) + (9 - zy) - 1;
    let shift = shift0 - signs;
    assert(shift == 18 - d);
    let nn1 = trunc9(nn0);
    lemma_trunc9_div(nn0);
    lemma_trunc9_bounds(nn0);
    let nn2 = shift_div(nn1, shift);
    lemma_shift_div_pow(nn1, shift);
    assert(pow10(9) == 1_000_000_000) by {
        reveal_with_fuel(pow10, 10);
    }
    if d > 9 {
        assert(nn1 == nn0 / pow10((d - 9) as nat));
        assert(nn2 == (nn0 / pow10((d - 9) as nat)) / pow10((18 - d) as nat));
        lemma_pow10_pos((d - 9) as nat);
        lemma_pow10_pos((18 - d) as nat);
        vstd::arithmetic::div_mod::lemma_div_denominator(
            nn0,
            pow10((d - 9) as nat),
            pow10((18 - d) as nat),
        );
        lemma_pow10_add((d - 9) as nat, (18 - d) as nat);
        assert(nn2 == nn0 / 1_000_000_000);
    } else {
        assert(nn1 == nn0);
        assert(nn0 < pow10(9)) by {
            lemma_pow10_mono(d as nat, 9);
        }
        vstd::arithmetic::div_mod::lemma_basic_div(nn0, 1_000_000_000);
        assert(nn0 < pow10((18 - d) as nat)) by {
            lemma_pow10_mono(d as nat, (18 - d) as nat);
        }
        lemma_pow10_pos((18 - d) as nat);
        vstd::arithmetic::div_mod::lemma_basic_div(nn0, pow10((18 - d) as nat));
        assert(nn2 == 0 && nn0 / 1_000_000_000 == 0);
    }
    // The assembled result: the unit-scale terms are exact, and the cross
    // term contributes its truncated nine-digit share.
    lemma_tdiv_trem(un, 1_000_000_000);
    lemma_tdiv_trem(nu + nn2, 1_000_000_000);
    assert(iabs(tdiv(un, 1_000_000_000)) <= 8_000_000_001) by {
        assert(1_000_000_000 * tdiv(un, 1_000_000_000) + trem(un, 1_000_000_000) == un);
    }
    assert(iabs(tdiv(nu + nn2, 1_000_000_000)) <= 8_000_000_002) by {
        assert(1_000_000_000 * tdiv(nu + nn2, 1_000_000_000) + trem(nu + nn2, 1_000_000_000)
            == nu + nn2);
        assert(0 <= nn2 <= nn0);
    }
    let r = a.spec_mul(b);
    assert(r.as_nanos() == uu * 1_000_000_000 + un + nu + nn2);
    assert(a.as_nanos() * b.as_nanos() == uu * 1_000_000_000 * 1_000_000_000 + un * 1_000_000_000
        + nu * 1_000_000_000 + nn0) by (nonlinear_arith)
        requires
            uu == a.units * b.units,
            un == a.units * bn,
            nu == an * b.units,
            nn0 == an * bn,
            a.as_nanos() == a.units * 1_000_000_000 + an,
            b.as_nanos() == b.units * 1_000_000_000 + bn,
    ;
    vstd::arithmetic::div_mod::lemma_hoist_over_denominator(
        nn0,
        uu * 1_000_000_000 + un + nu,
        1_000_000_000,
    );
    assert((uu * 1_000_000_000 + un + nu) * 1_000_000_000 == uu * 1_000_000_000 * 1_000_000_000
        + un * 1_000_000_000 + nu * 1_000_000_000);
}

/// A canonical value is determined by its exact worth: two normal-form
/// quotations with the same value in billionths are field-for-field equal.
pub proof fn lemma_normal_unique(a: Quotation, b: Quotation)
    requires
        a.is_normal(),
        b.is_normal(),
        a.as_nanos() == b.as_nanos(),
    ensures
        a == b,
{
}

/// Sign consistency of addition: from canonical operands, `add` yields a
/// canonical result, so it never pairs positive `units` with negative `nano`.
pub proof fn lemma_add_normal(a: Quotation, b: Quotation)
    requires
        a.is_normal(),
        b.is_normal(),
        i64::MIN < a.units + b.units,
        a.units + b.units < i64::MAX,
    ensures
        a.spec_add(b).is_normal(),
        a.spec_add(b).as_nanos() == a.as_nanos() + b.as_nanos(),
{
}

/// Sign consistency of subtraction: from canonical operands, `sub` yields a
/// canonical result.
pub proof fn lemma_sub_normal(a: Quotation, b: Quotation)
    requires
        a.is_normal(),
        b.is_normal(),
        i64::MIN < a.units - b.units,
        a.units - b.units < i64::MAX,
    ensures
        a.spec_sub(b).is_normal(),
        a.spec_sub(b).as_nanos() == a.as_nanos() - b.as_nanos(),
{
}

/// Addition is associative with no precision budget at all: `(a+b)+c` and
/// `a+(b+c)` agree exactly, field for field.
pub proof fn lemma_add_associative(a: Quotation, b: Quotation, c: Quotation)
    requires
        a.is_normal(),
        b.is_normal(),
        c.is_normal(),
        i64::MIN < a.units + b.units,
        a.units + b.units < i64::MAX,
        i64::MIN < b.units + c.units,
        b.units + c.units < i64::MAX,
        i64::MIN < a.units + b.units + c.units,
        a.units + b.units + c.units + 1 < i64::MAX,
    ensures
        a.spec_add(b).spec_add(c) == a.spec_add(b.spec_add(c)),
{
    lemma_add_normal(a, b);
    lemma_add_normal(b, c);
    lemma_normal_unique(a.spec_add(b).spec_add(c), a.spec_add(b.spec_add(c)));
}

/// Subtracting what was added restores the original value exactly.
pub proof fn lemma_add_sub_round_trip(a: Quotation, b: Quotation)
    requires
        a.is_normal(),
        b.is_normal(),
        i64::MIN < a.units + b.units,
        a.units + b.units < i64::MAX,
    ensures
        a.spec_add(b).spec_sub(b) == a,
{
    lemma_add_normal(a, b);
    lemma_normal_unique(a.spec_add(b).spec_sub(b), a);
}

} // verus!
