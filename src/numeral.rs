//! Decimal numerals as the price API writes them: digits with at most one
//! decimal point, held exactly as a mantissa and a scale.

use vstd::prelude::*;
use vstd::string::StrSliceExecFns;

verus! {

/// The largest number of fractional digits a `Decimal` holds.
pub const MAX_SCALE: u32 = 18;

pub open spec fn is_digit(c: char) -> bool {
    '0' <= c && c <= '9'
}

pub open spec fn digit_value(c: char) -> nat {
    (c as int - '0' as int) as nat
}

/// The value of a run of decimal digits, most significant first.
pub open spec fn digits_value(s: Seq<char>) -> nat
    decreases s.len(),
{
    if s.len() == 0 {
        0
    } else {
        digits_value(s.drop_last()) * 10 + digit_value(s.last())
    }
}

pub open spec fn all_digits(s: Seq<char>) -> bool {
    forall|i: int| 0 <= i < s.len() ==> is_digit(#[trigger] s[i])
}

/// `s` is digits with a single point at `i`, and at least one digit on each side.
pub open spec fn is_point_at(s: Seq<char>, i: int) -> bool {
    &&& 0 < i < s.len() - 1
    &&& s[i] == '.'
    &&& forall|j: int| 0 <= j < s.len() && j != i ==> is_digit(#[trigger] s[j])
}

/// The digits of a numeral and the number of them after the point, when `s`
/// is a numeral at all.
pub open spec fn numeral_parts(s: Seq<char>) -> Option<(nat, nat)> {
    if s.len() > 0 && all_digits(s) {
        Some((digits_value(s), 0))
    } else if exists|i: int| is_point_at(s, i) {
        let i = choose|i: int| is_point_at(s, i);
        Some((digits_value(s.remove(i)), (s.len() - 1 - i) as nat))
    } else {
        None
    }
}

/// A non-negative decimal number: `mantissa / 10^scale`.
#[derive(Clone, Copy, Debug, PartialEq, Eq, Structural)]
pub struct Decimal {
    pub mantissa: u64,
    pub scale: u32,
}

impl Decimal {
    pub open spec fn wf(self) -> bool {
        self.scale <= MAX_SCALE
    }
}

/// The decimal that the text `s` denotes, when it is a numeral whose digits
/// fit in a `u64` and whose fraction has at most `MAX_SCALE` digits.
pub open spec fn decimal_of(s: Seq<char>) -> Option<Decimal> {
    match numeral_parts(s) {
        Some((m, k)) => if m <= u64::MAX && k <= MAX_SCALE {
            Some(Decimal { mantissa: m as u64, scale: k as u32 })
        } else {
            None
        },
        None => None,
    }
}

pub open spec fn pow10(k: nat) -> nat
    decreases k,
{
    if k == 0 {
        1
    } else {
        10 * pow10((k - 1) as nat)
    }
}

proof fn lemma_digits_push(s: Seq<char>, c: char)
    ensures
        digits_value(s.push(c)) == digits_value(s) * 10 + digit_value(c),
{
    assert(s.push(c).drop_last() =~= s);
}

const CAP: u128 = 0x1_0000_0000_0000_0000;

/// The digits of `s[..i]`, leaving out the point at `point` if there is one.
spec fn digits_seen(s: Seq<char>, i: int, point: Option<usize>) -> Seq<char> {
    match point {
        Some(k) => s.subrange(0, i).remove(k as int),
        None => s.subrange(0, i),
    }
}

spec fn min_cap(v: nat) -> nat {
    if v < CAP {
        v
    } else {
        CAP as nat
    }
}

/// Reads a numeral such as `1.2345` or `1000`.
pub fn parse_decimal(s: &str) -> (r: Option<Decimal>)
    ensures
        r == decimal_of(s@),
        r matches Some(d) ==> d.wf(),
{
    let n = s.unicode_len();
    let mut acc: u128 = 0;
    let mut point: Option<usize> = None;
    let mut i: usize = 0;
    while i < n
        invariant
            n == s@.len(),
            i <= n,
            acc == min_cap(digits_value(digits_seen(s@, i as int, point))),
            point matches Some(k) ==> 0 < k < i && k + 1 < n && s@[k as int] == '.',
            forall|j: int|
                0 <= j < i && !(point matches Some(k) && j == k) ==> is_digit(#[trigger] s@[j]),
        decreases n - i,
    {
        let c = s.get_char(i);
        if '0' <= c && c <= '9' {
            let d = (c as u32 - '0' as u32) as u128;
            proof {
                let seen = digits_seen(s@, i as int, point);
                assert(digits_seen(s@, i + 1, point) =~= seen.push(c));
                lemma_digits_push(seen, c);
            }
            acc = acc * 10 + d;
            if acc > CAP {
                acc = CAP;
            }
        } else if c == '.' && point.is_none() && i > 0 && i + 1 < n {
            proof {
                assert(digits_seen(s@, i + 1, Some(i)) =~= digits_seen(s@, i as int, None));
            }
            point = Some(i);
        } else {
            proof {
                assert(!all_digits(s@));
                assert forall|p: int| !is_point_at(s@, p) by {
                    if is_point_at(s@, p) {
                        assert(p == i);
                        if let Some(k) = point {
                            assert(is_digit(s@[k as int]));
                        }
                    }
                }
            }
            return None;
        }
        i += 1;
    }
    proof {
        assert(s@.subrange(0, n as int) =~= s@);
        if let Some(k) = point {
            assert(!all_digits(s@)) by {
                assert(!is_digit(s@[k as int]));
            }
            assert(is_point_at(s@, k as int));
            let p = choose|p: int| is_point_at(s@, p);
            assert(p == k) by {
                if p != k {
                    assert(is_digit(s@[k as int]));
                }
            }
        }
    }
    if n == 0 || acc > u64::MAX as u128 {
        return None;
    }
    match point {
        Some(k) => {
            if n - 1 - k > MAX_SCALE as usize {
                return None;
            }
            Some(Decimal { mantissa: acc as u64, scale: (n - 1 - k) as u32 })
        },
        None => Some(Decimal { mantissa: acc as u64, scale: 0 }),
    }
}

proof fn lemma_pow10_positive(k: nat)
    ensures
        pow10(k) >= 1,
    decreases k,
{
    if k > 0 {
        lemma_pow10_positive((k - 1) as nat);
    }
}

proof fn lemma_pow10_monotone(a: nat, b: nat)
    requires
        a <= b,
    ensures
        pow10(a) <= pow10(b),
    decreases b,
{
    if a < b {
        lemma_pow10_monotone(a, (b - 1) as nat);
        lemma_pow10_positive((b - 1) as nat);
    }
}

proof fn lemma_pow10_18()
    ensures
        pow10(18) == 1_000_000_000_000_000_000,
{
    reveal_with_fuel(pow10, 19);
}

/// `10^k`.
pub fn power_of_ten(k: u32) -> (r: u64)
    requires
        k <= 18,
    ensures
        r == pow10(k as nat),
{
    let mut r: u64 = 1;
    let mut i: u32 = 0;
    while i < k
        invariant
            i <= k <= 18,
            r == pow10(i as nat),
        decreases k - i,
    {
        proof {
            lemma_pow10_monotone((i + 1) as nat, 18);
            lemma_pow10_18();
        }
        r = r * 10;
        i += 1;
    }
    r
}

/// `d` rounded to a whole number, halves going up.
pub open spec fn rounded(d: Decimal) -> nat {
    if d.scale == 0 {
        d.mantissa as nat
    } else {
        (d.mantissa + 5 * pow10((d.scale - 1) as nat)) as nat / pow10(d.scale as nat)
    }
}

/// Rounds `d` to a whole number, halves going up.
pub fn round_to_whole(d: Decimal) -> (r: u128)
    requires
        d.wf(),
    ensures
        r == rounded(d),
{
    if d.scale == 0 {
        d.mantissa as u128
    } else {
        let half = 5 * (power_of_ten(d.scale - 1) as u128);
        let p = power_of_ten(d.scale) as u128;
        proof {
            lemma_pow10_positive(d.scale as nat);
        }
        (d.mantissa as u128 + half) / p
    }
}

/// `d` in ten-thousandths, rounded to the nearest and halves to the even one.
pub open spec fn fixed4_units(d: Decimal) -> nat {
    if d.scale <= 4 {
        (d.mantissa * pow10((4 - d.scale) as nat)) as nat
    } else {
        let p = pow10((d.scale - 4) as nat);
        let q = d.mantissa as nat / p;
        let r = d.mantissa as nat % p;
        if 2 * r > p || (2 * r == p && q % 2 == 1) {
            q + 1
        } else {
            q
        }
    }
}

/// `d` in ten-thousandths, rounded to the nearest and halves to the even one.
pub fn to_fixed4_units(d: Decimal) -> (r: u128)
    requires
        d.wf(),
    ensures
        r == fixed4_units(d),
{
    if d.scale <= 4 {
        let p = power_of_ten(4 - d.scale);
        proof {
            lemma_pow10_monotone((4 - d.scale) as nat, 4);
            reveal_with_fuel(pow10, 5);
            assert(d.mantissa * p <= u64::MAX * 10000) by (nonlinear_arith)
                requires
                    p <= 10000,
            ;
        }
        d.mantissa as u128 * p as u128
    } else {
        let p = power_of_ten(d.scale - 4) as u128;
        proof {
            lemma_pow10_positive((d.scale - 4) as nat);
            lemma_pow10_monotone((d.scale - 4) as nat, 18);
            lemma_pow10_18();
        }
        let q = d.mantissa as u128 / p;
        let r = d.mantissa as u128 % p;
        if 2 * r > p || (2 * r == p && q % 2 == 1) {
            q + 1
        } else {
            q
        }
    }
}

/// The character of the digit `v`.
pub open spec fn digit_char(v: nat) -> char {
    ((48 + v) as u8) as char
}

/// `n` in decimal, without leading zeros.
pub open spec fn digits_text(n: nat) -> Seq<char>
    decreases n,
{
    if n < 10 {
        seq![digit_char(n)]
    } else {
        digits_text(n / 10).push(digit_char(n % 10))
    }
}

/// The last `w` decimal digits of `n`, with leading zeros.
pub open spec fn padded_text(n: nat, w: nat) -> Seq<char>
    decreases w,
{
    if w == 0 {
        seq![]
    } else {
        padded_text(n / 10, (w - 1) as nat).push(digit_char(n % 10))
    }
}

/// A count of ten-thousandths written with four decimals, as in `1.2345`.
pub open spec fn fixed4_text(u: nat) -> Seq<char> {
    digits_text(u / 10000) + seq!['.'] + padded_text(u % 10000, 4)
}

/// Relies on `String::push`: the character is appended at the end.
pub assume_specification[ String::push ](s: &mut String, ch: char)
    ensures
        final(s)@ == old(s)@.push(ch),
;

fn digit_to_char(v: u8) -> (c: char)
    requires
        v < 10,
    ensures
        c == digit_char(v as nat),
{
    (48 + v) as char
}

/// Appends `n` in decimal.
pub fn push_digits(out: &mut String, n: u128)
    ensures
        final(out)@ == old(out)@ + digits_text(n as nat),
    decreases n,
{
    if n >= 10 {
        push_digits(out, n / 10);
    }
    out.push(digit_to_char((n % 10) as u8));
    assert(out@ =~= old(out)@ + digits_text(n as nat));
}

/// Appends the last `w` decimal digits of `n`, with leading zeros.
pub fn push_padded(out: &mut String, n: u128, w: u32)
    ensures
        final(out)@ == old(out)@ + padded_text(n as nat, w as nat),
    decreases w,
{
    if w > 0 {
        push_padded(out, n / 10, w - 1);
        out.push(digit_to_char((n % 10) as u8));
    }
    assert(out@ =~= old(out)@ + padded_text(n as nat, w as nat));
}

/// Writes a count of ten-thousandths with four decimals.
pub fn fixed4_string(units: u128) -> (r: String)
    ensures
        r@ == fixed4_text(units as nat),
{
    let mut out = String::new();
    push_digits(&mut out, units / 10000);
    out.push('.');
    push_padded(&mut out, units % 10000, 4);
    proof {
        assert(out@ =~= fixed4_text(units as nat));
    }
    out
}

/// The number of fractional digits a quotient is worked out to.
pub const QUOTIENT_SCALE: u32 = 8;

/// The digits of `u / n` to `QUOTIENT_SCALE` places, cut off towards zero.
pub open spec fn quotient_units(u: Decimal, n: Decimal) -> nat {
    if n.scale + QUOTIENT_SCALE >= u.scale {
        (u.mantissa * pow10((n.scale + QUOTIENT_SCALE - u.scale) as nat)) as nat / (
        n.mantissa as nat)
    } else {
        u.mantissa as nat / (n.mantissa * pow10((u.scale - n.scale - QUOTIENT_SCALE) as nat)) as nat
    }
}

/// `u / n` to `QUOTIENT_SCALE` places; none when `n` is zero or the digits
/// do not fit in a `u64`.
pub open spec fn quotient_of(u: Decimal, n: Decimal) -> Option<Decimal> {
    if n.mantissa == 0 {
        None
    } else if quotient_units(u, n) <= u64::MAX {
        Some(Decimal { mantissa: quotient_units(u, n) as u64, scale: QUOTIENT_SCALE })
    } else {
        None
    }
}

proof fn lemma_scaled_quotient_grows(um: nat, nm: nat, a: nat, b: nat)
    requires
        a <= b,
        nm > 0,
    ensures
        (um * pow10(a)) as nat / nm <= (um * pow10(b)) as nat / nm,
{
    lemma_pow10_monotone(a, b);
    let pa = pow10(a);
    let pb = pow10(b);
    assert(um * pa <= um * pb) by (nonlinear_arith)
        requires
            pa <= pb,
    ;
    vstd::arithmetic::div_mod::lemma_div_is_ordered((um * pa) as int, (um * pb) as int, nm as int);
}

proof fn lemma_long_division_step(um: nat, nm: nat, j: nat, q: nat, r: nat)
    requires
        nm > 0,
        q == (um * pow10(j)) as nat / nm,
        r == (um * pow10(j)) as nat % nm,
    ensures
        q * 10 + (r * 10) / nm == (um * pow10(j + 1)) as nat / nm,
        (r * 10) % nm == (um * pow10(j + 1)) as nat % nm,
{
    let p = pow10(j);
    let x = um * p;
    assert(pow10(j + 1) == 10 * p);
    assert(um * (10 * p) == 10 * x) by (nonlinear_arith)
        requires
            x == um * p,
    ;
    vstd::arithmetic::div_mod::lemma_fundamental_div_mod(x as int, nm as int);
    vstd::arithmetic::div_mod::lemma_fundamental_div_mod((r * 10) as int, nm as int);
    let t = r * 10;
    let tq = t / nm;
    let tr = t % nm;
    assert(10 * x == (q * 10 + tq) * nm + tr) by (nonlinear_arith)
        requires
            x == nm * q + r,
            t == r * 10,
            t == nm * tq + tr,
    ;
    vstd::arithmetic::div_mod::lemma_mod_bound(t as int, nm as int);
    vstd::arithmetic::div_mod::lemma_fundamental_div_mod_converse(
        (10 * x) as int,
        nm as int,
        (q * 10 + tq) as int,
        tr as int,
    );
}

/// Divides `u` by `n`, to `QUOTIENT_SCALE` places cut off towards zero.
pub fn divide(u: Decimal, n: Decimal) -> (r: Option<Decimal>)
    requires
        u.wf(),
        n.wf(),
    ensures
        r == quotient_of(u, n),
        r matches Some(d) ==> d.wf(),
{
    if n.mantissa == 0 {
        return None;
    }
    let nm = n.mantissa as u128;
    let um = u.mantissa as u128;
    if n.scale + QUOTIENT_SCALE >= u.scale {
        let e = n.scale + QUOTIENT_SCALE - u.scale;
        let mut q: u128 = um / nm;
        let mut r: u128 = um % nm;
        proof {
            assert(pow10(0) == 1);
            assert(um * pow10(0) == um);
            assert(um / nm <= um) by (nonlinear_arith)
                requires
                    nm >= 1,
            ;
        }
        let mut j: u32 = 0;
        while j < e
            invariant
                j <= e,
                e == n.scale + QUOTIENT_SCALE - u.scale,
                nm == n.mantissa,
                um == u.mantissa,
                nm > 0,
                q == (um * pow10(j as nat)) as nat / (nm as nat),
                r == (um * pow10(j as nat)) as nat % (nm as nat),
                q <= u64::MAX,
            decreases e - j,
        {
            proof {
                vstd::arithmetic::div_mod::lemma_mod_bound(
                    (um * pow10(j as nat)) as int,
                    nm as int,
                );
                lemma_long_division_step(um as nat, nm as nat, j as nat, q as nat, r as nat);
            }
            let t = r * 10;
            let q2 = q * 10 + t / nm;
            if q2 > u64::MAX as u128 {
                proof {
                    lemma_scaled_quotient_grows(um as nat, nm as nat, (j + 1) as nat, e as nat);
                }
                return None;
            }
            q = q2;
            r = t % nm;
            j += 1;
        }
        Some(Decimal { mantissa: q as u64, scale: QUOTIENT_SCALE })
    } else {
        let k = u.scale - n.scale - QUOTIENT_SCALE;
        let p = power_of_ten(k) as u128;
        proof {
            lemma_pow10_monotone(k as nat, 18);
            lemma_pow10_18();
            lemma_pow10_positive(k as nat);
            assert(nm * p <= u64::MAX * 1_000_000_000_000_000_000 && nm * p >= 1) by (nonlinear_arith)
                requires
                    1 <= nm <= u64::MAX,
                    1 <= p <= 1_000_000_000_000_000_000,
            ;
        }
        let den = nm * p;
        proof {
            assert(um / den <= um) by (nonlinear_arith)
                requires
                    den >= 1,
            ;
        }
        Some(Decimal { mantissa: (um / den) as u64, scale: QUOTIENT_SCALE })
    }
}

/// The sign of a numeral such as `-0.25`.
#[derive(Clone, Copy, Debug, PartialEq, Eq, Structural)]
pub enum Sign {
    Negative,
    Zero,
    Positive,
}

pub open spec fn has_nonzero_digit(s: Seq<char>) -> bool {
    exists|i: int| 0 <= i < s.len() && '1' <= #[trigger] s[i] && s[i] <= '9'
}

/// A numeral is zero when no digit of it is; it is negative when it starts with `-`.
pub open spec fn sign_of(s: Seq<char>) -> Sign {
    if !has_nonzero_digit(s) {
        Sign::Zero
    } else if s[0] == '-' {
        Sign::Negative
    } else {
        Sign::Positive
    }
}

/// The sign of a numeral such as `-0.25`.
pub fn numeral_sign(s: &str) -> (r: Sign)
    ensures
        r == sign_of(s@),
{
    let n = s.unicode_len();
    let mut i: usize = 0;
    while i < n
        invariant
            n == s@.len(),
            i <= n,
            forall|j: int| 0 <= j < i ==> !('1' <= #[trigger] s@[j] && s@[j] <= '9'),
        decreases n - i,
    {
        let c = s.get_char(i);
        if '1' <= c && c <= '9' {
            if s.get_char(0) == '-' {
                return Sign::Negative;
            } else {
                return Sign::Positive;
            }
        }
        i += 1;
    }
    Sign::Zero
}

proof fn lemma_digits_nonzero(t: Seq<char>)
    requires
        all_digits(t),
    ensures
        digits_value(t) > 0 <==> has_nonzero_digit(t),
    decreases t.len(),
{
    if t.len() > 0 {
        let p = t.drop_last();
        assert(all_digits(p)) by {
            assert forall|j: int| 0 <= j < p.len() implies is_digit(#[trigger] p[j]) by {
                assert(p[j] == t[j]);
            }
        }
        lemma_digits_nonzero(p);
        assert(is_digit(t[t.len() - 1]));
        if has_nonzero_digit(p) {
            let j = choose|j: int| 0 <= j < p.len() && '1' <= #[trigger] p[j] && p[j] <= '9';
            assert(t[j] == p[j]);
        }
        if has_nonzero_digit(t) && !has_nonzero_digit(p) {
            let j = choose|j: int| 0 <= j < t.len() && '1' <= #[trigger] t[j] && t[j] <= '9';
            if j < t.len() - 1 {
                assert(p[j] == t[j]);
            }
        }
        if '1' <= t.last() && t.last() <= '9' {
            assert('1' <= t[t.len() - 1] && t[t.len() - 1] <= '9');
        }
    }
}

/// A numeral has a nonzero digit exactly when the decimal it denotes is not
/// zero, and it does not start with `-`.
pub proof fn lemma_numeral_sign(s: Seq<char>, d: Decimal)
    requires
        decimal_of(s) == Some(d),
    ensures
        has_nonzero_digit(s) <==> d.mantissa > 0,
        s.len() > 0 && s[0] != '-',
{
    if s.len() > 0 && all_digits(s) {
        lemma_digits_nonzero(s);
        assert(is_digit(s[0]));
    } else {
        let i = choose|i: int| is_point_at(s, i);
        let t = s.remove(i);
        assert(is_digit(s[0]));
        assert(all_digits(t)) by {
            assert forall|j: int| 0 <= j < t.len() implies is_digit(#[trigger] t[j]) by {
                if j < i {
                    assert(t[j] == s[j]);
                } else {
                    assert(t[j] == s[j + 1]);
                }
            }
        }
        lemma_digits_nonzero(t);
        if has_nonzero_digit(s) {
            let j = choose|j: int| 0 <= j < s.len() && '1' <= #[trigger] s[j] && s[j] <= '9';
            if j < i {
                assert(t[j] == s[j]);
            } else {
                assert(j != i);
                assert(t[j - 1] == s[j]);
            }
        }
        if has_nonzero_digit(t) {
            let j = choose|j: int| 0 <= j < t.len() && '1' <= #[trigger] t[j] && t[j] <= '9';
            if j < i {
                assert(t[j] == s[j]);
            } else {
                assert(t[j] == s[j + 1]);
            }
        }
    }
}

/// The sign of a numeral, with or without a leading `-`, is the sign of the
/// number it denotes.
pub proof fn lemma_sign_of_value(s: Seq<char>, d: Decimal)
    requires
        decimal_of(s) == Some(d),
    ensures
        sign_of(s) == (if d.mantissa > 0 {
            Sign::Positive
        } else {
            Sign::Zero
        }),
        sign_of(seq!['-'] + s) == (if d.mantissa > 0 {
            Sign::Negative
        } else {
            Sign::Zero
        }),
{
    lemma_numeral_sign(s, d);
    let m = seq!['-'] + s;
    assert(m[0] == '-');
    if has_nonzero_digit(s) {
        let j = choose|j: int| 0 <= j < s.len() && '1' <= #[trigger] s[j] && s[j] <= '9';
        assert(m[j + 1] == s[j]);
    }
    if has_nonzero_digit(m) {
        let j = choose|j: int| 0 <= j < m.len() && '1' <= #[trigger] m[j] && m[j] <= '9';
        assert(s[j - 1] == m[j]);
    }
}

} // verus!
