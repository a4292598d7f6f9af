//! Odds arithmetic and formatting.
//!
//! The feed reports decimal odds as strings with a comma as the decimal
//! separator (for example `"2,50"`).  This module normalizes such a
//! string to period form, parses it into a fixed-point value counted in
//! ten-thousandths of a unit, converts odds to an implied probability
//! in hundredths of a percent, selects the favorite (the smallest of
//! three odds), and formats fixed-point values back into text.
//!
//! Floating point is deliberately avoided: every quantity is an exact
//! scaled integer, so each function has an exact contract.

use vstd::prelude::*;
use vstd::string::*;

verus! {

// ---------------------------------------------------------------------
// Normalization: comma to period.
// ---------------------------------------------------------------------

/// The feed's comma decimal separator replaced by a period; every
/// other character is kept as it is.
pub open spec fn comma_to_period(s: Seq<char>) -> Seq<char> {
    s.map_values(|c: char| if c == ',' { '.' } else { c })
}

/// Converts a Vec of characters into a String.
/// Relies on `core::iter::Iterator::collect` for `String`: collecting
/// characters yields the string of exactly those characters in order.
#[verifier::external_body]
fn string_from_chars(v: &Vec<char>) -> (r: String)
    ensures
        r@ == v@,
{
    v.iter().collect()
}

/// Replaces every comma in an odds string by a period, as the numeric
/// parser expects; all other characters are unchanged.
pub fn parse_odds(o: &str) -> (r: String)
    ensures
        r@ == comma_to_period(o@),
{
    let n = o.unicode_len();
    let mut v: Vec<char> = Vec::new();
    for i in 0..n
        invariant
            n == o@.len(),
            v@.len() == i,
            forall|j: int| 0 <= j < i ==> v@[j] == comma_to_period(o@)[j],
    {
        let c = o.get_char(i);
        if c == ',' {
            v.push('.');
        } else {
            v.push(c);
        }
    }
    let r = string_from_chars(&v);
    proof {
        assert(r@ =~= comma_to_period(o@));
    }
    r
}

// ---------------------------------------------------------------------
// Parsing a period-formatted decimal string into ten-thousandths.
// ---------------------------------------------------------------------

pub open spec fn is_digit(c: char) -> bool {
    48 <= c as int <= 57
}

pub open spec fn digit_val(c: char) -> nat {
    (c as int - 48) as nat
}

pub open spec fn all_digits(s: Seq<char>) -> bool {
    forall|i: int| 0 <= i < s.len() ==> is_digit(#[trigger] s[i])
}

/// The number written by a sequence of decimal digits.
pub open spec fn digits_val(s: Seq<char>) -> nat
    decreases s.len(),
{
    if s.len() == 0 {
        0
    } else {
        digits_val(s.drop_last()) * 10 + digit_val(s.last())
    }
}

pub open spec fn pow10(n: nat) -> nat
    decreases n,
{
    if n == 0 {
        1
    } else {
        10 * pow10((n - 1) as nat)
    }
}

/// Index of the first period at or after position `i`, or `s.len()`
/// when there is none.
pub open spec fn find_dot(s: Seq<char>, i: int) -> int
    decreases s.len() - i,
{
    if i < 0 || i >= s.len() {
        s.len() as int
    } else if s[i] == '.' {
        i
    } else {
        find_dot(s, i + 1)
    }
}

/// The value, in ten-thousandths, of a period-formatted decimal odds
/// string: one or more digits, optionally followed by a period and one
/// to four fraction digits.  `None` when the string does not fit that
/// grammar or is longer than twelve characters (the supported
/// magnitude; feed values are far shorter).
pub open spec fn odds_value_e4(s: Seq<char>) -> Option<nat> {
    let d = find_dot(s, 0);
    if s.len() == 0 || s.len() > 12 {
        None
    } else if d == s.len() {
        if all_digits(s) {
            Some(digits_val(s) * 10000)
        } else {
            None
        }
    } else {
        let ip = s.subrange(0, d);
        let fp = s.subrange(d + 1, s.len() as int);
        if ip.len() > 0 && 0 < fp.len() <= 4 && all_digits(ip) && all_digits(fp) {
            Some(digits_val(ip) * 10000 + digits_val(fp) * pow10((4 - fp.len()) as nat))
        } else {
            None
        }
    }
}

/// Every digit string of length `n` writes a number below `10^n`.
proof fn lemma_digits_val_bound(s: Seq<char>)
    requires
        all_digits(s),
    ensures
        digits_val(s) < pow10(s.len()),
    decreases s.len(),
{
    if s.len() > 0 {
        lemma_digits_val_bound(s.drop_last());
    }
}

proof fn lemma_pow10_vals()
    ensures
        pow10(0) == 1,
        pow10(1) == 10,
        pow10(2) == 100,
        pow10(3) == 1000,
        pow10(4) == 10000,
        pow10(12) == 1000000000000,
{
    reveal_with_fuel(pow10, 13);
}

proof fn lemma_pow10_le(m: nat, n: nat)
    requires
        m <= n,
    ensures
        pow10(m) <= pow10(n),
    decreases n,
{
    if m < n {
        lemma_pow10_le(m, (n - 1) as nat);
        assert(pow10(n) == 10 * pow10((n - 1) as nat));
    }
}

/// If no period stands in `s` at positions `i..k` and `k` is a period
/// or the end, the first period from `i` on is at `k`.
proof fn lemma_find_dot_at(s: Seq<char>, i: int, k: int)
    requires
        0 <= i <= k <= s.len(),
        forall|j: int| i <= j < k ==> s[j] != '.',
        k == s.len() || s[k] == '.',
    ensures
        find_dot(s, i) == k,
    decreases k - i,
{
    if i < k {
        lemma_find_dot_at(s, i + 1, k);
    }
}

/// Parses a period-formatted decimal string into ten-thousandths;
/// exactly the strings accepted by `odds_value_e4` parse.
#[verifier::loop_isolation(false)]
#[verifier::rlimit(50)]
pub fn parse_odds_value(s: &str) -> (r: Option<u64>)
    ensures
        match r {
            Some(v) => odds_value_e4(s@) == Some(v as nat),
            None => odds_value_e4(s@) is None,
        },
{
    let n = s.unicode_len();
    if n == 0 || n > 12 {
        return None;
    }
    // Find the first period.
    let mut i: usize = 0;
    while i < n && s.get_char(i) != '.'
        invariant
            0 <= i <= n,
            forall|j: int| 0 <= j < i ==> s@[j] != '.',
        decreases n - i,
    {
        i += 1;
    }
    let dot = i;
    proof {
        lemma_find_dot_at(s@, 0, dot as int);
    }
    // Parse the integer part, the digits before the period.
    if dot == 0 {
        return None;
    }
    let ip_len = if dot < n { dot } else { n };
    let mut val: u64 = 0;
    let mut k: usize = 0;
    while k < ip_len
        invariant
            n == s@.len(),
            ip_len <= n <= 12,
            0 <= k <= ip_len,
            all_digits(s@.subrange(0, k as int)),
            val == digits_val(s@.subrange(0, k as int)),
            val < pow10(k as nat),
        decreases ip_len - k,
    {
        let c = s.get_char(k);
        let u = c as u32;
        if u < 48 || u > 57 {
            proof {
                assert(!is_digit(s@[k as int]));
                if dot == n {
                    assert(!all_digits(s@));
                } else {
                    assert(s@.subrange(0, dot as int)[k as int] == s@[k as int]);
                    assert(!all_digits(s@.subrange(0, dot as int)));
                }
            }
            return None;
        }
        proof {
            assert(s@.subrange(0, k as int + 1).drop_last() =~= s@.subrange(0, k as int));
            lemma_pow10_le((k + 1) as nat, 12);
            lemma_pow10_vals();
        }
        val = val * 10 + ((u - 48) as u64);
        k += 1;
        proof {
            assert(all_digits(s@.subrange(0, k as int)));
        }
    }
    proof {
        lemma_pow10_le(ip_len as nat, 12);
        lemma_pow10_vals();
    }
    if dot == n {
        // No fraction part.
        proof {
            assert(s@.subrange(0, n as int) =~= s@);
        }
        return Some(val * 10000);
    }
    // Parse the fraction part, the digits after the period.
    let fp_len = n - (dot + 1);
    if fp_len == 0 || fp_len > 4 {
        return None;
    }
    let mut fval: u64 = 0;
    let mut m: usize = 0;
    while m < fp_len
        invariant
            n == s@.len(),
            dot as int + 1 + fp_len as int == n as int,
            0 < fp_len <= 4,
            0 <= m <= fp_len,
            all_digits(s@.subrange(dot as int + 1, dot as int + 1 + m as int)),
            fval == digits_val(s@.subrange(dot as int + 1, dot as int + 1 + m as int)),
            fval < pow10(m as nat),
        decreases fp_len - m,
    {
        let c = s.get_char(dot + 1 + m);
        let u = c as u32;
        if u < 48 || u > 57 {
            proof {
                let fp = s@.subrange(dot as int + 1, n as int);
                assert(fp[m as int] == s@[dot as int + 1 + m as int]);
                assert(!all_digits(fp));
            }
            return None;
        }
        proof {
            assert(s@.subrange(dot as int + 1, dot as int + 1 + m as int + 1).drop_last()
                =~= s@.subrange(dot as int + 1, dot as int + 1 + m as int));
            lemma_pow10_le((m + 1) as nat, 4);
            lemma_pow10_vals();
        }
        fval = fval * 10 + ((u - 48) as u64);
        m += 1;
        proof {
            assert(all_digits(s@.subrange(dot as int + 1, dot as int + 1 + m as int)));
        }
    }
    let scale: u64 = if fp_len == 1 {
        1000
    } else if fp_len == 2 {
        100
    } else if fp_len == 3 {
        10
    } else {
        1
    };
    proof {
        lemma_pow10_vals();
        assert(scale == pow10((4 - fp_len) as nat));
        assert(s@.subrange(0, dot as int).len() == dot);
        lemma_digits_val_bound(s@.subrange(dot as int + 1, n as int));
        if fp_len == 1 {
            assert(fval * scale < 10000) by (nonlinear_arith)
                requires
                    fval < 10,
                    scale == 1000,
            ;
        } else if fp_len == 2 {
            assert(fval * scale < 10000) by (nonlinear_arith)
                requires
                    fval < 100,
                    scale == 100,
            ;
        } else if fp_len == 3 {
            assert(fval * scale < 10000) by (nonlinear_arith)
                requires
                    fval < 1000,
                    scale == 10,
            ;
        } else {
            assert(fval * scale < 10000) by (nonlinear_arith)
                requires
                    fval < 10000,
                    scale == 1,
            ;
        }
    }
    Some(val * 10000 + fval * scale)
}

// ---------------------------------------------------------------------
// Probability conversion and favorite selection.
// ---------------------------------------------------------------------

/// Implied probability of a fixed-point odds value, in hundredths of a
/// percent, truncated: `100 / odds` as a percentage.
pub open spec fn probability_e2(v: nat) -> nat
    recommends
        v > 0,
{
    100000000 as nat / v
}

/// Converts odds in ten-thousandths to the implied probability in
/// hundredths of a percent; `None` exactly for odds of zero.
pub fn odds_to_probability_e2(v: u64) -> (r: Option<u64>)
    ensures
        v == 0 ==> r is None,
        v != 0 ==> r == Some((probability_e2(v as nat) as u64)),
{
    if v == 0 {
        None
    } else {
        let p = 100000000u64 / v;
        proof {
            assert(p == probability_e2(v as nat));
        }
        Some(p)
    }
}

/// The smallest of three odds values, compared left to right: home is
/// kept over draw, and draw over away, on a tie.
pub open spec fn min3(one: int, x: int, two: int) -> int {
    if one < x {
        if one < two {
            one
        } else {
            two
        }
    } else {
        if x < two {
            x
        } else {
            two
        }
    }
}

/// Selects the favorite among home, draw and away odds: the minimum of
/// the three, ties resolved toward home, then draw.
pub fn get_lowest_odds(one: u64, x: u64, two: u64) -> (r: u64)
    ensures
        r == min3(one as int, x as int, two as int),
{
    if one < x {
        if one < two {
            one
        } else {
            two
        }
    } else {
        if x < two {
            x
        } else {
            two
        }
    }
}

/// The favorite is the minimum of the three odds, and ties fall toward
/// home over draw over away.
pub proof fn lemma_favorite_is_min(one: int, x: int, two: int)
    ensures
        min3(one, x, two) <= one,
        min3(one, x, two) <= x,
        min3(one, x, two) <= two,
        min3(one, x, two) == one || min3(one, x, two) == x || min3(one, x, two) == two,
        one <= x && one <= two ==> min3(one, x, two) == one,
        x < one && x <= two ==> min3(one, x, two) == x,
        two < one && two < x ==> min3(one, x, two) == two,
{
}

/// Normalization is idempotent: a second comma-to-period pass changes
/// nothing, so an already-period-formatted string parses to the same
/// value as its comma form.
pub proof fn lemma_normalize_idempotent(s: Seq<char>)
    ensures
        comma_to_period(comma_to_period(s)) == comma_to_period(s),
        odds_value_e4(comma_to_period(comma_to_period(s))) == odds_value_e4(comma_to_period(s)),
{
    assert(comma_to_period(comma_to_period(s)) =~= comma_to_period(s));
}

/// A string without commas is unchanged by normalization: it parses
/// exactly as its comma-formatted counterpart does.
pub proof fn lemma_normalize_period_form(s: Seq<char>)
    requires
        forall|i: int| 0 <= i < s.len() ==> s[i] != ',',
    ensures
        comma_to_period(s) == s,
{
    assert(comma_to_period(s) =~= s);
}

// ---------------------------------------------------------------------
// Formatting fixed-point values back into text.
// ---------------------------------------------------------------------

/// The character of one decimal digit.
pub open spec fn digit_char(d: nat) -> char {
    ((48 + d) as u8) as char
}

/// The decimal digits of `n`, most significant first.
pub open spec fn dec_str(n: nat) -> Seq<char>
    decreases n,
{
    if n < 10 {
        seq![digit_char(n)]
    } else {
        dec_str(n / 10).push(digit_char(n % 10))
    }
}

fn digit_to_char(d: u64) -> (c: char)
    requires
        d < 10,
    ensures
        c == digit_char(d as nat),
{
    ((48 + d as u8)) as char
}

/// The decimal digits of `n`, as characters.
fn dec_digits_vec(n: u64) -> (v: Vec<char>)
    ensures
        v@ == dec_str(n as nat),
{
    let mut v: Vec<char> = Vec::new();
    let mut cur: u64 = n;
    while cur >= 10
        invariant
            dec_str(n as nat) =~= dec_str(cur as nat) + v@,
        decreases cur,
    {
        let c = digit_to_char(cur % 10);
        let ghost prev = v@;
        v.insert(0, c);
        proof {
            assert(v@ =~= seq![c] + prev);
        }
        cur = cur / 10;
    }
    let c = digit_to_char(cur);
    let ghost prev = v@;
    v.insert(0, c);
    proof {
        assert(v@ =~= seq![c] + prev);
        assert(dec_str(n as nat) =~= v@);
    }
    v
}

/// Text of a whole number.
pub fn u64_dec_string(n: u64) -> (r: String)
    ensures
        r@ == dec_str(n as nat),
{
    let v = dec_digits_vec(n);
    string_from_chars(&v)
}

/// A signed whole number written in decimal.
pub open spec fn int_str(i: int) -> Seq<char> {
    if i < 0 {
        seq!['-'] + dec_str((-i) as nat)
    } else {
        dec_str(i as nat)
    }
}

/// Text of a signed whole number.
pub fn i64_dec_string(i: i64) -> (r: String)
    ensures
        r@ == int_str(i as int),
{
    if i >= 0 {
        u64_dec_string(i as u64)
    } else {
        let mag = (-(i as i128)) as u64;
        let digits = u64_dec_string(mag);
        let r = String::from_str("-").concat(digits.as_str());
        proof {
            reveal_strlit("-");
            assert(r@ =~= int_str(i as int));
        }
        r
    }
}

/// A fixed-point value in ten-thousandths written with four decimal
/// places, `25000` as `"2.5000"`.
pub open spec fn e4_str(v: nat) -> Seq<char> {
    dec_str(v / 10000) + seq!['.'] + seq![
        digit_char(v / 1000 % 10),
        digit_char(v / 100 % 10),
        digit_char(v / 10 % 10),
        digit_char(v % 10),
    ]
}

/// A fixed-point value in hundredths written with two decimal places,
/// `5000` as `"50.00"`.
pub open spec fn e2_str(v: nat) -> Seq<char> {
    dec_str(v / 100) + seq!['.'] + seq![digit_char(v / 10 % 10), digit_char(v % 10)]
}

/// Formats ten-thousandths with four decimal places.
pub fn format_e4(v: u64) -> (r: String)
    ensures
        r@ == e4_str(v as nat),
{
    let mut chars = dec_digits_vec(v / 10000);
    chars.push('.');
    chars.push(digit_to_char(v / 1000 % 10));
    chars.push(digit_to_char(v / 100 % 10));
    chars.push(digit_to_char(v / 10 % 10));
    chars.push(digit_to_char(v % 10));
    let r = string_from_chars(&chars);
    proof {
        assert(r@ =~= e4_str(v as nat));
    }
    r
}

/// Formats hundredths with two decimal places.
pub fn format_e2(v: u64) -> (r: String)
    ensures
        r@ == e2_str(v as nat),
{
    let mut chars = dec_digits_vec(v / 100);
    chars.push('.');
    chars.push(digit_to_char(v / 10 % 10));
    chars.push(digit_to_char(v % 10));
    let r = string_from_chars(&chars);
    proof {
        assert(r@ =~= e2_str(v as nat));
    }
    r
}

/// What `convert_odds` yields: the implied probability, two decimal
/// places, of a comma- or period-formatted odds string; `None` when
/// the string is not numeric or the odds are zero.
pub open spec fn convert_odds_spec(s: Seq<char>) -> Option<Seq<char>> {
    match odds_value_e4(comma_to_period(s)) {
        None => None,
        Some(v) => if v == 0 {
            None
        } else {
            Some(e2_str(probability_e2(v)))
        },
    }
}

/// Normalizes and parses an odds string and converts it to the
/// implied probability percentage with two decimal places, `"2,00"`
/// to `"50.00"`.  `None` exactly when the string is not numeric after
/// normalization or names odds of zero.
pub fn convert_odds(o: &str) -> (r: Option<String>)
    ensures
        match r {
            Some(t) => convert_odds_spec(o@) == Some(t@),
            None => convert_odds_spec(o@) is None,
        },
{
    let normalized = parse_odds(o);
    match parse_odds_value(normalized.as_str()) {
        None => None,
        Some(v) => {
            match odds_to_probability_e2(v) {
                None => None,
                Some(p) => Some(format_e2(p)),
            }
        },
    }
}

} // verus!
