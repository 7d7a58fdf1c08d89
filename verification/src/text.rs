//! Decimal rendering of fixed-point values.
//!
//! Output-directory names encode the varying field values of a sweep, so
//! they must never collide: rendering is proved injective, and every
//! rendered character comes from a small alphabet (digits, minus, dot)
//! that contains no path separator, which makes the composed directory
//! names unambiguous.

use vstd::prelude::*;
use crate::fixed::{abs_int, SCALE};

verus! {

/// The character of one decimal digit.
pub open spec fn spec_digit_char(d: int) -> char {
    if d == 0 {
        '0'
    } else if d == 1 {
        '1'
    } else if d == 2 {
        '2'
    } else if d == 3 {
        '3'
    } else if d == 4 {
        '4'
    } else if d == 5 {
        '5'
    } else if d == 6 {
        '6'
    } else if d == 7 {
        '7'
    } else if d == 8 {
        '8'
    } else {
        '9'
    }
}

pub open spec fn spec_is_digit_char(c: char) -> bool {
    ||| c == '0'
    ||| c == '1'
    ||| c == '2'
    ||| c == '3'
    ||| c == '4'
    ||| c == '5'
    ||| c == '6'
    ||| c == '7'
    ||| c == '8'
    ||| c == '9'
}

/// A character a rendered value may contain.
pub open spec fn spec_is_value_char(c: char) -> bool {
    spec_is_digit_char(c) || c == '-' || c == '.'
}

pub open spec fn spec_all_value_chars(s: Seq<char>) -> bool {
    forall|i: int| 0 <= i < s.len() ==> spec_is_value_char(#[trigger] s[i])
}

/// Decimal digits of `n`, most significant first, no leading zeros
/// (a single zero for `n == 0`).
pub open spec fn spec_digits(n: nat) -> Seq<char>
    decreases n,
{
    if n < 10 {
        seq![spec_digit_char(n as int)]
    } else {
        spec_digits(n / 10).push(spec_digit_char((n % 10) as int))
    }
}

/// Decimal digits of `n`, zero-padded on the left to exactly `width`.
pub open spec fn spec_digits_pad(n: nat, width: nat) -> Seq<char>
    decreases width,
{
    if width == 0 {
        Seq::empty()
    } else {
        spec_digits_pad(n / 10, (width - 1) as nat).push(spec_digit_char((n % 10) as int))
    }
}

/// Powers of ten.
pub open spec fn spec_pow10(w: nat) -> nat
    decreases w,
{
    if w == 0 {
        1
    } else {
        10 * spec_pow10((w - 1) as nat)
    }
}

/// Distinct digits render to distinct characters.
proof fn lemma_digit_char_injective(d1: int, d2: int)
    requires
        0 <= d1 < 10,
        0 <= d2 < 10,
        spec_digit_char(d1) == spec_digit_char(d2),
    ensures
        d1 == d2,
{
}

/// Every rendered digit run is nonempty and all digits.
pub proof fn lemma_digits_props(n: nat)
    ensures
        spec_digits(n).len() >= 1,
        spec_all_value_chars(spec_digits(n)),
        forall|i: int|
            0 <= i < spec_digits(n).len() ==> spec_is_digit_char(#[trigger] spec_digits(n)[i]),
    decreases n,
{
    if n >= 10 {
        lemma_digits_props(n / 10);
    }
}

/// Padded digit runs have exactly the asked width and are all digits.
pub proof fn lemma_digits_pad_props(n: nat, width: nat)
    ensures
        spec_digits_pad(n, width).len() == width,
        spec_all_value_chars(spec_digits_pad(n, width)),
        forall|i: int|
            0 <= i < width ==> spec_is_digit_char(#[trigger] spec_digits_pad(n, width)[i]),
    decreases width,
{
    if width > 0 {
        lemma_digits_pad_props(n / 10, (width - 1) as nat);
    }
}

/// Unpadded rendering is injective.
pub proof fn lemma_digits_injective(a: nat, b: nat)
    requires
        spec_digits(a) == spec_digits(b),
    ensures
        a == b,
    decreases a,
{
    lemma_digits_props(a);
    lemma_digits_props(b);
    if a < 10 && b < 10 {
        assert(spec_digits(a)[0] == spec_digit_char(a as int));
        assert(spec_digits(b)[0] == spec_digit_char(b as int));
        lemma_digit_char_injective(a as int, b as int);
    } else if a < 10 {
        assert(spec_digits(b).len() == spec_digits(b / 10).len() + 1);
        assert(false);
    } else if b < 10 {
        assert(spec_digits(a).len() == spec_digits(a / 10).len() + 1);
        assert(false);
    } else {
        let sa = spec_digits(a / 10);
        let sb = spec_digits(b / 10);
        assert(sa.push(spec_digit_char((a % 10) as int)).drop_last() =~= sa);
        assert(sb.push(spec_digit_char((b % 10) as int)).drop_last() =~= sb);
        assert(sa == sb);
        lemma_digits_injective(a / 10, b / 10);
        assert(spec_digits(a).last() == spec_digit_char((a % 10) as int));
        assert(spec_digits(b).last() == spec_digit_char((b % 10) as int));
        lemma_digit_char_injective((a % 10) as int, (b % 10) as int);
        vstd::arithmetic::div_mod::lemma_fundamental_div_mod(a as int, 10);
        vstd::arithmetic::div_mod::lemma_fundamental_div_mod(b as int, 10);
    }
}

/// Padded rendering is injective below `10 ^ width`.
pub proof fn lemma_digits_pad_injective(a: nat, b: nat, width: nat)
    requires
        a < spec_pow10(width),
        b < spec_pow10(width),
        spec_digits_pad(a, width) == spec_digits_pad(b, width),
    ensures
        a == b,
    decreases width,
{
    if width == 0 {
        assert(spec_pow10(0) == 1);
    } else {
        let sa = spec_digits_pad(a / 10, (width - 1) as nat);
        let sb = spec_digits_pad(b / 10, (width - 1) as nat);
        assert(sa.push(spec_digit_char((a % 10) as int)).drop_last() =~= sa);
        assert(sb.push(spec_digit_char((b % 10) as int)).drop_last() =~= sb);
        assert(a / 10 < spec_pow10((width - 1) as nat)) by (nonlinear_arith)
            requires
                a < 10 * spec_pow10((width - 1) as nat),
        ;
        assert(b / 10 < spec_pow10((width - 1) as nat)) by (nonlinear_arith)
            requires
                b < 10 * spec_pow10((width - 1) as nat),
        ;
        lemma_digits_pad_injective(a / 10, b / 10, (width - 1) as nat);
        assert(spec_digits_pad(a, width).last() == spec_digit_char((a % 10) as int));
        assert(spec_digits_pad(b, width).last() == spec_digit_char((b % 10) as int));
        lemma_digit_char_injective((a % 10) as int, (b % 10) as int);
        vstd::arithmetic::div_mod::lemma_fundamental_div_mod(a as int, 10);
        vstd::arithmetic::div_mod::lemma_fundamental_div_mod(b as int, 10);
    }
}

/// The rendering of a fixed-point value: an optional minus sign, the
/// whole part without leading zeros, a dot, and exactly six fractional
/// digits.
pub open spec fn spec_fx_chars(v: int) -> Seq<char> {
    let sign: Seq<char> = if v < 0 {
        seq!['-']
    } else {
        Seq::empty()
    };
    sign + spec_digits((abs_int(v) / (SCALE as int)) as nat) + seq!['.'] + spec_digits_pad(
        (abs_int(v) % (SCALE as int)) as nat,
        6,
    )
}

/// Every character of a rendered value is a value character.
pub proof fn lemma_fx_chars_value_chars(v: int)
    ensures
        spec_all_value_chars(spec_fx_chars(v)),
        spec_fx_chars(v).len() >= 8,
{
    lemma_digits_props((abs_int(v) / (SCALE as int)) as nat);
    lemma_digits_pad_props((abs_int(v) % (SCALE as int)) as nat, 6);
}

/// Rendering is injective: distinct values render to distinct strings.
pub proof fn lemma_fx_chars_injective(v1: int, v2: int)
    requires
        spec_fx_chars(v1) == spec_fx_chars(v2),
    ensures
        v1 == v2,
{
    let i1 = (abs_int(v1) / (SCALE as int)) as nat;
    let i2 = (abs_int(v2) / (SCALE as int)) as nat;
    let f1 = (abs_int(v1) % (SCALE as int)) as nat;
    let f2 = (abs_int(v2) % (SCALE as int)) as nat;
    lemma_digits_props(i1);
    lemma_digits_props(i2);
    lemma_digits_pad_props(f1, 6);
    lemma_digits_pad_props(f2, 6);
    let s1 = spec_fx_chars(v1);
    let s2 = spec_fx_chars(v2);
    // The sign is determined by the first character: a digit never
    // renders as a minus sign.
    assert(v1 < 0 <==> s1[0] == '-');
    assert(v2 < 0 <==> s2[0] == '-');
    assert(v1 < 0 <==> v2 < 0);
    let t1 = if v1 < 0 {
        s1.drop_first()
    } else {
        s1
    };
    let t2 = if v2 < 0 {
        s2.drop_first()
    } else {
        s2
    };
    assert(t1 =~= spec_digits(i1) + seq!['.'] + spec_digits_pad(f1, 6));
    assert(t2 =~= spec_digits(i2) + seq!['.'] + spec_digits_pad(f2, 6));
    assert(t1 == t2);
    let n1 = spec_digits(i1).len() as int;
    let n2 = spec_digits(i2).len() as int;
    // The dot sits right after the whole part, and the whole part holds
    // no dot, so both whole parts have the same length.
    assert(t1[n1] == '.');
    assert(t2[n2] == '.');
    if n1 < n2 {
        assert(spec_is_digit_char(t2[n1]));
        assert(false);
    }
    if n2 < n1 {
        assert(spec_is_digit_char(t1[n2]));
        assert(false);
    }
    assert(spec_digits(i1) =~= t1.take(n1));
    assert(spec_digits(i2) =~= t2.take(n2));
    lemma_digits_injective(i1, i2);
    assert(spec_digits_pad(f1, 6) =~= t1.skip(n1 + 1));
    assert(spec_digits_pad(f2, 6) =~= t2.skip(n2 + 1));
    reveal_with_fuel(spec_pow10, 8);
    assert(spec_pow10(6) == 1_000_000);
    vstd::arithmetic::div_mod::lemma_mod_bound(abs_int(v1), SCALE as int);
    vstd::arithmetic::div_mod::lemma_mod_bound(abs_int(v2), SCALE as int);
    lemma_digits_pad_injective(f1, f2, 6);
    vstd::arithmetic::div_mod::lemma_fundamental_div_mod(abs_int(v1), SCALE as int);
    vstd::arithmetic::div_mod::lemma_fundamental_div_mod(abs_int(v2), SCALE as int);
    assert(abs_int(v1) == abs_int(v2));
}

/// Two strings of value characters glued by the same separator can be
/// read back apart: the separator's first character never occurs in a
/// value, so the split point is unique.
pub proof fn lemma_value_sep_unambiguous(
    a1: Seq<char>,
    b1: Seq<char>,
    a2: Seq<char>,
    b2: Seq<char>,
    sep: Seq<char>,
)
    requires
        a1 + sep + b1 == a2 + sep + b2,
        sep.len() >= 1,
        !spec_is_value_char(sep[0]),
        spec_all_value_chars(a1),
        spec_all_value_chars(a2),
    ensures
        a1 == a2,
        b1 == b2,
{
    let s1 = a1 + sep + b1;
    let s2 = a2 + sep + b2;
    if a1.len() < a2.len() {
        assert(s1[a1.len() as int] == sep[0]);
        assert(s2[a1.len() as int] == a2[a1.len() as int]);
        assert(spec_is_value_char(a2[a1.len() as int]));
        assert(false);
    }
    if a2.len() < a1.len() {
        assert(s2[a2.len() as int] == sep[0]);
        assert(s1[a2.len() as int] == a1[a2.len() as int]);
        assert(spec_is_value_char(a1[a2.len() as int]));
        assert(false);
    }
    assert(a1 =~= a2) by {
        assert(forall|i: int| 0 <= i < a1.len() ==> a1[i] == s1[i] && a2[i] == s2[i]);
    }
    assert(b1 =~= b2) by {
        assert(s1.len() == s2.len());
        assert(forall|i: int|
            0 <= i < b1.len() ==> b1[i] == s1[a1.len() + sep.len() + i] && b2[i] == s2[a2.len()
                + sep.len() + i]);
    }
}

/// Strings with equal prefixes are equal exactly on their suffixes.
pub proof fn lemma_common_prefix(p: Seq<char>, b1: Seq<char>, b2: Seq<char>)
    requires
        p + b1 == p + b2,
    ensures
        b1 == b2,
{
    assert(b1 =~= (p + b1).skip(p.len() as int));
    assert(b2 =~= (p + b2).skip(p.len() as int));
}

/// The numeric value of a digit character (zero for any other).
pub open spec fn spec_digit_val(c: char) -> int {
    if c == '0' {
        0
    } else if c == '1' {
        1
    } else if c == '2' {
        2
    } else if c == '3' {
        3
    } else if c == '4' {
        4
    } else if c == '5' {
        5
    } else if c == '6' {
        6
    } else if c == '7' {
        7
    } else if c == '8' {
        8
    } else if c == '9' {
        9
    } else {
        0
    }
}

/// A nonempty run of decimal digits.
pub open spec fn spec_is_digit_seq(s: Seq<char>) -> bool {
    s.len() >= 1 && forall|i: int| 0 <= i < s.len() ==> spec_is_digit_char(#[trigger] s[i])
}

/// The number a run of digits denotes.
pub open spec fn spec_digits_num(s: Seq<char>) -> int
    decreases s.len(),
{
    if s.len() == 0 {
        0
    } else {
        spec_digits_num(s.drop_last()) * 10 + spec_digit_val(s.last())
    }
}

pub proof fn lemma_digits_num_nonneg(s: Seq<char>)
    ensures
        spec_digits_num(s) >= 0,
    decreases s.len(),
{
    if s.len() > 0 {
        lemma_digits_num_nonneg(s.drop_last());
    }
}

/// A longer run never denotes a smaller number.
pub proof fn lemma_digits_num_prefix(s: Seq<char>, i: int)
    requires
        0 <= i <= s.len(),
    ensures
        spec_digits_num(s.take(i)) <= spec_digits_num(s),
    decreases s.len() - i,
{
    if i < s.len() {
        assert(s.take(i + 1).drop_last() =~= s.take(i));
        lemma_digits_num_nonneg(s.take(i));
        assert(spec_digits_num(s.take(i + 1)) >= spec_digits_num(s.take(i)));
        lemma_digits_num_prefix(s, i + 1);
    } else {
        assert(s.take(i) =~= s);
    }
}

pub proof fn lemma_pow10_pos(w: nat)
    ensures
        spec_pow10(w) >= 1,
    decreases w,
{
    if w > 0 {
        lemma_pow10_pos((w - 1) as nat);
    }
}

/// A run of `L` digits denotes a number below `10 ^ L`.
pub proof fn lemma_digits_num_bound(s: Seq<char>)
    ensures
        spec_digits_num(s) < spec_pow10(s.len()),
    decreases s.len(),
{
    if s.len() == 0 {
    } else {
        lemma_digits_num_bound(s.drop_last());
        let p = spec_pow10((s.len() - 1) as nat);
        assert(spec_digits_num(s.drop_last()) * 10 <= (p - 1) * 10) by (nonlinear_arith)
            requires
                spec_digits_num(s.drop_last()) <= p - 1,
        ;
    }
}

/// One decimal digit as a string slice.
fn digit_str(d: u64) -> (r: &'static str)
    requires
        d < 10,
    ensures
        r@ =~= seq![spec_digit_char(d as int)],
{
    proof {
        reveal_strlit("0");
        reveal_strlit("1");
        reveal_strlit("2");
        reveal_strlit("3");
        reveal_strlit("4");
        reveal_strlit("5");
        reveal_strlit("6");
        reveal_strlit("7");
        reveal_strlit("8");
        reveal_strlit("9");
    }
    if d == 0 {
        "0"
    } else if d == 1 {
        "1"
    } else if d == 2 {
        "2"
    } else if d == 3 {
        "3"
    } else if d == 4 {
        "4"
    } else if d == 5 {
        "5"
    } else if d == 6 {
        "6"
    } else if d == 7 {
        "7"
    } else if d == 8 {
        "8"
    } else {
        "9"
    }
}

/// Append the decimal digits of `n`.
fn push_digits(s: &mut String, n: u64)
    ensures
        final(s)@ == old(s)@ + spec_digits(n as nat),
    decreases n,
{
    if n < 10 {
        s.append(digit_str(n));
        proof {
            assert(final(s)@ =~= old(s)@ + spec_digits(n as nat));
        }
    } else {
        push_digits(s, n / 10);
        s.append(digit_str(n % 10));
        proof {
            assert(final(s)@ =~= old(s)@ + spec_digits(n as nat));
        }
    }
}

/// Append the decimal digits of `n`, zero-padded to `width`.
fn push_digits_pad(s: &mut String, n: u64, width: u64)
    ensures
        final(s)@ == old(s)@ + spec_digits_pad(n as nat, width as nat),
    decreases width,
{
    if width == 0 {
        proof {
            assert(final(s)@ =~= old(s)@ + spec_digits_pad(n as nat, 0));
        }
    } else {
        push_digits_pad(s, n / 10, width - 1);
        s.append(digit_str(n % 10));
        proof {
            assert(final(s)@ =~= old(s)@ + spec_digits_pad(n as nat, width as nat));
        }
    }
}

/// The numeric value of one digit character.
fn digit_of(c: char) -> (r: Option<u64>)
    ensures
        r is Some <==> spec_is_digit_char(c),
        r is Some ==> r->Some_0 as int == spec_digit_val(c),
{
    match c {
        '0' => Some(0),
        '1' => Some(1),
        '2' => Some(2),
        '3' => Some(3),
        '4' => Some(4),
        '5' => Some(5),
        '6' => Some(6),
        '7' => Some(7),
        '8' => Some(8),
        '9' => Some(9),
        _ => None,
    }
}

/// Parse a run of decimal digits as a `u64`. `None` exactly when the
/// string is empty, holds a non-digit, or denotes a number above the
/// type's range. The grammar is deliberately a bare digit run: no
/// leading sign or surrounding space is admitted.
pub fn parse_u64(s: &str) -> (r: Option<u64>)
    ensures
        r is Some <==> (spec_is_digit_seq(s@) && spec_digits_num(s@) <= u64::MAX as int),
        r is Some ==> r->Some_0 as int == spec_digits_num(s@),
{
    let n: usize = s.unicode_len();
    if n == 0 {
        return None;
    }
    let mut acc: u64 = 0;
    let mut i: usize = 0;
    proof {
        assert(s@.take(0) =~= Seq::<char>::empty());
    }
    while i < n
        invariant
            i <= n,
            n == s@.len(),
            forall|j: int| 0 <= j < i ==> spec_is_digit_char(#[trigger] s@[j]),
            acc as int == spec_digits_num(s@.take(i as int)),
        decreases n - i,
    {
        let c: char = s.get_char(i);
        proof {
            assert(s@.take(i as int + 1).drop_last() =~= s@.take(i as int));
            assert(s@.take(i as int + 1).last() == s@[i as int]);
        }
        match digit_of(c) {
            None => {
                return None;
            },
            Some(d) => {
                let wide: u128 = acc as u128 * 10 + d as u128;
                if wide > u64::MAX as u128 {
                    proof {
                        lemma_digits_num_prefix(s@, i as int + 1);
                    }
                    return None;
                }
                acc = wide as u64;
            },
        }
        i = i + 1;
    }
    proof {
        assert(s@.take(n as int) =~= s@);
    }
    Some(acc)
}

/// In a string whose first dot sits at `ib`, no other dot closes a
/// digit-only prefix: `ib` is the unique split point of a decimal
/// numeral.
proof fn lemma_dot_unique(b: Seq<char>, ib: int, j: int)
    requires
        0 <= ib < b.len(),
        b[ib] == '.',
        forall|k: int| 0 <= k < ib ==> b[k] != '.',
        0 <= j < b.len(),
        b[j] == '.',
        spec_is_digit_seq(b.take(j)),
    ensures
        j == ib,
{
    if j > ib {
        assert(b.take(j)[ib] == '.');
        assert(spec_is_digit_char(b.take(j)[ib]));
        assert(false);
    }
}

/// Strip an optional leading minus sign.
pub open spec fn spec_decimal_body(s: Seq<char>) -> Seq<char> {
    if s.len() >= 1 && s[0] == '-' {
        s.drop_first()
    } else {
        s
    }
}

pub open spec fn spec_decimal_neg(s: Seq<char>) -> bool {
    s.len() >= 1 && s[0] == '-'
}

/// A decimal numeral: an optional minus sign, then digits, optionally
/// followed by a dot and one to six fractional digits.
pub open spec fn spec_is_decimal(s: Seq<char>) -> bool {
    let b = spec_decimal_body(s);
    ||| spec_is_digit_seq(b)
    ||| exists|i: int|
        #![trigger b[i]]
        0 <= i < b.len() && b[i] == '.' && spec_is_digit_seq(b.take(i)) && spec_is_digit_seq(
            b.skip(i + 1),
        ) && b.skip(i + 1).len() <= 6
}

/// The fixed-point magnitude a decimal numeral's body denotes.
pub open spec fn spec_decimal_mag(b: Seq<char>) -> int {
    if spec_is_digit_seq(b) {
        spec_digits_num(b) * (SCALE as int)
    } else {
        let i = choose|i: int|
            #![trigger b[i]]
            0 <= i < b.len() && b[i] == '.' && spec_is_digit_seq(b.take(i)) && spec_is_digit_seq(
                b.skip(i + 1),
            ) && b.skip(i + 1).len() <= 6;
        spec_digits_num(b.take(i)) * (SCALE as int) + spec_digits_num(b.skip(i + 1)) * spec_pow10(
            (6 - b.skip(i + 1).len()) as nat,
        )
    }
}

/// What a string denotes as a fixed-point value: `None` when it is not
/// a decimal numeral or falls outside the `i64` range.
pub open spec fn spec_parse_fixed(s: Seq<char>) -> Option<int> {
    if spec_is_decimal(s) {
        let m = spec_decimal_mag(spec_decimal_body(s));
        let v = if spec_decimal_neg(s) {
            -m
        } else {
            m
        };
        if i64::MIN as int <= v <= i64::MAX as int {
            Some(v)
        } else {
            None
        }
    } else {
        None
    }
}

/// The power of ten completing a fraction of `frac_len` digits to six.
fn frac_scale(frac_len: usize) -> (r: u64)
    requires
        1 <= frac_len <= 6,
    ensures
        r as int == spec_pow10((6 - frac_len) as nat),
        r <= 100_000,
{
    proof {
        reveal_with_fuel(spec_pow10, 8);
    }
    if frac_len == 1 {
        100_000
    } else if frac_len == 2 {
        10_000
    } else if frac_len == 3 {
        1_000
    } else if frac_len == 4 {
        100
    } else if frac_len == 5 {
        10
    } else {
        1
    }
}

/// Parse a decimal numeral as a fixed-point value: an optional minus
/// sign, a whole part, optionally a dot and one to six fractional
/// digits. `None` exactly when the string is not such a numeral or its
/// value falls outside the `i64` range.
pub fn parse_fixed(s: &str) -> (r: Option<i64>)
    ensures
        match r {
            Some(v) => spec_parse_fixed(s@) == Some(v as int),
            None => spec_parse_fixed(s@) is None,
        },
{
    let n: usize = s.unicode_len();
    let neg: bool = n >= 1 && s.get_char(0) == '-';
    let start: usize = if neg {
        1
    } else {
        0
    };
    let ghost b: Seq<char> = spec_decimal_body(s@);
    proof {
        assert(b =~= s@.skip(start as int));
    }
    // Find the first dot, if any.
    let mut i: usize = start;
    while i < n && s.get_char(i) != '.'
        invariant
            start <= i <= n,
            n == s@.len(),
            forall|k: int| start <= k < i ==> s@[k] != '.',
        decreases n - i,
    {
        i = i + 1;
    }
    let has_dot: bool = i < n;
    let int_end: usize = i;
    let int_str: &str = s.substring_char(start, int_end);
    proof {
        assert(int_str@ =~= b.take(int_end - start as int));
        if !has_dot {
            assert(b.take(int_end - start as int) =~= b);
        }
    }
    let int_num: u64 = match parse_u64(int_str) {
        Some(v) => v,
        None => {
            proof {
                lemma_parse_fixed_refute(s@, b, int_end - start as int, has_dot);
            }
            return None;
        },
    };
    if !has_dot {
        // Whole number: magnitude is the whole part scaled.
        let wide: u128 = int_num as u128 * 1_000_000;
        finish_fixed(neg, wide, Ghost(s@))
    } else {
        let d: usize = int_end;
        let frac_len: usize = n - (d + 1);
        if frac_len == 0 || frac_len > 6 {
            proof {
                lemma_parse_fixed_bad_frac(s@, b, d - start as int);
            }
            return None;
        }
        let frac_str: &str = s.substring_char(d + 1, n);
        proof {
            assert(frac_str@ =~= b.skip(d + 1 - start as int));
        }
        let frac_num: u64 = match parse_u64(frac_str) {
            Some(v) => v,
            None => {
                proof {
                    lemma_digits_num_bound(frac_str@);
                    reveal_with_fuel(spec_pow10, 8);
                    lemma_parse_fixed_bad_frac(s@, b, d - start as int);
                }
                return None;
            },
        };
        let scale: u64 = frac_scale(frac_len);
        proof {
            assert((int_num as int) * 1_000_000 <= 0xFFFF_FFFF_FFFF_FFFFu64 as int * 1_000_000)
                by (nonlinear_arith)
                requires
                    0 <= int_num as int <= 0xFFFF_FFFF_FFFF_FFFFu64 as int,
            ;
            assert((frac_num as int) * (scale as int) <= 0xFFFF_FFFF_FFFF_FFFFu64 as int
                * 100_000) by (nonlinear_arith)
                requires
                    0 <= frac_num as int <= 0xFFFF_FFFF_FFFF_FFFFu64 as int,
                    0 <= scale as int <= 100_000,
            ;
        }
        let wide: u128 = int_num as u128 * 1_000_000 + (frac_num as u128) * (scale as u128);
        proof {
            lemma_parse_fixed_split(s@, b, d - start as int);
        }
        finish_fixed(neg, wide, Ghost(s@))
    }
}

/// Apply the sign and the range check to a parsed magnitude.
fn finish_fixed(neg: bool, mag: u128, Ghost(s): Ghost<Seq<char>>) -> (r: Option<i64>)
    requires
        spec_is_decimal(s),
        mag as int == spec_decimal_mag(spec_decimal_body(s)),
        neg == spec_decimal_neg(s),
    ensures
        match r {
            Some(v) => spec_parse_fixed(s) == Some(v as int),
            None => spec_parse_fixed(s) is None,
        },
{
    if neg {
        if mag > 0x8000_0000_0000_0000u128 {
            None
        } else {
            Some((-(mag as i128)) as i64)
        }
    } else {
        if mag > i64::MAX as u128 {
            None
        } else {
            Some(mag as i64)
        }
    }
}

/// When the whole part fails to parse, the string parses to nothing.
proof fn lemma_parse_fixed_refute(s: Seq<char>, b: Seq<char>, int_len: int, has_dot: bool)
    requires
        b == spec_decimal_body(s),
        0 <= int_len <= b.len(),
        !(spec_is_digit_seq(b.take(int_len)) && spec_digits_num(b.take(int_len)) <= u64::MAX
            as int),
        has_dot ==> int_len < b.len() && b[int_len] == '.' && (forall|k: int|
            0 <= k < int_len ==> b[k] != '.'),
        !has_dot ==> b.take(int_len) == b && (forall|k: int| 0 <= k < b.len() ==> b[k] != '.'),
    ensures
        spec_parse_fixed(s) is None,
{
    let ip = b.take(int_len);
    if spec_is_digit_seq(ip) {
        // The whole part overflows `u64`, so any value is far outside
        // the `i64` range.
        assert(spec_digits_num(ip) > u64::MAX as int);
        if spec_is_decimal(s) {
            lemma_digits_num_nonneg(b);
            if spec_is_digit_seq(b) {
                assert(spec_decimal_mag(b) == spec_digits_num(b) * (SCALE as int));
                if has_dot {
                    assert(spec_is_digit_char(b[int_len]));
                    assert(false);
                } else {
                    assert(spec_digits_num(b) * (SCALE as int) > i64::MAX as int)
                        by (nonlinear_arith)
                        requires
                            spec_digits_num(b) > u64::MAX as int,
                    ;
                    assert(-(spec_decimal_mag(b)) < i64::MIN as int);
                }
            } else {
                let j = choose|j: int|
                    #![trigger b[j]]
                    0 <= j < b.len() && b[j] == '.' && spec_is_digit_seq(b.take(j))
                        && spec_is_digit_seq(b.skip(j + 1)) && b.skip(j + 1).len() <= 6;
                assert(has_dot);
                lemma_dot_unique(b, int_len, j);
                lemma_digits_num_nonneg(b.skip(j + 1));
                lemma_pow10_pos((6 - b.skip(j + 1).len()) as nat);
                assert(spec_digits_num(ip) * (SCALE as int) > i64::MAX as int)
                    by (nonlinear_arith)
                    requires
                        spec_digits_num(ip) > u64::MAX as int,
                ;
                assert(spec_digits_num(b.skip(j + 1)) * spec_pow10((6 - b.skip(j + 1).len()) as nat)
                    >= 0) by (nonlinear_arith)
                    requires
                        spec_digits_num(b.skip(j + 1)) >= 0,
                        spec_pow10((6 - b.skip(j + 1).len()) as nat) >= 1,
                ;
                assert(spec_decimal_mag(b) > i64::MAX as int);
                assert(-(spec_decimal_mag(b)) < i64::MIN as int);
            }
        }
    } else {
        // The whole part holds a non-digit (or is empty): no reading of
        // the string is a decimal numeral.
        if spec_is_decimal(s) {
            if spec_is_digit_seq(b) {
                if int_len == 0 {
                    assert(!spec_is_digit_seq(ip));
                    assert(b.len() >= 1);
                    if has_dot {
                        assert(spec_is_digit_char(b[0]));
                        assert(b[0] == '.');
                        assert(false);
                    } else {
                        assert(ip == b);
                        assert(false);
                    }
                } else {
                    assert(forall|k: int|
                        0 <= k < int_len ==> spec_is_digit_char(#[trigger] ip[k]));
                    assert(false);
                }
            } else {
                let j = choose|j: int|
                    #![trigger b[j]]
                    0 <= j < b.len() && b[j] == '.' && spec_is_digit_seq(b.take(j))
                        && spec_is_digit_seq(b.skip(j + 1)) && b.skip(j + 1).len() <= 6;
                assert(has_dot) by {
                    if !has_dot {
                        assert(b[j] != '.');
                    }
                }
                lemma_dot_unique(b, int_len, j);
                assert(spec_is_digit_seq(ip));
                assert(false);
            }
        }
    }
}

/// When the fractional part is missing, too long, or not digits, the
/// string parses to nothing.
proof fn lemma_parse_fixed_bad_frac(s: Seq<char>, b: Seq<char>, ib: int)
    requires
        b == spec_decimal_body(s),
        0 <= ib < b.len(),
        b[ib] == '.',
        forall|k: int| 0 <= k < ib ==> b[k] != '.',
        !(spec_is_digit_seq(b.skip(ib + 1)) && 1 <= b.skip(ib + 1).len() <= 6),
    ensures
        spec_parse_fixed(s) is None,
{
    if spec_is_decimal(s) {
        if spec_is_digit_seq(b) {
            assert(spec_is_digit_char(b[ib]));
            assert(false);
        } else {
            let j = choose|j: int|
                #![trigger b[j]]
                0 <= j < b.len() && b[j] == '.' && spec_is_digit_seq(b.take(j))
                    && spec_is_digit_seq(b.skip(j + 1)) && b.skip(j + 1).len() <= 6;
            lemma_dot_unique(b, ib, j);
            assert(spec_is_digit_seq(b.skip(ib + 1)));
            assert(b.skip(ib + 1).len() >= 1);
            assert(false);
        }
    }
}

/// With valid whole and fractional parts around the first dot, the
/// numeral's magnitude splits at that dot.
proof fn lemma_parse_fixed_split(s: Seq<char>, b: Seq<char>, ib: int)
    requires
        b == spec_decimal_body(s),
        0 <= ib < b.len(),
        b[ib] == '.',
        forall|k: int| 0 <= k < ib ==> b[k] != '.',
        spec_is_digit_seq(b.take(ib)),
        spec_is_digit_seq(b.skip(ib + 1)),
        1 <= b.skip(ib + 1).len() <= 6,
    ensures
        spec_is_decimal(s),
        spec_decimal_mag(b) == spec_digits_num(b.take(ib)) * (SCALE as int) + spec_digits_num(
            b.skip(ib + 1),
        ) * spec_pow10((6 - b.skip(ib + 1).len()) as nat),
{
    assert(!spec_is_digit_seq(b)) by {
        assert(b[ib] == '.');
        assert(!spec_is_digit_char('.'));
    }
    assert(spec_is_decimal(s)) by {
        assert(0 <= ib < b.len() && b[ib] == '.' && spec_is_digit_seq(b.take(ib))
            && spec_is_digit_seq(b.skip(ib + 1)) && b.skip(ib + 1).len() <= 6);
    }
    let j = choose|j: int|
        #![trigger b[j]]
        0 <= j < b.len() && b[j] == '.' && spec_is_digit_seq(b.take(j)) && spec_is_digit_seq(
            b.skip(j + 1),
        ) && b.skip(j + 1).len() <= 6;
    lemma_dot_unique(b, ib, j);
}

/// Render a plain unsigned number as its decimal digits.
pub fn u64_to_string(n: u64) -> (r: String)
    ensures
        r@ == spec_digits(n as nat),
{
    let mut s: String = String::new();
    push_digits(&mut s, n);
    proof {
        assert(s@ =~= spec_digits(n as nat));
    }
    s
}

/// Render a fixed-point value as a decimal string: optional minus sign,
/// whole part, dot, six fractional digits.
pub fn fx_to_string(v: i64) -> (r: String)
    ensures
        r@ == spec_fx_chars(v as int),
        spec_all_value_chars(r@),
{
    proof {
        reveal_strlit("-");
        reveal_strlit(".");
    }
    let mut s: String = String::new();
    if v < 0 {
        s.append("-");
    }
    let m: u64 = if v >= 0 {
        v as u64
    } else {
        (-(v as i128)) as u64
    };
    push_digits(&mut s, m / 1_000_000);
    s.append(".");
    push_digits_pad(&mut s, m % 1_000_000, 6);
    proof {
        assert(s@ =~= spec_fx_chars(v as int));
        lemma_fx_chars_value_chars(v as int);
    }
    s
}

} // verus!
