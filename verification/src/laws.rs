//! Proved properties of the reference-code generator.
//!
//! The encoders' contracts pin each output to a spec function of the input;
//! the lemmas here state the global laws that follow: the fixed shape of a
//! reference code, that lexicographic order of counter encodings agrees with
//! numeric order of tick counts, that the random suffix always consists of
//! two hexadecimal symbols, and that the encoders are deterministic.

use vstd::prelude::*;

use crate::id::alphabet16;
use crate::id::alphabet32;
use crate::id::counter_chars;
use crate::id::counter_digit;
use crate::id::id_chars;
use crate::id::place_value;
use crate::id::random_chars;
use crate::id::year_chars;
use vstd::arithmetic::div_mod::lemma_div_denominator;
use vstd::arithmetic::div_mod::lemma_div_is_ordered;
use vstd::arithmetic::div_mod::lemma_fundamental_div_mod;
use vstd::arithmetic::div_mod::lemma_hoist_over_denominator;
use vstd::arithmetic::div_mod::lemma_mod_multiples_vanish;
use vstd::arithmetic::div_mod::lemma_multiply_divide_lt;
use vstd::arithmetic::div_mod::lemma_small_mod;

verus! {

/// A character drawn from the counter alphabet.
pub open spec fn is_counter_symbol(c: char) -> bool {
    exists|i: int| 0 <= i < 32 && c == alphabet32(i)
}

/// A character drawn from the hexadecimal alphabet.
pub open spec fn is_hex_symbol(c: char) -> bool {
    exists|i: int| 0 <= i < 16 && c == alphabet16(i)
}

/// A decimal digit character.
pub open spec fn is_decimal_digit(c: char) -> bool {
    exists|i: int| 0 <= i < 10 && c == alphabet16(i)
}

/// Lexicographic order on character sequences, comparing characters by
/// their scalar values.  On ASCII strings this agrees with Rust's `String`
/// ordering, which compares UTF-8 bytes.
pub open spec fn lex_le(s1: Seq<char>, s2: Seq<char>) -> bool
    decreases s1.len(),
{
    if s1.len() == 0 {
        true
    } else if s2.len() == 0 {
        false
    } else if (s1[0] as u32) < (s2[0] as u32) {
        true
    } else if s1[0] == s2[0] {
        lex_le(s1.drop_first(), s2.drop_first())
    } else {
        false
    }
}

/// The counter alphabet is listed in strictly increasing character order,
/// so greater digit values map to greater symbols.
pub proof fn lemma_alphabet32_increasing(i: int, j: int)
    requires
        0 <= i < j < 32,
    ensures
        (alphabet32(i) as u32) < (alphabet32(j) as u32),
{
}

/// Two equal-length sequences whose first difference favours the left one
/// compare as lexicographically smaller.
proof fn lemma_lex_from_first_diff(s1: Seq<char>, s2: Seq<char>, i: int)
    requires
        s1.len() == s2.len(),
        0 <= i < s1.len(),
        forall|j: int| 0 <= j < i ==> s1[j] == s2[j],
        (s1[i] as u32) < (s2[i] as u32),
    ensures
        lex_le(s1, s2),
    decreases i,
{
    if i == 0 {
        assert(lex_le(s1, s2));
    } else {
        assert(s1[0] == s2[0]);
        lemma_lex_from_first_diff(s1.drop_first(), s2.drop_first(), i - 1);
    }
}

/// If two quotients fall in the same block of 32 and differ, their
/// remainders modulo 32 are ordered the same way as the quotients.
proof fn lemma_same_block_mod(qa: int, qb: int)
    requires
        0 <= qa,
        qa < qb,
        qa / 32 == qb / 32,
    ensures
        qa % 32 < qb % 32,
{
    lemma_fundamental_div_mod(qa, 32);
    lemma_fundamental_div_mod(qb, 32);
}

/// At each counter place, the quotient by the next (more significant)
/// place value is the quotient by this place value, divided by 32.
proof fn lemma_place_step(x: int, i: int)
    requires
        0 <= x,
        1 <= i < 6,
    ensures
        x / place_value(i - 1) == (x / place_value(i)) / 32,
{
    lemma_div_denominator(x, place_value(i), 32);
}

/// Lexicographic comparison of two counter encodings agrees with numeric
/// comparison of the underlying tick counts, as long as both counts stay
/// below 32^6, the first value that wraps.
pub proof fn lemma_counter_monotonic(a: u32, b: u32)
    requires
        a < b,
        b < 1073741824,
    ensures
        lex_le(counter_chars(a), counter_chars(b)),
{
    let ai = a as int;
    let bi = b as int;
    let s1 = counter_chars(a);
    let s2 = counter_chars(b);

    assert forall|i: int| 0 <= i < 6 implies 0 <= #[trigger] counter_digit(a, i) < 32
        && 0 <= counter_digit(b, i) < 32 by {
        assert(place_value(i) > 0);
    }

    let first_diff = choose_first_diff(a, b);
    let qa = ai / place_value(first_diff);
    let qb = bi / place_value(first_diff);

    assert forall|j: int| 0 <= j < first_diff implies s1[j] == s2[j] by {
        lemma_quotients_agree_above(a, b, first_diff, j);
    }

    lemma_div_is_ordered(ai, bi, place_value(first_diff));
    if first_diff == 0 {
        lemma_multiply_divide_lt(ai, 33554432, 32);
        lemma_multiply_divide_lt(bi, 33554432, 32);
        lemma_small_mod(qa as nat, 32);
        lemma_small_mod(qb as nat, 32);
        assert(counter_digit(a, 0) < counter_digit(b, 0));
    } else {
        lemma_place_step(ai, first_diff);
        lemma_place_step(bi, first_diff);
        lemma_quotients_agree_above(a, b, first_diff, first_diff - 1);
        assert(qa / 32 == qb / 32);
        lemma_same_block_mod(qa, qb);
        assert(counter_digit(a, first_diff) < counter_digit(b, first_diff));
    }
    lemma_alphabet32_increasing(counter_digit(a, first_diff), counter_digit(b, first_diff));
    lemma_lex_from_first_diff(s1, s2, first_diff);
}

/// The most significant counter place at which the quotients of `a` and `b`
/// differ.  For `a < b` the quotients at the least significant place are the
/// values themselves, so such a place exists.
spec fn choose_first_diff(a: u32, b: u32) -> int {
    let ai = a as int;
    let bi = b as int;
    if ai / place_value(0) != bi / place_value(0) { 0 }
    else if ai / place_value(1) != bi / place_value(1) { 1 }
    else if ai / place_value(2) != bi / place_value(2) { 2 }
    else if ai / place_value(3) != bi / place_value(3) { 3 }
    else if ai / place_value(4) != bi / place_value(4) { 4 }
    else { 5 }
}

/// Above the first differing place, the quotients — and with them the
/// digits — of the two counter encodings agree.
proof fn lemma_quotients_agree_above(a: u32, b: u32, first_diff: int, j: int)
    requires
        a < b,
        first_diff == choose_first_diff(a, b),
        0 <= j < first_diff,
    ensures
        a as int / place_value(j) == b as int / place_value(j),
        counter_chars(a)[j] == counter_chars(b)[j],
{
}

/// One counter digit depends only on the tick count modulo 32^6: at each
/// place, the whole multiples of 32^6 inside the count land on a multiple
/// of 32 and vanish under the reduction modulo 32.
proof fn lemma_digit_wraps(t: u32, i: int)
    requires
        0 <= i < 6,
    ensures
        counter_digit(t, i) == ((t as int % 1073741824) / place_value(i)) % 32,
{
    let ti = t as int;
    let p = place_value(i);
    let q = ti / 1073741824;
    let r = ti % 1073741824;
    let blocks_per_wrap: int = 1073741824int / p;

    lemma_fundamental_div_mod(ti, 1073741824);
    assert(0 <= r < 1073741824);
    assert(0 <= q);
    assert(ti == q * 1073741824 + r);
    assert(q * 1073741824 == (q * blocks_per_wrap) * p) by (nonlinear_arith)
        requires
            blocks_per_wrap * p == 1073741824,
    ;
    lemma_hoist_over_denominator(r, q * blocks_per_wrap, p as nat);
    assert(ti / p == r / p + q * blocks_per_wrap);
    assert(q * blocks_per_wrap == 32 * (q * (blocks_per_wrap / 32))) by (nonlinear_arith)
        requires
            blocks_per_wrap == 32 * (blocks_per_wrap / 32),
    ;
    lemma_mod_multiples_vanish(q * (blocks_per_wrap / 32), r / p, 32);
}

/// The counter encoding wraps silently: it depends only on the tick count
/// modulo 32^6, so the first count that no longer fits six digits encodes
/// like zero.  This is an accepted consequence of the fixed-width modular
/// encoding and the per-year epoch reset.
pub proof fn lemma_counter_wraparound(a: u32, b: u32)
    requires
        a as int % 1073741824 == b as int % 1073741824,
    ensures
        counter_chars(a) == counter_chars(b),
{
    assert forall|i: int| 0 <= i < 6 implies #[trigger] counter_chars(a)[i]
        == counter_chars(b)[i] by {
        lemma_digit_wraps(a, i);
        lemma_digit_wraps(b, i);
    }
    assert(counter_chars(a) =~= counter_chars(b));
}

/// The counter encoding and the random suffix are pure: their contracts pin
/// each output to a function of the input alone, so two invocations with
/// identical inputs yield identical output.
pub proof fn lemma_encoders_deterministic(
    interval: u32,
    number: u8,
    c1: Seq<char>,
    c2: Seq<char>,
    r1: Seq<char>,
    r2: Seq<char>,
)
    requires
        c1 == counter_chars(interval),
        c2 == counter_chars(interval),
        r1 == random_chars(number),
        r2 == random_chars(number),
    ensures
        c1 == c2,
        r1 == r2,
{
}

/// For every byte, the random suffix is exactly two characters, both drawn
/// from the hexadecimal alphabet.
pub proof fn lemma_random_suffix_total(number: u8)
    ensures
        random_chars(number).len() == 2,
        is_hex_symbol(random_chars(number)[0]),
        is_hex_symbol(random_chars(number)[1]),
{
    assert(0 <= number as int / 16 < 16);
    assert(0 <= number as int % 16 < 16);
}

/// A reference code has the fixed shape `#`, then the prefix verbatim, then
/// two decimal year digits, then six counter-alphabet characters, then two
/// hexadecimal characters — for every prefix, two-digit year, tick count
/// and random byte.
pub proof fn lemma_id_shape(prefix: Seq<char>, year2: u32, interval: u32, number: u8)
    requires
        year2 < 100,
    ensures
        id_chars(prefix, year2, interval, number).len() == prefix.len() + 11,
        id_chars(prefix, year2, interval, number)[0] == '#',
        id_chars(prefix, year2, interval, number).subrange(1, prefix.len() + 1 as int)
            =~= prefix,
        forall|j: int| prefix.len() + 1 <= j < prefix.len() + 3
            ==> is_decimal_digit(#[trigger] id_chars(prefix, year2, interval, number)[j]),
        forall|j: int| prefix.len() + 3 <= j < prefix.len() + 9
            ==> is_counter_symbol(#[trigger] id_chars(prefix, year2, interval, number)[j]),
        forall|j: int| prefix.len() + 9 <= j < prefix.len() + 11
            ==> is_hex_symbol(#[trigger] id_chars(prefix, year2, interval, number)[j]),
{
    let s = id_chars(prefix, year2, interval, number);
    let n = prefix.len() as int;
    assert(year_chars(year2).len() == 2);
    assert(counter_chars(interval).len() == 6);
    assert(random_chars(number).len() == 2);

    assert(0 <= year2 as int / 10 < 10);
    assert(0 <= year2 as int % 10 < 10);
    assert(s[n + 1] == alphabet16(year2 as int / 10));
    assert(s[n + 2] == alphabet16(year2 as int % 10));

    assert forall|j: int| n + 3 <= j < n + 9 implies is_counter_symbol(s[j]) by {
        assert(s[j] == counter_chars(interval)[j - (n + 3)]);
        let d = counter_digit(interval, j - (n + 3));
        assert(place_value(j - (n + 3)) > 0);
        assert(0 <= d < 32);
        assert(s[j] == alphabet32(d));
    }

    assert(s[n + 9] == alphabet16(number as int / 16));
    assert(s[n + 10] == alphabet16(number as int % 16));
    assert(0 <= number as int / 16 < 16);
    assert(0 <= number as int % 16 < 16);
}

} // verus!
