//! The reference-code generator.
//!
//! A reference code has the fixed shape
//! `#` + prefix + 2-digit year + 6-char base-32 counter + 2-char hex suffix.
//! The counter counts 50ms ticks since the start of the current UTC calendar
//! year, rendered most-significant-digit first in a 32-symbol alphabet that
//! omits the easily confused letters B, I, O and Z.

use vstd::prelude::*;

verus! {

/// The ordered 32-symbol alphabet of the counter encoding: the decimal
/// digits followed by the upper-case letters without B, I, O and Z.
/// The listing order defines both digit values and the lexicographic
/// order of encoded strings.
pub open spec fn alphabet32(i: int) -> char {
    if i == 0 { '0' } else if i == 1 { '1' } else if i == 2 { '2' }
    else if i == 3 { '3' } else if i == 4 { '4' } else if i == 5 { '5' }
    else if i == 6 { '6' } else if i == 7 { '7' } else if i == 8 { '8' }
    else if i == 9 { '9' } else if i == 10 { 'A' } else if i == 11 { 'C' }
    else if i == 12 { 'D' } else if i == 13 { 'E' } else if i == 14 { 'F' }
    else if i == 15 { 'G' } else if i == 16 { 'H' } else if i == 17 { 'J' }
    else if i == 18 { 'K' } else if i == 19 { 'L' } else if i == 20 { 'M' }
    else if i == 21 { 'N' } else if i == 22 { 'P' } else if i == 23 { 'Q' }
    else if i == 24 { 'R' } else if i == 25 { 'S' } else if i == 26 { 'T' }
    else if i == 27 { 'U' } else if i == 28 { 'V' } else if i == 29 { 'W' }
    else if i == 30 { 'X' } else { 'Y' }
}

/// The ordered hexadecimal alphabet of the random suffix.
pub open spec fn alphabet16(i: int) -> char {
    if i == 0 { '0' } else if i == 1 { '1' } else if i == 2 { '2' }
    else if i == 3 { '3' } else if i == 4 { '4' } else if i == 5 { '5' }
    else if i == 6 { '6' } else if i == 7 { '7' } else if i == 8 { '8' }
    else if i == 9 { '9' } else if i == 10 { 'A' } else if i == 11 { 'B' }
    else if i == 12 { 'C' } else if i == 13 { 'D' } else if i == 14 { 'E' }
    else { 'F' }
}

/// The place value of counter digit `i` (most significant first):
/// 32^5, 32^4, ..., 32^0.
pub open spec fn place_value(i: int) -> int {
    if i == 0 { 33554432 } else if i == 1 { 1048576 } else if i == 2 { 32768 }
    else if i == 3 { 1024 } else if i == 4 { 32 } else { 1 }
}

/// Counter digit `i` of a tick count: the quotient by the place value,
/// reduced modulo 32.  Reduction at every place makes the encoding wrap
/// silently for tick counts of 32^6 and above.
pub open spec fn counter_digit(interval: u32, i: int) -> int {
    (interval as int / place_value(i)) % 32
}

/// The 6-character counter encoding of a tick count.
pub open spec fn counter_chars(interval: u32) -> Seq<char> {
    Seq::new(6, |i: int| alphabet32(counter_digit(interval, i)))
}

/// The 2-character hexadecimal encoding of a random byte:
/// high nibble first, then low nibble.
pub open spec fn random_chars(number: u8) -> Seq<char> {
    seq![alphabet16(number as int / 16), alphabet16(number as int % 16)]
}

/// Converts elapsed milliseconds since the per-year epoch into 50ms ticks.
/// A count that does not fit a `u32` can only come from a corrupted clock,
/// which the caller must rule out.
pub fn into_intervals(milliseconds: u64) -> (r: u32)
    requires
        milliseconds / 50 <= u32::MAX as u64,
    ensures
        r == milliseconds as int / 50,
{
    (milliseconds / 50) as u32
}

/// The value of one counter digit: the tick count divided by the digit's
/// place value, modulo 32.
pub fn into_counter_index(interval: u32, radix: u32) -> (r: usize)
    requires
        radix > 0,
    ensures
        r == (interval as int / radix as int) % 32,
        r < 32,
{
    ((interval / radix) % 32) as usize
}

/// The symbol of the counter alphabet at index `d`.
fn symbol32(d: usize) -> (r: &'static str)
    requires
        d < 32,
    ensures
        r@ =~= seq![alphabet32(d as int)],
{
    proof {
        reveal_strlit("0"); reveal_strlit("1"); reveal_strlit("2");
        reveal_strlit("3"); reveal_strlit("4"); reveal_strlit("5");
        reveal_strlit("6"); reveal_strlit("7"); reveal_strlit("8");
        reveal_strlit("9"); reveal_strlit("A"); reveal_strlit("C");
        reveal_strlit("D"); reveal_strlit("E"); reveal_strlit("F");
        reveal_strlit("G"); reveal_strlit("H"); reveal_strlit("J");
        reveal_strlit("K"); reveal_strlit("L"); reveal_strlit("M");
        reveal_strlit("N"); reveal_strlit("P"); reveal_strlit("Q");
        reveal_strlit("R"); reveal_strlit("S"); reveal_strlit("T");
        reveal_strlit("U"); reveal_strlit("V"); reveal_strlit("W");
        reveal_strlit("X"); reveal_strlit("Y");
    }
    match d {
        0 => "0", 1 => "1", 2 => "2", 3 => "3", 4 => "4", 5 => "5",
        6 => "6", 7 => "7", 8 => "8", 9 => "9", 10 => "A", 11 => "C",
        12 => "D", 13 => "E", 14 => "F", 15 => "G", 16 => "H", 17 => "J",
        18 => "K", 19 => "L", 20 => "M", 21 => "N", 22 => "P", 23 => "Q",
        24 => "R", 25 => "S", 26 => "T", 27 => "U", 28 => "V", 29 => "W",
        30 => "X", _ => "Y",
    }
}

/// The symbol of the hexadecimal alphabet at index `d`.
fn symbol16(d: usize) -> (r: &'static str)
    requires
        d < 16,
    ensures
        r@ =~= seq![alphabet16(d as int)],
{
    proof {
        reveal_strlit("0"); reveal_strlit("1"); reveal_strlit("2");
        reveal_strlit("3"); reveal_strlit("4"); reveal_strlit("5");
        reveal_strlit("6"); reveal_strlit("7"); reveal_strlit("8");
        reveal_strlit("9"); reveal_strlit("A"); reveal_strlit("B");
        reveal_strlit("C"); reveal_strlit("D"); reveal_strlit("E");
        reveal_strlit("F");
    }
    match d {
        0 => "0", 1 => "1", 2 => "2", 3 => "3", 4 => "4", 5 => "5",
        6 => "6", 7 => "7", 8 => "8", 9 => "9", 10 => "A", 11 => "B",
        12 => "C", 13 => "D", 14 => "E", _ => "F",
    }
}

/// Encodes elapsed milliseconds since the per-year epoch as the fixed-width
/// 6-character counter: the tick count rendered most-significant-digit first
/// in the 32-symbol alphabet.
pub fn into_counter(milliseconds: u64) -> (r: String)
    requires
        milliseconds / 50 <= u32::MAX as u64,
    ensures
        r@ =~= counter_chars((milliseconds / 50) as u32),
        r@.len() == 6,
{
    let interval = into_intervals(milliseconds);

    let mut counter = String::new();
    counter.append(symbol32(into_counter_index(interval, 33554432)));
    counter.append(symbol32(into_counter_index(interval, 1048576)));
    counter.append(symbol32(into_counter_index(interval, 32768)));
    counter.append(symbol32(into_counter_index(interval, 1024)));
    counter.append(symbol32(into_counter_index(interval, 32)));
    counter.append(symbol32(into_counter_index(interval, 1)));
    counter
}

/// Splits a random byte into its high and low nibble.
pub fn into_random_index(number: u8) -> (r: (usize, usize))
    ensures
        r.0 == number as int / 16,
        r.1 == number as int % 16,
        r.0 < 16,
        r.1 < 16,
{
    ((number / 16) as usize, (number % 16) as usize)
}

/// Encodes one random byte as the fixed 2-character hexadecimal suffix.
pub fn into_random(number: u8) -> (r: String)
    ensures
        r@ =~= random_chars(number),
        r@.len() == 2,
{
    let (ih, il) = into_random_index(number);
    let mut suffix = String::new();
    suffix.append(symbol16(ih));
    suffix.append(symbol16(il));
    suffix
}

/// The 2-character rendering of a two-digit year.  The first ten symbols of
/// the hexadecimal alphabet are exactly the decimal digits.
pub open spec fn year_chars(year2: u32) -> Seq<char> {
    seq![alphabet16(year2 as int / 10), alphabet16(year2 as int % 10)]
}

/// The full reference code as a character sequence:
/// `#`, the caller's prefix, the two-digit year, the 6-character counter
/// for the tick count, and the 2-character random suffix.
pub open spec fn id_chars(prefix: Seq<char>, year2: u32, interval: u32, number: u8) -> Seq<char> {
    seq!['#'] + prefix + year_chars(year2) + counter_chars(interval) + random_chars(number)
}

/// Reduces a calendar year to its last two digits.
pub fn year_two_digits(year: u32) -> (r: u32)
    ensures
        r == year % 100,
        r < 100,
{
    year % 100
}

/// Relies on chrono: `Utc::now` for the current instant, `Datelike::year`
/// for its calendar year, `TimeZone::with_ymd_and_hms` for 00:00:00 UTC on
/// January 1 of that year, and `DateTime::signed_duration_since` with
/// `TimeDelta::num_milliseconds` for the elapsed milliseconds between the
/// two.  The elapsed span lies inside a single calendar year, so it is
/// non-negative and below 367 days of milliseconds; `Utc::now` only returns
/// instants from 1970 up to chrono's maximum year 262142.
#[verifier::external_body]
fn read_clock() -> (r: (u64, u32))
    ensures
        r.0 < 31_708_800_000,
        1970 <= r.1 <= 262142,
{
    let now = chrono::Utc::now();
    let year = chrono::Datelike::year(&now);
    let epoch = chrono::TimeZone::with_ymd_and_hms(&chrono::Utc, year, 1, 1, 0, 0, 0).unwrap();
    let milliseconds = now.signed_duration_since(epoch).num_milliseconds();
    (milliseconds as u64, year as u32)
}

/// Relies on rand: `rand::random::<u8>()` draws one byte from the
/// process-wide thread-local generator.  Nothing can be promised of a
/// random value.
#[verifier::external_body]
fn random_byte() -> (r: u8)
{
    rand::random::<u8>()
}

/// Assembles a reference code from its plain parts: a caller-supplied
/// prefix, a two-digit year, elapsed milliseconds since the per-year epoch,
/// and one random byte.
pub fn into_id(prefix: &str, year2: u32, milliseconds: u64, number: u8) -> (r: String)
    requires
        year2 < 100,
        milliseconds / 50 <= u32::MAX as u64,
    ensures
        r@ =~= id_chars(prefix@, year2, (milliseconds / 50) as u32, number),
{
    proof {
        reveal_strlit("#");
    }
    let mut out = String::from_str("#");
    out.append(prefix);
    out.append(symbol16((year2 / 10) as usize));
    out.append(symbol16((year2 % 10) as usize));
    let counter = into_counter(milliseconds);
    out.append(counter.as_str());
    let suffix = into_random(number);
    out.append(suffix.as_str());
    out
}

/// Generates the next reference code for a form submission: `#`, the
/// caller-supplied prefix, the last two digits of the current UTC year,
/// the 6-character counter of 50ms ticks elapsed since the start of that
/// year, and a 2-character random suffix.
///
/// Every call reads the clock and draws one random byte afresh; no state
/// persists between calls.  The prefix is embedded verbatim: validating it
/// is the caller's responsibility.
pub fn next(prefix: &str) -> (r: String)
    ensures
        exists|year2: u32, interval: u32, number: u8|
            year2 < 100 && r@ == id_chars(prefix@, year2, interval, number),
        r@.len() == prefix@.len() + 11,
        r@[0] == '#',
        r@.subrange(1, prefix@.len() + 1 as int) == prefix@,
{
    let (milliseconds, year) = read_clock();
    let year2 = year_two_digits(year);
    let number = random_byte();
    let r = into_id(prefix, year2, milliseconds, number);
    proof {
        let interval = (milliseconds / 50) as u32;
        assert(year2 < 100 && r@ == id_chars(prefix@, year2, interval, number));
        crate::laws::lemma_id_shape(prefix@, year2, interval, number);
    }
    r
}

} // verus!
