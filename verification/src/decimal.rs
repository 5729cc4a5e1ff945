//! Decimal numerals: what a run of ASCII digits denotes, and how it is read
//! from bytes without overflow.
//!
//! The grammar is the one integers are commonly written in on the wire: an
//! optional sign, then one or more digits `0`..`9`, and nothing else (no
//! blanks, no separators). A numeral whose value does not fit the requested
//! range denotes nothing.

use vstd::prelude::*;

verus! {

/// ASCII `+`.
pub const PLUS: u8 = 43;

/// ASCII `-`.
pub const MINUS: u8 = 45;

/// Whether `b` is one of the ASCII digits `0`..`9`.
pub open spec fn is_digit(b: u8) -> bool {
    48 <= b <= 57
}

/// What one digit is worth; a byte that is no digit is worth nothing.
pub open spec fn digit_value(b: u8) -> nat {
    if is_digit(b) {
        (b - 48) as nat
    } else {
        0
    }
}

/// Whether every byte of `s` is a digit.
pub open spec fn all_digits(s: Seq<u8>) -> bool {
    forall|i: int| 0 <= i < s.len() ==> is_digit(#[trigger] s[i])
}

/// The number that the digits of `s` denote in base ten, most significant
/// digit first. The empty run denotes zero.
pub open spec fn digits_value(s: Seq<u8>) -> nat
    decreases s.len(),
{
    if s.len() == 0 {
        0
    } else {
        digits_value(s.drop_last()) * 10 + digit_value(s.last())
    }
}

/// The number that the unsigned digit run `d` denotes, if it is a non-empty
/// run of digits whose value is at most `max`.
pub open spec fn magnitude(d: Seq<u8>, max: nat) -> Option<nat> {
    if d.len() > 0 && all_digits(d) && digits_value(d) <= max {
        Some(digits_value(d))
    } else {
        None
    }
}

/// The number that `s` denotes as an unsigned numeral no greater than `max`:
/// an optional `+`, then digits.
pub open spec fn unsigned_value(s: Seq<u8>, max: nat) -> Option<nat> {
    if s.len() > 0 && s[0] == PLUS {
        magnitude(s.skip(1), max)
    } else {
        magnitude(s, max)
    }
}

/// The number that `s` denotes as a signed numeral within `min..=max`
/// (`min <= 0 <= max`): an optional `+` or `-`, then digits.
pub open spec fn signed_value(s: Seq<u8>, min: int, max: int) -> Option<int> {
    if s.len() > 0 && s[0] == MINUS {
        match magnitude(s.skip(1), (-min) as nat) {
            Some(m) => Some(-(m as int)),
            None => None,
        }
    } else {
        match unsigned_value(s, max as nat) {
            Some(m) => Some(m as int),
            None => None,
        }
    }
}

/// Why a text is no decimal numeral of the range asked for.
#[derive(Clone, Copy, Debug, PartialEq, Eq, Structural)]
pub enum InvalidNumber {
    /// The text is empty.
    Empty,
    /// A byte that is no digit stands where a digit has to, or a sign stands
    /// alone.
    InvalidDigit,
    /// The number is too large for the range.
    PosOverflow,
    /// The number is too small for the range.
    NegOverflow,
}

/// What is wrong with the digit run `d` as a number of at most `max`, read
/// from the left: the flaw of its shortest flawed prefix. Such a prefix ends
/// in a byte that is no digit, or else it is the first to denote more than
/// `max`, which is reported as [`InvalidNumber::PosOverflow`]. `None` where no
/// prefix is flawed.
pub open spec fn digits_flaw(d: Seq<u8>, max: nat) -> Option<InvalidNumber>
    decreases d.len(),
{
    if d.len() == 0 {
        None
    } else {
        match digits_flaw(d.drop_last(), max) {
            Some(flaw) => Some(flaw),
            None => if !is_digit(d.last()) {
                Some(InvalidNumber::InvalidDigit)
            } else if digits_value(d) > max {
                Some(InvalidNumber::PosOverflow)
            } else {
                None
            },
        }
    }
}

/// What is wrong with `s` as a signed numeral within `min..=max`
/// (`min <= 0 <= max`); `None` where it is one. An empty text is empty; a
/// sign that stands alone is an invalid digit; behind a `-`, a magnitude that
/// is too large makes the number too small.
pub open spec fn signed_flaw(s: Seq<u8>, min: int, max: int) -> Option<InvalidNumber> {
    if s.len() == 0 {
        Some(InvalidNumber::Empty)
    } else if s[0] == MINUS {
        if s.len() == 1 {
            Some(InvalidNumber::InvalidDigit)
        } else {
            match digits_flaw(s.skip(1), (-min) as nat) {
                Some(InvalidNumber::PosOverflow) => Some(InvalidNumber::NegOverflow),
                other => other,
            }
        }
    } else if s[0] == PLUS {
        if s.len() == 1 {
            Some(InvalidNumber::InvalidDigit)
        } else {
            digits_flaw(s.skip(1), max as nat)
        }
    } else {
        digits_flaw(s, max as nat)
    }
}

/// Appending one byte to a digit run shifts its value by one decimal place.
pub proof fn lemma_digits_value_push(s: Seq<u8>, b: u8)
    ensures
        digits_value(s.push(b)) == digits_value(s) * 10 + digit_value(b),
{
    assert(s.push(b).drop_last() =~= s);
}

/// A digit run is worth at least as much as any of its prefixes.
pub proof fn lemma_digits_value_prefix(s: Seq<u8>, k: int)
    requires
        0 <= k <= s.len(),
    ensures
        digits_value(s.take(k)) <= digits_value(s),
    decreases s.len() - k,
{
    if k == s.len() {
        assert(s.take(k) =~= s);
    } else {
        lemma_digits_value_prefix(s, k + 1);
        assert(s.take(k + 1) =~= s.take(k).push(s[k]));
        lemma_digits_value_push(s.take(k), s[k]);
    }
}

/// A digit run is without flaw exactly if all its bytes are digits and it
/// denotes no more than `max`; and a flaw is never that of an empty text or
/// of a number too small.
pub proof fn lemma_digits_flaw(d: Seq<u8>, max: nat)
    ensures
        digits_flaw(d, max) is None <==> all_digits(d) && digits_value(d) <= max,
        digits_flaw(d, max) != Some(InvalidNumber::Empty),
        digits_flaw(d, max) != Some(InvalidNumber::NegOverflow),
    decreases d.len(),
{
    if d.len() > 0 {
        let head = d.drop_last();
        lemma_digits_flaw(head, max);
        assert(head.push(d.last()) =~= d);
        lemma_digits_value_push(head, d.last());
        if all_digits(d) {
            assert forall|i: int| 0 <= i < head.len() implies is_digit(#[trigger] head[i]) by {
                assert(head[i] == d[i]);
            }
            assert(is_digit(d[d.len() - 1]));
        }
        if all_digits(head) && is_digit(d.last()) {
            assert forall|i: int| 0 <= i < d.len() implies is_digit(#[trigger] d[i]) by {
                if i < head.len() {
                    assert(d[i] == head[i]);
                }
            }
        }
    }
}

/// The flaw of a prefix is the flaw of the whole run.
pub proof fn lemma_digits_flaw_prefix(d: Seq<u8>, k: int, max: nat)
    requires
        0 <= k <= d.len(),
        digits_flaw(d.take(k), max) is Some,
    ensures
        digits_flaw(d, max) == digits_flaw(d.take(k), max),
    decreases d.len() - k,
{
    if k == d.len() {
        assert(d.take(k) =~= d);
    } else {
        assert(d.take(k + 1).drop_last() =~= d.take(k));
        lemma_digits_flaw_prefix(d, k + 1, max);
    }
}

/// A text is without flaw as a signed numeral exactly if it denotes a number.
pub proof fn lemma_signed_flaw(s: Seq<u8>, min: int, max: int)
    requires
        min <= 0 <= max,
    ensures
        signed_flaw(s, min, max) is None <==> signed_value(s, min, max) is Some,
{
    if s.len() > 0 {
        lemma_digits_flaw(s.skip(1), (-min) as nat);
        lemma_digits_flaw(s.skip(1), max as nat);
        lemma_digits_flaw(s, max as nat);
    }
}

/// Reads the digit run that `bytes` holds from index `start` to its end, and
/// says what is wrong with it where it denotes no number of at most `max`.
/// An empty run is reported as [`InvalidNumber::Empty`].
pub fn read_magnitude(bytes: &[u8], start: usize, max: u64) -> (r: Result<u64, InvalidNumber>)
    requires
        start <= bytes.len(),
    ensures
        match r {
            Ok(v) => magnitude(bytes@.skip(start as int), max as nat) == Some(v as nat),
            Err(flaw) => magnitude(bytes@.skip(start as int), max as nat) is None && Some(flaw) == (
            if start == bytes.len() {
                Some(InvalidNumber::Empty)
            } else {
                digits_flaw(bytes@.skip(start as int), max as nat)
            }),
        },
{
    let n = bytes.len();
    if start == n {
        return Err(InvalidNumber::Empty);
    }
    let ghost d = bytes@.skip(start as int);
    let mut acc: u64 = 0;
    let mut i: usize = start;
    assert(d.take(0) =~= Seq::<u8>::empty());
    while i < n
        invariant
            start <= i <= n,
            n == bytes.len(),
            d == bytes@.skip(start as int),
            digits_flaw(d.take(i - start), max as nat) is None,
            acc == digits_value(d.take(i - start)),
            acc <= max,
        decreases n - i,
    {
        let c = bytes[i];
        let ghost k = i - start;
        proof {
            assert(d[k] == c);
            assert(d.take(k + 1) =~= d.take(k).push(c));
            assert(d.take(k + 1).drop_last() =~= d.take(k));
            lemma_digits_value_push(d.take(k), c);
            lemma_digits_flaw(d, max as nat);
            lemma_digits_flaw(d.take(k + 1), max as nat);
            if digits_flaw(d.take(k + 1), max as nat) is Some {
                lemma_digits_flaw_prefix(d, k + 1, max as nat);
            }
        }
        if c < 48 || c > 57 {
            return Err(InvalidNumber::InvalidDigit);
        }
        let next: u128 = acc as u128 * 10 + (c - 48) as u128;
        if next > max as u128 {
            return Err(InvalidNumber::PosOverflow);
        }
        acc = next as u64;
        i = i + 1;
    }
    proof {
        assert(d.take(n - start) =~= d);
        lemma_digits_flaw(d, max as nat);
    }
    Ok(acc)
}

/// Reads the digit run that `bytes` holds from index `start` to its end.
///
/// Returns the number it denotes, or `None` where the run is empty, holds a
/// byte that is no digit, or denotes more than `max`.
pub fn parse_magnitude(bytes: &[u8], start: usize, max: u64) -> (r: Option<u64>)
    requires
        start <= bytes.len(),
    ensures
        match r {
            Some(v) => magnitude(bytes@.skip(start as int), max as nat) == Some(v as nat),
            None => magnitude(bytes@.skip(start as int), max as nat) is None,
        },
{
    match read_magnitude(bytes, start, max) {
        Ok(v) => Some(v),
        Err(_) => None,
    }
}

/// Reads `bytes` as an unsigned decimal numeral no greater than `max`.
pub fn parse_unsigned(bytes: &[u8], max: u64) -> (r: Option<u64>)
    ensures
        match r {
            Some(v) => unsigned_value(bytes@, max as nat) == Some(v as nat),
            None => unsigned_value(bytes@, max as nat) is None,
        },
{
    if bytes.len() > 0 && bytes[0] == PLUS {
        parse_magnitude(bytes, 1, max)
    } else {
        assert(bytes@.skip(0) =~= bytes@);
        parse_magnitude(bytes, 0, max)
    }
}

/// Reads `bytes` as a decimal numeral that fits a `u32`.
pub fn parse_u32(bytes: &[u8]) -> (r: Option<u32>)
    ensures
        match r {
            Some(v) => unsigned_value(bytes@, u32::MAX as nat) == Some(v as nat),
            None => unsigned_value(bytes@, u32::MAX as nat) is None,
        },
{
    match parse_unsigned(bytes, 0xffff_ffff) {
        Some(v) => Some(v as u32),
        None => None,
    }
}

/// Reads `bytes` as a decimal numeral that fits a `u64`.
pub fn parse_u64(bytes: &[u8]) -> (r: Option<u64>)
    ensures
        match r {
            Some(v) => unsigned_value(bytes@, u64::MAX as nat) == Some(v as nat),
            None => unsigned_value(bytes@, u64::MAX as nat) is None,
        },
{
    parse_unsigned(bytes, u64::MAX)
}

/// Reads `bytes` as a signed decimal numeral that fits an `i32`, and says
/// what is wrong with it where it is none.
pub fn read_i32(bytes: &[u8]) -> (r: Result<i32, InvalidNumber>)
    ensures
        match r {
            Ok(v) => signed_value(bytes@, i32::MIN as int, i32::MAX as int) == Some(v as int),
            Err(flaw) => signed_value(bytes@, i32::MIN as int, i32::MAX as int) is None
                && signed_flaw(bytes@, i32::MIN as int, i32::MAX as int) == Some(flaw),
        },
{
    proof {
        lemma_signed_flaw(bytes@, i32::MIN as int, i32::MAX as int);
        if bytes@.len() > 0 {
            lemma_digits_flaw(bytes@.skip(1), 0x8000_0000);
            lemma_digits_flaw(bytes@.skip(1), 0x7fff_ffff);
            lemma_digits_flaw(bytes@, 0x7fff_ffff);
        }
        assert(bytes@.skip(0) =~= bytes@);
    }
    if bytes.len() == 0 {
        Err(InvalidNumber::Empty)
    } else if bytes[0] == MINUS {
        match read_magnitude(bytes, 1, 0x8000_0000) {
            Ok(m) => Ok((-(m as i64)) as i32),
            Err(InvalidNumber::Empty) => Err(InvalidNumber::InvalidDigit),
            Err(InvalidNumber::PosOverflow) => Err(InvalidNumber::NegOverflow),
            Err(flaw) => Err(flaw),
        }
    } else if bytes[0] == PLUS {
        match read_magnitude(bytes, 1, 0x7fff_ffff) {
            Ok(m) => Ok(m as i32),
            Err(InvalidNumber::Empty) => Err(InvalidNumber::InvalidDigit),
            Err(flaw) => Err(flaw),
        }
    } else {
        match read_magnitude(bytes, 0, 0x7fff_ffff) {
            Ok(m) => Ok(m as i32),
            Err(flaw) => Err(flaw),
        }
    }
}

/// Reads `bytes` as a signed decimal numeral that fits an `i32`.
pub fn parse_i32(bytes: &[u8]) -> (r: Option<i32>)
    ensures
        match r {
            Some(v) => signed_value(bytes@, i32::MIN as int, i32::MAX as int) == Some(v as int),
            None => signed_value(bytes@, i32::MIN as int, i32::MAX as int) is None,
        },
{
    match read_i32(bytes) {
        Ok(v) => Some(v),
        Err(_) => None,
    }
}

/// The character that stands for the digit `d`, `0 <= d <= 9`.
pub open spec fn digit_char(d: nat) -> char {
    (48 + d) as u8 as char
}

/// The decimal numeral of `n`: its digits, most significant first, with no
/// leading zero but for zero itself.
pub open spec fn nat_chars(n: nat) -> Seq<char>
    decreases n,
{
    if n < 10 {
        seq![digit_char(n)]
    } else {
        nat_chars(n / 10).push(digit_char(n % 10))
    }
}

/// The decimal numeral of `i`: a `-` if it is negative, then the numeral of
/// its magnitude.
pub open spec fn int_chars(i: int) -> Seq<char> {
    if i < 0 {
        seq!['-'] + nat_chars((-i) as nat)
    } else {
        nat_chars(i as nat)
    }
}

/// The bytes of a text of ASCII characters.
pub open spec fn ascii_bytes(text: Seq<char>) -> Seq<u8> {
    text.map_values(|c: char| c as u8)
}

/// The numeral of a number is a non-empty run of digits that denotes it.
pub proof fn lemma_nat_chars_denote(n: nat)
    ensures
        nat_chars(n).len() > 0,
        all_digits(ascii_bytes(nat_chars(n))),
        digits_value(ascii_bytes(nat_chars(n))) == n,
        ascii_bytes(nat_chars(n))[0] != PLUS,
        ascii_bytes(nat_chars(n))[0] != MINUS,
    decreases n,
{
    if n >= 10 {
        lemma_nat_chars_denote(n / 10);
        let head = nat_chars(n / 10);
        let last = digit_char(n % 10);
        assert(last as u8 == 48 + n % 10);
        assert(ascii_bytes(head.push(last)) =~= ascii_bytes(head).push(last as u8));
        lemma_digits_value_push(ascii_bytes(head), last as u8);
    } else {
        let only = (48 + n) as u8;
        assert(digit_char(n) as u8 == only);
        assert(ascii_bytes(nat_chars(n)) =~= seq![only]);
        assert(seq![only] =~= Seq::<u8>::empty().push(only));
        lemma_digits_value_push(Seq::<u8>::empty(), only);
    }
}

/// What is written is read back: the numeral of any number within
/// `min..=max` denotes that number under the signed grammar.
pub proof fn lemma_written_number_reads_back(i: int, min: int, max: int)
    requires
        min <= 0 <= max,
        min <= i <= max,
    ensures
        signed_value(ascii_bytes(int_chars(i)), min, max) == Some(i),
{
    if i < 0 {
        let m = (-i) as nat;
        lemma_nat_chars_denote(m);
        let text = ascii_bytes(int_chars(i));
        assert(text[0] == MINUS);
        assert(text.skip(1) =~= ascii_bytes(nat_chars(m)));
    } else {
        lemma_nat_chars_denote(i as nat);
    }
}

/// The one-character text of the digit `d`.
fn digit_str(d: u8) -> (r: &'static str)
    requires
        d < 10,
    ensures
        r@ == seq![digit_char(d as nat)],
{
    proof {
        reveal_strlit("0");
        reveal_strlit("1");
        reveal_strlit("2");
        reveal_strlit("3");
        reveal_strlit("4");
        reveal_strlit("5");
        reveal_strlit("6");
        reveal_strlit("7");
        reveal_strlit("8");
        reveal_strlit("9");
    }
    let r = match d {
        0 => "0",
        1 => "1",
        2 => "2",
        3 => "3",
        4 => "4",
        5 => "5",
        6 => "6",
        7 => "7",
        8 => "8",
        _ => "9",
    };
    assert(r@ =~= seq![digit_char(d as nat)]);
    r
}

/// Appends the decimal numeral of `n` to `text`.
pub fn append_nat(text: &mut String, n: u64)
    ensures
        final(text)@ == old(text)@ + nat_chars(n as nat),
    decreases n,
{
    if n >= 10 {
        append_nat(text, n / 10);
    }
    text.append(digit_str((n % 10) as u8));
    proof {
        let done = old(text)@;
        if n >= 10 {
            assert(done + nat_chars((n / 10) as nat) + seq![digit_char((n % 10) as nat)] =~= done
                + nat_chars(n as nat));
        }
    }
}

/// Appends the decimal numeral of `i` to `text`.
pub fn append_int(text: &mut String, i: i64)
    ensures
        final(text)@ == old(text)@ + int_chars(i as int),
{
    if i < 0 {
        proof {
            reveal_strlit("-");
        }
        text.append("-");
        let magnitude: u64 = (-(i + 1)) as u64 + 1;
        append_nat(text, magnitude);
        assert(old(text)@ + "-"@ + nat_chars(magnitude as nat) =~= old(text)@ + int_chars(i as int));
    } else {
        append_nat(text, i as u64);
    }
}

/// The text `prefix` followed by the decimal numeral of `i`.
pub fn with_number(prefix: &str, i: i64) -> (r: String)
    ensures
        r@ == prefix@ + int_chars(i as int),
{
    let mut text = String::from_str(prefix);
    append_int(&mut text, i);
    text
}

} // verus!
