//! Text: numbers in decimal and hexadecimal, padding, joining, searching.
use vstd::prelude::*;
use vstd::string::*;

verus! {

/// The digit with value `d`, lower case above nine.
pub open spec fn digit_text(d: nat) -> Seq<char> {
    if d == 0 { "0"@ }
    else if d == 1 { "1"@ }
    else if d == 2 { "2"@ }
    else if d == 3 { "3"@ }
    else if d == 4 { "4"@ }
    else if d == 5 { "5"@ }
    else if d == 6 { "6"@ }
    else if d == 7 { "7"@ }
    else if d == 8 { "8"@ }
    else if d == 9 { "9"@ }
    else if d == 10 { "a"@ }
    else if d == 11 { "b"@ }
    else if d == 12 { "c"@ }
    else if d == 13 { "d"@ }
    else if d == 14 { "e"@ }
    else { "f"@ }
}

/// The digit with value `d`, upper case above nine.
pub open spec fn upper_digit_text(d: nat) -> Seq<char> {
    if d < 10 { digit_text(d) }
    else if d == 10 { "A"@ }
    else if d == 11 { "B"@ }
    else if d == 12 { "C"@ }
    else if d == 13 { "D"@ }
    else if d == 14 { "E"@ }
    else { "F"@ }
}

/// `n` in decimal, without leading zeros.
pub open spec fn decimal(n: nat) -> Seq<char>
    decreases n,
{
    if n < 10 {
        digit_text(n)
    } else {
        decimal(n / 10) + digit_text(n % 10)
    }
}

/// The byte `n` as two lower case hexadecimal digits.
pub open spec fn hex_byte(n: u8) -> Seq<char> {
    digit_text((n / 16) as nat) + digit_text((n % 16) as nat)
}

/// `n` as four upper case hexadecimal digits.
pub open spec fn hex_word(n: u16) -> Seq<char> {
    upper_digit_text((n / 4096) as nat) + upper_digit_text((n / 256 % 16) as nat)
        + upper_digit_text((n / 16 % 16) as nat) + upper_digit_text((n % 16) as nat)
}

pub open spec fn bool_text(b: bool) -> Seq<char> {
    if b { "true"@ } else { "false"@ }
}

/// `n` spaces.
pub open spec fn spaces(n: nat) -> Seq<char> {
    Seq::new(n, |i: int| ' ')
}

/// `s` with spaces behind it up to `width` characters; all of `s` where it is longer.
pub open spec fn padded(s: Seq<char>, width: nat) -> Seq<char> {
    s + spaces(if s.len() < width { (width - s.len()) as nat } else { 0 })
}

/// The lines one after another with `separator` between each two.
pub open spec fn joined(lines: Seq<Seq<char>>, separator: Seq<char>) -> Seq<char>
    decreases lines.len(),
{
    if lines.len() <= 1 {
        if lines.len() == 1 { lines[0] } else { Seq::empty() }
    } else {
        joined(lines.drop_last(), separator) + separator + lines.last()
    }
}

/// The views of a sequence of strings.
pub open spec fn text_views(strings: Seq<String>) -> Seq<Seq<char>> {
    strings.map_values(|s: String| s@)
}

/// Whether `pattern` occurs somewhere in `s`.
pub open spec fn occurs_in(pattern: Seq<char>, s: Seq<char>) -> bool {
    exists|i: int|
        0 <= i && i + pattern.len() <= s.len() && #[trigger] s.subrange(i, i + pattern.len())
            == pattern
}

/// The quoted and escaped form in which `Debug` shows a string.
pub uninterp spec fn quoted(s: Seq<char>) -> Seq<char>;

/// Calls `str::contains` with a string as the pattern: true exactly where the
/// pattern occurs in `s` as a run of characters.
#[verifier::external_body]
pub(crate) fn contains_text(s: &str, pattern: &str) -> (found: bool)
    ensures
        found == occurs_in(pattern@, s@),
{
    s.contains(pattern)
}

/// Formats `s` with the `Debug` of `str`. The result is named `quoted` and is a
/// function of the characters of `s`; which of them are escaped is not stated.
#[verifier::external_body]
pub(crate) fn quote(s: &str) -> (shown: String)
    ensures
        shown@ == quoted(s@),
{
    format!("{:?}", s)
}

/// The digit with value `d`, lower case above nine.
pub fn digit_string(d: u8) -> (s: &'static str)
    requires
        d < 16,
    ensures
        s@ == digit_text(d as nat),
{
    if d == 0 { "0" }
    else if d == 1 { "1" }
    else if d == 2 { "2" }
    else if d == 3 { "3" }
    else if d == 4 { "4" }
    else if d == 5 { "5" }
    else if d == 6 { "6" }
    else if d == 7 { "7" }
    else if d == 8 { "8" }
    else if d == 9 { "9" }
    else if d == 10 { "a" }
    else if d == 11 { "b" }
    else if d == 12 { "c" }
    else if d == 13 { "d" }
    else if d == 14 { "e" }
    else { "f" }
}

/// The digit with value `d`, upper case above nine.
pub fn upper_digit_string(d: u8) -> (s: &'static str)
    requires
        d < 16,
    ensures
        s@ == upper_digit_text(d as nat),
{
    if d < 10 { digit_string(d) }
    else if d == 10 { "A" }
    else if d == 11 { "B" }
    else if d == 12 { "C" }
    else if d == 13 { "D" }
    else if d == 14 { "E" }
    else { "F" }
}

/// `n` in decimal.
pub fn decimal_string(n: u64) -> (s: String)
    ensures
        s@ == decimal(n as nat),
    decreases n,
{
    if n < 10 {
        String::from_str(digit_string(n as u8))
    } else {
        let mut s = decimal_string(n / 10);
        s.append(digit_string((n % 10) as u8));
        s
    }
}

/// A byte as two lower case hexadecimal digits.
pub fn hex_byte_string(n: u8) -> (s: String)
    ensures
        s@ == hex_byte(n),
{
    let mut s = String::from_str(digit_string(n / 16));
    s.append(digit_string(n % 16));
    s
}

/// A word as four upper case hexadecimal digits.
pub fn hex_word_string(n: u16) -> (s: String)
    ensures
        s@ == hex_word(n),
{
    let mut s = String::from_str(upper_digit_string((n / 4096) as u8));
    s.append(upper_digit_string((n / 256 % 16) as u8));
    s.append(upper_digit_string((n / 16 % 16) as u8));
    s.append(upper_digit_string((n % 16) as u8));
    s
}

pub fn bool_string(b: bool) -> (s: String)
    ensures
        s@ == bool_text(b),
{
    if b {
        String::from_str("true")
    } else {
        String::from_str("false")
    }
}

/// `s`, left-aligned in a column of `width` characters.
pub fn pad_right(s: &str, width: usize) -> (column: String)
    ensures
        column@ == padded(s@, width as nat),
{
    let mut column = String::from_str(s);
    let length: usize = s.unicode_len();
    let missing: usize = if length < width { width - length } else { 0 };
    let mut added: usize = 0;
    proof {
        reveal_strlit(" ");
        assert(s@ + spaces(0) =~= s@);
    }
    while added < missing
        invariant
            added <= missing,
            column@ == s@ + spaces(added as nat),
            " "@ == seq![' '],
        decreases missing - added,
    {
        column.append(" ");
        proof {
            assert(spaces(added as nat) + " "@ =~= spaces((added + 1) as nat));
            assert(s@ + spaces(added as nat) + " "@ =~= s@ + (spaces(added as nat) + " "@));
        }
        added = added + 1;
    }
    column
}

/// The lines one after another with `separator` between each two.
pub fn join_lines(lines: &Vec<String>, separator: &str) -> (s: String)
    ensures
        s@ == joined(text_views(lines@), separator@),
{
    let ghost all = text_views(lines@);
    let mut s = String::new();
    let mut done: usize = 0;
    while done < lines.len()
        invariant
            done <= lines.len(),
            all == text_views(lines@),
            s@ == joined(all.take(done as int), separator@),
        decreases lines.len() - done,
    {
        proof {
            assert(all.take(done + 1).drop_last() =~= all.take(done as int));
            assert(all.take(done + 1).last() == lines@[done as int]@);
        }
        if done > 0 {
            s.append(separator);
        }
        s.append(lines[done].as_str());
        proof {
            if done == 0 {
                assert(s@ =~= lines@[0]@);
            }
        }
        done = done + 1;
    }
    proof {
        assert(all.take(lines@.len() as int) =~= all);
    }
    s
}

/// Bytes in square brackets, in decimal, with commas between them.
pub open spec fn bytes_text(bytes: Seq<u8>) -> Seq<char> {
    "["@ + joined(bytes.map_values(|b: u8| decimal(b as nat)), ", "@) + "]"@
}

/// Bytes in square brackets, in decimal, with commas between them.
pub fn bytes_string(bytes: &[u8]) -> (s: String)
    ensures
        s@ == bytes_text(bytes@),
{
    let ghost shown = bytes@.map_values(|b: u8| decimal(b as nat));
    let mut numbers: Vec<String> = Vec::new();
    let mut done: usize = 0;
    while done < bytes.len()
        invariant
            done <= bytes.len(),
            text_views(numbers@) == shown.take(done as int),
            shown == bytes@.map_values(|b: u8| decimal(b as nat)),
        decreases bytes.len() - done,
    {
        let ghost before = numbers@;
        let number = decimal_string(bytes[done] as u64);
        numbers.push(number);
        proof {
            assert(text_views(numbers@) =~= text_views(before).push(number@));
            assert(shown.take(done + 1) =~= shown.take(done as int).push(shown[done as int]));
        }
        done = done + 1;
    }
    assert(shown.take(bytes@.len() as int) =~= shown);
    let mut s = String::from_str("[");
    s.append(join_lines(&numbers, ", ").as_str());
    s.append("]");
    s
}

} // verus!
