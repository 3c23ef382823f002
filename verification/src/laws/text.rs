//! What holds of the texts, whatever they are made of.
use vstd::prelude::*;
use crate::text::{
    bool_text, bytes_text, decimal, digit_text, hex_byte, hex_word, joined, occurs_in, padded,
    text_views, upper_digit_text,
};

verus! {

/// The value of a digit.
pub open spec fn digit_value(c: char) -> int {
    if '0' <= c <= '9' {
        c as int - '0' as int
    } else if 'a' <= c <= 'f' {
        c as int - 'a' as int + 10
    } else if 'A' <= c <= 'F' {
        c as int - 'A' as int + 10
    } else {
        -1
    }
}

/// The number that digits stand for.
pub open spec fn number_of(digits: Seq<char>, base: int) -> int
    decreases digits.len(),
{
    if digits.len() == 0 {
        0
    } else {
        number_of(digits.drop_last(), base) * base + digit_value(digits.last())
    }
}

proof fn digits_have_their_value(d: nat)
    requires
        d < 16,
    ensures
        digit_text(d).len() == 1,
        digit_value(digit_text(d)[0]) == d,
        d < 10 ==> '0' <= digit_text(d)[0] <= '9',
        d >= 10 ==> 'a' <= digit_text(d)[0] <= 'f',
        upper_digit_text(d).len() == 1,
        digit_value(upper_digit_text(d)[0]) == d,
        d < 10 ==> '0' <= upper_digit_text(d)[0] <= '9',
        d >= 10 ==> 'A' <= upper_digit_text(d)[0] <= 'F',
{
    reveal_strlit("0");
    reveal_strlit("1");
    reveal_strlit("2");
    reveal_strlit("3");
    reveal_strlit("4");
    reveal_strlit("5");
    reveal_strlit("6");
    reveal_strlit("7");
    reveal_strlit("8");
    reveal_strlit("9");
    reveal_strlit("a");
    reveal_strlit("b");
    reveal_strlit("c");
    reveal_strlit("d");
    reveal_strlit("e");
    reveal_strlit("f");
    reveal_strlit("A");
    reveal_strlit("B");
    reveal_strlit("C");
    reveal_strlit("D");
    reveal_strlit("E");
    reveal_strlit("F");
}

/// A number in decimal consists of decimal digits that stand for it, and does not
/// begin with a zero unless it is zero.
pub proof fn decimal_stands_for_the_number(n: nat)
    ensures
        number_of(decimal(n), 10) == n,
        decimal(n).len() > 0,
        forall|i: int| 0 <= i < decimal(n).len() ==> '0' <= #[trigger] decimal(n)[i] <= '9',
        n > 0 ==> decimal(n)[0] != '0',
        n == 0 ==> decimal(n).len() == 1,
    decreases n,
{
    let s = decimal(n);
    if n < 10 {
        digits_have_their_value(n);
        assert(s.drop_last() =~= Seq::empty());
        assert(number_of(s.drop_last(), 10) == 0);
    } else {
        decimal_stands_for_the_number(n / 10);
        digits_have_their_value(n % 10);
        assert(s.drop_last() =~= decimal(n / 10));
        assert(s.last() == digit_text(n % 10)[0]);
        assert(s[0] == decimal(n / 10)[0]);
        assert forall|i: int| 0 <= i < s.len() implies '0' <= #[trigger] s[i] <= '9' by {
            if i < s.len() - 1 {
                assert(s[i] == decimal(n / 10)[i]);
            }
        }
    }
}

/// Different numbers look different.
pub proof fn decimals_are_distinct(a: nat, b: nat)
    ensures
        decimal(a) == decimal(b) ==> a == b,
{
    decimal_stands_for_the_number(a);
    decimal_stands_for_the_number(b);
}

/// A byte in hexadecimal is two lower case digits that stand for it.
pub proof fn hex_byte_stands_for_the_byte(n: u8)
    ensures
        hex_byte(n).len() == 2,
        number_of(hex_byte(n), 16) == n,
        forall|i: int| 0 <= i < 2 ==> !('A' <= #[trigger] hex_byte(n)[i] <= 'F'),
{
    digits_have_their_value((n / 16) as nat);
    digits_have_their_value((n % 16) as nat);
    let s = hex_byte(n);
    assert(s.drop_last().drop_last() =~= Seq::empty());
    reveal_with_fuel(number_of, 3);
    assert(s.drop_last().last() == digit_text((n / 16) as nat)[0]);
    assert(s.last() == digit_text((n % 16) as nat)[0]);
}

/// A word in hexadecimal is four upper case digits that stand for it.
pub proof fn hex_word_stands_for_the_word(n: u16)
    ensures
        hex_word(n).len() == 4,
        number_of(hex_word(n), 16) == n,
        forall|i: int| 0 <= i < 4 ==> !('a' <= #[trigger] hex_word(n)[i] <= 'f'),
{
    digits_have_their_value((n / 4096) as nat);
    digits_have_their_value((n / 256 % 16) as nat);
    digits_have_their_value((n / 16 % 16) as nat);
    digits_have_their_value((n % 16) as nat);
    let s = hex_word(n);
    let s3 = s.drop_last();
    let s2 = s3.drop_last();
    let s1 = s2.drop_last();
    assert(s1.drop_last() =~= Seq::empty());
    assert(s1.last() == upper_digit_text((n / 4096) as nat)[0]);
    assert(s2.last() == upper_digit_text((n / 256 % 16) as nat)[0]);
    assert(s3.last() == upper_digit_text((n / 16 % 16) as nat)[0]);
    assert(s.last() == upper_digit_text((n % 16) as nat)[0]);
    reveal_with_fuel(number_of, 2);
    assert(number_of(s1, 16) == n / 4096);
    assert(number_of(s2, 16) == (n / 4096) * 16 + n / 256 % 16);
    assert(number_of(s3, 16) == ((n / 4096) * 16 + n / 256 % 16) * 16 + n / 16 % 16);
    assert(((((n / 4096) * 16 + n / 256 % 16) * 16) + n / 16 % 16) * 16 + n % 16 == n);
}

/// A truth value is shown by its name.
pub proof fn truth_values_are_named(b: bool)
    ensures
        b ==> bool_text(b) == "true"@,
        !b ==> bool_text(b) == "false"@,
{
}

/// A padded text is the text itself with only spaces behind it, as many as are
/// missing, and is never cut.
pub proof fn padding_adds_missing_spaces(s: Seq<char>, width: nat)
    ensures
        padded(s, width).len() == if s.len() < width { width } else { s.len() },
        padded(s, width).take(s.len() as int) == s,
        forall|i: int|
            s.len() <= i < padded(s, width).len() ==> #[trigger] padded(s, width)[i] == ' ',
{
    assert(padded(s, width).take(s.len() as int) =~= s);
}

/// Lines that are joined stand one after another in full, with one separator
/// between each two: joining no line gives nothing, joining one gives that line, and
/// joining two batches gives both with the separator between them.
pub proof fn joining_is_concatenation(a: Seq<Seq<char>>, b: Seq<Seq<char>>, separator: Seq<char>)
    ensures
        a.len() == 0 ==> joined(a, separator).len() == 0,
        a.len() == 1 ==> joined(a, separator) == a[0],
        a.len() > 0 && b.len() > 0 ==> joined(a + b, separator) == joined(a, separator)
            + separator + joined(b, separator),
    decreases b.len(),
{
    if a.len() > 0 && b.len() > 0 {
        let all = a + b;
        assert(all.last() == b.last());
        if b.len() == 1 {
            assert(all.drop_last() =~= a);
        } else {
            joining_is_concatenation(a, b.drop_last(), separator);
            assert(all.drop_last() =~= a + b.drop_last());
            assert(joined(all, separator) =~= joined(a, separator) + separator + joined(
                b,
                separator,
            ));
        }
    }
}

/// The views of strings are their characters, one for one.
pub proof fn views_are_the_characters(strings: Seq<String>, i: int)
    requires
        0 <= i < strings.len(),
    ensures
        text_views(strings).len() == strings.len(),
        text_views(strings)[i] == strings[i]@,
{
}

/// A pattern occurs in a text exactly where the text is something before the
/// pattern, the pattern, and something behind it.
pub proof fn occurrence_splits_the_text(pattern: Seq<char>, s: Seq<char>)
    ensures
        occurs_in(pattern, s) <==> exists|front: Seq<char>, back: Seq<char>|
            s == #[trigger] (front + pattern + back),
{
    if occurs_in(pattern, s) {
        let i = choose|i: int|
            0 <= i && i + pattern.len() <= s.len() && #[trigger] s.subrange(i, i + pattern.len())
                == pattern;
        assert(s =~= s.take(i) + pattern + s.skip(i + pattern.len()));
    }
    if exists|front: Seq<char>, back: Seq<char>| s == #[trigger] (front + pattern + back) {
        let (front, back) = choose|front: Seq<char>, back: Seq<char>|
            s == #[trigger] (front + pattern + back);
        let i = front.len() as int;
        assert(s.subrange(i, i + pattern.len()) =~= pattern);
    }
}

/// Bytes stand in square brackets, each in decimal, in order, with a comma and a
/// space before each but the first.
pub proof fn bytes_are_listed(bytes: Seq<u8>, next: u8)
    ensures
        bytes.len() == 0 ==> bytes_text(bytes) == "["@ + "]"@,
        bytes.len() == 0 ==> bytes_text(bytes.push(next)) == "["@ + decimal(next as nat) + "]"@,
        bytes.len() > 0 ==> bytes_text(bytes.push(next)) == bytes_text(bytes).drop_last() + ", "@
            + decimal(next as nat) + "]"@,
{
    reveal_strlit("]");
    let shown = bytes.map_values(|b: u8| decimal(b as nat));
    let more = bytes.push(next).map_values(|b: u8| decimal(b as nat));
    assert(more.last() == decimal(next as nat));
    assert(more.drop_last() =~= shown);
    if bytes.len() == 0 {
        assert(joined(shown, ", "@) =~= Seq::empty());
        assert(bytes_text(bytes) =~= "["@ + "]"@);
    } else {
        assert(bytes_text(bytes).drop_last() =~= "["@ + joined(shown, ", "@));
        assert(bytes_text(bytes.push(next)) =~= bytes_text(bytes).drop_last() + ", "@ + decimal(
            next as nat,
        ) + "]"@);
    }
}

} // verus!
