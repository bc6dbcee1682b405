//! Values as the text in which they are shown to a developer.
use vstd::prelude::*;
use vstd::string::*;

verus! {

/// The digit for a number below sixteen.
pub open spec fn digit(n: nat) -> Seq<char> {
    if n == 0 {
        "0"@
    } else if n == 1 {
        "1"@
    } else if n == 2 {
        "2"@
    } else if n == 3 {
        "3"@
    } else if n == 4 {
        "4"@
    } else if n == 5 {
        "5"@
    } else if n == 6 {
        "6"@
    } else if n == 7 {
        "7"@
    } else if n == 8 {
        "8"@
    } else if n == 9 {
        "9"@
    } else if n == 10 {
        "A"@
    } else if n == 11 {
        "B"@
    } else if n == 12 {
        "C"@
    } else if n == 13 {
        "D"@
    } else if n == 14 {
        "E"@
    } else {
        "F"@
    }
}

/// Returns the digit for a number below sixteen.
fn digit_text(n: u8) -> (text: &'static str)
    requires
        n < 16,
    ensures
        text@ == digit(n as nat),
{
    match n {
        0 => "0",
        1 => "1",
        2 => "2",
        3 => "3",
        4 => "4",
        5 => "5",
        6 => "6",
        7 => "7",
        8 => "8",
        9 => "9",
        10 => "A",
        11 => "B",
        12 => "C",
        13 => "D",
        14 => "E",
        _ => "F",
    }
}

/// A number in the decimal system, without leading zeros.
pub open spec fn decimal(n: nat) -> Seq<char>
    decreases n,
{
    if n < 10 {
        digit(n)
    } else {
        decimal(n / 10) + digit(n % 10)
    }
}

/// A number in the decimal system, with a minus sign if it is negative.
pub open spec fn signed_decimal(n: int) -> Seq<char> {
    if n < 0 {
        "-"@ + decimal((-n) as nat)
    } else {
        decimal(n as nat)
    }
}

/// A byte as two hexadecimal digits.
pub open spec fn hex_byte(byte: u8) -> Seq<char> {
    digit((byte / 16) as nat) + digit((byte % 16) as nat)
}

/// Bytes as hexadecimal digits, each byte separated from the next.
pub open spec fn hex_bytes(bytes: Seq<u8>) -> Seq<char>
    decreases bytes.len(),
{
    if bytes.len() == 0 {
        Seq::empty()
    } else if bytes.len() == 1 {
        hex_byte(bytes[0])
    } else {
        hex_bytes(bytes.drop_last()) + ", "@ + hex_byte(bytes.last())
    }
}

/// Bytes as a list of hexadecimal digits.
pub open spec fn hex_list(bytes: Seq<u8>) -> Seq<char> {
    "["@ + hex_bytes(bytes) + "]"@
}

/// The number for which a digit stands: the figures from 0 to 9 follow each
/// other in Unicode, and so do the capital letters from A to F.
pub open spec fn digit_value(c: char) -> int {
    if '0' <= c <= '9' {
        c as int - '0' as int
    } else {
        c as int - 'A' as int + 10
    }
}

/// The number for which decimal figures stand: each counts ten times as much as
/// the next.
pub open spec fn decimal_value(text: Seq<char>) -> int
    decreases text.len(),
{
    if text.len() == 0 {
        0
    } else {
        10 * decimal_value(text.drop_last()) + digit_value(text.last())
    }
}

/// The characters are decimal figures, at least one, and there is no needless
/// zero in front.
pub open spec fn is_decimal(text: Seq<char>) -> bool {
    &&& text.len() > 0
    &&& text.len() > 1 ==> text[0] != '0'
    &&& forall|i: int| 0 <= i < text.len() ==> '0' <= #[trigger] text[i] <= '9'
}

/// A digit is the one figure or capital letter that stands for its number.
pub proof fn law_digit(n: nat)
    requires
        n < 16,
    ensures
        digit(n).len() == 1,
        '0' <= digit(n)[0] <= '9' || 'A' <= digit(n)[0] <= 'F',
        n < 10 <==> '0' <= digit(n)[0] <= '9',
        digit_value(digit(n)[0]) == n,
{
    reveal_strlit("0");
    reveal_strlit("1");
    reveal_strlit("2");
    reveal_strlit("3");
    reveal_strlit("4");
    reveal_strlit("5");
    reveal_strlit("6");
    reveal_strlit("7");
    reveal_strlit("8");
    reveal_strlit("9");
    reveal_strlit("A");
    reveal_strlit("B");
    reveal_strlit("C");
    reveal_strlit("D");
    reveal_strlit("E");
    reveal_strlit("F");
}

/// The text of a number reads back as the number.
pub proof fn law_decimal_reads_back(n: nat)
    ensures
        is_decimal(decimal(n)),
        decimal_value(decimal(n)) == n,
        n > 0 ==> decimal(n)[0] != '0',
    decreases n,
{
    if n < 10 {
        law_digit(n);
        assert(decimal(n).drop_last() =~= Seq::empty());
        assert(decimal_value(decimal(n).drop_last()) == 0);
    } else {
        law_decimal_reads_back(n / 10);
        law_digit(n % 10);
        assert(decimal(n).drop_last() =~= decimal(n / 10));
        assert(decimal(n).last() == digit(n % 10)[0]);
        assert forall|i: int| 0 <= i < decimal(n).len() implies '0' <= #[trigger] decimal(n)[i]
            <= '9' by {
            if i < decimal(n / 10).len() {
                assert(decimal(n)[i] == decimal(n / 10)[i]);
            }
        }
    }
}

/// The text of a number reads back as the number, behind a minus sign if and
/// only if it is negative.
pub proof fn law_signed_decimal_reads_back(n: int)
    ensures
        n >= 0 ==> is_decimal(signed_decimal(n)) && decimal_value(signed_decimal(n)) == n,
        n < 0 ==> signed_decimal(n).len() > 1 && signed_decimal(n)[0] == '-',
        n < 0 ==> is_decimal(signed_decimal(n).skip(1)) && decimal_value(
            signed_decimal(n).skip(1),
        ) == -n,
{
    reveal_strlit("-");
    if n >= 0 {
        law_decimal_reads_back(n as nat);
    } else {
        law_decimal_reads_back((-n) as nat);
        assert(signed_decimal(n).skip(1) =~= decimal((-n) as nat));
    }
}

/// Numbers with the same text are the same.
pub proof fn law_numbers_are_shown_apart(n: int, m: int)
    requires
        signed_decimal(n) == signed_decimal(m),
    ensures
        n == m,
{
    law_signed_decimal_reads_back(n);
    law_signed_decimal_reads_back(m);
}

/// A list of bytes has a bracket at either end. In between, each byte has its
/// two hexadecimal digits, the higher first, and each but the last is followed
/// by a comma and a space.
pub proof fn law_hex_list(bytes: Seq<u8>, i: int)
    ensures
        hex_list(bytes).len() == if bytes.len() == 0 {
            2
        } else {
            4 * bytes.len()
        },
        hex_list(bytes)[0] == '[',
        hex_list(bytes).last() == ']',
        0 <= i < bytes.len() ==> is_hex_digit(hex_list(bytes)[4 * i + 1]),
        0 <= i < bytes.len() ==> is_hex_digit(hex_list(bytes)[4 * i + 2]),
        0 <= i < bytes.len() ==> 16 * digit_value(hex_list(bytes)[4 * i + 1]) + digit_value(
            hex_list(bytes)[4 * i + 2],
        ) == bytes[i],
        0 <= i < bytes.len() - 1 ==> hex_list(bytes)[4 * i + 3] == ','
            && hex_list(bytes)[4 * i + 4] == ' ',
{
    reveal_strlit("[");
    reveal_strlit("]");
    lemma_hex_bytes_len(bytes);
    if 0 <= i < bytes.len() {
        lemma_hex_bytes_at(bytes, i);
        lemma_hex_byte(bytes[i], bytes[i]);
        law_digit((bytes[i] / 16) as nat);
        law_digit((bytes[i] % 16) as nat);
        assert(hex_list(bytes)[4 * i + 1] == hex_bytes(bytes)[4 * i]);
        assert(hex_list(bytes)[4 * i + 2] == hex_bytes(bytes)[4 * i + 1]);
        assert(hex_byte(bytes[i])[0] == digit((bytes[i] / 16) as nat)[0]);
        assert(hex_byte(bytes[i])[1] == digit((bytes[i] % 16) as nat)[0]);
        if i < bytes.len() - 1 {
            assert(hex_list(bytes)[4 * i + 3] == hex_bytes(bytes)[4 * i + 2]);
            assert(hex_list(bytes)[4 * i + 4] == hex_bytes(bytes)[4 * i + 3]);
        }
    }
}

/// A figure, or a capital letter from A to F.
pub open spec fn is_hex_digit(c: char) -> bool {
    '0' <= c <= '9' || 'A' <= c <= 'F'
}

proof fn lemma_hex_bytes_at(bytes: Seq<u8>, i: int)
    requires
        0 <= i < bytes.len(),
    ensures
        hex_bytes(bytes)[4 * i] == hex_byte(bytes[i])[0],
        hex_bytes(bytes)[4 * i + 1] == hex_byte(bytes[i])[1],
        i < bytes.len() - 1 ==> hex_bytes(bytes)[4 * i + 2] == ',' && hex_bytes(bytes)[4 * i + 3]
            == ' ',
    decreases bytes.len(),
{
    reveal_strlit(", ");
    lemma_hex_bytes_len(bytes);
    lemma_hex_bytes_len(bytes.drop_last());
    lemma_hex_byte(bytes.last(), bytes.last());
    if i < bytes.len() - 1 {
        lemma_hex_bytes_at(bytes.drop_last(), i);
    }
}

/// Every digit is one character, and no two are the same.
proof fn lemma_digits(n: nat, m: nat)
    requires
        n < 16,
        m < 16,
    ensures
        digit(n).len() == 1,
        digit(n)[0] == digit(m)[0] ==> n == m,
{
    law_digit(n);
    law_digit(m);
}

proof fn lemma_hex_byte(one: u8, other: u8)
    ensures
        hex_byte(one).len() == 2,
        hex_byte(one) == hex_byte(other) ==> one == other,
{
    lemma_digits((one / 16) as nat, (other / 16) as nat);
    lemma_digits((other / 16) as nat, (one / 16) as nat);
    lemma_digits((one % 16) as nat, (other % 16) as nat);
    lemma_digits((other % 16) as nat, (one % 16) as nat);
    if hex_byte(one) == hex_byte(other) {
        assert(hex_byte(one)[0] == digit((one / 16) as nat)[0]);
        assert(hex_byte(other)[0] == digit((other / 16) as nat)[0]);
        assert(hex_byte(one)[1] == digit((one % 16) as nat)[0]);
        assert(hex_byte(other)[1] == digit((other % 16) as nat)[0]);
    }
}

proof fn lemma_hex_bytes_len(bytes: Seq<u8>)
    ensures
        hex_bytes(bytes).len() == if bytes.len() == 0 {
            0
        } else {
            4 * bytes.len() - 2
        },
    decreases bytes.len(),
{
    reveal_strlit(", ");
    if bytes.len() > 0 {
        lemma_hex_byte(bytes.last(), bytes.last());
        lemma_hex_bytes_len(bytes.drop_last());
    }
}

proof fn lemma_hex_bytes(one: Seq<u8>, other: Seq<u8>)
    requires
        hex_bytes(one) == hex_bytes(other),
    ensures
        one == other,
    decreases one.len(),
{
    lemma_hex_bytes_len(one);
    lemma_hex_bytes_len(other);
    assert(one.len() == other.len());
    if one.len() > 0 {
        let n = hex_bytes(one).len() as int;
        lemma_hex_byte(one.last(), other.last());
        lemma_hex_byte(other.last(), one.last());
        assert(hex_bytes(one).skip(n - 2) =~= hex_byte(one.last()));
        assert(hex_bytes(other).skip(n - 2) =~= hex_byte(other.last()));
        if one.len() > 1 {
            reveal_strlit(", ");
            lemma_hex_bytes_len(one.drop_last());
            lemma_hex_bytes_len(other.drop_last());
            assert(hex_bytes(one).take(n - 4) =~= hex_bytes(one.drop_last()));
            assert(hex_bytes(other).take(n - 4) =~= hex_bytes(other.drop_last()));
            lemma_hex_bytes(one.drop_last(), other.drop_last());
        }
        assert(one =~= one.drop_last().push(one.last()));
        assert(other =~= other.drop_last().push(other.last()));
    }
}

/// Different bytes are shown as different lists: no byte is lost or replaced.
pub proof fn law_hex_lists_are_distinct(one: Seq<u8>, other: Seq<u8>)
    requires
        hex_list(one) == hex_list(other),
    ensures
        one == other,
{
    reveal_strlit("[");
    reveal_strlit("]");
    let n = hex_list(one).len() as int;
    assert(hex_list(one).subrange(1, n - 1) =~= hex_bytes(one));
    assert(hex_list(other).subrange(1, n - 1) =~= hex_bytes(other));
    lemma_hex_bytes(one, other);
}

/// Appends a number in the decimal system.
fn append_decimal(text: &mut String, n: u32)
    ensures
        final(text)@ == old(text)@ + decimal(n as nat),
    decreases n,
{
    if n < 10 {
        text.append(digit_text(n as u8));
    } else {
        append_decimal(text, n / 10);
        text.append(digit_text((n % 10) as u8));
        assert(text@ =~= old(text)@ + decimal(n as nat));
    }
}

/// Appends a number in the decimal system, with a minus sign if it is negative.
pub fn append_signed_decimal(text: &mut String, n: i32)
    ensures
        final(text)@ == old(text)@ + signed_decimal(n as int),
{
    if n < 0 {
        text.append("-");
        append_decimal(text, (-(n as i64)) as u32);
        assert(text@ =~= old(text)@ + signed_decimal(n as int));
    } else {
        append_decimal(text, n as u32);
    }
}

/// Returns bytes as a list of hexadecimal digits.
pub fn hex_list_text(bytes: &[u8]) -> (text: String)
    ensures
        text@ == hex_list(bytes@),
{
    let mut text = String::new();
    text.append("[");
    assert(bytes@.take(0) =~= Seq::empty());
    assert(text@ =~= "["@ + hex_bytes(bytes@.take(0)));
    let mut i: usize = 0;
    while i < bytes.len()
        invariant
            i <= bytes@.len(),
            text@ == "["@ + hex_bytes(bytes@.take(i as int)),
        decreases bytes@.len() - i,
    {
        let ghost shown = bytes@.take(i as int);
        let ghost next = bytes@.take(i + 1);
        assert(next.drop_last() =~= shown);
        assert(next.last() == bytes@[i as int]);
        let byte = bytes[i];
        if i > 0 {
            text.append(", ");
        }
        text.append(digit_text(byte / 16));
        text.append(digit_text(byte % 16));
        assert(text@ =~= "["@ + hex_bytes(next));
        i += 1;
    }
    assert(bytes@.take(i as int) =~= bytes@);
    text.append("]");
    text
}

/// The text that std shows for a string: in quotes, with its special
/// characters escaped.
pub uninterp spec fn quoted(text: Seq<char>) -> Seq<char>;

/// Calls the `Debug` formatting of `str` in std: the result is a function of
/// the characters of the string. Which characters are escaped, and how, is
/// left to std.
#[verifier::external_body]
pub(crate) fn quoted_text(text: &str) -> (shown: String)
    ensures
        shown@ == quoted(text@),
{
    format!("{:?}", text)
}

/// Calls `std::str::from_utf8`: bytes that are valid UTF-8 are decoded, and
/// for others there is no text.
#[verifier::external_body]
pub(crate) fn utf8_text(bytes: &[u8]) -> (text: Option<&str>)
    ensures
        text is Some <==> vstd::utf8::valid_utf8(bytes@),
        text is Some ==> text->0@ == vstd::utf8::decode_utf8(bytes@),
{
    std::str::from_utf8(bytes).ok()
}

} // verus!
