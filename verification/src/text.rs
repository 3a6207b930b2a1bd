//! Text made of numbers, octets and literals.

use vstd::prelude::*;

verus! {

/// `String::push`: the character goes to the end.
pub assume_specification[ String::push ](text: &mut String, c: char)
    ensures
        final(text)@ == old(text)@.push(c),
;

/// The lower-case hexadecimal digit of a number below sixteen.
pub open spec fn hex_digit(value: int) -> char {
    if value < 10 {
        ('0' as int + value) as char
    } else {
        ('a' as int + value - 10) as char
    }
}

/// The two hexadecimal digits of an octet.
pub open spec fn hex_pair(octet: u8) -> Seq<char> {
    seq![hex_digit(octet as int / 16), hex_digit(octet as int % 16)]
}

/// The hexadecimal digits of a string of octets.
pub open spec fn hex_text(bytes: Seq<u8>) -> Seq<char>
    decreases bytes.len(),
{
    if bytes.len() == 0 {
        Seq::empty()
    } else {
        hex_text(bytes.drop_last()) + hex_pair(bytes.last())
    }
}

/// The octets of a hardware address in hexadecimal, with colons between them.
pub open spec fn mac_text(bytes: Seq<u8>) -> Seq<char>
    decreases bytes.len(),
{
    if bytes.len() == 0 {
        Seq::empty()
    } else if bytes.len() == 1 {
        hex_pair(bytes[0])
    } else {
        mac_text(bytes.drop_last()).push(':') + hex_pair(bytes.last())
    }
}

/// The decimal digits of a number.
pub open spec fn decimal_text(value: nat) -> Seq<char>
    decreases value,
{
    if value < 10 {
        seq![hex_digit(value as int)]
    } else {
        decimal_text(value / 10).push(hex_digit(value as int % 10))
    }
}

/// The hexadecimal digit of a number below sixteen.
fn digit(value: u8) -> (c: char)
    requires
        value < 16,
    ensures
        c == hex_digit(value as int),
{
    match value {
        0 => '0',
        1 => '1',
        2 => '2',
        3 => '3',
        4 => '4',
        5 => '5',
        6 => '6',
        7 => '7',
        8 => '8',
        9 => '9',
        10 => 'a',
        11 => 'b',
        12 => 'c',
        13 => 'd',
        14 => 'e',
        _ => 'f',
    }
}

/// Append the two hexadecimal digits of an octet.
pub fn push_hex(text: &mut String, octet: u8)
    ensures
        final(text)@ == old(text)@ + hex_pair(octet),
{
    text.push(digit(octet / 16));
    text.push(digit(octet % 16));
    assert(text@ == old(text)@ + hex_pair(octet));
}

/// Append a number in decimal.
pub fn push_decimal(text: &mut String, value: u64)
    ensures
        final(text)@ == old(text)@ + decimal_text(value as nat),
    decreases value,
{
    if value >= 10 {
        push_decimal(text, value / 10);
    }
    let ghost before = text@;
    text.push(digit((value % 10) as u8));
    proof {
        if value >= 10 {
            assert(text@ == old(text)@ + decimal_text(value as nat / 10).push(
                hex_digit(value as int % 10),
            ));
        } else {
            assert(text@ == old(text)@ + seq![hex_digit(value as int)]);
        }
    }
}

/// A number in decimal, with a sign before it where it is negative.
pub open spec fn signed_text(value: int) -> Seq<char> {
    if value < 0 {
        seq!['-'] + decimal_text((-value) as nat)
    } else {
        decimal_text(value as nat)
    }
}

/// Append a number in decimal, with a sign before it where it is negative.
pub fn push_signed(text: &mut String, value: i32)
    ensures
        final(text)@ == old(text)@ + signed_text(value as int),
{
    let wide: i64 = value as i64;
    if wide < 0 {
        text.push('-');
        push_decimal(text, (-wide) as u64);
        assert(text@ == old(text)@ + signed_text(value as int));
    } else {
        push_decimal(text, wide as u64);
    }
}

/// What an optional text says.
pub open spec fn text_of(text: Option<String>) -> Option<Seq<char>> {
    match text {
        Some(text) => Some(text@),
        None => None,
    }
}

/// A copy of an optional text.
pub fn copy_text(text: &Option<String>) -> (copy: Option<String>)
    ensures
        text_of(copy) == text_of(*text),
{
    match text {
        Some(text) => Some(text.clone()),
        None => None,
    }
}

/// Different octets have different digits.
proof fn lemma_hex_pair_injective(left: u8, right: u8)
    requires
        hex_pair(left) == hex_pair(right),
    ensures
        left == right,
{
    assert(hex_pair(left)[0] == hex_pair(right)[0]);
    assert(hex_pair(left)[1] == hex_pair(right)[1]);
}

/// Different strings of octets have different hexadecimal digits.
pub proof fn law_hex_text_injective(left: Seq<u8>, right: Seq<u8>)
    requires
        hex_text(left) == hex_text(right),
    ensures
        left == right,
    decreases left.len(),
{
    lemma_hex_text_len(left);
    lemma_hex_text_len(right);
    if left.len() != 0 {
        let n = hex_text(left).len() as int;
        assert(hex_text(left).take(n - 2) == hex_text(left.drop_last()));
        assert(hex_text(right).take(n - 2) == hex_text(right.drop_last()));
        assert(hex_text(left).skip(n - 2) == hex_pair(left.last()));
        assert(hex_text(right).skip(n - 2) == hex_pair(right.last()));
        lemma_hex_pair_injective(left.last(), right.last());
        law_hex_text_injective(left.drop_last(), right.drop_last());
        assert(left == left.drop_last().push(left.last()));
        assert(right == right.drop_last().push(right.last()));
    } else {
        assert(left == right);
    }
}

/// Each octet has two digits.
proof fn lemma_hex_text_len(bytes: Seq<u8>)
    ensures
        hex_text(bytes).len() == 2 * bytes.len(),
    decreases bytes.len(),
{
    if bytes.len() != 0 {
        lemma_hex_text_len(bytes.drop_last());
    }
}

/// A hardware address of six octets is written in seventeen characters.
proof fn lemma_mac_text_len(bytes: Seq<u8>)
    ensures
        bytes.len() > 0 ==> mac_text(bytes).len() == 3 * bytes.len() - 1,
        bytes.len() == 0 ==> mac_text(bytes).len() == 0,
    decreases bytes.len(),
{
    if bytes.len() > 1 {
        lemma_mac_text_len(bytes.drop_last());
    }
}

/// Different hardware addresses are written differently.
pub proof fn law_mac_text_injective(left: Seq<u8>, right: Seq<u8>)
    requires
        mac_text(left) == mac_text(right),
    ensures
        left == right,
    decreases left.len(),
{
    lemma_mac_text_len(left);
    lemma_mac_text_len(right);
    if left.len() == 0 {
        assert(left == right);
    } else if left.len() == 1 {
        lemma_hex_pair_injective(left[0], right[0]);
        assert(left == right);
    } else {
        let n = mac_text(left).len() as int;
        assert(mac_text(left).take(n - 3) == mac_text(left.drop_last()));
        assert(mac_text(right).take(n - 3) == mac_text(right.drop_last()));
        assert(mac_text(left).skip(n - 2) == hex_pair(left.last()));
        assert(mac_text(right).skip(n - 2) == hex_pair(right.last()));
        lemma_hex_pair_injective(left.last(), right.last());
        law_mac_text_injective(left.drop_last(), right.drop_last());
        assert(left == left.drop_last().push(left.last()));
        assert(right == right.drop_last().push(right.last()));
    }
}

/// The number that a hexadecimal digit in lower case stands for; what is no digit stands for none.
pub open spec fn digit_value(c: char) -> int {
    if '0' <= c && c <= '9' {
        c as int - '0' as int
    } else if 'a' <= c && c <= 'f' {
        10 + c as int - 'a' as int
    } else {
        -1
    }
}

/// The digit of a number stands for the number.
proof fn lemma_digit_value(value: int)
    requires
        0 <= value < 16,
    ensures
        digit_value(hex_digit(value)) == value,
        value < 10 ==> '0' <= hex_digit(value) && hex_digit(value) <= '9',
        hex_digit(value) != '.',
        hex_digit(value) != ':',
        hex_digit(value) != '-',
        hex_digit(value) == '0' <==> value == 0,
{
}

/// Reading hexadecimal digits two by two gives each octet back, in its place.
pub proof fn law_hex_text_reads_back(bytes: Seq<u8>)
    ensures
        hex_text(bytes).len() == 2 * bytes.len(),
        forall|i: int|
            0 <= i < bytes.len() ==> digit_value(hex_text(bytes)[2 * i]) * 16 + digit_value(
                hex_text(bytes)[2 * i + 1],
            ) == #[trigger] bytes[i],
    decreases bytes.len(),
{
    lemma_hex_text_len(bytes);
    if bytes.len() != 0 {
        let front = bytes.drop_last();
        law_hex_text_reads_back(front);
        let text = hex_text(bytes);
        lemma_digit_value(bytes.last() as int / 16);
        lemma_digit_value(bytes.last() as int % 16);
        assert forall|i: int| 0 <= i < bytes.len() implies digit_value(text[2 * i]) * 16
            + digit_value(text[2 * i + 1]) == #[trigger] bytes[i] by {
            if i < front.len() {
                assert(front[i] == bytes[i]);
                assert(text[2 * i] == hex_text(front)[2 * i]);
                assert(text[2 * i + 1] == hex_text(front)[2 * i + 1]);
            }
        }
    }
}

/// A hardware address as text has each octet back in two digits, with a colon behind each but the
/// last.
pub proof fn law_mac_text_reads_back(bytes: Seq<u8>)
    ensures
        bytes.len() == 0 ==> mac_text(bytes).len() == 0,
        bytes.len() > 0 ==> mac_text(bytes).len() == 3 * bytes.len() - 1,
        forall|i: int|
            0 <= i < bytes.len() ==> digit_value(mac_text(bytes)[3 * i]) * 16 + digit_value(
                mac_text(bytes)[3 * i + 1],
            ) == #[trigger] bytes[i],
        forall|i: int| 0 <= i < bytes.len() - 1 ==> #[trigger] mac_text(bytes)[3 * i + 2] == ':',
    decreases bytes.len(),
{
    lemma_mac_text_len(bytes);
    if bytes.len() != 0 {
        let front = bytes.drop_last();
        law_mac_text_reads_back(front);
        let text = mac_text(bytes);
        lemma_digit_value(bytes.last() as int / 16);
        lemma_digit_value(bytes.last() as int % 16);
        assert forall|i: int| 0 <= i < bytes.len() implies digit_value(text[3 * i]) * 16
            + digit_value(text[3 * i + 1]) == #[trigger] bytes[i] by {
            if i < front.len() {
                assert(front[i] == bytes[i]);
                assert(text[3 * i] == mac_text(front)[3 * i]);
                assert(text[3 * i + 1] == mac_text(front)[3 * i + 1]);
            }
        }
        assert forall|i: int| 0 <= i < bytes.len() - 1 implies #[trigger] text[3 * i + 2]
            == ':' by {
            if i < front.len() - 1 {
                assert(text[3 * i + 2] == mac_text(front)[3 * i + 2]);
            }
        }
    }
}

/// The number that decimal digits stand for.
pub open spec fn decimal_value(text: Seq<char>) -> int
    decreases text.len(),
{
    if text.len() == 0 {
        0
    } else {
        10 * decimal_value(text.drop_last()) + digit_value(text.last())
    }
}

/// A number in decimal is made of decimal digits alone, without a zero before others, and stands for
/// the number.
pub proof fn law_decimal_text_reads_back(value: nat)
    ensures
        decimal_value(decimal_text(value)) == value,
        decimal_text(value).len() > 0,
        forall|i: int|
            0 <= i < decimal_text(value).len() ==> '0' <= #[trigger] decimal_text(value)[i]
                && decimal_text(value)[i] <= '9',
        value > 0 ==> decimal_text(value)[0] != '0',
    decreases value,
{
    let text = decimal_text(value);
    if value < 10 {
        lemma_digit_value(value as int);
        reveal_with_fuel(decimal_value, 2);
        assert(text.drop_last().len() == 0);
    } else {
        let front = decimal_text(value / 10);
        law_decimal_text_reads_back(value / 10);
        lemma_digit_value(value as int % 10);
        assert(text.drop_last() == front);
        assert forall|i: int| 0 <= i < text.len() implies '0' <= #[trigger] text[i] && text[i]
            <= '9' by {
            if i < front.len() {
                assert(text[i] == front[i]);
            }
        }
        assert(text[0] == front[0]);
    }
}

/// A number with a sign stands for the number: a negative one has a sign before its digits, and any
/// other has none.
pub proof fn law_signed_text_reads_back(value: int)
    ensures
        value >= 0 ==> decimal_value(signed_text(value)) == value && signed_text(value)[0] != '-',
        value < 0 ==> signed_text(value).len() > 1 && signed_text(value)[0] == '-'
            && decimal_value(signed_text(value).skip(1)) == -value,
{
    if value >= 0 {
        law_decimal_text_reads_back(value as nat);
    } else {
        law_decimal_text_reads_back((-value) as nat);
        assert(signed_text(value).skip(1) == decimal_text((-value) as nat));
    }
}

/// Render octets without a loss, two lower-case hexadecimal digits for each.
pub fn bytes_to_hex(bytes: &[u8]) -> (text: String)
    ensures
        text@ == hex_text(bytes@),
{
    let mut text = String::new();
    let mut i: usize = 0;
    assert(bytes@.take(0) == Seq::<u8>::empty());
    while i < bytes.len()
        invariant
            i <= bytes@.len(),
            text@ == hex_text(bytes@.take(i as int)),
        decreases bytes@.len() - i,
    {
        assert(bytes@.take(i + 1).drop_last() == bytes@.take(i as int));
        push_hex(&mut text, bytes[i]);
        i += 1;
    }
    assert(bytes@.take(i as int) == bytes@);
    text
}

/// Render a hardware address, two lower-case hexadecimal digits for each octet.
pub fn u8_to_mac(data: &[u8]) -> (text: String)
    ensures
        text@ == mac_text(data@),
{
    let mut text = String::new();
    let mut i: usize = 0;
    assert(data@.take(0) == Seq::<u8>::empty());
    while i < data.len()
        invariant
            i <= data@.len(),
            text@ == mac_text(data@.take(i as int)),
        decreases data@.len() - i,
    {
        proof {
            assert(data@.take(i + 1).drop_last() == data@.take(i as int));
            assert(data@.take(1) == seq![data@[0]]);
        }
        if i > 0 {
            text.push(':');
        }
        let ghost before = text@;
        push_hex(&mut text, data[i]);
        proof {
            if i == 0 {
                assert(before + hex_pair(data@[0]) == hex_pair(data@[0]));
            }
        }
        i += 1;
    }
    assert(data@.take(i as int) == data@);
    text
}

/// `std`'s words for why octets are not valid UTF-8.
pub uninterp spec fn utf8_fault(bytes: Seq<u8>) -> Seq<char>;

/// `std::str::from_utf8`: octets that are valid UTF-8 as text, and otherwise `std`'s words for what
/// is wrong with them, which depend on those octets alone.
#[verifier::external_body]
pub(crate) fn utf8_text(bytes: &[u8]) -> (text: Result<String, String>)
    ensures
        text is Ok <==> vstd::utf8::valid_utf8(bytes@),
        text is Ok ==> text->Ok_0@ == vstd::utf8::decode_utf8(bytes@),
        text is Err ==> text->Err_0@ == utf8_fault(bytes@),
{
    match std::str::from_utf8(bytes) {
        Ok(text) => Ok(text.to_string()),
        Err(error) => Err(error.to_string()),
    }
}

} // verus!
