//! The canonical text of leaf values, and how text becomes bytes.

use vstd::prelude::*;
use vstd::utf8::*;

verus! {

/// The text of a boolean.
pub open spec fn bool_text(v: bool) -> Seq<char> {
    if v {
        seq!['t', 'r', 'u', 'e']
    } else {
        seq!['f', 'a', 'l', 's', 'e']
    }
}

/// The character that stands for a single decimal digit.
pub open spec fn digit(d: nat) -> char
    recommends
        d < 10,
{
    if d == 0 {
        '0'
    } else if d == 1 {
        '1'
    } else if d == 2 {
        '2'
    } else if d == 3 {
        '3'
    } else if d == 4 {
        '4'
    } else if d == 5 {
        '5'
    } else if d == 6 {
        '6'
    } else if d == 7 {
        '7'
    } else if d == 8 {
        '8'
    } else {
        '9'
    }
}

/// The decimal numeral of a natural number, most significant digit first, without leading
/// zeros; zero is `0`.
pub open spec fn decimal(n: nat) -> Seq<char>
    decreases n,
{
    if n < 10 {
        seq![digit(n)]
    } else {
        decimal(n / 10).push(digit(n % 10))
    }
}

/// The number that a decimal digit stands for; any other character counts as zero.
pub open spec fn digit_value(c: char) -> nat {
    if c == '1' {
        1
    } else if c == '2' {
        2
    } else if c == '3' {
        3
    } else if c == '4' {
        4
    } else if c == '5' {
        5
    } else if c == '6' {
        6
    } else if c == '7' {
        7
    } else if c == '8' {
        8
    } else if c == '9' {
        9
    } else {
        0
    }
}

/// Whether a character is a decimal digit.
pub open spec fn is_digit(c: char) -> bool {
    c == '0' || c == '1' || c == '2' || c == '3' || c == '4' || c == '5' || c == '6' || c == '7'
        || c == '8' || c == '9'
}

/// The number that a sequence of decimal digits denotes.
pub open spec fn numeral_value(digits: Seq<char>) -> nat
    decreases digits.len(),
{
    if digits.len() == 0 {
        0
    } else {
        10 * numeral_value(digits.drop_last()) + digit_value(digits.last())
    }
}

/// The text of an integer: its decimal numeral, behind a minus sign if it is negative.
pub open spec fn integer_text(i: int) -> Seq<char> {
    if i < 0 {
        seq!['-'] + decimal((-i) as nat)
    } else {
        decimal(i as nat)
    }
}

/// The opening tag for a name.
pub open spec fn open_tag(name: Seq<char>) -> Seq<char> {
    seq!['<'] + name + seq!['>']
}

/// The closing tag for a name.
pub open spec fn close_tag(name: Seq<char>) -> Seq<char> {
    seq!['<', '/'] + name + seq!['>']
}

/// Encoding text as UTF-8 distributes over concatenation.
pub proof fn lemma_encode_utf8_concat(a: Seq<char>, b: Seq<char>)
    ensures
        encode_utf8(a + b) == encode_utf8(a) + encode_utf8(b),
    decreases a.len(),
{
    if a.len() > 0 {
        assert((a + b).drop_first() =~= a.drop_first() + b);
        lemma_encode_utf8_concat(a.drop_first(), b);
    }
}

/// The bytes of an opening tag are those of `<`, of the name and of `>`.
pub proof fn lemma_open_tag_bytes(name: Seq<char>)
    ensures
        encode_utf8(open_tag(name)) == encode_utf8(seq!['<']) + encode_utf8(name) + encode_utf8(
            seq!['>'],
        ),
{
    lemma_encode_utf8_concat(seq!['<'], name);
    lemma_encode_utf8_concat(seq!['<'] + name, seq!['>']);
}

/// The bytes of a closing tag are those of `</`, of the name and of `>`.
pub proof fn lemma_close_tag_bytes(name: Seq<char>)
    ensures
        encode_utf8(close_tag(name)) == encode_utf8(seq!['<', '/']) + encode_utf8(name)
            + encode_utf8(seq!['>']),
{
    lemma_encode_utf8_concat(seq!['<', '/'], name);
    lemma_encode_utf8_concat(seq!['<', '/'] + name, seq!['>']);
}

/// The character of a decimal digit.
fn digit_char(d: u8) -> (c: char)
    requires
        d < 10,
    ensures
        c == digit(d as nat),
{
    if d == 0 {
        '0'
    } else if d == 1 {
        '1'
    } else if d == 2 {
        '2'
    } else if d == 3 {
        '3'
    } else if d == 4 {
        '4'
    } else if d == 5 {
        '5'
    } else if d == 6 {
        '6'
    } else if d == 7 {
        '7'
    } else if d == 8 {
        '8'
    } else {
        '9'
    }
}

/// Appends the UTF-8 encoding of one character to a byte buffer.
pub fn push_char(bytes: &mut Vec<u8>, c: char)
    ensures
        final(bytes)@ == old(bytes)@ + encode_utf8(seq![c]),
{
    let u: u32 = c as u32;
    proof {
        reveal_with_fuel(encode_utf8, 2);
    }
    if u <= 0x7F {
        assert((u & 0x7F) <= 0x7F) by (bit_vector);
        bytes.push((u & 0x7F) as u8);
    } else if u <= 0x7FF {
        assert(((u >> 6) & 0x1F) <= 0x1F) by (bit_vector);
        assert((u & 0x3F) <= 0x3F) by (bit_vector);
        bytes.push(0xC0 | ((u >> 6) & 0x1F) as u8);
        bytes.push(0x80 | (u & 0x3F) as u8);
    } else if u <= 0xFFFF {
        assert(((u >> 12) & 0x0F) <= 0x0F) by (bit_vector);
        assert(((u >> 6) & 0x3F) <= 0x3F) by (bit_vector);
        assert((u & 0x3F) <= 0x3F) by (bit_vector);
        bytes.push(0xE0 | ((u >> 12) & 0x0F) as u8);
        bytes.push(0x80 | ((u >> 6) & 0x3F) as u8);
        bytes.push(0x80 | (u & 0x3F) as u8);
    } else {
        assert(((u >> 18) & 0x7) <= 0x7) by (bit_vector);
        assert(((u >> 12) & 0x3F) <= 0x3F) by (bit_vector);
        assert(((u >> 6) & 0x3F) <= 0x3F) by (bit_vector);
        assert((u & 0x3F) <= 0x3F) by (bit_vector);
        bytes.push(0xF0 | ((u >> 18) & 0x7) as u8);
        bytes.push(0x80 | ((u >> 12) & 0x3F) as u8);
        bytes.push(0x80 | ((u >> 6) & 0x3F) as u8);
        bytes.push(0x80 | (u & 0x3F) as u8);
    }
}

/// Appends the UTF-8 encoding of a text to a byte buffer.
pub fn push_str(bytes: &mut Vec<u8>, text: &str)
    ensures
        final(bytes)@ == old(bytes)@ + encode_utf8(text@),
{
    bytes.extend_from_slice(text.as_bytes());
}

/// Appends the decimal numeral of a number to a byte buffer.
pub fn push_decimal(bytes: &mut Vec<u8>, n: u64)
    ensures
        final(bytes)@ == old(bytes)@ + encode_utf8(decimal(n as nat)),
    decreases n,
{
    if n >= 10 {
        push_decimal(bytes, n / 10);
    }
    let d: u8 = (n % 10) as u8;
    push_char(bytes, digit_char(d));
    proof {
        if n >= 10 {
            lemma_encode_utf8_concat(decimal((n / 10) as nat), seq![digit(d as nat)]);
            assert(decimal((n / 10) as nat).push(digit(d as nat)) =~= decimal((n / 10) as nat)
                + seq![digit(d as nat)]);
        }
    }
}

/// Appends the text of a signed integer to a byte buffer.
pub fn push_integer(bytes: &mut Vec<u8>, i: i64)
    ensures
        final(bytes)@ == old(bytes)@ + encode_utf8(integer_text(i as int)),
{
    if i < 0 {
        let magnitude: u64 = if i == i64::MIN {
            9223372036854775808u64
        } else {
            (-i) as u64
        };
        push_char(bytes, '-');
        push_decimal(bytes, magnitude);
        proof {
            lemma_encode_utf8_concat(seq!['-'], decimal(magnitude as nat));
        }
    } else {
        push_decimal(bytes, i as u64);
    }
}

} // verus!
