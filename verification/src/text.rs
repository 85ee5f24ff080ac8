//! Text handling: what stands between the two ends of the gateway's answer, and decimal
//! numbers.

use vstd::prelude::*;
use vstd::string::*;
use vstd::utf8::*;

verus! {

/// The characters that UTF-8 writes in one byte.
pub open spec fn is_one_byte(c: char) -> bool {
    c as u32 <= 0x7f
}

/// A text with a one-byte character at each end, so that its first and its last
/// byte can be cut off.
pub open spec fn is_wrapped(text: Seq<char>) -> bool {
    &&& text.len() >= 2
    &&& is_one_byte(text.first())
    &&& is_one_byte(text.last())
}

/// What stands between the two ends of a wrapped text.
pub open spec fn unwrapped(text: Seq<char>) -> Seq<char> {
    text.subrange(1, text.len() - 1)
}

/// UTF-8 encodes a concatenation piece by piece.
proof fn lemma_encode_concat(a: Seq<char>, b: Seq<char>)
    ensures
        encode_utf8(a + b) == encode_utf8(a) + encode_utf8(b),
    decreases a.len(),
{
    if a.len() == 0 {
        assert(a + b =~= b);
        assert(encode_utf8(a) + encode_utf8(b) =~= encode_utf8(b));
    } else {
        lemma_encode_concat(a.drop_first(), b);
        assert((a + b).drop_first() =~= a.drop_first() + b);
        assert(encode_utf8(a + b) =~= encode_utf8(a) + encode_utf8(b));
    }
}

/// The place where two encoded texts meet is a character boundary.
proof fn lemma_seam_is_boundary(a: Seq<char>, b: Seq<char>)
    ensures
        is_char_boundary(encode_utf8(a + b), encode_utf8(a).len() as int),
    decreases a.len(),
{
    let bytes = encode_utf8(a + b);
    encode_utf8_valid_utf8(a + b);
    lemma_encode_concat(a, b);
    if a.len() > 0 {
        encode_utf8_first_scalar(a + b);
        assert((a + b).drop_first() =~= a.drop_first() + b);
        assert(pop_first_scalar(bytes) =~= encode_utf8(a.drop_first() + b));
        lemma_seam_is_boundary(a.drop_first(), b);
    }
}

/// A single character takes one byte exactly when it is a one-byte character.
proof fn lemma_encode_one(c: char)
    ensures
        encode_utf8(seq![c]) == encode_scalar(c as u32),
        encode_scalar(c as u32).len() >= 1,
        encode_scalar(c as u32).len() == 1 <==> is_one_byte(c),
{
    assert(seq![c].drop_first() =~= Seq::<char>::empty());
    assert(encode_utf8(seq![c].drop_first()) =~= Seq::<u8>::empty());
    assert(encode_utf8(seq![c]) =~= encode_scalar(c as u32));
}

/// The encoding determines the text.
proof fn lemma_encode_injective(a: Seq<char>, b: Seq<char>)
    requires
        encode_utf8(a) == encode_utf8(b),
    ensures
        a == b,
{
    encode_utf8_decode_utf8(a);
    encode_utf8_decode_utf8(b);
}

/// A non-empty text is at least as long in bytes as one character.
proof fn lemma_encode_empty(a: Seq<char>)
    ensures
        encode_utf8(a).len() == 0 <==> a.len() == 0,
{
    if a.len() > 0 {
        lemma_encode_one(a[0]);
    }
}

/// Cutting one byte off each end of a text stays within the text and on character
/// boundaries exactly when the text is wrapped.
pub proof fn law_wrapped_texts_can_be_sliced(text: Seq<char>)
    ensures
        is_wrapped(text) <==> {
            &&& encode_utf8(text).len() >= 2
            &&& is_char_boundary(encode_utf8(text), 1)
            &&& is_char_boundary(encode_utf8(text), encode_utf8(text).len() - 1)
        },
{
    let bytes = encode_utf8(text);
    lemma_encode_empty(text);
    encode_utf8_valid_utf8(text);
    if text.len() > 0 {
        let head = seq![text.first()];
        let tail = text.drop_first();
        let front = text.drop_last();
        let back = seq![text.last()];
        assert(text =~= head + tail);
        assert(text =~= front + back);
        lemma_encode_concat(head, tail);
        lemma_encode_concat(front, back);
        lemma_encode_one(text.first());
        lemma_encode_one(text.last());
        lemma_encode_empty(tail);
        lemma_encode_empty(front);
        encode_utf8_first_scalar(text);
        if is_wrapped(text) {
            lemma_seam_is_boundary(head, tail);
            lemma_seam_is_boundary(front, back);
        }
        if bytes.len() >= 2 && is_char_boundary(bytes, 1) && is_char_boundary(
            bytes,
            bytes.len() - 1,
        ) {
            reveal_with_fuel(is_char_boundary, 2);
            assert(is_one_byte(text.first()));
            // The last byte alone is a text of one character.
            let cut = bytes.len() - 1;
            valid_utf8_split(bytes, cut);
            decode_utf8_split(bytes, cut);
            encode_utf8_decode_utf8(text);
            let last = bytes.subrange(cut, bytes.len() as int);
            assert(last.len() == 1);
            decode_utf8_encode_utf8(last);
            let end = decode_utf8(last);
            lemma_encode_empty(end);
            lemma_encode_one(end.last());
            assert(end =~= end.drop_last() + seq![end.last()]);
            lemma_encode_concat(end.drop_last(), seq![end.last()]);
            assert(text.last() == end.last());
        }
    }
}

/// A text in quotes is wrapped, and unwrapping it gives the text back.
pub proof fn law_quotes_come_off(text: Seq<char>)
    ensures
        is_wrapped(seq!['"'] + text + seq!['"']),
        unwrapped(seq!['"'] + text + seq!['"']) == text,
{
    assert(unwrapped(seq!['"'] + text + seq!['"']) =~= text);
}

/// Whether one byte can be cut off each end of `text`.
pub fn is_wrapped_text(text: &str) -> (r: bool)
    ensures
        r == is_wrapped(text@),
        r <==> {
            &&& text@.len() >= 2
            &&& text@[0] as u32 <= 0x7f
            &&& text@[text@.len() - 1] as u32 <= 0x7f
        },
{
    proof {
        law_wrapped_texts_can_be_sliced(text@);
    }
    let length: usize = text.as_bytes().len();
    length >= 2 && text.is_char_boundary(1) && text.is_char_boundary(length - 1)
}

/// Cuts the first and the last byte off `text`.
pub fn unwrap_text(text: &str) -> (r: String)
    requires
        is_wrapped(text@),
    ensures
        r@ == unwrapped(text@),
        text@ == seq![text@[0]] + r@ + seq![text@[text@.len() - 1]],
{
    let ghost inner = unwrapped(text@);
    let ghost tail = text@.drop_first();
    let ghost back = seq![text@.last()];
    proof {
        law_wrapped_texts_can_be_sliced(text@);
        assert(text@ =~= seq![text@.first()] + tail);
        assert(tail =~= inner + back);
        lemma_encode_concat(seq![text@.first()], tail);
        lemma_encode_concat(inner, back);
        lemma_encode_one(text@.first());
        lemma_encode_one(text@.last());
        lemma_seam_is_boundary(inner, back);
    }
    let length: usize = text.as_bytes().len();
    let (_, rest) = text.split_at(1);
    proof {
        assert(rest.spec_bytes() =~= encode_utf8(tail));
    }
    let (middle, _) = rest.split_at(length - 2);
    proof {
        assert(middle.spec_bytes() =~= encode_utf8(inner));
        lemma_encode_injective(middle@, inner);
        assert(text@ =~= seq![text@[0]] + inner + seq![text@[text@.len() - 1]]);
    }
    middle.to_owned()
}

/// The decimal digit for `d`.
pub open spec fn digit(d: nat) -> char {
    ('0' as nat + d) as char
}

/// `n` in decimal, without leading zeros.
pub open spec fn decimal(n: nat) -> Seq<char>
    decreases n,
{
    if n < 10 {
        seq![digit(n)]
    } else {
        decimal(n / 10).push(digit(n % 10))
    }
}

/// One decimal digit as text.
fn digit_text(d: u16) -> (r: &'static str)
    requires
        d < 10,
    ensures
        r@ == seq![digit(d as nat)],
{
    proof {
        reveal_strlit("0");
        reveal_strlit("1");
        reveal_strlit("2");
        reveal_strlit("3");
        reveal_strlit("4");
        reveal_strlit("5");
        reveal_strlit("6");
        reveal_strlit("7");
        reveal_strlit("8");
        reveal_strlit("9");
    }
    let r = match d {
        0 => "0",
        1 => "1",
        2 => "2",
        3 => "3",
        4 => "4",
        5 => "5",
        6 => "6",
        7 => "7",
        8 => "8",
        _ => "9",
    };
    assert(r@ =~= seq![digit(d as nat)]);
    r
}

/// Writes `n` in decimal.
pub fn decimal_text(n: u16) -> (r: String)
    ensures
        r@ == decimal(n as nat),
    decreases n,
{
    if n < 10 {
        digit_text(n).to_owned()
    } else {
        let leading = decimal_text(n / 10);
        let r = leading.concat(digit_text(n % 10));
        assert(r@ =~= decimal(n as nat));
        r
    }
}

/// A number in decimal has as many digits as it needs, and the digit that stands `k`
/// places from the right is the one for so many powers of ten. Numbers of up to five
/// digits are all that a status code can be.
pub proof fn law_decimals_are_positional(n: u16)
    ensures
        decimal(n as nat).len() == if n < 10 {
            1nat
        } else if n < 100 {
            2
        } else if n < 1000 {
            3
        } else if n < 10000 {
            4
        } else {
            5
        },
        ({
            let digits = decimal(n as nat);
            let places = digits.len() as int;
            &&& digits[places - 1] as int == 48 + n % 10
            &&& places > 1 ==> digits[places - 2] as int == 48 + (n / 10) % 10
            &&& places > 2 ==> digits[places - 3] as int == 48 + (n / 100) % 10
            &&& places > 3 ==> digits[places - 4] as int == 48 + (n / 1000) % 10
            &&& places > 4 ==> digits[places - 5] as int == 48 + (n / 10000) % 10
        }),
{
    reveal_with_fuel(decimal, 5);
    assert(n as nat / 10 / 10 == n as nat / 100);
    assert(n as nat / 100 / 10 == n as nat / 1000);
    assert(n as nat / 1000 / 10 == n as nat / 10000);
}

} // verus!
