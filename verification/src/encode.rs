use vstd::prelude::*;
use vstd::string::*;
use vstd::utf8::*;

verus! {

/// The bytes that the form encoding copies as they are: ASCII letters and digits, and `*`, `-`,
/// `.`, `_`.
pub open spec fn passes_unchanged(b: u8) -> bool {
    ||| b == 0x2a
    ||| b == 0x2d
    ||| b == 0x2e
    ||| b == 0x5f
    ||| 0x30 <= b <= 0x39
    ||| 0x41 <= b <= 0x5a
    ||| 0x61 <= b <= 0x7a
}

/// The upper-case hexadecimal digit for `n`, which is below sixteen.
pub open spec fn hex_digit(n: int) -> u8 {
    if n < 10 {
        (0x30 + n) as u8
    } else {
        (0x41 + n - 10) as u8
    }
}

/// The form encoding of one byte: itself, `+` for a space, or `%` and two hexadecimal digits.
pub open spec fn encoded_byte(b: u8) -> Seq<u8> {
    if passes_unchanged(b) {
        seq![b]
    } else if b == 0x20 {
        seq![0x2bu8]
    } else {
        seq![0x25u8, hex_digit(b as int / 16), hex_digit(b as int % 16)]
    }
}

/// The `application/x-www-form-urlencoded` serialization of `bytes`, as ASCII bytes.
pub open spec fn form_encoded_bytes(bytes: Seq<u8>) -> Seq<u8>
    decreases bytes.len(),
{
    if bytes.len() == 0 {
        Seq::empty()
    } else {
        encoded_byte(bytes[0]) + form_encoded_bytes(bytes.skip(1))
    }
}

/// ASCII bytes read as characters.
pub open spec fn ascii_text(bytes: Seq<u8>) -> Seq<char> {
    Seq::new(bytes.len(), |i: int| bytes[i] as char)
}

/// The `application/x-www-form-urlencoded` serialization of `bytes`, as text.
pub open spec fn form_encoded(bytes: Seq<u8>) -> Seq<char> {
    ascii_text(form_encoded_bytes(bytes))
}

/// A piece of text as it stands in a query string: its UTF-8 bytes, form-encoded.
pub open spec fn query_value(text: Seq<char>) -> Seq<char> {
    form_encoded(encode_utf8(text))
}

/// The value of a hexadecimal digit of either case, if `b` is one.
pub open spec fn hex_value(b: u8) -> Option<u8> {
    if 0x30 <= b <= 0x39 {
        Some((b - 0x30) as u8)
    } else if 0x41 <= b <= 0x46 {
        Some((b - 0x41 + 10) as u8)
    } else if 0x61 <= b <= 0x66 {
        Some((b - 0x61 + 10) as u8)
    } else {
        None
    }
}

/// Whether `bytes` begins with `%` and two hexadecimal digits.
pub open spec fn starts_with_escape(bytes: Seq<u8>) -> bool {
    &&& bytes.len() >= 3
    &&& bytes[0] == 0x25
    &&& hex_value(bytes[1]) is Some
    &&& hex_value(bytes[2]) is Some
}

/// The bytes that a form-encoded value stands for: `+` is a space, `%` with two hexadecimal
/// digits is the byte they spell, anything else is itself.
pub open spec fn form_decoded(bytes: Seq<u8>) -> Seq<u8>
    decreases bytes.len(),
{
    if bytes.len() == 0 {
        Seq::empty()
    } else if starts_with_escape(bytes) {
        seq![(hex_value(bytes[1])->0 * 16 + hex_value(bytes[2])->0) as u8] + form_decoded(
            bytes.skip(3),
        )
    } else if bytes[0] == 0x2b {
        seq![0x20u8] + form_decoded(bytes.skip(1))
    } else {
        seq![bytes[0]] + form_decoded(bytes.skip(1))
    }
}

/// Calls `url::form_urlencoded::byte_serialize` and joins the pieces it yields. The contract
/// restates that serializer: letters, digits and `*-._` are kept, a space becomes `+`, and
/// every other byte becomes `%` followed by its two upper-case hexadecimal digits.
#[verifier::external_body]
fn byte_serialize(input: &[u8]) -> (r: String)
    ensures
        r@ == form_encoded(input@),
{
    url::form_urlencoded::byte_serialize(input).collect()
}

/// Percent-encodes free text for use as a query value.
pub fn encode_query_value(text: &str) -> (r: String)
    ensures
        r@ == query_value(text@),
{
    byte_serialize(text.as_bytes())
}

fn hex_value_of(b: u8) -> (r: Option<u8>)
    ensures
        r == hex_value(b),
{
    if 0x30 <= b && b <= 0x39 {
        Some(b - 0x30)
    } else if 0x41 <= b && b <= 0x46 {
        Some(b - 0x41 + 10)
    } else if 0x61 <= b && b <= 0x66 {
        Some(b - 0x61 + 10)
    } else {
        None
    }
}

/// Decodes a form-encoded query value into the bytes it stands for.
pub fn decode_query_value(value: &str) -> (r: Vec<u8>)
    ensures
        r@ == form_decoded(value.spec_bytes()),
{
    let bytes = value.as_bytes();
    let n = bytes.len();
    let mut out: Vec<u8> = Vec::new();
    let mut i: usize = 0;
    assert(bytes@.skip(0) =~= bytes@);
    assert(out@ + form_decoded(bytes@) =~= form_decoded(bytes@));
    while i < n
        invariant
            i <= n,
            n == bytes@.len(),
            out@ + form_decoded(bytes@.skip(i as int)) == form_decoded(bytes@),
        decreases n - i,
    {
        let ghost rest = bytes@.skip(i as int);
        let b = bytes[i];
        let mut step: usize = 1;
        let mut decoded: u8 = b;
        if b == 0x25 && n - i >= 3 {
            let hi = hex_value_of(bytes[i + 1]);
            let lo = hex_value_of(bytes[i + 2]);
            if let (Some(h), Some(l)) = (hi, lo) {
                step = 3;
                decoded = h * 16 + l;
            }
        } else if b == 0x2b {
            decoded = 0x20;
        }
        proof {
            assert(rest.skip(step as int) =~= bytes@.skip(i + step));
            assert(form_decoded(rest) == seq![decoded] + form_decoded(rest.skip(step as int)));
            assert(out@.push(decoded) + form_decoded(rest.skip(step as int)) =~= out@ + (
            seq![decoded] + form_decoded(rest.skip(step as int))));
        }
        out.push(decoded);
        i += step;
    }
    assert(out@ + Seq::<u8>::empty() =~= out@);
    out
}

/// Decoding undoes the encoding of a single byte in front of any remainder.
proof fn lemma_decode_one(b: u8, rest: Seq<u8>)
    ensures
        form_decoded(encoded_byte(b) + rest) == seq![b] + form_decoded(rest),
{
    let e = encoded_byte(b);
    let all = e + rest;
    assert(all.skip(e.len() as int) =~= rest);
    if !passes_unchanged(b) && b != 0x20 {
        let hi = b as int / 16;
        let lo = b as int % 16;
        assert(hex_value(hex_digit(hi)) == Some(hi as u8));
        assert(hex_value(hex_digit(lo)) == Some(lo as u8));
        assert(all[1] == hex_digit(hi));
        assert(all[2] == hex_digit(lo));
        assert(starts_with_escape(all));
    } else {
        assert(all[0] == e[0]);
        assert(!starts_with_escape(all));
    }
}

/// Decoding a form-encoded byte string gives the bytes back.
pub proof fn lemma_decode_encoded_bytes(bytes: Seq<u8>)
    ensures
        form_decoded(form_encoded_bytes(bytes)) == bytes,
    decreases bytes.len(),
{
    if bytes.len() > 0 {
        lemma_decode_one(bytes[0], form_encoded_bytes(bytes.skip(1)));
        lemma_decode_encoded_bytes(bytes.skip(1));
        assert(seq![bytes[0]] + bytes.skip(1) =~= bytes);
    }
}

/// Every byte of a form encoding is ASCII.
pub proof fn lemma_encoded_is_ascii(bytes: Seq<u8>)
    ensures
        forall|i: int| 0 <= i < form_encoded_bytes(bytes).len() ==> form_encoded_bytes(bytes)[i] < 0x80,
    decreases bytes.len(),
{
    if bytes.len() > 0 {
        lemma_encoded_is_ascii(bytes.skip(1));
        let head = encoded_byte(bytes[0]);
        let tail = form_encoded_bytes(bytes.skip(1));
        assert forall|i: int| 0 <= i < (head + tail).len() implies (head + tail)[i] < 0x80 by {
            if i < head.len() {
                assert((head + tail)[i] == head[i]);
            } else {
                assert((head + tail)[i] == tail[i - head.len()]);
            }
        }
    }
}

/// The UTF-8 bytes of an encoded query value are the encoding's own bytes.
pub proof fn lemma_encoded_text_bytes(bytes: Seq<u8>)
    ensures
        encode_utf8(form_encoded(bytes)) == form_encoded_bytes(bytes),
{
    let raw = form_encoded_bytes(bytes);
    let text = form_encoded(bytes);
    lemma_encoded_is_ascii(bytes);
    assert(is_ascii_chars(text));
    is_ascii_chars_encode_utf8(text);
    assert(encode_utf8(text) =~= raw);
}

/// Round trip: the query value made from a text decodes back to that text. The value's UTF-8
/// bytes, form-decoded and read as UTF-8, are the characters that were encoded.
pub proof fn query_value_round_trip(text: Seq<char>)
    ensures
        decode_utf8(form_decoded(encode_utf8(query_value(text)))) == text,
{
    lemma_encoded_text_bytes(encode_utf8(text));
    lemma_decode_encoded_bytes(encode_utf8(text));
    encode_utf8_decode_utf8(text);
}

} // verus!
