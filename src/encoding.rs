//! Base64 (standard alphabet, padded) and the `data:` URL built from it.

use vstd::prelude::*;
use base64::Engine;

verus! {

/// The standard base64 alphabet: `A`-`Z`, `a`-`z`, `0`-`9`, `+`, `/`.
pub open spec fn digit(v: int) -> char {
    if v < 26 {
        (65 + v) as u32 as char
    } else if v < 52 {
        (97 + v - 26) as u32 as char
    } else if v < 62 {
        (48 + v - 52) as u32 as char
    } else if v == 62 {
        '+'
    } else {
        '/'
    }
}

/// The value of a digit of the standard alphabet (0 for any other char).
pub open spec fn digit_value(c: char) -> int {
    let u = c as u32 as int;
    if 65 <= u <= 90 {
        u - 65
    } else if 97 <= u <= 122 {
        u - 97 + 26
    } else if 48 <= u <= 57 {
        u - 48 + 52
    } else if c == '+' {
        62
    } else if c == '/' {
        63
    } else {
        0
    }
}

/// Standard base64 of `b`, padded with `=` to a multiple of four chars.
pub open spec fn base64_of(b: Seq<u8>) -> Seq<char>
    decreases b.len(),
{
    if b.len() == 0 {
        Seq::empty()
    } else if b.len() == 1 {
        let (x, ) = (b[0] as int, );
        seq![digit(x / 4), digit((x % 4) * 16), '=', '=']
    } else if b.len() == 2 {
        let (x, y) = (b[0] as int, b[1] as int);
        seq![digit(x / 4), digit((x % 4) * 16 + y / 16), digit((y % 16) * 4), '=']
    } else {
        let (x, y, z) = (b[0] as int, b[1] as int, b[2] as int);
        seq![digit(x / 4), digit((x % 4) * 16 + y / 16), digit((y % 16) * 4 + z / 64), digit(z % 64)]
            + base64_of(b.skip(3))
    }
}

/// Decoding of padded standard base64 text, four chars at a time.
pub open spec fn decode_base64(s: Seq<char>) -> Seq<u8>
    decreases s.len(),
{
    if s.len() < 4 {
        Seq::empty()
    } else {
        let (a, b, c, d) = (
            digit_value(s[0]),
            digit_value(s[1]),
            digit_value(s[2]),
            digit_value(s[3]),
        );
        let first = (a * 4 + b / 16) as u8;
        let second = ((b % 16) * 16 + c / 4) as u8;
        let third = ((c % 4) * 64 + d) as u8;
        if s[2] == '=' {
            seq![first]
        } else if s[3] == '=' {
            seq![first, second]
        } else {
            seq![first, second, third] + decode_base64(s.skip(4))
        }
    }
}

proof fn lemma_digit_value(v: int)
    requires
        0 <= v < 64,
    ensures
        digit_value(digit(v)) == v,
        digit(v) != '=',
{
}

proof fn lemma_bytes_round_trip(x: int, y: int, z: int)
    requires
        0 <= x < 256,
        0 <= y < 256,
        0 <= z < 256,
    ensures
        x / 4 * 4 + ((x % 4) * 16 + y / 16) / 16 == x,
        (((x % 4) * 16 + y / 16) % 16) * 16 + ((y % 16) * 4 + z / 64) / 4 == y,
        (((y % 16) * 4 + z / 64) % 4) * 64 + z % 64 == z,
        0 <= x / 4 < 64,
        0 <= (x % 4) * 16 + y / 16 < 64,
        0 <= (y % 16) * 4 + z / 64 < 64,
        0 <= z % 64 < 64,
{
    assert(x / 4 * 4 + ((x % 4) * 16 + y / 16) / 16 == x) by (nonlinear_arith)
        requires 0 <= x < 256, 0 <= y < 256;
    assert((((x % 4) * 16 + y / 16) % 16) * 16 + ((y % 16) * 4 + z / 64) / 4 == y) by (nonlinear_arith)
        requires 0 <= x < 256, 0 <= y < 256, 0 <= z < 256;
    assert((((y % 16) * 4 + z / 64) % 4) * 64 + z % 64 == z) by (nonlinear_arith)
        requires 0 <= y < 256, 0 <= z < 256;
    assert(0 <= (x % 4) * 16 + y / 16 < 64) by (nonlinear_arith)
        requires 0 <= x < 256, 0 <= y < 256;
    assert(0 <= (y % 16) * 4 + z / 64 < 64) by (nonlinear_arith)
        requires 0 <= y < 256, 0 <= z < 256;
}

/// Decoding the base64 of any byte sequence gives back those bytes.
pub proof fn lemma_base64_round_trip(b: Seq<u8>)
    ensures
        decode_base64(base64_of(b)) == b,
    decreases b.len(),
{
    if b.len() == 0 {
    } else {
        let (x, y, z) = (b[0] as int, if b.len() > 1 { b[1] as int } else { 0 }, if b.len() > 2 { b[2] as int } else { 0 });
        lemma_bytes_round_trip(x, y, z);
        lemma_digit_value(x / 4);
        lemma_digit_value((x % 4) * 16 + y / 16);
        lemma_digit_value((y % 16) * 4 + z / 64);
        lemma_digit_value(z % 64);
        let s = base64_of(b);
        if b.len() == 1 {
            assert(decode_base64(s) =~= b);
        } else if b.len() == 2 {
            assert(decode_base64(s) =~= b);
        } else {
            lemma_base64_round_trip(b.skip(3));
            let head = seq![digit(x / 4), digit((x % 4) * 16 + y / 16), digit((y % 16) * 4 + z / 64), digit(z % 64)];
            assert(s.skip(4) =~= base64_of(b.skip(3)));
            assert(b =~= seq![b[0], b[1], b[2]] + b.skip(3));
        }
    }
}

/// The text that a PNG data URL starts with, before the base64 payload.
pub open spec fn png_url_prefix() -> Seq<char> {
    "data:image/png;base64,"@
}

/// The data URL that carries `b` as a PNG image.
pub open spec fn png_data_url(b: Seq<u8>) -> Seq<char> {
    png_url_prefix() + base64_of(b)
}

/// Relies on base64's `general_purpose::STANDARD` engine (`Engine::encode`):
/// the standard alphabet with `=` padding. It panics only when the encoded
/// length overflows `usize`, which the bound on the input rules out.
#[verifier::external_body]
fn encode_standard(bytes: &Vec<u8>) -> (r: String)
    requires
        bytes@.len() <= usize::MAX / 2,
    ensures
        r@ == base64_of(bytes@),
{
    base64::engine::general_purpose::STANDARD.encode(bytes)
}

/// Wraps image bytes as `data:image/png;base64,<payload>`. The MIME type is
/// fixed: the bytes are not inspected.
pub fn png_data_url_of(bytes: &Vec<u8>) -> (r: String)
    requires
        bytes@.len() <= usize::MAX / 2,
    ensures
        r@ == png_data_url(bytes@),
{
    let payload = encode_standard(bytes);
    let mut url = String::from_str("data:image/png;base64,");
    proof {
        reveal_strlit("data:image/png;base64,");
    }
    url.append(payload.as_str());
    url
}

/// Decoding the payload that follows the prefix of a PNG data URL gives back
/// exactly the bytes the URL was made from.
pub proof fn lemma_data_url_round_trip(b: Seq<u8>)
    ensures
        png_data_url(b).subrange(0, png_url_prefix().len() as int) == png_url_prefix(),
        decode_base64(png_data_url(b).skip(png_url_prefix().len() as int)) == b,
{
    let url = png_data_url(b);
    assert(url.skip(png_url_prefix().len() as int) =~= base64_of(b));
    assert(url.subrange(0, png_url_prefix().len() as int) =~= png_url_prefix());
    lemma_base64_round_trip(b);
}

} // verus!
