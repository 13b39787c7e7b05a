//! Byte and text encodings used for tokens and secrets: URL-safe Base64,
//! RFC 4648 Base32, SHA-256 digests in lower-case hexadecimal, and the
//! hyphenated text form of UUIDs.

use vstd::prelude::*;
use base64::Engine;
use sha2::Digest;
use crate::text::{hex_digit, hex_digit_char, push_char};

verus! {

/// The digit of value `v` (`v < 64`) in the URL-safe Base64 alphabet.
pub open spec fn base64url_digit(v: int) -> char {
    if v < 26 {
        (65 + v) as char
    } else if v < 52 {
        (97 + (v - 26)) as char
    } else if v < 62 {
        (48 + (v - 52)) as char
    } else if v == 62 {
        '-'
    } else {
        '_'
    }
}

/// URL-safe Base64 without padding (RFC 4648, section 5): every three bytes
/// become four digits, a trailing one or two bytes become two or three.
pub open spec fn base64url_nopad(b: Seq<u8>) -> Seq<char>
    decreases b.len(),
{
    let x0 = b[0] as int;
    let x1 = b[1] as int;
    let x2 = b[2] as int;
    if b.len() == 0 {
        seq![]
    } else if b.len() == 1 {
        seq![base64url_digit(x0 / 4), base64url_digit((x0 % 4) * 16)]
    } else if b.len() == 2 {
        seq![
            base64url_digit(x0 / 4),
            base64url_digit((x0 % 4) * 16 + x1 / 16),
            base64url_digit((x1 % 16) * 4),
        ]
    } else {
        seq![
            base64url_digit(x0 / 4),
            base64url_digit((x0 % 4) * 16 + x1 / 16),
            base64url_digit((x1 % 16) * 4 + x2 / 64),
            base64url_digit(x2 % 64),
        ] + base64url_nopad(b.skip(3))
    }
}

/// A digit of the URL-safe Base64 alphabet: `A`-`Z`, `a`-`z`, `0`-`9`, `-`, `_`.
pub open spec fn is_base64url_char(c: char) -> bool {
    let u = c as u32;
    ||| 65 <= u <= 90
    ||| 97 <= u <= 122
    ||| 48 <= u <= 57
    ||| c == '-'
    ||| c == '_'
}

pub proof fn lemma_base64url_digit(v: int)
    requires
        0 <= v < 64,
    ensures
        is_base64url_char(base64url_digit(v)),
{
}

/// Every character of a URL-safe Base64 text is a digit of its alphabet, and
/// `n` bytes make `ceil(4 * n / 3)` digits.
pub proof fn lemma_base64url_shape(b: Seq<u8>)
    ensures
        base64url_nopad(b).len() == (4 * b.len() + 2) / 3,
        forall|i: int|
            0 <= i < base64url_nopad(b).len() ==> is_base64url_char(
                #[trigger] base64url_nopad(b)[i],
            ),
    decreases b.len(),
{
    if b.len() > 0 {
        let x0 = b[0] as int;
        let x1 = b[1] as int;
        let x2 = b[2] as int;
        lemma_base64url_digit(x0 / 4);
        lemma_base64url_digit((x0 % 4) * 16);
        lemma_base64url_digit((x0 % 4) * 16 + x1 / 16);
        lemma_base64url_digit((x1 % 16) * 4);
        lemma_base64url_digit((x1 % 16) * 4 + x2 / 64);
        lemma_base64url_digit(x2 % 64);
        if b.len() >= 3 {
            lemma_base64url_shape(b.skip(3));
            let head = seq![
                base64url_digit(x0 / 4),
                base64url_digit((x0 % 4) * 16 + x1 / 16),
                base64url_digit((x1 % 16) * 4 + x2 / 64),
                base64url_digit(x2 % 64),
            ];
            let r = base64url_nopad(b.skip(3));
            assert(base64url_nopad(b) == head + r);
            assert forall|i: int| 0 <= i < base64url_nopad(b).len() implies is_base64url_char(
                #[trigger] base64url_nopad(b)[i],
            ) by {
                if i >= 4 {
                    assert(base64url_nopad(b)[i] == r[i - 4]);
                }
            }
        }
    }
}

/// `base64::engine::general_purpose::URL_SAFE_NO_PAD.encode`: the URL-safe
/// Base64 alphabet (`-` and `_` for 62 and 63) without `=` padding, as the
/// crate documents that engine.
#[verifier::external_body]
pub(crate) fn encode_base64url(bytes: &[u8]) -> (res: String)
    ensures
        res@ == base64url_nopad(bytes@),
{
    base64::engine::general_purpose::URL_SAFE_NO_PAD.encode(bytes)
}

/// The digit of value `v` (`v < 32`) in the RFC 4648 Base32 alphabet:
/// `A`-`Z` for 0 to 25, `2`-`7` for 26 to 31.
pub open spec fn base32_digit(v: int) -> char {
    if v < 26 {
        (65 + v) as char
    } else {
        (50 + (v - 26)) as char
    }
}

/// A digit of the RFC 4648 Base32 alphabet: `A`-`Z` or `2`-`7`.
pub open spec fn is_base32_char(c: char) -> bool {
    let u = c as u32;
    ||| 65 <= u <= 90
    ||| 50 <= u <= 55
}

/// The eight digits of five bytes: their forty bits, five at a time, from
/// the most significant one.
pub open spec fn base32_group(x0: int, x1: int, x2: int, x3: int, x4: int) -> Seq<char> {
    seq![
        base32_digit(x0 / 8),
        base32_digit((x0 % 8) * 4 + x1 / 64),
        base32_digit((x1 % 64) / 2),
        base32_digit((x1 % 2) * 16 + x2 / 16),
        base32_digit((x2 % 16) * 2 + x3 / 128),
        base32_digit((x3 % 128) / 4),
        base32_digit((x3 % 4) * 8 + x4 / 32),
        base32_digit(x4 % 32),
    ]
}

/// The byte at index `i`, or zero past the end.
pub open spec fn byte_or_zero(b: Seq<u8>, i: int) -> int {
    if 0 <= i < b.len() {
        b[i] as int
    } else {
        0
    }
}

/// Base32 (RFC 4648, upper case) without padding: every five bytes become
/// eight digits; a last group of one to four bytes is completed with zero
/// bytes and cut to `ceil(8 * r / 5)` digits.
pub open spec fn base32_rfc4648(b: Seq<u8>) -> Seq<char>
    decreases b.len(),
{
    let g = base32_group(
        byte_or_zero(b, 0),
        byte_or_zero(b, 1),
        byte_or_zero(b, 2),
        byte_or_zero(b, 3),
        byte_or_zero(b, 4),
    );
    if b.len() == 0 {
        seq![]
    } else if b.len() < 5 {
        g.take(((8 * b.len() + 4) / 5) as int)
    } else {
        g + base32_rfc4648(b.skip(5))
    }
}

proof fn lemma_base32_group(x0: int, x1: int, x2: int, x3: int, x4: int)
    requires
        0 <= x0 < 256,
        0 <= x1 < 256,
        0 <= x2 < 256,
        0 <= x3 < 256,
        0 <= x4 < 256,
    ensures
        forall|i: int| 0 <= i < 8 ==> is_base32_char(#[trigger] base32_group(x0, x1, x2, x3, x4)[i]),
{
    let g = base32_group(x0, x1, x2, x3, x4);
    assert forall|i: int| 0 <= i < 8 implies is_base32_char(#[trigger] g[i]) by {
        let v: int = if i == 0 {
            x0 / 8
        } else if i == 1 {
            (x0 % 8) * 4 + x1 / 64
        } else if i == 2 {
            (x1 % 64) / 2
        } else if i == 3 {
            (x1 % 2) * 16 + x2 / 16
        } else if i == 4 {
            (x2 % 16) * 2 + x3 / 128
        } else if i == 5 {
            (x3 % 128) / 4
        } else if i == 6 {
            (x3 % 4) * 8 + x4 / 32
        } else {
            x4 % 32
        };
        assert(g[i] == base32_digit(v));
        assert(0 <= v < 32);
    }
}

/// Every character of a Base32 text is a digit of its alphabet, and `n`
/// bytes make `ceil(8 * n / 5)` digits.
pub proof fn lemma_base32_shape(b: Seq<u8>)
    ensures
        base32_rfc4648(b).len() == (8 * b.len() + 4) / 5,
        forall|i: int|
            0 <= i < base32_rfc4648(b).len() ==> is_base32_char(#[trigger] base32_rfc4648(b)[i]),
    decreases b.len(),
{
    if b.len() > 0 {
        let g = base32_group(
            byte_or_zero(b, 0),
            byte_or_zero(b, 1),
            byte_or_zero(b, 2),
            byte_or_zero(b, 3),
            byte_or_zero(b, 4),
        );
        lemma_base32_group(
            byte_or_zero(b, 0),
            byte_or_zero(b, 1),
            byte_or_zero(b, 2),
            byte_or_zero(b, 3),
            byte_or_zero(b, 4),
        );
        if b.len() >= 5 {
            let r = base32_rfc4648(b.skip(5));
            lemma_base32_shape(b.skip(5));
            assert(base32_rfc4648(b) == g + r);
            assert forall|i: int| 0 <= i < base32_rfc4648(b).len() implies is_base32_char(
                #[trigger] base32_rfc4648(b)[i],
            ) by {
                if i >= 8 {
                    assert(base32_rfc4648(b)[i] == r[i - 8]);
                } else {
                    assert(base32_rfc4648(b)[i] == g[i]);
                }
            }
        } else {
            assert forall|i: int| 0 <= i < base32_rfc4648(b).len() implies is_base32_char(
                #[trigger] base32_rfc4648(b)[i],
            ) by {
                assert(base32_rfc4648(b)[i] == g[i]);
            }
        }
    }
}

/// What `base32::decode` with the RFC 4648 alphabet without padding gives for
/// a text: the bytes, or nothing when the text is not Base32.
pub uninterp spec fn base32_rfc4648_decoded(text: Seq<char>) -> Option<Seq<u8>>;

/// `base32::encode(Alphabet::Rfc4648 { padding: false }, data)`. Its source
/// writes, for each five bytes (the last group completed with zeros), the
/// eight 5-bit digits of `base32_rfc4648` from the RFC 4648 alphabet, and
/// cuts the digits of a short last group to `ceil(8 * n / 5)` in all;
/// `base32::decode` with the same alphabet reads such a text back to the same
/// bytes.
#[verifier::external_body]
pub(crate) fn encode_base32(data: &[u8]) -> (res: String)
    ensures
        res@ == base32_rfc4648(data@),
        base32_rfc4648_decoded(res@) == Some(data@),
{
    base32::encode(base32::Alphabet::Rfc4648 { padding: false }, data)
}

/// `base32::decode(Alphabet::Rfc4648 { padding: false }, text)`; what it gives
/// is the name `base32_rfc4648_decoded`.
#[verifier::external_body]
pub(crate) fn decode_base32(text: &str) -> (res: Option<Vec<u8>>)
    ensures
        match base32_rfc4648_decoded(text@) {
            Some(b) => res matches Some(r) && r@ == b,
            None => res is None,
        },
{
    base32::decode(base32::Alphabet::Rfc4648 { padding: false }, text)
}

/// The SHA-256 digest of some bytes.
pub uninterp spec fn sha256_digest(data: Seq<u8>) -> Seq<u8>;

/// `sha2::Sha256::digest`: a 32-byte digest, which is the name `sha256_digest`
/// of the input; the algorithm is not written out.
#[verifier::external_body]
pub(crate) fn sha256(data: &[u8]) -> (res: Vec<u8>)
    ensures
        res@ == sha256_digest(data@),
        res@.len() == 32,
{
    sha2::Sha256::digest(data).to_vec()
}

/// Lower-case hexadecimal, two digits per byte (what `{:x}` prints for a digest).
pub open spec fn hex_lower(b: Seq<u8>) -> Seq<char>
    decreases b.len(),
{
    if b.len() == 0 {
        seq![]
    } else {
        hex_lower(b.drop_last()) + seq![
            hex_digit((b.last() / 16) as int),
            hex_digit((b.last() % 16) as int),
        ]
    }
}

pub proof fn lemma_hex_lower_len(b: Seq<u8>)
    ensures
        hex_lower(b).len() == 2 * b.len(),
    decreases b.len(),
{
    if b.len() > 0 {
        lemma_hex_lower_len(b.drop_last());
    }
}

/// The lower-case hexadecimal text of some bytes.
pub fn to_hex_lower(b: &Vec<u8>) -> (res: String)
    ensures
        res@ == hex_lower(b@),
{
    let mut s = String::new();
    let mut i: usize = 0;
    while i < b.len()
        invariant
            i <= b@.len(),
            s@ == hex_lower(b@.subrange(0, i as int)),
        decreases b@.len() - i,
    {
        let x = b[i];
        push_char(&mut s, hex_digit_char(x / 16));
        push_char(&mut s, hex_digit_char(x % 16));
        proof {
            let p = b@.subrange(0, i + 1);
            assert(p.drop_last() =~= b@.subrange(0, i as int));
            assert(p.last() == x);
        }
        i += 1;
    }
    assert(b@.subrange(0, b@.len() as int) =~= b@);
    s
}

/// The position, among a UUID's 32 hexadecimal digits, of the character at
/// index `i` of its hyphenated text (for indices that are not hyphens).
pub open spec fn uuid_digit_index(i: int) -> int {
    if i < 8 {
        i
    } else if i < 13 {
        i - 1
    } else if i < 18 {
        i - 2
    } else if i < 23 {
        i - 3
    } else {
        i - 4
    }
}

/// Whether index `i` of a UUID's hyphenated text holds a hyphen.
pub open spec fn uuid_hyphen_at(i: int) -> bool {
    i == 8 || i == 13 || i == 18 || i == 23
}

/// The `k`-th hexadecimal digit (most significant first) of a 128-bit value.
pub open spec fn uuid_nibble(u: u128, k: int) -> u128 {
    (u >> ((124 - 4 * k) as u32)) & 15u128
}

/// Hyphenated lower-case text of a UUID (`8-4-4-4-12` digits), as
/// `uuid::Uuid`'s `Display` writes it for the big-endian value `u`.
pub open spec fn uuid_text(u: u128) -> Seq<char> {
    Seq::new(
        36,
        |i: int|
            if uuid_hyphen_at(i) {
                '-'
            } else {
                hex_digit(uuid_nibble(u, uuid_digit_index(i)) as int)
            },
    )
}

/// The hyphenated text of a UUID.
pub fn uuid_to_text(u: u128) -> (res: String)
    ensures
        res@ == uuid_text(u),
{
    let mut s = String::new();
    let mut i: usize = 0;
    while i < 36
        invariant
            i <= 36,
            s@ == uuid_text(u).subrange(0, i as int),
        decreases 36 - i,
    {
        if i == 8 || i == 13 || i == 18 || i == 23 {
            push_char(&mut s, '-');
        } else {
            let k: u32 = if i < 8 {
                i as u32
            } else if i < 13 {
                (i - 1) as u32
            } else if i < 18 {
                (i - 2) as u32
            } else if i < 23 {
                (i - 3) as u32
            } else {
                (i - 4) as u32
            };
            let shift: u32 = 124 - 4 * k;
            let nib: u128 = (u >> shift) & 15u128;
            assert(nib < 16) by (bit_vector)
                requires
                    nib == (u >> shift) & 15u128,
            ;
            push_char(&mut s, hex_digit_char(nib as u8));
        }
        assert(s@ =~= uuid_text(u).subrange(0, (i + 1) as int));
        i += 1;
    }
    s
}

/// What `uuid::Uuid::parse_str` reads from a text, as the big-endian value of
/// the UUID (`Uuid::as_u128`), or nothing when it refuses the text.
pub uninterp spec fn uuid_parsed(text: Seq<char>) -> Option<u128>;

/// `uuid::Uuid::parse_str`, as a big-endian 128-bit value. Its source accepts
/// the hyphenated form that `Uuid`'s `Display` writes, so the text of a UUID
/// reads back to that UUID; everything else it accepts or refuses is the name
/// `uuid_parsed`.
#[verifier::external_body]
pub(crate) fn parse_uuid(text: &str) -> (res: Option<u128>)
    ensures
        res == uuid_parsed(text@),
        forall|u: u128| #[trigger] uuid_text(u) == text@ ==> res == Some(u),
{
    match uuid::Uuid::parse_str(text) {
        Ok(u) => Some(u.as_u128()),
        Err(_) => None,
    }
}

} // verus!
