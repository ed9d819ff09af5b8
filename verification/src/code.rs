//! The token codec: a 128-bit identifier as 22 characters of URL-safe base64
//! without padding, and back.

use vstd::prelude::*;
use vstd::string::StrSliceExecFns;

verus! {

/// Number of characters in a token.
pub const TOKEN_LEN: usize = 22;

/// Number of bytes in an identifier.
pub const ID_LEN: usize = 16;

/// The character that stands for the six-bit value `v` in the URL-safe
/// alphabet: `A`-`Z`, `a`-`z`, `0`-`9`, `-`, `_`.
pub open spec fn symbol(v: u8) -> char {
    if v < 26 {
        (v + 65) as char
    } else if v < 52 {
        (v - 26 + 97) as char
    } else if v < 62 {
        (v - 52 + 48) as char
    } else if v == 62 {
        '-'
    } else {
        '_'
    }
}

/// Whether `c` belongs to the URL-safe alphabet.
pub open spec fn is_symbol(c: char) -> bool {
    ||| 'A' <= c <= 'Z'
    ||| 'a' <= c <= 'z'
    ||| '0' <= c <= '9'
    ||| c == '-'
    ||| c == '_'
}

/// The six-bit value that `c` stands for; meaningful where `is_symbol(c)`.
pub open spec fn symbol_value(c: char) -> u8 {
    if 'A' <= c <= 'Z' {
        (c as u8 - 65) as u8
    } else if 'a' <= c <= 'z' {
        (c as u8 - 97 + 26) as u8
    } else if '0' <= c <= '9' {
        (c as u8 - 48 + 52) as u8
    } else if c == '-' {
        62
    } else {
        63
    }
}

/// Byte `k` of `bytes`, and zero past the end.
pub open spec fn byte_or_zero(bytes: Seq<u8>, k: int) -> u8 {
    if 0 <= k < bytes.len() {
        bytes[k]
    } else {
        0
    }
}

/// The `i`-th group of six bits of `bytes`, read as one string of bits with
/// the most significant bit of each byte first and zero bits after the last.
pub open spec fn sextet(bytes: Seq<u8>, i: int) -> u8 {
    let k = (i / 4) * 3;
    let b0 = byte_or_zero(bytes, k);
    let b1 = byte_or_zero(bytes, k + 1);
    let b2 = byte_or_zero(bytes, k + 2);
    if i % 4 == 0 {
        b0 >> 2
    } else if i % 4 == 1 {
        ((b0 & 0x03) << 4) | (b1 >> 4)
    } else if i % 4 == 2 {
        ((b1 & 0x0f) << 2) | (b2 >> 6)
    } else {
        b2 & 0x3f
    }
}

/// URL-safe base64 of `bytes` without padding: one symbol for every group of
/// six bits that holds a bit of the input.
pub open spec fn base64url(bytes: Seq<u8>) -> Seq<char> {
    Seq::new(((bytes.len() * 4 + 2) / 3) as nat, |i: int| symbol(sextet(bytes, i)))
}

/// Byte `j` of `id`, counted from the most significant.
pub open spec fn id_byte(id: u128, j: int) -> u8 {
    ((id >> ((8 * (15 - j)) as u128)) & 0xff) as u8
}

/// The sixteen bytes of `id`, most significant first.
pub open spec fn id_bytes(id: u128) -> Seq<u8> {
    Seq::new(16, |j: int| id_byte(id, j))
}

/// The token of `id`.
pub open spec fn token(id: u128) -> Seq<char> {
    base64url(id_bytes(id))
}

/// Whether `text` is the token of some identifier.
pub open spec fn is_token(text: Seq<char>) -> bool {
    exists|id: u128| token(id) == text
}

/// The identifier whose token is `text`, if there is one.
pub open spec fn decoded(text: Seq<char>) -> Option<u128> {
    if is_token(text) {
        Some(choose|id: u128| token(id) == text)
    } else {
        None
    }
}

/// Whether `text` has the shape of a token: twenty-two symbols, the last of
/// which carries no bits beyond the 128th.
pub open spec fn is_canonical(text: Seq<char>) -> bool {
    &&& text.len() == TOKEN_LEN
    &&& forall|i: int| 0 <= i < TOKEN_LEN ==> is_symbol(#[trigger] text[i])
    &&& symbol_value(text[TOKEN_LEN - 1]) % 16 == 0
}

/// The value of the symbol at `i` of `text`, and zero past the end.
pub open spec fn value_or_zero(text: Seq<char>, i: int) -> u8 {
    if 0 <= i < text.len() {
        symbol_value(text[i])
    } else {
        0
    }
}

/// The sixteen bytes that the symbols of `text` spell, six bits each;
/// meaningful where `is_canonical(text)`.
pub open spec fn unpacked(text: Seq<char>) -> Seq<u8> {
    Seq::new(
        16,
        |k: int|
            {
                let i = (k / 3) * 4;
                let s0 = value_or_zero(text, i);
                let s1 = value_or_zero(text, i + 1);
                let s2 = value_or_zero(text, i + 2);
                let s3 = value_or_zero(text, i + 3);
                if k % 3 == 0 {
                    (s0 << 2) | (s1 >> 4)
                } else if k % 3 == 1 {
                    ((s1 & 0x0f) << 4) | (s2 >> 2)
                } else {
                    ((s2 & 0x03) << 6) | s3
                }
            },
    )
}

/// The identifier whose bytes, most significant first, are the sixteen of
/// `bytes`.
pub open spec fn joined(bytes: Seq<u8>) -> u128 {
    (bytes[0] as u128) << 120 | (bytes[1] as u128) << 112 | (bytes[2] as u128) << 104
        | (bytes[3] as u128) << 96 | (bytes[4] as u128) << 88 | (bytes[5] as u128) << 80
        | (bytes[6] as u128) << 72 | (bytes[7] as u128) << 64 | (bytes[8] as u128) << 56
        | (bytes[9] as u128) << 48 | (bytes[10] as u128) << 40 | (bytes[11] as u128) << 32
        | (bytes[12] as u128) << 24 | (bytes[13] as u128) << 16 | (bytes[14] as u128) << 8
        | bytes[15] as u128
}

/// The token of `id`: twenty-two characters of the URL-safe alphabet, the
/// same for the same identifier.
pub fn encode(id: u128) -> (text: String)
    ensures
        text@ == token(id),
        text@.len() == TOKEN_LEN,
        decoded(text@) == Some(id),
{
    let bytes = id_to_bytes(id);
    proof {
        law_decode_encode(id);
    }
    base64_display(&bytes)
}

/// The identifier whose token is `text`, or `None` where `text` is no token:
/// where it is not twenty-two characters long, holds a character outside the
/// URL-safe alphabet, or ends in a symbol with bits beyond the 128th.
pub fn decode(text: &str) -> (id: Option<u128>)
    ensures
        id == decoded(text@),
        id is Some <==> is_canonical(text@),
        id matches Some(v) ==> token(v) == text@,
        text@.len() != TOKEN_LEN ==> id is None,
        (exists|i: int| 0 <= i < text@.len() && !is_symbol(#[trigger] text@[i])) ==> id is None,
{
    proof {
        law_decode_rejects(text@);
    }
    if text.unicode_len() != TOKEN_LEN || !text.is_ascii() {
        return None;
    }
    match base64_decode_slice(text) {
        None => None,
        Some(bytes) => {
            let id = bytes_to_id(&bytes);
            proof {
                assert(token(id) == text@);
                law_decode_encode(id);
            }
            Some(id)
        },
    }
}

/// What `base64::display::Base64Display::with_config` prints for `bytes`
/// under `base64::URL_SAFE_NO_PAD`: the URL-safe base64 of the bytes, with no
/// padding character after it.
#[verifier::external_body]
fn base64_display(bytes: &Vec<u8>) -> (text: String)
    ensures
        text@ == base64url(bytes@),
{
    format!("{}", base64::display::Base64Display::with_config(bytes, base64::URL_SAFE_NO_PAD))
}

/// `base64::decode_config_slice` under `base64::URL_SAFE_NO_PAD`, on
/// twenty-two bytes of text and into sixteen bytes of room. It accepts the
/// text exactly when every character is a symbol of the alphabet and the last
/// one has its four low bits clear, and then yields the sixteen bytes whose
/// base64 is the text.
#[verifier::external_body]
fn base64_decode_slice(text: &str) -> (bytes: Option<Vec<u8>>)
    requires
        text.is_ascii(),
        text@.len() == TOKEN_LEN,
    ensures
        bytes is Some <==> is_canonical(text@),
        bytes matches Some(b) ==> b@.len() == ID_LEN && base64url(b@) == text@,
{
    let mut out = [0u8; 16];
    match base64::decode_config_slice(text, base64::URL_SAFE_NO_PAD, &mut out) {
        Ok(_) => Some(out.to_vec()),
        Err(_) => None,
    }
}

/// The bytes of `id`, most significant first.
fn id_to_bytes(id: u128) -> (bytes: Vec<u8>)
    ensures
        bytes@ == id_bytes(id),
{
    let mut bytes: Vec<u8> = Vec::with_capacity(ID_LEN);
    let mut j: usize = 0;
    while j < ID_LEN
        invariant
            j <= ID_LEN,
            bytes@.len() == j,
            forall|k: int| 0 <= k < j ==> bytes@[k] == id_byte(id, k),
        decreases ID_LEN - j,
    {
        let shift: u128 = 8 * (15 - j as u128);
        let low: u128 = (id >> shift) & 0xff;
        assert(low <= 0xff) by (bit_vector)
            requires
                low == (id >> shift) & 0xff,
        ;
        bytes.push(low as u8);
        j += 1;
    }
    assert(bytes@ =~= id_bytes(id));
    bytes
}

/// The identifier whose bytes, most significant first, are `bytes`.
fn bytes_to_id(bytes: &Vec<u8>) -> (id: u128)
    requires
        bytes@.len() == ID_LEN,
    ensures
        id == joined(bytes@),
        id_bytes(id) == bytes@,
{
    let b0 = bytes[0];
    let b1 = bytes[1];
    let b2 = bytes[2];
    let b3 = bytes[3];
    let b4 = bytes[4];
    let b5 = bytes[5];
    let b6 = bytes[6];
    let b7 = bytes[7];
    let b8 = bytes[8];
    let b9 = bytes[9];
    let b10 = bytes[10];
    let b11 = bytes[11];
    let b12 = bytes[12];
    let b13 = bytes[13];
    let b14 = bytes[14];
    let b15 = bytes[15];
    let id: u128 = (b0 as u128) << 120 | (b1 as u128) << 112 | (b2 as u128) << 104 | (b3 as u128) << 96
        | (b4 as u128) << 88 | (b5 as u128) << 80 | (b6 as u128) << 72 | (b7 as u128) << 64
        | (b8 as u128) << 56 | (b9 as u128) << 48 | (b10 as u128) << 40 | (b11 as u128) << 32
        | (b12 as u128) << 24 | (b13 as u128) << 16 | (b14 as u128) << 8 | b15 as u128;
    proof {
        lemma_joined(id, b0, b1, b2, b3, b4, b5, b6, b7, b8, b9, b10, b11, b12, b13, b14, b15);
        assert(id_bytes(id) =~= bytes@);
    }
    id
}

/// Decoding undoes encoding: the token of an identifier decodes to that
/// identifier, whatever the identifier.
pub proof fn law_decode_encode(id: u128)
    ensures
        decoded(token(id)) == Some(id),
{
    let text = token(id);
    assert(is_token(text));
    lemma_token_injective(choose|other: u128| token(other) == text, id);
}

/// Encoding undoes decoding: what decodes to an identifier is the token of
/// that identifier.
pub proof fn law_encode_decode(text: Seq<char>)
    ensures
        decoded(text) matches Some(id) ==> token(id) == text,
{
}

/// Nothing decodes that is not twenty-two characters long, and nothing that
/// holds a character outside the URL-safe alphabet.
pub proof fn law_decode_rejects(text: Seq<char>)
    ensures
        text.len() != TOKEN_LEN ==> decoded(text) is None,
        (exists|i: int| 0 <= i < text.len() && !is_symbol(#[trigger] text[i])) ==> decoded(text)
            is None,
        !is_canonical(text) ==> decoded(text) is None,
{
    if is_token(text) {
        lemma_token_is_canonical(choose|id: u128| token(id) == text);
    }
}

/// Every text of twenty-two symbols whose last symbol carries no bits beyond
/// the 128th decodes, to the identifier that its symbols spell.
pub proof fn law_decode_accepts(text: Seq<char>)
    requires
        is_canonical(text),
    ensures
        decoded(text) == Some(joined(unpacked(text))),
{
    lemma_canonical_is_token(text);
    lemma_token_injective(choose|id: u128| token(id) == text, joined(unpacked(text)));
}

/// Two identifiers with the same token are the same.
pub proof fn lemma_token_injective(a: u128, b: u128)
    requires
        token(a) == token(b),
    ensures
        a == b,
{
    lemma_base64url_injective(id_bytes(a), id_bytes(b));
    lemma_id_bytes_injective(a, b);
}

/// The token of an identifier has the shape of a token.
pub proof fn lemma_token_is_canonical(id: u128)
    ensures
        is_canonical(token(id)),
{
    let bytes = id_bytes(id);
    let text = token(id);
    assert forall|i: int| 0 <= i < TOKEN_LEN implies is_symbol(#[trigger] text[i]) by {
        lemma_sextet_bound(bytes, i);
        lemma_symbol_value(sextet(bytes, i));
    }
    let last = bytes[15];
    let v = sextet(bytes, 21);
    assert(v == ((last & 0x03) << 4) | (0u8 >> 4));
    assert(v < 64 && v % 16 == 0) by (bit_vector)
        requires
            v == ((last & 0x03) << 4) | (0u8 >> 4),
    ;
    lemma_symbol_value(v);
}

/// A text that has the shape of a token is the token of the identifier that
/// its symbols spell.
pub proof fn lemma_canonical_is_token(text: Seq<char>)
    requires
        is_canonical(text),
    ensures
        token(joined(unpacked(text))) == text,
        is_token(text),
{
    let bytes = unpacked(text);
    let id = joined(bytes);
    lemma_joined(id, bytes[0], bytes[1], bytes[2], bytes[3], bytes[4], bytes[5], bytes[6], bytes[7], bytes[8], bytes[9], bytes[10], bytes[11], bytes[12], bytes[13], bytes[14], bytes[15]);
    assert(id_bytes(id) =~= bytes);
    assert forall|i: int| 0 <= i < 22 implies #[trigger] base64url(bytes)[i] == text[i] by {
        let g = i / 4;
        let s0 = value_or_zero(text, 4 * g);
        let s1 = value_or_zero(text, 4 * g + 1);
        let s2 = value_or_zero(text, 4 * g + 2);
        let s3 = value_or_zero(text, 4 * g + 3);
        assert(s0 == symbol_value(text[4 * g]));
        assert(s1 == symbol_value(text[4 * g + 1]));
        lemma_value_symbol(text[4 * g]);
        lemma_value_symbol(text[4 * g + 1]);
        if g < 5 {
            assert(s2 == symbol_value(text[4 * g + 2]));
            assert(s3 == symbol_value(text[4 * g + 3]));
            lemma_value_symbol(text[4 * g + 2]);
            lemma_value_symbol(text[4 * g + 3]);
            assert(bytes[3 * g] == (s0 << 2) | (s1 >> 4));
            assert(bytes[3 * g + 1] == ((s1 & 0x0f) << 4) | (s2 >> 2));
            assert(bytes[3 * g + 2] == ((s2 & 0x03) << 6) | s3);
        } else {
            assert(bytes[15] == (s0 << 2) | (s1 >> 4));
        }
        lemma_group_spelled(s0, s1, s2, s3);
        lemma_value_symbol(text[i]);
    }
    assert(token(id) =~= text);
}

/// Sixteen bytes are known from their base64.
pub proof fn lemma_base64url_injective(a: Seq<u8>, b: Seq<u8>)
    requires
        a.len() == ID_LEN,
        b.len() == ID_LEN,
        base64url(a) == base64url(b),
    ensures
        a == b,
{
    assert forall|i: int| 0 <= i < 22 implies sextet(a, i) == sextet(b, i) by {
        lemma_sextet_bound(a, i);
        lemma_sextet_bound(b, i);
        lemma_symbol_value(sextet(a, i));
        lemma_symbol_value(sextet(b, i));
        assert(base64url(a)[i] == symbol(sextet(a, i)));
        assert(base64url(b)[i] == symbol(sextet(b, i)));
    }
    assert forall|k: int| 0 <= k < 16 implies a[k] == b[k] by {
        let g = k / 3;
        assert(sextet(a, 4 * g) == sextet(b, 4 * g));
        assert(sextet(a, 4 * g + 1) == sextet(b, 4 * g + 1));
        if g < 5 {
            assert(sextet(a, 4 * g + 2) == sextet(b, 4 * g + 2));
            assert(sextet(a, 4 * g + 3) == sextet(b, 4 * g + 3));
            lemma_group_known(
                a[3 * g],
                a[3 * g + 1],
                a[3 * g + 2],
                b[3 * g],
                b[3 * g + 1],
                b[3 * g + 2],
            );
        } else {
            let x = a[15];
            let y = b[15];
            assert(x == y) by (bit_vector)
                requires
                    x >> 2 == y >> 2,
                    ((x & 0x03) << 4) | (0u8 >> 4) == ((y & 0x03) << 4) | (0u8 >> 4),
            ;
        }
    }
    assert(a =~= b);
}

/// Two identifiers with the same bytes are the same.
pub proof fn lemma_id_bytes_injective(a: u128, b: u128)
    requires
        id_bytes(a) == id_bytes(b),
    ensures
        a == b,
{
    assert(id_bytes(a)[0] == id_byte(a, 0) && id_bytes(b)[0] == id_byte(b, 0));
    assert(id_bytes(a)[1] == id_byte(a, 1) && id_bytes(b)[1] == id_byte(b, 1));
    assert(id_bytes(a)[2] == id_byte(a, 2) && id_bytes(b)[2] == id_byte(b, 2));
    assert(id_bytes(a)[3] == id_byte(a, 3) && id_bytes(b)[3] == id_byte(b, 3));
    assert(id_bytes(a)[4] == id_byte(a, 4) && id_bytes(b)[4] == id_byte(b, 4));
    assert(id_bytes(a)[5] == id_byte(a, 5) && id_bytes(b)[5] == id_byte(b, 5));
    assert(id_bytes(a)[6] == id_byte(a, 6) && id_bytes(b)[6] == id_byte(b, 6));
    assert(id_bytes(a)[7] == id_byte(a, 7) && id_bytes(b)[7] == id_byte(b, 7));
    assert(id_bytes(a)[8] == id_byte(a, 8) && id_bytes(b)[8] == id_byte(b, 8));
    assert(id_bytes(a)[9] == id_byte(a, 9) && id_bytes(b)[9] == id_byte(b, 9));
    assert(id_bytes(a)[10] == id_byte(a, 10) && id_bytes(b)[10] == id_byte(b, 10));
    assert(id_bytes(a)[11] == id_byte(a, 11) && id_bytes(b)[11] == id_byte(b, 11));
    assert(id_bytes(a)[12] == id_byte(a, 12) && id_bytes(b)[12] == id_byte(b, 12));
    assert(id_bytes(a)[13] == id_byte(a, 13) && id_bytes(b)[13] == id_byte(b, 13));
    assert(id_bytes(a)[14] == id_byte(a, 14) && id_bytes(b)[14] == id_byte(b, 14));
    assert(id_bytes(a)[15] == id_byte(a, 15) && id_bytes(b)[15] == id_byte(b, 15));
    lemma_bytes_known(a, b);
}

/// Every six-bit value has a symbol, and the symbol gives the value back.
pub proof fn lemma_symbol_value(v: u8)
    requires
        v < 64,
    ensures
        is_symbol(symbol(v)),
        symbol_value(symbol(v)) == v,
{
}

/// A symbol is the symbol of its value.
pub proof fn lemma_value_symbol(c: char)
    requires
        is_symbol(c),
    ensures
        symbol_value(c) < 64,
        symbol(symbol_value(c)) == c,
{
}

/// A group of six bits is a six-bit value.
pub proof fn lemma_sextet_bound(bytes: Seq<u8>, i: int)
    ensures
        sextet(bytes, i) < 64,
{
    let k = (i / 4) * 3;
    let b0 = byte_or_zero(bytes, k);
    let b1 = byte_or_zero(bytes, k + 1);
    let b2 = byte_or_zero(bytes, k + 2);
    assert(b0 >> 2 < 64 && (((b0 & 0x03) << 4) | (b1 >> 4)) < 64 && (((b1 & 0x0f) << 2) | (b2
        >> 6)) < 64 && b2 & 0x3f < 64) by (bit_vector);
}

/// Three bytes are known from the four groups of six bits that they fill.
proof fn lemma_group_known(a0: u8, a1: u8, a2: u8, b0: u8, b1: u8, b2: u8)
    by (bit_vector)
    requires
        a0 >> 2 == b0 >> 2,
        ((a0 & 0x03) << 4) | (a1 >> 4) == ((b0 & 0x03) << 4) | (b1 >> 4),
        ((a1 & 0x0f) << 2) | (a2 >> 6) == ((b1 & 0x0f) << 2) | (b2 >> 6),
        a2 & 0x3f == b2 & 0x3f,
    ensures
        a0 == b0,
        a1 == b1,
        a2 == b2,
{
}

/// Four six-bit values are read back from the three bytes that they spell.
proof fn lemma_group_spelled(s0: u8, s1: u8, s2: u8, s3: u8)
    by (bit_vector)
    requires
        s0 < 64,
        s1 < 64,
        s2 < 64,
        s3 < 64,
    ensures
        ((s0 << 2) | (s1 >> 4)) >> 2 == s0,
        ((((s0 << 2) | (s1 >> 4)) & 0x03) << 4) | ((((s1 & 0x0f) << 4) | (s2 >> 2)) >> 4) == s1,
        (((((s1 & 0x0f) << 4) | (s2 >> 2)) & 0x0f) << 2) | ((((s2 & 0x03) << 6) | s3) >> 6) == s2,
        (((s2 & 0x03) << 6) | s3) & 0x3f == s3,
        s1 % 16 == 0 ==> ((((s0 << 2) | (s1 >> 4)) & 0x03) << 4) | (0u8 >> 4) == s1,
{
}

/// An identifier is known from its sixteen bytes.
proof fn lemma_bytes_known(a: u128, b: u128)
    by (bit_vector)
    requires
        ((a >> 120) & 0xff) as u8 == ((b >> 120) & 0xff) as u8,
        ((a >> 112) & 0xff) as u8 == ((b >> 112) & 0xff) as u8,
        ((a >> 104) & 0xff) as u8 == ((b >> 104) & 0xff) as u8,
        ((a >> 96) & 0xff) as u8 == ((b >> 96) & 0xff) as u8,
        ((a >> 88) & 0xff) as u8 == ((b >> 88) & 0xff) as u8,
        ((a >> 80) & 0xff) as u8 == ((b >> 80) & 0xff) as u8,
        ((a >> 72) & 0xff) as u8 == ((b >> 72) & 0xff) as u8,
        ((a >> 64) & 0xff) as u8 == ((b >> 64) & 0xff) as u8,
        ((a >> 56) & 0xff) as u8 == ((b >> 56) & 0xff) as u8,
        ((a >> 48) & 0xff) as u8 == ((b >> 48) & 0xff) as u8,
        ((a >> 40) & 0xff) as u8 == ((b >> 40) & 0xff) as u8,
        ((a >> 32) & 0xff) as u8 == ((b >> 32) & 0xff) as u8,
        ((a >> 24) & 0xff) as u8 == ((b >> 24) & 0xff) as u8,
        ((a >> 16) & 0xff) as u8 == ((b >> 16) & 0xff) as u8,
        ((a >> 8) & 0xff) as u8 == ((b >> 8) & 0xff) as u8,
        ((a >> 0) & 0xff) as u8 == ((b >> 0) & 0xff) as u8,
    ensures
        a == b,
{
}

/// An identifier that is put together from sixteen bytes has those bytes.
proof fn lemma_joined(
    id: u128,
    b0: u8,
    b1: u8,
    b2: u8,
    b3: u8,
    b4: u8,
    b5: u8,
    b6: u8,
    b7: u8,
    b8: u8,
    b9: u8,
    b10: u8,
    b11: u8,
    b12: u8,
    b13: u8,
    b14: u8,
    b15: u8,
)
    by (bit_vector)
    requires
        id == (b0 as u128) << 120 | (b1 as u128) << 112 | (b2 as u128) << 104 | (b3 as u128) << 96
            | (b4 as u128) << 88 | (b5 as u128) << 80 | (b6 as u128) << 72 | (b7 as u128) << 64
            | (b8 as u128) << 56 | (b9 as u128) << 48 | (b10 as u128) << 40 | (b11 as u128) << 32
            | (b12 as u128) << 24 | (b13 as u128) << 16 | (b14 as u128) << 8 | b15 as u128,
    ensures
        (id >> 120) & 0xff == b0,
        (id >> 112) & 0xff == b1,
        (id >> 104) & 0xff == b2,
        (id >> 96) & 0xff == b3,
        (id >> 88) & 0xff == b4,
        (id >> 80) & 0xff == b5,
        (id >> 72) & 0xff == b6,
        (id >> 64) & 0xff == b7,
        (id >> 56) & 0xff == b8,
        (id >> 48) & 0xff == b9,
        (id >> 40) & 0xff == b10,
        (id >> 32) & 0xff == b11,
        (id >> 24) & 0xff == b12,
        (id >> 16) & 0xff == b13,
        (id >> 8) & 0xff == b14,
        (id >> 0) & 0xff == b15,
{
}

} // verus!
