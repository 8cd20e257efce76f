//! Reversible byte-pair swizzle codec.
//!
//! `swizzle` permutes the bits of each consecutive byte pair through two
//! data-dependent rotations; `unswizzle` inverts it. An input of odd length
//! is first padded with a copy of its first byte, so the output of `swizzle`
//! is one byte longer than an odd-length input; the padding byte is not
//! stripped on decode, so only even-length payloads round-trip exactly.

use vstd::prelude::*;

verus! {

/// Right rotation of a byte by `n` bit positions.
pub open spec fn rotr8(x: u8, n: u8) -> u8
    recommends
        n < 8,
{
    if n == 0 {
        x
    } else {
        (x >> n) | ((x << ((8 - n) as u8)) as u8)
    }
}

/// Left rotation of a byte by `n` bit positions.
pub open spec fn rotl8(x: u8, n: u8) -> u8
    recommends
        n < 8,
{
    if n == 0 {
        x
    } else {
        ((x << n) as u8) | (x >> ((8 - n) as u8))
    }
}

/// A left rotation undoes a right rotation by the same amount.
pub proof fn lemma_rotl_rotr(x: u8, n: u8)
    requires
        n < 8,
    ensures
        rotl8(rotr8(x, n), n) == x,
{
    assert(rotl8(rotr8(x, n), n) == x) by (bit_vector)
        requires
            n < 8,
    ;
}

/// One encoded pair: the second byte is rotated right by the low bits of the
/// first, then the first is rotated right by the low bits of the new second.
pub open spec fn swizzle_pair(x: u8, y: u8) -> (u8, u8) {
    let y2 = rotr8(y, x % 8);
    let x2 = rotr8(x, y2 % 8);
    (x2, y2)
}

/// One decoded pair: the rotations of `swizzle_pair`, unwound in reverse.
pub open spec fn unswizzle_pair(x: u8, y: u8) -> (u8, u8) {
    let x2 = rotl8(x, y % 8);
    let y2 = rotl8(y, x2 % 8);
    (x2, y2)
}

/// Decoding a pair recovers the pair that was encoded.
pub proof fn lemma_pair_round_trip(x: u8, y: u8)
    ensures
        unswizzle_pair(swizzle_pair(x, y).0, swizzle_pair(x, y).1) == (x, y),
{
    let y2 = rotr8(y, x % 8);
    let x2 = rotr8(x, y2 % 8);
    lemma_rotl_rotr(x, y2 % 8);
    assert(unswizzle_pair(x2, y2).0 == x);
    lemma_rotl_rotr(y, x % 8);
    assert(unswizzle_pair(x2, y2).1 == y);
}

/// An odd-length sequence gains a copy of its first byte; an even-length one
/// is unchanged.
pub open spec fn pad_even(s: Seq<u8>) -> Seq<u8> {
    if s.len() % 2 == 1 {
        s.push(s[0])
    } else {
        s
    }
}

/// Pairwise encoding of a sequence; positions beyond the last full pair are
/// left as they are.
pub open spec fn swizzle_pairs(s: Seq<u8>) -> Seq<u8> {
    Seq::new(
        s.len(),
        |i: int|
            if i % 2 == 0 {
                if i + 1 < s.len() {
                    swizzle_pair(s[i], s[i + 1]).0
                } else {
                    s[i]
                }
            } else {
                swizzle_pair(s[i - 1], s[i]).1
            },
    )
}

/// Pairwise decoding of a sequence; positions beyond the last full pair are
/// left as they are.
pub open spec fn unswizzle_pairs(s: Seq<u8>) -> Seq<u8> {
    Seq::new(
        s.len(),
        |i: int|
            if i % 2 == 0 {
                if i + 1 < s.len() {
                    unswizzle_pair(s[i], s[i + 1]).0
                } else {
                    s[i]
                }
            } else {
                unswizzle_pair(s[i - 1], s[i]).1
            },
    )
}

/// What `swizzle` returns: the input, padded to even length, encoded pair by
/// pair.
pub open spec fn swizzle_spec(s: Seq<u8>) -> Seq<u8> {
    swizzle_pairs(pad_even(s))
}

/// What `unswizzle` returns: the input, padded to even length, decoded pair
/// by pair.
pub open spec fn unswizzle_spec(s: Seq<u8>) -> Seq<u8> {
    unswizzle_pairs(pad_even(s))
}

/// Decoding an encoded sequence of even length recovers it exactly.
pub proof fn lemma_unswizzle_swizzle(b: Seq<u8>)
    requires
        b.len() % 2 == 0,
    ensures
        unswizzle_spec(swizzle_spec(b)) == b,
{
    let enc = swizzle_spec(b);
    assert(enc == swizzle_pairs(b));
    assert forall|i: int| 0 <= i < b.len() implies unswizzle_pairs(enc)[i] == b[i] by {
        if i % 2 == 0 {
            lemma_pair_round_trip(b[i], b[i + 1]);
        } else {
            lemma_pair_round_trip(b[i - 1], b[i]);
        }
    }
    assert(unswizzle_spec(enc) =~= b);
}

/// Right-rotate a byte by `n < 8` bit positions.
fn rotr(x: u8, n: u8) -> (r: u8)
    requires
        n < 8,
    ensures
        r == rotr8(x, n),
{
    if n == 0 {
        x
    } else {
        (x >> n) | (x << (8 - n))
    }
}

/// Left-rotate a byte by `n < 8` bit positions.
fn rotl(x: u8, n: u8) -> (r: u8)
    requires
        n < 8,
    ensures
        r == rotl8(x, n),
{
    if n == 0 {
        x
    } else {
        (x << n) | (x >> (8 - n))
    }
}

/// Encode a byte sequence with the pairwise swizzle permutation.
///
/// An odd-length input is padded with a copy of its first byte, so the
/// result of an odd-length input is one byte longer than the input.
pub fn swizzle(input: &[u8]) -> (r: Vec<u8>)
    ensures
        r@ == swizzle_spec(input@),
        r@.len() == input@.len() + input@.len() % 2,
{
    let mut output = vstd::slice::slice_to_vec(input);
    if input.len() % 2 == 1 {
        let first = output[0];
        output.push(first);
    }
    let ghost padded = pad_even(input@);
    assert(output@ == padded);
    let half = output.len() / 2;
    let mut i: usize = 0;
    while i < half
        invariant
            half == padded.len() / 2,
            2 * half == padded.len(),
            2 * half <= usize::MAX,
            output@.len() == padded.len(),
            padded.len() % 2 == 0,
            i <= half,
            forall|j: int| 0 <= j < 2 * i ==> output@[j] == swizzle_pairs(padded)[j],
            forall|j: int| 2 * i <= j < padded.len() ==> output@[j] == padded[j],
        decreases half - i,
    {
        let x = output[2 * i];
        let y = output[2 * i + 1];
        let n1 = x % 8;
        let y2 = rotr(y, n1);
        let n2 = y2 % 8;
        let x2 = rotr(x, n2);
        output[2 * i] = x2;
        output[2 * i + 1] = y2;
        assert(swizzle_pair(padded[2 * i as int], padded[2 * i as int + 1]) == (x2, y2));
        i = i + 1;
    }
    assert(output@ =~= swizzle_pairs(padded));
    output
}

/// Decode a byte sequence encoded by `swizzle`.
///
/// The padding byte that `swizzle` adds to an odd-length input is not
/// stripped, so only even-length payloads round-trip exactly; an odd-length
/// input to `unswizzle` itself is padded the same way before decoding.
pub fn unswizzle(input: &[u8]) -> (r: Vec<u8>)
    ensures
        r@ == unswizzle_spec(input@),
        r@.len() == input@.len() + input@.len() % 2,
{
    let mut output = vstd::slice::slice_to_vec(input);
    if input.len() % 2 == 1 {
        let first = output[0];
        output.push(first);
    }
    let ghost padded = pad_even(input@);
    assert(output@ == padded);
    let half = output.len() / 2;
    let mut i: usize = 0;
    while i < half
        invariant
            half == padded.len() / 2,
            2 * half == padded.len(),
            2 * half <= usize::MAX,
            output@.len() == padded.len(),
            padded.len() % 2 == 0,
            i <= half,
            forall|j: int| 0 <= j < 2 * i ==> output@[j] == unswizzle_pairs(padded)[j],
            forall|j: int| 2 * i <= j < padded.len() ==> output@[j] == padded[j],
        decreases half - i,
    {
        let x = output[2 * i];
        let y = output[2 * i + 1];
        let n1 = y % 8;
        let x2 = rotl(x, n1);
        let n2 = x2 % 8;
        let y2 = rotl(y, n2);
        output[2 * i] = x2;
        output[2 * i + 1] = y2;
        assert(unswizzle_pair(padded[2 * i as int], padded[2 * i as int + 1]) == (x2, y2));
        i = i + 1;
    }
    assert(output@ =~= unswizzle_pairs(padded));
    output
}

/// Name for the text that base64 standard encoding gives a byte sequence.
pub uninterp spec fn b64_of(s: Seq<u8>) -> Seq<char>;

/// Name for what base64 standard decoding gives a text: the bytes, or
/// nothing when the text is not valid base64.
pub uninterp spec fn b64_decode_of(s: Seq<char>) -> Option<Seq<u8>>;

#[verifier::external_type_specification]
#[verifier::external_body]
pub struct ExDecodeError(base64::DecodeError);

/// Relies on base64's `Engine::encode` with the standard engine: the text
/// depends on the bytes alone, and `Engine::decode` of that text with the
/// same engine gives the bytes back (the RFC 4648 round trip).
#[verifier::external_body]
fn b64_encode(input: &[u8]) -> (r: String)
    requires
        input@.len() <= usize::MAX / 4,
    ensures
        r@ == b64_of(input@),
        b64_decode_of(r@) == Some(input@),
{
    base64::Engine::encode(&base64::engine::general_purpose::STANDARD, input)
}

/// Relies on base64's `Engine::decode` with the standard engine: it returns
/// the decoded bytes exactly when the input is valid base64 with canonical
/// padding, and an error otherwise, never panicking.
#[verifier::external_body]
fn b64_decode(input: &str) -> (r: Result<Vec<u8>, base64::DecodeError>)
    ensures
        match r {
            Ok(v) => b64_decode_of(input@) == Some(v@),
            Err(_) => b64_decode_of(input@) is None,
        },
{
    base64::Engine::decode(&base64::engine::general_purpose::STANDARD, input)
}

/// The input was not valid base64 text.
#[derive(Clone, Copy, Debug, PartialEq, Eq, Structural)]
pub struct CodecError;

/// Encode a byte sequence with the swizzle permutation, then render the
/// result as base64 text.
///
/// As with `swizzle`, an odd-length input is padded with a copy of its first
/// byte before encoding, so its decoded form is one byte longer than the
/// input.
pub fn base64_swizzle(input: &[u8]) -> (r: String)
    requires
        input@.len() < usize::MAX / 4,
    ensures
        r@ == b64_of(swizzle_spec(input@)),
        b64_decode_of(r@) == Some(swizzle_spec(input@)),
{
    let encoded = swizzle(input);
    b64_encode(encoded.as_slice())
}

/// Decode base64 text, then undo the swizzle permutation.
///
/// Fails with `CodecError` exactly when the text is not valid base64.
pub fn base64_unswizzle(input: &str) -> (r: Result<Vec<u8>, CodecError>)
    ensures
        r is Ok <==> b64_decode_of(input@) is Some,
        r is Ok ==> r->Ok_0@ == unswizzle_spec(b64_decode_of(input@)->Some_0),
{
    match b64_decode(input) {
        Ok(v) => Ok(unswizzle(v.as_slice())),
        Err(_) => Err(CodecError),
    }
}

/// Round trip of the textual codec: when base64 decoding inverts the
/// encoding of a swizzled even-length payload — which the encoder
/// guarantees of its own output — unswizzling the decoded bytes recovers
/// the payload.
pub proof fn lemma_base64_swizzle_round_trip(s: Seq<u8>, decoded: Seq<u8>)
    requires
        s.len() % 2 == 0,
        b64_decode_of(b64_of(swizzle_spec(s))) == Some(decoded),
        b64_decode_of(b64_of(swizzle_spec(s))) == Some(swizzle_spec(s)),
    ensures
        unswizzle_spec(decoded) == s,
{
    assert(decoded == swizzle_spec(s));
    lemma_unswizzle_swizzle(s);
}

} // verus!
