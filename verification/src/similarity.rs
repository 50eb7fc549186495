use vstd::prelude::*;
use crate::error::VectorError;

verus! {

/// The four bytes of a 32-bit word, least significant first.
pub open spec fn word_bytes(x: u32) -> Seq<u8> {
    seq![
        (x & 0xff) as u8,
        ((x >> 8) & 0xff) as u8,
        ((x >> 16) & 0xff) as u8,
        ((x >> 24) & 0xff) as u8,
    ]
}

/// The 32-bit word whose bytes, least significant first, are `b0` to `b3`.
pub open spec fn word_of(b0: u8, b1: u8, b2: u8, b3: u8) -> u32 {
    (b0 as u32) | ((b1 as u32) << 8) | ((b2 as u32) << 16) | ((b3 as u32) << 24)
}

/// The stored form of a vector: component `i` occupies bytes `4 * i` to
/// `4 * i + 3`, least significant byte first. A component is the IEEE-754
/// single-precision bit pattern of the number it stands for.
pub open spec fn encoded(v: Seq<u32>) -> Seq<u8> {
    Seq::new(4 * v.len(), |j: int| word_bytes(v[j / 4])[j % 4])
}

/// The vector that a whole number of four-byte groups stands for.
pub open spec fn decoded(bytes: Seq<u8>) -> Seq<u32> {
    Seq::new(
        bytes.len() / 4,
        |i: int| word_of(bytes[4 * i], bytes[4 * i + 1], bytes[4 * i + 2], bytes[4 * i + 3]),
    )
}

/// The text of the error for bytes that are no whole number of components.
pub open spec fn ragged_length_message() -> Seq<char> {
    "Byte length must be multiple of 4"@
}

proof fn lemma_word_round_trip(x: u32)
    ensures
        word_of(
            (x & 0xff) as u8,
            ((x >> 8) & 0xff) as u8,
            ((x >> 16) & 0xff) as u8,
            ((x >> 24) & 0xff) as u8,
        ) == x,
{
    assert(((x & 0xff) as u8 as u32) | ((((x >> 8) & 0xff) as u8 as u32) << 8) | ((((x >> 16)
        & 0xff) as u8 as u32) << 16) | ((((x >> 24) & 0xff) as u8 as u32) << 24) == x)
        by (bit_vector);
}

proof fn lemma_bytes_round_trip(b0: u8, b1: u8, b2: u8, b3: u8)
    ensures
        word_bytes(word_of(b0, b1, b2, b3)) =~= seq![b0, b1, b2, b3],
{
    let x = word_of(b0, b1, b2, b3);
    assert(x == (b0 as u32) | ((b1 as u32) << 8) | ((b2 as u32) << 16) | ((b3 as u32) << 24));
    assert(((b0 as u32) | ((b1 as u32) << 8) | ((b2 as u32) << 16) | ((b3 as u32) << 24)) & 0xff
        == b0 as u32) by (bit_vector);
    assert((((b0 as u32) | ((b1 as u32) << 8) | ((b2 as u32) << 16) | ((b3 as u32) << 24)) >> 8)
        & 0xff == b1 as u32) by (bit_vector);
    assert((((b0 as u32) | ((b1 as u32) << 8) | ((b2 as u32) << 16) | ((b3 as u32) << 24)) >> 16)
        & 0xff == b2 as u32) by (bit_vector);
    assert((((b0 as u32) | ((b1 as u32) << 8) | ((b2 as u32) << 16) | ((b3 as u32) << 24)) >> 24)
        & 0xff == b3 as u32) by (bit_vector);
}

/// Decoding what was encoded gives the vector back, bit for bit, whatever
/// its length and whatever its components.
pub proof fn lemma_decode_encode(v: Seq<u32>)
    ensures
        encoded(v).len() == 4 * v.len(),
        encoded(v).len() % 4 == 0,
        decoded(encoded(v)) == v,
{
    let e = encoded(v);
    assert forall|i: int| 0 <= i < v.len() implies #[trigger] decoded(e)[i] == v[i] by {
        lemma_word_round_trip(v[i]);
        assert(e[4 * i] == word_bytes(v[i])[0]);
        assert(e[4 * i + 1] == word_bytes(v[i])[1]);
        assert(e[4 * i + 2] == word_bytes(v[i])[2]);
        assert(e[4 * i + 3] == word_bytes(v[i])[3]);
    }
    assert(decoded(e) =~= v);
}

/// Encoding what was decoded gives the bytes back, for every byte string
/// whose length is a multiple of four.
pub proof fn lemma_encode_decode(bytes: Seq<u8>)
    requires
        bytes.len() % 4 == 0,
    ensures
        decoded(bytes).len() * 4 == bytes.len(),
        encoded(decoded(bytes)) == bytes,
{
    let d = decoded(bytes);
    assert forall|j: int| 0 <= j < bytes.len() implies #[trigger] encoded(d)[j] == bytes[j] by {
        let i = j / 4;
        lemma_bytes_round_trip(bytes[4 * i], bytes[4 * i + 1], bytes[4 * i + 2], bytes[4 * i + 3]);
    }
    assert(encoded(d) =~= bytes);
}

/// Writes a vector in its stored form.
pub fn serialize_vector(v: &[u32]) -> (bytes: Vec<u8>)
    ensures
        bytes@ == encoded(v@),
        bytes@.len() == 4 * v@.len(),
{
    let mut bytes: Vec<u8> = Vec::new();
    let mut i: usize = 0;
    while i < v.len()
        invariant
            0 <= i <= v@.len(),
            bytes@.len() == 4 * i,
            forall|j: int| 0 <= j < 4 * i ==> bytes@[j] == #[trigger] encoded(v@)[j],
        decreases v@.len() - i,
    {
        let x: u32 = v[i];
        bytes.push((x & 0xff) as u8);
        bytes.push(((x >> 8) & 0xff) as u8);
        bytes.push(((x >> 16) & 0xff) as u8);
        bytes.push(((x >> 24) & 0xff) as u8);
        i += 1;
    }
    assert(bytes@ =~= encoded(v@));
    bytes
}

/// Reads a vector from its stored form. Fails exactly when the bytes are no
/// whole number of four-byte components.
pub fn deserialize_vector(bytes: &[u8]) -> (r: Result<Vec<u32>, VectorError>)
    ensures
        bytes@.len() % 4 == 0 ==> r is Ok && r->Ok_0@ == decoded(bytes@),
        bytes@.len() % 4 != 0 ==> r is Err && r->Err_0 is InvalidVector
            && r->Err_0->InvalidVector_0@ == ragged_length_message(),
{
    if bytes.len() % 4 != 0 {
        return Err(VectorError::InvalidVector("Byte length must be multiple of 4".to_owned()));
    }
    let n: usize = bytes.len() / 4;
    let mut v: Vec<u32> = Vec::with_capacity(n);
    let mut i: usize = 0;
    while i < n
        invariant
            0 <= i <= n,
            n * 4 == bytes@.len(),
            bytes@.len() <= usize::MAX,
            v@.len() == i,
            forall|j: int| 0 <= j < i ==> v@[j] == #[trigger] decoded(bytes@)[j],
        decreases n - i,
    {
        let b0: u8 = bytes[4 * i];
        let b1: u8 = bytes[4 * i + 1];
        let b2: u8 = bytes[4 * i + 2];
        let b3: u8 = bytes[4 * i + 3];
        let x: u32 = (b0 as u32) | ((b1 as u32) << 8) | ((b2 as u32) << 16) | ((b3 as u32) << 24);
        v.push(x);
        i += 1;
    }
    assert(v@ =~= decoded(bytes@));
    Ok(v)
}

/// Whether a bit pattern stands for zero, of either sign.
pub open spec fn is_zero(bits: u32) -> bool {
    bits == 0 || bits == 0x8000_0000
}

/// The cosine similarity of two vectors, given the sums of the squares of
/// each and the quotient of their dot product by the product of their
/// norms: positive zero where either sum of squares is exactly zero,
/// whatever the quotient then is, and the quotient otherwise.
pub open spec fn guarded_quotient(norm_a_squared: u32, norm_b_squared: u32, quotient: u32) -> u32 {
    if is_zero(norm_a_squared) || is_zero(norm_b_squared) {
        0
    } else {
        quotient
    }
}

/// Tells whether a bit pattern stands for zero, of either sign.
pub fn bits_are_zero(bits: u32) -> (r: bool)
    ensures
        r == is_zero(bits),
{
    bits == 0 || bits == 0x8000_0000
}

/// Applies the rule for vectors without length to a similarity: a vector
/// whose sum of squares is exactly zero is similar to nothing.
pub fn cosine_from_parts(norm_a_squared: u32, norm_b_squared: u32, quotient: u32) -> (r: u32)
    ensures
        r == guarded_quotient(norm_a_squared, norm_b_squared, quotient),
{
    if bits_are_zero(norm_a_squared) || bits_are_zero(norm_b_squared) {
        0
    } else {
        quotient
    }
}

/// Tells whether a vector of this norm is divided by it when it is brought
/// to unit length: every vector but one whose norm is exactly zero, which
/// is left as it is.
pub fn norm_divides(norm: u32) -> (r: bool)
    ensures
        r == !is_zero(norm),
{
    !bits_are_zero(norm)
}

/// Tells whether two vectors can be compared: they can exactly when they
/// have the same number of components. The error carries the length of the
/// first as the expected one and that of the second as the actual one.
pub fn check_dimensions(expected: usize, actual: usize) -> (r: Result<(), VectorError>)
    ensures
        expected == actual ==> r is Ok,
        expected != actual ==> r == Err::<(), VectorError>(
            VectorError::DimensionMismatch { expected, actual },
        ),
{
    if expected != actual {
        return Err(VectorError::DimensionMismatch { expected, actual });
    }
    Ok(())
}

} // verus!
