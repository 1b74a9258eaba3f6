//! Text encodings at the RPC boundary: base-58 for addresses, token
//! identifiers and raw transactions, and the hex-rendered content digest
//! that names a transaction.

use vstd::prelude::*;

verus! {

/// The base-58 alphabet: Bitcoin's, without `0`, `O`, `I` and `l`.
pub open spec fn is_base58_char(c: char) -> bool {
    ('1' <= c && c <= '9') || ('A' <= c && c <= 'H') || ('J' <= c && c <= 'N') || ('P' <= c && c
        <= 'Z') || ('a' <= c && c <= 'k') || ('m' <= c && c <= 'z')
}

/// Every character of the string is base-58.
pub open spec fn is_base58_seq(s: Seq<char>) -> bool {
    forall|i: int| 0 <= i < s.len() ==> is_base58_char(#[trigger] s[i])
}

/// The bytes a base-58 string decodes to. What they are takes pages to
/// state; the trusted item below pins only that they are a function of the
/// string alone.
pub uninterp spec fn base58_decoded(s: Seq<char>) -> Seq<u8>;

/// Relies on `bs58::decode` with `into_vec` (Bitcoin alphabet, no check):
/// it fails exactly when some character is outside the alphabet — the
/// output buffer a fresh `Vec` provides can never be too small — and the
/// decoded bytes depend on the input string alone, at most one byte per
/// input character.
#[verifier::external_body]
pub(crate) fn bs58_decode(s: &str) -> (r: Option<Vec<u8>>)
    ensures
        r is Some <==> is_base58_seq(s@),
        r matches Some(v) ==> v@ == base58_decoded(s@),
        r matches Some(v) ==> v@.len() <= s@.len(),
{
    match bs58::decode(s).into_vec() {
        Ok(v) => Some(v),
        Err(_) => None,
    }
}

/// A lowercase hexadecimal digit.
pub open spec fn is_lower_hex_digit(c: char) -> bool {
    ('0' <= c && c <= '9') || ('a' <= c && c <= 'f')
}

/// The hex-rendered content digest of a byte string. The digest function
/// itself is outside this core; the trusted item below pins only that it
/// is a function of the bytes alone.
pub uninterp spec fn blake3_hex(b: Seq<u8>) -> Seq<char>;

/// Relies on `blake3::hash` and `blake3::Hash::to_hex`: a 32-byte digest
/// of the input bytes alone, rendered as 64 lowercase hexadecimal digits.
#[verifier::external_body]
pub(crate) fn hash_hex(bytes: &Vec<u8>) -> (r: String)
    ensures
        r@ == blake3_hex(bytes@),
        r@.len() == 64,
        forall|i: int| 0 <= i < r@.len() ==> is_lower_hex_digit(#[trigger] r@[i]),
{
    blake3::hash(bytes.as_slice()).to_hex().as_str().to_string()
}

/// Hashing is deterministic: one canonical encoding always yields the one
/// hex digest, however often it is hashed. (That distinct inputs yield
/// distinct digests is a probabilistic property of the digest function,
/// not provable here.)
pub proof fn lemma_hash_deterministic(b1: Seq<u8>, b2: Seq<u8>)
    requires
        b1 == b2,
    ensures
        blake3_hex(b1) == blake3_hex(b2),
{
}

} // verus!
