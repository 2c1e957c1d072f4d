//! Salted SHA-256 digests and their standard base64 text.

use vstd::prelude::*;
use vstd::utf8::encode_utf8;
use base64::Engine;
use sha2::Digest;

verus! {

/// The SHA-256 digest of `data`, as the `sha2` crate computes it.
pub uninterp spec fn sha256(data: Seq<u8>) -> Seq<u8>;

/// The standard-alphabet, padded base64 text of `data`, as the `base64` crate
/// writes it.
pub uninterp spec fn base64_standard(data: Seq<u8>) -> Seq<char>;

/// What standard-alphabet, padded base64 decoding of `text` gives, as the
/// `base64` crate computes it; `None` where it rejects the text.
pub uninterp spec fn base64_standard_decode(text: Seq<u8>) -> Option<Seq<u8>>;

/// The byte `$` that separates a key from its salt.
pub const SEPARATOR: u8 = 36u8;

/// The bytes that are digested for `key` and `salt`: the UTF-8 of the key,
/// the separator `$`, then the UTF-8 of the salt.
pub open spec fn salted_input(key: Seq<char>, salt: Seq<char>) -> Seq<u8> {
    encode_utf8(key) + seq![SEPARATOR] + encode_utf8(salt)
}

/// The digest that `hash` writes for `key` and `salt`.
pub open spec fn salted_digest(key: Seq<char>, salt: Seq<char>) -> Seq<u8> {
    sha256(salted_input(key, salt))
}

/// The text under which a salted key is stored: base64 of its digest.
pub open spec fn salted_text(key: Seq<char>, salt: Seq<char>) -> Seq<char> {
    base64_standard(salted_digest(key, salt))
}

/// Calls `sha2::Sha256::digest`. Claimed: the result is the named SHA-256
/// digest of the input, and it is 32 bytes long (the output size of SHA-256).
#[verifier::external_body]
fn sha256_digest(data: &[u8]) -> (res: Vec<u8>)
    ensures
        res@ == sha256(data@),
        res@.len() == 32,
{
    sha2::Sha256::digest(data).to_vec()
}

/// Calls `Engine::encode` on `base64::engine::general_purpose::STANDARD`.
/// Claimed: the result is the named base64 text of the input, and it is
/// 4 characters for each started group of 3 bytes (padding is on). The crate
/// panics when that length overflows `usize`, which the bound here excludes.
#[verifier::external_body]
fn base64_encode(data: &[u8]) -> (res: String)
    requires
        data@.len() <= usize::MAX / 2,
    ensures
        res@ == base64_standard(data@),
        res@.len() == 4 * ((data@.len() + 2) / 3),
{
    base64::engine::general_purpose::STANDARD.encode(data)
}

#[verifier::external_type_specification]
#[verifier::external_body]
pub struct ExDecodeError(base64::DecodeError);

/// Calls `Engine::decode` on `base64::engine::general_purpose::STANDARD`.
/// Claimed: it succeeds exactly where the named decoding is defined, and then
/// gives those bytes.
#[verifier::external_body]
pub(crate) fn base64_decode(text: &[u8]) -> (res: Result<Vec<u8>, base64::DecodeError>)
    ensures
        match res {
            Ok(bytes) => base64_standard_decode(text@) == Some(bytes@),
            Err(_) => base64_standard_decode(text@) is None,
        },
{
    base64::engine::general_purpose::STANDARD.decode(text)
}

/// Writes into `output` the SHA-256 digest of `key`, a `$` and `salt`.
pub fn hash(key: &str, salt: &str, output: &mut [u8])
    requires
        old(output)@.len() == 32,
    ensures
        final(output)@ == salted_digest(key@, salt@),
{
    let mut input: Vec<u8> = Vec::new();
    let key_bytes = key.as_bytes();
    let salt_bytes = salt.as_bytes();
    let mut i: usize = 0;
    while i < key_bytes.len()
        invariant
            i <= key_bytes@.len(),
            input@ == key_bytes@.take(i as int),
        decreases key_bytes@.len() - i,
    {
        input.push(key_bytes[i]);
        i = i + 1;
        assert(input@ =~= key_bytes@.take(i as int));
    }
    input.push(SEPARATOR);
    let ghost prefix = input@;
    let mut j: usize = 0;
    while j < salt_bytes.len()
        invariant
            j <= salt_bytes@.len(),
            input@ == prefix + salt_bytes@.take(j as int),
        decreases salt_bytes@.len() - j,
    {
        input.push(salt_bytes[j]);
        j = j + 1;
        assert(input@ =~= prefix + salt_bytes@.take(j as int));
    }
    assert(key_bytes@.take(key_bytes@.len() as int) =~= key_bytes@);
    assert(salt_bytes@.take(salt_bytes@.len() as int) =~= salt_bytes@);
    assert(input@ =~= salted_input(key@, salt@));
    let digest = sha256_digest(input.as_slice());
    let mut k: usize = 0;
    while k < 32
        invariant
            k <= 32,
            digest@.len() == 32,
            output@.len() == 32,
            forall|m: int| 0 <= m < k ==> output@[m] == digest@[m],
        decreases 32 - k,
    {
        output[k] = digest[k];
        k = k + 1;
    }
    assert(output@ =~= digest@);
}

/// The stored text for `key` under `salt`: the base64 of `hash(key, salt)`.
pub fn salted_hash_text(key: &str, salt: &str) -> (res: String)
    ensures
        res@ == salted_text(key@, salt@),
        res@.len() == 44,
{
    let mut digest: [u8; 32] = [0u8; 32];
    hash(key, salt, &mut digest);
    base64_encode(&digest)
}

} // verus!
