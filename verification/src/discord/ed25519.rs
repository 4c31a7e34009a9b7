//! The Ed25519 public key and signature check of `ed25519_dalek`, kept apart
//! so that no other code can pair a key with bytes it did not come from.

use ed25519_dalek::Verifier;
use vstd::prelude::*;

verus! {

/// Whether the 32 bytes `key` are the compressed form of a point of the
/// Edwards curve, that is, whether `VerifyingKey::from_bytes` accepts them.
pub uninterp spec fn ed25519_key_decodes(key: Seq<u8>) -> bool;

/// Whether `signature` is a valid Ed25519 signature of `message` under the
/// public key `key`, as `VerifyingKey::verify` decides it.
pub uninterp spec fn ed25519_signature_valid(key: Seq<u8>, message: Seq<u8>, signature: Seq<u8>) -> bool;

/// The order of the group that Ed25519 works in, `2^252 +
/// 27742317777372353535851937790883648493`.
pub open spec fn group_order() -> nat {
    7237005577332262213973186563042994240857116359379907606001950938285454250989nat
}

/// The number that the bytes `b` stand for, least significant byte first.
pub open spec fn little_endian_value(b: Seq<u8>) -> nat
    decreases b.len(),
{
    if b.len() == 0 {
        0
    } else {
        b[0] as nat + 256 * little_endian_value(b.drop_first())
    }
}

/// The text of the error for 32 bytes that are not a curve point.
pub open spec fn key_error_text() -> Seq<char> {
    "signature error: Cannot decompress Edwards point"@
}

/// The text of the error for a signature that does not verify: a scalar half
/// (the last 32 bytes) that is not below the group order is reported as such;
/// any other failure is a failed verification equation.
pub open spec fn signature_error_text(signature: Seq<u8>) -> Seq<char> {
    if little_endian_value(signature.subrange(32, 64)) < group_order() {
        "signature error: Verification equation was not satisfied"@
    } else {
        "signature error: Cannot use scalar with high-bit set"@
    }
}

/// A decoded Ed25519 public key together with the 32 bytes it came from.
/// Only `decode_verifying_key` of this module builds one, so the key is always
/// the decompression of the bytes.
pub struct Ed25519Key {
    bytes: Vec<u8>,
    key: ed25519_dalek::VerifyingKey,
}

impl View for Ed25519Key {
    type V = Seq<u8>;

    closed spec fn view(&self) -> Seq<u8> {
        self.bytes@
    }
}

/// `VerifyingKey::from_bytes`: decompresses the 32 bytes of a public key.
/// Trusted to succeed exactly when `ed25519_key_decodes` holds of the bytes,
/// to keep the bytes next to the key it makes, and to fail with the text of
/// its only error (`PointDecompression`, shown through `SignatureError`'s
/// `Display`); which byte strings are curve points is left to the name.
#[verifier::external_body]
pub(crate) fn decode_verifying_key(bytes: &[u8]) -> (r: Result<Ed25519Key, String>)
    requires
        bytes@.len() == 32,
    ensures
        r is Ok <==> ed25519_key_decodes(bytes@),
        r matches Ok(k) ==> k@ == bytes@,
        r matches Err(t) ==> t@ == key_error_text(),
{
    let array: [u8; 32] = bytes.try_into().unwrap();
    match ed25519_dalek::VerifyingKey::from_bytes(&array) {
        Ok(key) => Ok(Ed25519Key { bytes: bytes.to_vec(), key }),
        Err(e) => Err(e.to_string()),
    }
}

/// `VerifyingKey::verify` (through `Signature::from_bytes`): checks a 64-byte
/// signature of `message` under `key`. Trusted to succeed exactly when
/// `ed25519_signature_valid` holds of the key's bytes, the message and the
/// signature, and to fail with the text of its error as `SignatureError`'s
/// `Display` shows it: `ScalarFormat` when the scalar half is not canonical
/// (checked first), else `Verify`. Which signatures are valid is left to the
/// name.
#[verifier::external_body]
pub(crate) fn verify_with_key(key: &Ed25519Key, message: &[u8], signature: &[u8]) -> (r: Result<(), String>)
    requires
        signature@.len() == 64,
    ensures
        r is Ok <==> ed25519_signature_valid(key@, message@, signature@),
        r matches Err(t) ==> t@ == signature_error_text(signature@),
{
    let array: [u8; 64] = signature.try_into().unwrap();
    match key.key.verify(message, &ed25519_dalek::Signature::from_bytes(&array)) {
        Ok(()) => Ok(()),
        Err(e) => Err(e.to_string()),
    }
}

} // verus!
