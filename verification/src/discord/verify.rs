//! Ed25519 checking of the signature that Discord puts on every interaction
//! request.

use vstd::prelude::*;
use vstd::string::*;
use vstd::utf8::*;

use crate::discord::ed25519::{
    decode_verifying_key, ed25519_key_decodes, ed25519_signature_valid, key_error_text,
    signature_error_text, verify_with_key,
};
use crate::text::{decimal, decimal_text};
use crate::text::{all_white_space, surrounding_white_space_is_ignored, trim_white_space, trimmed};

verus! {

#[verifier::external_type_specification]
#[verifier::external_body]
pub struct ExVerifyingKey(ed25519_dalek::VerifyingKey);

/// Why a hex string could not be decoded (the cases of `hex::FromHexError`).
#[derive(Debug, Clone, Copy, PartialEq, Eq, Structural)]
pub enum HexError {
    /// A byte that is not a hex digit, and its position.
    InvalidHexCharacter { c: char, index: usize },
    /// The string has an odd number of bytes.
    OddLength,
    /// The string does not fit the fixed-size output.
    InvalidStringLength,
}

/// The value of an ASCII hex digit, either case.
pub open spec fn hex_digit_value(b: u8) -> Option<u8> {
    if 0x30 <= b <= 0x39 {
        Some((b - 0x30) as u8)
    } else if 0x41 <= b <= 0x46 {
        Some((b - 0x41 + 10) as u8)
    } else if 0x61 <= b <= 0x66 {
        Some((b - 0x61 + 10) as u8)
    } else {
        None
    }
}

/// The position of the first byte at or after `i` that is not a hex digit.
pub open spec fn first_non_hex_from(b: Seq<u8>, i: nat) -> Option<nat>
    decreases b.len() - i,
{
    if i >= b.len() {
        None
    } else if hex_digit_value(b[i as int]) is None {
        Some(i)
    } else {
        first_non_hex_from(b, i + 1)
    }
}

/// What `hex::decode` gives for the bytes `b`: the odd-length error first,
/// then the first byte that is not a hex digit, else one byte per pair of
/// digits, the first digit of a pair being the high half.
pub open spec fn hex_decoded(b: Seq<u8>) -> Result<Seq<u8>, HexError> {
    if b.len() % 2 != 0 {
        Err(HexError::OddLength)
    } else {
        match first_non_hex_from(b, 0) {
            Some(i) => Err(HexError::InvalidHexCharacter { c: b[i as int] as char, index: i as usize }),
            None => Ok(
                Seq::new(
                    b.len() / 2,
                    |j: int|
                        (hex_digit_value(b[2 * j])->0 * 16 + hex_digit_value(b[2 * j + 1])->0) as u8,
                ),
            ),
        }
    }
}

/// `hex::decode`: decodes a string of hex digits, two per byte. Trusted to
/// give exactly `hex_decoded` of the input bytes, as its source does: the
/// odd-length error first, then the first byte that is not a hex digit with
/// its position, else the bytes; it never gives `InvalidStringLength`.
#[verifier::external_body]
fn decode_hex(data: &[u8]) -> (r: Result<Vec<u8>, HexError>)
    ensures
        match r {
            Ok(v) => hex_decoded(data@) == Ok::<Seq<u8>, HexError>(v@),
            Err(e) => hex_decoded(data@) == Err::<Seq<u8>, HexError>(e),
        },
{
    match hex::decode(data) {
        Ok(v) => Ok(v),
        Err(hex::FromHexError::InvalidHexCharacter { c, index }) => Err(
            HexError::InvalidHexCharacter { c, index },
        ),
        Err(hex::FromHexError::OddLength) => Err(HexError::OddLength),
        Err(hex::FromHexError::InvalidStringLength) => Err(HexError::InvalidStringLength),
    }
}

/// Why a request signature was rejected, without the library error values.
#[derive(Debug, Clone, Copy, PartialEq, Eq, Structural)]
pub enum Rejection {
    PublicKeyHex(HexError),
    SignatureHex(HexError),
    PublicKeyLength(usize),
    SignatureLength(usize),
    MalformedPublicKey,
    BadSignature,
}

/// Why a request signature was rejected.
#[derive(Debug)]
pub enum SignatureCheckError {
    /// The public key is not a hex string.
    PublicKeyHex(HexError),
    /// The signature is not a hex string.
    SignatureHex(HexError),
    /// The public key does not have 32 bytes; the length it has.
    PublicKeyLength(usize),
    /// The signature does not have 64 bytes; the length it has.
    SignatureLength(usize),
    /// The 32 bytes of the public key are not a point of the curve; the text
    /// of the Ed25519 error.
    MalformedPublicKey(String),
    /// The signature does not verify; the text of the Ed25519 error.
    BadSignature(String),
}

impl SignatureCheckError {
    pub open spec fn rejection(self) -> Rejection {
        match self {
            SignatureCheckError::PublicKeyHex(e) => Rejection::PublicKeyHex(e),
            SignatureCheckError::SignatureHex(e) => Rejection::SignatureHex(e),
            SignatureCheckError::PublicKeyLength(n) => Rejection::PublicKeyLength(n),
            SignatureCheckError::SignatureLength(n) => Rejection::SignatureLength(n),
            SignatureCheckError::MalformedPublicKey(_) => Rejection::MalformedPublicKey,
            SignatureCheckError::BadSignature(_) => Rejection::BadSignature,
        }
    }
}

/// The bytes that a hex field is decoded from: the field without surrounding
/// white space, in UTF-8.
pub open spec fn hex_field_bytes(field: Seq<char>) -> Seq<u8> {
    encode_utf8(trimmed(field))
}

/// The message that Discord signs: the timestamp header followed by the
/// request body, with no separator, in UTF-8.
pub open spec fn signed_message(timestamp: Seq<char>, body: Seq<char>) -> Seq<u8> {
    encode_utf8(timestamp + body)
}

/// The verdict on a request: `None` when it is accepted, else the first
/// reason, in the order the checks are made.
pub open spec fn signature_verdict(
    public_key_hex: Seq<char>,
    signature_hex: Seq<char>,
    timestamp: Seq<char>,
    body: Seq<char>,
) -> Option<Rejection> {
    match hex_decoded(hex_field_bytes(public_key_hex)) {
        Err(e) => Some(Rejection::PublicKeyHex(e)),
        Ok(key) => match hex_decoded(hex_field_bytes(signature_hex)) {
            Err(e) => Some(Rejection::SignatureHex(e)),
            Ok(sig) => if key.len() != 32 {
                Some(Rejection::PublicKeyLength(key.len() as usize))
            } else if sig.len() != 64 {
                Some(Rejection::SignatureLength(sig.len() as usize))
            } else if !ed25519_key_decodes(key) {
                Some(Rejection::MalformedPublicKey)
            } else if !ed25519_signature_valid(key, signed_message(timestamp, body), sig) {
                Some(Rejection::BadSignature)
            } else {
                None
            },
        },
    }
}

/// A request is accepted only when both hex fields decode, the key has 32
/// bytes and the signature 64, and the signature verifies, under that key,
/// the timestamp followed directly by the body.
pub proof fn accepted_only_when_signed(
    public_key_hex: Seq<char>,
    signature_hex: Seq<char>,
    timestamp: Seq<char>,
    body: Seq<char>,
)
    requires
        signature_verdict(public_key_hex, signature_hex, timestamp, body) is None,
    ensures
        exists|key: Seq<u8>, sig: Seq<u8>|
            {
                &&& hex_decoded(encode_utf8(trimmed(public_key_hex))) == Ok::<Seq<u8>, HexError>(key)
                &&& hex_decoded(encode_utf8(trimmed(signature_hex))) == Ok::<Seq<u8>, HexError>(sig)
                &&& key.len() == 32
                &&& sig.len() == 64
                &&& ed25519_key_decodes(key)
                &&& #[trigger] ed25519_signature_valid(key, encode_utf8(timestamp + body), sig)
            },
{
    let key = hex_decoded(hex_field_bytes(public_key_hex))->Ok_0;
    let sig = hex_decoded(hex_field_bytes(signature_hex))->Ok_0;
    assert(ed25519_signature_valid(key, encode_utf8(timestamp + body), sig));
}

/// A correctly signed request is accepted, whatever its body holds: when both
/// trimmed hex fields decode, the key is a 32-byte curve point, the signature
/// has 64 bytes and verifies, under the key, the UTF-8 of the timestamp
/// followed by the body, there is no reason to reject.
pub proof fn accepted_when_signed(
    public_key_hex: Seq<char>,
    signature_hex: Seq<char>,
    timestamp: Seq<char>,
    body: Seq<char>,
    key: Seq<u8>,
    sig: Seq<u8>,
)
    requires
        hex_decoded(encode_utf8(trimmed(public_key_hex))) == Ok::<Seq<u8>, HexError>(key),
        hex_decoded(encode_utf8(trimmed(signature_hex))) == Ok::<Seq<u8>, HexError>(sig),
        key.len() == 32,
        sig.len() == 64,
        ed25519_key_decodes(key),
        ed25519_signature_valid(key, encode_utf8(timestamp + body), sig),
    ensures
        signature_verdict(public_key_hex, signature_hex, timestamp, body) is None,
{
}

/// Each reason for rejection comes exactly from its own check, in order: a
/// key that is not hex, then a signature that is not hex, then a key that is
/// not 32 bytes long, a signature that is not 64 bytes long, a key that is
/// not a curve point, and last a signature that does not verify over the
/// timestamp followed by the body.
pub proof fn rejection_reasons(
    public_key_hex: Seq<char>,
    signature_hex: Seq<char>,
    timestamp: Seq<char>,
    body: Seq<char>,
)
    ensures
        ({
            let k = hex_decoded(encode_utf8(trimmed(public_key_hex)));
            let s = hex_decoded(encode_utf8(trimmed(signature_hex)));
            let v = signature_verdict(public_key_hex, signature_hex, timestamp, body);
            match k {
                Err(e) => v == Some(Rejection::PublicKeyHex(e)),
                Ok(key) => match s {
                    Err(e) => v == Some(Rejection::SignatureHex(e)),
                    Ok(sig) => {
                        &&& key.len() != 32 ==> v == Some(Rejection::PublicKeyLength(key.len() as usize))
                        &&& key.len() == 32 && sig.len() != 64 ==> v == Some(
                            Rejection::SignatureLength(sig.len() as usize),
                        )
                        &&& key.len() == 32 && sig.len() == 64 && !ed25519_key_decodes(key) ==> v
                            == Some(Rejection::MalformedPublicKey)
                        &&& key.len() == 32 && sig.len() == 64 && ed25519_key_decodes(key) ==> (v
                            == Some(Rejection::BadSignature) <==> !ed25519_signature_valid(
                            key,
                            encode_utf8(timestamp + body),
                            sig,
                        ))
                        &&& key.len() == 32 && sig.len() == 64 && ed25519_key_decodes(key) ==> (v
                            is None <==> ed25519_signature_valid(key, encode_utf8(timestamp + body), sig))
                    },
                },
            }
        }),
{
}

/// White space around the hex key and the hex signature does not change the
/// verdict.
pub proof fn white_space_around_hex_is_ignored(
    a: Seq<char>,
    public_key_hex: Seq<char>,
    b: Seq<char>,
    c: Seq<char>,
    signature_hex: Seq<char>,
    d: Seq<char>,
    timestamp: Seq<char>,
    body: Seq<char>,
)
    requires
        all_white_space(a),
        all_white_space(b),
        all_white_space(c),
        all_white_space(d),
    ensures
        signature_verdict(a + public_key_hex + b, c + signature_hex + d, timestamp, body)
            == signature_verdict(public_key_hex, signature_hex, timestamp, body),
{
    surrounding_white_space_is_ignored(a, public_key_hex, b);
    surrounding_white_space_is_ignored(c, signature_hex, d);
}

/// The Ed25519 error text carried by a rejection is the one the key check or
/// the signature check gives.
pub open spec fn error_text_fits(e: SignatureCheckError, signature_hex: Seq<char>) -> bool {
    match e {
        SignatureCheckError::MalformedPublicKey(t) => t@ == key_error_text(),
        SignatureCheckError::BadSignature(t) => t@ == signature_error_text(
            hex_decoded(hex_field_bytes(signature_hex))->Ok_0,
        ),
        _ => true,
    }
}

/// Checks the `X-Signature-Ed25519` header of a Discord request: the hex
/// signature must verify, under the application's hex public key, the
/// `X-Signature-Timestamp` header followed by the raw body. White space
/// around the two hex strings is ignored.
pub fn verify_signature(
    public_key_hex: &str,
    signature_hex: &str,
    timestamp: &str,
    body: &str,
) -> (r: Result<(), SignatureCheckError>)
    ensures
        match r {
            Ok(()) => signature_verdict(public_key_hex@, signature_hex@, timestamp@, body@) is None,
            Err(e) => signature_verdict(public_key_hex@, signature_hex@, timestamp@, body@)
                == Some(e.rejection()) && error_text_fits(e, signature_hex@),
        },
{
    let public_key_hex = trim_white_space(public_key_hex);
    let signature_hex = trim_white_space(signature_hex);
    let key_bytes = match decode_hex(public_key_hex.as_bytes()) {
        Ok(v) => v,
        Err(e) => return Err(SignatureCheckError::PublicKeyHex(e)),
    };
    let signature_bytes = match decode_hex(signature_hex.as_bytes()) {
        Ok(v) => v,
        Err(e) => return Err(SignatureCheckError::SignatureHex(e)),
    };
    if key_bytes.len() != 32 {
        return Err(SignatureCheckError::PublicKeyLength(key_bytes.len()));
    }
    if signature_bytes.len() != 64 {
        return Err(SignatureCheckError::SignatureLength(signature_bytes.len()));
    }
    let key = match decode_verifying_key(key_bytes.as_slice()) {
        Ok(k) => k,
        Err(e) => return Err(SignatureCheckError::MalformedPublicKey(e)),
    };
    let mut message = timestamp.to_owned();
    message.append(body);
    match verify_with_key(&key, message.as_str().as_bytes(), signature_bytes.as_slice()) {
        Ok(()) => Ok(()),
        Err(e) => Err(SignatureCheckError::BadSignature(e)),
    }
}


/// What `{:?}` writes for a character: the character between single quotes,
/// escaped as `char::escape_debug` escapes it.
pub uninterp spec fn char_debug_text(c: char) -> Seq<char>;

/// The text of a hex decoding error, as `hex::FromHexError` shows it.
pub open spec fn hex_error_text(e: HexError) -> Seq<char> {
    match e {
        HexError::InvalidHexCharacter { c, index } => "Invalid character "@ + char_debug_text(c)
            + " at position "@ + decimal(index as nat),
        HexError::OddLength => "Odd number of digits"@,
        HexError::InvalidStringLength => "Invalid string length"@,
    }
}

/// `hex::FromHexError`'s `Display`: trusted to write, for each case, the text
/// that `hex_error_text` gives (the number in decimal, the character as `{:?}`
/// writes it).
#[verifier::external_body]
fn hex_error_display(e: HexError) -> (r: String)
    ensures
        r@ == hex_error_text(e),
        e matches HexError::InvalidHexCharacter { c, index } ==> r@ == "Invalid character "@
            + char_debug_text(c) + " at position "@ + decimal(index as nat),
{
    match e {
        HexError::InvalidHexCharacter { c, index } => hex::FromHexError::InvalidHexCharacter { c, index }.to_string(),
        HexError::OddLength => hex::FromHexError::OddLength.to_string(),
        HexError::InvalidStringLength => hex::FromHexError::InvalidStringLength.to_string(),
    }
}

/// The text that reports a rejected request signature.
pub open spec fn rejection_message(e: SignatureCheckError) -> Seq<char> {
    match e {
        SignatureCheckError::PublicKeyHex(h) => "Failed to decode public key: "@ + hex_error_text(h),
        SignatureCheckError::SignatureHex(h) => "Failed to decode signature: "@ + hex_error_text(h),
        SignatureCheckError::PublicKeyLength(n) => "Invalid public key length: expected 32 bytes, got "@
            + decimal(n as nat),
        SignatureCheckError::SignatureLength(n) => "Invalid signature length: expected 64 bytes, got "@
            + decimal(n as nat),
        SignatureCheckError::MalformedPublicKey(t) => t@,
        SignatureCheckError::BadSignature(t) => "Signature verification failed: "@ + t@,
    }
}

impl SignatureCheckError {
    /// The text that reports the rejection.
    pub fn message(&self) -> (r: String)
        ensures
            r@ == rejection_message(*self),
    {
        match self {
            SignatureCheckError::PublicKeyHex(h) => {
                let mut m = "Failed to decode public key: ".to_owned();
                m.append(hex_error_display(*h).as_str());
                m
            },
            SignatureCheckError::SignatureHex(h) => {
                let mut m = "Failed to decode signature: ".to_owned();
                m.append(hex_error_display(*h).as_str());
                m
            },
            SignatureCheckError::PublicKeyLength(n) => {
                let mut m = "Invalid public key length: expected 32 bytes, got ".to_owned();
                m.append(decimal_text(*n as u64).as_str());
                m
            },
            SignatureCheckError::SignatureLength(n) => {
                let mut m = "Invalid signature length: expected 64 bytes, got ".to_owned();
                m.append(decimal_text(*n as u64).as_str());
                m
            },
            SignatureCheckError::MalformedPublicKey(t) => t.clone(),
            SignatureCheckError::BadSignature(t) => {
                let mut m = "Signature verification failed: ".to_owned();
                m.append(t.as_str());
                m
            },
        }
    }
}

} // verus!
