//! Key holder: one immutable Ed25519 verification key, created from a
//! hex-encoded configuration value at startup and shared read-only by every
//! verification for the lifetime of the process.
//!
//! `verify` checks a signature over the exact bytes of the timestamp text
//! followed by the request body, with no separator and no re-encoding.

use vstd::prelude::*;

verus! {

use vstd::string::StringSliceAdditionalSpecFns;
use vstd::string::StrSliceExecFns;
use crate::hex::hex_decodable;
use crate::hex::hex_decode;
use crate::hex::parse_hex;

/// Failure of key handling or of signature verification. The variants carry
/// no diagnostic detail, so a caller cannot be used as an oracle for why a
/// signature was refused.
#[derive(Clone, Copy, Debug, PartialEq, Eq, Structural)]
pub enum Error {
    /// The startup key material was not valid hexadecimal text for a key of
    /// the Ed25519 public-key length.
    KeyFormat,
    /// The signature header was not valid hexadecimal text.
    SignatureFormat,
    /// The cryptographic check failed.
    Verification,
}

impl Error {
    /// The HTTP status for the failure: malformed input maps to 400, a
    /// failed cryptographic check to 401.
    pub open spec fn spec_http_status(&self) -> u16 {
        match self {
            Error::KeyFormat => 400,
            Error::SignatureFormat => 400,
            Error::Verification => 401,
        }
    }

    /// The HTTP status for the failure.
    pub fn http_status(&self) -> (s: u16)
        ensures
            s == self.spec_http_status(),
    {
        match self {
            Error::KeyFormat => 400,
            Error::SignatureFormat => 400,
            Error::Verification => 401,
        }
    }
}

/// Whether `sig` is a valid Ed25519 signature by the public key `key` over
/// `msg`: the relation that Ed25519 verification decides. It is a function
/// of the three byte sequences alone.
pub uninterp spec fn ed25519_verifies(key: Seq<u8>, msg: Seq<u8>, sig: Seq<u8>) -> bool;

/// Relies on `ring::signature::UnparsedPublicKey::verify` with the
/// `ED25519` algorithm: a deterministic check, of the key, message and
/// signature bytes alone, that returns `Ok` exactly on a valid signature.
#[verifier::external_body]
fn ed25519_verify(key: &Vec<u8>, msg: &Vec<u8>, sig: &Vec<u8>) -> (r: bool)
    ensures
        r == ed25519_verifies(key@, msg@, sig@),
{
    let key = ring::signature::UnparsedPublicKey::new(&ring::signature::ED25519, key.as_slice());
    key.verify(msg.as_slice(), sig.as_slice()).is_ok()
}

/// The number of bytes in an Ed25519 public key.
pub const PUBLIC_KEY_LENGTH: usize = 32;

/// The key holder: owns the one Ed25519 verification key of the process.
/// It is never mutated after construction, so any number of concurrent
/// verifications may read it without synchronization.
#[derive(Clone)]
pub struct Application {
    public_key: Vec<u8>,
}

impl Application {
    /// The bytes of the verification key.
    pub closed spec fn spec_key(&self) -> Seq<u8> {
        self.public_key@
    }

    /// A key holder is well formed when its key has the Ed25519
    /// public-key length.
    pub open spec fn wf(&self) -> bool {
        self.spec_key().len() == PUBLIC_KEY_LENGTH
    }

    /// Decodes hex-encoded key material and binds it to the Ed25519
    /// algorithm. Text that is not valid hexadecimal, or that decodes to a
    /// key of the wrong length, is rejected as `KeyFormat` rather than
    /// deferred to the cryptographic primitive.
    pub fn from_public_key(public_key: &str) -> (r: Result<Self, Error>)
        ensures
            match r {
                Ok(app) => {
                    &&& hex_decodable(public_key.spec_bytes())
                    &&& hex_decode(public_key.spec_bytes()).len() == PUBLIC_KEY_LENGTH
                    &&& app.spec_key() == hex_decode(public_key.spec_bytes())
                    &&& app.wf()
                },
                Err(e) => {
                    &&& e == Error::KeyFormat
                    &&& !(hex_decodable(public_key.spec_bytes()) && hex_decode(
                        public_key.spec_bytes(),
                    ).len() == PUBLIC_KEY_LENGTH)
                },
            },
    {
        let bytes = match parse_hex(public_key) {
            Some(v) => v,
            None => {
                return Err(Error::KeyFormat);
            },
        };
        if bytes.len() != PUBLIC_KEY_LENGTH {
            return Err(Error::KeyFormat);
        }
        Ok(Application { public_key: bytes })
    }

    /// Verifies a signature over the message built as the timestamp text's
    /// bytes followed immediately by the body bytes. Returns
    /// `SignatureFormat` when the signature header is not hexadecimal,
    /// `Verification` on any cryptographic mismatch, and success only on an
    /// exact match.
    pub fn verify(&self, body: &[u8], timestamp: &str, signature: &str) -> (r: Result<
        (),
        Error,
    >)
        ensures
            r is Ok <==> hex_decodable(signature.spec_bytes()) && ed25519_verifies(
                self.spec_key(),
                timestamp.spec_bytes() + body@,
                hex_decode(signature.spec_bytes()),
            ),
            !hex_decodable(signature.spec_bytes()) ==> r == Err::<(), Error>(
                Error::SignatureFormat,
            ),
            hex_decodable(signature.spec_bytes()) && !ed25519_verifies(
                self.spec_key(),
                timestamp.spec_bytes() + body@,
                hex_decode(signature.spec_bytes()),
            ) ==> r == Err::<(), Error>(Error::Verification),
    {
        let sig = match parse_hex(signature) {
            Some(v) => v,
            None => {
                return Err(Error::SignatureFormat);
            },
        };
        let mut message = timestamp.as_bytes_vec();
        message.extend_from_slice(body);
        proof {
            assert(message@ =~= timestamp.spec_bytes() + body@);
        }
        if ed25519_verify(&self.public_key, &message, &sig) {
            Ok(())
        } else {
            Err(Error::Verification)
        }
    }
}

} // verus!
