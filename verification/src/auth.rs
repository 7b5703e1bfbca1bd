//! Request interceptor: a linear per-request authentication pipeline.
//!
//! The decision core takes the two signature headers, the current time and
//! the fully buffered body, and either accepts the request or rejects it
//! with the HTTP status the response must carry. Header extraction, body
//! buffering and forwarding are transport work and stay outside this
//! module; the body bytes handed onward are exactly the bytes handed in.

use vstd::prelude::*;

verus! {

use vstd::string::StringSliceAdditionalSpecFns;
use crate::freshness::TOLERANCE_SECONDS;
use crate::freshness::is_fresh;
use crate::freshness::spec_is_fresh;
use crate::hex::hex_decodable;
use crate::hex::hex_decode;
use crate::security;
use crate::security::Application;
use crate::security::ed25519_verifies;

/// Failure of the per-request pipeline around signature verification.
#[derive(Clone, Copy, Debug, PartialEq, Eq, Structural)]
pub enum Error {
    /// A required signature header was absent.
    NoSignature,
    /// The claimed timestamp is either too old or too new.
    Timestamp,
    /// The security core failed: bad signature text or a cryptographic
    /// mismatch.
    DisintSecurity(security::Error),
}

impl Error {
    /// The HTTP status for the failure: an absent header maps to 401, a
    /// stale or future-dated timestamp to 400, and a security failure to
    /// that failure's own status.
    pub open spec fn spec_http_status(&self) -> u16 {
        match self {
            Error::NoSignature => 401,
            Error::Timestamp => 400,
            Error::DisintSecurity(e) => e.spec_http_status(),
        }
    }

    /// The HTTP status for the failure.
    pub fn http_status(&self) -> (s: u16)
        ensures
            s == self.spec_http_status(),
    {
        match self {
            Error::NoSignature => 401,
            Error::Timestamp => 400,
            Error::DisintSecurity(e) => e.http_status(),
        }
    }
}

impl From<security::Error> for Error {
    /// Wraps a security failure unchanged.
    fn from(v: security::Error) -> (r: Error) {
        Error::DisintSecurity(v)
    }
}

impl vstd::std_specs::convert::FromSpecImpl<security::Error> for Error {
    open spec fn obeys_from_spec() -> bool {
        true
    }

    open spec fn from_spec(v: security::Error) -> Error {
        Error::DisintSecurity(v)
    }
}

/// Why a request was turned away: either its timestamp header did not
/// parse as an unsigned integer, or an authentication failure.
#[derive(Clone, Copy, Debug, PartialEq, Eq, Structural)]
pub enum Rejection {
    /// The timestamp header was present but malformed.
    MalformedTimestamp,
    /// The pipeline failed with an authentication error.
    Auth(Error),
}

impl Rejection {
    /// The HTTP status of the error response: 400 for a malformed
    /// timestamp header, else the authentication error's status.
    pub open spec fn spec_http_status(&self) -> u16 {
        match self {
            Rejection::MalformedTimestamp => 400,
            Rejection::Auth(e) => e.spec_http_status(),
        }
    }

    /// The HTTP status of the error response.
    pub fn http_status(&self) -> (s: u16)
        ensures
            s == self.spec_http_status(),
    {
        match self {
            Rejection::MalformedTimestamp => 400,
            Rejection::Auth(e) => e.http_status(),
        }
    }
}

/// A byte that is an ASCII decimal digit.
pub open spec fn is_dec_digit(b: u8) -> bool {
    48 <= b && b <= 57
}

/// Nonempty text, given as its UTF-8 bytes, made of decimal digits only.
pub open spec fn all_dec_digits(s: Seq<u8>) -> bool {
    s.len() > 0 && forall|i: int| 0 <= i < s.len() ==> is_dec_digit(#[trigger] s[i])
}

/// The number denoted by decimal digit text, most significant digit first.
pub open spec fn dec_value(s: Seq<u8>) -> int
    decreases s.len(),
{
    if s.len() == 0 {
        0
    } else {
        dec_value(s.drop_last()) * 10 + (s.last() - 48)
    }
}

/// Text whose UTF-8 bytes parse as an unsigned 64-bit integer.
pub open spec fn parseable_u64(s: Seq<char>) -> bool {
    all_dec_digits(vstd::utf8::encode_utf8(s)) && dec_value(vstd::utf8::encode_utf8(s))
        <= u64::MAX
}

/// The number that decimal text denotes.
pub open spec fn parsed_u64(s: Seq<char>) -> u64
    recommends
        parseable_u64(s),
{
    dec_value(vstd::utf8::encode_utf8(s)) as u64
}

/// Text whose UTF-8 bytes parse as an unsigned 32-bit integer.
pub open spec fn parseable_u32(s: Seq<char>) -> bool {
    all_dec_digits(vstd::utf8::encode_utf8(s)) && dec_value(vstd::utf8::encode_utf8(s))
        <= u32::MAX
}

proof fn lemma_dec_value_nonneg(s: Seq<u8>)
    requires
        forall|i: int| 0 <= i < s.len() ==> is_dec_digit(#[trigger] s[i]),
    ensures
        dec_value(s) >= 0,
    decreases s.len(),
{
    if s.len() > 0 {
        lemma_dec_value_nonneg(s.drop_last());
    }
}

proof fn lemma_dec_value_prefix_le(s: Seq<u8>, i: int)
    requires
        forall|j: int| 0 <= j < s.len() ==> is_dec_digit(#[trigger] s[j]),
        0 <= i <= s.len(),
    ensures
        dec_value(s.take(i)) <= dec_value(s),
    decreases s.len() - i,
{
    if i == s.len() {
        assert(s.take(i) =~= s);
    } else {
        assert(s.take(i + 1).drop_last() =~= s.take(i));
        assert(s.take(i + 1).last() == s[i]);
        lemma_dec_value_nonneg(s.take(i));
        lemma_dec_value_prefix_le(s, i + 1);
    }
}

/// Parses decimal digit text as an unsigned integer. Returns `None`, and
/// never panics, when the text is empty, has a character that is not a
/// decimal digit, or denotes a number above `u64::MAX`.
pub fn parse_timestamp(s: &str) -> (r: Option<u64>)
    ensures
        match r {
            Some(v) => all_dec_digits(s.spec_bytes()) && v == dec_value(s.spec_bytes()),
            None => !(all_dec_digits(s.spec_bytes()) && dec_value(s.spec_bytes()) <= u64::MAX),
        },
{
    let b = s.as_bytes();
    if b.len() == 0 {
        return None;
    }
    let mut acc: u64 = 0;
    let mut i: usize = 0;
    while i < b.len()
        invariant
            b@ == s.spec_bytes(),
            b@.len() > 0,
            i <= b@.len(),
            forall|j: int| 0 <= j < i ==> is_dec_digit(#[trigger] b@[j]),
            acc == dec_value(b@.take(i as int)),
        decreases b@.len() - i,
    {
        let d = b[i];
        if d < 48 || d > 57 {
            return None;
        }
        let dv = (d - 48) as u64;
        proof {
            assert(b@.take(i + 1).drop_last() =~= b@.take(i as int));
            assert(b@.take(i + 1).last() == b@[i as int]);
        }
        if acc > (u64::MAX - dv) / 10 {
            proof {
                if all_dec_digits(b@) {
                    lemma_dec_value_prefix_le(b@, i + 1);
                }
            }
            return None;
        }
        acc = acc * 10 + dv;
        i = i + 1;
    }
    proof {
        assert(b@.take(b@.len() as int) =~= b@);
    }
    Some(acc)
}

/// The authentication interceptor: holds the key holder it checks each
/// request against.
#[derive(Clone)]
pub struct DiscordInteractionAuth {
    app: Application,
}

impl DiscordInteractionAuth {
    /// The key holder the interceptor verifies with.
    pub closed spec fn spec_app(&self) -> Application {
        self.app
    }

    /// The bytes of the verification key.
    pub open spec fn spec_key(&self) -> Seq<u8> {
        self.spec_app().spec_key()
    }

    /// Builds the interceptor from hex-encoded key material; text that
    /// does not decode to a key of the Ed25519 public-key length is
    /// rejected, so a malformed startup key stops the pipeline before any
    /// request is accepted.
    pub fn from_public_key(public_key: &str) -> (r: Result<Self, Error>)
        ensures
            match r {
                Ok(auth) => {
                    &&& hex_decodable(public_key.spec_bytes())
                    &&& hex_decode(public_key.spec_bytes()).len()
                        == security::PUBLIC_KEY_LENGTH
                    &&& auth.spec_key() == hex_decode(public_key.spec_bytes())
                },
                Err(e) => {
                    &&& e == Error::DisintSecurity(security::Error::KeyFormat)
                    &&& !(hex_decodable(public_key.spec_bytes()) && hex_decode(
                        public_key.spec_bytes(),
                    ).len() == security::PUBLIC_KEY_LENGTH)
                },
            },
    {
        let app = match Application::from_public_key(public_key) {
            Ok(app) => app,
            Err(e) => {
                return Err(Error::DisintSecurity(e));
            },
        };
        Ok(DiscordInteractionAuth { app })
    }

    /// The decision the pipeline owes for given headers, time and body.
    /// Worked through in order: a missing header, then a malformed
    /// timestamp header, then a stale or future-dated timestamp, then a
    /// non-hexadecimal signature header, and last the cryptographic check
    /// over the timestamp text's bytes followed by the body bytes.
    pub open spec fn spec_decision(
        &self,
        timestamp: Option<&str>,
        signature: Option<&str>,
        now: u64,
        body: Seq<u8>,
    ) -> Result<(), Rejection> {
        if timestamp is None || signature is None {
            Err(Rejection::Auth(Error::NoSignature))
        } else {
            let ts = timestamp->0.spec_bytes();
            let sg = signature->0.spec_bytes();
            if !(all_dec_digits(ts) && dec_value(ts) <= u64::MAX) {
                Err(Rejection::MalformedTimestamp)
            } else if !spec_is_fresh(now, dec_value(ts) as u64, TOLERANCE_SECONDS) {
                Err(Rejection::Auth(Error::Timestamp))
            } else if !hex_decodable(sg) {
                Err(
                    Rejection::Auth(
                        Error::DisintSecurity(security::Error::SignatureFormat),
                    ),
                )
            } else if ed25519_verifies(self.spec_key(), ts + body, hex_decode(sg)) {
                Ok(())
            } else {
                Err(
                    Rejection::Auth(Error::DisintSecurity(security::Error::Verification)),
                )
            }
        }
    }

    /// Runs the pipeline's decision steps on a fully buffered request:
    /// header presence, timestamp parse, freshness at time `now`, and
    /// signature verification over the timestamp text followed by the
    /// body. Accepts exactly when every step passes; the caller forwards
    /// the same body bytes on success and answers with the rejection's
    /// status on failure.
    pub fn authenticate(
        &self,
        timestamp: Option<&str>,
        signature: Option<&str>,
        now: u64,
        body: &[u8],
    ) -> (r: Result<(), Rejection>)
        ensures
            r == self.spec_decision(timestamp, signature, now, body@),
    {
        let (ts, sg) = match (timestamp, signature) {
            (Some(t), Some(s)) => (t, s),
            _ => {
                return Err(Rejection::Auth(Error::NoSignature));
            },
        };
        let claimed = match parse_timestamp(ts) {
            Some(v) => v,
            None => {
                return Err(Rejection::MalformedTimestamp);
            },
        };
        if !is_fresh(now, claimed, TOLERANCE_SECONDS) {
            return Err(Rejection::Auth(Error::Timestamp));
        }
        match self.app.verify(body, ts, sg) {
            Ok(()) => Ok(()),
            Err(e) => Err(Rejection::Auth(Error::DisintSecurity(e))),
        }
    }
}

/// Law: a request the pipeline accepts was fully checked. Whenever the
/// decision for present headers is to forward, the timestamp header is
/// decimal text whose value is fresh at `now`, the signature header is
/// hexadecimal text, and the decoded signature verifies under the
/// interceptor's key over exactly the timestamp text's bytes followed by
/// the body bytes.
pub proof fn lemma_accepted_request_is_verified(
    auth: DiscordInteractionAuth,
    timestamp: &str,
    signature: &str,
    now: u64,
    body: Seq<u8>,
)
    requires
        auth.spec_decision(Some(timestamp), Some(signature), now, body) is Ok,
    ensures
        all_dec_digits(timestamp.spec_bytes()),
        spec_is_fresh(now, dec_value(timestamp.spec_bytes()) as u64, TOLERANCE_SECONDS),
        hex_decodable(signature.spec_bytes()),
        ed25519_verifies(
            auth.spec_key(),
            timestamp.spec_bytes() + body,
            hex_decode(signature.spec_bytes()),
        ),
{
}

impl From<Application> for DiscordInteractionAuth {
    /// Wraps an already-built key holder.
    fn from(app: Application) -> (r: DiscordInteractionAuth) {
        DiscordInteractionAuth { app }
    }
}

impl vstd::std_specs::convert::FromSpecImpl<Application> for DiscordInteractionAuth {
    open spec fn obeys_from_spec() -> bool {
        true
    }

    closed spec fn from_spec(app: Application) -> DiscordInteractionAuth {
        DiscordInteractionAuth { app }
    }
}

/// Wrapping a key holder keeps it: the interceptor built by `From` checks
/// against exactly the key holder handed in.
pub proof fn lemma_from_application(app: Application)
    ensures
        <DiscordInteractionAuth as vstd::std_specs::convert::FromSpec<Application>>::from_spec(
            app,
        ).spec_app() == app,
{
}

} // verus!
