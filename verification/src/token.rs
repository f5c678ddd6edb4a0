use vstd::prelude::*;

use crate::domain::{UserData, UserID};
use jsonwebtoken::{decode, encode, Algorithm, DecodingKey, EncodingKey, Header, Validation};
use jsonwebtoken::errors::ErrorKind;
use serde_json::Map as JsonMap;
use serde_json::Value as JsonValue;

verus! {

/// Seconds a freshly signed token stays valid: 48 hours.
pub const TOKEN_TTL_SECONDS: u64 = 60 * 60 * 24 * 2;

/// Name for the output of `jsonwebtoken::encode` under the pinned HS512
/// header: the compact token is a function of the secret and the claims
/// alone.
pub uninterp spec fn signed_token(secret: Seq<u8>, exp: u64, sub: Seq<char>) -> Seq<char>;

/// Why a token is rejected before the expiry check: its structure does not
/// parse, or it parses but its signature does not verify under the pinned
/// algorithm (a token signed under another algorithm counts as the latter).
pub ghost enum DecodeFailure {
    Malformed,
    BadSignature,
}

/// Name for the outcome of `jsonwebtoken::decode` under the pinned HS512
/// algorithm with its expiry check disabled: `Ok((exp, sub))` exactly when
/// the token parses, carries those claims, and its signature verifies under
/// the secret; otherwise the kind of rejection. With the clock out of the
/// picture the outcome is a function of the secret and the token alone.
pub uninterp spec fn hs512_decoded(secret: Seq<u8>, token: Seq<char>) -> Result<
    (u64, Seq<char>),
    DecodeFailure,
>;

/// Whether decoding under `secret` accepts `token` with exactly the claims
/// `(exp, sub)`.
pub open spec fn decoded_claims(secret: Seq<u8>, token: Seq<char>, exp: u64, sub: Seq<char>) -> bool {
    hs512_decoded(secret, token) == Ok::<(u64, Seq<char>), DecodeFailure>((exp, sub))
}

/// Whether decoding under `secret` rejects `token` on exactly this ground.
pub open spec fn decode_failed_as(secret: Seq<u8>, token: Seq<char>, kind: DecodeFailure) -> bool {
    hs512_decoded(secret, token) == Err::<(u64, Seq<char>), DecodeFailure>(kind)
}

/// Everything `sign` or `verify` can fail with.
#[derive(Clone, Copy, Debug, PartialEq, Eq)]
pub enum TokenError {
    /// The token could not be produced.
    EncodingError,
    /// The token's structure could not be parsed.
    MalformedToken,
    /// The signature does not verify under the pinned algorithm, or the
    /// token was signed under another algorithm.
    InvalidSignature,
    /// The token's expiry has been reached (`exp <= now`).
    ExpiredToken,
}

/// What decoding a token yields, before the expiry check.
pub enum DecodeOutcome {
    Malformed,
    BadSignature,
    Claims { exp: u64, sub: String },
}

/// Relies on `jsonwebtoken::encode`: serializes the claims `{exp, sub}` and
/// signs them with HMAC-SHA512 under the secret. With the key family and the
/// header algorithm both HMAC and the claims a string-keyed map, every step
/// of the encoding is infallible, so a token always comes back. The pinned
/// header makes it a function of secret and claims alone, and
/// `jsonwebtoken::decode` under the same secret and algorithm accepts it and
/// hands the same claims back.
#[verifier::external_body]
fn hs512_encode(secret: &Vec<u8>, exp: u64, sub: &String) -> (r: Result<String, ()>)
    ensures
        r is Ok,
        r matches Ok(t) ==> t@ == signed_token(secret@, exp, sub@) && decoded_claims(
            secret@,
            t@,
            exp,
            sub@,
        ),
{
    let mut claims = JsonMap::new();
    claims.insert("exp".to_string(), JsonValue::from(exp));
    claims.insert("sub".to_string(), JsonValue::from(sub.clone()));
    encode(
        &Header::new(Algorithm::HS512),
        &claims,
        &EncodingKey::from_secret(secret),
    )
        .map_err(|_| ())
}

/// Relies on `jsonwebtoken::decode`, restricted to the pinned HS512
/// algorithm, with its expiry check disabled so that the outcome is a
/// function of the secret and token alone. Signature and wrong-algorithm
/// failures are told apart from parse failures by the error kind.
#[verifier::external_body]
fn hs512_decode(secret: &Vec<u8>, token: &str) -> (r: DecodeOutcome)
    ensures
        r matches DecodeOutcome::Claims { exp, sub } ==> decoded_claims(secret@, token@, exp, sub@),
        hs512_decoded(secret@, token@) is Ok ==> r is Claims,
        r is Malformed ==> decode_failed_as(secret@, token@, DecodeFailure::Malformed),
        r is BadSignature ==> decode_failed_as(secret@, token@, DecodeFailure::BadSignature),
{
    let mut validation = Validation::new(Algorithm::HS512);
    validation.validate_exp = false;
    validation.required_spec_claims.clear();
    let decoded = decode::<JsonMap<String, JsonValue>>(token, &DecodingKey::from_secret(secret), &validation);
    let claims = match decoded {
        Ok(data) => data.claims,
        Err(e) => match e.kind() {
            ErrorKind::InvalidSignature | ErrorKind::InvalidAlgorithm => return DecodeOutcome::BadSignature,
            _ => return DecodeOutcome::Malformed,
        },
    };
    match (claims.get("exp").and_then(JsonValue::as_u64), claims.get("sub").and_then(JsonValue::as_str)) {
        (Some(exp), Some(sub)) => DecodeOutcome::Claims { exp, sub: sub.to_owned() },
        _ => DecodeOutcome::Malformed,
    }
}

/// When a token is accepted at time `now`: it parses, its signature verifies
/// under `secret`, and it is strictly unexpired (`exp > now`).
pub open spec fn verify_accepts(secret: Seq<u8>, token: Seq<char>, now: u64) -> bool {
    match hs512_decoded(secret, token) {
        Ok((exp, sub)) => exp > now,
        Err(_) => false,
    }
}

/// The identity an accepted token carries.
pub open spec fn accepted_identity(secret: Seq<u8>, token: Seq<char>) -> Seq<char> {
    match hs512_decoded(secret, token) {
        Ok((exp, sub)) => sub,
        Err(_) => Seq::empty(),
    }
}

/// Signs and verifies compact, expiring authentication tokens under one
/// fixed, pinned algorithm (HMAC-SHA512) and a process-wide secret, read
/// once at startup and never mutated.
pub struct TokenCodec {
    secret: Vec<u8>,
}

impl TokenCodec {
    pub closed spec fn spec_secret(&self) -> Seq<u8> {
        self.secret@
    }

    pub fn new(secret: Vec<u8>) -> (r: TokenCodec)
        ensures
            r.spec_secret() == secret@,
    {
        TokenCodec { secret }
    }

    /// Signs `user` into a token that expires exactly `TOKEN_TTL_SECONDS`
    /// after `now`, and that `verify` under the same secret accepts at any
    /// time strictly before that expiry. With the secret and the clock
    /// supplied as values, signing always succeeds.
    pub fn sign(&self, user: &UserData, now: u64) -> (r: Result<String, TokenError>)
        requires
            now + TOKEN_TTL_SECONDS <= u64::MAX,
        ensures
            r is Ok,
            r matches Ok(t) ==> {
                &&& t@ == signed_token(
                    self.spec_secret(),
                    (now + TOKEN_TTL_SECONDS) as u64,
                    user.user_id.0@,
                )
                &&& decoded_claims(
                    self.spec_secret(),
                    t@,
                    (now + TOKEN_TTL_SECONDS) as u64,
                    user.user_id.0@,
                )
                &&& forall|later: u64|
                    later < now + TOKEN_TTL_SECONDS ==> verify_accepts(
                        self.spec_secret(),
                        t@,
                        later,
                    )
            },
    {
        let exp = now + TOKEN_TTL_SECONDS;
        match hs512_encode(&self.secret, exp, &user.user_id.0) {
            Ok(t) => Ok(t),
            Err(()) => Err(TokenError::EncodingError),
        }
    }

    /// Verifies a token at time `now`: unparsable structure yields
    /// `MalformedToken`, a signature that does not match under the pinned
    /// algorithm yields `InvalidSignature`, and a reached expiry yields
    /// `ExpiredToken`; `exp == now` is already expired (strict boundary).
    /// An identity is handed back exactly when none of these holds.
    pub fn verify(&self, token: &str, now: u64) -> (r: Result<UserData, TokenError>)
        ensures
            r is Ok <==> verify_accepts(self.spec_secret(), token@, now),
            r matches Ok(u) ==> u.user_id.0@ == accepted_identity(self.spec_secret(), token@),
            hs512_decoded(self.spec_secret(), token@) matches Ok((exp, sub)) && exp <= now ==> r
                == Err::<UserData, TokenError>(TokenError::ExpiredToken),
            decode_failed_as(self.spec_secret(), token@, DecodeFailure::Malformed) ==> r == Err::<
                UserData,
                TokenError,
            >(TokenError::MalformedToken),
            decode_failed_as(self.spec_secret(), token@, DecodeFailure::BadSignature) ==> r
                == Err::<UserData, TokenError>(TokenError::InvalidSignature),
    {
        let outcome = hs512_decode(&self.secret, token);
        check_claims(outcome, now)
    }
}

/// Turns a decode outcome into the verification result. The expiry bound is
/// strict: claims with `exp <= now` are rejected, so `exp == now` is already
/// expired.
pub fn check_claims(outcome: DecodeOutcome, now: u64) -> (r: Result<UserData, TokenError>)
    ensures
        match outcome {
            DecodeOutcome::Malformed => r == Err::<UserData, TokenError>(
                TokenError::MalformedToken,
            ),
            DecodeOutcome::BadSignature => r == Err::<UserData, TokenError>(
                TokenError::InvalidSignature,
            ),
            DecodeOutcome::Claims { exp, sub } => if exp > now {
                r matches Ok(u) && u.user_id.0@ == sub@
            } else {
                r == Err::<UserData, TokenError>(TokenError::ExpiredToken)
            },
        },
{
    match outcome {
        DecodeOutcome::Malformed => Err(TokenError::MalformedToken),
        DecodeOutcome::BadSignature => Err(TokenError::InvalidSignature),
        DecodeOutcome::Claims { exp, sub } => {
            if exp > now {
                Ok(UserData { user_id: UserID(sub) })
            } else {
                Err(TokenError::ExpiredToken)
            }
        },
    }
}

/// Law: a token that does not parse, whose signature does not verify, or
/// whose expiry has been reached is never accepted, so `verify` hands back
/// no identity on any malformed or expired token.
pub proof fn lemma_invalid_or_expired_never_accepted(secret: Seq<u8>, token: Seq<char>, now: u64)
    ensures
        hs512_decoded(secret, token) is Err ==> !verify_accepts(secret, token, now),
        hs512_decoded(secret, token) matches Ok((exp, sub)) && exp <= now
            ==> !verify_accepts(secret, token, now),
{
}

/// Law: the expiry boundary is strict. A token carrying expiry `exp` is
/// already rejected at `now == exp`.
pub proof fn lemma_expiry_boundary_rejected(secret: Seq<u8>, token: Seq<char>, exp: u64, sub: Seq<char>)
    ensures
        decoded_claims(secret, token, exp, sub) ==> !verify_accepts(secret, token, exp),
{
}

/// Law: round trip. A token whose claims under `secret` are `(exp, sub)`,
/// as every token produced by `sign` is by its postcondition, is accepted
/// at any time strictly before `exp` and hands back the identity it was
/// signed with.
pub proof fn lemma_sign_verify_round_trip(
    secret: Seq<u8>,
    token: Seq<char>,
    exp: u64,
    sub: Seq<char>,
    now: u64,
)
    ensures
        decoded_claims(secret, token, exp, sub) && now < exp ==> verify_accepts(secret, token, now)
            && accepted_identity(secret, token) == sub,
{
}

} // verus!
