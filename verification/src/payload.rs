//! Capability tokens: a request for one identifier, stamped with the time of
//! issue and signed.
//!
//! A token carries no state. Whether it is accepted depends on its bytes,
//! the key and the time of the check alone, so a token that is accepted once
//! is accepted again until its window has passed.

use vstd::prelude::*;
use vstd::bytes::*;
use vstd::utf8::*;
use crate::clock::unix_now;
use crate::codec::{
    base64url_decode, base64url_decoded, base64url_encode, base64url_encoded, deserialize_envelope,
    deserialize_request, envelope_unwired, envelope_wire, is_url_safe, lemma_base64url_is_url_safe,
    lemma_envelope_round_trip, lemma_request_round_trip, lemma_url_safe_text_is_kept,
    percent_decode, percent_decoded, percent_encode, percent_encoded, request_unwired,
    request_wire, serialize_envelope, serialize_request,
};
use crate::config::{Config, SigningSeed};
use crate::error::Failure;
use crate::signature::{
    ed25519_accepts, ed25519_signature, sign_message, verify_message, SIGNATURE_LENGTH,
};

verus! {

/// What a token asserts: an identifier and the second at which it was issued.
pub struct Request {
    pub id: String,
    pub timestamp: i64,
}

/// The signed form of a request: its bytes and the signature over them.
pub struct Payload {
    pub request: Vec<u8>,
    pub sign: Vec<u8>,
}

/// The mathematical content of a [`Request`].
pub struct Claim {
    pub student_id: Seq<char>,
    pub issued_at: int,
}

impl View for Request {
    type V = Claim;

    open spec fn view(&self) -> Claim {
        Claim { student_id: self.id@, issued_at: self.timestamp as int }
    }
}

/// What the bytes of an envelope say under the key of `seed`, whatever the
/// time: the claim they carry, or why they carry none. The signature is
/// checked before the request bytes are read.
pub open spec fn envelope_verdict(seed: Seq<u8>, envelope: Seq<u8>) -> Result<Claim, Failure> {
    match envelope_unwired(envelope) {
        None => Err(Failure::MalformedToken),
        Some((request, sign)) => if sign.len() != 64 {
            Err(Failure::MalformedToken)
        } else if !ed25519_accepts(seed, sign, request) {
            Err(Failure::TamperedToken)
        } else {
            match request_unwired(request) {
                None => Err(Failure::MalformedToken),
                Some((id, timestamp)) => Ok(Claim { student_id: id, issued_at: timestamp as int }),
            }
        },
    }
}

/// The envelope bytes inside a token: the token with its percent escapes
/// resolved, read as URL-safe base64.
pub open spec fn token_envelope(token: Seq<char>) -> Option<Seq<u8>> {
    match percent_decoded(token) {
        Some(text) => base64url_decoded(text),
        None => None,
    }
}

/// What a token says under the key of `seed`, whatever the time.
pub open spec fn token_verdict(seed: Seq<u8>, token: Seq<char>) -> Result<Claim, Failure> {
    match token_envelope(token) {
        Some(envelope) => envelope_verdict(seed, envelope),
        None => Err(Failure::MalformedToken),
    }
}

/// Whether more than `window` seconds lie between the issue of a claim and
/// `now`. A claim from the future is never expired.
pub open spec fn expired(issued_at: int, window: int, now: int) -> bool {
    now - issued_at > window
}

/// A verdict at the time `now`: a claim that is older than the window is
/// turned down.
pub open spec fn timely(verdict: Result<Claim, Failure>, window: int, now: int) -> Result<
    Claim,
    Failure,
> {
    match verdict {
        Ok(claim) => if expired(claim.issued_at, window, now) {
            Err(Failure::ExpiredToken)
        } else {
            Ok(claim)
        },
        Err(failure) => Err(failure),
    }
}

/// The outcome of verifying `token` at the time `now` with a validity window
/// of `window` seconds.
pub open spec fn verification(seed: Seq<u8>, window: int, token: Seq<char>, now: int) -> Result<
    Claim,
    Failure,
> {
    timely(token_verdict(seed, token), window, now)
}

/// The envelope bytes of the token for `id` issued at `now`.
pub open spec fn issued_envelope(seed: Seq<u8>, id: Seq<char>, now: i64) -> Seq<u8> {
    envelope_wire(request_wire(id, now), ed25519_signature(seed, request_wire(id, now)))
}

/// The token for `id` issued at `now` under the key of `seed`.
pub open spec fn issued_token(seed: Seq<u8>, id: Seq<char>, now: i64) -> Seq<char> {
    percent_encoded(base64url_encoded(issued_envelope(seed, id, now)))
}

/// Whether a verification ended as `expected`: with the request of that
/// claim, or with that failure.
pub open spec fn outcome_is(outcome: Result<Request, Failure>, expected: Result<Claim, Failure>) -> bool {
    match outcome {
        Ok(request) => expected == Ok::<Claim, Failure>(request@),
        Err(failure) => expected == Err::<Claim, Failure>(failure),
    }
}

/// Writes an envelope out as bytes.
pub fn seal_envelope(payload: &Payload) -> (bytes: Vec<u8>)
    ensures
        bytes@ == envelope_wire(payload.request@, payload.sign@),
{
    serialize_envelope(payload.request.as_slice(), payload.sign.as_slice())
}

/// Reads an envelope from bytes. The envelope must be complete and its
/// signature 64 bytes long.
pub fn open_envelope(bytes: &[u8]) -> (outcome: Result<Payload, Failure>)
    ensures
        match outcome {
            Ok(payload) => envelope_unwired(bytes@) == Some((payload.request@, payload.sign@))
                && payload.sign@.len() == 64,
            Err(failure) => failure == Failure::MalformedToken && match envelope_unwired(bytes@) {
                Some((_, sign)) => sign.len() != 64,
                None => true,
            },
        },
{
    match deserialize_envelope(bytes) {
        Some((request, sign)) => {
            if sign.len() != SIGNATURE_LENGTH {
                Err(Failure::MalformedToken)
            } else {
                Ok(Payload { request, sign })
            }
        },
        None => Err(Failure::MalformedToken),
    }
}

/// Whether a claim issued at `issued_at` is older at `now` than `window`
/// seconds.
pub fn is_expired(issued_at: i64, window: u64, now: i64) -> (late: bool)
    ensures
        late == expired(issued_at as int, window as int, now as int),
{
    now as i128 - issued_at as i128 > window as i128
}

/// Decides on a request once its signature has been checked: a request whose
/// signature was turned down is tampered with, one that cannot be read is
/// malformed, one older than the window has expired.
pub fn admit_request(authentic: bool, request: &[u8], window: u64, now: i64) -> (outcome: Result<
    Request,
    Failure,
>)
    ensures
        !authentic ==> outcome == Err::<Request, Failure>(Failure::TamperedToken),
        authentic ==> match request_unwired(request@) {
            None => outcome == Err::<Request, Failure>(Failure::MalformedToken),
            Some((id, timestamp)) => if expired(timestamp as int, window as int, now as int) {
                outcome == Err::<Request, Failure>(Failure::ExpiredToken)
            } else {
                outcome matches Ok(r) && r.id@ == id && r.timestamp == timestamp
            },
        },
{
    if !authentic {
        return Err(Failure::TamperedToken);
    }
    match deserialize_request(request) {
        None => Err(Failure::MalformedToken),
        Some((id, timestamp)) => {
            if is_expired(timestamp, window, now) {
                Err(Failure::ExpiredToken)
            } else {
                Ok(Request { id, timestamp })
            }
        },
    }
}

/// Verifies the bytes of an envelope at the time `now`.
pub fn verify_envelope(key: &SigningSeed, window: u64, envelope: &[u8], now: i64) -> (outcome:
    Result<Request, Failure>)
    ensures
        outcome_is(outcome, timely(envelope_verdict(key@, envelope@), window as int, now as int)),
{
    match open_envelope(envelope) {
        Err(failure) => Err(failure),
        Ok(payload) => {
            let authentic = verify_message(key, payload.sign.as_slice(), payload.request.as_slice());
            admit_request(authentic, payload.request.as_slice(), window, now)
        },
    }
}

/// Takes the envelope bytes out of a token.
pub fn token_bytes(token: &str) -> (outcome: Result<Vec<u8>, Failure>)
    ensures
        match outcome {
            Ok(bytes) => token_envelope(token@) == Some(bytes@),
            Err(failure) => failure == Failure::MalformedToken && token_envelope(token@) is None,
        },
{
    match percent_decode(token) {
        None => Err(Failure::MalformedToken),
        Some(text) => match base64url_decode(text.as_str()) {
            None => Err(Failure::MalformedToken),
            Some(bytes) => Ok(bytes),
        },
    }
}

/// Writes `text` so that it can stand as one segment of a URL path.
/// Resolving the escapes gives the text back.
pub fn path_segment(text: &str) -> (segment: String)
    ensures
        segment@ == percent_encoded(text@),
        percent_decoded(segment@) == Some(text@),
{
    percent_encode(text)
}

/// An issued token is the URL-safe base64 of its envelope as it stands: all
/// its characters are letters, digits, `-` or `_`, so that it is one segment
/// of a URL path.
pub proof fn lemma_issued_token_is_url_safe(seed: Seq<u8>, id: Seq<char>, now: i64)
    ensures
        issued_token(seed, id, now) == base64url_encoded(issued_envelope(seed, id, now)),
        forall|i: int|
            0 <= i < issued_token(seed, id, now).len() ==> is_url_safe(
                #[trigger] issued_token(seed, id, now)[i],
            ),
{
    let text = base64url_encoded(issued_envelope(seed, id, now));
    lemma_base64url_is_url_safe(issued_envelope(seed, id, now));
    lemma_url_safe_text_is_kept(text);
}

/// Issues the token for `id` at the time `now`.
///
/// The token is a function of key, identifier and time, and one segment of
/// a URL path. It carries the claim of `id` at `now`, and verification
/// accepts it, with that claim, at every time that lies no more than the
/// window after `now`.
pub fn build_payload_at(key: &SigningSeed, id: &str, now: i64) -> (token: String)
    ensures
        token@ == issued_token(key@, id@, now),
        forall|i: int| 0 <= i < token@.len() ==> is_url_safe(#[trigger] token@[i]),
        token_verdict(key@, token@) == Ok::<Claim, Failure>(
            Claim { student_id: id@, issued_at: now as int },
        ),
        forall|window: int, later: int|
            later - now <= window ==> #[trigger] verification(key@, window, token@, later) == Ok::<
                Claim,
                Failure,
            >(Claim { student_id: id@, issued_at: now as int }),
{
    let request = serialize_request(id, now);
    let sign = sign_message(key, request.as_slice());
    let payload = Payload { request, sign };
    let envelope = seal_envelope(&payload);
    let text = base64url_encode(envelope.as_slice());
    let token = path_segment(text.as_str());
    proof {
        lemma_auto_spec_u64_to_from_le_bytes();
        assert(payload.request@.len() == payload.request.len());
        assert(payload.request@.len() == 8 + encode_utf8(id@).len() + 8);
        lemma_request_round_trip(id@, now);
        lemma_envelope_round_trip(payload.request@, payload.sign@);
        lemma_issued_token_is_url_safe(key@, id@, now);
    }
    token
}

/// Verifies `token` at the time `now`: the claim it carries, or
/// `MalformedToken`, `TamperedToken` or `ExpiredToken`.
pub fn parse_payload_at(key: &SigningSeed, window: u64, token: &str, now: i64) -> (outcome: Result<
    Request,
    Failure,
>)
    ensures
        outcome_is(outcome, verification(key@, window as int, token@, now as int)),
        outcome matches Err(failure) ==> failure.is_token_failure(),
{
    match token_bytes(token) {
        Err(failure) => Err(failure),
        Ok(envelope) => verify_envelope(key, window, envelope.as_slice(), now),
    }
}

/// Issues the token for `id` at the present time, under the configured key.
pub fn build_payload(config: &Config, id: &str) -> (token: String)
    ensures
        exists|now: i64|
            {
                &&& token@ == #[trigger] issued_token(config.sign.key@, id@, now)
                &&& token_verdict(config.sign.key@, token@) == Ok::<Claim, Failure>(
                    Claim { student_id: id@, issued_at: now as int },
                )
            },
{
    let now = unix_now();
    let token = build_payload_at(&config.sign.key, id, now);
    assert(token@ == issued_token(config.sign.key@, id@, now));
    token
}

/// Verifies `token` at the present time, under the configured key and
/// window.
pub fn parse_payload(config: &Config, token: &str) -> (outcome: Result<Request, Failure>)
    ensures
        exists|now: i64|
            outcome_is(
                outcome,
                #[trigger] verification(
                    config.sign.key@,
                    config.payload.oudate_secounds as int,
                    token@,
                    now as int,
                ),
            ),
{
    let now = unix_now();
    let outcome = parse_payload_at(&config.sign.key, config.payload.oudate_secounds, token, now);
    assert(outcome_is(
        outcome,
        verification(
            config.sign.key@,
            config.payload.oudate_secounds as int,
            token@,
            now as int,
        ),
    ));
    outcome
}

/// A token that carries a claim is accepted, with that claim, at every time
/// that lies no more than the window after its issue. With what
/// [`build_payload_at`] ensures of the token it issues, verifying an issued
/// token inside its window gives back the identifier it was issued for.
pub proof fn lemma_token_is_accepted_within_window(
    seed: Seq<u8>,
    window: int,
    token: Seq<char>,
    claim: Claim,
    now: int,
)
    requires
        token_verdict(seed, token) == Ok::<Claim, Failure>(claim),
        now - claim.issued_at <= window,
    ensures
        verification(seed, window, token, now) == Ok::<Claim, Failure>(claim),
{
}

/// An authentic token is turned down as expired one second after its window
/// has passed.
pub proof fn lemma_token_expires_after_window(
    seed: Seq<u8>,
    window: int,
    token: Seq<char>,
    claim: Claim,
)
    requires
        token_verdict(seed, token) == Ok::<Claim, Failure>(claim),
    ensures
        verification(seed, window, token, claim.issued_at + window + 1) == Err::<Claim, Failure>(
            Failure::ExpiredToken,
        ),
{
}

/// Verification consumes nothing: a token that was accepted is accepted
/// again, with the same claim, at every time still inside its window.
pub proof fn lemma_verification_repeats(
    seed: Seq<u8>,
    window: int,
    token: Seq<char>,
    first: int,
    second: int,
)
    requires
        verification(seed, window, token, first) is Ok,
        second - verification(seed, window, token, first)->Ok_0.issued_at <= window,
    ensures
        verification(seed, window, token, second) == verification(seed, window, token, first),
{
}

/// An envelope whose 64-byte signature the key does not accept for its
/// request bytes is tampered with, whatever the request bytes hold.
pub proof fn lemma_rejected_signature_is_tampering(
    seed: Seq<u8>,
    request: Seq<u8>,
    sign: Seq<u8>,
    window: int,
    now: int,
)
    requires
        request.len() <= u64::MAX,
        sign.len() == 64,
        !ed25519_accepts(seed, sign, request),
    ensures
        envelope_verdict(seed, envelope_wire(request, sign)) == Err::<Claim, Failure>(
            Failure::TamperedToken,
        ),
        timely(envelope_verdict(seed, envelope_wire(request, sign)), window, now) == Err::<
            Claim,
            Failure,
        >(Failure::TamperedToken),
{
    lemma_envelope_round_trip(request, sign);
}

/// A token is turned down as tampered with exactly when the key does not
/// accept the 64 signature bytes in its envelope for the request bytes
/// beside them: at every time and with every window, also when the request
/// would be past its window. So whether a token with an altered signature
/// is turned down rests on the key's judgement of the altered bytes alone.
pub proof fn lemma_token_is_tampered_when_signature_is_rejected(
    seed: Seq<u8>,
    token: Seq<char>,
    request: Seq<u8>,
    sign: Seq<u8>,
    window: int,
    now: int,
)
    requires
        token_envelope(token) == Some(envelope_wire(request, sign)),
        request.len() <= u64::MAX,
        sign.len() == 64,
    ensures
        verification(seed, window, token, now) == Err::<Claim, Failure>(Failure::TamperedToken)
            <==> !ed25519_accepts(seed, sign, request),
{
    lemma_envelope_round_trip(request, sign);
}

} // verus!
