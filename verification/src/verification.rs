//! Webhook verification requests (`GET` on the webhook): answered with the
//! challenge when the verify token is right, refused otherwise.
use vstd::prelude::*;
use vstd::string::*;

use crate::facebook_app::{opt_view, webhook_verification, FacebookApp};
use crate::trusted::form_urlencoded_pairs;

verus! {

/// The answer to a verification request: an HTTP status and a plain-text body.
pub struct VerificationResponse {
    pub status: u16,
    pub body: String,
}

/// The HTTP status of a successful verification.
pub const STATUS_OK: u16 = 200;

/// The HTTP status of a refused verification.
pub const STATUS_BAD_REQUEST: u16 = 400;

/// The body of a refused verification of `query`.
pub open spec fn refusal_text(query: Seq<char>) -> Seq<char> {
    "Incorrect webhook_verify_token or No hub.challenge in "@ + query
}

/// The status and body that answer a verification of `query` whose outcome
/// is `challenge`: 200 with the challenge, or 400 with the refusal text.
pub open spec fn verification_answer(challenge: Option<Seq<char>>, query: Seq<char>) -> (u16, Seq<char>) {
    match challenge {
        Some(c) => (STATUS_OK, c),
        None => (STATUS_BAD_REQUEST, refusal_text(query)),
    }
}

/// Answers a verification of `query` whose outcome is `challenge`.
pub fn verification_response(challenge: Option<String>, query: &str) -> (response: VerificationResponse)
    ensures
        (response.status, response.body@) == verification_answer(opt_view(challenge), query@),
        challenge is Some ==> response.status == 200 && response.body@ == challenge->0@,
        challenge is None ==> response.status == 400 && response.body@
            == "Incorrect webhook_verify_token or No hub.challenge in "@ + query@,
{
    match challenge {
        Some(challenge) => VerificationResponse { status: STATUS_OK, body: challenge },
        None => {
            let msg = String::from_str("Incorrect webhook_verify_token or No hub.challenge in ").concat(query);
            VerificationResponse { status: STATUS_BAD_REQUEST, body: msg }
        },
    }
}

/// Answers a webhook verification request with the query `query` (empty
/// when the request has none).
pub fn handle_verification(app: &FacebookApp, query: &str) -> (response: VerificationResponse)
    ensures
        (response.status, response.body@) == verification_answer(
            webhook_verification(form_urlencoded_pairs(query@), app@.webhook_verify_token),
            query@,
        ),
{
    let hub_challenge = app.verify_webhook_query(query);
    verification_response(hub_challenge, query)
}

/// A verification that decided on a challenge is answered with 200 and that
/// challenge, whole and unchanged, as the body; one that decided on nothing is
/// answered with 400 and the refusal text followed by the whole query.
pub proof fn law_verification_answer_echoes_challenge(challenge: Seq<char>, query: Seq<char>)
    ensures
        verification_answer(Some(challenge), query).0 == 200,
        verification_answer(Some(challenge), query).1 == challenge,
        verification_answer(Some(challenge), query).1.len() == challenge.len(),
        verification_answer(None, query).0 == 400,
        verification_answer(None, query).1
            == "Incorrect webhook_verify_token or No hub.challenge in "@ + query,
{
}

/// Two verifications are answered with the same body and status 200 exactly
/// when they decided on the same challenge.
pub proof fn law_verification_answer_distinguishes_challenges(
    c1: Seq<char>,
    c2: Seq<char>,
    q1: Seq<char>,
    q2: Seq<char>,
)
    ensures
        verification_answer(Some(c1), q1) == verification_answer(Some(c2), q2) <==> c1 == c2,
{
}

} // verus!
