//! The JSON bodies that the challenge endpoints answer with.
use crate::challenge::{
    issue_challenge, issued_bytes, response_verdict, verify_response, VerificationResult, NONCE_LEN,
};
use crate::primitives::base64url_of;
use vstd::prelude::*;

verus! {

/// A client's answer to a challenge, as the verification endpoint receives it.
#[derive(Debug)]
pub struct PaymentAddressChallengeResponse {
    pub address: String,
    pub challenge: String,
    pub signature: String,
}

/// The body that hands out a challenge token.
pub open spec fn challenge_body_text(token: Seq<char>) -> Seq<char> {
    "{ \"status\": \"success\", \"result\": \""@ + token + "\" }"@
}

/// The body that reports a verification outcome: the signature's verdict on
/// success, a short message that names only the category otherwise.
pub open spec fn verification_body_text(r: VerificationResult) -> Seq<char> {
    match r {
        VerificationResult::Valid(true) => "{ \"status\": \"success\", \"result\": true }"@,
        VerificationResult::Valid(false) => "{ \"status\": \"success\", \"result\": false }"@,
        VerificationResult::Expired => "{ \"status\": \"error\", \"message\": \"Challenge has expired\" }"@,
        VerificationResult::Malformed => "{ \"status\": \"error\", \"message\": \"Invalid challenge\" }"@,
    }
}

/// The body that reports that no challenge could be issued.
pub open spec fn issue_failure_text() -> Seq<char> {
    "{ \"status\": \"error\", \"message\": \"Challenge could not be issued\" }"@
}

/// The body that hands out `token`.
pub fn challenge_body(token: &str) -> (r: String)
    ensures
        r@ == challenge_body_text(token@),
{
    let mut r = String::from_str("{ \"status\": \"success\", \"result\": \"");
    r.append(token);
    r.append("\" }");
    r
}

/// The body that reports `result`.
pub fn verification_body(result: VerificationResult) -> (r: String)
    ensures
        r@ == verification_body_text(result),
{
    match result {
        VerificationResult::Valid(true) => String::from_str(
            "{ \"status\": \"success\", \"result\": true }",
        ),
        VerificationResult::Valid(false) => String::from_str(
            "{ \"status\": \"success\", \"result\": false }",
        ),
        VerificationResult::Expired => String::from_str(
            "{ \"status\": \"error\", \"message\": \"Challenge has expired\" }",
        ),
        VerificationResult::Malformed => String::from_str(
            "{ \"status\": \"error\", \"message\": \"Invalid challenge\" }",
        ),
    }
}

/// Answers a request for a challenge: a fresh token under `server_secret`,
/// or an error when the clock or the random source fails.
pub fn get_payment_address_challenge(server_secret: &[u8]) -> (r: String)
    ensures
        r@ == issue_failure_text() || exists|now: u64, nonce: Seq<u8>|
            nonce.len() == NONCE_LEN && r@ == challenge_body_text(
                base64url_of(#[trigger] issued_bytes(server_secret@, now, nonce)),
            ),
{
    match issue_challenge(server_secret) {
        Some(token) => challenge_body(token.as_str()),
        None => String::from_str("{ \"status\": \"error\", \"message\": \"Challenge could not be issued\" }"),
    }
}

/// Answers a signed response to a challenge with the verification outcome.
pub fn receive_payment_address_challenge(
    response: &PaymentAddressChallengeResponse,
    server_secret: &[u8],
) -> (r: String)
    ensures
        exists|now: u64|
            r@ == verification_body_text(
                #[trigger] response_verdict(
                    response.challenge@,
                    response.signature@,
                    response.address@,
                    server_secret@,
                    now,
                ),
            ),
{
    let result = verify_response(
        response.challenge.as_str(),
        response.signature.as_str(),
        response.address.as_str(),
        server_secret,
    );
    verification_body(result)
}

} // verus!
