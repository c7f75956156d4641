//! Consent URLs and the acknowledgement of requests.

use vstd::prelude::*;
use vstd::string::*;
use crate::payloads::UserConsentURL;

verus! {

/// The scopes that the gateway asks of Ramp, in the order in which they
/// are sent.
pub open spec fn ramp_scope_names() -> Seq<Seq<char>> {
    seq![
        "transactions:read"@,
        "users:read"@,
        "users:write"@,
        "receipts:read"@,
        "cards:read"@,
        "departments:read"@,
        "reimbursements:read"@,
    ]
}

/// Builds the scopes of [`ramp_scope_names`].
pub fn ramp_scopes() -> (scopes: Vec<String>)
    ensures
        crate::sweep::text_views(scopes@) == ramp_scope_names(),
{
    let mut scopes: Vec<String> = Vec::new();
    scopes.push(String::from_str("transactions:read"));
    scopes.push(String::from_str("users:read"));
    scopes.push(String::from_str("users:write"));
    scopes.push(String::from_str("receipts:read"));
    scopes.push(String::from_str("cards:read"));
    scopes.push(String::from_str("departments:read"));
    scopes.push(String::from_str("reimbursements:read"));
    scopes
}

/// The consent URL of the GitHub application, which needs no client.
pub fn github_consent_url() -> (consent: UserConsentURL)
    ensures
        consent.url@ == "https://github.com/apps/oxidecomputerbot/installations/new"@,
{
    UserConsentURL {
        url: String::from_str("https://github.com/apps/oxidecomputerbot/installations/new"),
    }
}

/// A consent URL that asks the provider to deliver its callback as a form
/// post: `url` with the response mode appended.
pub fn form_post_consent_url(url: String) -> (consent: UserConsentURL)
    ensures
        consent.url@ == url@ + "&response_mode=form_post"@,
{
    UserConsentURL { url: url.concat("&response_mode=form_post") }
}

/// How a request is answered.
#[derive(Debug, PartialEq, Eq)]
pub enum Acknowledgement {
    /// The request was taken; the body says so.
    Accepted { body: String },
    /// The request failed inside the gateway; the message says how.
    InternalError { message: String },
}

/// Answers a request by the outcome of its handler: a handler that ended
/// well is acknowledged with `ok`, one that failed gives an internal error
/// with the handler's own message. Nothing is retried.
pub fn acknowledge(outcome: Result<(), String>) -> (answer: Acknowledgement)
    ensures
        match outcome {
            Ok(_) => answer matches Acknowledgement::Accepted { body } && body@ == "ok"@,
            Err(failure) => answer matches Acknowledgement::InternalError { message } && message@
                == failure@,
        },
{
    match outcome {
        Ok(_) => Acknowledgement::Accepted { body: String::from_str("ok") },
        Err(message) => Acknowledgement::InternalError { message },
    }
}

} // verus!
