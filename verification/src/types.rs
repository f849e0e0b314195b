//! The webhook payload that Facebook posts for page messages.
//!
//! A payload looks like
//! `{"entry":[{"id":..,"messaging":[{"message":{"mid":..,"seq":..,"text":..},
//! "recipient":{"id":..},"sender":{"id":..},"timestamp":..}],"time":..}],"object":"page"}`.
use vstd::prelude::*;
use vstd::string::*;

verus! {

/// The whole body of a webhook post.
pub struct WebhookPayload {
    pub entry: Vec<WebhookEntry>,
    pub object: String,
}

/// One entry of a webhook post: the messages of one page.
pub struct WebhookEntry {
    pub id: String,
    pub messaging: Vec<MessageEntry>,
    pub time: i64,
}

/// One message sent to a page.
pub struct MessageEntry {
    pub message: MessageDetailsEntry,
    pub recipient: AuthorEntry,
    pub sender: AuthorEntry,
    pub timestamp: i64,
}

/// The content of a message.
pub struct MessageDetailsEntry {
    pub mid: String,
    pub seq: i64,
    pub text: String,
}

/// A page or a user, by its id.
pub struct AuthorEntry {
    pub id: String,
}

/// What a payload that could not be read stands as: no entries, and the
/// object `"ParseError"`.
pub open spec fn is_parse_error_payload(p: WebhookPayload) -> bool {
    &&& p.entry@.len() == 0
    &&& p.object@ == "ParseError"@
}

impl Default for WebhookPayload {
    fn default() -> (p: WebhookPayload)
        ensures
            is_parse_error_payload(p),
    {
        WebhookPayload { entry: Vec::new(), object: String::from_str("ParseError") }
    }
}

} // verus!
