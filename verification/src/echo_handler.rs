//! The default message handler: it echoes.
use vstd::prelude::*;

use crate::facebook_app::{messages_request, text_message_payload, Bot, OutgoingRequest};
use crate::types::MessageEntry;

verus! {

/// Answers a message with its own text, sent to its sender.
pub fn handle_message(bot: &Bot, message: &MessageEntry) -> (request: OutgoingRequest)
    ensures
        request@ == messages_request(
            bot@,
            text_message_payload(message.sender.id@, message.message.text@),
        ),
{
    let text = &message.message.text;
    let sender = &message.sender.id;
    bot.send_text_message(sender.as_str(), text.as_str())
}

} // verus!
