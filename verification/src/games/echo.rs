//! The echo game: a message is answered with its own text.
use vstd::prelude::*;
use vstd::string::*;

use crate::facebook_app::{messages_request, text_message_payload, Bot, OutgoingRequest};
use crate::types::MessageEntry;

verus! {

/// The text that the prefixed echo answers `text` with.
pub open spec fn prefixed_echo_text(text: Seq<char>) -> Seq<char> {
    "you said: "@ + text
}

/// Answers a message with its own text, sent to its sender.
pub fn echo_message(bot: &Bot, message: &MessageEntry) -> (request: OutgoingRequest)
    ensures
        request@ == messages_request(
            bot@,
            text_message_payload(message.sender.id@, message.message.text@),
        ),
{
    let text = &message.message.text;
    let sender = &message.sender.id;
    bot.send_text_message(sender.as_str(), text.as_str())
}

/// Answers a message with `"you said: "` and its text, sent to its sender.
pub fn echo_message_with_prefix(bot: &Bot, message: &MessageEntry) -> (request: OutgoingRequest)
    ensures
        request@ == messages_request(
            bot@,
            text_message_payload(message.sender.id@, prefixed_echo_text(message.message.text@)),
        ),
{
    let text = String::from_str("you said: ").concat(message.message.text.as_str());
    let sender = &message.sender.id;
    bot.send_text_message(sender.as_str(), text.as_str())
}

/// The prefixed echo is `"you said: "` followed by the whole text: ten
/// characters longer, ending with the text, and different texts give
/// different replies.
pub proof fn law_prefixed_echo(text: Seq<char>)
    ensures
        prefixed_echo_text(text) == "you said: "@ + text,
        prefixed_echo_text(text).len() == text.len() + 10,
        prefixed_echo_text(text).subrange(10, prefixed_echo_text(text).len() as int) == text,
{
    reveal_strlit("you said: ");
    assert(prefixed_echo_text(text).subrange(10, prefixed_echo_text(text).len() as int) =~= text);
}

/// Two texts get the same prefixed echo only when they are the same text.
pub proof fn law_prefixed_echo_distinguishes(t1: Seq<char>, t2: Seq<char>)
    ensures
        prefixed_echo_text(t1) == prefixed_echo_text(t2) <==> t1 == t2,
{
    law_prefixed_echo(t1);
    law_prefixed_echo(t2);
}

} // verus!
