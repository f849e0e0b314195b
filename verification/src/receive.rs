//! Incoming webhook posts: every message of a payload is answered.
use vstd::prelude::*;

use crate::facebook_app::{message_request, FacebookApp, OutgoingRequest, RequestView};
pub use crate::types::{AuthorEntry, MessageDetailsEntry, MessageEntry, WebhookEntry, WebhookPayload};

verus! {

/// The messages of the given entries, entry after entry, each entry's in
/// its own order.
pub open spec fn entries_messages(entries: Seq<WebhookEntry>) -> Seq<MessageEntry>
    decreases entries.len(),
{
    if entries.len() == 0 {
        Seq::empty()
    } else {
        entries_messages(entries.drop_last()) + entries.last().messaging@
    }
}

/// All messages of a payload, in the order they stand in it.
pub open spec fn payload_messages(payload: WebhookPayload) -> Seq<MessageEntry> {
    entries_messages(payload.entry@)
}

/// The requests that answer the messages of a payload, one per message, in
/// order.
pub open spec fn payload_requests(app: crate::facebook_app::AppView, payload: WebhookPayload) -> Seq<RequestView> {
    payload_messages(payload).map_values(|m: MessageEntry| message_request(app, m))
}

/// The requests that answer a webhook payload: one per message, in the order
/// the messages stand in the payload, each as `FacebookApp::handle_message`
/// answers it.
pub fn handle_webhook_payload(app: &FacebookApp, payload: &WebhookPayload) -> (requests: Vec<OutgoingRequest>)
    ensures
        requests@.map_values(|r: OutgoingRequest| r@) == payload_requests(app@, *payload),
        requests@.len() == payload.entry@.map_values(|e: WebhookEntry| e.messaging@).flatten().len(),
        forall|k: int|
            0 <= k < requests@.len() ==> (#[trigger] requests@[k])@ == message_request(
                app@,
                payload.entry@.map_values(|e: WebhookEntry| e.messaging@).flatten()[k],
            ),
{
    let mut message_requests: Vec<OutgoingRequest> = Vec::new();
    let ghost entries = payload.entry@;
    let mut i: usize = 0;
    while i < payload.entry.len()
        invariant
            entries == payload.entry@,
            i <= entries.len(),
            message_requests@.map_values(|r: OutgoingRequest| r@)
                == entries_messages(entries.take(i as int)).map_values(|m: MessageEntry| message_request(app@, m)),
        decreases entries.len() - i,
    {
        let entry = &payload.entry[i];
        let ghost done = entries_messages(entries.take(i as int));
        let mut j: usize = 0;
        while j < entry.messaging.len()
            invariant
                entries == payload.entry@,
                i < entries.len(),
                *entry == entries[i as int],
                done == entries_messages(entries.take(i as int)),
                j <= entry.messaging@.len(),
                message_requests@.map_values(|r: OutgoingRequest| r@)
                    == (done + entry.messaging@.take(j as int)).map_values(|m: MessageEntry| message_request(app@, m)),
            decreases entry.messaging@.len() - j,
        {
            let request = app.handle_message(&entry.messaging[j]);
            let ghost before = message_requests@;
            message_requests.push(request);
            proof {
                assert(done + entry.messaging@.take(j + 1) =~= (done + entry.messaging@.take(j as int)).push(entry.messaging@[j as int]));
                assert(message_requests@.map_values(|r: OutgoingRequest| r@) =~= before.map_values(|r: OutgoingRequest| r@).push(request@));
            }
            j = j + 1;
        }
        proof {
            assert(entry.messaging@.take(j as int) =~= entry.messaging@);
            assert(entries.take(i + 1).drop_last() =~= entries.take(i as int));
            assert(entries.take(i + 1).last() == entries[i as int]);
        }
        i = i + 1;
    }
    proof {
        assert(entries.take(i as int) =~= entries);
        law_payload_messages_are_all_messages(*payload);
        assert forall|k: int| 0 <= k < message_requests@.len() implies (#[trigger] message_requests@[k])@
            == message_request(app@, payload.entry@.map_values(|e: WebhookEntry| e.messaging@).flatten()[k]) by {
            assert(message_requests@.map_values(|r: OutgoingRequest| r@)[k] == message_requests@[k]@);
        }
    }
    message_requests
}

/// A webhook body that could not be read stands as the default payload, and
/// that payload is answered with no request at all.
pub proof fn law_unreadable_body_sends_nothing(app: crate::facebook_app::AppView, payload: WebhookPayload)
    requires
        crate::types::is_parse_error_payload(payload),
    ensures
        payload_requests(app, payload).len() == 0,
{
    assert(payload_messages(payload) == Seq::<MessageEntry>::empty());
}

/// The messages of some entries are the entries' message lists concatenated
/// in entry order, none left out.
pub proof fn lemma_entries_messages_flatten(entries: Seq<WebhookEntry>)
    ensures
        entries_messages(entries) == entries.map_values(|e: WebhookEntry| e.messaging@).flatten(),
    decreases entries.len(),
{
    if entries.len() > 0 {
        let rest = entries.drop_last();
        lemma_entries_messages_flatten(rest);
        let lists = entries.map_values(|e: WebhookEntry| e.messaging@);
        assert(lists =~= rest.map_values(|e: WebhookEntry| e.messaging@).push(entries.last().messaging@));
        rest.map_values(|e: WebhookEntry| e.messaging@).lemma_flatten_push(entries.last().messaging@);
    }
}

/// The messages a payload is answered for are all the messages of all its
/// entries, entry after entry and each entry's in order: as many as the
/// entries hold together, the k-th being the k-th of their concatenation.
pub proof fn law_payload_messages_are_all_messages(payload: WebhookPayload)
    ensures
        payload_messages(payload) == payload.entry@.map_values(|e: WebhookEntry| e.messaging@).flatten(),
        payload_messages(payload).len() == payload.entry@.map_values(|e: WebhookEntry| e.messaging@).flatten().len(),
{
    lemma_entries_messages_flatten(payload.entry@);
}

/// A payload is answered with one request per message of all its entries, in
/// order: the k-th request answers the k-th message of the concatenated
/// message lists.
pub proof fn law_every_message_is_answered(app: crate::facebook_app::AppView, payload: WebhookPayload)
    ensures
        payload_requests(app, payload).len() == payload.entry@.map_values(|e: WebhookEntry| e.messaging@).flatten().len(),
        forall|k: int| 0 <= k < payload_requests(app, payload).len() ==> #[trigger] payload_requests(app, payload)[k]
            == message_request(app, payload.entry@.map_values(|e: WebhookEntry| e.messaging@).flatten()[k]),
{
    law_payload_messages_are_all_messages(payload);
}

/// Appending an entry to a payload appends answers for exactly its messages.
pub proof fn law_entry_messages_appended(entries: Seq<WebhookEntry>, entry: WebhookEntry)
    ensures
        entries_messages(entries.push(entry)) == entries_messages(entries) + entry.messaging@,
{
    lemma_entries_messages_flatten(entries);
    lemma_entries_messages_flatten(entries.push(entry));
    let lists = entries.map_values(|e: WebhookEntry| e.messaging@);
    assert(entries.push(entry).map_values(|e: WebhookEntry| e.messaging@) =~= lists.push(entry.messaging@));
    lists.lemma_flatten_push(entry.messaging@);
}

} // verus!
