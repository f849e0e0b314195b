//! The application: the pages it manages, webhook verification, and the
//! handling of one incoming message.
use vstd::prelude::*;
use vstd::string::*;
use vstd::hash_map::StringHashMap;

use crate::games::echo::{echo_message, echo_message_with_prefix, prefixed_echo_text};
use crate::types::MessageEntry;
use crate::trusted::{form_urlencoded_pairs, json_string, json_string_text, parse_query_pairs};

verus! {

/// The handler a page answers its messages with.
#[derive(Clone, Copy, PartialEq, Eq, Structural, Debug)]
pub enum MessageCallback {
    /// Send the text back to its sender.
    Echo,
    /// Send the text back to its sender, after `"you said: "`.
    EchoWithPrefix,
}

/// A page managed by the application: the token to send as it, and the
/// handler of its messages (the echo handler when there is none).
pub struct FacebookPage {
    access_token: String,
    message_callback: Option<MessageCallback>,
}

/// What a page is, as plain values.
pub struct PageView {
    pub access_token: Seq<char>,
    pub message_callback: Option<MessageCallback>,
}

impl View for FacebookPage {
    type V = PageView;

    closed spec fn view(&self) -> PageView {
        PageView { access_token: self.access_token@, message_callback: self.message_callback }
    }
}

impl FacebookPage {
    pub fn new(access_token: String, message_callback: Option<MessageCallback>) -> (page:
        FacebookPage)
        ensures
            page@.access_token == access_token@,
            page@.message_callback == message_callback,
    {
        FacebookPage { access_token, message_callback }
    }
}

/// The application: its secret, the token that webhook verification asks
/// for, and its pages by page id.
pub struct FacebookApp {
    app_secret: String,
    webhook_verify_token: String,
    page_config: StringHashMap<FacebookPage>,
}

/// What an application is, as plain values.
pub struct AppView {
    pub app_secret: Seq<char>,
    pub webhook_verify_token: Seq<char>,
    pub pages: Map<Seq<char>, PageView>,
}

impl View for FacebookApp {
    type V = AppView;

    closed spec fn view(&self) -> AppView {
        AppView {
            app_secret: self.app_secret@,
            webhook_verify_token: self.webhook_verify_token@,
            pages: self.page_config@.map_values(|p: FacebookPage| p@),
        }
    }
}

/// The pages that a list of (page id, page) pairs configures: each pair in
/// turn, so that a later pair for the same id replaces an earlier one.
pub open spec fn pages_of(config: Seq<(Seq<char>, PageView)>) -> Map<Seq<char>, PageView>
    decreases config.len(),
{
    if config.len() == 0 {
        Map::empty()
    } else {
        pages_of(config.drop_last()).insert(config.last().0, config.last().1)
    }
}

/// The name of the query parameter that carries the challenge.
pub open spec fn hub_challenge() -> Seq<char> {
    "hub.challenge"@
}

/// The name of the query parameter that carries the verify token.
pub open spec fn hub_verify_token() -> Seq<char> {
    "hub.verify_token"@
}

/// The value of the last `hub.challenge` pair, if there is one.
pub open spec fn last_challenge(pairs: Seq<(Seq<char>, Seq<char>)>) -> Option<Seq<char>>
    decreases pairs.len(),
{
    if pairs.len() == 0 {
        None
    } else if pairs.last().0 == hub_challenge() {
        Some(pairs.last().1)
    } else {
        last_challenge(pairs.drop_last())
    }
}

/// Some pair is `hub.verify_token` with the value `token`.
pub open spec fn carries_verify_token(pairs: Seq<(Seq<char>, Seq<char>)>, token: Seq<char>) -> bool {
    exists|i: int| 0 <= i < pairs.len() && #[trigger] pairs[i] == (hub_verify_token(), token)
}

/// The answer to a webhook verification request with the given query pairs:
/// the challenge, when the query carries the expected token, else nothing.
pub open spec fn webhook_verification(pairs: Seq<(Seq<char>, Seq<char>)>, token: Seq<char>) -> Option<Seq<char>> {
    if carries_verify_token(pairs, token) {
        last_challenge(pairs)
    } else {
        None
    }
}

/// A string option by its view.
pub open spec fn opt_view(o: Option<String>) -> Option<Seq<char>> {
    match o {
        Some(s) => Some(s@),
        None => None,
    }
}

impl FacebookApp {
    pub fn new(
        app_secret: String,
        webhook_verify_token: String,
        page_config: Vec<(String, FacebookPage)>,
    ) -> (app: FacebookApp)
        ensures
            app@.app_secret == app_secret@,
            app@.webhook_verify_token == webhook_verify_token@,
            app@.pages == pages_of(page_config@.map_values(|p: (String, FacebookPage)| (p.0@, p.1@))),
    {
        let ghost config = page_config@.map_values(|p: (String, FacebookPage)| (p.0@, p.1@));
        let mut pages: StringHashMap<FacebookPage> = StringHashMap::new();
        let total: usize = page_config.len();
        let mut rest = page_config;
        let mut done: usize = 0;
        proof {
            assert(pages@.map_values(|p: FacebookPage| p@) =~= pages_of(config.take(0)));
        }
        while rest.len() > 0
            invariant
                config == page_config@.map_values(|p: (String, FacebookPage)| (p.0@, p.1@)),
                total == page_config@.len(),
                rest@.len() + done == total,
                forall|j: int| 0 <= j < rest@.len() ==> #[trigger] rest@[j] == page_config@[done + j],
                pages@.map_values(|p: FacebookPage| p@) == pages_of(config.take(done as int)),
            decreases rest@.len(),
        {
            let (id, page) = rest.remove(0);
            proof {
                assert(config.take(done + 1).drop_last() =~= config.take(done as int));
            }
            let ghost before = pages@;
            pages.insert(id, page);
            proof {
                assert(pages@.map_values(|p: FacebookPage| p@) =~= before.map_values(
                    |p: FacebookPage| p@,
                ).insert(config[done as int].0, config[done as int].1));
            }
            done = done + 1;
        }
        proof {
            assert(config.take(page_config@.len() as int) =~= config);
        }
        FacebookApp { app_secret, webhook_verify_token, page_config: pages }
    }
}

impl FacebookApp {
    /// Decides a webhook verification request from its query pairs: the value
    /// of the last `hub.challenge` pair when some `hub.verify_token` pair holds
    /// the application's verify token, and `None` otherwise.
    pub fn verify_webhook_pairs(&self, pairs: &Vec<(String, String)>) -> (challenge: Option<String>)
        ensures
            opt_view(challenge) == webhook_verification(pairs.deep_view(), self@.webhook_verify_token),
    {
        let ghost ps = pairs.deep_view();
        let challenge_key = String::from_str("hub.challenge");
        let token_key = String::from_str("hub.verify_token");
        proof {
            reveal_strlit("hub.challenge");
            reveal_strlit("hub.verify_token");
            assert(hub_challenge() != hub_verify_token()) by {
                assert(hub_challenge()[4] != hub_verify_token()[4]);
            }
        }
        let mut maybe_hub_challenge: Option<String> = None;
        let mut token_passed = false;
        let mut i: usize = 0;
        while i < pairs.len()
            invariant
                ps == pairs.deep_view(),
                i <= pairs@.len(),
                challenge_key@ == hub_challenge(),
                token_key@ == hub_verify_token(),
                hub_challenge() != hub_verify_token(),
                opt_view(maybe_hub_challenge) == last_challenge(ps.take(i as int)),
                token_passed == carries_verify_token(ps.take(i as int), self@.webhook_verify_token),
            decreases pairs@.len() - i,
        {
            proof {
                assert(ps.take(i + 1).drop_last() =~= ps.take(i as int));
                assert(ps.take(i + 1).last() == ps[i as int]);
                assert(ps[i as int] == (pairs@[i as int].0@, pairs@[i as int].1@));
            }
            let ghost before = ps.take(i as int);
            let ghost after = ps.take(i + 1);
            if pairs[i].0 == challenge_key {
                maybe_hub_challenge = Some(pairs[i].1.clone());
                proof {
                    assert forall|j: int| 0 <= j < after.len() && #[trigger] after[j] == (hub_verify_token(), self@.webhook_verify_token)
                        implies 0 <= j < before.len() && before[j] == (hub_verify_token(), self@.webhook_verify_token) by {
                        assert(j != i);
                    }
                }
            } else if pairs[i].0 == token_key && pairs[i].1 == self.webhook_verify_token {
                token_passed = true;
                proof {
                    assert(after[i as int] == (hub_verify_token(), self@.webhook_verify_token));
                }
            } else {
                proof {
                    assert forall|j: int| 0 <= j < after.len() && #[trigger] after[j] == (hub_verify_token(), self@.webhook_verify_token)
                        implies 0 <= j < before.len() && before[j] == (hub_verify_token(), self@.webhook_verify_token) by {
                        assert(j != i);
                    }
                }
            }
            i = i + 1;
        }
        proof {
            assert(ps.take(pairs@.len() as int) =~= ps);
        }
        if token_passed {
            maybe_hub_challenge
        } else {
            None
        }
    }

    /// Verifies the query (the part after `?`) of a webhook verification
    /// request: its pairs as `url::form_urlencoded::parse` reads them, decided
    /// by `verify_webhook_pairs`.
    pub fn verify_webhook_query(&self, query: &str) -> (challenge: Option<String>)
        ensures
            opt_view(challenge) == webhook_verification(
                form_urlencoded_pairs(query@),
                self@.webhook_verify_token,
            ),
    {
        let pairs = parse_query_pairs(query);
        self.verify_webhook_pairs(&pairs)
    }
}

/// A request to the Graph API, as the bot would post it: the full URL, the
/// content type and the body.
pub struct OutgoingRequest {
    pub url: String,
    pub content_type: String,
    pub body: String,
}

/// A request to the Graph API, as plain values.
pub struct RequestView {
    pub url: Seq<char>,
    pub content_type: Seq<char>,
    pub body: Seq<char>,
}

impl View for OutgoingRequest {
    type V = RequestView;

    open spec fn view(&self) -> RequestView {
        RequestView { url: self.url@, content_type: self.content_type@, body: self.body@ }
    }
}

/// A bot that sends as one page: its page token, the application's secret and
/// verify token, and the Graph API it talks to.
pub struct Bot {
    access_token: String,
    app_secret: String,
    webhook_verify_token: String,
    graph_url: String,
}

/// What a bot is, as plain values.
pub struct BotView {
    pub access_token: Seq<char>,
    pub app_secret: Seq<char>,
    pub webhook_verify_token: Seq<char>,
    pub graph_url: Seq<char>,
}

impl View for Bot {
    type V = BotView;

    closed spec fn view(&self) -> BotView {
        BotView {
            access_token: self.access_token@,
            app_secret: self.app_secret@,
            webhook_verify_token: self.webhook_verify_token@,
            graph_url: self.graph_url@,
        }
    }
}

/// The Graph API that bots post to.
pub open spec fn graph_api_url() -> Seq<char> {
    "https://graph.facebook.com/v2.7"@
}

/// The bot with the given tokens, talking to the Graph API.
pub open spec fn bot_view(access_token: Seq<char>, app_secret: Seq<char>, webhook_verify_token: Seq<char>) -> BotView {
    BotView { access_token, app_secret, webhook_verify_token, graph_url: graph_api_url() }
}

/// The JSON body that sends `text` to `recipient_id`:
/// `{"message":{"text":TEXT},"recipient":{"id":ID}}`, each string written as
/// `serde_json` writes it, keys in the sorted order of `serde_json`'s maps.
pub open spec fn text_message_payload(recipient_id: Seq<char>, text: Seq<char>) -> Seq<char> {
    "{\"message\":{\"text\":"@ + json_string_text(text) + "},\"recipient\":{\"id\":"@
        + json_string_text(recipient_id) + "}}"@
}

/// The request that posts `body` to `url`, with `data` as its query.
pub open spec fn post_request(url: Seq<char>, data: Seq<char>, body: Seq<char>) -> RequestView {
    RequestView { url: url + "?"@ + data, content_type: "application/json"@, body }
}

/// The request by which `bot` posts `payload` to the messages endpoint of
/// the Graph API, with its page token.
pub open spec fn messages_request(bot: BotView, payload: Seq<char>) -> RequestView {
    post_request(bot.graph_url + "/me/messages"@, "access_token="@ + bot.access_token, payload)
}

impl Bot {
    pub fn new(access_token: &str, app_secret: &str, webhook_verify_token: &str) -> (bot: Bot)
        ensures
            bot@ == bot_view(access_token@, app_secret@, webhook_verify_token@),
    {
        Bot {
            access_token: access_token.to_owned(),
            app_secret: app_secret.to_owned(),
            webhook_verify_token: webhook_verify_token.to_owned(),
            graph_url: String::from_str("https://graph.facebook.com/v2.7"),
        }
    }

    /// The request that sends the text `message` to `recipient_id` as this
    /// bot's page.
    pub fn send_text_message(&self, recipient_id: &str, message: &str) -> (request: OutgoingRequest)
        ensures
            request@ == messages_request(self@, text_message_payload(recipient_id@, message@)),
    {
        let mut payload = String::from_str("{\"message\":{\"text\":");
        let text = json_string(message);
        payload.append(text.as_str());
        payload.append("},\"recipient\":{\"id\":");
        let id = json_string(recipient_id);
        payload.append(id.as_str());
        payload.append("}}");
        self.send_raw(payload)
    }

    /// The request that posts `payload` to the messages endpoint.
    fn send_raw(&self, payload: String) -> (request: OutgoingRequest)
        ensures
            request@ == messages_request(self@, payload@),
    {
        let request_endpoint = self.graph_url.clone().concat("/me/messages");
        let data = String::from_str("access_token=").concat(self.access_token.as_str());
        self.post(request_endpoint, data, payload)
    }

    /// The POST request of `body` to `url` with the query `data`.
    fn post(&self, url: String, data: String, body: String) -> (request: OutgoingRequest)
        ensures
            request@ == post_request(url@, data@, body@),
    {
        let request_url = url.concat("?").concat(data.as_str());
        OutgoingRequest { url: request_url, content_type: String::from_str("application/json"), body }
    }
}

/// The text that `callback` answers a message text with.
pub open spec fn reply_text(callback: MessageCallback, text: Seq<char>) -> Seq<char> {
    match callback {
        MessageCallback::Echo => text,
        MessageCallback::EchoWithPrefix => prefixed_echo_text(text),
    }
}

impl MessageCallback {
    /// Runs the handler: the request that answers `message` as `bot`.
    pub fn call(&self, bot: &Bot, message: &MessageEntry) -> (request: OutgoingRequest)
        ensures
            request@ == messages_request(
                bot@,
                text_message_payload(message.sender.id@, reply_text(*self, message.message.text@)),
            ),
    {
        match self {
            MessageCallback::Echo => echo_message(bot, message),
            MessageCallback::EchoWithPrefix => echo_message_with_prefix(bot, message),
        }
    }
}

/// The token that the application sends as for `page_id`: the page's token
/// when it manages the page, else the empty string.
pub open spec fn page_access_token(app: AppView, page_id: Seq<char>) -> Seq<char> {
    if app.pages.contains_key(page_id) {
        app.pages[page_id].access_token
    } else {
        Seq::empty()
    }
}

/// The handler of the messages to `page_id`: the page's own when it manages
/// the page and the page has one, else the echo handler.
pub open spec fn page_callback(app: AppView, page_id: Seq<char>) -> MessageCallback {
    if app.pages.contains_key(page_id) && app.pages[page_id].message_callback is Some {
        app.pages[page_id].message_callback->0
    } else {
        MessageCallback::Echo
    }
}

/// The bot that answers the messages to `page_id`.
pub open spec fn page_bot(app: AppView, page_id: Seq<char>) -> BotView {
    bot_view(page_access_token(app, page_id), app.app_secret, app.webhook_verify_token)
}

/// The request that answers `message`: the handler of the page it was sent
/// to, run as that page's bot.
pub open spec fn message_request(app: AppView, message: MessageEntry) -> RequestView {
    let page_id = message.recipient.id@;
    messages_request(
        page_bot(app, page_id),
        text_message_payload(
            message.sender.id@,
            reply_text(page_callback(app, page_id), message.message.text@),
        ),
    )
}

impl FacebookApp {
    /// Answers one incoming message: the page it was sent to decides the
    /// token and the handler; an unmanaged page gets the empty token and the
    /// echo handler.
    pub fn handle_message(&self, message: &MessageEntry) -> (request: OutgoingRequest)
        ensures
            request@ == message_request(self@, *message),
    {
        let id = &message.recipient.id;
        let mut message_callback: Option<MessageCallback> = None;
        let mut access_token: Option<String> = None;
        match self.page_config.get(id.as_str()) {
            Some(page) => {
                access_token = Some(page.access_token.clone());
                message_callback = page.message_callback;
            },
            None => {},
        }
        let token = match access_token {
            Some(t) => t,
            None => String::new(),
        };
        let bot = Bot::new(token.as_str(), self.app_secret.as_str(), self.webhook_verify_token.as_str());
        let callback = match message_callback {
            Some(c) => c,
            None => MessageCallback::Echo,
        };
        callback.call(&bot, message)
    }
}

/// Where a request to the application goes, by its method.
#[derive(Clone, Copy, PartialEq, Eq, Structural, Debug)]
pub enum Route {
    /// `POST`: a webhook post with messages.
    WebhookPost,
    /// `GET`: a webhook verification request.
    Verification,
    /// Any other method: refused with 405.
    MethodNotAllowed,
}

/// The route of a request with the method `method`.
pub open spec fn route_of(method: Seq<char>) -> Route {
    if method == "POST"@ {
        Route::WebhookPost
    } else if method == "GET"@ {
        Route::Verification
    } else {
        Route::MethodNotAllowed
    }
}

impl FacebookApp {
    /// Routes a request by its method: `POST` to the webhook post handler,
    /// `GET` to verification, anything else to a 405 answer.
    pub fn route(method: &str) -> (route: Route)
        ensures
            route == route_of(method@),
    {
        let m = method.to_owned();
        if m == String::from_str("POST") {
            Route::WebhookPost
        } else if m == String::from_str("GET") {
            Route::Verification
        } else {
            Route::MethodNotAllowed
        }
    }
}

/// The last `hub.challenge` pair is one of the query's `hub.challenge` pairs,
/// and there is none exactly when no pair is named `hub.challenge`.
proof fn lemma_last_challenge(pairs: Seq<(Seq<char>, Seq<char>)>)
    ensures
        last_challenge(pairs) matches Some(c) ==> exists|i: int|
            0 <= i < pairs.len() && #[trigger] pairs[i] == (hub_challenge(), c),
        last_challenge(pairs) is None <==> forall|i: int|
            0 <= i < pairs.len() ==> (#[trigger] pairs[i]).0 != hub_challenge(),
    decreases pairs.len(),
{
    if pairs.len() > 0 {
        let rest = pairs.drop_last();
        lemma_last_challenge(rest);
        if pairs.last().0 == hub_challenge() {
            assert(pairs[pairs.len() - 1] == (hub_challenge(), pairs.last().1));
        } else {
            if let Some(c) = last_challenge(rest) {
                let i: int = choose|i: int| 0 <= i < rest.len() && #[trigger] rest[i] == (hub_challenge(), c);
                assert(pairs[i] == rest[i]);
            } else {
                assert forall|i: int| 0 <= i < pairs.len() implies (#[trigger] pairs[i]).0 != hub_challenge() by {
                    if i < rest.len() {
                        assert(pairs[i] == rest[i]);
                    }
                }
            }
            if last_challenge(pairs) is None {
                assert forall|i: int| 0 <= i < rest.len() implies (#[trigger] rest[i]).0 != hub_challenge() by {
                    assert(pairs[i] == rest[i]);
                }
            }
        }
    }
}

/// Webhook verification answers only a query that carries the application's
/// verify token, and answers it with the value of one of the query's own
/// `hub.challenge` pairs; a query with the token is answered exactly when it
/// has a `hub.challenge` pair.
pub proof fn law_verification_answers_with_query_challenge(
    pairs: Seq<(Seq<char>, Seq<char>)>,
    token: Seq<char>,
)
    ensures
        webhook_verification(pairs, token) is Some ==> carries_verify_token(pairs, token),
        webhook_verification(pairs, token) matches Some(c) ==> exists|i: int|
            0 <= i < pairs.len() && #[trigger] pairs[i] == (hub_challenge(), c),
        carries_verify_token(pairs, token) ==> (webhook_verification(pairs, token) is Some
            <==> exists|i: int| 0 <= i < pairs.len() && (#[trigger] pairs[i]).0 == hub_challenge()),
{
    lemma_last_challenge(pairs);
}

/// A list of page settings configures exactly the page ids that some pair
/// names.
pub proof fn law_configured_pages(config: Seq<(Seq<char>, PageView)>, page_id: Seq<char>)
    ensures
        pages_of(config).contains_key(page_id) <==> exists|i: int|
            0 <= i < config.len() && (#[trigger] config[i]).0 == page_id,
    decreases config.len(),
{
    if config.len() > 0 {
        let rest = config.drop_last();
        law_configured_pages(rest, page_id);
        if pages_of(rest).contains_key(page_id) {
            let i: int = choose|i: int| 0 <= i < rest.len() && (#[trigger] rest[i]).0 == page_id;
            assert(config[i] == rest[i]);
        }
        if exists|i: int| 0 <= i < config.len() && (#[trigger] config[i]).0 == page_id {
            let i: int = choose|i: int| 0 <= i < config.len() && (#[trigger] config[i]).0 == page_id;
            if i < rest.len() {
                assert(rest[i] == config[i]);
            }
        }
    }
}

/// The page configured for an id is the one of the last pair that names it:
/// a later setting for the same page replaces an earlier one.
pub proof fn law_last_page_setting_wins(config: Seq<(Seq<char>, PageView)>, i: int)
    requires
        0 <= i < config.len(),
        forall|j: int| i < j < config.len() ==> (#[trigger] config[j]).0 != config[i].0,
    ensures
        pages_of(config).contains_key(config[i].0),
        pages_of(config)[config[i].0] == config[i].1,
    decreases config.len(),
{
    if i < config.len() - 1 {
        let rest = config.drop_last();
        assert(rest[i] == config[i]);
        assert forall|j: int| i < j < rest.len() implies (#[trigger] rest[j]).0 != rest[i].0 by {
            assert(rest[j] == config[j]);
        }
        law_last_page_setting_wins(rest, i);
        assert(config[config.len() - 1].0 != config[i].0);
    }
}

/// A message to a page the application does not manage is echoed back to its
/// sender, sent with the empty page token.
pub proof fn law_unmanaged_page_is_echoed(app: AppView, message: MessageEntry)
    requires
        !app.pages.contains_key(message.recipient.id@),
    ensures
        message_request(app, message) == messages_request(
            bot_view(Seq::empty(), app.app_secret, app.webhook_verify_token),
            text_message_payload(message.sender.id@, message.message.text@),
        ),
{
}

/// When the query carries the verify token, the answer is the value of the
/// last pair named `hub.challenge`, whole: no later pair of that name, none
/// earlier, and not a part of it.
pub proof fn law_verification_returns_last_challenge(
    pairs: Seq<(Seq<char>, Seq<char>)>,
    token: Seq<char>,
    i: int,
    k: int,
)
    requires
        0 <= i < pairs.len(),
        pairs[i].0 == "hub.challenge"@,
        forall|j: int| i < j < pairs.len() ==> (#[trigger] pairs[j]).0 != "hub.challenge"@,
        0 <= k < pairs.len(),
        pairs[k] == ("hub.verify_token"@, token),
    ensures
        webhook_verification(pairs, token) == Some(pairs[i].1),
    decreases pairs.len(),
{
    assert(carries_verify_token(pairs, token)) by {
        assert(pairs[k] == (hub_verify_token(), token));
    }
    lemma_last_challenge_at(pairs, i);
}

/// The last `hub.challenge` pair at index `i` is the one `last_challenge` gives.
proof fn lemma_last_challenge_at(pairs: Seq<(Seq<char>, Seq<char>)>, i: int)
    requires
        0 <= i < pairs.len(),
        pairs[i].0 == "hub.challenge"@,
        forall|j: int| i < j < pairs.len() ==> (#[trigger] pairs[j]).0 != "hub.challenge"@,
    ensures
        last_challenge(pairs) == Some(pairs[i].1),
    decreases pairs.len(),
{
    if i < pairs.len() - 1 {
        let rest = pairs.drop_last();
        assert(pairs[pairs.len() - 1].0 != "hub.challenge"@);
        assert(rest[i] == pairs[i]);
        assert forall|j: int| i < j < rest.len() implies (#[trigger] rest[j]).0 != "hub.challenge"@ by {
            assert(rest[j] == pairs[j]);
        }
        lemma_last_challenge_at(rest, i);
    }
}

/// A query that has no `hub.verify_token` pair holding the application's
/// token is refused, whatever else it holds.
pub proof fn law_verification_refuses_without_token(pairs: Seq<(Seq<char>, Seq<char>)>, token: Seq<char>)
    requires
        forall|k: int| 0 <= k < pairs.len() ==> #[trigger] pairs[k] != ("hub.verify_token"@, token),
    ensures
        webhook_verification(pairs, token) is None,
{
}

/// A query with the token but no pair named `hub.challenge` is refused.
pub proof fn law_verification_refuses_without_challenge(pairs: Seq<(Seq<char>, Seq<char>)>, token: Seq<char>)
    requires
        forall|k: int| 0 <= k < pairs.len() ==> (#[trigger] pairs[k]).0 != "hub.challenge"@,
    ensures
        webhook_verification(pairs, token) is None,
{
    lemma_last_challenge(pairs);
}

/// The echo handler answers with the text itself; the prefixed one with
/// `"you said: "` followed by the whole text.
pub proof fn law_reply_text(text: Seq<char>)
    ensures
        reply_text(MessageCallback::Echo, text) == text,
        reply_text(MessageCallback::EchoWithPrefix, text) == "you said: "@ + text,
{
    crate::games::echo::law_prefixed_echo(text);
}

/// A managed page is answered with its own token, and with its own handler
/// when its setting names one; otherwise with the echo handler. An unmanaged
/// page gets the empty token and the echo handler.
pub proof fn law_page_settings_decide(app: AppView, page_id: Seq<char>)
    ensures
        app.pages.contains_key(page_id) ==> page_access_token(app, page_id)
            == app.pages[page_id].access_token,
        !app.pages.contains_key(page_id) ==> page_access_token(app, page_id) == Seq::<char>::empty(),
        forall|c: MessageCallback|
            app.pages.contains_key(page_id) && app.pages[page_id].message_callback == Some(c)
                ==> #[trigger] page_callback(app, page_id) == c,
        app.pages.contains_key(page_id) && app.pages[page_id].message_callback is None
            ==> page_callback(app, page_id) == MessageCallback::Echo,
        !app.pages.contains_key(page_id) ==> page_callback(app, page_id) == MessageCallback::Echo,
{
}

/// A message to a managed page whose handler is `c` is answered, as that
/// page's bot, to its sender, with the text that `c` makes of the message's
/// text: the text itself for the echo, `"you said: "` and the text for the
/// prefixed echo.
pub proof fn law_managed_page_answer(app: AppView, message: MessageEntry, c: MessageCallback)
    requires
        app.pages.contains_key(message.recipient.id@),
        app.pages[message.recipient.id@].message_callback == Some(c),
    ensures
        message_request(app, message) == messages_request(
            bot_view(
                app.pages[message.recipient.id@].access_token,
                app.app_secret,
                app.webhook_verify_token,
            ),
            text_message_payload(
                message.sender.id@,
                if c == MessageCallback::Echo {
                    message.message.text@
                } else {
                    "you said: "@ + message.message.text@
                },
            ),
        ),
{
    law_reply_text(message.message.text@);
}

/// The body that sends `text` to `recipient_id` is the JSON object
/// `{"message":{"text":..},"recipient":{"id":..}}` holding `serde_json`'s
/// text of the message text and of the recipient id, whatever characters they
/// hold.
pub proof fn law_text_payload_frames_json(recipient_id: Seq<char>, text: Seq<char>)
    ensures
        text_message_payload(recipient_id, text) == "{\"message\":{\"text\":"@ + json_string_text(text)
            + "},\"recipient\":{\"id\":"@ + json_string_text(recipient_id) + "}}"@,
{
}

/// The body carries the message text unchanged: two texts sent to the same
/// recipient give the same body exactly when `serde_json` writes them the
/// same; likewise for two recipients of the same text.
pub proof fn law_text_payload_carries_text(recipient_id: Seq<char>, t1: Seq<char>, t2: Seq<char>)
    ensures
        text_message_payload(recipient_id, t1) == text_message_payload(recipient_id, t2)
            <==> json_string_text(t1) == json_string_text(t2),
        text_message_payload(t1, recipient_id) == text_message_payload(t2, recipient_id)
            <==> json_string_text(t1) == json_string_text(t2),
{
    let a = "{\"message\":{\"text\":"@;
    let b = "},\"recipient\":{\"id\":"@;
    let e = "}}"@;
    let ji = json_string_text(recipient_id);
    let j1 = json_string_text(t1);
    let j2 = json_string_text(t2);
    let p1 = a + j1 + b + ji + e;
    let p2 = a + j2 + b + ji + e;
    if p1 == p2 {
        assert(p1.len() == a.len() + j1.len() + b.len() + ji.len() + e.len());
        assert(p2.len() == a.len() + j2.len() + b.len() + ji.len() + e.len());
        assert(j1.len() == j2.len());
        assert(j1 =~= p1.subrange(a.len() as int, (a.len() + j1.len()) as int));
        assert(j2 =~= p2.subrange(a.len() as int, (a.len() + j2.len()) as int));
    }
    let q1 = a + ji + b + j1 + e;
    let q2 = a + ji + b + j2 + e;
    if q1 == q2 {
        assert(q1.len() == a.len() + ji.len() + b.len() + j1.len() + e.len());
        assert(q2.len() == a.len() + ji.len() + b.len() + j2.len() + e.len());
        assert(j1.len() == j2.len());
        let off: int = (a.len() + ji.len() + b.len()) as int;
        assert(j1 =~= q1.subrange(off, off + j1.len()));
        assert(j2 =~= q2.subrange(off, off + j2.len()));
    }
}

/// A bot posts to the Graph API at `https://graph.facebook.com/v2.7`: its
/// messages go to `/me/messages` with its page token as the `access_token`
/// query, as JSON, with the payload as the body unchanged.
pub proof fn law_messages_request(access_token: Seq<char>, app_secret: Seq<char>, verify_token: Seq<char>, payload: Seq<char>)
    ensures
        bot_view(access_token, app_secret, verify_token).graph_url == "https://graph.facebook.com/v2.7"@,
        messages_request(bot_view(access_token, app_secret, verify_token), payload).url
            == "https://graph.facebook.com/v2.7"@ + "/me/messages"@ + "?"@ + "access_token="@ + access_token,
        messages_request(bot_view(access_token, app_secret, verify_token), payload).content_type
            == "application/json"@,
        messages_request(bot_view(access_token, app_secret, verify_token), payload).body == payload,
{
}

/// `POST` requests go to the webhook post handler and `GET` requests to
/// verification; every other method, and only those, is refused.
pub proof fn law_route_by_method(method: Seq<char>)
    ensures
        route_of("POST"@) == Route::WebhookPost,
        route_of("GET"@) == Route::Verification,
        route_of(method) == Route::WebhookPost ==> method == "POST"@,
        route_of(method) == Route::Verification ==> method == "GET"@,
        method != "POST"@ && method != "GET"@ ==> route_of(method) == Route::MethodNotAllowed,
{
    reveal_strlit("POST");
    reveal_strlit("GET");
    assert("GET"@.len() != "POST"@.len());
}

} // verus!
