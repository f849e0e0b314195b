use messenger_bot::echo_handler::handle_message;
use messenger_bot::facebook_app::{Bot, FacebookApp, FacebookPage, MessageCallback, Route};
use messenger_bot::games::echo::{echo_message, echo_message_with_prefix};
use messenger_bot::hello::get_server_port;
use messenger_bot::receive::handle_webhook_payload;
use messenger_bot::types::{
    AuthorEntry, MessageDetailsEntry, MessageEntry, WebhookEntry, WebhookPayload,
};
use messenger_bot::verification::{handle_verification, verification_response};

fn message(sender: &str, recipient: &str, text: &str) -> MessageEntry {
    MessageEntry {
        message: MessageDetailsEntry {
            mid: "mid.1".to_string(),
            seq: 4969,
            text: text.to_string(),
        },
        recipient: AuthorEntry { id: recipient.to_string() },
        sender: AuthorEntry { id: sender.to_string() },
        timestamp: 1491150178096,
    }
}

fn app_with_pages() -> FacebookApp {
    FacebookApp::new(
        "secret".to_string(),
        "meatyhamhock".to_string(),
        vec![
            (
                "971281182990192".to_string(),
                FacebookPage::new("PAGE_TOKEN".to_string(), Some(MessageCallback::EchoWithPrefix)),
            ),
            ("555".to_string(), FacebookPage::new("PLAIN".to_string(), None)),
        ],
    )
}

const MESSAGES_URL: &str = "https://graph.facebook.com/v2.7/me/messages?access_token=";

#[test]
fn verify_query_with_token_returns_challenge() {
    let app = app_with_pages();
    let q = "hub.mode=subscribe&hub.challenge=1158201444&hub.verify_token=meatyhamhock";
    assert_eq!(app.verify_webhook_query(q), Some("1158201444".to_string()));
}

#[test]
fn verify_query_token_before_challenge() {
    let app = app_with_pages();
    let q = "hub.verify_token=meatyhamhock&hub.challenge=abc";
    assert_eq!(app.verify_webhook_query(q), Some("abc".to_string()));
}

#[test]
fn verify_query_wrong_token_is_refused() {
    let app = app_with_pages();
    let q = "hub.challenge=1158201444&hub.verify_token=wrong";
    assert_eq!(app.verify_webhook_query(q), None);
}

#[test]
fn verify_query_without_token_is_refused() {
    let app = app_with_pages();
    assert_eq!(app.verify_webhook_query("hub.challenge=1158201444"), None);
    assert_eq!(app.verify_webhook_query(""), None);
}

#[test]
fn verify_query_without_challenge_is_none() {
    let app = app_with_pages();
    assert_eq!(app.verify_webhook_query("hub.verify_token=meatyhamhock"), None);
}

#[test]
fn verify_query_last_challenge_wins() {
    let app = app_with_pages();
    let q = "hub.challenge=first&hub.verify_token=meatyhamhock&hub.challenge=second";
    assert_eq!(app.verify_webhook_query(q), Some("second".to_string()));
}

#[test]
fn verify_query_decodes_values() {
    let app = app_with_pages();
    let q = "hub.challenge=a%20b+c&hub.verify_token=meaty%68amhock";
    assert_eq!(app.verify_webhook_query(q), Some("a b c".to_string()));
}

#[test]
fn verify_pairs_decides_on_pairs() {
    let app = app_with_pages();
    let pairs = vec![
        ("hub.challenge".to_string(), "c1".to_string()),
        ("hub.verify_token".to_string(), "meatyhamhock".to_string()),
        ("x".to_string(), "y".to_string()),
    ];
    assert_eq!(app.verify_webhook_pairs(&pairs), Some("c1".to_string()));
    let wrong = vec![
        ("hub.challenge".to_string(), "c1".to_string()),
        ("hub.verify_token".to_string(), "meatyhamhocK".to_string()),
    ];
    assert_eq!(app.verify_webhook_pairs(&wrong), None);
    let challenge_named_token = vec![
        ("hub.verify_token".to_string(), "meatyhamhock".to_string()),
        ("hub.challenge".to_string(), "meatyhamhock".to_string()),
    ];
    assert_eq!(app.verify_webhook_pairs(&challenge_named_token), Some("meatyhamhock".to_string()));
}

#[test]
fn handle_verification_answers_challenge() {
    let app = app_with_pages();
    let r = handle_verification(&app, "hub.challenge=42&hub.verify_token=meatyhamhock");
    assert_eq!(r.status, 200);
    assert_eq!(r.body, "42");
}

#[test]
fn handle_verification_refuses() {
    let app = app_with_pages();
    let r = handle_verification(&app, "hub.challenge=42&hub.verify_token=nope");
    assert_eq!(r.status, 400);
    assert_eq!(
        r.body,
        "Incorrect webhook_verify_token or No hub.challenge in hub.challenge=42&hub.verify_token=nope"
    );
    let empty = handle_verification(&app, "");
    assert_eq!(empty.status, 400);
    assert_eq!(empty.body, "Incorrect webhook_verify_token or No hub.challenge in ");
}

#[test]
fn verification_response_from_outcome() {
    let ok = verification_response(Some("c".to_string()), "q");
    assert_eq!((ok.status, ok.body.as_str()), (200, "c"));
    let no = verification_response(None, "q=1");
    assert_eq!(
        (no.status, no.body.as_str()),
        (400, "Incorrect webhook_verify_token or No hub.challenge in q=1")
    );
}

#[test]
fn send_text_message_builds_request() {
    let bot = Bot::new("TOKEN", "secret", "verify");
    let r = bot.send_text_message("1249910941788598", "ho");
    assert_eq!(r.url, format!("{}TOKEN", MESSAGES_URL));
    assert_eq!(r.content_type, "application/json");
    assert_eq!(r.body, r#"{"message":{"text":"ho"},"recipient":{"id":"1249910941788598"}}"#);
}

#[test]
fn send_text_message_escapes_json() {
    let bot = Bot::new("T", "s", "v");
    let r = bot.send_text_message("a\"b", "say \"hi\"\\\n\tend");
    assert_eq!(
        r.body,
        r#"{"message":{"text":"say \"hi\"\\\n\tend"},"recipient":{"id":"a\"b"}}"#
    );
    let parsed: serde_json::Value = serde_json::from_str(&r.body).unwrap();
    assert_eq!(parsed["message"]["text"], "say \"hi\"\\\n\tend");
    assert_eq!(parsed["recipient"]["id"], "a\"b");
}

#[test]
fn echo_games_answer_sender() {
    let bot = Bot::new("TOKEN", "secret", "verify");
    let m = message("1249910941788598", "971281182990192", "ho");
    let plain = echo_message(&bot, &m);
    assert_eq!(plain.body, r#"{"message":{"text":"ho"},"recipient":{"id":"1249910941788598"}}"#);
    let prefixed = echo_message_with_prefix(&bot, &m);
    assert_eq!(
        prefixed.body,
        r#"{"message":{"text":"you said: ho"},"recipient":{"id":"1249910941788598"}}"#
    );
    let handled = handle_message(&bot, &m);
    assert_eq!(handled.body, plain.body);
    assert_eq!(handled.url, plain.url);
}

#[test]
fn managed_page_uses_its_token_and_callback() {
    let app = app_with_pages();
    let r = app.handle_message(&message("u1", "971281182990192", "hello"));
    assert_eq!(r.url, format!("{}PAGE_TOKEN", MESSAGES_URL));
    assert_eq!(r.body, r#"{"message":{"text":"you said: hello"},"recipient":{"id":"u1"}}"#);
}

#[test]
fn managed_page_without_callback_echoes() {
    let app = app_with_pages();
    let r = app.handle_message(&message("u2", "555", "hey"));
    assert_eq!(r.url, format!("{}PLAIN", MESSAGES_URL));
    assert_eq!(r.body, r#"{"message":{"text":"hey"},"recipient":{"id":"u2"}}"#);
}

#[test]
fn unmanaged_page_echoes_with_empty_token() {
    let app = app_with_pages();
    let r = app.handle_message(&message("u3", "unknown", "yo"));
    assert_eq!(r.url, MESSAGES_URL);
    assert_eq!(r.body, r#"{"message":{"text":"yo"},"recipient":{"id":"u3"}}"#);
}

#[test]
fn later_page_config_replaces_earlier() {
    let app = FacebookApp::new(
        "s".to_string(),
        "v".to_string(),
        vec![
            ("p".to_string(), FacebookPage::new("OLD".to_string(), Some(MessageCallback::EchoWithPrefix))),
            ("p".to_string(), FacebookPage::new("NEW".to_string(), None)),
        ],
    );
    let r = app.handle_message(&message("u", "p", "x"));
    assert_eq!(r.url, format!("{}NEW", MESSAGES_URL));
    assert_eq!(r.body, r#"{"message":{"text":"x"},"recipient":{"id":"u"}}"#);
}

#[test]
fn webhook_payload_answers_every_message_in_order() {
    let app = app_with_pages();
    let payload = WebhookPayload {
        entry: vec![
            WebhookEntry {
                id: "971281182990192".to_string(),
                messaging: vec![
                    message("a", "971281182990192", "one"),
                    message("b", "971281182990192", "two"),
                ],
                time: 1491150178150,
            },
            WebhookEntry { id: "x".to_string(), messaging: vec![], time: 0 },
            WebhookEntry {
                id: "555".to_string(),
                messaging: vec![message("c", "555", "three")],
                time: 1491150178151,
            },
        ],
        object: "page".to_string(),
    };
    let requests = handle_webhook_payload(&app, &payload);
    assert_eq!(requests.len(), 3);
    assert_eq!(requests[0].body, r#"{"message":{"text":"you said: one"},"recipient":{"id":"a"}}"#);
    assert_eq!(requests[1].body, r#"{"message":{"text":"you said: two"},"recipient":{"id":"b"}}"#);
    assert_eq!(requests[2].body, r#"{"message":{"text":"three"},"recipient":{"id":"c"}}"#);
    assert_eq!(requests[2].url, format!("{}PLAIN", MESSAGES_URL));
}

#[test]
fn default_payload_is_parse_error_and_sends_nothing() {
    let payload = WebhookPayload::default();
    assert_eq!(payload.object, "ParseError");
    assert!(payload.entry.is_empty());
    let app = app_with_pages();
    assert!(handle_webhook_payload(&app, &payload).is_empty());
}

#[test]
fn route_by_method() {
    assert_eq!(FacebookApp::route("POST"), Route::WebhookPost);
    assert_eq!(FacebookApp::route("GET"), Route::Verification);
    assert_eq!(FacebookApp::route("PUT"), Route::MethodNotAllowed);
    assert_eq!(FacebookApp::route("post"), Route::MethodNotAllowed);
}

#[test]
fn server_port_from_variable() {
    assert_eq!(get_server_port(""), 8080);
    assert_eq!(get_server_port("3000"), 3000);
    assert_eq!(get_server_port("+80"), 80);
    assert_eq!(get_server_port("-1"), 8080);
    assert_eq!(get_server_port("70000"), 8080);
    assert_eq!(get_server_port("65535"), 65535);
    assert_eq!(get_server_port("80a"), 8080);
    assert_eq!(get_server_port("+"), 8080);
}
