//! The calls into `url`, `serde_json` and std that the bot's logic makes.
//! Each function here is believed, not proved: its doc comment says what is
//! claimed of the code it calls.
use vstd::prelude::*;

verus! {

/// The (name, value) pairs that `url::form_urlencoded::parse` reads from a
/// query string: pieces split at `&`, empty pieces skipped, each split at the
/// first `=`, `+` read as a space and percent-escapes decoded (lossy UTF-8).
pub uninterp spec fn form_urlencoded_pairs(query: Seq<char>) -> Seq<(Seq<char>, Seq<char>)>;

/// Calls `url::form_urlencoded::parse` on the bytes of `query` and collects the
/// pairs it yields, in order, as owned strings. Claimed: the pairs are the
/// named result `form_urlencoded_pairs` of the query; nothing more is said of
/// the decoding.
#[verifier::external_body]
pub(crate) fn parse_query_pairs(query: &str) -> (pairs: Vec<(String, String)>)
    ensures
        pairs.deep_view() == form_urlencoded_pairs(query@),
{
    url::form_urlencoded::parse(query.as_bytes()).into_owned().collect()
}

/// The JSON text that `serde_json` writes for a string value: the string in
/// double quotes, with `"`, `\` and control characters escaped.
pub uninterp spec fn json_string_text(s: Seq<char>) -> Seq<char>;

/// Writes `s` as a JSON string with the `Display` of `serde_json::Value`
/// (compact form). Claimed: the text is the named result `json_string_text`
/// of `s`; the escaping rules are not stated.
#[verifier::external_body]
pub(crate) fn json_string(s: &str) -> (text: String)
    ensures
        text@ == json_string_text(s@),
{
    serde_json::Value::String(s.to_owned()).to_string()
}

/// The value of the decimal digits `digits`.
pub open spec fn decimal_value(digits: Seq<char>) -> nat
    decreases digits.len(),
{
    if digits.len() == 0 {
        0
    } else {
        decimal_value(digits.drop_last()) * 10 + (digits.last() as nat - '0' as nat) as nat
    }
}

/// Every character of `s` is an ASCII digit.
pub open spec fn all_ascii_digits(s: Seq<char>) -> bool {
    forall|i: int| 0 <= i < s.len() ==> '0' <= #[trigger] s[i] <= '9'
}

/// What `u16::from_str` reads from `s`: an optional `+`, then one or more
/// ASCII digits whose value fits in a `u16`; anything else is an error.
pub open spec fn u16_from_str(s: Seq<char>) -> Option<u16> {
    let digits = if s.len() > 0 && s[0] == '+' {
        s.drop_first()
    } else {
        s
    };
    if digits.len() > 0 && all_ascii_digits(digits) && decimal_value(digits) <= u16::MAX {
        Some(decimal_value(digits) as u16)
    } else {
        None
    }
}

/// Parses `s` with std's `FromStr` for `u16`. Claimed, as std documents it:
/// an optional `+` sign followed by decimal digits is read as their value when
/// it fits in a `u16`; every other string (empty, a sign alone, `-`, any other
/// character, overflow) is an error.
#[verifier::external_body]
pub(crate) fn parse_u16(s: &str) -> (n: Option<u16>)
    ensures
        n == u16_from_str(s@),
{
    s.parse::<u16>().ok()
}

} // verus!
