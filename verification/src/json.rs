use vstd::prelude::*;

use crate::tools::{OAuthClientJson, OAuthClientSection};

verus! {

/// `serde_json::Value`, a parsed JSON document handed on unread.
#[verifier::external_type_specification]
#[verifier::external_body]
pub struct ExJsonValue(serde_json::Value);

/// What `serde_json::from_str::<Value>` makes of the text: the document, or
/// nothing when the text is not JSON.
pub uninterp spec fn json_document(text: Seq<char>) -> Option<serde_json::Value>;

/// Whether the text is JSON.
pub open spec fn json_parses(text: Seq<char>) -> bool {
    json_document(text) is Some
}

/// The string at `/error/message` of the JSON text, when there is one there.
pub uninterp spec fn json_error_message(text: Seq<char>) -> Option<Seq<char>>;

/// The `installed` and `web` members of the JSON text, each with the
/// `client_id`, `client_secret` and `token_uri` it holds as strings.
pub uninterp spec fn oauth_client_of(text: Seq<char>) -> (
    Option<(Option<Seq<char>>, Option<Seq<char>>, Option<Seq<char>>)>,
    Option<(Option<Seq<char>>, Option<Seq<char>>, Option<Seq<char>>)>,
);

pub open spec fn opt_text(o: Option<String>) -> Option<Seq<char>> {
    match o {
        Some(s) => Some(s@),
        None => None,
    }
}

/// `serde_json::from_str::<Value>`: the document, when the text is JSON.
#[verifier::external_body]
pub(crate) fn parse_json(text: &str) -> (res: Result<serde_json::Value, serde_json::Error>)
    ensures
        res is Ok <==> json_parses(text@),
        res matches Ok(v) ==> json_document(text@) == Some(v),
{
    serde_json::from_str(text)
}

/// `serde_json::from_str::<Value>`, then `pointer("/error/message")` read as
/// a string: the document and its error message, when the text is JSON.
#[verifier::external_body]
pub(crate) fn parse_reply(body: &str) -> (res: Result<
    (serde_json::Value, Option<String>),
    serde_json::Error,
>)
    ensures
        res is Ok <==> json_parses(body@),
        res matches Ok((v, m)) ==> json_document(body@) == Some(v) && opt_text(m)
            == json_error_message(body@),
{
    let value: serde_json::Value = serde_json::from_str(body)?;
    let message = value.pointer("/error/message").and_then(serde_json::Value::as_str).map(
        str::to_string,
    );
    Ok((value, message))
}

/// `serde_json::from_str::<Value>`, then `get` of `installed` and `web` and,
/// in each, `get(..).and_then(Value::as_str)` of the three client fields.
#[verifier::external_body]
pub(crate) fn parse_oauth_client_json(raw: &str) -> (res: Result<
    OAuthClientJson,
    serde_json::Error,
>)
    ensures
        res is Ok <==> json_parses(raw@),
        res matches Ok(doc) ==> crate::tools::client_file_text(doc) == oauth_client_of(raw@),
{
    let value: serde_json::Value = serde_json::from_str(raw)?;
    let text = |c: &serde_json::Value, key: &str| c.get(key).and_then(serde_json::Value::as_str).map(str::to_string);
    let section = |c: &serde_json::Value| OAuthClientSection {
        client_id: text(c, "client_id"),
        client_secret: text(c, "client_secret"),
        token_uri: text(c, "token_uri"),
    };
    Ok(OAuthClientJson { installed: value.get("installed").map(section), web: value.get("web").map(section) })
}

} // verus!
