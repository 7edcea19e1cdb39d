use vstd::prelude::*;
use vstd::string::*;

use crate::error::GoogleAdminError;
use crate::json::{json_document, json_error_message, json_parses, opt_text, parse_reply};
use crate::text::{clamp, clamp_u32, decimal, is_blank, is_blank_str, trim, trim_seq, u32_to_decimal};

verus! {

/// The Analytics Admin endpoint that lists account summaries.
pub const ACCOUNT_SUMMARIES_URL: &'static str =
    "https://analyticsadmin.googleapis.com/v1beta/accountSummaries";

/// A character whose UTF-8 bytes may all stand in an HTTP header value:
/// bytes from 32 up, save 127, and tab. Every byte of a non-ASCII character
/// is at least 128.
pub open spec fn header_char_ok(c: char) -> bool {
    c == '\t' || ((c as int) >= 32 && (c as int) != 127)
}

pub open spec fn header_text_ok(s: Seq<char>) -> bool {
    forall|i: int| 0 <= i < s.len() ==> header_char_ok(#[trigger] s[i])
}

/// `http::HeaderValue`, a header value ready to be sent.
#[verifier::external_type_specification]
#[verifier::external_body]
pub struct ExHeaderValue(reqwest::header::HeaderValue);

/// The header value that `http::HeaderValue::from_str` makes of a text it
/// accepts (a copy of its bytes, not marked sensitive).
pub uninterp spec fn header_of(text: Seq<char>) -> reqwest::header::HeaderValue;

/// `http::HeaderValue::from_str`: the header value when `value` may stand in
/// a header, else the text of the `InvalidHeaderValue` error.
#[verifier::external_body]
fn header_value(value: &str) -> (res: Result<reqwest::header::HeaderValue, String>)
    ensures
        res is Ok <==> header_text_ok(value@),
        res matches Ok(h) ==> h == header_of(value@),
        res matches Err(m) ==> m@ == "failed to parse header value"@,
{
    reqwest::header::HeaderValue::from_str(value).map_err(|err| err.to_string())
}

/// The parts of an account-summaries request.
#[derive(Debug)]
pub struct Ga4Request {
    /// The `Authorization` header value.
    pub authorization: String,
    /// The same, as a header value.
    pub authorization_header: reqwest::header::HeaderValue,
    /// The `x-goog-user-project` header value, if any.
    pub user_project: Option<String>,
    /// The same, as a header value.
    pub user_project_header: Option<reqwest::header::HeaderValue>,
    /// The `pageSize` query parameter.
    pub page_size: String,
}

/// The page size asked for: 20 by default, held to 1..=200.
pub open spec fn page_size_text(page_size: Option<u32>) -> Seq<char> {
    let p = match page_size {
        Some(p) => p as int,
        None => 20,
    };
    decimal(clamp(p, 1, 200) as nat)
}

/// The quota project sent: the trimmed value, unless absent or blank.
pub open spec fn user_project_of(quota_project: Option<Seq<char>>) -> Option<Seq<char>> {
    match quota_project {
        Some(q) => if is_blank(q) {
            None
        } else {
            Some(trim_seq(q))
        },
        None => None,
    }
}

pub open spec fn opt_str_view(o: Option<&str>) -> Option<Seq<char>> {
    match o {
        Some(s) => Some(s@),
        None => None,
    }
}

/// Whether an HTTP status is a success (2xx).
pub open spec fn is_success_status(status: u16) -> bool {
    200 <= status <= 299
}

/// Plans the GA4 account-summaries request: the bearer header, the optional
/// quota-project header and the page size. A token or quota project that
/// cannot stand in a header is refused.
pub fn ga4_account_summaries_request(
    access_token: &str,
    quota_project: Option<&str>,
    page_size: Option<u32>,
) -> (res: Result<Ga4Request, GoogleAdminError>)
    ensures
        !header_text_ok(access_token@) ==> (res matches Err(
            GoogleAdminError::InvalidArgument { field, message },
        ) && field@ == "access_token"@ && message@
            == "invalid bearer token: failed to parse header value"@),
        (header_text_ok(access_token@) && (user_project_of(opt_str_view(quota_project)) matches Some(
            q,
        ) && !header_text_ok(q))) ==> (res matches Err(
            GoogleAdminError::InvalidArgument { field, message },
        ) && field@ == "quota_project"@ && message@
            == "invalid header value: failed to parse header value"@),
        res is Ok <==> header_text_ok(access_token@) && match user_project_of(
            opt_str_view(quota_project),
        ) {
            Some(q) => header_text_ok(q),
            None => true,
        },
        res matches Ok(r) ==> {
            &&& r.authorization@ == "Bearer "@ + access_token@
            &&& r.authorization_header == header_of(r.authorization@)
            &&& opt_text(r.user_project) == user_project_of(opt_str_view(quota_project))
            &&& match (r.user_project, r.user_project_header) {
                (Some(p), Some(h)) => h == header_of(p@),
                (None, None) => true,
                _ => false,
            }
            &&& r.page_size@ == page_size_text(page_size)
        },
{
    let p = match page_size {
        Some(p) => p,
        None => 20,
    };
    let page = u32_to_decimal(clamp_u32(p, 1, 200));
    let mut bearer = String::from_str("Bearer ");
    bearer.append(access_token);
    proof {
        reveal_strlit("Bearer ");
        assert forall|i: int| 0 <= i < "Bearer "@.len() implies header_char_ok(
            #[trigger] "Bearer "@[i],
        ) by {}
        if !header_text_ok(access_token@) {
            let i = choose|i: int| 0 <= i < access_token@.len() && !header_char_ok(
                #[trigger] access_token@[i],
            );
            assert(bearer@[i + 7] == access_token@[i]);
        } else {
            assert forall|i: int| 0 <= i < bearer@.len() implies header_char_ok(
                #[trigger] bearer@[i],
            ) by {
                if i >= 7 {
                    assert(bearer@[i] == access_token@[i - 7]);
                } else {
                    assert(bearer@[i] == "Bearer "@[i]);
                }
            }
        }
    }
    let authorization_header = match header_value(bearer.as_str()) {
        Err(err) => {
            let mut message = String::from_str("invalid bearer token: ");
            message.append(err.as_str());
            proof {
                reveal_strlit("invalid bearer token: ");
                reveal_strlit("failed to parse header value");
                reveal_strlit("invalid bearer token: failed to parse header value");
                assert(message@ =~= "invalid bearer token: failed to parse header value"@);
            }
            return Err(GoogleAdminError::invalid("access_token", message));
        },
        Ok(h) => h,
    };
    let (user_project, user_project_header) = match quota_project {
        Some(project) => {
            if is_blank_str(project) {
                (None, None)
            } else {
                let trimmed = trim(project);
                let header = match header_value(trimmed.as_str()) {
                    Err(err) => {
                        let mut message = String::from_str("invalid header value: ");
                        message.append(err.as_str());
                        proof {
                            reveal_strlit("invalid header value: ");
                            reveal_strlit("failed to parse header value");
                            reveal_strlit("invalid header value: failed to parse header value");
                            assert(message@ =~= "invalid header value: failed to parse header value"@);
                        }
                        return Err(GoogleAdminError::invalid("quota_project", message));
                    },
                    Ok(h) => h,
                };
                (Some(trimmed), Some(header))
            }
        },
        None => (None, None),
    };
    Ok(
        Ga4Request {
            authorization: bearer,
            authorization_header,
            user_project,
            user_project_header,
            page_size: page,
        },
    )
}

/// Whether the status is a success.
pub fn status_is_success(status: u16) -> (res: bool)
    ensures
        res == is_success_status(status),
        res <==> 200 <= status < 300,
{
    200 <= status && status <= 299
}

/// How an account-summaries reply that parsed as JSON, with `error_message`
/// at `/error/message`, is answered.
pub open spec fn ga4_outcome_answer(
    status: u16,
    error_message: Option<Seq<char>>,
    res: Result<(), GoogleAdminError>,
) -> bool {
    &&& is_success_status(status) ==> res is Ok
    &&& !is_success_status(status) ==> (res matches Err(
        GoogleAdminError::UpstreamApi { status: s, message },
    ) && s == status && message@ == match error_message {
        Some(m) => m,
        None => "upstream request failed"@,
    })
}

/// How an account-summaries reply that parsed as JSON is answered: a success
/// status is accepted, any other becomes an upstream error carrying the
/// reply's `error.message`, or a fixed text when it has none.
pub fn ga4_account_summaries_outcome(status: u16, error_message: Option<String>) -> (res: Result<
    (),
    GoogleAdminError,
>)
    ensures
        ga4_outcome_answer(status, opt_text(error_message), res),
        res is Ok <==> 200 <= status < 300,
{
    if status_is_success(status) {
        return Ok(());
    }
    let message = match error_message {
        Some(m) => m,
        None => String::from_str("upstream request failed"),
    };
    Err(GoogleAdminError::UpstreamApi { status, message })
}

/// How an account-summaries reply with the given status and body is answered.
pub open spec fn ga4_reply_answer(
    status: u16,
    body: Seq<char>,
    res: Result<serde_json::Value, GoogleAdminError>,
) -> bool {
    &&& !json_parses(body) ==> (res matches Err(GoogleAdminError::Json(_)))
    &&& json_parses(body) && is_success_status(status) ==> (res matches Ok(v) && json_document(
        body,
    ) == Some(v))
    &&& json_parses(body) && !is_success_status(status) ==> (res matches Err(
        GoogleAdminError::UpstreamApi { status: s, message },
    ) && s == status && message@ == match json_error_message(body) {
        Some(m) => m,
        None => "upstream request failed"@,
    })
}

/// Reads an account-summaries reply with the given status: a body that is not
/// JSON is a JSON error whatever the status; a JSON body is the answer under
/// a success status, and otherwise an upstream error carrying its
/// `error.message`, or a fixed text when it has none.
pub fn ga4_account_summaries_reply(status: u16, body: &str) -> (res: Result<
    serde_json::Value,
    GoogleAdminError,
>)
    ensures
        ga4_reply_answer(status, body@, res),
        res is Ok ==> 200 <= status < 300,
{
    let (value, message) = match parse_reply(body) {
        Ok(parsed) => parsed,
        Err(err) => {
            return Err(GoogleAdminError::Json(err));
        },
    };
    match ga4_account_summaries_outcome(status, message) {
        Ok(()) => Ok(value),
        Err(err) => Err(err),
    }
}

/// A reply is accepted only under a 2xx status: under any other status a
/// JSON reply is refused with an upstream error carrying that very status,
/// and 4xx ones are reported as rejected, 5xx ones as unavailable.
pub proof fn ga4_reply_accepted_only_under_2xx(
    status: u16,
    body: Seq<char>,
    res: Result<serde_json::Value, GoogleAdminError>,
)
    requires
        ga4_reply_answer(status, body, res),
    ensures
        res is Ok ==> 200 <= status < 300,
        json_parses(body) && (status < 200 || status >= 300) ==> (res matches Err(
            GoogleAdminError::UpstreamApi { status: s, .. },
        ) && s == status),
        json_parses(body) && 400 <= status < 500 ==> (res matches Err(e) && crate::error::error_code(
            &e,
        ) == "UPSTREAM_REJECTED"@),
        json_parses(body) && 500 <= status ==> (res matches Err(e) && crate::error::error_code(&e)
            == "UPSTREAM_UNAVAILABLE"@),
        json_parses(body) && 200 <= status < 300 ==> res is Ok,
{
}

/// The same for a reply whose error message has been read out: accepted
/// exactly under a 2xx status.
pub proof fn ga4_outcome_accepted_exactly_under_2xx(
    status: u16,
    error_message: Option<Seq<char>>,
    res: Result<(), GoogleAdminError>,
)
    requires
        ga4_outcome_answer(status, error_message, res),
    ensures
        res is Ok <==> 200 <= status < 300,
        (status < 200 || status >= 300) ==> (res matches Err(
            GoogleAdminError::UpstreamApi { status: s, .. },
        ) && s == status),
{
}

} // verus!
