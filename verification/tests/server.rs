use google_admin_mcp::config::{CapabilityProfile, Cli, Settings};
use google_admin_mcp::error::GoogleAdminError;
use google_admin_mcp::google_api::{
    ga4_account_summaries_outcome, ga4_account_summaries_reply, ga4_account_summaries_request,
    status_is_success,
};
use google_admin_mcp::server::{authorize_tool_call, is_tool_allowed, tool_is_mutating};
use google_admin_mcp::tool_surface::tool_capabilities;

#[test]
fn profiles() {
    assert_eq!(CapabilityProfile::ReadOnly.as_str(), "read_only");
    assert_eq!(CapabilityProfile::Operator.as_str(), "operator");
    assert!(!CapabilityProfile::ReadOnly.allows_mutation());
    assert!(CapabilityProfile::Operator.allows_mutation());
}

#[test]
fn settings_from_cli() {
    let s = Settings::from(Cli {
        profile: CapabilityProfile::Operator,
        default_quota_project: Some("q".to_string()),
        print_tools: true,
        print_tool_schema: false,
    });
    assert_eq!(s.profile, CapabilityProfile::Operator);
    assert_eq!(s.default_quota_project.as_deref(), Some("q"));
    assert!(s.print_tools);
    assert!(!s.print_tool_schema);
}

#[test]
fn policy_decisions() {
    assert!(tool_is_mutating("google_adc_revoke"));
    assert!(!tool_is_mutating("google_auth_status"));
    assert!(!is_tool_allowed(CapabilityProfile::ReadOnly, "google_adc_revoke"));
    assert!(is_tool_allowed(CapabilityProfile::Operator, "google_adc_revoke"));
    assert!(is_tool_allowed(CapabilityProfile::ReadOnly, "find_tools"));
    assert!(authorize_tool_call(CapabilityProfile::ReadOnly, "find_tools", true).is_ok());
    match authorize_tool_call(CapabilityProfile::ReadOnly, "google_adc_revoke", true) {
        Err(err @ GoogleAdminError::PolicyDenied { .. }) => {
            assert_eq!(err.code(), "POLICY_DENIED");
            assert_eq!(err.reason(), "policy_denied");
            if let GoogleAdminError::PolicyDenied { profile, tool } = err {
                assert_eq!(profile, "read_only");
                assert_eq!(tool, "google_adc_revoke");
            }
        }
        other => panic!("unexpected {other:?}"),
    }
    match authorize_tool_call(CapabilityProfile::Operator, "unknown_tool", false) {
        Err(GoogleAdminError::PolicyDenied { profile, .. }) => assert_eq!(profile, "operator"),
        other => panic!("unexpected {other:?}"),
    }
}

#[test]
fn error_codes() {
    let e = GoogleAdminError::UpstreamApi { status: 503, message: "x".to_string() };
    assert_eq!((e.code(), e.reason(), e.category()), ("UPSTREAM_UNAVAILABLE", "upstream_unavailable", "upstream_api"));
    let e = GoogleAdminError::UpstreamApi { status: 403, message: "x".to_string() };
    assert_eq!((e.code(), e.reason(), e.category()), ("UPSTREAM_REJECTED", "upstream_rejected", "upstream_api"));
    let e = GoogleAdminError::invalid("field", "bad".to_string());
    assert_eq!((e.code(), e.reason(), e.category()), ("INVALID_PARAMS", "invalid_params", "validation"));
    let e = GoogleAdminError::MissingCommand("gcloud".to_string());
    assert_eq!((e.code(), e.reason(), e.category()), ("LOCAL_DEPENDENCY_MISSING", "missing_command", "local_command"));
    let e = GoogleAdminError::AuthNotConfigured("x".to_string());
    assert_eq!((e.code(), e.reason(), e.category()), ("AUTHENTICATION_REQUIRED", "auth_not_configured", "auth"));
    let e = GoogleAdminError::Json(serde_json::from_str::<serde_json::Value>("{").unwrap_err());
    assert_eq!((e.code(), e.reason(), e.category()), ("JSON_PARSE_ERROR", "json_parse", "parse"));
    let e = GoogleAdminError::Io(std::io::Error::new(std::io::ErrorKind::Other, "x"));
    assert_eq!((e.code(), e.reason(), e.category()), ("IO_ERROR", "io", "io"));
}

#[test]
fn ga4_request_plan() {
    let r = ga4_account_summaries_request("tok", Some("  my-proj "), None).unwrap();
    assert_eq!(r.authorization, "Bearer tok");
    assert_eq!(r.user_project.as_deref(), Some("my-proj"));
    assert_eq!(r.page_size, "20");
    let r = ga4_account_summaries_request("tok", Some("  "), Some(900)).unwrap();
    assert!(r.user_project.is_none());
    assert_eq!(r.page_size, "200");
    let r = ga4_account_summaries_request("tok", None, Some(0)).unwrap();
    assert_eq!(r.page_size, "1");
    match ga4_account_summaries_request("bad\ntoken", None, None) {
        Err(GoogleAdminError::InvalidArgument { field, message }) => {
            assert_eq!(field, "access_token");
            assert_eq!(message, "invalid bearer token: failed to parse header value");
        }
        other => panic!("unexpected {other:?}"),
    }
    match ga4_account_summaries_request("tok", Some("a\u{7f}b"), None) {
        Err(GoogleAdminError::InvalidArgument { field, message }) => {
            assert_eq!(field, "quota_project");
            assert_eq!(message, "invalid header value: failed to parse header value");
        }
        other => panic!("unexpected {other:?}"),
    }
    // tabs and non-ASCII text may stand in a header value
    assert!(ga4_account_summaries_request("t\tk", Some("prøj"), None).is_ok());
}

#[test]
fn ga4_reply_outcome() {
    assert!(status_is_success(200));
    assert!(status_is_success(299));
    assert!(!status_is_success(300));
    assert!(ga4_account_summaries_outcome(200, None).is_ok());
    match ga4_account_summaries_outcome(403, Some("denied".to_string())) {
        Err(GoogleAdminError::UpstreamApi { status, message }) => {
            assert_eq!(status, 403);
            assert_eq!(message, "denied");
        }
        other => panic!("unexpected {other:?}"),
    }
    match ga4_account_summaries_outcome(500, None) {
        Err(e @ GoogleAdminError::UpstreamApi { .. }) => {
            assert_eq!(e.code(), "UPSTREAM_UNAVAILABLE");
            if let GoogleAdminError::UpstreamApi { message, .. } = e {
                assert_eq!(message, "upstream request failed");
            }
        }
        other => panic!("unexpected {other:?}"),
    }
}

#[test]
fn tool_table() {
    let tools = tool_capabilities();
    let names: Vec<&str> = tools.iter().map(|t| t.name.as_str()).collect();
    assert_eq!(
        names,
        vec![
            "find_tools",
            "google_auth_status",
            "google_adc_login_command",
            "google_oauth_client_file_validate",
            "google_cloud_projects_list",
            "google_ga4_account_summaries_smoke",
        ]
    );
    assert!(tools.iter().all(|t| t.read_only));
    assert!(tools.iter().all(|t| !tool_is_mutating(&t.name)));
    assert_eq!(tools[5].group, "analytics");
    assert!(tools[5].keywords.contains(&"ga4".to_string()));
    assert!(tools[5].keywords.contains(&"account".to_string()));
}

#[test]
fn ga4_reply_reading() {
    let ok = ga4_account_summaries_reply(200, r#"{"accountSummaries":[]}"#).unwrap();
    assert!(ok["accountSummaries"].is_array());
    // a body that is not JSON is a JSON error whatever the status
    assert_eq!(ga4_account_summaries_reply(200, "<html>").unwrap_err().code(), "JSON_PARSE_ERROR");
    assert_eq!(ga4_account_summaries_reply(503, "<html>").unwrap_err().code(), "JSON_PARSE_ERROR");
    match ga4_account_summaries_reply(403, r#"{"error":{"message":"The caller does not have permission"}}"#) {
        Err(GoogleAdminError::UpstreamApi { status, message }) => {
            assert_eq!(status, 403);
            assert_eq!(message, "The caller does not have permission");
        }
        other => panic!("unexpected {other:?}"),
    }
    match ga4_account_summaries_reply(502, r#"{"error":{"message":7}}"#) {
        Err(e @ GoogleAdminError::UpstreamApi { .. }) => {
            assert_eq!(e.code(), "UPSTREAM_UNAVAILABLE");
            if let GoogleAdminError::UpstreamApi { message, .. } = e {
                assert_eq!(message, "upstream request failed");
            }
        }
        other => panic!("unexpected {other:?}"),
    }
}

#[test]
fn ga4_reply_document_is_the_body() {
    let body = r#"{"accountSummaries":[{"account":"accounts/1"}]}"#;
    let doc = ga4_account_summaries_reply(204, body).unwrap();
    assert_eq!(doc, serde_json::from_str::<serde_json::Value>(body).unwrap());
}

#[test]
fn ga4_request_headers_carry_their_texts() {
    let r = ga4_account_summaries_request("tok", Some(" proj "), None).unwrap();
    assert_eq!(r.authorization_header.to_str().unwrap(), "Bearer tok");
    assert_eq!(r.user_project_header.as_ref().unwrap().to_str().unwrap(), "proj");
    let r = ga4_account_summaries_request("tok", None, None).unwrap();
    assert!(r.user_project_header.is_none());
}
