use google_admin_mcp::error::GoogleAdminError;
use google_admin_mcp::google_cli::AdcFile;
use google_admin_mcp::tools::{
    adc_login_command_plan, find_tools_limit, tool_schema_positions, normalize_scopes, resolve_quota_project, shell_join,
    validate_oauth_client, validate_oauth_client_text, AdcLoginCommandArgs, AuthStatusArgs, OAuthClientJson, OAuthClientSection,
    CLOUD_PLATFORM_SCOPE, GA4_READONLY_SCOPE,
};

#[test]
fn normalize_scopes_defaults_to_ga4_and_cloud() {
    let scopes = normalize_scopes(None);
    assert!(scopes.contains(&GA4_READONLY_SCOPE.to_string()));
    assert!(scopes.contains(&CLOUD_PLATFORM_SCOPE.to_string()));
}

#[test]
fn normalize_scopes_sorts_dedups_and_drops_blank() {
    let scopes = normalize_scopes(Some(vec![
        "b".to_string(),
        " ".to_string(),
        "a".to_string(),
        "b".to_string(),
        String::new(),
        "ab".to_string(),
        " c".to_string(),
    ]));
    assert_eq!(scopes, vec![" c", "a", "ab", "b"]);
    assert_eq!(normalize_scopes(Some(scopes.clone())), scopes);
    assert!(normalize_scopes(Some(vec!["\t".to_string()])).is_empty());
    // the default scopes come out in byte order
    assert_eq!(normalize_scopes(None), vec![GA4_READONLY_SCOPE, CLOUD_PLATFORM_SCOPE]);
}

#[test]
fn shell_join_quotes_spaces() {
    assert_eq!(shell_join(&["gcloud".to_string(), "a b".to_string()]), "gcloud 'a b'");
}

#[test]
fn shell_join_escapes_single_quotes_and_keeps_safe_words() {
    assert_eq!(
        shell_join(&["echo".to_string(), "it's".to_string(), "--x=a,b@c:/d_e.f".to_string()]),
        "echo 'it'\\''s' --x=a,b@c:/d_e.f"
    );
    assert_eq!(shell_join(&[]), "");
    assert_eq!(shell_join(&["$HOME".to_string()]), "'$HOME'");
    assert_eq!(shell_join(&["é".to_string()]), "'é'");
}

#[test]
fn find_tools_limit_is_clamped() {
    assert_eq!(find_tools_limit(None), 20);
    assert_eq!(find_tools_limit(Some(0)), 1);
    assert_eq!(find_tools_limit(Some(55)), 55);
    assert_eq!(find_tools_limit(Some(1000)), 100);
}

#[test]
fn quota_project_resolution_order() {
    let adc = AdcFile {
        credential_type: None,
        client_id: None,
        quota_project_id: Some("from-adc".to_string()),
        universe_domain: None,
        refresh_token: None,
    };
    let default = Some("from-config".to_string());
    assert_eq!(
        resolve_quota_project(Some("arg".to_string()), &default, Some(&adc)).as_deref(),
        Some("arg")
    );
    assert_eq!(resolve_quota_project(None, &default, Some(&adc)).as_deref(), Some("from-config"));
    assert_eq!(resolve_quota_project(None, &None, Some(&adc)).as_deref(), Some("from-adc"));
    assert_eq!(resolve_quota_project(None, &None, None), None);
}

#[test]
fn adc_login_plan_defaults() {
    let plan = adc_login_command_plan(AdcLoginCommandArgs {
        client_id_file: Some("/tmp/my client.json".to_string()),
        scopes: None,
        no_launch_browser: None,
    });
    assert_eq!(plan.scopes, vec![GA4_READONLY_SCOPE, CLOUD_PLATFORM_SCOPE]);
    assert_eq!(plan.command[4], "--no-launch-browser");
    assert_eq!(
        plan.shell_command,
        "gcloud auth application-default login --no-launch-browser --client-id-file '/tmp/my client.json' --scopes https://www.googleapis.com/auth/analytics.readonly,https://www.googleapis.com/auth/cloud-platform"
    );
    assert!(plan.requires_operator_browser_consent);
    assert_eq!(plan.notes.len(), 3);
    assert_eq!(plan.notes[2], "No token is returned by this tool.");
}

fn section(id: Option<&str>, secret: Option<&str>, uri: Option<&str>) -> OAuthClientSection {
    OAuthClientSection {
        client_id: id.map(str::to_string),
        client_secret: secret.map(str::to_string),
        token_uri: uri.map(str::to_string),
    }
}

#[test]
fn validate_oauth_client_hides_secret() {
    let doc = OAuthClientJson {
        installed: Some(section(Some("abc"), Some("super-secret"), Some("https://oauth2.googleapis.com/token"))),
        web: None,
    };
    let report = validate_oauth_client("/tmp/client.json".to_string(), &doc).unwrap();
    assert!(report.valid);
    assert!(report.client_secret_present);
    assert_eq!(report.client_type, "installed");
    assert!(!format!("{report:?}").contains("super-secret"));
}

#[test]
fn validate_oauth_client_errors() {
    let none = OAuthClientJson { installed: None, web: None };
    match validate_oauth_client("p".to_string(), &none) {
        Err(GoogleAdminError::InvalidArgument { field, message }) => {
            assert_eq!(field, "path");
            assert_eq!(message, "missing installed or web object");
        }
        other => panic!("unexpected {other:?}"),
    }
    let blank_id = OAuthClientJson { installed: None, web: Some(section(Some("  "), None, None)) };
    match validate_oauth_client("p".to_string(), &blank_id) {
        Err(err @ GoogleAdminError::InvalidArgument { .. }) => {
            assert_eq!(err.code(), "INVALID_PARAMS");
            assert_eq!(err.category(), "validation");
        }
        other => panic!("unexpected {other:?}"),
    }
    let web = OAuthClientJson { installed: None, web: Some(section(Some("id"), None, None)) };
    let report = validate_oauth_client("p".to_string(), &web).unwrap();
    assert_eq!(report.client_type, "web");
    assert!(!report.client_secret_present);
    assert_eq!(report.token_uri, "https://oauth2.googleapis.com/token");
    // installed wins over web, even when its client_id is missing
    let both = OAuthClientJson {
        installed: Some(section(None, None, None)),
        web: Some(section(Some("id"), None, None)),
    };
    assert!(validate_oauth_client("p".to_string(), &both).is_err());
}

#[test]
fn auth_status_args_default() {
    assert!(!AuthStatusArgs::default().include_gcloud_accounts);
}

#[test]
fn validate_oauth_client_text_reads_the_file_text() {
    let report = validate_oauth_client_text(
        "/tmp/client.json".to_string(),
        r#"{"installed":{"client_id":"abc","client_secret":"super-secret","token_uri":"https://oauth2.googleapis.com/token"}}"#,
    )
    .unwrap();
    assert!(report.valid);
    assert!(report.client_secret_present);
    assert_eq!(report.client_type, "installed");
    assert!(!format!("{report:?}").contains("super-secret"));

    assert_eq!(
        validate_oauth_client_text("p".to_string(), "{not json").unwrap_err().code(),
        "JSON_PARSE_ERROR"
    );
    // a client_id that is not a string counts as missing
    match validate_oauth_client_text("p".to_string(), r#"{"web":{"client_id":5}}"#) {
        Err(GoogleAdminError::InvalidArgument { message, .. }) => assert_eq!(message, "missing client_id"),
        other => panic!("unexpected {other:?}"),
    }
    // a document that is not an object has neither member
    match validate_oauth_client_text("p".to_string(), "[1, 2]") {
        Err(GoogleAdminError::InvalidArgument { message, .. }) => {
            assert_eq!(message, "missing installed or web object")
        }
        other => panic!("unexpected {other:?}"),
    }
    let web = validate_oauth_client_text("p".to_string(), r#"{"web":{"client_id":"i","token_uri":"https://t"}}"#).unwrap();
    assert_eq!(web.client_type, "web");
    assert_eq!(web.token_uri, "https://t");
}

#[test]
fn schema_positions_pick_first_tool_of_each_name() {
    let results = vec!["b".to_string(), "zz".to_string(), "a".to_string()];
    let tools = vec!["a".to_string(), "b".to_string(), "b".to_string()];
    assert_eq!(tool_schema_positions(&results, &tools), vec![Some(1), None, Some(0)]);
    assert!(tool_schema_positions(&[], &tools).is_empty());
}
