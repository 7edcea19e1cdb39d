use google_admin_mcp::error::GoogleAdminError;
use google_admin_mcp::google_cli::{adc_path_in, adc_summary, AdcFile, CommandOutcome, GoogleCli};

#[test]
fn login_command_includes_client_file_and_scopes() {
    let command = GoogleCli::adc_login_command(
        Some("/tmp/client.json"),
        &[
            "https://www.googleapis.com/auth/analytics.readonly".to_string(),
            "https://www.googleapis.com/auth/cloud-platform".to_string(),
        ],
        true,
    );
    assert_eq!(
        command,
        vec![
            "gcloud",
            "auth",
            "application-default",
            "login",
            "--no-launch-browser",
            "--client-id-file",
            "/tmp/client.json",
            "--scopes",
            "https://www.googleapis.com/auth/analytics.readonly,https://www.googleapis.com/auth/cloud-platform",
        ]
    );
}

#[test]
fn login_command_trims_client_file_and_skips_blank_one() {
    let command = GoogleCli::adc_login_command(Some("  /tmp/c.json \n"), &[], false);
    assert_eq!(
        command,
        vec!["gcloud", "auth", "application-default", "login", "--client-id-file", "/tmp/c.json"]
    );
    let command = GoogleCli::adc_login_command(Some(" \t "), &["a".to_string()], false);
    assert_eq!(
        command,
        vec!["gcloud", "auth", "application-default", "login", "--scopes", "a"]
    );
    let command = GoogleCli::adc_login_command(None, &[], true);
    assert_eq!(
        command,
        vec!["gcloud", "auth", "application-default", "login", "--no-launch-browser"]
    );
}

#[test]
fn gcloud_argument_lists() {
    assert_eq!(GoogleCli::auth_list_args(), vec!["auth", "list", "--format=json"]);
    assert_eq!(
        GoogleCli::access_token_args(),
        vec!["auth", "application-default", "print-access-token"]
    );
    assert_eq!(
        GoogleCli::projects_list_args(None),
        vec!["projects", "list", "--format=json", "--limit", "50"]
    );
    assert_eq!(GoogleCli::projects_list_args(Some(0))[4], "1");
    assert_eq!(GoogleCli::projects_list_args(Some(137))[4], "137");
    assert_eq!(GoogleCli::projects_list_args(Some(4000))[4], "200");
}

#[test]
fn default_cli_runs_gcloud_and_labels_commands() {
    let cli = GoogleCli::default();
    assert_eq!(cli.program(), "gcloud");
    let label = cli.command_label(&GoogleCli::auth_list_args());
    assert_eq!(label, "gcloud auth list --format=json");
    let other = GoogleCli::new("/opt/bin/gcloud".to_string());
    assert_eq!(other.program(), "/opt/bin/gcloud");
}

#[test]
fn command_results() {
    let cli = GoogleCli::default();
    let ok = cli.command_result(
        "gcloud x".to_string(),
        CommandOutcome::Finished { success: true, stdout: b" out \n".to_vec(), stderr: b"warn".to_vec() },
    );
    assert_eq!(ok.unwrap(), " out \n");

    match cli.command_result(
        "gcloud x".to_string(),
        CommandOutcome::Finished { success: false, stdout: b" partial ".to_vec(), stderr: b"  boom\n".to_vec() },
    ) {
        Err(GoogleAdminError::CommandFailed { command, message }) => {
            assert_eq!(command, "gcloud x");
            assert_eq!(message, "boom");
        }
        other => panic!("unexpected {other:?}"),
    }
    match cli.command_result(
        "gcloud x".to_string(),
        CommandOutcome::Finished { success: false, stdout: b" partial ".to_vec(), stderr: b" \n".to_vec() },
    ) {
        Err(GoogleAdminError::CommandFailed { message, .. }) => assert_eq!(message, "partial"),
        other => panic!("unexpected {other:?}"),
    }
    match cli.command_result("gcloud x".to_string(), CommandOutcome::TimedOut) {
        Err(err @ GoogleAdminError::CommandFailed { .. }) => {
            assert_eq!(err.code(), "LOCAL_COMMAND_FAILED");
            if let GoogleAdminError::CommandFailed { message, .. } = err {
                assert_eq!(message, "timed out");
            }
        }
        other => panic!("unexpected {other:?}"),
    }
    let missing = cli.command_result(
        "gcloud x".to_string(),
        CommandOutcome::SpawnFailed {
            not_found: true,
            error: std::io::Error::new(std::io::ErrorKind::NotFound, "nope"),
        },
    );
    match missing {
        Err(GoogleAdminError::MissingCommand(p)) => assert_eq!(p, "gcloud"),
        other => panic!("unexpected {other:?}"),
    }
    let io = cli.command_result(
        "gcloud x".to_string(),
        CommandOutcome::SpawnFailed {
            not_found: false,
            error: std::io::Error::new(std::io::ErrorKind::PermissionDenied, "denied"),
        },
    );
    assert_eq!(io.unwrap_err().code(), "IO_ERROR");
}

#[test]
fn access_token_is_trimmed_and_must_not_be_empty() {
    assert_eq!(GoogleCli::access_token_from_output("  ya29.token\n").unwrap(), "ya29.token");
    match GoogleCli::access_token_from_output(" \n\t") {
        Err(GoogleAdminError::AuthNotConfigured(m)) => {
            assert_eq!(m, "gcloud returned an empty ADC access token")
        }
        other => panic!("unexpected {other:?}"),
    }
}

#[test]
fn adc_path_prefers_cloudsdk_config() {
    assert_eq!(
        adc_path_in(Some(b"/cfg".to_vec()), Some(b"/home/u".to_vec())),
        Some(b"/cfg/application_default_credentials.json".to_vec())
    );
    assert_eq!(
        adc_path_in(None, Some(b"/home/u/".to_vec())),
        Some(b"/home/u/.config/gcloud/application_default_credentials.json".to_vec())
    );
    assert_eq!(
        adc_path_in(Some(Vec::new()), None),
        Some(b"application_default_credentials.json".to_vec())
    );
    assert_eq!(adc_path_in(None, None), None);
}

#[test]
fn adc_summary_reports_presence_not_secrets() {
    let file = AdcFile {
        credential_type: Some("authorized_user".to_string()),
        client_id: Some("id".to_string()),
        quota_project_id: Some("proj".to_string()),
        universe_domain: None,
        refresh_token: Some("1//secret-refresh".to_string()),
    };
    let summary = adc_summary(Some("/p/adc.json".to_string()), Some(&file));
    assert_eq!(summary.path.as_deref(), Some("/p/adc.json"));
    assert!(summary.present);
    let details = summary.details.expect("details");
    assert!(details.client_id_present);
    assert!(details.refresh_token_present);
    assert_eq!(details.quota_project_id.as_deref(), Some("proj"));
    assert_eq!(details.credential_type.as_deref(), Some("authorized_user"));

    let empty = AdcFile {
        credential_type: None,
        client_id: Some(String::new()),
        quota_project_id: None,
        universe_domain: None,
        refresh_token: None,
    };
    let d = adc_summary(None, Some(&empty)).details.unwrap();
    assert!(!d.client_id_present);
    assert!(!d.refresh_token_present);

    let absent = adc_summary(Some("/p".to_string()), None);
    assert!(!absent.present);
    assert!(absent.details.is_none());
}

#[test]
fn command_output_is_decoded_lossily() {
    let cli = GoogleCli::default();
    let ok = cli.command_result(
        "l".to_string(),
        CommandOutcome::Finished { success: true, stdout: vec![b'a', 0xff, b'b'], stderr: Vec::new() },
    );
    assert_eq!(ok.unwrap(), "a\u{fffd}b");
    let ok = cli.command_result(
        "l".to_string(),
        CommandOutcome::Finished { success: true, stdout: "prøj".as_bytes().to_vec(), stderr: Vec::new() },
    );
    assert_eq!(ok.unwrap(), "prøj");
}

#[test]
fn command_json_results() {
    let cli = GoogleCli::default();
    let v = cli
        .command_json_result(
            "l".to_string(),
            CommandOutcome::Finished { success: true, stdout: b"[{\"projectId\":\"p\"}]".to_vec(), stderr: Vec::new() },
        )
        .unwrap();
    assert_eq!(v[0]["projectId"], "p");
    let bad = cli.command_json_result(
        "l".to_string(),
        CommandOutcome::Finished { success: true, stdout: b"not json".to_vec(), stderr: Vec::new() },
    );
    assert_eq!(bad.unwrap_err().code(), "JSON_PARSE_ERROR");
    match cli.command_json_result(
        "l".to_string(),
        CommandOutcome::Finished { success: false, stdout: b"{}".to_vec(), stderr: b" denied ".to_vec() },
    ) {
        Err(GoogleAdminError::CommandFailed { message, .. }) => assert_eq!(message, "denied"),
        other => panic!("unexpected {other:?}"),
    }
    assert_eq!(
        cli.command_json_result("l".to_string(), CommandOutcome::TimedOut).unwrap_err().code(),
        "LOCAL_COMMAND_FAILED"
    );
}

#[test]
fn command_json_document_is_the_output() {
    let cli = GoogleCli::default();
    let v = cli
        .command_json_result(
            "l".to_string(),
            CommandOutcome::Finished { success: true, stdout: b" {\"a\": [1, 2]} \n".to_vec(), stderr: Vec::new() },
        )
        .unwrap();
    assert_eq!(v, serde_json::from_str::<serde_json::Value>("{\"a\": [1, 2]}").unwrap());
}
