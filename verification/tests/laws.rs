use google_admin_mcp::google_cli::{adc_summary, AdcFile, GoogleCli};
use google_admin_mcp::tools::{
    adc_login_command_plan, normalize_scopes, shell_join, validate_oauth_client,
    AdcLoginCommandArgs, OAuthClientJson, OAuthClientSection,
};

/// Word splitting as a POSIX shell does it for plain words, single quotes and
/// backslash escapes.
fn shell_words(line: &str) -> Vec<String> {
    #[derive(PartialEq)]
    enum Mode {
        Plain,
        Quoted,
        Escaped,
    }
    let mut words = Vec::new();
    let mut cur = String::new();
    let mut started = false;
    let mut mode = Mode::Plain;
    for c in line.chars() {
        match mode {
            Mode::Plain => {
                if c == ' ' || c == '\t' || c == '\n' {
                    if started {
                        words.push(std::mem::take(&mut cur));
                        started = false;
                    }
                } else if c == '\'' {
                    started = true;
                    mode = Mode::Quoted;
                } else if c == '\\' {
                    started = true;
                    mode = Mode::Escaped;
                } else {
                    cur.push(c);
                    started = true;
                }
            }
            Mode::Quoted => {
                if c == '\'' {
                    mode = Mode::Plain;
                } else {
                    cur.push(c);
                }
            }
            Mode::Escaped => {
                cur.push(c);
                mode = Mode::Plain;
            }
        }
    }
    if started {
        words.push(cur);
    }
    words
}

#[test]
fn shell_line_reads_back_as_arguments() {
    let cases: Vec<Vec<String>> = vec![
        vec!["gcloud".into(), "a b".into()],
        vec!["it's".into(), "''".into(), "\\".into(), "x\ty\nz".into(), "$(rm -rf /)".into()],
        vec!["plain".into(), "--flag=v,w@x:/y_z.q".into()],
        vec![],
    ];
    for cmd in cases {
        assert_eq!(shell_words(&shell_join(&cmd)), cmd);
    }
}

#[test]
fn login_plan_shell_line_matches_argv() {
    let plan = adc_login_command_plan(AdcLoginCommandArgs {
        client_id_file: Some("  /home/o'brien/My Client.json ".to_string()),
        scopes: Some(vec!["scope b".to_string(), "scope'a".to_string(), "  ".to_string()]),
        no_launch_browser: Some(false),
    });
    assert_eq!(shell_words(&plan.shell_command), plan.command);
    assert_eq!(plan.command[5], "/home/o'brien/My Client.json");
    assert_eq!(plan.command[7], "scope b,scope'a");
}

#[test]
fn normalization_is_idempotent_and_order_blind() {
    let a = normalize_scopes(Some(vec!["z".into(), "y".into(), "z".into(), " ".into()]));
    let b = normalize_scopes(Some(vec!["y".into(), "z".into()]));
    assert_eq!(a, b);
    assert_eq!(normalize_scopes(Some(a.clone())), a);
}

#[test]
fn adc_summary_does_not_depend_on_secret_values() {
    let file = |token: &str, id: &str| AdcFile {
        credential_type: Some("authorized_user".to_string()),
        client_id: Some(id.to_string()),
        quota_project_id: None,
        universe_domain: Some("googleapis.com".to_string()),
        refresh_token: Some(token.to_string()),
    };
    let s1 = adc_summary(None, Some(&file("1//first-secret", "id-1")));
    let s2 = adc_summary(None, Some(&file("1//other-secret", "id-2")));
    assert_eq!(format!("{s1:?}"), format!("{s2:?}"));
    assert!(!format!("{s1:?}").contains("secret"));
}

#[test]
fn oauth_report_does_not_depend_on_secret_value() {
    let doc = |secret: &str| OAuthClientJson {
        installed: Some(OAuthClientSection {
            client_id: Some("abc".to_string()),
            client_secret: Some(secret.to_string()),
            token_uri: None,
        }),
        web: None,
    };
    let r1 = validate_oauth_client("p".to_string(), &doc("first-secret")).unwrap();
    let r2 = validate_oauth_client("p".to_string(), &doc("second-secret")).unwrap();
    assert_eq!(format!("{r1:?}"), format!("{r2:?}"));
}

#[test]
fn blank_token_output_is_refused() {
    assert!(GoogleCli::access_token_from_output("\u{3000}\u{2028} ").is_err());
    assert!(GoogleCli::access_token_from_output("\u{3000}t ").is_ok());
}
