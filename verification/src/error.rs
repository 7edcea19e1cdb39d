use vstd::prelude::*;

verus! {

/// `serde_json::Error`, carried by [`GoogleAdminError::Json`].
#[verifier::external_type_specification]
#[verifier::external_body]
pub struct ExJsonError(serde_json::Error);

/// `reqwest::Error`, carried by [`GoogleAdminError::Transport`].
#[verifier::external_type_specification]
#[verifier::external_body]
pub struct ExTransportError(reqwest::Error);

/// `std::io::Error`, carried by [`GoogleAdminError::Io`].
#[verifier::external_type_specification]
#[verifier::external_body]
pub struct ExIoError(std::io::Error);

/// Every failure a tool can answer with.
#[derive(Debug)]
pub enum GoogleAdminError {
    InvalidArgument { field: &'static str, message: String },
    MissingCommand(String),
    CommandFailed { command: String, message: String },
    AuthNotConfigured(String),
    UpstreamApi { status: u16, message: String },
    Json(serde_json::Error),
    Transport(reqwest::Error),
    Io(std::io::Error),
    PolicyDenied { profile: String, tool: String },
}

/// The stable, machine-readable code of an error.
pub open spec fn error_code(e: &GoogleAdminError) -> Seq<char> {
    match e {
        GoogleAdminError::InvalidArgument { .. } => "INVALID_PARAMS"@,
        GoogleAdminError::MissingCommand(_) => "LOCAL_DEPENDENCY_MISSING"@,
        GoogleAdminError::CommandFailed { .. } => "LOCAL_COMMAND_FAILED"@,
        GoogleAdminError::AuthNotConfigured(_) => "AUTHENTICATION_REQUIRED"@,
        GoogleAdminError::UpstreamApi { status, .. } => if *status >= 500 {
            "UPSTREAM_UNAVAILABLE"@
        } else {
            "UPSTREAM_REJECTED"@
        },
        GoogleAdminError::Json(_) => "JSON_PARSE_ERROR"@,
        GoogleAdminError::Transport(_) => "UPSTREAM_TRANSPORT_ERROR"@,
        GoogleAdminError::Io(_) => "IO_ERROR"@,
        GoogleAdminError::PolicyDenied { .. } => "POLICY_DENIED"@,
    }
}

/// The snake_case reason of an error.
pub open spec fn error_reason(e: &GoogleAdminError) -> Seq<char> {
    match e {
        GoogleAdminError::InvalidArgument { .. } => "invalid_params"@,
        GoogleAdminError::MissingCommand(_) => "missing_command"@,
        GoogleAdminError::CommandFailed { .. } => "command_failed"@,
        GoogleAdminError::AuthNotConfigured(_) => "auth_not_configured"@,
        GoogleAdminError::UpstreamApi { status, .. } => if *status >= 500 {
            "upstream_unavailable"@
        } else {
            "upstream_rejected"@
        },
        GoogleAdminError::Json(_) => "json_parse"@,
        GoogleAdminError::Transport(_) => "transport"@,
        GoogleAdminError::Io(_) => "io"@,
        GoogleAdminError::PolicyDenied { .. } => "policy_denied"@,
    }
}

/// The broad category of an error.
pub open spec fn error_category(e: &GoogleAdminError) -> Seq<char> {
    match e {
        GoogleAdminError::InvalidArgument { .. } => "validation"@,
        GoogleAdminError::MissingCommand(_) => "local_command"@,
        GoogleAdminError::CommandFailed { .. } => "local_command"@,
        GoogleAdminError::AuthNotConfigured(_) => "auth"@,
        GoogleAdminError::UpstreamApi { .. } => "upstream_api"@,
        GoogleAdminError::Json(_) => "parse"@,
        GoogleAdminError::Transport(_) => "transport"@,
        GoogleAdminError::Io(_) => "io"@,
        GoogleAdminError::PolicyDenied { .. } => "policy"@,
    }
}


/// The code of an error decides its reason and its category: errors that
/// share a code are reported alike.
pub proof fn error_code_determines_reason_and_category(a: &GoogleAdminError, b: &GoogleAdminError)
    requires
        error_code(a) == error_code(b),
    ensures
        error_reason(a) == error_reason(b),
        error_category(a) == error_category(b),
{
    reveal_strlit("INVALID_PARAMS");
    reveal_strlit("LOCAL_DEPENDENCY_MISSING");
    reveal_strlit("LOCAL_COMMAND_FAILED");
    reveal_strlit("AUTHENTICATION_REQUIRED");
    reveal_strlit("UPSTREAM_UNAVAILABLE");
    reveal_strlit("UPSTREAM_REJECTED");
    reveal_strlit("JSON_PARSE_ERROR");
    reveal_strlit("UPSTREAM_TRANSPORT_ERROR");
    reveal_strlit("IO_ERROR");
    reveal_strlit("POLICY_DENIED");
    assert("LOCAL_COMMAND_FAILED"@ != "UPSTREAM_UNAVAILABLE"@) by {
        assert("LOCAL_COMMAND_FAILED"@[0] != "UPSTREAM_UNAVAILABLE"@[0]);
    }
    assert("LOCAL_DEPENDENCY_MISSING"@ != "UPSTREAM_TRANSPORT_ERROR"@) by {
        assert("LOCAL_DEPENDENCY_MISSING"@[0] != "UPSTREAM_TRANSPORT_ERROR"@[0]);
    }
    let ca = error_code(a);
    let cb = error_code(b);
    assert(ca.len() == cb.len());
    match a {
        GoogleAdminError::CommandFailed { .. } => {
            assert(cb == "LOCAL_COMMAND_FAILED"@);
        },
        GoogleAdminError::MissingCommand(_) => {
            assert(cb == "LOCAL_DEPENDENCY_MISSING"@);
        },
        GoogleAdminError::UpstreamApi { status, .. } => {
            if *status >= 500 {
                assert(cb == "UPSTREAM_UNAVAILABLE"@);
            } else {
                assert(cb == "UPSTREAM_REJECTED"@);
            }
        },
        GoogleAdminError::Transport(_) => {
            assert(cb == "UPSTREAM_TRANSPORT_ERROR"@);
        },
        _ => {},
    }
}

/// A refused upstream reply is reported as unavailable from status 500 up,
/// and as rejected below.
pub proof fn upstream_status_classification(status: u16, message: String)
    ensures
        error_code(&GoogleAdminError::UpstreamApi { status, message }) == (if status >= 500 {
            "UPSTREAM_UNAVAILABLE"@
        } else {
            "UPSTREAM_REJECTED"@
        }),
        error_category(&GoogleAdminError::UpstreamApi { status, message }) == "upstream_api"@,
{
}

impl GoogleAdminError {
    /// An invalid-argument error for `field`.
    pub fn invalid(field: &'static str, message: String) -> (res: Self)
        ensures
            res == (GoogleAdminError::InvalidArgument { field, message }),
    {
        GoogleAdminError::InvalidArgument { field, message }
    }

    pub fn code(&self) -> (res: &'static str)
        ensures
            res@ == error_code(self),
    {
        match self {
            GoogleAdminError::InvalidArgument { .. } => "INVALID_PARAMS",
            GoogleAdminError::MissingCommand(_) => "LOCAL_DEPENDENCY_MISSING",
            GoogleAdminError::CommandFailed { .. } => "LOCAL_COMMAND_FAILED",
            GoogleAdminError::AuthNotConfigured(_) => "AUTHENTICATION_REQUIRED",
            GoogleAdminError::UpstreamApi { status, .. } => if *status >= 500 {
                "UPSTREAM_UNAVAILABLE"
            } else {
                "UPSTREAM_REJECTED"
            },
            GoogleAdminError::Json(_) => "JSON_PARSE_ERROR",
            GoogleAdminError::Transport(_) => "UPSTREAM_TRANSPORT_ERROR",
            GoogleAdminError::Io(_) => "IO_ERROR",
            GoogleAdminError::PolicyDenied { .. } => "POLICY_DENIED",
        }
    }

    pub fn reason(&self) -> (res: &'static str)
        ensures
            res@ == error_reason(self),
    {
        match self {
            GoogleAdminError::InvalidArgument { .. } => "invalid_params",
            GoogleAdminError::MissingCommand(_) => "missing_command",
            GoogleAdminError::CommandFailed { .. } => "command_failed",
            GoogleAdminError::AuthNotConfigured(_) => "auth_not_configured",
            GoogleAdminError::UpstreamApi { status, .. } => if *status >= 500 {
                "upstream_unavailable"
            } else {
                "upstream_rejected"
            },
            GoogleAdminError::Json(_) => "json_parse",
            GoogleAdminError::Transport(_) => "transport",
            GoogleAdminError::Io(_) => "io",
            GoogleAdminError::PolicyDenied { .. } => "policy_denied",
        }
    }

    pub fn category(&self) -> (res: &'static str)
        ensures
            res@ == error_category(self),
    {
        match self {
            GoogleAdminError::InvalidArgument { .. } => "validation",
            GoogleAdminError::MissingCommand(_) | GoogleAdminError::CommandFailed { .. } => "local_command",
            GoogleAdminError::AuthNotConfigured(_) => "auth",
            GoogleAdminError::UpstreamApi { .. } => "upstream_api",
            GoogleAdminError::Json(_) => "parse",
            GoogleAdminError::Transport(_) => "transport",
            GoogleAdminError::Io(_) => "io",
            GoogleAdminError::PolicyDenied { .. } => "policy",
        }
    }
}

} // verus!
