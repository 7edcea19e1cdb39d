use vstd::prelude::*;

verus! {

/// Capability profile under which the server runs.
#[derive(Debug, Clone, Copy, PartialEq, Eq, Structural)]
pub enum CapabilityProfile {
    ReadOnly,
    Operator,
}

/// The snake_case name of a profile, as used on the command line.
pub open spec fn profile_name(profile: CapabilityProfile) -> Seq<char> {
    match profile {
        CapabilityProfile::ReadOnly => "read_only"@,
        CapabilityProfile::Operator => "operator"@,
    }
}

impl CapabilityProfile {
    pub fn as_str(self) -> (res: &'static str)
        ensures
            res@ == profile_name(self),
    {
        match self {
            CapabilityProfile::ReadOnly => "read_only",
            CapabilityProfile::Operator => "operator",
        }
    }

    /// Only the operator profile may run mutating tools.
    pub fn allows_mutation(self) -> (res: bool)
        ensures
            res <==> self == CapabilityProfile::Operator,
    {
        match self {
            CapabilityProfile::ReadOnly => false,
            CapabilityProfile::Operator => true,
        }
    }
}

/// Command-line options of the server.
#[derive(Debug, Clone)]
pub struct Cli {
    /// Capability profile. Default is read_only.
    pub profile: CapabilityProfile,
    /// Default Google quota project for ADC-backed API smoke tests.
    pub default_quota_project: Option<String>,
    /// Print tool names and exit.
    pub print_tools: bool,
    /// Print tool schema and exit.
    pub print_tool_schema: bool,
}

/// Effective settings of a server run.
#[derive(Debug, Clone)]
pub struct Settings {
    pub profile: CapabilityProfile,
    pub default_quota_project: Option<String>,
    pub print_tools: bool,
    pub print_tool_schema: bool,
}

impl From<Cli> for Settings {
    fn from(cli: Cli) -> (res: Self) {
        Settings {
            profile: cli.profile,
            default_quota_project: cli.default_quota_project,
            print_tools: cli.print_tools,
            print_tool_schema: cli.print_tool_schema,
        }
    }
}

impl vstd::std_specs::convert::FromSpecImpl<Cli> for Settings {
    open spec fn obeys_from_spec() -> bool {
        true
    }

    open spec fn from_spec(cli: Cli) -> Settings {
        Settings {
            profile: cli.profile,
            default_quota_project: cli.default_quota_project,
            print_tools: cli.print_tools,
            print_tool_schema: cli.print_tool_schema,
        }
    }
}

} // verus!
