use vstd::prelude::*;
use vstd::string::*;

use crate::config::{profile_name, CapabilityProfile};
use crate::error::GoogleAdminError;
use crate::text::text_eq;

verus! {

/// The tools that change state; each needs a profile that allows mutation.
pub open spec fn is_mutating_tool(tool_name: Seq<char>) -> bool {
    tool_name == "google_adc_revoke"@
}

/// Whether the profile may run the tool: mutating tools need the operator
/// profile, all others may run under any profile.
pub open spec fn profile_allows_tool(profile: CapabilityProfile, tool_name: Seq<char>) -> bool {
    is_mutating_tool(tool_name) ==> profile == CapabilityProfile::Operator
}

/// Whether the tool changes state.
pub fn tool_is_mutating(tool_name: &str) -> (res: bool)
    ensures
        res == is_mutating_tool(tool_name@),
{
    text_eq(tool_name, "google_adc_revoke")
}

/// Whether the profile may run the tool.
pub fn is_tool_allowed(profile: CapabilityProfile, tool_name: &str) -> (res: bool)
    ensures
        res == profile_allows_tool(profile, tool_name@),
{
    if tool_is_mutating(tool_name) {
        profile.allows_mutation()
    } else {
        true
    }
}

/// Decides every tool call: the call goes ahead when the tool
/// inventory allows it and the profile allows the tool, and is otherwise
/// refused with a policy error naming the profile and the tool.
pub fn authorize_tool_call(profile: CapabilityProfile, tool_name: &str, registered_allowed: bool) -> (res:
    Result<(), GoogleAdminError>)
    ensures
        res is Ok <==> (registered_allowed && profile_allows_tool(profile, tool_name@)),
        res is Err ==> (res matches Err(GoogleAdminError::PolicyDenied { profile: p, tool })
            && p@ == profile_name(profile) && tool@ == tool_name@),
{
    if !registered_allowed || !is_tool_allowed(profile, tool_name) {
        return Err(
            GoogleAdminError::PolicyDenied {
                profile: String::from_str(profile.as_str()),
                tool: String::from_str(tool_name),
            },
        );
    }
    Ok(())
}

/// Under the read-only profile no mutating tool ever runs, whatever the
/// inventory says.
pub proof fn read_only_runs_no_mutating_tool(tool_name: Seq<char>)
    requires
        is_mutating_tool(tool_name),
    ensures
        !profile_allows_tool(CapabilityProfile::ReadOnly, tool_name),
{
}

/// A tool that changes nothing is never held back by the profile.
pub proof fn non_mutating_tools_run_under_any_profile(
    profile: CapabilityProfile,
    tool_name: Seq<char>,
)
    requires
        !is_mutating_tool(tool_name),
    ensures
        profile_allows_tool(profile, tool_name),
{
}

/// The operator profile is the only one that may run mutating tools.
pub proof fn only_operator_runs_mutating_tools(profile: CapabilityProfile, tool_name: Seq<char>)
    requires
        is_mutating_tool(tool_name),
        profile_allows_tool(profile, tool_name),
    ensures
        profile == CapabilityProfile::Operator,
{
}

} // verus!
