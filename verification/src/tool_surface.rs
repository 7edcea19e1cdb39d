use vstd::prelude::*;
use vstd::string::*;

use crate::server::is_mutating_tool;
use crate::text::texts;

verus! {

/// What the tool inventory knows of one tool.
#[derive(Debug)]
pub struct ToolSpec {
    pub name: String,
    /// `discovery`, `auth`, `cloud` or `analytics`.
    pub group: String,
    pub read_only: bool,
    pub description: String,
    pub keywords: Vec<String>,
}

/// A tool's entry as plain texts.
pub struct ToolEntry {
    pub name: Seq<char>,
    pub group: Seq<char>,
    pub read_only: bool,
    pub description: Seq<char>,
    pub keywords: Seq<Seq<char>>,
}

impl View for ToolSpec {
    type V = ToolEntry;

    open spec fn view(&self) -> ToolEntry {
        ToolEntry {
            name: self.name@,
            group: self.group@,
            read_only: self.read_only,
            description: self.description@,
            keywords: texts(self.keywords@),
        }
    }
}

/// The six tools of the server, in the order they are listed.
pub open spec fn tool_table() -> Seq<ToolEntry> {
    seq![
        ToolEntry {
            name: "find_tools"@,
            group: "discovery"@,
            read_only: true,
            description: "Search Google admin MCP tools for OpenAI tool_search and deferred-loading clients."@,
            keywords: seq!["tool_search"@, "deferred"@, "discover"@, "tools"@, "gpt-5.5"@, "openai"@],
        },
        ToolEntry {
            name: "google_auth_status"@,
            group: "auth"@,
            read_only: true,
            description: "Inspect local gcloud and Application Default Credentials state without exposing tokens."@,
            keywords: seq!["google"@, "auth"@, "adc"@, "gcloud"@, "status"@, "credentials"@, "token"@],
        },
        ToolEntry {
            name: "google_adc_login_command"@,
            group: "auth"@,
            read_only: true,
            description: "Build the exact gcloud ADC login command for a dedicated OAuth client JSON."@,
            keywords: seq![
                "google"@, "auth"@, "adc"@, "login"@, "oauth"@, "client"@, "scopes"@,
                "analytics"@, "ga4"@, "token"@, "credential"@,
            ],
        },
        ToolEntry {
            name: "google_oauth_client_file_validate"@,
            group: "auth"@,
            read_only: true,
            description: "Validate a Google OAuth client JSON file while hiding client secrets."@,
            keywords: seq![
                "google"@, "oauth"@, "client"@, "json"@, "validate"@, "secret"@, "desktop"@,
                "token"@, "credential"@,
            ],
        },
        ToolEntry {
            name: "google_cloud_projects_list"@,
            group: "cloud"@,
            read_only: true,
            description: "List Google Cloud projects visible to the current gcloud identity."@,
            keywords: seq!["google"@, "cloud"@, "gcp"@, "projects"@, "list"@, "iam"@],
        },
        ToolEntry {
            name: "google_ga4_account_summaries_smoke"@,
            group: "analytics"@,
            read_only: true,
            description: "Verify GA4 readonly access by calling Analytics Admin accountSummaries with ADC."@,
            keywords: seq![
                "google"@, "analytics"@, "ga4"@, "account"@, "summaries"@, "smoke"@,
                "readonly"@, "quota"@, "token"@, "credential"@, "oauth"@,
            ],
        },
    ]
}


/// Every tool of the table is read-only and none of them changes state, so
/// the read-only profile can run the whole surface.
pub proof fn tool_surface_is_read_only()
    ensures
        tool_table().len() == 6,
        forall|i: int| 0 <= i < tool_table().len() ==> (#[trigger] tool_table()[i]).read_only,
        forall|i: int|
            0 <= i < tool_table().len() ==> !is_mutating_tool(#[trigger] tool_table()[i].name),
{
    reveal_strlit("find_tools");
    reveal_strlit("google_auth_status");
    reveal_strlit("google_adc_login_command");
    reveal_strlit("google_oauth_client_file_validate");
    reveal_strlit("google_cloud_projects_list");
    reveal_strlit("google_ga4_account_summaries_smoke");
    reveal_strlit("google_adc_revoke");
    let t = tool_table();
    assert forall|i: int| 0 <= i < t.len() implies !is_mutating_tool(#[trigger] t[i].name) by {
        assert(t[i].name.len() != "google_adc_revoke"@.len());
    }
}

/// No two tools share a name.
pub proof fn tool_names_are_distinct()
    ensures
        forall|i: int, j: int|
            0 <= i < j < tool_table().len() ==> #[trigger] tool_table()[i].name
                != #[trigger] tool_table()[j].name,
{
    reveal_strlit("find_tools");
    reveal_strlit("google_auth_status");
    reveal_strlit("google_adc_login_command");
    reveal_strlit("google_oauth_client_file_validate");
    reveal_strlit("google_cloud_projects_list");
    reveal_strlit("google_ga4_account_summaries_smoke");
    let t = tool_table();
    assert forall|i: int, j: int| 0 <= i < j < t.len() implies #[trigger] t[i].name
        != #[trigger] t[j].name by {
        assert(t[i].name.len() != t[j].name.len());
    }
}


/// Each tool sits in the group the server declares for it: `find_tools` in
/// discovery; the status, login-command and client-file tools in auth; the
/// project list in cloud; the GA4 smoke test in analytics. Every tool is
/// listed once.
pub proof fn tool_groups_by_name()
    ensures
        forall|i: int|
            0 <= i < tool_table().len() ==> {
                let t = #[trigger] tool_table()[i];
                &&& t.name == "find_tools"@ ==> t.group == "discovery"@
                &&& t.name == "google_auth_status"@ ==> t.group == "auth"@
                &&& t.name == "google_adc_login_command"@ ==> t.group == "auth"@
                &&& t.name == "google_oauth_client_file_validate"@ ==> t.group == "auth"@
                &&& t.name == "google_cloud_projects_list"@ ==> t.group == "cloud"@
                &&& t.name == "google_ga4_account_summaries_smoke"@ ==> t.group == "analytics"@
            },
        exists|i: int| 0 <= i < tool_table().len() && #[trigger] tool_table()[i].name == "find_tools"@,
        exists|i: int|
            0 <= i < tool_table().len() && #[trigger] tool_table()[i].name == "google_auth_status"@,
        exists|i: int|
            0 <= i < tool_table().len() && #[trigger] tool_table()[i].name
                == "google_adc_login_command"@,
        exists|i: int|
            0 <= i < tool_table().len() && #[trigger] tool_table()[i].name
                == "google_oauth_client_file_validate"@,
        exists|i: int|
            0 <= i < tool_table().len() && #[trigger] tool_table()[i].name
                == "google_cloud_projects_list"@,
        exists|i: int|
            0 <= i < tool_table().len() && #[trigger] tool_table()[i].name
                == "google_ga4_account_summaries_smoke"@,
{
    reveal_strlit("find_tools");
    reveal_strlit("google_auth_status");
    reveal_strlit("google_adc_login_command");
    reveal_strlit("google_oauth_client_file_validate");
    reveal_strlit("google_cloud_projects_list");
    reveal_strlit("google_ga4_account_summaries_smoke");
    let t = tool_table();
    assert forall|i: int| 0 <= i < t.len() implies {
        let e = #[trigger] t[i];
        &&& e.name == "find_tools"@ ==> e.group == "discovery"@
        &&& e.name == "google_auth_status"@ ==> e.group == "auth"@
        &&& e.name == "google_adc_login_command"@ ==> e.group == "auth"@
        &&& e.name == "google_oauth_client_file_validate"@ ==> e.group == "auth"@
        &&& e.name == "google_cloud_projects_list"@ ==> e.group == "cloud"@
        &&& e.name == "google_ga4_account_summaries_smoke"@ ==> e.group == "analytics"@
    } by {
        assert(t[i].name.len() == "find_tools"@.len() ==> i == 0);
        assert(t[i].name.len() == "google_auth_status"@.len() ==> i == 1);
        assert(t[i].name.len() == "google_adc_login_command"@.len() ==> i == 2);
        assert(t[i].name.len() == "google_oauth_client_file_validate"@.len() ==> i == 3);
        assert(t[i].name.len() == "google_cloud_projects_list"@.len() ==> i == 4);
        assert(t[i].name.len() == "google_ga4_account_summaries_smoke"@.len() ==> i == 5);
    }
    assert(t[0].name == "find_tools"@);
    assert(t[1].name == "google_auth_status"@);
    assert(t[2].name == "google_adc_login_command"@);
    assert(t[3].name == "google_oauth_client_file_validate"@);
    assert(t[4].name == "google_cloud_projects_list"@);
    assert(t[5].name == "google_ga4_account_summaries_smoke"@);
}

fn strings_of(words: &[&str]) -> (res: Vec<String>)
    ensures
        texts(res@) == words@.map_values(|w: &str| w@),
{
    let mut res: Vec<String> = Vec::new();
    let mut i: usize = 0;
    while i < words.len()
        invariant
            i <= words@.len(),
            texts(res@) == words@.take(i as int).map_values(|w: &str| w@),
        decreases words@.len() - i,
    {
        res.push(String::from_str(words[i]));
        assert(words@.take(i + 1).map_values(|w: &str| w@) =~= words@.take(i as int).map_values(
            |w: &str| w@,
        ).push(words@[i as int]@));
        assert(texts(res@) =~= words@.take(i + 1).map_values(|w: &str| w@));
        i = i + 1;
    }
    assert(words@.take(words@.len() as int) =~= words@);
    res
}

fn cap(name: &str, group: &str, read_only: bool, description: &str, keywords: &[&str]) -> (res:
    ToolSpec)
    ensures
        res@ == (ToolEntry {
            name: name@,
            group: group@,
            read_only,
            description: description@,
            keywords: keywords@.map_values(|w: &str| w@),
        }),
{
    ToolSpec {
        name: String::from_str(name),
        group: String::from_str(group),
        read_only,
        description: String::from_str(description),
        keywords: strings_of(keywords),
    }
}

/// The capability table of the server's tools.
pub fn tool_capabilities() -> (res: Vec<ToolSpec>)
    ensures
        res@.map_values(|t: ToolSpec| t@) == tool_table(),
{
    let mut v: Vec<ToolSpec> = Vec::new();
    let kw0 = ["tool_search", "deferred", "discover", "tools", "gpt-5.5", "openai"];
    assert(kw0@.map_values(|w: &str| w@) =~= seq!["tool_search"@, "deferred"@, "discover"@, "tools"@, "gpt-5.5"@, "openai"@]);
    v.push(
        cap(
            "find_tools",
            "discovery",
            true,
            "Search Google admin MCP tools for OpenAI tool_search and deferred-loading clients.",
            &kw0,
        ),
    );
    let kw1 = ["google", "auth", "adc", "gcloud", "status", "credentials", "token"];
    assert(kw1@.map_values(|w: &str| w@) =~= seq!["google"@, "auth"@, "adc"@, "gcloud"@, "status"@, "credentials"@, "token"@]);
    v.push(
        cap(
            "google_auth_status",
            "auth",
            true,
            "Inspect local gcloud and Application Default Credentials state without exposing tokens.",
            &kw1,
        ),
    );
    let kw2 = ["google", "auth", "adc", "login", "oauth", "client", "scopes", "analytics", "ga4", "token", "credential"];
    assert(kw2@.map_values(|w: &str| w@) =~= seq!["google"@, "auth"@, "adc"@, "login"@, "oauth"@, "client"@, "scopes"@, "analytics"@, "ga4"@, "token"@, "credential"@]);
    v.push(
        cap(
            "google_adc_login_command",
            "auth",
            true,
            "Build the exact gcloud ADC login command for a dedicated OAuth client JSON.",
            &kw2,
        ),
    );
    let kw3 = ["google", "oauth", "client", "json", "validate", "secret", "desktop", "token", "credential"];
    assert(kw3@.map_values(|w: &str| w@) =~= seq!["google"@, "oauth"@, "client"@, "json"@, "validate"@, "secret"@, "desktop"@, "token"@, "credential"@]);
    v.push(
        cap(
            "google_oauth_client_file_validate",
            "auth",
            true,
            "Validate a Google OAuth client JSON file while hiding client secrets.",
            &kw3,
        ),
    );
    let kw4 = ["google", "cloud", "gcp", "projects", "list", "iam"];
    assert(kw4@.map_values(|w: &str| w@) =~= seq!["google"@, "cloud"@, "gcp"@, "projects"@, "list"@, "iam"@]);
    v.push(
        cap(
            "google_cloud_projects_list",
            "cloud",
            true,
            "List Google Cloud projects visible to the current gcloud identity.",
            &kw4,
        ),
    );
    let kw5 = ["google", "analytics", "ga4", "account", "summaries", "smoke", "readonly", "quota", "token", "credential", "oauth"];
    assert(kw5@.map_values(|w: &str| w@) =~= seq!["google"@, "analytics"@, "ga4"@, "account"@, "summaries"@, "smoke"@, "readonly"@, "quota"@, "token"@, "credential"@, "oauth"@]);
    v.push(
        cap(
            "google_ga4_account_summaries_smoke",
            "analytics",
            true,
            "Verify GA4 readonly access by calling Analytics Admin accountSummaries with ADC.",
            &kw5,
        ),
    );
    assert(v@.map_values(|t: ToolSpec| t@) =~= tool_table());
    v
}

} // verus!
