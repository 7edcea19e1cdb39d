use vstd::prelude::*;
use vstd::string::*;

use crate::error::GoogleAdminError;
use crate::json::{json_document, json_parses, parse_json};
use crate::text::{
    chars_of, clamp, clamp_u32, clone_opt_string, decimal, decode_utf8_lossy, is_blank, is_blank_str,
    join_strings, join_with, texts, trim, trim_seq, u32_to_decimal, utf8_lossy,
};

verus! {

/// The fields of an Application Default Credentials file that the library reads.
#[derive(Debug, Clone)]
pub struct AdcFile {
    /// The file's `type`.
    pub credential_type: Option<String>,
    pub client_id: Option<String>,
    pub quota_project_id: Option<String>,
    pub universe_domain: Option<String>,
    pub refresh_token: Option<String>,
}

/// Runs the Google Cloud SDK command line.
#[derive(Debug, Clone)]
pub struct GoogleCli {
    gcloud: String,
}

impl View for GoogleCli {
    type V = Seq<char>;

    /// The program that is run.
    closed spec fn view(&self) -> Seq<char> {
        self.gcloud@
    }
}

impl Default for GoogleCli {
    fn default() -> (res: Self)
        ensures
            res@ == "gcloud"@,
    {
        GoogleCli { gcloud: String::from_str("gcloud") }
    }
}

/// The `gcloud auth application-default login` command line.
pub open spec fn login_command(
    client_id_file: Option<Seq<char>>,
    scopes: Seq<Seq<char>>,
    no_launch_browser: bool,
) -> Seq<Seq<char>> {
    seq!["gcloud"@, "auth"@, "application-default"@, "login"@] + (if no_launch_browser {
        seq!["--no-launch-browser"@]
    } else {
        Seq::empty()
    }) + (if client_id_file is Some && !is_blank(client_id_file->0) {
        seq!["--client-id-file"@, trim_seq(client_id_file->0)]
    } else {
        Seq::empty()
    }) + (if scopes.len() > 0 {
        seq!["--scopes"@, join_with(scopes, ","@)]
    } else {
        Seq::empty()
    })
}

pub open spec fn opt_str_text(o: Option<&str>) -> Option<Seq<char>> {
    match o {
        Some(s) => Some(s@),
        None => None,
    }
}

/// What happened when a gcloud command was run.
#[derive(Debug)]
pub enum CommandOutcome {
    /// The command did not finish in time.
    TimedOut,
    /// The command could not be started; `not_found` when the program is missing.
    SpawnFailed { not_found: bool, error: std::io::Error },
    /// The command finished, with its exit status and its raw output.
    Finished { success: bool, stdout: Vec<u8>, stderr: Vec<u8> },
}

/// `path.join(rel)` on Unix: a separator goes between unless `path` is empty
/// or already ends in one.
pub open spec fn path_join(base: Seq<u8>, rel: Seq<u8>) -> Seq<u8> {
    if base.len() > 0 && base.last() != 0x2Fu8 {
        base + seq![0x2Fu8] + rel
    } else {
        base + rel
    }
}

/// The bytes of an ASCII text.
pub open spec fn ascii_bytes(s: Seq<char>) -> Seq<u8> {
    s.map_values(|c: char| c as u8)
}

/// Where gcloud keeps its configuration: `$CLOUDSDK_CONFIG`, else
/// `$HOME/.config/gcloud`.
pub open spec fn gcloud_config_dir(cloudsdk_config: Option<Seq<u8>>, home: Option<Seq<u8>>) -> Option<
    Seq<u8>,
> {
    match cloudsdk_config {
        Some(c) => Some(c),
        None => match home {
            Some(h) => Some(path_join(h, ascii_bytes(".config/gcloud"@))),
            None => None,
        },
    }
}

/// The path of the ADC file for the given environment.
pub open spec fn adc_path_for(cloudsdk_config: Option<Seq<u8>>, home: Option<Seq<u8>>) -> Option<
    Seq<u8>,
> {
    match gcloud_config_dir(cloudsdk_config, home) {
        Some(dir) => Some(path_join(dir, ascii_bytes("application_default_credentials.json"@))),
        None => None,
    }
}


/// With `$CLOUDSDK_CONFIG` unset and `$HOME` set to a non-empty `home`, the
/// ADC file is `.config/gcloud/application_default_credentials.json` under
/// `home`, with one `/` between (the one `home` ends in, or an added one).
pub proof fn adc_path_under_home(home: Seq<u8>)
    requires
        home.len() > 0,
    ensures
        adc_path_for(None, Some(home)) == Some(
            home + (if home.last() == 0x2Fu8 {
                Seq::<u8>::empty()
            } else {
                seq![0x2Fu8]
            }) + ascii_bytes(".config/gcloud/application_default_credentials.json"@),
        ),
{
    reveal_strlit(".config/gcloud");
    reveal_strlit("application_default_credentials.json");
    reveal_strlit(".config/gcloud/application_default_credentials.json");
    let dir = ascii_bytes(".config/gcloud"@);
    let file = ascii_bytes("application_default_credentials.json"@);
    let whole = ascii_bytes(".config/gcloud/application_default_credentials.json"@);
    assert(whole =~= dir + seq![0x2Fu8] + file);
    let sep = if home.last() == 0x2Fu8 {
        Seq::<u8>::empty()
    } else {
        seq![0x2Fu8]
    };
    let config = home + sep + dir;
    assert(config =~= path_join(home, dir));
    assert(config.last() == dir.last());
    assert(dir.last() != 0x2Fu8);
    assert(path_join(config, file) =~= home + sep + whole);
}

/// With `$CLOUDSDK_CONFIG` set to a non-empty `dir`, the ADC file is
/// `application_default_credentials.json` in `dir`, whatever `$HOME` is.
pub proof fn adc_path_under_cloudsdk_config(dir: Seq<u8>, home: Option<Seq<u8>>)
    requires
        dir.len() > 0,
    ensures
        adc_path_for(Some(dir), home) == Some(
            dir + (if dir.last() == 0x2Fu8 {
                Seq::<u8>::empty()
            } else {
                seq![0x2Fu8]
            }) + ascii_bytes("application_default_credentials.json"@),
        ),
{
}

/// Without `$CLOUDSDK_CONFIG` and `$HOME` there is no ADC path.
pub proof fn adc_path_needs_a_directory()
    ensures
        adc_path_for(None, None) is None,
{
}

pub open spec fn opt_bytes(o: Option<Vec<u8>>) -> Option<Seq<u8>> {
    match o {
        Some(v) => Some(v@),
        None => None,
    }
}

fn push_ascii(v: &mut Vec<u8>, s: &str)
    requires
        forall|i: int| 0 <= i < s@.len() ==> (s@[i] as int) < 128,
    ensures
        final(v)@ == old(v)@ + ascii_bytes(s@),
{
    let chars = chars_of(s);
    let ghost start = v@;
    let mut i: usize = 0;
    while i < chars.len()
        invariant
            chars@ == s@,
            i <= chars.len(),
            forall|k: int| 0 <= k < s@.len() ==> (s@[k] as int) < 128,
            v@ == start + ascii_bytes(s@.take(i as int)),
        decreases chars.len() - i,
    {
        let b = ascii_byte(chars[i]);
        v.push(b);
        assert(ascii_bytes(s@.take(i + 1)) =~= ascii_bytes(s@.take(i as int)).push(s@[i as int] as u8));
        i = i + 1;
    }
    assert(s@.take(chars.len() as int) =~= s@);
}

fn ascii_byte(c: char) -> (b: u8)
    requires
        (c as int) < 128,
    ensures
        b == c as u8,
        b as int == c as int,
{
    (c as u32) as u8
}

fn join_path(base: Vec<u8>, rel: &str) -> (res: Vec<u8>)
    requires
        forall|i: int| 0 <= i < rel@.len() ==> (rel@[i] as int) < 128,
    ensures
        res@ == path_join(base@, ascii_bytes(rel@)),
{
    let mut out = base;
    let n = out.len();
    if n > 0 && out[n - 1] != 0x2F {
        out.push(0x2F);
    }
    push_ascii(&mut out, rel);
    out
}

/// The ADC file path given `$CLOUDSDK_CONFIG` and `$HOME` as raw bytes.
pub fn adc_path_in(cloudsdk_config: Option<Vec<u8>>, home: Option<Vec<u8>>) -> (res: Option<Vec<u8>>)
    ensures
        opt_bytes(res) == adc_path_for(opt_bytes(cloudsdk_config), opt_bytes(home)),
{
    let config_home = match cloudsdk_config {
        Some(c) => Some(c),
        None => match home {
            Some(h) => {
                proof {
                    reveal_strlit(".config/gcloud");
                }
                Some(join_path(h, ".config/gcloud"))
            },
            None => None,
        },
    };
    match config_home {
        Some(dir) => {
            proof {
                reveal_strlit("application_default_credentials.json");
            }
            Some(join_path(dir, "application_default_credentials.json"))
        },
        None => None,
    }
}

/// The ADC state as reported, without any secret.
#[derive(Debug)]
pub struct AdcSummary {
    /// Where the ADC file was looked for, if anywhere.
    pub path: Option<String>,
    /// Whether an ADC file was read.
    pub present: bool,
    /// What the file says, when one was read.
    pub details: Option<AdcDetails>,
}

/// Non-secret facts about an ADC file.
#[derive(Debug)]
pub struct AdcDetails {
    pub credential_type: Option<String>,
    pub client_id_present: bool,
    pub refresh_token_present: bool,
    pub quota_project_id: Option<String>,
    pub universe_domain: Option<String>,
}

/// Whether an optional text is there and not empty.
pub open spec fn nonempty_opt(o: Option<String>) -> bool {
    o is Some && o->0@.len() > 0
}

pub open spec fn adc_details_of(adc: AdcFile) -> AdcDetails {
    AdcDetails {
        credential_type: adc.credential_type,
        client_id_present: nonempty_opt(adc.client_id),
        refresh_token_present: nonempty_opt(adc.refresh_token),
        quota_project_id: adc.quota_project_id,
        universe_domain: adc.universe_domain,
    }
}


/// The ADC summary holds no secret: two ADC files that agree on everything
/// but the values of their client id and refresh token (each empty or not
/// alike) are summarized alike.
pub proof fn adc_summary_hides_secrets(a: AdcFile, b: AdcFile)
    requires
        a.credential_type == b.credential_type,
        a.quota_project_id == b.quota_project_id,
        a.universe_domain == b.universe_domain,
        nonempty_opt(a.client_id) == nonempty_opt(b.client_id),
        nonempty_opt(a.refresh_token) == nonempty_opt(b.refresh_token),
    ensures
        adc_details_of(a) == adc_details_of(b),
{
}

fn has_nonempty(o: &Option<String>) -> (res: bool)
    ensures
        res == nonempty_opt(*o),
{
    match o {
        Some(v) => !v.as_str().is_empty(),
        None => false,
    }
}

/// Summarizes the ADC state: where the file is, whether it was read, and
/// what it says without its secrets.
pub fn adc_summary(adc_path: Option<String>, adc: Option<&AdcFile>) -> (res: AdcSummary)
    ensures
        res.path == adc_path,
        res.present == adc is Some,
        match adc {
            Some(file) => res.details == Some(adc_details_of(*file)),
            None => res.details is None,
        },
{
    match adc {
        Some(file) => {
            let details = AdcDetails {
                credential_type: clone_opt_string(&file.credential_type),
                client_id_present: has_nonempty(&file.client_id),
                refresh_token_present: has_nonempty(&file.refresh_token),
                quota_project_id: clone_opt_string(&file.quota_project_id),
                universe_domain: clone_opt_string(&file.universe_domain),
            };
            AdcSummary { path: adc_path, present: true, details: Some(details) }
        },
        None => AdcSummary { path: adc_path, present: false, details: None },
    }
}

fn lit(s: &str) -> (res: String)
    ensures
        res@ == s@,
{
    String::from_str(s)
}

/// The arguments of `gcloud auth list`.
pub open spec fn auth_list_command() -> Seq<Seq<char>> {
    seq!["auth"@, "list"@, "--format=json"@]
}

/// The arguments of `gcloud projects list` for an optional limit, which
/// defaults to 50 and is held to 1..=200.
pub open spec fn projects_list_command(limit: Option<u32>) -> Seq<Seq<char>> {
    let l = match limit {
        Some(l) => l as int,
        None => 50,
    };
    seq!["projects"@, "list"@, "--format=json"@, "--limit"@, decimal(clamp(l, 1, 200) as nat)]
}

/// The arguments of `gcloud auth application-default print-access-token`.
pub open spec fn access_token_command() -> Seq<Seq<char>> {
    seq!["auth"@, "application-default"@, "print-access-token"@]
}

/// The message of a failed command: its trimmed stderr, or its trimmed stdout
/// when stderr is blank.
pub open spec fn failure_message(stdout: Seq<char>, stderr: Seq<char>) -> Seq<char> {
    if trim_seq(stderr).len() == 0 {
        trim_seq(stdout)
    } else {
        trim_seq(stderr)
    }
}

impl GoogleCli {
    pub fn new(gcloud: String) -> (res: Self)
        ensures
            res@ == gcloud@,
    {
        GoogleCli { gcloud }
    }

    /// The program that is run.
    pub fn program(&self) -> (res: &str)
        ensures
            res@ == self@,
    {
        self.gcloud.as_str()
    }

    pub fn auth_list_args() -> (res: Vec<String>)
        ensures
            texts(res@) == auth_list_command(),
    {
        let mut v: Vec<String> = Vec::new();
        v.push(lit("auth"));
        v.push(lit("list"));
        v.push(lit("--format=json"));
        assert(texts(v@) =~= auth_list_command());
        v
    }

    pub fn projects_list_args(limit: Option<u32>) -> (res: Vec<String>)
        ensures
            texts(res@) == projects_list_command(limit),
    {
        let l = match limit {
            Some(l) => l,
            None => 50,
        };
        let l = clamp_u32(l, 1, 200);
        let mut v: Vec<String> = Vec::new();
        v.push(lit("projects"));
        v.push(lit("list"));
        v.push(lit("--format=json"));
        v.push(lit("--limit"));
        v.push(u32_to_decimal(l));
        assert(texts(v@) =~= projects_list_command(limit));
        v
    }

    pub fn access_token_args() -> (res: Vec<String>)
        ensures
            texts(res@) == access_token_command(),
    {
        let mut v: Vec<String> = Vec::new();
        v.push(lit("auth"));
        v.push(lit("application-default"));
        v.push(lit("print-access-token"));
        assert(texts(v@) =~= access_token_command());
        v
    }

    /// How a run of this program with `args` is named in errors.
    pub fn command_label(&self, args: &[String]) -> (res: String)
        ensures
            res@ == self@ + " "@ + join_with(texts(args@), " "@),
    {
        let mut out = self.gcloud.clone();
        out.append(" ");
        let joined = join_strings(args, " ");
        assert(texts(args@) == args@.map_values(|p: String| p@));
        out.append(joined.as_str());
        out
    }

    /// The text a run yields (its stdout, decoded), or the error it is
    /// answered with.
    pub fn command_result(&self, label: String, outcome: CommandOutcome) -> (res: Result<
        String,
        GoogleAdminError,
    >)
        ensures
            match outcome {
                CommandOutcome::TimedOut => res matches Err(
                    GoogleAdminError::CommandFailed { command, message },
                ) && command == label && message@ == "timed out"@,
                CommandOutcome::SpawnFailed { not_found, error } => if not_found {
                    res matches Err(GoogleAdminError::MissingCommand(p)) && p@ == self@
                } else {
                    res == Err::<String, GoogleAdminError>(GoogleAdminError::Io(error))
                },
                CommandOutcome::Finished { success, stdout, stderr } => if success {
                    res matches Ok(t) && t@ == utf8_lossy(stdout@)
                } else {
                    res matches Err(GoogleAdminError::CommandFailed { command, message })
                        && command == label && message@ == failure_message(
                        utf8_lossy(stdout@),
                        utf8_lossy(stderr@),
                    )
                },
            },
    {
        match outcome {
            CommandOutcome::TimedOut => Err(
                GoogleAdminError::CommandFailed { command: label, message: lit("timed out") },
            ),
            CommandOutcome::SpawnFailed { not_found, error } => {
                if not_found {
                    Err(GoogleAdminError::MissingCommand(self.gcloud.clone()))
                } else {
                    Err(GoogleAdminError::Io(error))
                }
            },
            CommandOutcome::Finished { success, stdout, stderr } => {
                let out = decode_utf8_lossy(stdout.as_slice());
                if success {
                    Ok(out)
                } else {
                    let err_text = decode_utf8_lossy(stderr.as_slice());
                    let err = trim(err_text.as_str());
                    let message = if err.as_str().is_empty() {
                        trim(out.as_str())
                    } else {
                        err
                    };
                    Err(GoogleAdminError::CommandFailed { command: label, message })
                }
            },
        }
    }

    /// The JSON document a run yields, or the error it is answered with: the
    /// errors of [`GoogleCli::command_result`], and a JSON error when the
    /// decoded stdout of a successful run is not JSON.
    pub fn command_json_result(&self, label: String, outcome: CommandOutcome) -> (res: Result<
        serde_json::Value,
        GoogleAdminError,
    >)
        ensures
            match outcome {
                CommandOutcome::TimedOut => res matches Err(
                    GoogleAdminError::CommandFailed { command, message },
                ) && command == label && message@ == "timed out"@,
                CommandOutcome::SpawnFailed { not_found, error } => if not_found {
                    res matches Err(GoogleAdminError::MissingCommand(p)) && p@ == self@
                } else {
                    res matches Err(GoogleAdminError::Io(e)) && e == error
                },
                CommandOutcome::Finished { success, stdout, stderr } => if success {
                    &&& res is Ok <==> json_parses(utf8_lossy(stdout@))
                    &&& res matches Ok(v) ==> json_document(utf8_lossy(stdout@)) == Some(v)
                    &&& res is Err ==> res matches Err(GoogleAdminError::Json(_))
                } else {
                    res matches Err(GoogleAdminError::CommandFailed { command, message })
                        && command == label && message@ == failure_message(
                        utf8_lossy(stdout@),
                        utf8_lossy(stderr@),
                    )
                },
            },
    {
        match self.command_result(label, outcome) {
            Ok(text) => match parse_json(text.as_str()) {
                Ok(value) => Ok(value),
                Err(err) => Err(GoogleAdminError::Json(err)),
            },
            Err(err) => Err(err),
        }
    }

    /// The access token in the output of `print-access-token`: the trimmed
    /// output, unless that is empty.
    pub fn access_token_from_output(output: &str) -> (res: Result<String, GoogleAdminError>)
        ensures
            trim_seq(output@).len() == 0 ==> (res matches Err(
                GoogleAdminError::AuthNotConfigured(m),
            ) && m@ == "gcloud returned an empty ADC access token"@),
            trim_seq(output@).len() > 0 ==> (res matches Ok(t) && t@ == trim_seq(output@)),
    {
        let token = trim(output);
        if token.as_str().is_empty() {
            return Err(
                GoogleAdminError::AuthNotConfigured(lit("gcloud returned an empty ADC access token")),
            );
        }
        Ok(token)
    }

    /// The `gcloud auth application-default login` command line, with the
    /// client file trimmed and skipped when blank, and the scopes joined by commas.
    pub fn adc_login_command(
        client_id_file: Option<&str>,
        scopes: &[String],
        no_launch_browser: bool,
    ) -> (res: Vec<String>)
        ensures
            texts(res@) == login_command(opt_str_text(client_id_file), texts(scopes@), no_launch_browser),
    {
        let mut command: Vec<String> = Vec::new();
        command.push(lit("gcloud"));
        command.push(lit("auth"));
        command.push(lit("application-default"));
        command.push(lit("login"));
        let ghost c0 = texts(command@);
        assert(c0 =~= seq!["gcloud"@, "auth"@, "application-default"@, "login"@]);
        if no_launch_browser {
            command.push(lit("--no-launch-browser"));
        }
        let ghost c1 = texts(command@);
        assert(c1 =~= c0 + (if no_launch_browser {
            seq!["--no-launch-browser"@]
        } else {
            Seq::<Seq<char>>::empty()
        }));
        match client_id_file {
            Some(path) => {
                if !is_blank_str(path) {
                    command.push(lit("--client-id-file"));
                    command.push(trim(path));
                }
            },
            None => {},
        }
        let ghost c2 = texts(command@);
        assert(c2 =~= c1 + (if client_id_file is Some && !is_blank(client_id_file->0@) {
            seq!["--client-id-file"@, trim_seq(client_id_file->0@)]
        } else {
            Seq::<Seq<char>>::empty()
        }));
        if scopes.len() > 0 {
            command.push(lit("--scopes"));
            let joined = join_strings(scopes, ",");
            assert(texts(scopes@) == scopes@.map_values(|p: String| p@));
            command.push(joined);
        }
        assert(texts(command@) =~= login_command(
            opt_str_text(client_id_file),
            texts(scopes@),
            no_launch_browser,
        ));
        command
    }
}

} // verus!
