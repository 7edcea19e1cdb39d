use vstd::prelude::*;
use vstd::string::*;

use crate::error::GoogleAdminError;
use crate::google_cli::{login_command, AdcFile, GoogleCli};
use crate::json::{json_parses, oauth_client_of, parse_oauth_client_json};
use crate::text::{
    chars_of, clamp, clamp_usize, clone_opt_string, is_blank, is_blank_str, join_with, lemma_trim_empty_iff_blank, lemma_lex_irreflexive, lemma_lex_total, lemma_lex_transitive,
    lex_lt, push_char, str_lt, texts,
};

verus! {

/// OAuth scope for read-only Google Analytics access.
pub const GA4_READONLY_SCOPE: &'static str = "https://www.googleapis.com/auth/analytics.readonly";

/// OAuth scope for Google Cloud Platform access.
pub const CLOUD_PLATFORM_SCOPE: &'static str = "https://www.googleapis.com/auth/cloud-platform";

/// Every text comes strictly before the ones after it, so none occurs twice.
pub open spec fn strictly_sorted(s: Seq<Seq<char>>) -> bool {
    forall|i: int, j: int| 0 <= i < j < s.len() ==> lex_lt(#[trigger] s[i], #[trigger] s[j])
}

/// The scopes asked for when none are given.
pub open spec fn default_scopes() -> Seq<Seq<char>> {
    seq![GA4_READONLY_SCOPE@, CLOUD_PLATFORM_SCOPE@]
}

/// The scopes that `normalize_scopes` starts from.
pub open spec fn requested_scopes(scopes: Option<Vec<String>>) -> Seq<Seq<char>> {
    match scopes {
        Some(v) => texts(v@),
        None => default_scopes(),
    }
}

/// `result` is the sorted list, without repeats, of the non-blank texts of `input`.
pub open spec fn is_normalized_of(result: Seq<Seq<char>>, input: Seq<Seq<char>>) -> bool {
    &&& strictly_sorted(result)
    &&& forall|x: Seq<char>| #[trigger]
        result.contains(x) <==> (input.contains(x) && !is_blank(x))
}

/// Default the scopes to GA4 read-only plus cloud-platform, drop blank ones,
/// sort them and drop repeats.
pub fn normalize_scopes(scopes: Option<Vec<String>>) -> (res: Vec<String>)
    ensures
        is_normalized_of(texts(res@), requested_scopes(scopes)),
{
    let input: Vec<String> = match scopes {
        Some(v) => v,
        None => {
            let mut d: Vec<String> = Vec::new();
            d.push(String::from_str(GA4_READONLY_SCOPE));
            d.push(String::from_str(CLOUD_PLATFORM_SCOPE));
            assert(texts(d@) =~= default_scopes());
            d
        },
    };
    let ghost want = texts(input@);
    assert(want == requested_scopes(scopes));
    let mut res: Vec<String> = Vec::new();
    let n = input.len();
    let mut i: usize = 0;
    while i < n
        invariant
            n == input.len(),
            want == texts(input@),
            i <= n,
            strictly_sorted(texts(res@)),
            forall|x: Seq<char>| #[trigger]
                texts(res@).contains(x) <==> (want.take(i as int).contains(x) && !is_blank(x)),
        decreases n - i,
    {
        let s = &input[i];
        let ghost sv = s@;
        assert(want[i as int] == sv);
        assert(want.take(i + 1) =~= want.take(i as int).push(sv));
        if is_blank_str(s.as_str()) {
            assert forall|x: Seq<char>| #[trigger]
                texts(res@).contains(x) <==> (want.take(i + 1).contains(x) && !is_blank(x)) by {
                if want.take(i + 1).contains(x) && !is_blank(x) {
                    let k = choose|k: int| 0 <= k < i + 1 && #[trigger] want.take(i + 1)[k] == x;
                    if k < i {
                        assert(want.take(i as int)[k] == x);
                    }
                }
                if want.take(i as int).contains(x) {
                    let k = choose|k: int| 0 <= k < i && #[trigger] want.take(i as int)[k] == x;
                    assert(want.take(i + 1)[k] == x);
                }
            }
        } else {
            insert_sorted(&mut res, s);
            assert forall|x: Seq<char>| #[trigger]
                texts(res@).contains(x) <==> (want.take(i + 1).contains(x) && !is_blank(x)) by {
                if want.take(i + 1).contains(x) {
                    let k = choose|k: int| 0 <= k < i + 1 && #[trigger] want.take(i + 1)[k] == x;
                    if k < i {
                        assert(want.take(i as int)[k] == x);
                    }
                }
                if want.take(i as int).contains(x) {
                    let k = choose|k: int| 0 <= k < i && #[trigger] want.take(i as int)[k] == x;
                    assert(want.take(i + 1)[k] == x);
                }
                assert(want.take(i + 1)[i as int] == sv);
            }
        }
        i = i + 1;
    }
    assert(want.take(n as int) =~= want);
    res
}


/// Two strictly sorted lists with the same elements are the same list.
pub proof fn lemma_strictly_sorted_unique(a: Seq<Seq<char>>, b: Seq<Seq<char>>)
    requires
        strictly_sorted(a),
        strictly_sorted(b),
        forall|x: Seq<char>| a.contains(x) <==> b.contains(x),
    ensures
        a == b,
    decreases a.len(),
{
    if a.len() == 0 {
        if b.len() > 0 {
            assert(b.contains(b[0]));
        }
        assert(a =~= b);
    } else {
        assert(a.contains(a[0]));
        let k = choose|k: int| 0 <= k < b.len() && #[trigger] b[k] == a[0];
        assert(b.contains(b[0]));
        let m = choose|m: int| 0 <= m < a.len() && #[trigger] a[m] == b[0];
        if k > 0 {
            assert(lex_lt(b[0], b[k]));
            if m > 0 {
                assert(lex_lt(a[0], a[m]));
                lemma_lex_total(a[0], b[0]);
            } else {
                lemma_lex_irreflexive(a[0]);
            }
        }
        assert(b[0] == a[0]);
        let a1 = a.drop_first();
        let b1 = b.drop_first();
        assert forall|x: Seq<char>| a1.contains(x) <==> b1.contains(x) by {
            if a1.contains(x) {
                let i = choose|i: int| 0 <= i < a1.len() && #[trigger] a1[i] == x;
                assert(a[i + 1] == x);
                assert(lex_lt(a[0], a[i + 1]));
                lemma_lex_irreflexive(x);
                assert(b.contains(x));
                let j = choose|j: int| 0 <= j < b.len() && #[trigger] b[j] == x;
                assert(j != 0);
                assert(b1[j - 1] == x);
            }
            if b1.contains(x) {
                let i = choose|i: int| 0 <= i < b1.len() && #[trigger] b1[i] == x;
                assert(b[i + 1] == x);
                assert(lex_lt(b[0], b[i + 1]));
                lemma_lex_irreflexive(x);
                assert(a.contains(x));
                let j = choose|j: int| 0 <= j < a.len() && #[trigger] a[j] == x;
                assert(j != 0);
                assert(a1[j - 1] == x);
            }
        }
        lemma_strictly_sorted_unique(a1, b1);
        assert(a =~= seq![a[0]] + a1);
        assert(b =~= seq![b[0]] + b1);
    }
}

/// Normalization is determined by its input: any two normalized forms of the
/// same scopes are equal.
pub proof fn normalized_scopes_unique(input: Seq<Seq<char>>, a: Seq<Seq<char>>, b: Seq<Seq<char>>)
    requires
        is_normalized_of(a, input),
        is_normalized_of(b, input),
    ensures
        a == b,
{
    lemma_strictly_sorted_unique(a, b);
}

/// Normalizing already normalized scopes changes nothing.
pub proof fn normalize_scopes_idempotent(
    input: Seq<Seq<char>>,
    once: Seq<Seq<char>>,
    twice: Seq<Seq<char>>,
)
    requires
        is_normalized_of(once, input),
        is_normalized_of(twice, once),
    ensures
        twice == once,
{
    assert forall|x: Seq<char>| #[trigger] once.contains(x) <==> (once.contains(x) && !is_blank(x)) by {
    }
    assert(is_normalized_of(once, once));
    lemma_strictly_sorted_unique(twice, once);
}

// ---------------------------------------------------------------- shell quoting

/// Characters that stand for themselves in a POSIX shell word.
pub open spec fn is_shell_safe_char(c: char) -> bool {
    let u = c as int;
    ||| 0x61 <= u <= 0x7A
    ||| 0x41 <= u <= 0x5A
    ||| 0x30 <= u <= 0x39
    ||| c == '-'
    ||| c == '_'
    ||| c == '.'
    ||| c == '/'
    ||| c == ':'
    ||| c == '='
    ||| c == ','
    ||| c == '@'
}

pub open spec fn is_shell_safe(s: Seq<char>) -> bool {
    forall|i: int| 0 <= i < s.len() ==> is_shell_safe_char(#[trigger] s[i])
}

/// A character inside single quotes: a quote becomes `'\''`.
pub open spec fn escape_quote_char(c: char) -> Seq<char> {
    if c == '\'' {
        seq!['\'', '\\', '\'', '\'']
    } else {
        seq![c]
    }
}

pub open spec fn escape_quotes(s: Seq<char>) -> Seq<char>
    decreases s.len(),
{
    if s.len() == 0 {
        Seq::empty()
    } else {
        escape_quotes(s.drop_last()) + escape_quote_char(s.last())
    }
}

/// One argument as `shell_join` writes it: as is when every character is
/// safe, else in single quotes.
pub open spec fn quote_arg(s: Seq<char>) -> Seq<char> {
    if is_shell_safe(s) {
        s
    } else {
        seq!['\''] + escape_quotes(s) + seq!['\'']
    }
}


/// An argument holding any character other than an ASCII letter, digit or one
/// of `- _ . / : = , @` is written in single quotes.
pub proof fn shell_quotes_arguments_outside_the_plain_set(p: Seq<char>, i: int)
    requires
        0 <= i < p.len(),
        !({
            let u = p[i] as int;
            ||| 97 <= u <= 122
            ||| 65 <= u <= 90
            ||| 48 <= u <= 57
            ||| u == 45
            ||| u == 95
            ||| u == 46
            ||| u == 47
            ||| u == 58
            ||| u == 61
            ||| u == 44
            ||| u == 64
        }),
    ensures
        quote_arg(p) == seq!['\''] + escape_quotes(p) + seq!['\''],
        quote_arg(p)[0] == '\'' && quote_arg(p).last() == '\'',
{
    assert(!is_shell_safe_char(p[i]));
    assert(!is_shell_safe(p));
}

/// An argument holding a character that a POSIX shell treats specially
/// outside quotes (blanks, quotes, backslash, `( ) ; & | < > $` and the
/// backquote, `* ? ~ # ! { } [ ]`) never stands bare in the line.
pub proof fn shell_never_leaves_special_characters_bare(p: Seq<char>, i: int)
    requires
        0 <= i < p.len(),
        ({
            let c = p[i];
            ||| c == ' ' || c == '\t' || c == '\n'
            ||| c == '\'' || c == '"' || c == '\\' || c == '`'
            ||| c == '(' || c == ')' || c == ';' || c == '&' || c == '|'
            ||| c == '<' || c == '>' || c == '$'
            ||| c == '*' || c == '?' || c == '~' || c == '#' || c == '!'
            ||| c == '{' || c == '}' || c == '[' || c == ']'
        }),
    ensures
        quote_arg(p) == seq!['\''] + escape_quotes(p) + seq!['\''],
{
    shell_quotes_arguments_outside_the_plain_set(p, i);
}

/// The quoted form of each argument.
pub open spec fn quoted_args(command: Seq<Seq<char>>) -> Seq<Seq<char>> {
    command.map_values(|p: Seq<char>| quote_arg(p))
}

/// `s` with every single quote replaced by `'\''`.
fn escape_quotes_exec(chars: &Vec<char>) -> (res: String)
    ensures
        res@ == escape_quotes(chars@),
{
    let mut out = String::new();
    let mut i: usize = 0;
    assert(chars@.take(0) =~= Seq::<char>::empty());
    while i < chars.len()
        invariant
            i <= chars.len(),
            out@ == escape_quotes(chars@.take(i as int)),
        decreases chars.len() - i,
    {
        let c = chars[i];
        assert(chars@.take(i + 1).drop_last() =~= chars@.take(i as int));
        assert(chars@.take(i + 1).last() == c);
        if c == '\'' {
            push_char(&mut out, '\'');
            push_char(&mut out, '\\');
            push_char(&mut out, '\'');
            push_char(&mut out, '\'');
        } else {
            push_char(&mut out, c);
        }
        assert(out@ =~= escape_quotes(chars@.take(i + 1)));
        i = i + 1;
    }
    assert(chars@.take(chars.len() as int) =~= chars@);
    out
}

/// Quotes one argument for a POSIX shell.
fn shell_quote(part: &str) -> (res: String)
    ensures
        res@ == quote_arg(part@),
{
    let chars = chars_of(part);
    let mut safe = true;
    let mut i: usize = 0;
    while i < chars.len()
        invariant
            chars@ == part@,
            i <= chars.len(),
            safe == (forall|j: int| 0 <= j < i ==> is_shell_safe_char(#[trigger] part@[j])),
        decreases chars.len() - i,
    {
        let ok = is_shell_safe_char_exec(chars[i]);
        safe = safe && ok;
        i = i + 1;
    }
    if safe {
        String::from_str(part)
    } else {
        let mut out = String::new();
        push_char(&mut out, '\'');
        let body = escape_quotes_exec(&chars);
        out.append(body.as_str());
        push_char(&mut out, '\'');
        assert(out@ =~= seq!['\''] + escape_quotes(part@) + seq!['\'']);
        out
    }
}

fn is_shell_safe_char_exec(c: char) -> (res: bool)
    ensures
        res == is_shell_safe_char(c),
{
    ('a' <= c && c <= 'z') || ('A' <= c && c <= 'Z') || ('0' <= c && c <= '9') || c == '-' || c
        == '_' || c == '.' || c == '/' || c == ':' || c == '=' || c == ',' || c == '@'
}

/// Renders an argument vector as one shell command line, quoting each
/// argument that holds anything but ASCII letters, digits and `-_./:=,@`.
pub fn shell_join(command: &[String]) -> (res: String)
    ensures
        res@ == join_with(quoted_args(texts(command@)), seq![' ']),
{
    let ghost q = quoted_args(texts(command@));
    let mut out = String::new();
    let n = command.len();
    let mut i: usize = 0;
    assert(q.take(0) =~= Seq::<Seq<char>>::empty());
    while i < n
        invariant
            n == command@.len(),
            q == quoted_args(texts(command@)),
            i <= n,
            out@ == join_with(q.take(i as int), seq![' ']),
        decreases n - i,
    {
        let part = shell_quote(command[i].as_str());
        assert(q[i as int] == part@);
        assert(q.take(i + 1).drop_last() =~= q.take(i as int));
        if i > 0 {
            push_char(&mut out, ' ');
        }
        out.append(part.as_str());
        if i == 0 {
            assert(out@ =~= join_with(q.take(1), seq![' ']));
        } else {
            assert(out@ =~= join_with(q.take(i + 1), seq![' ']));
        }
        i = i + 1;
    }
    assert(q.take(n as int) =~= q);
    out
}


// ------------------------------------------------- reading the line back as a shell does

/// Where a POSIX shell is while it splits a line into words.
pub enum ShellMode {
    /// Outside quotes.
    Plain,
    /// Inside single quotes.
    Quoted,
    /// Right after a backslash outside quotes.
    Escaped,
}

/// The words read so far, the word being read, and whether one has begun.
pub struct ShellScan {
    pub words: Seq<Seq<char>>,
    pub cur: Seq<char>,
    pub started: bool,
    pub mode: ShellMode,
}

/// Blanks that separate words outside quotes.
pub open spec fn is_shell_blank(c: char) -> bool {
    c == ' ' || c == '\t' || c == '\n'
}

/// One character of word splitting: blanks end a word, single quotes open and
/// close a literal run, a backslash takes the next character literally.
pub open spec fn shell_step(st: ShellScan, c: char) -> ShellScan {
    match st.mode {
        ShellMode::Plain => if is_shell_blank(c) {
            if st.started {
                ShellScan { words: st.words.push(st.cur), cur: Seq::empty(), started: false, ..st }
            } else {
                st
            }
        } else if c == '\'' {
            ShellScan { started: true, mode: ShellMode::Quoted, ..st }
        } else if c == '\\' {
            ShellScan { started: true, mode: ShellMode::Escaped, ..st }
        } else {
            ShellScan { cur: st.cur.push(c), started: true, ..st }
        },
        ShellMode::Quoted => if c == '\'' {
            ShellScan { mode: ShellMode::Plain, ..st }
        } else {
            ShellScan { cur: st.cur.push(c), ..st }
        },
        ShellMode::Escaped => ShellScan { cur: st.cur.push(c), mode: ShellMode::Plain, ..st },
    }
}

pub open spec fn shell_scan(st: ShellScan, s: Seq<char>) -> ShellScan
    decreases s.len(),
{
    if s.len() == 0 {
        st
    } else {
        shell_scan(shell_step(st, s[0]), s.drop_first())
    }
}

pub open spec fn shell_start() -> ShellScan {
    ShellScan { words: Seq::empty(), cur: Seq::empty(), started: false, mode: ShellMode::Plain }
}

/// The arguments a POSIX shell reads from a line made of plain words,
/// single-quoted runs and backslash escapes.
pub open spec fn shell_words(line: Seq<char>) -> Seq<Seq<char>> {
    let st = shell_scan(shell_start(), line);
    if st.started {
        st.words.push(st.cur)
    } else {
        st.words
    }
}

proof fn lemma_scan_concat(st: ShellScan, a: Seq<char>, b: Seq<char>)
    ensures
        shell_scan(st, a + b) == shell_scan(shell_scan(st, a), b),
    decreases a.len(),
{
    if a.len() == 0 {
        assert(a + b =~= b);
    } else {
        assert((a + b).drop_first() =~= a.drop_first() + b);
        assert((a + b)[0] == a[0]);
        lemma_scan_concat(shell_step(st, a[0]), a.drop_first(), b);
    }
}

proof fn lemma_scan_one(st: ShellScan, c: char)
    ensures
        shell_scan(st, seq![c]) == shell_step(st, c),
{
    assert(seq![c].drop_first() =~= Seq::<char>::empty());
    assert(shell_scan(shell_step(st, c), Seq::<char>::empty()) == shell_step(st, c));
}

proof fn lemma_scan_snoc(st: ShellScan, s: Seq<char>)
    requires
        s.len() > 0,
    ensures
        shell_scan(st, s) == shell_step(shell_scan(st, s.drop_last()), s.last()),
{
    assert(s =~= s.drop_last() + seq![s.last()]);
    lemma_scan_concat(st, s.drop_last(), seq![s.last()]);
    lemma_scan_one(shell_scan(st, s.drop_last()), s.last());
}

/// A safe word outside quotes is read character by character.
proof fn lemma_scan_safe(st: ShellScan, s: Seq<char>)
    requires
        st.mode == ShellMode::Plain,
        is_shell_safe(s),
    ensures
        shell_scan(st, s) == (ShellScan {
            cur: st.cur + s,
            started: st.started || s.len() > 0,
            ..st
        }),
    decreases s.len(),
{
    if s.len() == 0 {
        assert(st.cur + s =~= st.cur);
    } else {
        let p = s.drop_last();
        assert forall|i: int| 0 <= i < p.len() implies is_shell_safe_char(#[trigger] p[i]) by {
            assert(p[i] == s[i]);
        }
        lemma_scan_safe(st, p);
        lemma_scan_snoc(st, s);
        assert(is_shell_safe_char(s[s.len() - 1]));
        assert(st.cur + s =~= (st.cur + p).push(s.last()));
    }
}

/// Escaped text inside single quotes is read back as the original text.
proof fn lemma_scan_escaped(st: ShellScan, s: Seq<char>)
    requires
        st.mode == ShellMode::Quoted,
        st.started,
    ensures
        shell_scan(st, escape_quotes(s)) == (ShellScan { cur: st.cur + s, ..st }),
    decreases s.len(),
{
    if s.len() == 0 {
        assert(st.cur + s =~= st.cur);
    } else {
        let p = s.drop_last();
        let c = s.last();
        lemma_scan_escaped(st, p);
        let mid = ShellScan { cur: st.cur + p, ..st };
        assert(escape_quotes(s) == escape_quotes(p) + escape_quote_char(c));
        lemma_scan_concat(st, escape_quotes(p), escape_quote_char(c));
        if c == '\'' {
            let e = seq!['\'', '\\', '\'', '\''];
            assert(e =~= seq!['\''] + (seq!['\\'] + (seq!['\''] + seq!['\''])));
            lemma_scan_concat(mid, seq!['\''], seq!['\\'] + (seq!['\''] + seq!['\'']));
            lemma_scan_one(mid, '\'');
            let m1 = shell_step(mid, '\'');
            lemma_scan_concat(m1, seq!['\\'], seq!['\''] + seq!['\'']);
            lemma_scan_one(m1, '\\');
            let m2 = shell_step(m1, '\\');
            lemma_scan_concat(m2, seq!['\''], seq!['\'']);
            lemma_scan_one(m2, '\'');
            let m3 = shell_step(m2, '\'');
            lemma_scan_one(m3, '\'');
        } else {
            lemma_scan_one(mid, c);
        }
        assert(st.cur + s =~= (st.cur + p).push(c));
    }
}

/// A nonempty argument, quoted, is read back as one word.
proof fn lemma_scan_quoted_arg(st: ShellScan, s: Seq<char>)
    requires
        st.mode == ShellMode::Plain,
        s.len() > 0,
    ensures
        shell_scan(st, quote_arg(s)) == (ShellScan { cur: st.cur + s, started: true, ..st }),
{
    if is_shell_safe(s) {
        lemma_scan_safe(st, s);
    } else {
        let body = escape_quotes(s);
        assert(quote_arg(s) =~= seq!['\''] + (body + seq!['\'']));
        lemma_scan_concat(st, seq!['\''], body + seq!['\'']);
        lemma_scan_one(st, '\'');
        let m1 = shell_step(st, '\'');
        lemma_scan_concat(m1, body, seq!['\'']);
        lemma_scan_escaped(m1, s);
        let m2 = shell_scan(m1, body);
        lemma_scan_one(m2, '\'');
    }
}

proof fn lemma_scan_join(parts: Seq<Seq<char>>)
    requires
        parts.len() > 0,
        forall|i: int| 0 <= i < parts.len() ==> (#[trigger] parts[i]).len() > 0,
    ensures
        shell_scan(shell_start(), join_with(quoted_args(parts), seq![' '])) == (ShellScan {
            words: parts.drop_last(),
            cur: parts.last(),
            started: true,
            mode: ShellMode::Plain,
        }),
    decreases parts.len(),
{
    let q = quoted_args(parts);
    if parts.len() == 1 {
        lemma_scan_quoted_arg(shell_start(), parts[0]);
        assert(Seq::<char>::empty() + parts[0] =~= parts[0]);
        assert(parts.drop_last() =~= Seq::<Seq<char>>::empty());
    } else {
        let init = parts.drop_last();
        assert forall|i: int| 0 <= i < init.len() implies (#[trigger] init[i]).len() > 0 by {
            assert(init[i] == parts[i]);
        }
        lemma_scan_join(init);
        assert(q.drop_last() =~= quoted_args(init));
        let head = join_with(q.drop_last(), seq![' ']);
        let st1 = shell_scan(shell_start(), head);
        lemma_scan_concat(shell_start(), head + seq![' '], q.last());
        lemma_scan_concat(shell_start(), head, seq![' ']);
        lemma_scan_one(st1, ' ');
        let st2 = shell_step(st1, ' ');
        assert(q.last() == quote_arg(parts.last()));
        lemma_scan_quoted_arg(st2, parts.last());
        assert(init.drop_last().push(init.last()) =~= parts.drop_last());
        assert(Seq::<char>::empty() + parts.last() =~= parts.last());
    }
}

/// A POSIX shell reads the line that `shell_join` writes back as the very
/// arguments it was made from, whenever no argument is empty.
pub proof fn shell_join_reads_back(command: Seq<Seq<char>>)
    requires
        forall|i: int| 0 <= i < command.len() ==> (#[trigger] command[i]).len() > 0,
    ensures
        shell_words(join_with(quoted_args(command), seq![' '])) == command,
{
    if command.len() == 0 {
        assert(quoted_args(command) =~= Seq::<Seq<char>>::empty());
        assert(command =~= Seq::<Seq<char>>::empty());
    } else {
        lemma_scan_join(command);
        assert(command.drop_last().push(command.last()) =~= command);
    }
}


// ------------------------------------------------------------------ tool arguments

/// Arguments of `google_auth_status`.
#[derive(Debug)]
pub struct AuthStatusArgs {
    /// Include active `gcloud auth list` account information.
    pub include_gcloud_accounts: bool,
}

impl Default for AuthStatusArgs {
    fn default() -> (res: Self)
        ensures
            !res.include_gcloud_accounts,
    {
        AuthStatusArgs { include_gcloud_accounts: false }
    }
}

/// Arguments of `find_tools`.
#[derive(Debug)]
pub struct FindToolsArgs {
    /// Keyword query matched against tool names, descriptions, and keywords.
    pub query: Option<String>,
    /// Optional group filter such as auth, cloud, analytics, or discovery.
    pub group: Option<String>,
    /// Optional read-only filter.
    pub read_only: Option<bool>,
    /// Maximum result count, 1..100.
    pub limit: Option<usize>,
    /// Include matching MCP tool schemas in the response.
    pub include_schema: bool,
}

/// Arguments of `google_adc_login_command`.
#[derive(Debug)]
pub struct AdcLoginCommandArgs {
    /// Optional downloaded OAuth client JSON path.
    pub client_id_file: Option<String>,
    /// Optional scopes. Defaults to GA4 readonly plus cloud-platform.
    pub scopes: Option<Vec<String>>,
    /// Include `--no-launch-browser`. Defaults to true for headless usage.
    pub no_launch_browser: Option<bool>,
}

/// Arguments of `google_oauth_client_file_validate`.
#[derive(Debug)]
pub struct OAuthClientFileArgs {
    /// Path to a downloaded Google OAuth client JSON file.
    pub path: String,
}

/// Arguments of `google_cloud_projects_list`.
#[derive(Debug)]
pub struct ProjectListArgs {
    /// Maximum projects to return, 1..200.
    pub limit: Option<u32>,
}

/// Arguments of `google_ga4_account_summaries_smoke`.
#[derive(Debug)]
pub struct Ga4SmokeArgs {
    /// Quota project for x-goog-user-project. Defaults to MCP config or ADC quota project.
    pub quota_project: Option<String>,
    /// Maximum account summaries to request, 1..200.
    pub page_size: Option<u32>,
}

/// The result count `find_tools` searches for: 20 by default, held to 1..=100.
pub fn find_tools_limit(limit: Option<usize>) -> (res: usize)
    ensures
        res == clamp(
            match limit {
                Some(l) => l as int,
                None => 20,
            },
            1,
            100,
        ),
{
    let l = match limit {
        Some(l) => l,
        None => 20,
    };
    clamp_usize(l, 1, 100)
}


/// For each search result, the position of the first registered tool with
/// its name, if any: the tools whose schemas `find_tools` returns.
pub fn tool_schema_positions(result_names: &[String], tool_names: &[String]) -> (res: Vec<
    Option<usize>,
>)
    ensures
        res@.len() == result_names@.len(),
        forall|i: int|
            0 <= i < res@.len() ==> match #[trigger] res@[i] {
                Some(j) => {
                    &&& j < tool_names@.len()
                    &&& tool_names@[j as int]@ == result_names@[i]@
                    &&& forall|k: int| 0 <= k < j ==> tool_names@[k]@ != result_names@[i]@
                },
                None => forall|k: int| 0 <= k < tool_names@.len() ==> tool_names@[k]@ != result_names@[i]@,
            },
{
    let mut res: Vec<Option<usize>> = Vec::new();
    let mut i: usize = 0;
    while i < result_names.len()
        invariant
            i <= result_names@.len(),
            res@.len() == i,
            forall|a: int|
                0 <= a < i ==> match #[trigger] res@[a] {
                    Some(j) => {
                        &&& j < tool_names@.len()
                        &&& tool_names@[j as int]@ == result_names@[a]@
                        &&& forall|k: int| 0 <= k < j ==> tool_names@[k]@ != result_names@[a]@
                    },
                    None => forall|k: int|
                        0 <= k < tool_names@.len() ==> tool_names@[k]@ != result_names@[a]@,
                },
        decreases result_names@.len() - i,
    {
        let mut j: usize = 0;
        while j < tool_names.len() && !(tool_names[j] == result_names[i])
            invariant
                i < result_names@.len(),
                j <= tool_names@.len(),
                forall|k: int| 0 <= k < j ==> tool_names@[k]@ != result_names@[i as int]@,
            decreases tool_names@.len() - j,
        {
            j = j + 1;
        }
        let found = if j < tool_names.len() {
            Some(j)
        } else {
            None
        };
        res.push(found);
        i = i + 1;
    }
    res
}

/// The quota project of the GA4 smoke test: the argument, else the server's
/// default, else the ADC file's.
pub fn resolve_quota_project(
    requested: Option<String>,
    default_quota_project: &Option<String>,
    adc: Option<&AdcFile>,
) -> (res: Option<String>)
    ensures
        res == match requested {
            Some(q) => Some(q),
            None => match *default_quota_project {
                Some(d) => Some(d),
                None => match adc {
                    Some(file) => file.quota_project_id,
                    None => None,
                },
            },
        },
{
    match requested {
        Some(q) => Some(q),
        None => match default_quota_project {
            Some(d) => Some(d.clone()),
            None => match adc {
                Some(file) => clone_opt_string(&file.quota_project_id),
                None => None,
            },
        },
    }
}

// ------------------------------------------------------------------ ADC login command

/// What `google_adc_login_command` answers.
#[derive(Debug)]
pub struct AdcLoginPlan {
    /// The command as an argument vector.
    pub command: Vec<String>,
    /// The same command as one shell line.
    pub shell_command: String,
    /// The normalized scopes.
    pub scopes: Vec<String>,
    pub requires_operator_browser_consent: bool,
    pub notes: Vec<String>,
}

pub open spec fn login_plan_notes() -> Seq<Seq<char>> {
    seq![
        "Use a downloaded Desktop OAuth client JSON when Google's default gcloud OAuth app is blocked for analytics.readonly."@,
        "The command writes Application Default Credentials on the machine where it is run."@,
        "No token is returned by this tool."@,
    ]
}

pub open spec fn opt_string_text(o: Option<String>) -> Option<Seq<char>> {
    match o {
        Some(s) => Some(s@),
        None => None,
    }
}

/// Builds the ADC login command for the arguments, without running it:
/// scopes normalized, `--no-launch-browser` unless asked otherwise, and the
/// same command as a shell line.
pub fn adc_login_command_plan(args: AdcLoginCommandArgs) -> (res: AdcLoginPlan)
    ensures
        is_normalized_of(texts(res.scopes@), requested_scopes(args.scopes)),
        texts(res.command@) == login_command(
            opt_string_text(args.client_id_file),
            texts(res.scopes@),
            match args.no_launch_browser {
                Some(b) => b,
                None => true,
            },
        ),
        res.shell_command@ == join_with(quoted_args(texts(res.command@)), seq![' ']),
        res.requires_operator_browser_consent,
        texts(res.notes@) == login_plan_notes(),
{
    let scopes = normalize_scopes(args.scopes);
    let no_launch_browser = match args.no_launch_browser {
        Some(b) => b,
        None => true,
    };
    let command = match &args.client_id_file {
        Some(path) => GoogleCli::adc_login_command(Some(path.as_str()), scopes.as_slice(), no_launch_browser),
        None => GoogleCli::adc_login_command(None, scopes.as_slice(), no_launch_browser),
    };
    let shell_command = shell_join(command.as_slice());
    let mut notes: Vec<String> = Vec::new();
    notes.push(String::from_str(
        "Use a downloaded Desktop OAuth client JSON when Google's default gcloud OAuth app is blocked for analytics.readonly.",
    ));
    notes.push(String::from_str(
        "The command writes Application Default Credentials on the machine where it is run.",
    ));
    notes.push(String::from_str("No token is returned by this tool."));
    assert(texts(notes@) =~= login_plan_notes());
    AdcLoginPlan {
        command,
        shell_command,
        scopes,
        requires_operator_browser_consent: true,
        notes,
    }
}

proof fn lemma_join_nonempty(parts: Seq<Seq<char>>, sep: Seq<char>)
    requires
        parts.len() > 0,
        parts[0].len() > 0,
    ensures
        join_with(parts, sep).len() > 0,
    decreases parts.len(),
{
    if parts.len() > 1 {
        assert(parts.drop_last()[0] == parts[0]);
        lemma_join_nonempty(parts.drop_last(), sep);
    }
}

/// The shell line of the ADC login command reads back, in a POSIX shell, as
/// its argument vector, whatever the client file and the (normalized) scopes.
pub proof fn adc_login_shell_line_reads_back(
    client_id_file: Option<Seq<char>>,
    scopes: Seq<Seq<char>>,
    no_launch_browser: bool,
)
    requires
        forall|i: int| 0 <= i < scopes.len() ==> !is_blank(#[trigger] scopes[i]),
    ensures
        shell_words(
            join_with(
                quoted_args(login_command(client_id_file, scopes, no_launch_browser)),
                seq![' '],
            ),
        ) == login_command(client_id_file, scopes, no_launch_browser),
{
    let cmd = login_command(client_id_file, scopes, no_launch_browser);
    reveal_strlit("gcloud");
    reveal_strlit("auth");
    reveal_strlit("application-default");
    reveal_strlit("login");
    reveal_strlit("--no-launch-browser");
    reveal_strlit("--client-id-file");
    reveal_strlit("--scopes");
    if client_id_file is Some && !is_blank(client_id_file->0) {
        lemma_trim_empty_iff_blank(client_id_file->0);
    }
    if scopes.len() > 0 {
        assert(!is_blank(scopes[0]));
        lemma_join_nonempty(scopes, ","@);
    }
    assert forall|i: int| 0 <= i < cmd.len() implies (#[trigger] cmd[i]).len() > 0 by {}
    shell_join_reads_back(cmd);
}

// ------------------------------------------------------------------ OAuth client file

/// The fields of one client object of an OAuth client JSON file; each is
/// there when the object holds it as a string.
#[derive(Debug)]
pub struct OAuthClientSection {
    pub client_id: Option<String>,
    pub client_secret: Option<String>,
    pub token_uri: Option<String>,
}

/// An OAuth client JSON file: its `installed` and `web` client objects, each
/// there when the key is.
#[derive(Debug)]
pub struct OAuthClientJson {
    pub installed: Option<OAuthClientSection>,
    pub web: Option<OAuthClientSection>,
}

/// The non-secret report on a valid OAuth client file.
#[derive(Debug)]
pub struct OAuthClientReport {
    pub path: String,
    pub valid: bool,
    /// `installed` or `web`.
    pub client_type: String,
    pub client_id_present: bool,
    pub client_secret_present: bool,
    pub token_uri: String,
}

/// A client object as texts: its `client_id`, `client_secret` and `token_uri`.
pub type SectionText = (Option<Seq<char>>, Option<Seq<char>>, Option<Seq<char>>);

/// A client file as texts: its `installed` and `web` objects.
pub type ClientFileText = (Option<SectionText>, Option<SectionText>);

pub open spec fn section_text(s: OAuthClientSection) -> SectionText {
    (opt_string_text(s.client_id), opt_string_text(s.client_secret), opt_string_text(s.token_uri))
}

pub open spec fn client_file_text(doc: OAuthClientJson) -> ClientFileText {
    (
        match doc.installed {
            Some(s) => Some(section_text(s)),
            None => None,
        },
        match doc.web {
            Some(s) => Some(section_text(s)),
            None => None,
        },
    )
}

/// The `client_id` of a client object.
pub open spec fn client_id_of(c: SectionText) -> Option<Seq<char>> {
    c.0
}

/// Whether an optional text is there and not blank.
pub open spec fn nonblank_text(o: Option<Seq<char>>) -> bool {
    o is Some && !is_blank(o->0)
}

/// The client object that is read: `installed`, else `web`.
pub open spec fn chosen_client(doc: ClientFileText) -> Option<SectionText> {
    match doc.0 {
        Some(c) => Some(c),
        None => doc.1,
    }
}

/// The kind, the two presence flags and the token URI that the report on a
/// valid file gives.
pub open spec fn oauth_report_fields(doc: ClientFileText) -> (Seq<char>, bool, bool, Seq<char>) {
    let c = chosen_client(doc)->0;
    (
        if doc.0 is Some {
            "installed"@
        } else {
            "web"@
        },
        nonblank_text(c.0),
        nonblank_text(c.1),
        match c.2 {
            Some(t) => t,
            None => "https://oauth2.googleapis.com/token"@,
        },
    )
}

/// How the check of a client file found at `path` answers: an error when
/// neither object is there or the chosen one has a blank `client_id`, else
/// the report.
pub open spec fn oauth_verdict(
    res: Result<OAuthClientReport, GoogleAdminError>,
    path: String,
    doc: ClientFileText,
) -> bool {
    &&& chosen_client(doc) is None ==> (res matches Err(
        GoogleAdminError::InvalidArgument { field, message },
    ) && field@ == "path"@ && message@ == "missing installed or web object"@)
    &&& (chosen_client(doc) matches Some(c) && !nonblank_text(c.0)) ==> (res matches Err(
        GoogleAdminError::InvalidArgument { field, message },
    ) && field@ == "path"@ && message@ == "missing client_id"@)
    &&& res is Ok <==> (chosen_client(doc) matches Some(c) && nonblank_text(c.0))
    &&& res matches Ok(r) ==> {
        &&& r.path == path
        &&& r.valid
        &&& (r.client_type@, r.client_id_present, r.client_secret_present, r.token_uri@)
            == oauth_report_fields(doc)
    }
}

/// The client object with its secret replaced.
pub open spec fn with_secret(c: SectionText, secret: Option<Seq<char>>) -> SectionText {
    (c.0, secret, c.2)
}

/// The OAuth client report does not depend on the client secret beyond
/// whether one is there: two files that differ only in a non-blank secret
/// give the same verdict and the same report.
pub proof fn oauth_report_hides_client_secret(
    doc: ClientFileText,
    s1: Option<Seq<char>>,
    s2: Option<Seq<char>>,
)
    requires
        nonblank_text(s1) == nonblank_text(s2),
    ensures
        ({
            let d1: ClientFileText = (
                match doc.0 {
                    Some(c) => Some(with_secret(c, s1)),
                    None => None,
                },
                match doc.1 {
                    Some(c) => Some(with_secret(c, s1)),
                    None => None,
                },
            );
            let d2: ClientFileText = (
                match doc.0 {
                    Some(c) => Some(with_secret(c, s2)),
                    None => None,
                },
                match doc.1 {
                    Some(c) => Some(with_secret(c, s2)),
                    None => None,
                },
            );
            &&& (chosen_client(d1) is Some <==> chosen_client(d2) is Some)
            &&& chosen_client(d1) is Some ==> (nonblank_text(client_id_of(chosen_client(d1)->0))
                <==> nonblank_text(client_id_of(chosen_client(d2)->0)))
            &&& chosen_client(d1) is Some ==> oauth_report_fields(d1) == oauth_report_fields(d2)
        }),
{
}


/// The report on a valid client file reads the object that is used,
/// `installed` when there is one, else `web`: its kind, whether that object
/// has a non-blank `client_secret` string, and its `token_uri` (Google's
/// token endpoint when it gives none).
pub proof fn oauth_report_reads_the_chosen_object(
    res: Result<OAuthClientReport, GoogleAdminError>,
    path: String,
    doc: ClientFileText,
)
    requires
        oauth_verdict(res, path, doc),
    ensures
        res matches Ok(r) ==> match doc.0 {
            Some(installed) => {
                &&& r.client_type@ == "installed"@
                &&& r.client_secret_present == (installed.1 is Some && !is_blank(installed.1->0))
                &&& r.token_uri@ == (if installed.2 is Some {
                    installed.2->0
                } else {
                    "https://oauth2.googleapis.com/token"@
                })
            },
            None => doc.1 matches Some(web) && {
                &&& r.client_type@ == "web"@
                &&& r.client_secret_present == (web.1 is Some && !is_blank(web.1->0))
                &&& r.token_uri@ == (if web.2 is Some {
                    web.2->0
                } else {
                    "https://oauth2.googleapis.com/token"@
                })
            },
        },
        res is Ok <==> match doc.0 {
            Some(installed) => installed.0 is Some && !is_blank(installed.0->0),
            None => doc.1 matches Some(web) && web.0 is Some && !is_blank(web.0->0),
        },
        res matches Ok(r) ==> r.client_id_present && r.valid && r.path == path,
{
}

fn nonblank(o: &Option<String>) -> (res: bool)
    ensures
        res == nonblank_text(opt_string_text(*o)),
{
    match o {
        Some(v) => !is_blank_str(v.as_str()),
        None => false,
    }
}

/// Checks an OAuth client file: it needs an `installed` or `web` object with
/// a non-blank `client_id`. The report says which kind it is and whether a
/// secret is there, never what it is.
pub fn validate_oauth_client(path: String, doc: &OAuthClientJson) -> (res: Result<
    OAuthClientReport,
    GoogleAdminError,
>)
    ensures
        oauth_verdict(res, path, client_file_text(*doc)),
{
    let client = match &doc.installed {
        Some(c) => c,
        None => match &doc.web {
            Some(c) => c,
            None => {
                return Err(
                    GoogleAdminError::invalid("path", String::from_str("missing installed or web object")),
                );
            },
        },
    };
    let client_id_present = nonblank(&client.client_id);
    let client_secret_present = nonblank(&client.client_secret);
    let token_uri = match &client.token_uri {
        Some(t) => t.clone(),
        None => String::from_str("https://oauth2.googleapis.com/token"),
    };
    if !client_id_present {
        return Err(GoogleAdminError::invalid("path", String::from_str("missing client_id")));
    }
    let client_type = if doc.installed.is_some() {
        String::from_str("installed")
    } else {
        String::from_str("web")
    };
    Ok(
        OAuthClientReport {
            path,
            valid: true,
            client_type,
            client_id_present,
            client_secret_present,
            token_uri,
        },
    )
}

/// Checks the text of an OAuth client file found at `path`: a JSON error when
/// the text is not JSON, else the verdict of [`validate_oauth_client`] on the
/// client objects the text holds.
pub fn validate_oauth_client_text(path: String, raw: &str) -> (res: Result<
    OAuthClientReport,
    GoogleAdminError,
>)
    ensures
        !json_parses(raw@) ==> res matches Err(GoogleAdminError::Json(_)),
        json_parses(raw@) ==> oauth_verdict(res, path, oauth_client_of(raw@)),
{
    match parse_oauth_client_json(raw) {
        Ok(doc) => validate_oauth_client(path, &doc),
        Err(err) => Err(GoogleAdminError::Json(err)),
    }
}

/// Inserts a copy of `s` at its place in the strictly sorted `v`, unless it is there.
fn insert_sorted(v: &mut Vec<String>, s: &String)
    requires
        strictly_sorted(texts(old(v)@)),
    ensures
        strictly_sorted(texts(final(v)@)),
        forall|x: Seq<char>| #[trigger]
            texts(final(v)@).contains(x) <==> (texts(old(v)@).contains(x) || x == s@),
{
    let ghost old_t = texts(v@);
    let mut j: usize = 0;
    while j < v.len() && str_lt(v[j].as_str(), s.as_str())
        invariant
            texts(v@) == old_t,
            j <= v.len(),
            forall|k: int| 0 <= k < j ==> lex_lt(#[trigger] old_t[k], s@),
        decreases v.len() - j,
    {
        assert(old_t[j as int] == v@[j as int]@);
        j = j + 1;
    }
    if j < v.len() && v[j] == *s {
        assert(old_t[j as int] == s@);
        return;
    }
    proof {
        if j < v.len() {
            assert(old_t[j as int] == v@[j as int]@);
            lemma_lex_total(old_t[j as int], s@);
            assert(lex_lt(s@, old_t[j as int]));
            assert forall|k: int| j < k < old_t.len() implies lex_lt(s@, #[trigger] old_t[k]) by {
                lemma_lex_transitive(s@, old_t[j as int], old_t[k]);
            }
        }
    }
    let c = s.clone();
    v.insert(j, c);
    proof {
        let t = texts(v@);
        assert(t =~= old_t.insert(j as int, s@));
        assert forall|a: int, b: int| 0 <= a < b < t.len() implies lex_lt(
            #[trigger] t[a],
            #[trigger] t[b],
        ) by {
            if a < j && b == j {
            } else if a < j && b > j {
                assert(t[b] == old_t[b - 1]);
            } else if a == j {
                assert(t[b] == old_t[b - 1]);
            } else if a > j {
                assert(t[a] == old_t[a - 1]);
                assert(t[b] == old_t[b - 1]);
            }
        }
        assert forall|x: Seq<char>| #[trigger]
            t.contains(x) <==> (old_t.contains(x) || x == s@) by {
            if t.contains(x) {
                let k = choose|k: int| 0 <= k < t.len() && #[trigger] t[k] == x;
                if k < j {
                    assert(old_t[k] == x);
                } else if k > j {
                    assert(old_t[k - 1] == x);
                }
            }
            if old_t.contains(x) {
                let k = choose|k: int| 0 <= k < old_t.len() && #[trigger] old_t[k] == x;
                if k < j {
                    assert(t[k] == x);
                } else {
                    assert(t[k + 1] == x);
                }
            }
            if x == s@ {
                assert(t[j as int] == x);
            }
        }
    }
}

} // verus!
