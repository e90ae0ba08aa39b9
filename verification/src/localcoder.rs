//! Decisions behind the adapter for a local `localcoder` CLI: how the
//! `LOCALCODER_ARGS` value is split into arguments, where the prompt goes,
//! which executable paths are tried, and what the status and error replies
//! say. Spawning the process and reading the environment happen in the
//! application around this module.

use vstd::prelude::*;
use crate::text;

verus! {

pub const LOCALCODER_BIN_ENV: &'static str = "LOCALCODER_BIN";

pub const LOCALCODER_ARGS_ENV: &'static str = "LOCALCODER_ARGS";

pub const DEFAULT_CHAT_TIMEOUT_MS: u64 = 120_000;

pub const PROMPT_PLACEHOLDER: &'static str = "{prompt}";

pub const PATH_BINARY_NAME: &'static str = "localcoder";

#[derive(Debug)]
pub struct LocalCoderChatRequest {
    pub prompt: String,
    pub timeout_ms: Option<u64>,
}

#[derive(Debug)]
pub struct LocalCoderChatResponse {
    pub ok: bool,
    pub text: String,
    pub stderr: String,
    pub exit_code: Option<i32>,
    pub bin_path: String,
    pub strategy: LocalCoderCommandStrategy,
}

#[derive(Debug)]
pub struct LocalCoderStatusResponse {
    pub available: bool,
    pub bin_path: Option<String>,
    pub source: Option<LocalCoderBinSource>,
    pub message: Option<String>,
    pub checked_candidates: Vec<String>,
}

#[derive(Debug)]
pub struct LocalCoderError {
    pub kind: LocalCoderErrorKind,
    pub message: String,
    pub detail: Option<String>,
}

#[derive(Clone, Copy, Debug, PartialEq, Eq, Structural)]
pub enum LocalCoderBinSource {
    EnvVar,
    RelativeCandidate,
    Path,
}

#[derive(Clone, Copy, Debug, PartialEq, Eq, Structural)]
pub enum LocalCoderCommandStrategy {
    DefaultPromptArg,
    EnvArgsStdin,
    EnvArgsPromptArg,
}

#[derive(Clone, Copy, Debug, PartialEq, Eq, Structural)]
pub enum LocalCoderErrorKind {
    Unavailable,
    InvalidArgs,
    SpawnFailed,
    Io,
    TimedOut,
    ExitFailed,
}

/// The arguments to pass, whether the prompt goes to stdin, and the strategy
/// that was chosen.
#[derive(Debug)]
pub struct CommandPlan {
    pub args: Vec<String>,
    pub stdin_prompt: bool,
    pub strategy: LocalCoderCommandStrategy,
}

// ---------------------------------------------------------------------------
// Argument splitting
// ---------------------------------------------------------------------------

#[derive(Clone, Copy, PartialEq, Eq, Structural)]
pub enum Quote {
    Plain,
    Single,
    Double,
}

/// The state of the shell-like word splitter after some prefix of the input.
pub struct SplitState {
    pub quote: Quote,
    /// A backslash was read and the next character is taken literally.
    pub escaped: bool,
    pub current: Seq<char>,
    pub started: bool,
    pub args: Seq<Seq<char>>,
}

pub open spec fn split_start() -> SplitState {
    SplitState {
        quote: Quote::Plain,
        escaped: false,
        current: Seq::empty(),
        started: false,
        args: Seq::empty(),
    }
}

/// How one character changes the splitter state: whitespace ends a word
/// outside quotes, quotes open and close, a backslash takes the next
/// character literally (outside quotes and inside double quotes), and single
/// quotes take everything literally.
pub open spec fn split_step(st: SplitState, c: char) -> SplitState {
    if st.escaped {
        SplitState { escaped: false, current: st.current.push(c), ..st }
    } else {
        match st.quote {
            Quote::Plain => if text::is_unicode_whitespace(c) {
                if st.started {
                    SplitState {
                        current: Seq::empty(),
                        started: false,
                        args: st.args.push(st.current),
                        ..st
                    }
                } else {
                    st
                }
            } else if c == '\'' {
                SplitState { quote: Quote::Single, started: true, ..st }
            } else if c == '"' {
                SplitState { quote: Quote::Double, started: true, ..st }
            } else if c == '\\' {
                SplitState { escaped: true, started: true, ..st }
            } else {
                SplitState { current: st.current.push(c), started: true, ..st }
            },
            Quote::Single => if c == '\'' {
                SplitState { quote: Quote::Plain, ..st }
            } else {
                SplitState { current: st.current.push(c), ..st }
            },
            Quote::Double => if c == '"' {
                SplitState { quote: Quote::Plain, ..st }
            } else if c == '\\' {
                SplitState { escaped: true, ..st }
            } else {
                SplitState { current: st.current.push(c), ..st }
            },
        }
    }
}

pub open spec fn split_run(s: Seq<char>) -> SplitState
    decreases s.len(),
{
    if s.len() == 0 {
        split_start()
    } else {
        split_step(split_run(s.drop_last()), s.last())
    }
}

#[derive(Clone, Copy, PartialEq, Eq, Structural)]
pub enum SplitError {
    TrailingBackslash,
    TrailingBackslashInDoubleQuotes,
    UnterminatedSingleQuote,
    UnterminatedDoubleQuote,
}

pub open spec fn split_error_text(e: SplitError) -> Seq<char> {
    match e {
        SplitError::TrailingBackslash => "trailing backslash"@,
        SplitError::TrailingBackslashInDoubleQuotes => "trailing backslash in double quotes"@,
        SplitError::UnterminatedSingleQuote => "unterminated single quote"@,
        SplitError::UnterminatedDoubleQuote => "unterminated double quote"@,
    }
}

/// The words of `s`, or the reason it cannot be split.
pub open spec fn spec_split_args(s: Seq<char>) -> Result<Seq<Seq<char>>, SplitError> {
    let st = split_run(s);
    if st.escaped {
        if st.quote == Quote::Double {
            Err(SplitError::TrailingBackslashInDoubleQuotes)
        } else {
            Err(SplitError::TrailingBackslash)
        }
    } else if st.quote == Quote::Single {
        Err(SplitError::UnterminatedSingleQuote)
    } else if st.quote == Quote::Double {
        Err(SplitError::UnterminatedDoubleQuote)
    } else if st.started {
        Ok(st.args.push(st.current))
    } else {
        Ok(st.args)
    }
}

fn split_error_message(e: SplitError) -> (s: String)
    ensures
        s@ == split_error_text(e),
{
    match e {
        SplitError::TrailingBackslash => text::owned("trailing backslash"),
        SplitError::TrailingBackslashInDoubleQuotes => text::owned(
            "trailing backslash in double quotes",
        ),
        SplitError::UnterminatedSingleQuote => text::owned("unterminated single quote"),
        SplitError::UnterminatedDoubleQuote => text::owned("unterminated double quote"),
    }
}

/// Splits a command line into words the way a POSIX shell quotes them:
/// whitespace separates words, single quotes keep everything literally,
/// double quotes keep everything but backslash escapes, and a backslash
/// outside quotes escapes the next character.
pub fn split_args(input: &str) -> (r: Result<Vec<String>, String>)
    ensures
        match spec_split_args(input@) {
            Ok(words) => r is Ok && text::strings_view(r->Ok_0@) == words,
            Err(e) => r is Err && r->Err_0@ == split_error_text(e),
        },
{
    let chars = text::chars_of(input);
    let mut args: Vec<String> = Vec::new();
    let mut current = String::new();
    let mut quote = Quote::Plain;
    let mut escaped = false;
    let mut started = false;
    let mut i: usize = 0;
    while i < chars.len()
        invariant
            i <= chars.len(),
            chars@ == input@,
            ({
                let st = split_run(chars@.take(i as int));
                &&& st.quote == quote
                &&& st.escaped == escaped
                &&& st.current == current@
                &&& st.started == started
                &&& st.args == text::strings_view(args@)
            }),
        decreases chars.len() - i,
    {
        let c = chars[i];
        proof {
            assert(chars@.take(i + 1).drop_last() == chars@.take(i as int));
        }
        if escaped {
            text::push_char(&mut current, c);
            escaped = false;
        } else {
            match quote {
                Quote::Plain => {
                    if text::unicode_whitespace(c) {
                        if started {
                            let ghost before = args@;
                            let word = current;
                            let ghost word_view = word@;
                            current = String::new();
                            args.push(word);
                            started = false;
                            proof {
                                assert(text::strings_view(args@) =~= text::strings_view(before).push(
                                    word_view,
                                ));
                            }
                        }
                    } else if c == '\'' {
                        quote = Quote::Single;
                        started = true;
                    } else if c == '"' {
                        quote = Quote::Double;
                        started = true;
                    } else if c == '\\' {
                        escaped = true;
                        started = true;
                    } else {
                        text::push_char(&mut current, c);
                        started = true;
                    }
                },
                Quote::Single => {
                    if c == '\'' {
                        quote = Quote::Plain;
                    } else {
                        text::push_char(&mut current, c);
                    }
                },
                Quote::Double => {
                    if c == '"' {
                        quote = Quote::Plain;
                    } else if c == '\\' {
                        escaped = true;
                    } else {
                        text::push_char(&mut current, c);
                    }
                },
            }
        }
        i += 1;
    }
    proof {
        assert(chars@.take(chars.len() as int) == chars@);
    }
    if escaped {
        if quote == Quote::Double {
            return Err(split_error_message(SplitError::TrailingBackslashInDoubleQuotes));
        }
        return Err(split_error_message(SplitError::TrailingBackslash));
    }
    if quote == Quote::Single {
        return Err(split_error_message(SplitError::UnterminatedSingleQuote));
    }
    if quote == Quote::Double {
        return Err(split_error_message(SplitError::UnterminatedDoubleQuote));
    }
    if started {
        let ghost before = args@;
        args.push(current);
        proof {
            assert(text::strings_view(args@) =~= text::strings_view(before).push(current@));
        }
    }
    Ok(args)
}


// ---------------------------------------------------------------------------
// The command plan
// ---------------------------------------------------------------------------

pub open spec fn strategy_of(has_placeholder: bool) -> LocalCoderCommandStrategy {
    if has_placeholder {
        LocalCoderCommandStrategy::EnvArgsPromptArg
    } else {
        LocalCoderCommandStrategy::EnvArgsStdin
    }
}

/// An argument with every `{prompt}` replaced by the prompt.
pub open spec fn with_prompt(arg: Seq<char>, prompt: Seq<char>) -> Seq<char> {
    if text::has_infix(arg, PROMPT_PLACEHOLDER@) {
        text::replace_seq(arg, PROMPT_PLACEHOLDER@, prompt)
    } else {
        arg
    }
}

pub open spec fn any_placeholder(args: Seq<Seq<char>>) -> bool {
    exists|i: int| 0 <= i < args.len() && text::has_infix(#[trigger] args[i], PROMPT_PLACEHOLDER@)
}

/// How `localcoder` is invoked for a prompt, given the `LOCALCODER_ARGS`
/// value: with no value, or a blank one, the prompt is the only argument;
/// otherwise the value is split into words, `{prompt}` in a word is
/// replaced by the prompt, and the prompt goes to stdin when no word had
/// the placeholder. Gives the arguments, whether stdin carries the prompt,
/// and the strategy, or the reason the value cannot be split.
pub open spec fn spec_command_plan(prompt: Seq<char>, raw_args: Option<Seq<char>>) -> Result<
    (Seq<Seq<char>>, bool, LocalCoderCommandStrategy),
    SplitError,
> {
    let default_plan = (seq![prompt], false, LocalCoderCommandStrategy::DefaultPromptArg);
    match raw_args {
        None => Ok(default_plan),
        Some(raw) => if text::trim_seq(raw).len() == 0 {
            Ok(default_plan)
        } else {
            match spec_split_args(text::trim_seq(raw)) {
                Err(e) => Err(e),
                Ok(words) => Ok(
                    (
                        words.map_values(|w: Seq<char>| with_prompt(w, prompt)),
                        !any_placeholder(words),
                        strategy_of(any_placeholder(words)),
                    ),
                ),
            }
        },
    }
}

pub open spec fn plan_view(p: CommandPlan) -> (Seq<Seq<char>>, bool, LocalCoderCommandStrategy) {
    (text::strings_view(p.args@), p.stdin_prompt, p.strategy)
}

/// The error for a `LOCALCODER_ARGS` value that cannot be split.
pub open spec fn is_invalid_args_error(err: LocalCoderError, e: SplitError) -> bool {
    &&& err.kind == LocalCoderErrorKind::InvalidArgs
    &&& err.message@ == "failed to parse "@ + LOCALCODER_ARGS_ENV@
    &&& err.detail matches Some(d) && d@ == split_error_text(e)
}

fn default_plan(prompt: &str) -> (p: CommandPlan)
    ensures
        plan_view(p) == (seq![prompt@], false, LocalCoderCommandStrategy::DefaultPromptArg),
{
    let args = vec![text::owned(prompt)];
    proof {
        assert(text::strings_view(args@) =~= seq![prompt@]);
    }
    CommandPlan { args, stdin_prompt: false, strategy: LocalCoderCommandStrategy::DefaultPromptArg }
}

/// The command plan for a prompt, given the raw `LOCALCODER_ARGS` value (if
/// it is set).
pub fn command_plan(prompt: &str, raw_args: Option<&str>) -> (r: Result<CommandPlan, LocalCoderError>)
    ensures
        match spec_command_plan(
            prompt@,
            match raw_args {
                Some(s) => Some(s@),
                None => None,
            },
        ) {
            Ok(plan) => r matches Ok(p) && plan_view(p) == plan,
            Err(e) => r matches Err(err) && is_invalid_args_error(err, e),
        },
{
    let raw = match raw_args {
        None => {
            return Ok(default_plan(prompt));
        },
        Some(raw) => raw,
    };
    let raw_chars = text::chars_of(raw);
    let trimmed_chars = text::trim_chars(&raw_chars);
    if trimmed_chars.len() == 0 {
        return Ok(default_plan(prompt));
    }
    let trimmed = text::string_of(&trimmed_chars);
    let words = match split_args(trimmed.as_str()) {
        Ok(words) => words,
        Err(detail) => {
            let mut message = text::owned("failed to parse ");
            text::push_str(&mut message, LOCALCODER_ARGS_ENV);
            return Err(
                LocalCoderError { kind: LocalCoderErrorKind::InvalidArgs, message, detail: Some(detail) },
            );
        },
    };
    let ghost ws = text::strings_view(words@);
    let placeholder = text::chars_of(PROMPT_PLACEHOLDER);
    proof {
        reveal_strlit("{prompt}");
    }
    let mut saw = false;
    let mut args: Vec<String> = Vec::new();
    let mut i: usize = 0;
    while i < words.len()
        invariant
            i <= words.len(),
            ws == text::strings_view(words@),
            placeholder@ == PROMPT_PLACEHOLDER@,
            PROMPT_PLACEHOLDER@.len() > 0,
            args@.len() == i,
            forall|j: int| 0 <= j < i ==> #[trigger] args@[j]@ == with_prompt(ws[j], prompt@),
            saw == exists|j: int| 0 <= j < i && text::has_infix(#[trigger] ws[j], PROMPT_PLACEHOLDER@),
        decreases words.len() - i,
    {
        let word = text::chars_of(words[i].as_str());
        if text::contains_seq(&word, &placeholder) {
            saw = true;
            args.push(text::replace_chars(&word, PROMPT_PLACEHOLDER, prompt));
        } else {
            args.push(words[i].clone());
        }
        proof {
            assert(ws[i as int] == words@[i as int]@);
        }
        i += 1;
    }
    proof {
        assert(text::strings_view(args@) =~= ws.map_values(|w: Seq<char>| with_prompt(w, prompt@)));
    }
    let strategy = if saw {
        LocalCoderCommandStrategy::EnvArgsPromptArg
    } else {
        LocalCoderCommandStrategy::EnvArgsStdin
    };
    Ok(CommandPlan { args, stdin_prompt: !saw, strategy })
}

/// What is written to the process's stdin for a prompt: the prompt, ended
/// by a newline.
pub fn stdin_payload(prompt: &str) -> (r: String)
    ensures
        r@ == if prompt@.len() > 0 && prompt@.last() == '\n' {
            prompt@
        } else {
            prompt@.push('\n')
        },
{
    let mut r = text::owned(prompt);
    let n = prompt.unicode_len();
    if n == 0 || prompt.get_char(n - 1) != '\n' {
        text::push_char(&mut r, '\n');
    }
    r
}

/// How long a chat may run, in milliseconds.
pub fn chat_timeout_ms(request: &LocalCoderChatRequest) -> (t: u64)
    ensures
        t == match request.timeout_ms {
            Some(ms) => ms,
            None => DEFAULT_CHAT_TIMEOUT_MS,
        },
{
    match request.timeout_ms {
        Some(ms) => ms,
        None => DEFAULT_CHAT_TIMEOUT_MS,
    }
}

// ---------------------------------------------------------------------------
// Finding the executable
// ---------------------------------------------------------------------------

/// The places tried after `LOCALCODER_BIN`, relative to the working
/// directory.
pub open spec fn relative_candidates() -> Seq<Seq<char>> {
    seq![
        "./localcoder"@,
        "../localcoder/target/debug/localcoder"@,
        "../localcoder/target/release/localcoder"@,
        "../LocalCoder/target/debug/localcoder"@,
        "../LocalCoder/target/release/localcoder"@,
        "../TRUEOS Blueprints/localcoder/target/debug/localcoder"@,
        "../TRUEOS Blueprints/localcoder/target/release/localcoder"@,
    ]
}

fn relative_bin_candidates() -> (v: Vec<&'static str>)
    ensures
        v@.map_values(|s: &'static str| s@) == relative_candidates(),
{
    let v = vec![
        "./localcoder",
        "../localcoder/target/debug/localcoder",
        "../localcoder/target/release/localcoder",
        "../LocalCoder/target/debug/localcoder",
        "../LocalCoder/target/release/localcoder",
        "../TRUEOS Blueprints/localcoder/target/debug/localcoder",
        "../TRUEOS Blueprints/localcoder/target/release/localcoder",
    ];
    proof {
        assert(v@.map_values(|s: &'static str| s@) =~= relative_candidates());
    }
    v
}

/// The paths to try for one configured or candidate path: the path itself.
pub fn executable_candidates_for_path(path: &str) -> (v: Vec<String>)
    ensures
        text::strings_view(v@) == seq![path@],
{
    let v = vec![text::owned(path)];
    proof {
        assert(text::strings_view(v@) =~= seq![path@]);
    }
    v
}

/// The file names looked for in each `PATH` directory.
pub fn path_binary_names() -> (v: Vec<&'static str>)
    ensures
        v@.map_values(|s: &'static str| s@) == seq![PATH_BINARY_NAME@],
{
    let v = vec![PATH_BINARY_NAME];
    proof {
        assert(v@.map_values(|s: &'static str| s@) =~= seq![PATH_BINARY_NAME@]);
    }
    v
}

/// A path to try and where it came from.
pub struct Candidate {
    pub path: String,
    pub source: LocalCoderBinSource,
}

pub open spec fn candidate_view(c: Candidate) -> (Seq<char>, LocalCoderBinSource) {
    (c.path@, c.source)
}

pub open spec fn candidates_view(v: Seq<Candidate>) -> Seq<(Seq<char>, LocalCoderBinSource)> {
    v.map_values(|c: Candidate| candidate_view(c))
}

pub open spec fn tagged(paths: Seq<Seq<char>>, source: LocalCoderBinSource) -> Seq<
    (Seq<char>, LocalCoderBinSource),
> {
    paths.map_values(|p: Seq<char>| (p, source))
}

/// The order in which executables are tried: `LOCALCODER_BIN` when set and
/// not empty, then the relative candidates, then `localcoder` in each
/// `PATH` directory (given as the joined paths).
pub open spec fn candidate_order(configured: Option<Seq<char>>, path_entries: Seq<Seq<char>>) -> Seq<
    (Seq<char>, LocalCoderBinSource),
> {
    let env = match configured {
        Some(c) => if c.len() > 0 {
            seq![(c, LocalCoderBinSource::EnvVar)]
        } else {
            Seq::empty()
        },
        None => Seq::empty(),
    };
    env + tagged(relative_candidates(), LocalCoderBinSource::RelativeCandidate) + tagged(
        path_entries,
        LocalCoderBinSource::Path,
    )
}

fn push_tagged(out: &mut Vec<Candidate>, paths: &Vec<String>, source: LocalCoderBinSource)
    ensures
        candidates_view(final(out)@) == candidates_view(old(out)@) + tagged(
            text::strings_view(paths@),
            source,
        ),
{
    let ghost start = candidates_view(out@);
    let mut i: usize = 0;
    while i < paths.len()
        invariant
            i <= paths.len(),
            candidates_view(out@) == start + tagged(text::strings_view(paths@).take(i as int), source),
        decreases paths.len() - i,
    {
        let ghost before = out@;
        out.push(Candidate { path: paths[i].clone(), source });
        proof {
            let sv = text::strings_view(paths@);
            assert(sv.take(i + 1) =~= sv.take(i as int).push(paths@[i as int]@));
            assert(candidates_view(out@) =~= candidates_view(before).push((paths@[i as int]@, source)));
            assert(tagged(sv.take(i + 1), source) =~= tagged(sv.take(i as int), source).push(
                (paths@[i as int]@, source),
            ));
            assert(candidates_view(out@) =~= start + tagged(
                text::strings_view(paths@).take(i + 1),
                source,
            ));
        }
        i += 1;
    }
    proof {
        assert(text::strings_view(paths@).take(i as int) =~= text::strings_view(paths@));
    }
}

/// Every path to try, in order, with its source.
pub fn candidate_paths(configured: Option<&str>, path_entries: &Vec<String>) -> (v: Vec<Candidate>)
    ensures
        candidates_view(v@) == candidate_order(
            match configured {
                Some(c) => Some(c@),
                None => None,
            },
            text::strings_view(path_entries@),
        ),
{
    let mut v: Vec<Candidate> = Vec::new();
    proof {
        assert(candidates_view(v@) =~= Seq::<(Seq<char>, LocalCoderBinSource)>::empty());
    }
    match configured {
        Some(c) => {
            if !c.is_empty() {
                let paths = executable_candidates_for_path(c);
                push_tagged(&mut v, &paths, LocalCoderBinSource::EnvVar);
            }
        },
        None => {},
    }
    let relative = relative_bin_candidates();
    let mut rel_paths: Vec<String> = Vec::new();
    let mut i: usize = 0;
    while i < relative.len()
        invariant
            i <= relative.len(),
            relative@.map_values(|s: &'static str| s@) == relative_candidates(),
            rel_paths@.len() == i,
            forall|j: int| 0 <= j < i ==> #[trigger] rel_paths@[j]@ == relative@[j]@,
        decreases relative.len() - i,
    {
        rel_paths.push(text::owned(relative[i]));
        i += 1;
    }
    proof {
        assert(text::strings_view(rel_paths@) =~= relative_candidates());
    }
    push_tagged(&mut v, &rel_paths, LocalCoderBinSource::RelativeCandidate);
    push_tagged(&mut v, path_entries, LocalCoderBinSource::Path);
    v
}

/// The executable found, and where it came from.
pub struct DiscoveredBinary {
    pub path: String,
    pub source: LocalCoderBinSource,
}

/// The executable found, if any, and every path checked on the way.
pub struct DiscoveryReport {
    pub binary: Option<DiscoveredBinary>,
    pub checked_candidates: Vec<String>,
}

/// The report after trying candidates in order: those up to and including
/// the first executable one are checked, and that one is the binary, under
/// its resolved path; with none executable, all are checked.
pub fn discovery_report(candidates: &Vec<Candidate>, found: Option<(usize, String)>) -> (r: DiscoveryReport)
    requires
        found matches Some(f) ==> f.0 < candidates@.len(),
    ensures
        match found {
            Some(f) => {
                &&& text::strings_view(r.checked_candidates@) == candidates_view(candidates@).take(
                    f.0 + 1,
                ).map_values(|c: (Seq<char>, LocalCoderBinSource)| c.0)
                &&& r.binary matches Some(b) && b.path@ == f.1@ && b.source
                    == candidates@[f.0 as int].source
            },
            None => {
                &&& text::strings_view(r.checked_candidates@) == candidates_view(candidates@).map_values(
                    |c: (Seq<char>, LocalCoderBinSource)| c.0,
                )
                &&& r.binary is None
            },
        },
{
    let n = match &found {
        Some(f) => {
            let len = candidates.len();
            assert(f.0 < len);
            f.0 + 1
        },
        None => candidates.len(),
    };
    let ghost cv = candidates_view(candidates@);
    let mut checked: Vec<String> = Vec::new();
    let mut i: usize = 0;
    while i < n
        invariant
            i <= n,
            n <= candidates.len(),
            cv == candidates_view(candidates@),
            checked@.len() == i,
            forall|j: int| 0 <= j < i ==> #[trigger] checked@[j]@ == candidates@[j].path@,
        decreases n - i,
    {
        checked.push(candidates[i].path.clone());
        i += 1;
    }
    proof {
        assert(text::strings_view(checked@) =~= cv.take(n as int).map_values(
            |c: (Seq<char>, LocalCoderBinSource)| c.0,
        ));
        assert(cv.take(candidates.len() as int) =~= cv);
    }
    match found {
        Some(f) => {
            let source = candidates[f.0].source;
            DiscoveryReport {
                binary: Some(DiscoveredBinary { path: f.1, source }),
                checked_candidates: checked,
            }
        },
        None => DiscoveryReport { binary: None, checked_candidates: checked },
    }
}

/// The status reply for a discovery report.
pub fn status_sync(report: DiscoveryReport) -> (s: LocalCoderStatusResponse)
    ensures
        text::strings_view(s.checked_candidates@) == text::strings_view(report.checked_candidates@),
        match report.binary {
            Some(b) => {
                &&& s.available
                &&& s.bin_path matches Some(p) && p@ == b.path@
                &&& s.source == Some(b.source)
                &&& s.message is None
            },
            None => {
                &&& !s.available
                &&& s.bin_path is None
                &&& s.source is None
                &&& s.message matches Some(m) && m@ == "localcoder executable not found"@
            },
        },
{
    match report.binary {
        Some(binary) => LocalCoderStatusResponse {
            available: true,
            bin_path: Some(binary.path),
            source: Some(binary.source),
            message: None,
            checked_candidates: report.checked_candidates,
        },
        None => LocalCoderStatusResponse {
            available: false,
            bin_path: None,
            source: None,
            message: Some(text::owned("localcoder executable not found")),
            checked_candidates: report.checked_candidates,
        },
    }
}

// ---------------------------------------------------------------------------
// Errors and replies
// ---------------------------------------------------------------------------

/// The error when no executable was found after checking `checked`
/// candidates.
pub fn unavailable_error(checked: usize) -> (e: LocalCoderError)
    ensures
        e.kind == LocalCoderErrorKind::Unavailable,
        e.message@ == "localcoder executable not found"@,
        e.detail matches Some(d) && d@ == "checked "@ + text::nat_decimal(checked as nat)
            + " candidate(s)"@,
{
    let mut detail = text::owned("checked ");
    text::push_u64(&mut detail, checked as u64);
    text::push_str(&mut detail, " candidate(s)");
    LocalCoderError {
        kind: LocalCoderErrorKind::Unavailable,
        message: text::owned("localcoder executable not found"),
        detail: Some(detail),
    }
}

/// An I/O error while talking to the process.
pub fn io_error(message: &str, detail: &str) -> (e: LocalCoderError)
    ensures
        e.kind == LocalCoderErrorKind::Io,
        e.message@ == message@,
        e.detail matches Some(d) && d@ == detail@,
{
    LocalCoderError { kind: LocalCoderErrorKind::Io, message: text::owned(message), detail: Some(text::owned(detail)) }
}

/// The error when the process could not be started.
pub fn spawn_error(detail: &str) -> (e: LocalCoderError)
    ensures
        e.kind == LocalCoderErrorKind::SpawnFailed,
        e.message@ == "failed to spawn localcoder"@,
        e.detail matches Some(d) && d@ == detail@,
{
    LocalCoderError {
        kind: LocalCoderErrorKind::SpawnFailed,
        message: text::owned("failed to spawn localcoder"),
        detail: Some(text::owned(detail)),
    }
}

/// The error when stdin of the process could not be opened.
pub fn stdin_error() -> (e: LocalCoderError)
    ensures
        e.kind == LocalCoderErrorKind::Io,
        e.message@ == "failed to open localcoder stdin"@,
        e.detail is None,
{
    LocalCoderError {
        kind: LocalCoderErrorKind::Io,
        message: text::owned("failed to open localcoder stdin"),
        detail: None,
    }
}

/// The error when the process outlived its timeout.
pub fn timeout_error(timeout_ms: u64) -> (e: LocalCoderError)
    ensures
        e.kind == LocalCoderErrorKind::TimedOut,
        e.message@ == "localcoder timed out"@,
        e.detail matches Some(d) && d@ == "timeout_ms="@ + text::nat_decimal(timeout_ms as nat),
{
    let mut detail = text::owned("timeout_ms=");
    text::push_u64(&mut detail, timeout_ms);
    LocalCoderError { kind: LocalCoderErrorKind::TimedOut, message: text::owned("localcoder timed out"), detail: Some(detail) }
}

/// `{:?}` of an exit code: `Some(<code>)` or `None`.
pub open spec fn exit_code_text(code: Option<i32>) -> Seq<char> {
    match code {
        Some(c) => "Some("@ + text::int_decimal(c as int) + ")"@,
        None => "None"@,
    }
}

/// The error when the process exited unsuccessfully.
pub fn exit_failed_error(exit_code: Option<i32>, stderr: &str) -> (e: LocalCoderError)
    ensures
        e.kind == LocalCoderErrorKind::ExitFailed,
        e.message@ == "localcoder exited with a non-zero status"@,
        e.detail matches Some(d) && d@ == "exit_code="@ + exit_code_text(exit_code) + "; stderr="@
            + text::trim_seq(stderr@),
{
    let mut detail = text::owned("exit_code=");
    match exit_code {
        Some(c) => {
            text::push_str(&mut detail, "Some(");
            text::push_i64(&mut detail, c as i64);
            text::push_str(&mut detail, ")");
        },
        None => {
            text::push_str(&mut detail, "None");
        },
    }
    text::push_str(&mut detail, "; stderr=");
    let chars = text::chars_of(stderr);
    let trimmed = text::trim_chars(&chars);
    let t = text::string_of(&trimmed);
    text::push_str(&mut detail, t.as_str());
    LocalCoderError {
        kind: LocalCoderErrorKind::ExitFailed,
        message: text::owned("localcoder exited with a non-zero status"),
        detail: Some(detail),
    }
}

fn trimmed(s: &str) -> (r: String)
    ensures
        r@ == text::trim_seq(s@),
{
    let chars = text::chars_of(s);
    let t = text::trim_chars(&chars);
    text::string_of(&t)
}

/// The reply to a chat whose process succeeded: its trimmed output.
pub fn chat_response(
    stdout: &str,
    stderr: &str,
    exit_code: Option<i32>,
    bin_path: &str,
    strategy: LocalCoderCommandStrategy,
) -> (r: LocalCoderChatResponse)
    ensures
        r.ok,
        r.text@ == text::trim_seq(stdout@),
        r.stderr@ == text::trim_seq(stderr@),
        r.exit_code == exit_code,
        r.bin_path@ == bin_path@,
        r.strategy == strategy,
{
    LocalCoderChatResponse {
        ok: true,
        text: trimmed(stdout),
        stderr: trimmed(stderr),
        exit_code,
        bin_path: text::owned(bin_path),
        strategy,
    }
}

/// What the error says: its message, and its detail after a colon when it
/// has one.
pub open spec fn error_text(e: LocalCoderError) -> Seq<char> {
    match e.detail {
        Some(d) => e.message@ + ": "@ + d@,
        None => e.message@,
    }
}

impl LocalCoderError {
    /// The text `Display` shows for the error.
    pub fn message_text(&self) -> (s: String)
        ensures
            s@ == error_text(*self),
    {
        match &self.detail {
            Some(d) => {
                let mut s = self.message.clone();
                text::push_str(&mut s, ": ");
                text::push_str(&mut s, d.as_str());
                s
            },
            None => self.message.clone(),
        }
    }
}

} // verus!
