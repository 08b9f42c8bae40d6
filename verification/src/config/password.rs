//! Where the password comes from, and how its sources are read.

use crate::command::{push_arg, push_owned_arg, CommandLine, CommandLineView};
use crate::config::settings::{Config, PasswordEval, PasswordEvalView};
use crate::secret::{wipe_bytes, wipe_text, Secret};
use crate::strings::{
    chars_of, find_char, joined, lemma_line_holds_no_feed, lemma_line_len, line_len, lossy,
    lossy_text, same_text, signed_decimal, signed_decimal_text, slice_text, texts, trim_text, trimmed,
};
use vstd::prelude::*;

verus! {

// ---------------------------------------------------------------------------
// The secret line of a password source.
// ---------------------------------------------------------------------------

/// The secret in the text of a password source: its first line without the
/// carriage return that may end it.
pub open spec fn secret_line(raw: Seq<char>) -> Seq<char> {
    let line = raw.take(line_len(raw) as int);
    if line.len() > 0 && line.last() == '\r' {
        line.drop_last()
    } else {
        line
    }
}

/// The secret carried by a password source: the first line, minus a trailing
/// `\r`. Tolerates `pass`/`secret-tool` style output that appends metadata or a
/// newline; keeps the password verbatim otherwise (including trailing spaces).
pub fn extract_secret_line(raw: &str) -> (r: String)
    ensures
        r@ == secret_line(raw@),
{
    let chars = chars_of(raw);
    let end: usize = match find_char(&chars, '\n', 0) {
        Some(at) => at,
        None => chars.len(),
    };
    proof {
        lemma_line_len(chars@, end as nat);
    }
    let to: usize = if end > 0 && chars[end - 1] == '\r' {
        end - 1
    } else {
        end
    };
    let secret = slice_text(&chars, 0, to);
    proof {
        assert(secret@ =~= secret_line(raw@));
    }
    secret
}

/// What a password file holds for a secret: the secret and a line feed.
pub open spec fn password_file_contents(secret: Seq<char>) -> Seq<char> {
    secret.push('\n')
}

/// The text to write to a password file.
pub fn password_file_text(password: &Secret) -> (r: String)
    ensures
        r@ == password_file_contents(password@),
{
    let mut out = password.expose().to_owned();
    out.push('\n');
    out
}

/// A secret written to a password file is read back from it unchanged, unless
/// it holds a line feed or ends in a carriage return.
pub proof fn law_password_file_gives_back_the_secret(secret: Seq<char>)
    requires
        !secret.contains('\n'),
        secret.len() == 0 || secret.last() != '\r',
    ensures
        secret_line(password_file_contents(secret)) == secret,
{
    let text = password_file_contents(secret);
    assert forall|k: int| 0 <= k < secret.len() implies text[k] != '\n' by {
        assert(secret.contains(secret[k]));
    }
    lemma_line_len(text, secret.len());
    assert(text.take(secret.len() as int) =~= secret);
}

/// A secret line never holds a line feed, and nothing of the first line is lost
/// but one carriage return at its end.
pub proof fn law_secret_line_is_one_line(raw: Seq<char>)
    ensures
        !secret_line(raw).contains('\n'),
        raw.take(line_len(raw) as int) == secret_line(raw) || raw.take(line_len(raw) as int)
            == secret_line(raw).push('\r'),
        secret_line(raw).is_prefix_of(raw),
{
    lemma_line_holds_no_feed(raw);
    let line = raw.take(line_len(raw) as int);
    assert forall|k: int| 0 <= k < secret_line(raw).len() implies secret_line(raw)[k] != '\n' by {
        assert(secret_line(raw)[k] == line[k]);
    }
    if line.len() > 0 && line.last() == '\r' {
        assert(line =~= line.drop_last().push('\r'));
    }
    assert(secret_line(raw) =~= raw.take(secret_line(raw).len() as int));
}

// ---------------------------------------------------------------------------
// Expansion of `~/` and of environment references.
// ---------------------------------------------------------------------------

/// `path` with a leading `~/` replaced by the home directory, where one is known.
pub open spec fn tilde_expanded(path: Seq<char>, home: Option<Seq<char>>) -> Seq<char> {
    if path.len() >= 2 && path[0] == '~' && path[1] == '/' && home is Some {
        home->0 + seq!['/'] + path.skip(2)
    } else {
        path
    }
}

/// The text that an optional borrowed string holds.
pub open spec fn str_of(o: Option<&str>) -> Option<Seq<char>> {
    match o {
        Some(s) => Some(s@),
        None => None,
    }
}

/// One environment variable.
#[derive(Debug, PartialEq, Eq)]
pub struct EnvVar {
    pub name: String,
    pub value: String,
}

/// The value of `name` in the environment; empty where it is not set.
pub open spec fn env_value(env: Seq<EnvVar>, name: Seq<char>) -> Seq<char>
    decreases env.len(),
{
    if env.len() == 0 {
        Seq::empty()
    } else if env[0].name@ == name {
        env[0].value@
    } else {
        env_value(env.skip(1), name)
    }
}

/// Whether `c` may stand in a bare variable name.
pub open spec fn is_name_char(c: char) -> bool {
    ||| 'a' <= c && c <= 'z'
    ||| 'A' <= c && c <= 'Z'
    ||| '0' <= c && c <= '9'
    ||| c == '_'
}

/// How many name characters `s` starts with.
pub open spec fn name_len(s: Seq<char>) -> nat
    decreases s.len(),
{
    if s.len() > 0 && is_name_char(s[0]) {
        1 + name_len(s.skip(1))
    } else {
        0
    }
}

/// How many characters `s` has before its first closing brace, if it has one.
pub open spec fn brace_len(s: Seq<char>) -> Option<nat>
    decreases s.len(),
{
    if s.len() == 0 {
        None
    } else if s[0] == '}' {
        Some(0nat)
    } else {
        match brace_len(s.skip(1)) {
            Some(n) => Some(n + 1),
            None => None,
        }
    }
}

/// The variable reference that `s`, which starts with `$`, starts with: the
/// name, and how many characters the reference takes.
pub open spec fn reference(s: Seq<char>) -> (Seq<char>, nat) {
    if s[1] == '{' {
        match brace_len(s.skip(2)) {
            Some(n) => (s.subrange(2, 2 + n as int), n + 3),
            None => (Seq::empty(), 1),
        }
    } else {
        (s.subrange(1, 1 + name_len(s.skip(1)) as int), 1 + name_len(s.skip(1)))
    }
}

/// `s` with each `$NAME` and `${NAME}` replaced by the variable's value. A `$`
/// that no name follows stands for itself.
pub open spec fn env_expanded(s: Seq<char>, env: Seq<EnvVar>) -> Seq<char>
    decreases s.len(),
{
    if s.len() == 0 {
        Seq::empty()
    } else if s[0] == '$' && s.len() > 1 {
        let (name, used) = reference(s);
        if name.len() == 0 {
            seq!['$'] + env_expanded(s.skip(1), env)
        } else if used <= s.len() {
            env_value(env, name) + env_expanded(s.skip(used as int), env)
        } else {
            s
        }
    } else {
        seq![s[0]] + env_expanded(s.skip(1), env)
    }
}

proof fn lemma_name_len(s: Seq<char>, n: nat)
    requires
        n <= s.len(),
        forall|k: int| 0 <= k < n ==> is_name_char(s[k]),
        n == s.len() || !is_name_char(s[n as int]),
    ensures
        name_len(s) == n,
    decreases n,
{
    if n > 0 {
        let t = s.skip(1);
        assert forall|k: int| 0 <= k < n - 1 implies is_name_char(t[k]) by {
            assert(t[k] == s[k + 1]);
        }
        lemma_name_len(t, (n - 1) as nat);
    }
}

proof fn lemma_brace_len(s: Seq<char>, found: Option<nat>)
    requires
        match found {
            Some(n) => n < s.len() && s[n as int] == '}' && forall|k: int|
                0 <= k < n ==> s[k] != '}',
            None => forall|k: int| 0 <= k < s.len() ==> s[k] != '}',
        },
    ensures
        brace_len(s) == found,
    decreases s.len(),
{
    if s.len() > 0 && s[0] != '}' {
        let t = s.skip(1);
        let inner: Option<nat> = match found {
            Some(n) => Some((n - 1) as nat),
            None => None,
        };
        match found {
            Some(n) => {
                assert(t[n - 1] == s[n as int]);
                assert forall|k: int| 0 <= k < n - 1 implies t[k] != '}' by {
                    assert(t[k] == s[k + 1]);
                }
            },
            None => {
                assert forall|k: int| 0 <= k < t.len() implies t[k] != '}' by {
                    assert(t[k] == s[k + 1]);
                }
            },
        }
        lemma_brace_len(t, inner);
    }
}

fn name_char(c: char) -> (r: bool)
    ensures
        r == is_name_char(c),
{
    ('a' <= c && c <= 'z') || ('A' <= c && c <= 'Z') || ('0' <= c && c <= '9') || c == '_'
}

fn lookup(env: &Vec<EnvVar>, name: &str) -> (r: String)
    ensures
        r@ == env_value(env@, name@),
{
    proof {
        assert(env@.skip(0) =~= env@);
    }
    for i in 0..env.len()
        invariant
            env_value(env@, name@) == env_value(env@.skip(i as int), name@),
    {
        if same_text(env[i].name.as_str(), name) {
            return env[i].value.clone();
        }
        proof {
            assert(env@.skip(i as int).skip(1) =~= env@.skip(i as int + 1));
        }
    }
    String::new()
}

impl Config {
    /// Expand `~/` if present in a password-file path. `home` is the home
    /// directory, where one is known.
    #[must_use]
    pub fn expand_tilde(path: &str, home: Option<&str>) -> (r: String)
        ensures
            r@ == tilde_expanded(path@, str_of(home)),
    {
        let chars = chars_of(path);
        if chars.len() >= 2 && chars[0] == '~' && chars[1] == '/' {
            if let Some(home) = home {
                let mut out = home.to_owned();
                out.push('/');
                let rest = slice_text(&chars, 2, chars.len());
                let r = joined(out.as_str(), rest.as_str());
                proof {
                    assert(path@.skip(2) =~= path@.subrange(2, path@.len() as int));
                    assert(home@ + seq!['/'] =~= home@.push('/'));
                }
                return r;
            }
        }
        path.to_owned()
    }
}

/// An argv argument with `~/` and its environment references expanded.
pub open spec fn arg_expanded(
    arg: Seq<char>,
    home: Option<Seq<char>>,
    env: Seq<EnvVar>,
) -> Seq<char> {
    env_expanded(tilde_expanded(arg, home), env)
}

/// Reads the variable reference at `i`: its name, and where it ends.
fn read_reference(chars: &Vec<char>, i: usize) -> (r: (String, usize))
    requires
        i + 1 < chars@.len(),
    ensures
        r.0@ == reference(chars@.skip(i as int)).0,
        r.1 == i + reference(chars@.skip(i as int)).1,
        r.1 <= chars@.len(),
{
    let ghost rest = chars@.skip(i as int);
    let n: usize = chars.len();
    assert(i + 1 < n);
    if chars[i + 1] == '{' {
        let end = find_char(chars, '}', i + 2);
        proof {
            let found: Option<nat> = match end {
                Some(e) => Some((e - i - 2) as nat),
                None => None,
            };
            let tail = rest.skip(2);
            assert forall|k: int| 0 <= k < tail.len() implies tail[k] == chars@[i + 2 + k] by {}
            lemma_brace_len(tail, found);
        }
        match end {
            Some(e) => {
                proof {
                    assert(rest.subrange(2, e - i) =~= chars@.subrange(i + 2, e as int));
                }
                (slice_text(chars, i + 2, e), e + 1)
            },
            None => (String::new(), i + 1),
        }
    } else {
        let mut e: usize = i + 1;
        while e < n && name_char(chars[e])
            invariant
                i + 1 <= e <= n == chars@.len(),
                forall|k: int| i + 1 <= k < e ==> is_name_char(chars@[k]),
            decreases chars@.len() - e,
        {
            e = e + 1;
        }
        proof {
            let tail = rest.skip(1);
            assert forall|k: int| 0 <= k < tail.len() implies tail[k] == chars@[i + 1 + k] by {}
            lemma_name_len(tail, (e - i - 1) as nat);
            assert(rest.subrange(1, e - i) =~= chars@.subrange(i + 1, e as int));
        }
        (slice_text(chars, i + 1, e), e)
    }
}

proof fn lemma_move_over(done: Seq<char>, piece: Seq<char>, rest: Seq<char>)
    ensures
        done + (piece + rest) == (done + piece) + rest,
{
    assert(done + (piece + rest) =~= (done + piece) + rest);
}

/// Expand a leading `~/` and `$VAR` / `${VAR}` references for an argv argument.
/// The shell form does this itself; the argv form has no shell, so we do it.
pub fn expand_env_tilde(arg: &str, home: Option<&str>, env: &Vec<EnvVar>) -> (r: String)
    ensures
        r@ == arg_expanded(arg@, str_of(home), env@),
{
    let expanded = Config::expand_tilde(arg, home);
    let chars = chars_of(expanded.as_str());
    let mut out = String::new();
    let mut i: usize = 0;
    proof {
        assert(chars@.skip(0) =~= chars@);
        assert(out@ + env_expanded(chars@, env@) =~= env_expanded(chars@, env@));
    }
    while i < chars.len()
        invariant
            i <= chars@.len(),
            out@ + env_expanded(chars@.skip(i as int), env@) == env_expanded(chars@, env@),
        decreases chars@.len() - i,
    {
        let ghost rest = chars@.skip(i as int);
        let ghost before = out@;
        if chars[i] == '$' && chars.len() - i > 1 {
            let (name, next) = read_reference(&chars, i);
            if name.as_str().is_empty() {
                out.push('$');
                i = i + 1;
                proof {
                    let tail = chars@.skip(i as int);
                    assert(rest.skip(1) =~= tail);
                    lemma_move_over(before, seq!['$'], env_expanded(tail, env@));
                    assert(before + seq!['$'] =~= out@);
                }
            } else {
                let value = lookup(env, name.as_str());
                out.append(value.as_str());
                proof {
                    let tail = chars@.skip(next as int);
                    assert(rest.skip(next - i) =~= tail);
                    lemma_move_over(before, value@, env_expanded(tail, env@));
                }
                i = next;
            }
        } else {
            out.push(chars[i]);
            i = i + 1;
            proof {
                let tail = chars@.skip(i as int);
                assert(rest.skip(1) =~= tail);
                lemma_move_over(before, seq![rest[0]], env_expanded(tail, env@));
                assert(before + seq![rest[0]] =~= out@);
            }
        }
    }
    proof {
        assert(out@ + Seq::<char>::empty() =~= out@);
    }
    out
}

/// An argument with neither a leading `~/` nor a `$` stays as it is.
pub proof fn law_plain_arguments_are_kept(arg: Seq<char>, home: Option<Seq<char>>, env: Seq<EnvVar>)
    requires
        !arg.contains('$'),
        arg.len() < 2 || arg[0] != '~' || arg[1] != '/',
    ensures
        arg_expanded(arg, home, env) == arg,
{
    lemma_no_reference(arg, env);
}

proof fn lemma_no_reference(s: Seq<char>, env: Seq<EnvVar>)
    requires
        !s.contains('$'),
    ensures
        env_expanded(s, env) == s,
    decreases s.len(),
{
    if s.len() > 0 {
        assert(s.contains(s[0]));
        assert forall|k: int| 0 <= k < s.skip(1).len() implies s.skip(1)[k] != '$' by {
            assert(s.contains(s[k + 1]));
        }
        lemma_no_reference(s.skip(1), env);
        assert(seq![s[0]] + s.skip(1) =~= s);
    } else {
        assert(s =~= Seq::empty());
    }
}

/// Text without a `$` stays in front of what follows it.
pub proof fn law_plain_text_stays(plain: Seq<char>, rest: Seq<char>, env: Seq<EnvVar>)
    requires
        !plain.contains('$'),
    ensures
        env_expanded(plain + rest, env) == plain + env_expanded(rest, env),
    decreases plain.len(),
{
    let all = plain + rest;
    if plain.len() == 0 {
        assert(all =~= rest);
        assert(plain + env_expanded(rest, env) =~= env_expanded(rest, env));
    } else {
        assert(plain.contains(plain[0]));
        let tail = plain.skip(1);
        assert forall|k: int| 0 <= k < tail.len() implies tail[k] != '$' by {
            assert(plain.contains(plain[k + 1]));
        }
        law_plain_text_stays(tail, rest, env);
        assert(all.skip(1) =~= tail + rest);
        assert(seq![plain[0]] + (tail + env_expanded(rest, env)) =~= plain + env_expanded(
            rest,
            env,
        ));
    }
}

/// `$NAME` stands for the variable of that name, up to the first character that
/// cannot be part of a name.
pub proof fn law_reference_is_replaced(name: Seq<char>, rest: Seq<char>, env: Seq<EnvVar>)
    requires
        name.len() > 0,
        forall|k: int| 0 <= k < name.len() ==> is_name_char(#[trigger] name[k]),
        rest.len() == 0 || !is_name_char(rest[0]),
    ensures
        env_expanded(seq!['$'] + name + rest, env) == env_value(env, name) + env_expanded(rest, env),
{
    let s = seq!['$'] + name + rest;
    let n = name.len();
    let tail = s.skip(1);
    assert(tail =~= name + rest);
    assert forall|k: int| 0 <= k < n implies is_name_char(tail[k]) by {
        assert(tail[k] == name[k]);
    }
    if n < tail.len() {
        assert(tail[n as int] == rest[0]);
    }
    lemma_name_len(tail, n);
    assert(is_name_char(name[0]));
    assert(s[1] == name[0]);
    assert(s.subrange(1, 1 + n as int) =~= name);
    assert(s.skip(1 + n as int) =~= rest);
}

/// `${NAME}` stands for the variable of that name, whatever characters it has.
pub proof fn law_braced_reference_is_replaced(name: Seq<char>, rest: Seq<char>, env: Seq<EnvVar>)
    requires
        name.len() > 0,
        !name.contains('}'),
    ensures
        env_expanded(seq!['$', '{'] + name + seq!['}'] + rest, env) == env_value(env, name)
            + env_expanded(rest, env),
{
    let s = seq!['$', '{'] + name + seq!['}'] + rest;
    let n = name.len();
    let tail = s.skip(2);
    assert forall|k: int| 0 <= k < n implies tail[k] != '}' by {
        assert(name.contains(name[k]));
        assert(tail[k] == name[k]);
    }
    assert(tail[n as int] == '}');
    lemma_brace_len(tail, Some(n));
    assert(s.subrange(2, 2 + n as int) =~= name);
    assert(s.skip(n as int + 3) =~= rest);
}

/// A `$` that no name follows stands for itself.
pub proof fn law_lone_dollar_stays(rest: Seq<char>, env: Seq<EnvVar>)
    requires
        rest.len() == 0 || (!is_name_char(rest[0]) && rest[0] != '{'),
    ensures
        env_expanded(seq!['$'] + rest, env) == seq!['$'] + env_expanded(rest, env),
{
    let s = seq!['$'] + rest;
    assert(s.skip(1) =~= rest);
    if rest.len() > 0 {
        lemma_name_len(s.skip(1), 0);
        assert(s.subrange(1, 1) =~= Seq::<char>::empty());
    }
}

/// A variable has the value that it was given first; one that was not given is
/// empty.
pub proof fn law_variable_value(env: Seq<EnvVar>, name: Seq<char>, i: int)
    ensures
        0 <= i < env.len() && env[i].name@ == name && (forall|j: int|
            0 <= j < i ==> (#[trigger] env[j]).name@ != name) ==> env_value(env, name)
            == env[i].value@,
        (forall|j: int| 0 <= j < env.len() ==> (#[trigger] env[j]).name@ != name) ==> env_value(
            env,
            name,
        ).len() == 0,
    decreases env.len(),
{
    if env.len() > 0 && env[0].name@ != name {
        let t = env.skip(1);
        law_variable_value(t, name, i - 1);
        if 0 <= i < env.len() && env[i].name@ == name && (forall|j: int|
            0 <= j < i ==> (#[trigger] env[j]).name@ != name) {
            assert(t[i - 1] == env[i]);
            assert forall|j: int| 0 <= j < i - 1 implies (#[trigger] t[j]).name@ != name by {
                assert(env[j + 1].name@ != name);
            }
        }
        if forall|j: int| 0 <= j < env.len() ==> (#[trigger] env[j]).name@ != name {
            assert forall|j: int| 0 <= j < t.len() implies (#[trigger] t[j]).name@ != name by {
                assert(env[j + 1].name@ != name);
            }
        }
    }
}

/// The letters, the digits and the underscore make up a name.
pub proof fn law_name_characters(c: char)
    requires
        c <= '\u{7f}',
    ensures
        is_name_char(c) <==> ('0' <= c && c <= '9') || ('A' <= c && c <= 'Z') || c == '_' || ('a'
            <= c && c <= 'z'),
{
}

// ---------------------------------------------------------------------------
// The password command.
// ---------------------------------------------------------------------------

/// Each of `parts` expanded.
pub open spec fn args_expanded(
    parts: Seq<Seq<char>>,
    home: Option<Seq<char>>,
    env: Seq<EnvVar>,
) -> Seq<Seq<char>> {
    parts.map_values(|p: Seq<char>| arg_expanded(p, home, env))
}

/// The command line of a password command: the shell form through `sh -c`, the
/// array form directly with its arguments expanded. An empty array has none.
pub open spec fn eval_command(
    eval: PasswordEvalView,
    home: Option<Seq<char>>,
    env: Seq<EnvVar>,
) -> Option<CommandLineView> {
    match eval {
        PasswordEvalView::Shell(s) => Some(
            CommandLineView { program: "sh"@, args: seq!["-c"@, s] },
        ),
        PasswordEvalView::Argv(parts) => if parts.len() == 0 {
            None
        } else {
            Some(
                CommandLineView {
                    program: arg_expanded(parts[0], home, env),
                    args: args_expanded(parts.skip(1), home, env),
                },
            )
        },
    }
}

/// How long the driver pauses between two looks at a running command.
pub const POLL_INTERVAL_MS: u64 = 20;

/// How long a password command may run.
pub const PASSWORD_EVAL_TIMEOUT_MS: u64 = 30_000;

/// What a look at a running password command found.
pub enum EvalLook {
    /// The process has exited.
    Exited { success: bool, code: Option<i32> },
    /// The process still runs; whether its time is up.
    Running { past_deadline: bool },
    /// The process could not be asked.
    Failed(String),
}

/// What the driver of a password command does after a look at it.
pub enum EvalWait {
    /// Gather what the process wrote.
    Collect { success: bool, code: Option<i32> },
    /// Pause, then look again.
    SleepMs(u64),
    /// Kill the process group, reap the process and report this.
    KillAndFail(String),
    /// Report this.
    Fail(String),
}

/// How an exit without success is reported: the exit code, or `signal`.
pub open spec fn code_text(code: Option<i32>) -> Seq<char> {
    match code {
        Some(c) => signed_decimal(c as int),
        None => "signal"@,
    }
}

/// The outcome of a command that exited with `success` and `code`, wrote the
/// text `out` and complained with `stderr`.
pub open spec fn eval_outcome(
    success: bool,
    code: Option<i32>,
    out: Seq<char>,
    stderr: Seq<char>,
) -> Result<Seq<char>, Seq<char>> {
    if !success {
        Err("PasswordEval exited "@ + code_text(code) + ": "@ + trimmed(stderr))
    } else if secret_line(out).len() == 0 {
        Err("PasswordEval produced no output"@)
    } else {
        Ok(secret_line(out))
    }
}

/// An outcome as characters.
pub open spec fn outcome_text(r: Result<String, String>) -> Result<Seq<char>, Seq<char>> {
    match r {
        Ok(s) => Ok(s@),
        Err(e) => Err(e@),
    }
}

/// Judges the output of a password command that has exited, given its output
/// as text. The text is wiped once the secret is taken.
pub fn judge_output(
    success: bool,
    code: Option<i32>,
    raw: &mut String,
    stderr: &str,
) -> (r: Result<String, String>)
    ensures
        outcome_text(r) == eval_outcome(success, code, old(raw)@, stderr@),
        final(raw)@.len() == 0,
{
    if !success {
        wipe_text(raw);
        let code = match code {
            Some(c) => signed_decimal_text(c as i64),
            None => "signal".to_owned(),
        };
        let detail = trim_text(stderr);
        let mut message = joined("PasswordEval exited ", code.as_str());
        message.append(": ");
        message.append(detail.as_str());
        return Err(message);
    }
    let secret = extract_secret_line(raw.as_str());
    wipe_text(raw);
    if secret.as_str().is_empty() {
        return Err("PasswordEval produced no output".to_owned());
    }
    Ok(secret)
}

/// The command line that runs a password command.
///
/// # Errors
/// `PasswordEval array is empty` where the array names no program.
pub fn password_eval_command(eval: &PasswordEval, home: Option<&str>, env: &Vec<EnvVar>) -> (r:
    Result<CommandLine, String>)
    ensures
        match eval_command(eval@, str_of(home), env@) {
            Some(line) => r matches Ok(c) && c@ == line,
            None => r matches Err(e) && e@ == "PasswordEval array is empty"@,
        },
{
    match eval {
        PasswordEval::Shell(s) => {
            let mut args: Vec<String> = Vec::new();
            push_arg(&mut args, "-c");
            push_arg(&mut args, s.as_str());
            let line = CommandLine { program: "sh".to_owned(), args };
            proof {
                assert(line@.args =~= seq!["-c"@, s@]);
            }
            Ok(line)
        },
        PasswordEval::Argv(parts) => {
            if parts.len() == 0 {
                return Err("PasswordEval array is empty".to_owned());
            }
            let program = expand_env_tilde(parts[0].as_str(), home, env);
            let mut args: Vec<String> = Vec::new();
            let ghost wanted = args_expanded(texts(parts@).skip(1), str_of(home), env@);
            proof {
                assert(texts(args@) =~= wanted.take(0));
            }
            for i in 1..parts.len()
                invariant
                    1 <= i <= parts@.len(),
                    wanted == args_expanded(texts(parts@).skip(1), str_of(home), env@),
                    texts(args@) == wanted.take(i - 1),
            {
                let arg = expand_env_tilde(parts[i].as_str(), home, env);
                push_owned_arg(&mut args, arg);
                proof {
                    assert(wanted.take(i as int) =~= wanted.take(i - 1).push(wanted[i - 1]));
                }
            }
            proof {
                assert(wanted.take(parts@.len() - 1) =~= wanted);
            }
            Ok(CommandLine { program, args })
        },
    }
}

/// Decides what follows a look at a running password command. A command whose
/// time is up is killed; nothing waits for it to end by itself.
pub fn password_eval_wait(look: EvalLook) -> (r: EvalWait)
    ensures
        match look {
            EvalLook::Exited { success, code } => r == (EvalWait::Collect { success, code }),
            EvalLook::Running { past_deadline } => if past_deadline {
                r matches EvalWait::KillAndFail(e) && e@ == "PasswordEval timed out"@
            } else {
                r == EvalWait::SleepMs(POLL_INTERVAL_MS)
            },
            EvalLook::Failed(e) => r matches EvalWait::Fail(m) && m@
                == "PasswordEval wait failed: "@ + e@,
        },
{
    match look {
        EvalLook::Exited { success, code } => EvalWait::Collect { success, code },
        EvalLook::Running { past_deadline } => {
            if past_deadline {
                EvalWait::KillAndFail("PasswordEval timed out".to_owned())
            } else {
                EvalWait::SleepMs(POLL_INTERVAL_MS)
            }
        },
        EvalLook::Failed(e) => EvalWait::Fail(joined("PasswordEval wait failed: ", e.as_str())),
    }
}

/// The secret that a password command which has exited wrote, or why there is
/// none. The output is wiped either way.
///
/// # Errors
/// An exit without success, and an output whose first line is empty.
pub fn password_eval_finish(
    success: bool,
    code: Option<i32>,
    stdout: Vec<u8>,
    stderr: &str,
) -> (r: Result<String, String>)
    ensures
        outcome_text(r) == eval_outcome(success, code, lossy_text(stdout@), stderr@),
{
    let mut bytes = stdout;
    let mut raw = lossy(bytes.as_slice());
    wipe_bytes(&mut bytes);
    judge_output(success, code, &mut raw, stderr)
}

// ---------------------------------------------------------------------------
// Choosing among the sources.
// ---------------------------------------------------------------------------

/// Where the password is to come from.
pub enum PasswordSource {
    /// The environment variable, whose value is given.
    Environment(String),
    /// The password command.
    Command,
    /// The password file at this path.
    File(String),
    /// The OS keychain.
    Keychain,
    /// The value in the configuration file.
    Inline,
}

/// What a source other than the environment and the file itself answered.
pub enum SourceReply {
    /// The text that the source gave.
    Found(String),
    /// The source has no entry.
    Absent,
    /// The source could not be read.
    Failed,
}

impl Config {
    /// The source with the highest priority: a non-empty environment variable,
    /// then the command, then a non-empty file path, then the keychain, then
    /// the inline value.
    pub open spec fn source_is(
        self,
        env_password: Option<Seq<char>>,
        home: Option<Seq<char>>,
        source: PasswordSource,
    ) -> bool {
        if env_password is Some && env_password->0.len() > 0 {
            source matches PasswordSource::Environment(s) && s@ == env_password->0
        } else if self.password_eval is Some {
            source is Command
        } else if self.password_file is Some && self.password_file->0@.len() > 0 {
            source matches PasswordSource::File(p) && p@ == tilde_expanded(
                self.password_file->0@,
                home,
            )
        } else if self.password_keyring {
            source is Keychain
        } else {
            source is Inline
        }
    }

    /// Picks the source with the highest priority.
    pub fn password_source(&self, env_password: Option<&str>, home: Option<&str>) -> (r:
        PasswordSource)
        ensures
            self.source_is(str_of(env_password), str_of(home), r),
    {
        if let Some(env) = env_password {
            if !env.is_empty() {
                return PasswordSource::Environment(env.to_owned());
            }
        }
        if self.password_eval.is_some() {
            return PasswordSource::Command;
        }
        if let Some(path) = &self.password_file {
            if !path.as_str().is_empty() {
                return PasswordSource::File(Self::expand_tilde(path.as_str(), home));
            }
        }
        if self.password_keyring {
            PasswordSource::Keychain
        } else {
            PasswordSource::Inline
        }
    }

    /// The password after a source has answered. A source that fails leaves no
    /// password: a lower one is never consulted in its place.
    pub open spec fn resolved_password(
        self,
        source: PasswordSource,
        reply: SourceReply,
    ) -> Seq<char> {
        match source {
            PasswordSource::Environment(s) => s@,
            PasswordSource::Inline => self.password@,
            PasswordSource::File(_) => match reply {
                SourceReply::Found(s) => secret_line(s@),
                _ => Seq::empty(),
            },
            _ => match reply {
                SourceReply::Found(s) => s@,
                _ => Seq::empty(),
            },
        }
    }

    /// Takes over the password from the source picked by
    /// [`Config::password_source`], given what that source answered.
    pub fn resolve_password(&mut self, source: PasswordSource, reply: SourceReply)
        ensures
            final(self).password@ == old(self).resolved_password(source, reply),
            final(self).password_from_env == (source is Environment),
            *final(self) == (Config {
                password: final(self).password,
                password_from_env: final(self).password_from_env,
                ..*old(self)
            }),
    {
        let inline = matches!(source, PasswordSource::Inline);
        let from_env = matches!(source, PasswordSource::Environment(_));
        let answer: Option<String> = match (source, reply) {
            (PasswordSource::Environment(s), _) => Some(s),
            (PasswordSource::Inline, _) => None,
            (PasswordSource::File(_), SourceReply::Found(s)) => {
                let mut contents = s;
                let secret = extract_secret_line(contents.as_str());
                wipe_text(&mut contents);
                Some(secret)
            },
            (_, SourceReply::Found(s)) => Some(s),
            _ => None,
        };
        let replacement: Option<Secret> = match answer {
            Some(secret) => Some(Secret::from_string(secret)),
            None => if inline {
                None
            } else {
                Some(Secret::new())
            },
        };
        if let Some(password) = replacement {
            self.password.clear();
            self.password = password;
        }
        self.password_from_env = from_env;
    }
}

/// A source that was asked and gave nothing leaves the password empty,
/// whatever stood in the file.
pub proof fn law_failed_source_leaves_no_password(
    c: Config,
    source: PasswordSource,
    reply: SourceReply,
)
    requires
        source is Command || source is File || source is Keychain,
        reply is Absent || reply is Failed,
    ensures
        c.resolved_password(source, reply).len() == 0,
{
}

} // verus!
