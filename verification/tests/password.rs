//! Password sources: files, commands, the environment, the keychain.

use ferrosonic::config::password::{
    expand_env_tilde, extract_secret_line, password_eval_command, password_eval_finish,
    password_eval_wait, password_file_text, EnvVar, EvalLook, EvalWait, PasswordSource,
    SourceReply, PASSWORD_EVAL_TIMEOUT_MS, POLL_INTERVAL_MS,
};
use ferrosonic::config::{Config, PasswordEval};
use ferrosonic::secret::Secret;

fn env(vars: &[(&str, &str)]) -> Vec<EnvVar> {
    vars.iter()
        .map(|(n, v)| EnvVar {
            name: n.to_string(),
            value: v.to_string(),
        })
        .collect()
}

/// A password command whose process is expected to be `argv`, and which exits
/// with `code` after writing `stdout`.
fn run_password_eval(
    eval: &PasswordEval,
    vars: &[(&str, &str)],
    argv: &[&str],
    code: i32,
    stdout: &str,
) -> Result<String, String> {
    let line = password_eval_command(eval, None, &env(vars))?;
    assert_eq!(line.program, argv[0]);
    assert_eq!(line.args, &argv[1..]);
    let look = EvalLook::Exited {
        success: code == 0,
        code: Some(code),
    };
    match password_eval_wait(look) {
        EvalWait::Collect { success, code } => {
            password_eval_finish(success, code, stdout.as_bytes().to_vec(), "")
        }
        _ => panic!("the process has exited"),
    }
}

#[test]
fn extract_secret_line_takes_first_line_keeps_trailing_space() {
    assert_eq!(extract_secret_line("pw\n"), "pw");
    assert_eq!(extract_secret_line("pw\r\n"), "pw");
    assert_eq!(extract_secret_line("pw\nmeta\nmore"), "pw");
    assert_eq!(extract_secret_line("pw with space "), "pw with space ");
    assert_eq!(extract_secret_line(""), "");
}

#[test]
fn extract_secret_line_strips_one_trailing_carriage_return() {
    assert_eq!(extract_secret_line("pw\r\r\n"), "pw\r");
    assert_eq!(extract_secret_line("pw\r\r\nx"), "pw\r");
    assert_eq!(extract_secret_line("pw\r\n"), "pw");
    assert_eq!(extract_secret_line("pw\r"), "pw");
    assert_eq!(extract_secret_line("p\rw\n"), "p\rw");
    assert_eq!(extract_secret_line("\r"), "");
}

#[test]
fn password_file_gives_back_the_secret() {
    for s in ["hunter2", "with space ", "naïve✓", ""] {
        let text = password_file_text(&Secret::from_string(s.to_string()));
        assert_eq!(text, format!("{s}\n"));
        assert_eq!(extract_secret_line(&text), s);
    }
}

#[test]
fn expand_env_tilde_expands_vars() {
    let vars = env(&[("FERRO_TEST_X", "hunter2")]);
    assert_eq!(expand_env_tilde("$FERRO_TEST_X", None, &vars), "hunter2");
    assert_eq!(
        expand_env_tilde("${FERRO_TEST_X}-x", None, &vars),
        "hunter2-x"
    );
    assert_eq!(expand_env_tilde("literal", None, &vars), "literal");
}

#[test]
fn expand_env_tilde_keeps_what_is_no_reference() {
    let vars = env(&[("A", "1"), ("B_2", "two"), ("A", "shadowed")]);
    for (arg, expanded) in [
        ("$", "$"),
        ("a$", "a$"),
        ("$-x", "$-x"),
        ("${A", "${A"),
        ("${}", "${}"),
        ("$$A", "$1"),
        ("$A$B_2é", "1twoé"),
        ("$UNSET!", "!"),
        ("${UNSET}!", "!"),
        ("~", "~"),
        ("~/x/$A", "/home/me/x/1"),
        ("x~/y", "x~/y"),
    ] {
        assert_eq!(expand_env_tilde(arg, Some("/home/me"), &vars), expanded);
    }
}

#[test]
fn expand_tilde_needs_a_home() {
    assert_eq!(Config::expand_tilde("/etc/passwd", Some("/h")), "/etc/passwd");
    assert_eq!(Config::expand_tilde("", Some("/h")), "");
    assert_eq!(Config::expand_tilde("~/pw", Some("/h")), "/h/pw");
    assert_eq!(Config::expand_tilde("~/pw", None), "~/pw");
}

#[test]
fn password_eval_shell_form_captures_first_line() {
    let r = run_password_eval(
        &PasswordEval::Shell("printf 'navipass\\nmeta'".into()),
        &[],
        &["sh", "-c", "printf 'navipass\\nmeta'"],
        0,
        "navipass\nmeta",
    );
    assert_eq!(r, Ok("navipass".to_string()));
}

#[test]
fn password_eval_argv_form_expands_env() {
    let r = run_password_eval(
        &PasswordEval::Argv(vec![
            "printf".into(),
            "%s".into(),
            "$FERRO_TEST_PW".into(),
        ]),
        &[("FERRO_TEST_PW", "argvpass")],
        &["printf", "%s", "argvpass"],
        0,
        "argvpass",
    );
    assert_eq!(r, Ok("argvpass".to_string()));
}

#[test]
fn password_eval_nonzero_exit_and_empty_output_fail() {
    let exit = PasswordEval::Shell("exit 3".into());
    assert!(run_password_eval(&exit, &[], &["sh", "-c", "exit 3"], 3, "").is_err());
    let silent = PasswordEval::Shell("true".into());
    assert!(run_password_eval(&silent, &[], &["sh", "-c", "true"], 0, "").is_err());
}

#[test]
fn password_eval_failures_say_why() {
    assert_eq!(
        password_eval_command(&PasswordEval::Argv(Vec::new()), None, &Vec::new()),
        Err("PasswordEval array is empty".to_string())
    );
    assert_eq!(
        password_eval_finish(false, Some(3), b"secret".to_vec(), " \u{a0}no key\n"),
        Err("PasswordEval exited 3: no key".to_string())
    );
    assert_eq!(
        password_eval_finish(false, Some(-1), Vec::new(), ""),
        Err("PasswordEval exited -1: ".to_string())
    );
    assert_eq!(
        password_eval_finish(false, None, Vec::new(), "x"),
        Err("PasswordEval exited signal: x".to_string())
    );
    assert_eq!(
        password_eval_finish(true, Some(0), b"\nlate".to_vec(), ""),
        Err("PasswordEval produced no output".to_string())
    );
    assert_eq!(
        password_eval_finish(true, Some(0), b"caf\xc3\xa9\xff\r\n".to_vec(), ""),
        Ok("café\u{fffd}".to_string())
    );
}

#[test]
fn password_eval_times_out_without_waiting_for_the_child() {
    match password_eval_wait(EvalLook::Running {
        past_deadline: true,
    }) {
        EvalWait::KillAndFail(e) => assert_eq!(e, "PasswordEval timed out"),
        _ => panic!("a hung command must time out"),
    }
    assert!(matches!(
        password_eval_wait(EvalLook::Running {
            past_deadline: false
        }),
        EvalWait::SleepMs(POLL_INTERVAL_MS)
    ));
    assert!(matches!(
        password_eval_wait(EvalLook::Exited {
            success: true,
            code: Some(0)
        }),
        EvalWait::Collect {
            success: true,
            code: Some(0)
        }
    ));
    match password_eval_wait(EvalLook::Failed("gone".to_string())) {
        EvalWait::Fail(e) => assert_eq!(e, "PasswordEval wait failed: gone"),
        _ => panic!("reported"),
    }
    assert_eq!(PASSWORD_EVAL_TIMEOUT_MS, 30_000);
}

fn config() -> Config {
    Config {
        password: Secret::from_string("inline".to_string()),
        ..Config::default()
    }
}

#[test]
fn sources_are_asked_by_priority() {
    let mut c = config();
    assert!(matches!(c.password_source(None, None), PasswordSource::Inline));
    assert!(matches!(
        c.password_source(Some(""), None),
        PasswordSource::Inline
    ));
    c.password_keyring = true;
    assert!(matches!(c.password_source(None, None), PasswordSource::Keychain));
    c.password_file = Some(String::new());
    assert!(matches!(c.password_source(None, None), PasswordSource::Keychain));
    c.password_file = Some("~/pw".to_string());
    match c.password_source(None, Some("/h")) {
        PasswordSource::File(p) => assert_eq!(p, "/h/pw"),
        _ => panic!("the file comes before the keychain"),
    }
    c.password_eval = Some(PasswordEval::Shell("x".to_string()));
    assert!(matches!(c.password_source(None, None), PasswordSource::Command));
    match c.password_source(Some("env"), None) {
        PasswordSource::Environment(s) => assert_eq!(s, "env"),
        _ => panic!("the environment comes first"),
    }
}

#[test]
fn a_source_that_fails_leaves_no_password() {
    for source in [
        PasswordSource::Command,
        PasswordSource::File("/pw".to_string()),
        PasswordSource::Keychain,
    ] {
        let mut c = config();
        c.resolve_password(source, SourceReply::Failed);
        assert_eq!(c.password_str(), "", "no stale credential is kept");
    }
    let mut c = config();
    c.resolve_password(PasswordSource::Keychain, SourceReply::Absent);
    assert_eq!(c.password_str(), "");
}

#[test]
fn answers_become_the_password() {
    let mut c = config();
    c.resolve_password(
        PasswordSource::Environment("env".to_string()),
        SourceReply::Absent,
    );
    assert_eq!(c.password_str(), "env");
    assert!(c.password_from_env);
    c.resolve_password(
        PasswordSource::File("/pw".to_string()),
        SourceReply::Found("file\r\nrest".to_string()),
    );
    assert_eq!(c.password_str(), "file");
    assert!(!c.password_from_env);
    c.resolve_password(
        PasswordSource::Keychain,
        SourceReply::Found("chain".to_string()),
    );
    assert_eq!(c.password_str(), "chain");
    c.resolve_password(PasswordSource::Inline, SourceReply::Absent);
    assert_eq!(c.password_str(), "chain");
}
