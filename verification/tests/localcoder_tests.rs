use trueos_rads::localcoder::{
    candidate_paths, chat_response, chat_timeout_ms, command_plan, discovery_report,
    exit_failed_error, split_args, status_sync, stdin_payload, timeout_error, unavailable_error,
    LocalCoderBinSource, LocalCoderChatRequest, LocalCoderCommandStrategy, LocalCoderErrorKind,
    DEFAULT_CHAT_TIMEOUT_MS,
};

#[test]
fn splits_quoted_args() {
    assert_eq!(
        split_args("chat --prompt \"hello local coder\" '--mode=text'").unwrap(),
        vec!["chat", "--prompt", "hello local coder", "--mode=text"]
    );
}

#[test]
fn rejects_unterminated_quotes() {
    let err = split_args("chat \"oops").unwrap_err();
    assert!(err.contains("unterminated double quote"));
}

#[test]
fn split_args_reports_each_error() {
    assert_eq!(split_args("chat 'oops").unwrap_err(), "unterminated single quote");
    assert_eq!(split_args("chat \\").unwrap_err(), "trailing backslash");
    assert_eq!(
        split_args("chat \"a\\").unwrap_err(),
        "trailing backslash in double quotes"
    );
}

#[test]
fn split_args_handles_escapes_and_empty_quotes() {
    assert_eq!(
        split_args("a\\ b \"\" 'x\\y' \"q\\\"r\"").unwrap(),
        vec!["a b", "", "x\\y", "q\"r"]
    );
    assert!(split_args("   ").unwrap().is_empty());
}

#[test]
fn default_plan_passes_the_prompt_as_one_argument() {
    for raw in [None, Some(""), Some("   ")] {
        let plan = command_plan("hello local coder", raw).unwrap();
        assert_eq!(plan.args, vec!["hello local coder"]);
        assert!(!plan.stdin_prompt);
        assert_eq!(plan.strategy, LocalCoderCommandStrategy::DefaultPromptArg);
    }
}

#[test]
fn env_args_substitute_the_prompt_placeholder() {
    let plan = command_plan(
        "hello local coder",
        Some("chat --prompt {prompt} --mode 'text only'"),
    )
    .unwrap();
    assert_eq!(
        plan.args,
        vec!["chat", "--prompt", "hello local coder", "--mode", "text only"]
    );
    assert!(!plan.stdin_prompt);
    assert_eq!(plan.strategy, LocalCoderCommandStrategy::EnvArgsPromptArg);
}

#[test]
fn env_args_without_placeholder_send_the_prompt_on_stdin() {
    let plan = command_plan("hi", Some(" chat --stdin ")).unwrap();
    assert_eq!(plan.args, vec!["chat", "--stdin"]);
    assert!(plan.stdin_prompt);
    assert_eq!(plan.strategy, LocalCoderCommandStrategy::EnvArgsStdin);
}

#[test]
fn bad_env_args_are_an_invalid_args_error() {
    let err = command_plan("hi", Some("chat \"oops")).err().unwrap();
    assert_eq!(err.kind, LocalCoderErrorKind::InvalidArgs);
    assert_eq!(err.message, "failed to parse LOCALCODER_ARGS");
    assert_eq!(err.detail.as_deref(), Some("unterminated double quote"));
    assert_eq!(
        err.message_text(),
        "failed to parse LOCALCODER_ARGS: unterminated double quote"
    );
}

#[test]
fn stdin_payload_ends_with_one_newline() {
    assert_eq!(stdin_payload("hi"), "hi\n");
    assert_eq!(stdin_payload("hi\n"), "hi\n");
    assert_eq!(stdin_payload(""), "\n");
}

#[test]
fn chat_timeout_defaults_when_unset() {
    let request = LocalCoderChatRequest {
        prompt: "x".to_string(),
        timeout_ms: None,
    };
    assert_eq!(chat_timeout_ms(&request), DEFAULT_CHAT_TIMEOUT_MS);
    let request = LocalCoderChatRequest {
        prompt: "x".to_string(),
        timeout_ms: Some(5000),
    };
    assert_eq!(chat_timeout_ms(&request), 5000);
}

#[test]
fn candidates_come_in_documented_order() {
    let path = vec!["/usr/bin/localcoder".to_string()];
    let candidates = candidate_paths(Some("/opt/lc"), &path);
    assert_eq!(candidates.len(), 9);
    assert_eq!(candidates[0].path, "/opt/lc");
    assert_eq!(candidates[0].source, LocalCoderBinSource::EnvVar);
    assert_eq!(candidates[1].path, "./localcoder");
    assert_eq!(candidates[1].source, LocalCoderBinSource::RelativeCandidate);
    assert_eq!(candidates[8].path, "/usr/bin/localcoder");
    assert_eq!(candidates[8].source, LocalCoderBinSource::Path);

    let without_env = candidate_paths(Some(""), &Vec::new());
    assert_eq!(without_env.len(), 7);
    assert_eq!(candidate_paths(None, &Vec::new()).len(), 7);
}

#[test]
fn status_uses_the_first_executable_candidate() {
    let path = vec!["/usr/bin/localcoder".to_string()];
    let candidates = candidate_paths(Some("/opt/lc"), &path);
    let report = discovery_report(&candidates, Some((0, "/opt/real/lc".to_string())));
    let status = status_sync(report);
    assert!(status.available);
    assert_eq!(status.bin_path.as_deref(), Some("/opt/real/lc"));
    assert_eq!(status.source, Some(LocalCoderBinSource::EnvVar));
    assert_eq!(status.message, None);
    assert_eq!(status.checked_candidates, vec!["/opt/lc"]);
}

#[test]
fn status_reports_unavailable_when_nothing_is_found() {
    let candidates = candidate_paths(None, &Vec::new());
    let status = status_sync(discovery_report(&candidates, None));
    assert!(!status.available);
    assert_eq!(status.bin_path, None);
    assert!(status.message.unwrap().contains("not found"));
    assert_eq!(status.checked_candidates.len(), 7);
}

#[test]
fn error_constructors_say_what_failed() {
    let e = unavailable_error(3);
    assert_eq!(e.kind, LocalCoderErrorKind::Unavailable);
    assert_eq!(e.message_text(), "localcoder executable not found: checked 3 candidate(s)");
    let e = timeout_error(5000);
    assert_eq!(e.kind, LocalCoderErrorKind::TimedOut);
    assert_eq!(e.detail.as_deref(), Some("timeout_ms=5000"));
    let e = exit_failed_error(Some(-2), "  boom \n");
    assert_eq!(e.kind, LocalCoderErrorKind::ExitFailed);
    assert_eq!(e.detail.as_deref(), Some("exit_code=Some(-2); stderr=boom"));
    let e = exit_failed_error(None, "");
    assert_eq!(e.detail.as_deref(), Some("exit_code=None; stderr="));
}

#[test]
fn chat_response_trims_output() {
    let r = chat_response(
        "\n answer \n",
        " warn ",
        Some(0),
        "/bin/lc",
        LocalCoderCommandStrategy::DefaultPromptArg,
    );
    assert!(r.ok);
    assert_eq!(r.text, "answer");
    assert_eq!(r.stderr, "warn");
    assert_eq!(r.exit_code, Some(0));
    assert_eq!(r.bin_path, "/bin/lc");
}
