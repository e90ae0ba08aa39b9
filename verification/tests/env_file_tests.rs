use trueos_rads::env_file::{
    env_line_error_message, is_env_key, parse_env_line, parse_env_value, EnvLine, EnvLineError,
};

fn assign(raw: &str) -> (String, String) {
    match parse_env_line(raw) {
        Ok(EnvLine::Assign { key, value }) => (key, value),
        Ok(EnvLine::Skip) => panic!("skipped {raw:?}"),
        Err(_) => panic!("refused {raw:?}"),
    }
}

#[test]
fn blank_lines_and_comments_are_skipped() {
    assert!(matches!(parse_env_line(""), Ok(EnvLine::Skip)));
    assert!(matches!(parse_env_line("   \t"), Ok(EnvLine::Skip)));
    assert!(matches!(parse_env_line("  # LOCALCODER_BIN=/x"), Ok(EnvLine::Skip)));
}

#[test]
fn assignments_are_split_at_the_first_equals() {
    assert_eq!(assign("KEY=value"), ("KEY".to_string(), "value".to_string()));
    assert_eq!(
        assign("  export LOCALCODER_ARGS = \"chat --prompt {prompt}\" "),
        ("LOCALCODER_ARGS".to_string(), "chat --prompt {prompt}".to_string())
    );
    assert_eq!(assign("A='x=y'"), ("A".to_string(), "x=y".to_string()));
    assert_eq!(assign("_B="), ("_B".to_string(), String::new()));
    assert_eq!(assign("C=a=b"), ("C".to_string(), "a=b".to_string()));
}

#[test]
fn refused_lines_say_why() {
    assert!(matches!(parse_env_line("JUST_A_WORD"), Err(EnvLineError::NoEquals)));
    assert!(matches!(parse_env_line("1KEY=x"), Err(EnvLineError::BadKey)));
    assert!(matches!(parse_env_line("MY-KEY=x"), Err(EnvLineError::BadKey)));
    assert!(matches!(parse_env_line("=x"), Err(EnvLineError::BadKey)));
    assert_eq!(
        env_line_error_message(&EnvLineError::NoEquals, 3),
        "invalid .env.local line 3"
    );
    assert_eq!(
        env_line_error_message(&EnvLineError::BadKey, 12),
        "invalid .env.local key on line 12"
    );
}

#[test]
fn keys_and_values_follow_shell_conventions() {
    assert!(is_env_key("PATH"));
    assert!(is_env_key("_x1"));
    assert!(!is_env_key(""));
    assert!(!is_env_key("9a"));
    assert!(!is_env_key("a b"));
    assert_eq!(parse_env_value("\"quoted\""), "quoted");
    assert_eq!(parse_env_value("'single'"), "single");
    assert_eq!(parse_env_value("\"mismatched'"), "\"mismatched'");
    assert_eq!(parse_env_value("\""), "\"");
    assert_eq!(parse_env_value("\"\""), "");
}
