use ftp_engine::parse::parse_command;

#[test]
fn test_parse_command() {
    println!("--- Test for parse_command ---");

    let test_commands = vec!["LIST -l", "USER anonymous", "PASS password", "QUIT", "FEAT"];

    for command in test_commands {
        println!("Testing command: {}", command);
        match parse_command(&command) {
            Some((cmd, arg)) => {
                println!("Result: cmd={} arg={}", cmd, arg);
            },
            None => {
                println!("Failed to parse the command {}", command);
            },
        }
    }

    println!("--- End of test for parse_command ---");
}

#[test]
fn parse_is_total_on_every_line() {
    assert_eq!(parse_command("QUIT"), Some(("QUIT".to_string(), "".to_string())));
    assert_eq!(parse_command("USER anonymous"), Some(("USER".to_string(), "anonymous".to_string())));
    assert_eq!(parse_command("TYPE   A"), Some(("TYPE".to_string(), "A".to_string())));
    assert_eq!(parse_command(""), Some(("".to_string(), "".to_string())));
}

#[test]
fn parse_splits_at_first_space_only() {
    assert_eq!(parse_command("STOR a b c"), Some(("STOR".to_string(), "a b c".to_string())));
    assert_eq!(parse_command(" USER x"), Some(("".to_string(), "USER x".to_string())));
    assert_eq!(parse_command("LIST -l"), Some(("LIST".to_string(), "-l".to_string())));
}

#[test]
fn parse_keeps_verb_case_sensitive() {
    assert_eq!(parse_command("quit"), Some(("quit".to_string(), "".to_string())));
    assert_eq!(parse_command("User anonymous"), Some(("User".to_string(), "anonymous".to_string())));
}

#[test]
fn parse_trims_argument_whitespace() {
    assert_eq!(parse_command("STOR  \t /tmp/x \t "), Some(("STOR".to_string(), "/tmp/x".to_string())));
    assert_eq!(parse_command("STOR \u{3000}x\u{a0}"), Some(("STOR".to_string(), "x".to_string())));
}
