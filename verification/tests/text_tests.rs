use fpt::command::parse_command;
use fpt::errors::Error;
use fpt::text::bytes_to_hex;
use fpt::text::join_path;
use fpt::text::split_steps;
use fpt::text::tokenize;
use fpt::text::u64_to_dec;

#[test]
fn dec_renders_zero() {
    assert_eq!(u64_to_dec(0), "0");
}

#[test]
fn dec_renders_single_digit() {
    assert_eq!(u64_to_dec(7), "7");
}

#[test]
fn dec_renders_multi_digit() {
    assert_eq!(u64_to_dec(10), "10");
    assert_eq!(u64_to_dec(12345), "12345");
    assert_eq!(u64_to_dec(9000900), "9000900");
}

#[test]
fn dec_renders_max() {
    assert_eq!(u64_to_dec(u64::MAX), "18446744073709551615");
}

#[test]
fn hex_renders_empty() {
    assert_eq!(bytes_to_hex(&vec![]), "0x");
}

#[test]
fn hex_renders_bytes() {
    assert_eq!(bytes_to_hex(&vec![0x00, 0xff, 0x1a, 0x0b]), "0x00ff1a0b");
}

#[test]
fn hex_renders_digest() {
    let bytes = vec![0x11u8; 32];
    let mut expected = String::from("0x");
    for _ in 0..32 {
        expected.push_str("11");
    }
    assert_eq!(bytes_to_hex(&bytes), expected);
}

#[test]
fn join_path_concatenates() {
    assert_eq!(join_path("/root/components", "org/repo"), "/root/components/org/repo");
    assert_eq!(join_path("a", "b"), "a/b");
}

#[test]
fn split_steps_no_separator() {
    assert_eq!(split_steps("make all"), vec!["make all".to_string()]);
}

#[test]
fn split_steps_two_steps() {
    assert_eq!(
        split_steps("make cannon && go build ./bin"),
        vec!["make cannon".to_string(), "go build ./bin".to_string()]
    );
}

#[test]
fn split_steps_three_steps() {
    assert_eq!(
        split_steps("a && b && c"),
        vec!["a".to_string(), "b".to_string(), "c".to_string()]
    );
}

#[test]
fn split_steps_empty_string() {
    assert_eq!(split_steps(""), vec!["".to_string()]);
}

#[test]
fn tokenize_collapses_whitespace() {
    assert_eq!(
        tokenize("  go   build \t ./x  "),
        vec!["go".to_string(), "build".to_string(), "./x".to_string()]
    );
}

#[test]
fn tokenize_empty_and_blank() {
    assert_eq!(tokenize(""), Vec::<String>::new());
    assert_eq!(tokenize("   \t "), Vec::<String>::new());
}

#[test]
fn parse_command_splits_program_and_args() {
    let c = parse_command("go build ./bin/cannon", Some("wd".to_string())).unwrap();
    assert_eq!(c.program, "go");
    assert_eq!(c.args, vec!["build".to_string(), "./bin/cannon".to_string()]);
    assert_eq!(c.cwd, Some("wd".to_string()));
}

#[test]
fn parse_command_rejects_blank_step() {
    let e = parse_command("   ", None).unwrap_err();
    assert!(matches!(e, Error::EmptyCommand));
    assert_eq!(e.message(), "build step holds no command");
}
