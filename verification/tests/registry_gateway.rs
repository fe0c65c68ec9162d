use hostctl::gateway::{decode_output, plan, GatewayError};
use hostctl::registry::{CommandEntry, ConfigError, Registry};
use hostctl::tokens::split_whitespace_tokens;

fn entry(key: &str, command: &str) -> CommandEntry {
    CommandEntry { key: key.to_string(), command: command.to_string() }
}

fn sample_registry() -> Registry {
    Registry::build(vec![entry("ls", "ls -la /tmp"), entry("greet", "echo hello   world\t!")])
        .expect("well-formed table")
}

#[test]
fn build_accepts_well_formed_table() {
    let reg = sample_registry();
    let found = reg.lookup(&"ls".to_string()).expect("configured key");
    assert_eq!(found.key, "ls");
    assert_eq!(found.command, "ls -la /tmp");
}

#[test]
fn lookup_misses_unconfigured_key() {
    let reg = sample_registry();
    assert!(reg.lookup(&"rm".to_string()).is_none());
    assert!(reg.lookup(&"".to_string()).is_none());
}

#[test]
fn duplicate_keys_fail_at_startup() {
    let r = Registry::build(vec![entry("ls", "ls -la"), entry("ls", "ls")]);
    assert!(matches!(r, Err(ConfigError::DuplicateKey)));
}

#[test]
fn empty_command_fails_at_startup() {
    let r = Registry::build(vec![entry("nop", "")]);
    assert!(matches!(r, Err(ConfigError::EmptyCommand)));
}

#[test]
fn blank_command_fails_at_startup() {
    let r = Registry::build(vec![entry("nop", " \t ")]);
    assert!(matches!(r, Err(ConfigError::EmptyCommand)));
}

#[test]
fn table_round_trips_configuration() {
    let reg = sample_registry();
    let table = reg.table();
    assert_eq!(table.len(), 2);
    assert_eq!(table[0].key, "ls");
    assert_eq!(table[0].command, "ls -la /tmp");
    assert_eq!(table[1].key, "greet");
    assert_eq!(table[1].command, "echo hello   world\t!");
    for row in table {
        let found = reg.lookup(&row.key).expect("published key");
        assert_eq!(found.command, row.command);
    }
}

#[test]
fn empty_table_builds_and_finds_nothing() {
    let reg = Registry::build(Vec::new()).expect("empty table is well-formed");
    assert!(reg.table().is_empty());
    assert!(reg.lookup(&"anything".to_string()).is_none());
    assert!(matches!(
        plan(&reg, &"anything".to_string()),
        Err(GatewayError::UnknownCommand)
    ));
}

#[test]
fn unknown_key_yields_unknown_command() {
    let reg = sample_registry();
    let r = plan(&reg, &"shutdown".to_string());
    match r {
        Err(e) => {
            assert!(matches!(e, GatewayError::UnknownCommand));
            assert_eq!(e.describe(), "No such command!");
        },
        Ok(_) => panic!("unconfigured key must not resolve"),
    }
}

#[test]
fn plan_splits_program_and_literal_args() {
    let reg = sample_registry();
    let p = plan(&reg, &"greet".to_string()).expect("configured key");
    assert_eq!(p.program, "echo");
    assert_eq!(p.args, vec!["hello".to_string(), "world".to_string(), "!".to_string()]);
}

#[test]
fn plan_keeps_single_token_command() {
    let reg = Registry::build(vec![entry("date", "date")]).expect("well-formed table");
    let p = plan(&reg, &"date".to_string()).expect("configured key");
    assert_eq!(p.program, "date");
    assert!(p.args.is_empty());
}

#[test]
fn split_collapses_runs_of_whitespace() {
    let toks = split_whitespace_tokens("  a \t\r\n b  c ");
    assert_eq!(toks, vec!["a".to_string(), "b".to_string(), "c".to_string()]);
    assert!(split_whitespace_tokens("").is_empty());
    assert!(split_whitespace_tokens(" \t ").is_empty());
}

#[test]
fn decode_output_returns_text_verbatim() {
    let r = decode_output(b"total 0\n".to_vec());
    assert_eq!(r.unwrap(), "total 0\n");
}

#[test]
fn decode_output_rejects_invalid_utf8() {
    let r = decode_output(vec![0xff, 0xfe, 0x41]);
    match r {
        Err(e) => {
            assert!(matches!(e, GatewayError::DecodeFailed));
            assert_eq!(e.describe(), "Command output was not valid text!");
        },
        Ok(_) => panic!("invalid UTF-8 must not decode"),
    }
}

#[test]
fn spawn_failure_message_passes_through() {
    let e = GatewayError::SpawnFailed("Failed to execute command!".to_string());
    assert_eq!(e.describe(), "Failed to execute command!");
}
