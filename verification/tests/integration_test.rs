use mkid::cli::{Cli, Commands, UuidArgs};
use mkid::output::generate_lines;
use uuid::Uuid;

/// The request that `uuid <version> <options>` stands for.
fn request(version: &str) -> UuidArgs {
    let mut args = UuidArgs::default_v7();
    args.version = Some(version.to_string());
    args
}

/// What the command writes to standard output for a command line.
fn stdout_of(cli: Cli) -> String {
    let lines = generate_lines(&cli.into_request()).unwrap();
    let mut out = String::new();
    for line in &lines {
        out.push_str(line);
        out.push('\n');
    }
    out
}

/// What the command writes to the error stream for a command line that fails.
fn stderr_of(cli: Cli) -> String {
    let error = generate_lines(&cli.into_request()).unwrap_err();
    format!("Error: {}", error.message())
}

fn uuid_command(args: UuidArgs) -> Cli {
    Cli { command: Some(Commands::Uuid(args)), clipboard: false }
}

#[test]
fn test_default_generates_v7() {
    let stdout = stdout_of(Cli { command: None, clipboard: false });
    let uuid_str = stdout.trim();

    let uuid = Uuid::parse_str(uuid_str).expect("Should be valid UUID");

    assert_eq!(uuid.get_version(), Some(uuid::Version::SortRand));
}

#[test]
fn test_uuid_v4() {
    let stdout = stdout_of(uuid_command(request("v4")));
    let uuid_str = stdout.trim();

    let uuid = Uuid::parse_str(uuid_str).expect("Should be valid UUID");
    assert_eq!(uuid.get_version(), Some(uuid::Version::Random));
}

#[test]
fn test_uuid_v5_deterministic() {
    let mut first = request("v5");
    first.namespace = Some("dns".to_string());
    first.name = Some("example.com".to_string());
    let uuid1 = stdout_of(uuid_command(first));

    let mut second = request("v5");
    second.namespace = Some("dns".to_string());
    second.name = Some("example.com".to_string());
    let uuid2 = stdout_of(uuid_command(second));

    assert_eq!(uuid1, uuid2, "v5 should be deterministic");
}

#[test]
fn test_format_simple() {
    let mut args = request("v7");
    args.format = "simple".to_string();
    let stdout = stdout_of(uuid_command(args));
    let uuid_str = stdout.trim();

    assert!(!uuid_str.contains('-'));
    assert_eq!(uuid_str.len(), 32);
}

#[test]
fn test_format_urn() {
    let mut args = request("v7");
    args.format = "urn".to_string();
    let stdout = stdout_of(uuid_command(args));
    let uuid_str = stdout.trim();

    assert!(uuid_str.starts_with("urn:uuid:"));
}

#[test]
fn test_format_braced() {
    let mut args = request("v7");
    args.format = "braced".to_string();
    let stdout = stdout_of(uuid_command(args));
    let uuid_str = stdout.trim();

    assert!(uuid_str.starts_with('{'));
    assert!(uuid_str.ends_with('}'));
}

#[test]
fn test_uppercase() {
    let mut args = request("v7");
    args.uppercase = true;
    let stdout = stdout_of(uuid_command(args));
    let uuid_str = stdout.trim();

    assert!(uuid_str.chars().any(|c| c.is_ascii_uppercase()));
    assert!(
        !uuid_str
            .chars()
            .filter(|c| c.is_alphabetic())
            .any(|c| c.is_ascii_lowercase())
    );
}

#[test]
fn test_count() {
    let mut args = request("v7");
    args.count = 5;
    let stdout = stdout_of(uuid_command(args));
    let lines: Vec<&str> = stdout.lines().collect();

    assert_eq!(lines.len(), 5);

    for line in lines {
        Uuid::parse_str(line).expect("Should be valid UUID");
    }
}

#[test]
fn test_v7_monotonic() {
    let mut args = request("v7");
    args.count = 10;
    let stdout = stdout_of(uuid_command(args));
    let lines: Vec<&str> = stdout.lines().collect();
    assert_eq!(lines.len(), 10);

    let uuids: Vec<Uuid> = lines
        .iter()
        .map(|line| Uuid::parse_str(line).unwrap())
        .collect();

    for i in 1..uuids.len() {
        assert!(uuids[i] >= uuids[i - 1], "v7 UUIDs should be monotonic");
    }
}

#[test]
fn test_error_v5_missing_name() {
    let mut args = request("v5");
    args.namespace = Some("dns".to_string());
    let stderr = stderr_of(uuid_command(args));
    assert!(stderr.contains("--name is required"));
}

#[test]
fn test_error_v8_invalid_bytes() {
    let mut args = request("v8");
    args.bytes = Some("123".to_string());
    let stderr = stderr_of(uuid_command(args));
    assert!(stderr.contains("32 hex characters"));
}
