use docker_mcp::{
    validate_command_args, validate_compose_path, validate_env, validate_log_tail, validate_name,
    DockerMcpError,
};

#[test]
fn accepts_valid_names() {
    assert!(validate_name("my-container_1", "name").is_ok());
    assert!(validate_name("nginx:latest", "image").is_ok());
    assert!(validate_name("ghcr.io/org/app:v1", "image").is_ok());
}

#[test]
fn rejects_empty_name() {
    assert_eq!(
        validate_name("", "container"),
        Err(DockerMcpError::validation("container must not be empty"))
    );
}

#[test]
fn rejects_long_name() {
    let long = "a".repeat(129);
    assert!(validate_name(&long, "name").is_err());
}

#[test]
fn rejects_invalid_characters() {
    assert!(validate_name("bad name", "name").is_err());
    assert!(validate_name("bad;name", "name").is_err());
}

#[test]
fn compose_path_validation() {
    assert!(validate_compose_path("compose.yaml").is_ok());
    assert!(validate_compose_path("../etc/passwd").is_err());
    assert!(validate_compose_path("").is_err());
}

#[test]
fn command_args_validation() {
    assert!(validate_command_args(&["echo".into(), "hi".into()]).is_ok());
    let many: Vec<String> = (0..33).map(|i| i.to_string()).collect();
    assert!(validate_command_args(&many).is_err());
    assert!(validate_command_args(&["ok\0bad".into()]).is_err());
}

#[test]
fn env_validation() {
    assert!(validate_env(&[("FOO".into(), "bar".into())]).is_ok());
    assert!(validate_env(&[("bad-key".into(), "v".into())]).is_err());
    assert!(validate_env(&[("".into(), "v".into())]).is_err());
}

#[test]
fn log_tail_validation() {
    assert!(validate_log_tail(100).is_ok());
    assert!(validate_log_tail(0).is_err());
    assert!(validate_log_tail(10_001).is_err());
}

#[test]
fn rejects_path_too_long() {
    let long = "a".repeat(4097);
    assert!(validate_compose_path(&long).is_err());
}

#[test]
fn rejects_arg_too_long() {
    let long = "a".repeat(513);
    assert!(validate_command_args(&[long]).is_err());
}

#[test]
fn rejects_env_value_too_long() {
    let long = "a".repeat(4097);
    assert!(validate_env(&[("K".into(), long)]).is_err());
}

#[test]
fn rejects_null_in_path() {
    assert!(validate_compose_path("bad\0path").is_err());
}

#[test]
fn name_error_messages_name_the_field() {
    assert_eq!(
        validate_name(&"a".repeat(129), "image"),
        Err(DockerMcpError::validation("image exceeds maximum length of 128"))
    );
    assert_eq!(
        validate_name("bad name", "image name"),
        Err(DockerMcpError::validation("image name contains invalid characters"))
    );
}

#[test]
fn name_length_counts_bytes() {
    // 64 two-byte characters: 128 bytes, the limit; they are not allowed characters.
    let at_limit = "é".repeat(64);
    assert_eq!(
        validate_name(&at_limit, "name"),
        Err(DockerMcpError::validation("name contains invalid characters"))
    );
    // 65 of them: 130 bytes, over the limit, so the length is what is refused.
    let over = "é".repeat(65);
    assert_eq!(
        validate_name(&over, "name"),
        Err(DockerMcpError::validation("name exceeds maximum length of 128"))
    );
    assert!(validate_name(&"a".repeat(128), "name").is_ok());
}

#[test]
fn compose_path_error_messages() {
    assert_eq!(
        validate_compose_path(""),
        Err(DockerMcpError::validation("path must not be empty"))
    );
    assert_eq!(
        validate_compose_path(&"a".repeat(4097)),
        Err(DockerMcpError::validation("path exceeds maximum length"))
    );
    assert_eq!(
        validate_compose_path("a/../b"),
        Err(DockerMcpError::validation("path contains forbidden sequences"))
    );
    assert!(validate_compose_path("a/./b.yaml").is_ok());
    assert!(validate_compose_path(&"a".repeat(4096)).is_ok());
}

#[test]
fn command_error_messages() {
    let many: Vec<String> = (0..33).map(|i| i.to_string()).collect();
    assert_eq!(
        validate_command_args(&many),
        Err(DockerMcpError::validation("command exceeds maximum of 32 arguments"))
    );
    let exactly: Vec<String> = (0..32).map(|i| i.to_string()).collect();
    assert!(validate_command_args(&exactly).is_ok());
    assert_eq!(
        validate_command_args(&["fine".into(), "a".repeat(513), "x\0".into()]),
        Err(DockerMcpError::validation("command argument too long"))
    );
    assert_eq!(
        validate_command_args(&["x\0".into(), "a".repeat(513)]),
        Err(DockerMcpError::validation("command argument contains null byte"))
    );
}

#[test]
fn env_error_messages() {
    assert_eq!(
        validate_env(&[("K".repeat(257), "v".into())]),
        Err(DockerMcpError::validation("invalid environment variable key"))
    );
    assert_eq!(
        validate_env(&[("K".into(), "v".repeat(4097))]),
        Err(DockerMcpError::validation("environment variable value too long"))
    );
    assert_eq!(
        validate_env(&[("OK".into(), "v".into()), ("bad-key".into(), "v".into())]),
        Err(DockerMcpError::validation("environment key contains invalid characters"))
    );
    assert!(validate_env(&[("A_1".into(), "".into())]).is_ok());
}

#[test]
fn log_tail_bounds() {
    assert!(validate_log_tail(1).is_ok());
    assert!(validate_log_tail(10_000).is_ok());
    assert_eq!(
        validate_log_tail(0),
        Err(DockerMcpError::validation("tail must be between 1 and 10000"))
    );
}
