use docker_mcp::{default_max_bytes, Config, DockerMcpError, ToolScope};

#[test]
fn for_test_builds_config() {
    let cfg = Config::for_test(&[ToolScope::Read]);
    assert_eq!(cfg.caller_identity, "test-agent");
    assert!(cfg.authorizer.authorize(ToolScope::Read).is_ok());
}

#[test]
fn from_settings_uses_defaults() {
    let cfg = Config::from_settings(None, None, None, None, None, None).unwrap();
    assert_eq!(cfg.caller_identity, "unknown-agent");
    assert!(cfg.authorizer.authorize(ToolScope::Read).is_ok());
    assert!(cfg.authorizer.authorize(ToolScope::Write).is_ok());
    assert!(cfg.authorizer.authorize(ToolScope::Compose).is_ok());
    assert_eq!(cfg.max_output_bytes, default_max_bytes());
    assert_eq!(cfg.session_id.len(), 36);
    assert_eq!(cfg.docker_socket, None);
    assert!(cfg.audit_json_logs);
}

#[test]
fn from_settings_rejects_empty_scopes() {
    let err = Config::from_settings(Some("invalid,also-invalid"), None, None, None, None, None)
        .unwrap_err();
    assert!(matches!(err, DockerMcpError::Validation(_)));
    assert_eq!(
        err,
        DockerMcpError::validation("DOCKER_MCP_SCOPES must include at least one valid scope")
    );
}

#[test]
fn from_settings_reads_docker_host() {
    let cfg = Config::from_settings(
        Some("docker:read"),
        None,
        None,
        None,
        Some("unix:///var/run/docker.sock"),
        None,
    )
    .unwrap();
    assert_eq!(cfg.docker_socket, Some("unix:///var/run/docker.sock".into()));
    assert!(cfg.authorizer.authorize(ToolScope::Read).is_ok());
    assert!(cfg.authorizer.authorize(ToolScope::Write).is_err());
}

#[test]
fn from_settings_parses_output_cap() {
    let cap = |v: &str| {
        Config::from_settings(None, Some(v), None, None, None, None).unwrap().max_output_bytes
    };
    assert_eq!(cap("4096"), 4096);
    assert_eq!(cap("+17"), 17);
    assert_eq!(cap("007"), 7);
    assert_eq!(cap("0"), 0);
    assert_eq!(cap(""), 1_048_576);
    assert_eq!(cap("+"), 1_048_576);
    assert_eq!(cap("-1"), 1_048_576);
    assert_eq!(cap(" 5"), 1_048_576);
    assert_eq!(cap("12a"), 1_048_576);
    assert_eq!(cap("99999999999999999999999999"), 1_048_576);
    assert_eq!(cap(&usize::MAX.to_string()), usize::MAX);
}

#[test]
fn from_settings_audit_flag() {
    let flag = |v: &str| {
        Config::from_settings(None, None, None, None, None, Some(v)).unwrap().audit_json_logs
    };
    assert!(flag("1"));
    assert!(flag("true"));
    assert!(flag("TRUE"));
    assert!(flag("tRuE"));
    assert!(!flag("0"));
    assert!(!flag("false"));
    assert!(!flag("yes"));
    assert!(!flag("true "));
}

#[test]
fn from_settings_keeps_identity_and_session() {
    let cfg = Config::from_settings(
        Some("docker:compose"),
        None,
        Some("cursor-agent"),
        Some("sess-42"),
        None,
        Some("0"),
    )
    .unwrap();
    assert_eq!(cfg.caller_identity, "cursor-agent");
    assert_eq!(cfg.session_id, "sess-42");
    assert!(!cfg.audit_json_logs);
    assert!(cfg.authorizer.authorize(ToolScope::Compose).is_ok());
    assert!(cfg.authorizer.authorize(ToolScope::Read).is_err());
}

#[test]
fn for_test_values() {
    let cfg = Config::for_test(&[]);
    assert_eq!(cfg.session_id, "test-session");
    assert_eq!(cfg.max_output_bytes, 4096);
    assert_eq!(cfg.docker_socket, None);
    assert!(!cfg.audit_json_logs);
    assert!(cfg.authorizer.authorize(ToolScope::Read).is_err());
}

fn is_uuid_v4_text(s: &str) -> bool {
    let b = s.as_bytes();
    b.len() == 36
        && b.iter().enumerate().all(|(i, c)| match i {
            8 | 13 | 18 | 23 => *c == b'-',
            _ => c.is_ascii_digit() || (b'a'..=b'f').contains(c),
        })
        && b[14] == b'4'
        && matches!(b[19], b'8' | b'9' | b'a' | b'b')
}

#[test]
fn from_settings_generates_random_session_ids() {
    let a = Config::from_settings(None, None, None, None, None, None).unwrap();
    let b = Config::from_settings(None, None, None, None, None, None).unwrap();
    assert!(is_uuid_v4_text(&a.session_id), "{}", a.session_id);
    assert!(is_uuid_v4_text(&b.session_id), "{}", b.session_id);
    assert_ne!(a.session_id, b.session_id);
    let c = Config::from_settings(None, None, None, Some("sess-7"), None, None).unwrap();
    assert_eq!(c.session_id, "sess-7");
}
