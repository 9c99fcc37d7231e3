use docker_mcp::{parse_scopes, Authorizer, DockerMcpError, ToolScope};

#[test]
fn allows_configured_scope() {
    let auth = Authorizer::from_scopes(&[ToolScope::Read]);
    assert!(auth.authorize(ToolScope::Read).is_ok());
    assert!(auth.authorize(ToolScope::Write).is_err());
}

#[test]
fn deny_all_blocks_everything() {
    let auth = Authorizer::deny_all();
    assert!(auth.authorize(ToolScope::Read).is_err());
}

#[test]
fn all_grants_every_scope() {
    let auth = Authorizer::all();
    assert!(auth.authorize(ToolScope::Compose).is_ok());
}

#[test]
fn parse_scopes_from_env_string() {
    let scopes = parse_scopes("docker:read, docker:write");
    assert_eq!(scopes, vec![ToolScope::Read, ToolScope::Write]);
}

#[test]
fn scope_as_str() {
    assert_eq!(ToolScope::Read.as_str(), "docker:read");
    assert_eq!(ToolScope::Write.as_str(), "docker:write");
    assert_eq!(ToolScope::Compose.as_str(), "docker:compose");
}

#[test]
fn missing_scope_error_names_the_scope() {
    let auth = Authorizer::from_scopes(&[ToolScope::Read]);
    assert_eq!(
        auth.authorize(ToolScope::Compose),
        Err(DockerMcpError::authorization("missing required scope docker:compose"))
    );
    assert_eq!(
        Authorizer::deny_all().authorize(ToolScope::Write),
        Err(DockerMcpError::authorization("missing required scope docker:write"))
    );
}

#[test]
fn from_scopes_grants_exactly_the_list() {
    let auth = Authorizer::from_scopes(&[ToolScope::Write, ToolScope::Write, ToolScope::Compose]);
    assert!(auth.authorize(ToolScope::Read).is_err());
    assert!(auth.authorize(ToolScope::Write).is_ok());
    assert!(auth.authorize(ToolScope::Compose).is_ok());
    let none = Authorizer::from_scopes(&[]);
    assert!(none.authorize(ToolScope::Read).is_err());
    let all = Authorizer::all();
    assert!(all.authorize(ToolScope::Read).is_ok());
    assert!(all.authorize(ToolScope::Write).is_ok());
    let copy = auth.clone();
    assert!(copy.authorize(ToolScope::Compose).is_ok());
    assert!(copy.authorize(ToolScope::Read).is_err());
}

#[test]
fn parse_scopes_trims_and_skips_unknown() {
    assert_eq!(parse_scopes(""), Vec::<ToolScope>::new());
    assert_eq!(parse_scopes("invalid,also-invalid"), Vec::<ToolScope>::new());
    assert_eq!(
        parse_scopes("docker:read,docker:write,docker:compose"),
        vec![ToolScope::Read, ToolScope::Write, ToolScope::Compose]
    );
    assert_eq!(
        parse_scopes("\tdocker:compose ,,docker:read\u{3000},DOCKER:READ,docker:read"),
        vec![ToolScope::Compose, ToolScope::Read, ToolScope::Read]
    );
    assert_eq!(parse_scopes("docker: read"), Vec::<ToolScope>::new());
}

#[test]
fn parse_scope_name_round_trip() {
    for s in [ToolScope::Read, ToolScope::Write, ToolScope::Compose] {
        assert_eq!(parse_scopes(s.as_str()), vec![s]);
    }
}
