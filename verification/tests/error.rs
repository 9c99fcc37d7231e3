use docker_mcp::DockerMcpError;

#[test]
fn error_display_and_constructors() {
    let v = DockerMcpError::validation("bad input");
    assert_eq!(v.to_string(), "validation error: bad input");

    let a = DockerMcpError::authorization("no scope");
    assert_eq!(a.to_string(), "authorization denied: no scope");

    let d = DockerMcpError::docker("daemon down");
    assert_eq!(d.to_string(), "docker error: daemon down");

    let i = DockerMcpError::Internal("oops".into());
    assert_eq!(i.to_string(), "internal error: oops");
}

#[test]
fn converts_to_string() {
    let err = DockerMcpError::validation("x");
    let s: String = err.into();
    assert_eq!(s, "validation error: x");
}

#[test]
fn internal_error_constructor() {
    let err = DockerMcpError::internal("serialize failed");
    assert!(matches!(err, DockerMcpError::Internal(_)));
}

#[test]
fn constructors_pick_the_variant() {
    assert_eq!(DockerMcpError::validation("m"), DockerMcpError::Validation("m".into()));
    assert_eq!(DockerMcpError::authorization("m"), DockerMcpError::Authorization("m".into()));
    assert_eq!(DockerMcpError::docker("m"), DockerMcpError::Docker("m".into()));
    assert_eq!(DockerMcpError::internal("m"), DockerMcpError::Internal("m".into()));
    assert_eq!(String::from(DockerMcpError::Internal("x".into())), "internal error: x");
}
