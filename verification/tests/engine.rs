use docker_mcp::{append_log_chunk, compose_result, container_name, create_plan, run_message, DockerMcpError, RunSpec};

fn spec(command: Vec<&str>, env: Vec<(&str, &str)>) -> RunSpec {
    RunSpec {
        image: "alpine:3.20".into(),
        name: Some("job".into()),
        command: command.into_iter().map(String::from).collect(),
        env: env.into_iter().map(|(k, v)| (k.to_string(), v.to_string())).collect(),
        detach: true,
    }
}

#[test]
fn plan_passes_command_and_environment() {
    let plan = create_plan(spec(vec!["sh", "-c", "echo hi"], vec![("FOO", "bar"), ("N", "")]));
    assert_eq!(plan.image, "alpine:3.20");
    assert_eq!(plan.name.as_deref(), Some("job"));
    assert_eq!(
        plan.cmd,
        Some(vec!["sh".to_string(), "-c".to_string(), "echo hi".to_string()])
    );
    assert_eq!(plan.env, Some(vec!["FOO=bar".to_string(), "N=".to_string()]));
}

#[test]
fn plan_omits_empty_command_and_environment() {
    let mut s = spec(vec![], vec![]);
    s.name = None;
    let plan = create_plan(s);
    assert_eq!(plan.cmd, None);
    assert_eq!(plan.env, None);
    assert_eq!(plan.name, None);
}

#[test]
fn plan_never_runs_privileged() {
    let plan = create_plan(spec(vec!["id"], vec![("PRIVILEGED", "true")]));
    assert!(!plan.privileged);
    assert!(!plan.auto_remove);
    assert_eq!(plan.network_mode, "bridge");
}

#[test]
fn run_replies() {
    assert_eq!(run_message("abc123", true), "started container abc123");
    assert_eq!(run_message("abc123", false), "created and started container abc123");
}

#[test]
fn listed_container_names() {
    let names = |v: &[&str]| v.iter().map(|s| s.to_string()).collect::<Vec<String>>();
    assert_eq!(container_name(&names(&["/web"])), "web");
    assert_eq!(container_name(&names(&["//web/x", "/other"])), "web/x");
    assert_eq!(container_name(&names(&["web"])), "web");
    assert_eq!(container_name(&names(&["/"])), "");
    assert_eq!(container_name(&names(&["/ünï"])), "ünï");
    assert_eq!(container_name(&[]), "");
}

#[test]
fn compose_results() {
    assert_eq!(compose_result(true, b"[]", b"warn"), Ok("[]".to_string()));
    assert_eq!(
        compose_result(false, b"", b"no such file"),
        Err(DockerMcpError::docker("compose failed: no such file"))
    );
    assert_eq!(compose_result(true, b"a\xffb", b""), Ok("a\u{FFFD}b".to_string()));
}

#[test]
fn log_chunks_are_appended() {
    let mut out = String::from("one\n");
    append_log_chunk(&mut out, b"two\n");
    append_log_chunk(&mut out, b"\xf0\x9f\x8c\x8d");
    assert_eq!(out, "one\ntwo\n\u{1F30D}");
}
