use std::cell::RefCell;

use docker_mcp::{
    params_fingerprint, AuditEvent, AuditLogger, AuditResultStatus, AuditSink, Config,
    DockerMcpError, DockerService, ToolRequest, ToolScope,
};

struct RecordingSink {
    events: RefCell<Vec<AuditEvent>>,
}

impl AuditSink for RecordingSink {
    fn wrote(&self, event: AuditEvent) -> bool {
        self.events.borrow().iter().any(|e| e.correlation_id == event.correlation_id)
    }

    fn write_event(&self, event: &AuditEvent) {
        self.events.borrow_mut().push(event.clone());
    }
}

impl AuditSink for &RecordingSink {
    fn wrote(&self, event: AuditEvent) -> bool {
        (**self).wrote(event)
    }

    fn write_event(&self, event: &AuditEvent) {
        (**self).write_event(event);
    }
}

fn new_sink() -> RecordingSink {
    RecordingSink { events: RefCell::new(Vec::new()) }
}

fn service_with<'a>(scopes: &[ToolScope], sink: &'a RecordingSink) -> DockerService<(), &'a RecordingSink> {
    let audit = AuditLogger::new(sink, "test", "sess");
    DockerService::new((), Config::for_test(scopes), audit)
}

fn test_service(scopes: &[ToolScope]) -> DockerService<(), RecordingSink> {
    let audit = AuditLogger::new(new_sink(), "test", "sess");
    DockerService::new((), Config::for_test(scopes), audit)
}

fn inspect(id: &str) -> ToolRequest {
    ToolRequest::InspectContainer { id: id.into() }
}

#[test]
fn system_info_requires_read_scope() {
    let sink = new_sink();
    let svc = service_with(&[], &sink);
    let (res, ev) = svc.screen(&ToolRequest::SystemInfo).unwrap();
    assert_eq!(res, Err(DockerMcpError::authorization("missing required scope docker:read")));
    let events = sink.events.borrow();
    assert_eq!(events.len(), 1);
    assert_eq!(events[0].result_status, AuditResultStatus::Denied);
    assert_eq!(events[0].tool_name, "docker_system_info");
    assert_eq!(events[0].correlation_id, ev.correlation_id);
    assert_eq!(svc.authorizer().authorize(ToolScope::Read).is_err(), true);
}

#[test]
fn precheck_authorizes_before_validating() {
    let svc = test_service(&[]);
    assert_eq!(
        svc.precheck(&inspect("bad id")),
        Err(DockerMcpError::authorization("missing required scope docker:read"))
    );
    assert_eq!(
        svc.precheck(&inspect("web")),
        Err(DockerMcpError::authorization("missing required scope docker:read"))
    );
    let svc = test_service(&[ToolScope::Read]);
    assert_eq!(
        svc.precheck(&inspect("bad id")),
        Err(DockerMcpError::validation("container id contains invalid characters"))
    );
    assert_eq!(svc.precheck(&inspect("web")), Ok(()));
}

#[test]
fn missing_scope_is_denied_whatever_the_arguments() {
    let sink = new_sink();
    let svc = service_with(&[], &sink);
    let (res, _) = svc.screen(&inspect("bad id")).unwrap();
    assert_eq!(res, Err(DockerMcpError::authorization("missing required scope docker:read")));
    let events = sink.events.borrow();
    assert_eq!(events.len(), 1);
    assert_eq!(events[0].result_status, AuditResultStatus::Denied);
}

#[test]
fn run_container_validates_image() {
    let svc = test_service(&[ToolScope::Write]);
    let req = ToolRequest::RunContainer {
        image: "bad image".into(),
        name: None,
        command: vec![],
        env: vec![],
        detach: true,
    };
    assert_eq!(
        svc.precheck(&req),
        Err(DockerMcpError::validation("image contains invalid characters"))
    );
}

#[test]
fn run_container_rejects_bad_container_name() {
    let svc = test_service(&[ToolScope::Write]);
    let req = ToolRequest::RunContainer {
        image: "alpine".into(),
        name: Some("bad name".into()),
        command: vec![],
        env: vec![],
        detach: true,
    };
    assert_eq!(
        svc.precheck(&req),
        Err(DockerMcpError::validation("container name contains invalid characters"))
    );
}

#[test]
fn compose_requires_compose_scope() {
    let svc = test_service(&[ToolScope::Read]);
    let req = ToolRequest::ComposePs { compose_file: "compose.yaml".into() };
    assert!(svc.precheck(&req).is_err());
    let svc = test_service(&[ToolScope::Compose]);
    assert!(svc.precheck(&req).is_ok());
    assert_eq!(
        svc.precheck(&ToolRequest::ComposeConfig { compose_file: "../x.yaml".into() }),
        Err(DockerMcpError::validation("path contains forbidden sequences"))
    );
}

#[test]
fn container_logs_invalid_tail() {
    let svc = test_service(&[ToolScope::Read]);
    let req = ToolRequest::ContainerLogs { id: "web".into(), tail: 0 };
    assert_eq!(
        svc.precheck(&req),
        Err(DockerMcpError::validation("tail must be between 1 and 10000"))
    );
}

#[test]
fn scopes_and_names_of_requests() {
    let cases: Vec<(ToolRequest, &str, ToolScope, bool)> = vec![
        (ToolRequest::SystemInfo, "docker_system_info", ToolScope::Read, true),
        (ToolRequest::ListContainers { all: true }, "docker_list_containers", ToolScope::Read, true),
        (inspect("c"), "docker_inspect_container", ToolScope::Read, true),
        (ToolRequest::StartContainer { id: "c".into() }, "docker_start_container", ToolScope::Write, false),
        (ToolRequest::PullImage { name: "n".into() }, "docker_pull_image", ToolScope::Write, false),
        (ToolRequest::ListVolumes, "docker_list_volumes", ToolScope::Read, true),
        (
            ToolRequest::ComposeConfig { compose_file: "c.yaml".into() },
            "docker_compose_config",
            ToolScope::Compose,
            true,
        ),
    ];
    let inventory = docker_mcp::inventory_map();
    for (req, name, scope, sanitizes) in cases {
        assert_eq!(req.tool_name(), name);
        assert_eq!(req.scope(), scope);
        assert_eq!(req.sanitizes_output(), sanitizes);
        let pinned = inventory.get(&format!("{name}@1")).unwrap();
        assert_eq!(pinned.scope, scope.as_str());
    }
}

#[test]
fn params_texts() {
    assert_eq!(ToolRequest::SystemInfo.params(), "{}");
    assert_eq!(ToolRequest::ListContainers { all: false }.params(), r#"{"all":false}"#);
    assert_eq!(inspect("abc").params(), r#"{"id":"abc"}"#);
    assert_eq!(
        ToolRequest::ContainerLogs { id: "web".into(), tail: 50 }.params(),
        r#"{"id":"web","tail":50}"#
    );
    assert_eq!(
        ToolRequest::StopContainer { id: "c1".into(), timeout_secs: 5 }.params(),
        r#"{"id":"c1","timeout_secs":5}"#
    );
    assert_eq!(
        ToolRequest::RemoveImage { name: "nginx".into(), force: true }.params(),
        r#"{"name":"nginx","force":true}"#
    );
    assert_eq!(
        ToolRequest::ComposePs { compose_file: "compose.yaml".into() }.params(),
        r#"{"compose_file":"compose.yaml"}"#
    );
    let run = ToolRequest::RunContainer {
        image: "alpine:latest".into(),
        name: Some("test-c".into()),
        command: vec!["echo".into()],
        env: vec![("FOO".into(), "bar".into())],
        detach: true,
    };
    assert_eq!(
        run.params(),
        r#"{"command":["echo"],"detach":true,"env":[["FOO","bar"]],"image":"alpine:latest","name":"test-c"}"#
    );
    let unnamed = ToolRequest::RunContainer {
        image: "a\"b".into(),
        name: None,
        command: vec![],
        env: vec![],
        detach: false,
    };
    assert_eq!(
        unnamed.params(),
        r#"{"command":[],"detach":false,"env":[],"image":"a\"b","name":null}"#
    );
}

#[test]
fn complete_sanitizes_only_inspection_output() {
    let svc = test_service(&[ToolScope::Read, ToolScope::Write]);
    let out = svc.complete(&inspect("c"), Ok("password=x".into()));
    assert_eq!(out, Ok("password=[REDACTED]".into()));
    let start = ToolRequest::StartContainer { id: "c".into() };
    assert_eq!(svc.complete(&start, Ok("password=x".into())), Ok("password=x".into()));
    let big = "y".repeat(5000);
    let trimmed = svc.complete(&ToolRequest::ListImages, Ok(big)).unwrap();
    assert!(trimmed.ends_with("… [truncated, 5000 bytes total]"));
    let err = Err(DockerMcpError::docker("boom"));
    assert_eq!(svc.complete(&ToolRequest::ListImages, err.clone()), err);
    assert_eq!(svc.finish_raw("ok".into()), Ok("ok".into()));
}

#[test]
fn docker_errors_are_audited() {
    let svc = test_service(&[ToolScope::Read]);
    let (res, ev) = svc.record(&ToolRequest::ListImages, Err(DockerMcpError::docker("boom")));
    assert_eq!(res, Err(DockerMcpError::docker("boom")));
    assert_eq!(ev.result_status, AuditResultStatus::Error);
    assert_eq!(ev.error_message.as_deref(), Some("docker error: boom"));
    assert_eq!(ev.result_bytes, 0);
    assert_eq!(ev.tool_name, "docker_list_images");
}

#[test]
fn successful_results_are_audited_with_size_and_fingerprint() {
    let svc = test_service(&[ToolScope::Write]);
    let req = ToolRequest::StopContainer { id: "c1".into(), timeout_secs: 5 };
    let (res, ev) = svc.record(&req, Ok("stopped é".into()));
    assert_eq!(res, Ok("stopped é".into()));
    assert_eq!(ev.result_status, AuditResultStatus::Success);
    assert_eq!(ev.result_bytes, 10);
    assert_eq!(ev.error_message, None);
    assert_eq!(ev.authorization_scope, "docker:write");
    assert_eq!(ev.caller_identity, "test");
    assert_eq!(ev.session_id, "sess");
    assert_eq!(ev.params_fingerprint, params_fingerprint(r#"{"id":"c1","timeout_secs":5}"#));
    assert_eq!(ev.event_type, "mcp.tool.result");
}

/// Runs a request through the service with `outcome` standing for what the
/// Docker operation returned; returns what the agent gets and the audit event.
fn invoke<S: AuditSink>(
    svc: &DockerService<(), S>,
    req: ToolRequest,
    outcome: Result<String, DockerMcpError>,
) -> (Result<String, DockerMcpError>, AuditEvent) {
    match svc.screen(&req) {
        Some(refused) => refused,
        None => svc.conclude(&req, outcome),
    }
}

#[test]
fn system_info_returns_data_with_scope() {
    let svc = test_service(&[ToolScope::Read]);
    let info = r#"{
  "id": "host",
  "containers": 3,
  "images": 5,
  "driver": "overlay2",
  "operating_system": "Linux",
  "architecture": "amd64"
}"#;
    let (out, ev) = invoke(&svc, ToolRequest::SystemInfo, Ok(info.into()));
    assert!(out.unwrap().contains("host"));
    assert_eq!(ev.result_status, AuditResultStatus::Success);
    assert_eq!(ev.result_bytes, info.len());
}

#[test]
fn list_containers_returns_json() {
    let svc = test_service(&[ToolScope::Read]);
    let list = r#"[{"id":"abc","name":"web","image":"nginx","state":"running","status":"Up"}]"#;
    let (out, _) = invoke(&svc, ToolRequest::ListContainers { all: true }, Ok(list.into()));
    assert!(out.unwrap().contains("web"));
}

#[test]
fn inspect_container_success() {
    let svc = test_service(&[ToolScope::Read]);
    let (out, _) = invoke(&svc, inspect("abc"), Ok(r#"{"Id":"abc"}"#.into()));
    assert!(out.unwrap().contains("abc"));
}

#[test]
fn container_logs_success() {
    let svc = test_service(&[ToolScope::Read]);
    let req = ToolRequest::ContainerLogs { id: "web".into(), tail: 50 };
    let (out, _) = invoke(&svc, req, Ok("log line".into()));
    assert!(out.unwrap().contains("log line"));
}

#[test]
fn start_stop_restart_remove_containers() {
    let svc = test_service(&[ToolScope::Write]);
    let reqs = vec![
        ToolRequest::StartContainer { id: "c1".into() },
        ToolRequest::StopContainer { id: "c1".into(), timeout_secs: 5 },
        ToolRequest::RestartContainer { id: "c1".into(), timeout_secs: 5 },
        ToolRequest::RemoveContainer { id: "c1".into(), force: true },
    ];
    for req in reqs {
        assert_eq!(invoke(&svc, req, Ok("done".into())).0.unwrap(), "done");
    }
}

#[test]
fn run_container_success() {
    let svc = test_service(&[ToolScope::Write]);
    let req = ToolRequest::RunContainer {
        image: "alpine:latest".into(),
        name: Some("test-c".into()),
        command: vec!["echo".into()],
        env: vec![("FOO".into(), "bar".into())],
        detach: true,
    };
    let (out, ev) = invoke(&svc, req, Ok("started".into()));
    assert_eq!(out.unwrap(), "started");
    assert_eq!(
        ev.params_fingerprint,
        params_fingerprint(
            r#"{"command":["echo"],"detach":true,"env":[["FOO","bar"]],"image":"alpine:latest","name":"test-c"}"#
        )
    );
}

#[test]
fn image_operations() {
    let svc = test_service(&[ToolScope::Read, ToolScope::Write]);
    let images = r#"[{"id":"img1","tags":["nginx:latest"],"size":100,"created":1}]"#;
    assert!(invoke(&svc, ToolRequest::ListImages, Ok(images.into()))
        .0
        .unwrap()
        .contains("nginx"));
    let name = || "nginx:latest".to_string();
    assert!(invoke(&svc, ToolRequest::InspectImage { name: name() }, Ok(r#"{"Id":"img1"}"#.into()))
        .0
        .unwrap()
        .contains("img1"));
    assert_eq!(
        invoke(&svc, ToolRequest::PullImage { name: name() }, Ok("pulled".into())).0.unwrap(),
        "pulled"
    );
    assert_eq!(
        invoke(&svc, ToolRequest::RemoveImage { name: name(), force: false }, Ok("pulled".into()))
            .0
            .unwrap(),
        "pulled"
    );
}

#[test]
fn network_and_volume_list() {
    let svc = test_service(&[ToolScope::Read]);
    let networks = r#"[{"id":"n1","name":"bridge","driver":"bridge"}]"#;
    let volumes = r#"[{"name":"vol1","driver":"local","mountpoint":"/var/lib/docker/volumes/vol1"}]"#;
    assert!(invoke(&svc, ToolRequest::ListNetworks, Ok(networks.into()))
        .0
        .unwrap()
        .contains("bridge"));
    assert!(invoke(&svc, ToolRequest::ListVolumes, Ok(volumes.into()))
        .0
        .unwrap()
        .contains("vol1"));
}

#[test]
fn compose_operations() {
    let svc = test_service(&[ToolScope::Compose]);
    let file = || "compose.yaml".to_string();
    assert_eq!(
        invoke(&svc, ToolRequest::ComposePs { compose_file: file() }, Ok("[]".into())).0.unwrap(),
        "[]"
    );
    assert!(invoke(
        &svc,
        ToolRequest::ComposeConfig { compose_file: file() },
        Ok("services: {}".into())
    )
    .0
    .unwrap()
    .contains("services"));
}

#[test]
fn tool_err_maps_validation_failure() {
    let svc = test_service(&[ToolScope::Read]);
    let (out, ev) = invoke(&svc, inspect("bad id"), Ok(String::new()));
    let err = out.unwrap_err().to_string();
    assert!(err.contains("validation"));
    assert_eq!(ev.result_status, AuditResultStatus::Error);
}

#[test]
fn denied_requests_are_audited_as_denied() {
    let svc = test_service(&[ToolScope::Read]);
    let req = ToolRequest::PullImage { name: "nginx".into() };
    let (out, ev) = invoke(&svc, req, Ok("pulled".into()));
    assert_eq!(out, Err(DockerMcpError::authorization("missing required scope docker:write")));
    assert_eq!(ev.result_status, AuditResultStatus::Denied);
    assert_eq!(
        ev.error_message.as_deref(),
        Some("authorization denied: missing required scope docker:write")
    );
    assert_eq!(ev.authorization_scope, "docker:write");
}

#[test]
fn each_stage_writes_its_one_event() {
    let sink = new_sink();
    let svc = service_with(&[ToolScope::Read], &sink);
    let req = ToolRequest::ContainerLogs { id: "web".into(), tail: 50 };
    assert!(svc.screen(&req).is_none());
    assert!(sink.events.borrow().is_empty());
    let (out, ev) = svc.conclude(&req, Ok("log line\npassword=hunter2".into()));
    assert_eq!(out, Ok("log line\npassword=[REDACTED]".to_string()));
    let events = sink.events.borrow();
    assert_eq!(events.len(), 1);
    assert_eq!(events[0].result_status, AuditResultStatus::Success);
    assert_eq!(events[0].result_bytes, "log line\npassword=[REDACTED]".len());
    assert_eq!(events[0].correlation_id, ev.correlation_id);
}

#[test]
fn refused_run_is_audited_once_as_denied() {
    let sink = new_sink();
    let svc = service_with(&[ToolScope::Read], &sink);
    let req = ToolRequest::RunContainer {
        image: "alpine".into(),
        name: None,
        command: vec![],
        env: vec![],
        detach: true,
    };
    let (res, _) = svc.screen(&req).unwrap();
    assert_eq!(res, Err(DockerMcpError::authorization("missing required scope docker:write")));
    let events = sink.events.borrow();
    assert_eq!(events.len(), 1);
    assert_eq!(events[0].tool_name, "docker_run_container");
    assert_eq!(events[0].result_status, AuditResultStatus::Denied);
    assert_eq!(events[0].result_bytes, 0);
}

#[test]
fn any_output_is_concluded() {
    let sink = new_sink();
    let svc = service_with(&[ToolScope::Read], &sink);
    let (out, _) = svc.conclude(&inspect("c"), Ok("\u{212A}token=abc".into()));
    assert_eq!(out, Ok("\u{212A}token=[REDACTED]".to_string()));
    assert_eq!(sink.events.borrow().len(), 1);
}

#[test]
fn tool_parameters_take_their_defaults() {
    assert!(matches!(ToolRequest::list_containers(None), ToolRequest::ListContainers { all: false }));
    assert!(matches!(
        ToolRequest::container_logs("w".into(), None),
        ToolRequest::ContainerLogs { tail: 100, .. }
    ));
    assert!(matches!(
        ToolRequest::container_logs("w".into(), Some(5)),
        ToolRequest::ContainerLogs { tail: 5, .. }
    ));
    assert!(matches!(
        ToolRequest::stop_container("w".into(), None),
        ToolRequest::StopContainer { timeout_secs: 10, .. }
    ));
    assert!(matches!(
        ToolRequest::restart_container("w".into(), Some(3)),
        ToolRequest::RestartContainer { timeout_secs: 3, .. }
    ));
    assert!(matches!(
        ToolRequest::remove_container("w".into(), None),
        ToolRequest::RemoveContainer { force: false, .. }
    ));
    assert!(matches!(
        ToolRequest::remove_image("n".into(), Some(true)),
        ToolRequest::RemoveImage { force: true, .. }
    ));
    match ToolRequest::run_container("alpine".into(), None, None, None, None) {
        ToolRequest::RunContainer { image, name, command, env, detach } => {
            assert_eq!(image, "alpine");
            assert_eq!(name, None);
            assert!(command.is_empty() && env.is_empty());
            assert!(detach);
        }
        _ => panic!("not a run request"),
    }
}
