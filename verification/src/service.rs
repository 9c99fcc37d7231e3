//! The decisions that each tool invocation goes through, in two stages:
//! `screen` authorizes the request's scope and validates its arguments,
//! auditing a refusal; `conclude` sanitizes the outcome of the Docker
//! operation, which the caller runs in between, and audits it.
use vstd::prelude::*;
use vstd::utf8::*;

use crate::audit::{records, AuditEvent, AuditLogger, AuditResultStatus, AuditSink};
use crate::auth::{missing_scope_message, scope_name, Authorizer, ToolScope};
use crate::config::{opt_string_view, Config};
use crate::error::DockerMcpError;
use crate::sanitize::{
    hex_of_fingerprint, params_fingerprint, sanitize_output, sanitized,
};
use crate::text::{decimal, push_decimal};
use crate::validate::{
    command_problem, env_problem, name_problem, path_problem, tail_problem, validate_command_args,
    validate_compose_path, validate_env, validate_log_tail, validate_name,
};

verus! {

/// One invocation of a tool, with its arguments.
pub enum ToolRequest {
    SystemInfo,
    ListContainers { all: bool },
    InspectContainer { id: String },
    ContainerLogs { id: String, tail: u64 },
    StartContainer { id: String },
    StopContainer { id: String, timeout_secs: u64 },
    RestartContainer { id: String, timeout_secs: u64 },
    RemoveContainer { id: String, force: bool },
    RunContainer {
        image: String,
        name: Option<String>,
        command: Vec<String>,
        env: Vec<(String, String)>,
        detach: bool,
    },
    ListImages,
    InspectImage { name: String },
    PullImage { name: String },
    RemoveImage { name: String, force: bool },
    ListNetworks,
    ListVolumes,
    ComposePs { compose_file: String },
    ComposeConfig { compose_file: String },
}

/// The name under which the tool is audited.
pub open spec fn request_tool_name(r: ToolRequest) -> Seq<char> {
    match r {
        ToolRequest::SystemInfo => "docker_system_info"@,
        ToolRequest::ListContainers { .. } => "docker_list_containers"@,
        ToolRequest::InspectContainer { .. } => "docker_inspect_container"@,
        ToolRequest::ContainerLogs { .. } => "docker_container_logs"@,
        ToolRequest::StartContainer { .. } => "docker_start_container"@,
        ToolRequest::StopContainer { .. } => "docker_stop_container"@,
        ToolRequest::RestartContainer { .. } => "docker_restart_container"@,
        ToolRequest::RemoveContainer { .. } => "docker_remove_container"@,
        ToolRequest::RunContainer { .. } => "docker_run_container"@,
        ToolRequest::ListImages => "docker_list_images"@,
        ToolRequest::InspectImage { .. } => "docker_inspect_image"@,
        ToolRequest::PullImage { .. } => "docker_pull_image"@,
        ToolRequest::RemoveImage { .. } => "docker_remove_image"@,
        ToolRequest::ListNetworks => "docker_list_networks"@,
        ToolRequest::ListVolumes => "docker_list_volumes"@,
        ToolRequest::ComposePs { .. } => "docker_compose_ps"@,
        ToolRequest::ComposeConfig { .. } => "docker_compose_config"@,
    }
}

/// The scope that the tool requires.
pub open spec fn request_scope(r: ToolRequest) -> ToolScope {
    match r {
        ToolRequest::SystemInfo => ToolScope::Read,
        ToolRequest::ListContainers { .. } => ToolScope::Read,
        ToolRequest::InspectContainer { .. } => ToolScope::Read,
        ToolRequest::ContainerLogs { .. } => ToolScope::Read,
        ToolRequest::StartContainer { .. } => ToolScope::Write,
        ToolRequest::StopContainer { .. } => ToolScope::Write,
        ToolRequest::RestartContainer { .. } => ToolScope::Write,
        ToolRequest::RemoveContainer { .. } => ToolScope::Write,
        ToolRequest::RunContainer { .. } => ToolScope::Write,
        ToolRequest::ListImages => ToolScope::Read,
        ToolRequest::InspectImage { .. } => ToolScope::Read,
        ToolRequest::PullImage { .. } => ToolScope::Write,
        ToolRequest::RemoveImage { .. } => ToolScope::Write,
        ToolRequest::ListNetworks => ToolScope::Read,
        ToolRequest::ListVolumes => ToolScope::Read,
        ToolRequest::ComposePs { .. } => ToolScope::Compose,
        ToolRequest::ComposeConfig { .. } => ToolScope::Compose,
    }
}

/// Whether the tool's output goes to the agent through `sanitize_output`;
/// the others return the engine's short status message as it is.
pub open spec fn request_sanitizes(r: ToolRequest) -> bool {
    match r {
        ToolRequest::SystemInfo | ToolRequest::ListContainers { .. } | ToolRequest::InspectContainer { .. } | ToolRequest::ContainerLogs { .. } | ToolRequest::ListImages | ToolRequest::InspectImage { .. } | ToolRequest::ListNetworks | ToolRequest::ListVolumes | ToolRequest::ComposePs { .. } | ToolRequest::ComposeConfig { .. } => true,
        _ => false,
    }
}

/// `true` or `false`.
pub open spec fn bool_text(b: bool) -> Seq<char> {
    if b {
        "true"@
    } else {
        "false"@
    }
}

/// `{"<key>":"<value>"` (the value written as it is, without escaping).
pub open spec fn quoted_field(key: Seq<char>, value: Seq<char>) -> Seq<char> {
    "{\""@ + key + "\":\""@ + value + "\""@
}

/// Name for the JSON text that `serde_json::to_string` renders for a
/// string: the quoted and escaped string.
pub uninterp spec fn json_str(s: Seq<char>) -> Seq<char>;

/// Name for the JSON text that `serde_json::to_string` renders for a list
/// of strings.
pub uninterp spec fn json_str_list(v: Seq<Seq<char>>) -> Seq<char>;

/// Name for the JSON text that `serde_json::to_string` renders for a list
/// of string pairs (each pair as a two-element array).
pub uninterp spec fn json_pair_list(v: Seq<(Seq<char>, Seq<char>)>) -> Seq<char>;

/// The compact JSON object of the parameters of a container run, its keys
/// in sorted order as `serde_json` writes a map.
pub open spec fn run_params_text(
    image: Seq<char>,
    name: Option<Seq<char>>,
    command: Seq<Seq<char>>,
    env: Seq<(Seq<char>, Seq<char>)>,
    detach: bool,
) -> Seq<char> {
    "{\"command\":"@ + json_str_list(command) + ",\"detach\":"@ + bool_text(detach)
        + ",\"env\":"@ + json_pair_list(env) + ",\"image\":"@ + json_str(image) + ",\"name\":"@
        + match name {
        Some(n) => json_str(n),
        None => "null"@,
    } + "}"@
}

/// The views of a list of strings.
pub open spec fn strings_view(v: Seq<String>) -> Seq<Seq<char>> {
    v.map_values(|s: String| s@)
}

/// The views of a list of string pairs.
pub open spec fn pairs_view(v: Seq<(String, String)>) -> Seq<(Seq<char>, Seq<char>)> {
    v.map_values(|p: (String, String)| (p.0@, p.1@))
}

/// The parameter text that is fingerprinted for the audit trail.
pub open spec fn request_params(r: ToolRequest) -> Seq<char> {
    match r {
        ToolRequest::SystemInfo | ToolRequest::ListImages | ToolRequest::ListNetworks
        | ToolRequest::ListVolumes => "{}"@,
        ToolRequest::ListContainers { all } => "{\"all\":"@ + bool_text(all) + "}"@,
        ToolRequest::InspectContainer { id } | ToolRequest::StartContainer { id } => quoted_field(
            "id"@,
            id@,
        ) + "}"@,
        ToolRequest::ContainerLogs { id, tail } => quoted_field("id"@, id@) + ",\"tail\":"@
            + decimal(tail as nat) + "}"@,
        ToolRequest::StopContainer { id, timeout_secs } | ToolRequest::RestartContainer {
            id,
            timeout_secs,
        } => quoted_field("id"@, id@) + ",\"timeout_secs\":"@ + decimal(timeout_secs as nat) + "}"@,
        ToolRequest::RemoveContainer { id, force } => quoted_field("id"@, id@) + ",\"force\":"@
            + bool_text(force) + "}"@,
        ToolRequest::RunContainer { image, name, command, env, detach } => run_params_text(
            image@,
            opt_string_view(name),
            strings_view(command@),
            pairs_view(env@),
            detach,
        ),
        ToolRequest::InspectImage { name } | ToolRequest::PullImage { name } => quoted_field(
            "name"@,
            name@,
        ) + "}"@,
        ToolRequest::RemoveImage { name, force } => quoted_field("name"@, name@) + ",\"force\":"@
            + bool_text(force) + "}"@,
        ToolRequest::ComposePs { compose_file } | ToolRequest::ComposeConfig {
            compose_file,
        } => quoted_field("compose_file"@, compose_file@) + "}"@,
    }
}

/// `a`, unless it is `None`, in which case `b`.
pub open spec fn first_problem(a: Option<Seq<char>>, b: Option<Seq<char>>) -> Option<Seq<char>> {
    match a {
        Some(m) => Some(m),
        None => b,
    }
}

/// What is wrong with the request's arguments, in the order they are checked.
pub open spec fn request_problem(r: ToolRequest) -> Option<Seq<char>> {
    match r {
        ToolRequest::SystemInfo | ToolRequest::ListContainers { .. } | ToolRequest::ListImages
        | ToolRequest::ListNetworks | ToolRequest::ListVolumes => None,
        ToolRequest::InspectContainer { id } | ToolRequest::StartContainer { id }
        | ToolRequest::StopContainer { id, .. } | ToolRequest::RestartContainer { id, .. }
        | ToolRequest::RemoveContainer { id, .. } => name_problem(id@, "container id"@),
        ToolRequest::ContainerLogs { id, tail } => first_problem(
            name_problem(id@, "container id"@),
            tail_problem(tail),
        ),
        ToolRequest::RunContainer { image, name, command, env, .. } => first_problem(
            name_problem(image@, "image"@),
            first_problem(
                match name {
                    Some(n) => name_problem(n@, "container name"@),
                    None => None,
                },
                first_problem(command_problem(command@), env_problem(env@)),
            ),
        ),
        ToolRequest::InspectImage { name } | ToolRequest::PullImage { name }
        | ToolRequest::RemoveImage { name, .. } => name_problem(name@, "image name"@),
        ToolRequest::ComposePs { compose_file } | ToolRequest::ComposeConfig {
            compose_file,
        } => path_problem(compose_file@),
    }
}

/// `r` is how a request is prechecked: an authorization error when its
/// scope is not granted, whatever its arguments; else a validation error for
/// the first problem with its arguments; else `Ok`.
pub open spec fn admission(r: Result<(), DockerMcpError>, auth: Authorizer, req: ToolRequest) -> bool {
    if !auth.permits(request_scope(req)) {
        r matches Err(e) && e is Authorization && e.detail() == missing_scope_message(
            request_scope(req),
        )
    } else {
        match request_problem(req) {
            Some(m) => r matches Err(e) && e is Validation && e.detail() == m,
            None => r is Ok,
        }
    }
}

/// The status that the audit trail records for a result.
pub open spec fn status_of(result: Result<String, DockerMcpError>) -> AuditResultStatus {
    match result {
        Ok(_) => AuditResultStatus::Success,
        Err(DockerMcpError::Authorization(_)) => AuditResultStatus::Denied,
        Err(_) => AuditResultStatus::Error,
    }
}

/// The byte count that the audit trail records for a result.
pub open spec fn bytes_of(result: Result<String, DockerMcpError>) -> nat {
    match result {
        Ok(v) => encode_utf8(v@).len(),
        Err(_) => 0,
    }
}

/// Whether `msg` is the error message that the audit trail records for a
/// result: none on success, the rendered error otherwise.
pub open spec fn message_of(msg: Option<String>, result: Result<String, DockerMcpError>) -> bool {
    match result {
        Ok(_) => msg is None,
        Err(e) => msg matches Some(m) && m@ == e.display(),
    }
}

/// The fingerprint that the audit trail records for a parameter text.
pub open spec fn fingerprint_of(params: Seq<char>) -> Seq<char> {
    hex_of_fingerprint(params)
}

/// Calls `serde_json::to_string` on a string slice; that cannot fail.
/// The result is named (`json_str`), not spelled out.
#[verifier::external_body]
fn json_string(s: &str) -> (r: String)
    ensures
        r@ == json_str(s@),
{
    serde_json::to_string(s).unwrap_or_default()
}

/// Calls `serde_json::to_string` on a list of strings; that cannot fail.
/// The result is named (`json_str_list`), not spelled out.
#[verifier::external_body]
fn json_strings(v: &Vec<String>) -> (r: String)
    ensures
        r@ == json_str_list(strings_view(v@)),
{
    serde_json::to_string(v).unwrap_or_default()
}

/// Calls `serde_json::to_string` on a list of string pairs; that cannot
/// fail. The result is named (`json_pair_list`), not spelled out.
#[verifier::external_body]
fn json_pairs(v: &Vec<(String, String)>) -> (r: String)
    ensures
        r@ == json_pair_list(pairs_view(v@)),
{
    serde_json::to_string(v).unwrap_or_default()
}

/// The parameter text of a container run.
fn run_params(
    image: &String,
    name: &Option<String>,
    command: &Vec<String>,
    env: &Vec<(String, String)>,
    detach: bool,
) -> (r: String)
    ensures
        r@ == run_params_text(
            image@,
            opt_string_view(*name),
            strings_view(command@),
            pairs_view(env@),
            detach,
        ),
{
    let mut s = String::from_str("{\"command\":");
    let c = json_strings(command);
    s.append(c.as_str());
    s.append(",\"detach\":");
    push_bool(&mut s, detach);
    s.append(",\"env\":");
    let e = json_pairs(env);
    s.append(e.as_str());
    s.append(",\"image\":");
    let i = json_string(image.as_str());
    s.append(i.as_str());
    s.append(",\"name\":");
    match name {
        Some(n) => {
            let t = json_string(n.as_str());
            s.append(t.as_str());
        },
        None => {
            s.append("null");
        },
    }
    s.append("}");
    s
}

/// Appends `true` or `false`.
fn push_bool(out: &mut String, b: bool)
    ensures
        final(out)@ == old(out)@ + bool_text(b),
{
    if b {
        out.append("true");
    } else {
        out.append("false");
    }
}

/// Starts `{"<key>":"<value>"`.
fn quoted(key: &str, value: &String) -> (s: String)
    ensures
        s@ == quoted_field(key@, value@),
{
    let mut s = String::from_str("{\"");
    s.append(key);
    s.append("\":\"");
    s.append(value.as_str());
    s.append("\"");
    s
}

/// Log lines fetched when the agent gives no tail.
pub const DEFAULT_LOG_TAIL: u64 = 100;

/// Seconds a container gets to stop when the agent gives no timeout.
pub const DEFAULT_STOP_TIMEOUT: u64 = 10;

impl ToolRequest {
    /// Listing, of the running containers only unless `all` is set.
    pub fn list_containers(all: Option<bool>) -> (r: Self)
        ensures
            r == (ToolRequest::ListContainers { all: all.unwrap_or(false) }),
    {
        ToolRequest::ListContainers { all: all.unwrap_or(false) }
    }

    /// Fetching logs, the last hundred lines unless a tail is given.
    pub fn container_logs(id: String, tail: Option<u64>) -> (r: Self)
        ensures
            r == (ToolRequest::ContainerLogs { id, tail: tail.unwrap_or(DEFAULT_LOG_TAIL) }),
    {
        ToolRequest::ContainerLogs { id, tail: tail.unwrap_or(DEFAULT_LOG_TAIL) }
    }

    /// Stopping, with ten seconds to stop unless a timeout is given.
    pub fn stop_container(id: String, timeout_secs: Option<u64>) -> (r: Self)
        ensures
            r == (ToolRequest::StopContainer {
                id,
                timeout_secs: timeout_secs.unwrap_or(DEFAULT_STOP_TIMEOUT),
            }),
    {
        ToolRequest::StopContainer { id, timeout_secs: timeout_secs.unwrap_or(DEFAULT_STOP_TIMEOUT) }
    }

    /// Restarting, with ten seconds to stop unless a timeout is given.
    pub fn restart_container(id: String, timeout_secs: Option<u64>) -> (r: Self)
        ensures
            r == (ToolRequest::RestartContainer {
                id,
                timeout_secs: timeout_secs.unwrap_or(DEFAULT_STOP_TIMEOUT),
            }),
    {
        ToolRequest::RestartContainer {
            id,
            timeout_secs: timeout_secs.unwrap_or(DEFAULT_STOP_TIMEOUT),
        }
    }

    /// Removing a container, without force unless asked.
    pub fn remove_container(id: String, force: Option<bool>) -> (r: Self)
        ensures
            r == (ToolRequest::RemoveContainer { id, force: force.unwrap_or(false) }),
    {
        ToolRequest::RemoveContainer { id, force: force.unwrap_or(false) }
    }

    /// Running a container: no command or environment unless given, and
    /// detached unless asked otherwise.
    pub fn run_container(
        image: String,
        name: Option<String>,
        command: Option<Vec<String>>,
        env: Option<Vec<(String, String)>>,
        detach: Option<bool>,
    ) -> (r: Self)
        ensures
            r is RunContainer,
            r->RunContainer_image == image,
            r->RunContainer_name == name,
            r->RunContainer_command@ == match command {
                Some(c) => c@,
                None => Seq::<String>::empty(),
            },
            r->RunContainer_env@ == match env {
                Some(e) => e@,
                None => Seq::<(String, String)>::empty(),
            },
            r->RunContainer_detach == detach.unwrap_or(true),
    {
        let command = match command {
            Some(c) => c,
            None => Vec::new(),
        };
        let env = match env {
            Some(e) => e,
            None => Vec::new(),
        };
        ToolRequest::RunContainer { image, name, command, env, detach: detach.unwrap_or(true) }
    }

    /// Removing an image, without force unless asked.
    pub fn remove_image(name: String, force: Option<bool>) -> (r: Self)
        ensures
            r == (ToolRequest::RemoveImage { name, force: force.unwrap_or(false) }),
    {
        ToolRequest::RemoveImage { name, force: force.unwrap_or(false) }
    }

    /// The name under which the tool is audited.
    pub fn tool_name(&self) -> (s: &'static str)
        ensures
            s@ == request_tool_name(*self),
    {
        match self {
            ToolRequest::SystemInfo => "docker_system_info",
            ToolRequest::ListContainers { .. } => "docker_list_containers",
            ToolRequest::InspectContainer { .. } => "docker_inspect_container",
            ToolRequest::ContainerLogs { .. } => "docker_container_logs",
            ToolRequest::StartContainer { .. } => "docker_start_container",
            ToolRequest::StopContainer { .. } => "docker_stop_container",
            ToolRequest::RestartContainer { .. } => "docker_restart_container",
            ToolRequest::RemoveContainer { .. } => "docker_remove_container",
            ToolRequest::RunContainer { .. } => "docker_run_container",
            ToolRequest::ListImages => "docker_list_images",
            ToolRequest::InspectImage { .. } => "docker_inspect_image",
            ToolRequest::PullImage { .. } => "docker_pull_image",
            ToolRequest::RemoveImage { .. } => "docker_remove_image",
            ToolRequest::ListNetworks => "docker_list_networks",
            ToolRequest::ListVolumes => "docker_list_volumes",
            ToolRequest::ComposePs { .. } => "docker_compose_ps",
            ToolRequest::ComposeConfig { .. } => "docker_compose_config",
        }
    }

    /// The scope that the tool requires.
    pub fn scope(&self) -> (s: ToolScope)
        ensures
            s == request_scope(*self),
    {
        match self {
            ToolRequest::SystemInfo => ToolScope::Read,
            ToolRequest::ListContainers { .. } => ToolScope::Read,
            ToolRequest::InspectContainer { .. } => ToolScope::Read,
            ToolRequest::ContainerLogs { .. } => ToolScope::Read,
            ToolRequest::StartContainer { .. } => ToolScope::Write,
            ToolRequest::StopContainer { .. } => ToolScope::Write,
            ToolRequest::RestartContainer { .. } => ToolScope::Write,
            ToolRequest::RemoveContainer { .. } => ToolScope::Write,
            ToolRequest::RunContainer { .. } => ToolScope::Write,
            ToolRequest::ListImages => ToolScope::Read,
            ToolRequest::InspectImage { .. } => ToolScope::Read,
            ToolRequest::PullImage { .. } => ToolScope::Write,
            ToolRequest::RemoveImage { .. } => ToolScope::Write,
            ToolRequest::ListNetworks => ToolScope::Read,
            ToolRequest::ListVolumes => ToolScope::Read,
            ToolRequest::ComposePs { .. } => ToolScope::Compose,
            ToolRequest::ComposeConfig { .. } => ToolScope::Compose,
        }
    }

    /// Whether the tool's output is sanitized before it reaches the agent.
    pub fn sanitizes_output(&self) -> (b: bool)
        ensures
            b == request_sanitizes(*self),
    {
        match self {
            ToolRequest::SystemInfo | ToolRequest::ListContainers { .. } | ToolRequest::InspectContainer { .. } | ToolRequest::ContainerLogs { .. } | ToolRequest::ListImages | ToolRequest::InspectImage { .. } | ToolRequest::ListNetworks | ToolRequest::ListVolumes | ToolRequest::ComposePs { .. } | ToolRequest::ComposeConfig { .. } => true,
            _ => false,
        }
    }

    /// The parameter text that is fingerprinted for the audit trail.
    pub fn params(&self) -> (s: String)
        ensures
            s@ == request_params(*self),
    {
        match self {
            ToolRequest::SystemInfo | ToolRequest::ListImages | ToolRequest::ListNetworks
            | ToolRequest::ListVolumes => String::from_str("{}"),
            ToolRequest::ListContainers { all } => {
                let mut s = String::from_str("{\"all\":");
                push_bool(&mut s, *all);
                s.append("}");
                s
            },
            ToolRequest::InspectContainer { id } | ToolRequest::StartContainer { id } => {
                let mut s = quoted("id", id);
                s.append("}");
                s
            },
            ToolRequest::ContainerLogs { id, tail } => {
                let mut s = quoted("id", id);
                s.append(",\"tail\":");
                push_decimal(&mut s, *tail);
                s.append("}");
                s
            },
            ToolRequest::StopContainer { id, timeout_secs }
            | ToolRequest::RestartContainer { id, timeout_secs } => {
                let mut s = quoted("id", id);
                s.append(",\"timeout_secs\":");
                push_decimal(&mut s, *timeout_secs);
                s.append("}");
                s
            },
            ToolRequest::RemoveContainer { id, force } => {
                let mut s = quoted("id", id);
                s.append(",\"force\":");
                push_bool(&mut s, *force);
                s.append("}");
                s
            },
            ToolRequest::RunContainer { image, name, command, env, detach } => run_params(
                image,
                name,
                command,
                env,
                *detach,
            ),
            ToolRequest::InspectImage { name } | ToolRequest::PullImage { name } => {
                let mut s = quoted("name", name);
                s.append("}");
                s
            },
            ToolRequest::RemoveImage { name, force } => {
                let mut s = quoted("name", name);
                s.append(",\"force\":");
                push_bool(&mut s, *force);
                s.append("}");
                s
            },
            ToolRequest::ComposePs { compose_file } | ToolRequest::ComposeConfig {
                compose_file,
            } => {
                let mut s = quoted("compose_file", compose_file);
                s.append("}");
                s
            },
        }
    }

    /// Checks the request's arguments in order.
    pub fn validate(&self) -> (r: Result<(), DockerMcpError>)
        ensures
            match request_problem(*self) {
                Some(m) => r matches Err(e) && e is Validation && e.detail() == m,
                None => r is Ok,
            },
    {
        match self {
            ToolRequest::SystemInfo | ToolRequest::ListContainers { .. } | ToolRequest::ListImages
            | ToolRequest::ListNetworks | ToolRequest::ListVolumes => Ok(()),
            ToolRequest::InspectContainer { id } | ToolRequest::StartContainer { id }
            | ToolRequest::StopContainer { id, .. } | ToolRequest::RestartContainer { id, .. }
            | ToolRequest::RemoveContainer { id, .. } => validate_name(id.as_str(), "container id"),
            ToolRequest::ContainerLogs { id, tail } => {
                validate_name(id.as_str(), "container id")?;
                validate_log_tail(*tail)
            },
            ToolRequest::RunContainer { image, name, command, env, .. } => {
                validate_name(image.as_str(), "image")?;
                if let Some(n) = name {
                    validate_name(n.as_str(), "container name")?;
                }
                validate_command_args(command.as_slice())?;
                validate_env(env.as_slice())
            },
            ToolRequest::InspectImage { name } | ToolRequest::PullImage { name }
            | ToolRequest::RemoveImage { name, .. } => validate_name(name.as_str(), "image name"),
            ToolRequest::ComposePs { compose_file } | ToolRequest::ComposeConfig {
                compose_file,
            } => validate_compose_path(compose_file.as_str()),
        }
    }
}

/// The service behind the tools: its configuration and audit logger, and
/// the Docker backend that performs the operations.
pub struct DockerService<B, S> {
    backend: B,
    config: Config,
    audit: AuditLogger<S>,
}

impl<B, S: AuditSink> DockerService<B, S> {
    /// The configuration of the service.
    pub closed spec fn settings(self) -> Config {
        self.config
    }

    /// The backend of the service.
    pub closed spec fn backend_handle(self) -> B {
        self.backend
    }

    /// The audit logger of the service.
    pub closed spec fn logger(self) -> AuditLogger<S> {
        self.audit
    }

    /// A service over `backend` with the given configuration and logger.
    pub fn new(backend: B, config: Config, audit: AuditLogger<S>) -> (s: Self)
        ensures
            s.backend_handle() == backend,
            s.settings() == config,
            s.logger() == audit,
    {
        DockerService { backend, config, audit }
    }

    /// The backend that performs the Docker operations.
    pub fn backend(&self) -> (b: &B)
        ensures
            *b == self.backend_handle(),
    {
        &self.backend
    }

    /// The authorizer that decides which scopes are granted.
    pub fn authorizer(&self) -> (a: &Authorizer)
        ensures
            *a == self.settings().authorizer,
    {
        &self.config.authorizer
    }

    /// Authorizes the request's scope, then validates its arguments.
    pub fn precheck(&self, req: &ToolRequest) -> (r: Result<(), DockerMcpError>)
        ensures
            admission(r, self.settings().authorizer, *req),
    {
        self.config.authorizer.authorize(req.scope())?;
        req.validate()
    }

    /// Sanitizes a response for the agent.
    pub fn finish_raw(&self, value: String) -> (r: Result<String, DockerMcpError>)
        ensures
            r matches Ok(s) && s@ == sanitized(value@, self.settings().max_output_bytes as nat),
    {
        Ok(sanitize_output(value.as_str(), self.config.max_output_bytes))
    }

    /// What the agent gets for a request whose operation ended with
    /// `outcome`: sanitized output for the tools that sanitize, the outcome
    /// as it is otherwise.
    pub fn complete(&self, req: &ToolRequest, outcome: Result<String, DockerMcpError>) -> (r: Result<
        String,
        DockerMcpError,
    >)
        ensures
            match outcome {
                Ok(v) => if request_sanitizes(*req) {
                    r matches Ok(s) && s@ == sanitized(v@, self.settings().max_output_bytes as nat)
                } else {
                    r == outcome
                },
                Err(_) => r == outcome,
            },
    {
        match outcome {
            Ok(v) => {
                if req.sanitizes_output() {
                    Ok(sanitize_output(v.as_str(), self.config.max_output_bytes))
                } else {
                    Ok(v)
                }
            },
            Err(e) => Err(e),
        }
    }

    /// Writes the audit event of an invocation and hands its result back:
    /// success with the byte count of the output, denial for authorization
    /// errors, error otherwise with the rendered error.
    pub fn audit_result(
        &self,
        tool: &str,
        scope: ToolScope,
        params: &str,
        result: Result<String, DockerMcpError>,
    ) -> (r: (Result<String, DockerMcpError>, AuditEvent))
        ensures
            r.0 == result,
            bytes_of(result) <= usize::MAX,
            records(
                r.1,
                self.logger().caller(),
                self.logger().session(),
                tool@,
                scope_name(scope),
                fingerprint_of(params@),
                status_of(result),
                bytes_of(result) as usize,
                r.1.error_message,
            ),
            message_of(r.1.error_message, result),
            self.logger().sink_spec().wrote(r.1),
    {
        let (status, bytes, err_msg) = match &result {
            Ok(v) => (AuditResultStatus::Success, v.as_str().as_bytes().len(), None),
            Err(DockerMcpError::Authorization(m)) => (
                AuditResultStatus::Denied,
                0,
                Some(result_error_text(&result)),
            ),
            Err(e) => (AuditResultStatus::Error, 0, Some(e.to_string())),
        };
        let fp = params_fingerprint(params);
        let event = self.audit.log_tool_invoke(
            tool,
            scope.as_str(),
            fp.as_str(),
            status,
            bytes,
            err_msg,
        );
        (result, event)
    }

    /// `audit_result` for a request.
    pub fn record(&self, req: &ToolRequest, result: Result<String, DockerMcpError>) -> (r: (
        Result<String, DockerMcpError>,
        AuditEvent,
    ))
        ensures
            r.0 == result,
            bytes_of(result) <= usize::MAX,
            records(
                r.1,
                self.logger().caller(),
                self.logger().session(),
                request_tool_name(*req),
                scope_name(request_scope(*req)),
                fingerprint_of(request_params(*req)),
                status_of(result),
                bytes_of(result) as usize,
                r.1.error_message,
            ),
            message_of(r.1.error_message, result),
            self.logger().sink_spec().wrote(r.1),
    {
        let params = req.params();
        self.audit_result(req.tool_name(), req.scope(), params.as_str(), result)
    }

    /// Whether `ev` is the audit event of `req` ending with `result`, and
    /// was written to the logger's sink.
    pub open spec fn audits(
        self,
        req: ToolRequest,
        result: Result<String, DockerMcpError>,
        ev: AuditEvent,
    ) -> bool {
        &&& bytes_of(result) <= usize::MAX
        &&& records(
            ev,
            self.logger().caller(),
            self.logger().session(),
            request_tool_name(req),
            scope_name(request_scope(req)),
            fingerprint_of(request_params(req)),
            status_of(result),
            bytes_of(result) as usize,
            ev.error_message,
        )
        &&& message_of(ev.error_message, result)
        &&& self.logger().sink_spec().wrote(ev)
    }

    /// The first stage of a tool call: `None` when the request may go on to
    /// the Docker operation; else the refusal, audited, and what the agent
    /// gets for it.
    pub fn screen(&self, req: &ToolRequest) -> (r: Option<(Result<String, DockerMcpError>, AuditEvent)>)
        ensures
            r is None <==> (self.settings().authorizer.permits(request_scope(*req))
                && request_problem(*req) is None),
            r matches Some(p) ==> {
                &&& p.0 matches Err(e) && admission(Err(e), self.settings().authorizer, *req)
                &&& self.audits(*req, p.0, p.1)
            },
    {
        match self.precheck(req) {
            Ok(()) => None,
            Err(e) => {
                let (res, ev) = self.record(req, Err(e));
                Some((res, ev))
            },
        }
    }

    /// The last stage of a tool call that passed `screen`: the operation's
    /// outcome is sanitized where the tool calls for it and audited, and
    /// what the agent gets is returned with the event.
    pub fn conclude(&self, req: &ToolRequest, outcome: Result<String, DockerMcpError>) -> (r: (
        Result<String, DockerMcpError>,
        AuditEvent,
    ))
        requires
            self.settings().authorizer.permits(request_scope(*req)),
            request_problem(*req) is None,
        ensures
            match outcome {
                Ok(v) => if request_sanitizes(*req) {
                    r.0 matches Ok(s) && s@ == sanitized(v@, self.settings().max_output_bytes as nat)
                } else {
                    r.0 == outcome
                },
                Err(_) => r.0 == outcome,
            },
            self.audits(*req, r.0, r.1),
    {
        let delivered = self.complete(req, outcome);
        self.record(req, delivered)
    }
}

/// The rendered error of an `Err` result.
fn result_error_text(result: &Result<String, DockerMcpError>) -> (s: String)
    requires
        result is Err,
    ensures
        result matches Err(e) && s@ == e.display(),
{
    match result {
        Err(e) => e.to_string(),
        Ok(_) => String::new(),
    }
}

} // verus!
