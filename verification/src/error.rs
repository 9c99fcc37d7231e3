//! The error type that every tool returns to the agent.
use vstd::prelude::*;

verus! {

/// Why a tool invocation failed.
#[derive(Debug, Clone, PartialEq, Eq)]
pub enum DockerMcpError {
    Validation(String),
    Authorization(String),
    Docker(String),
    Internal(String),
}

/// Text that `to_string` puts before the detail of each kind of error.
pub open spec fn error_prefix(e: DockerMcpError) -> Seq<char> {
    match e {
        DockerMcpError::Validation(_) => "validation error: "@,
        DockerMcpError::Authorization(_) => "authorization denied: "@,
        DockerMcpError::Docker(_) => "docker error: "@,
        DockerMcpError::Internal(_) => "internal error: "@,
    }
}

/// `r` is what a validator returns for the problem it found: `Ok` when
/// there is none, else a validation error that carries the problem's message.
pub open spec fn validation_outcome(r: Result<(), DockerMcpError>, problem: Option<Seq<char>>) -> bool {
    match problem {
        None => r is Ok,
        Some(m) => r matches Err(e) && e is Validation && e.detail() == m,
    }
}

impl DockerMcpError {
    /// The message carried by the error.
    pub open spec fn detail(self) -> Seq<char> {
        match self {
            DockerMcpError::Validation(m) => m@,
            DockerMcpError::Authorization(m) => m@,
            DockerMcpError::Docker(m) => m@,
            DockerMcpError::Internal(m) => m@,
        }
    }

    /// The human readable rendering of the error.
    pub open spec fn display(self) -> Seq<char> {
        error_prefix(self) + self.detail()
    }

    /// A validation error with the given message.
    pub fn validation(msg: &str) -> (e: Self)
        ensures
            e is Validation,
            e.detail() == msg@,
    {
        DockerMcpError::Validation(String::from_str(msg))
    }

    /// An authorization error with the given message.
    pub fn authorization(msg: &str) -> (e: Self)
        ensures
            e is Authorization,
            e.detail() == msg@,
    {
        DockerMcpError::Authorization(String::from_str(msg))
    }

    /// An error reported by the Docker engine.
    pub fn docker(msg: &str) -> (e: Self)
        ensures
            e is Docker,
            e.detail() == msg@,
    {
        DockerMcpError::Docker(String::from_str(msg))
    }

    /// An internal error of the server itself.
    pub fn internal(msg: &str) -> (e: Self)
        ensures
            e is Internal,
            e.detail() == msg@,
    {
        DockerMcpError::Internal(String::from_str(msg))
    }

    /// Renders the error: the prefix of its kind (such as `validation error: `)
    /// followed by its message.
    pub fn to_string(&self) -> (s: String)
        ensures
            s@ == self.display(),
    {
        let (prefix, m) = match self {
            DockerMcpError::Validation(m) => ("validation error: ", m),
            DockerMcpError::Authorization(m) => ("authorization denied: ", m),
            DockerMcpError::Docker(m) => ("docker error: ", m),
            DockerMcpError::Internal(m) => ("internal error: ", m),
        };
        let mut s = String::from_str(prefix);
        s.append(m.as_str());
        s
    }
}

impl From<DockerMcpError> for String {
    fn from(value: DockerMcpError) -> (s: String)
        ensures
            s@ == value.display(),
    {
        value.to_string()
    }
}

impl vstd::std_specs::convert::FromSpecImpl<DockerMcpError> for String {
    open spec fn obeys_from_spec() -> bool {
        false
    }

    open spec fn from_spec(v: DockerMcpError) -> String {
        arbitrary()
    }
}

} // verus!
