//! What the Docker engine is asked for when an agent runs a container, what
//! the agent is told afterwards, and the name under which a container is
//! listed.
use vstd::prelude::*;
use vstd::utf8::*;

use crate::config::opt_string_view;
use crate::error::DockerMcpError;
use crate::service::strings_view;

verus! {

/// A container that an agent asked to run.
#[derive(Debug, Clone, PartialEq, Eq)]
pub struct RunSpec {
    pub image: String,
    pub name: Option<String>,
    pub command: Vec<String>,
    pub env: Vec<(String, String)>,
    pub detach: bool,
}

/// The container that the engine is asked to create: its image, its name if
/// one was given, its command and environment when there are any, and the
/// host settings that every run gets.
#[derive(Debug, Clone, PartialEq, Eq)]
pub struct CreatePlan {
    pub image: String,
    pub name: Option<String>,
    pub cmd: Option<Vec<String>>,
    pub env: Option<Vec<String>>,
    pub auto_remove: bool,
    pub privileged: bool,
    pub network_mode: String,
}

/// `KEY=value` for each environment entry, in order.
pub open spec fn env_assignments(env: Seq<(String, String)>) -> Seq<Seq<char>> {
    env.map_values(|p: (String, String)| p.0@ + "="@ + p.1@)
}

/// The reply to a run: the id of the started container, and whether it was
/// left running detached.
pub open spec fn run_reply(id: Seq<char>, detach: bool) -> Seq<char> {
    if detach {
        "started container "@ + id
    } else {
        "created and started container "@ + id
    }
}

/// `s` without the copies of `c` that it starts with.
pub open spec fn trim_leading(s: Seq<char>, c: char) -> Seq<char>
    decreases s.len(),
{
    if s.len() > 0 && s[0] == c {
        trim_leading(s.drop_first(), c)
    } else {
        s
    }
}

/// The name under which a container is listed: its first name without the
/// leading slashes, or nothing when it has no name.
pub open spec fn listed_name(names: Seq<String>) -> Seq<char> {
    if names.len() == 0 {
        seq![]
    } else {
        trim_leading(names[0]@, '/')
    }
}

/// The creation request for a run: the image and name as given, the command
/// and the `KEY=value` environment only when they are not empty, and a
/// host that is never privileged, keeps the container after it exits, and
/// attaches it to the default bridge network.
pub fn create_plan(spec: RunSpec) -> (plan: CreatePlan)
    ensures
        plan.image == spec.image,
        plan.name == spec.name,
        plan.cmd == (if spec.command@.len() == 0 {
            None
        } else {
            Some(spec.command)
        }),
        match plan.env {
            None => spec.env@.len() == 0,
            Some(e) => spec.env@.len() > 0 && strings_view(e@) == env_assignments(spec.env@),
        },
        !plan.privileged,
        !plan.auto_remove,
        plan.network_mode@ == "bridge"@,
{
    let ghost given = spec;
    let RunSpec { image, name, command, env, detach: _ } = spec;
    let mut assigns: Vec<String> = Vec::new();
    let mut i: usize = 0;
    while i < env.len()
        invariant
            i <= env@.len(),
            assigns@.len() == i,
            forall|k: int| 0 <= k < i ==> #[trigger] assigns@[k]@ == env@[k].0@ + "="@ + env@[k].1@,
        decreases env@.len() - i,
    {
        let mut s = String::from_str(env[i].0.as_str());
        s.append("=");
        s.append(env[i].1.as_str());
        assigns.push(s);
        i = i + 1;
    }
    proof {
        assert(strings_view(assigns@) =~= env_assignments(env@));
    }
    let cmd = if command.len() == 0 {
        None
    } else {
        Some(command)
    };
    let env_list = if env.len() == 0 {
        None
    } else {
        Some(assigns)
    };
    CreatePlan {
        image,
        name,
        cmd,
        env: env_list,
        auto_remove: false,
        privileged: false,
        network_mode: String::from_str("bridge"),
    }
}

/// What the agent is told once the container `id` was created and started.
pub fn run_message(id: &str, detach: bool) -> (s: String)
    ensures
        s@ == run_reply(id@, detach),
{
    let mut s = if detach {
        String::from_str("started container ")
    } else {
        String::from_str("created and started container ")
    };
    s.append(id);
    s
}

/// The name under which a container with the given names is listed.
pub fn container_name(names: &[String]) -> (r: String)
    ensures
        r@ == listed_name(names@),
{
    if names.len() == 0 {
        return String::new();
    }
    let first = names[0].as_str();
    let n = first.unicode_len();
    let mut k: usize = 0;
    proof {
        assert(first@.subrange(0, n as int) =~= first@);
    }
    while k < n && first.get_char(k) == '/'
        invariant
            k <= n,
            n == first@.len(),
            trim_leading(first@, '/') == trim_leading(first@.subrange(k as int, n as int), '/'),
        decreases n - k,
    {
        proof {
            let s = first@.subrange(k as int, n as int);
            assert(s.drop_first() =~= first@.subrange(k + 1, n as int));
        }
        k = k + 1;
    }
    let rest = first.substring_char(k, n);
    String::from_str(rest)
}

/// Name for what `String::from_utf8_lossy` makes of a byte sequence: its
/// UTF-8 decoding, with U+FFFD for each invalid sequence.
pub uninterp spec fn utf8_lossy(b: Seq<u8>) -> Seq<char>;

/// Calls `String::from_utf8_lossy`. The contract claims that the result is
/// named by the bytes (`utf8_lossy`), and that valid UTF-8 is decoded as it
/// is, as std documents; which replacement characters invalid input gets is
/// std's and is not stated.
#[verifier::external_body]
fn decode_lossy(bytes: &[u8]) -> (r: String)
    ensures
        r@ == utf8_lossy(bytes@),
        valid_utf8(bytes@) ==> r@ == decode_utf8(bytes@),
{
    String::from_utf8_lossy(bytes).into_owned()
}

/// The result of a finished `docker compose` run, from its exit status and
/// the bytes of its output streams.
pub fn compose_result(success: bool, stdout: &[u8], stderr: &[u8]) -> (r: Result<
    String,
    DockerMcpError,
>)
    ensures
        success ==> (r matches Ok(o) && o@ == utf8_lossy(stdout@)),
        !success ==> (r matches Err(e) && e is Docker && e.detail() == "compose failed: "@
            + utf8_lossy(stderr@)),
{
    if success {
        Ok(decode_lossy(stdout))
    } else {
        let mut m = String::from_str("compose failed: ");
        let err = decode_lossy(stderr);
        m.append(err.as_str());
        Err(DockerMcpError::Docker(m))
    }
}

/// Appends one chunk of a container's log, decoded, to `out`.
pub fn append_log_chunk(out: &mut String, chunk: &[u8])
    ensures
        final(out)@ == old(out)@ + utf8_lossy(chunk@),
{
    let text = decode_lossy(chunk);
    out.append(text.as_str());
}

} // verus!
