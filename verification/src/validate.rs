//! Validation of the arguments that agents pass to the tools.
use vstd::prelude::*;

use crate::error::{validation_outcome, DockerMcpError};
use crate::text::{byte_len, chars_of, is_ascii_alnum};

verus! {

pub const MAX_NAME_LEN: usize = 128;

pub const MAX_PATH_LEN: usize = 4096;

pub const MAX_ENV_KEY_LEN: usize = 256;

pub const MAX_ENV_VALUE_LEN: usize = 4096;

pub const MAX_CMD_ARGS: usize = 32;

pub const MAX_ARG_LEN: usize = 512;

pub const MAX_LOG_TAIL: u64 = 10000;

/// Characters allowed in container and image names.
pub open spec fn is_name_char(c: char) -> bool {
    is_ascii_alnum(c) || c == '-' || c == '_' || c == '.' || c == '/' || c == ':'
}

/// Characters allowed in environment variable keys.
pub open spec fn is_env_key_char(c: char) -> bool {
    is_ascii_alnum(c) || c == '_'
}

/// Whether `s` holds the character `c`.
pub open spec fn has_char(s: Seq<char>, c: char) -> bool {
    exists|i: int| 0 <= i < s.len() && s[i] == c
}

/// Whether `s` holds two dots in a row.
pub open spec fn has_dot_dot(s: Seq<char>) -> bool {
    exists|i: int| 0 <= i < s.len() - 1 && #[trigger] s[i] == '.' && s[i + 1] == '.'
}

/// What is wrong with a container or image name, if anything.
pub open spec fn name_problem(name: Seq<char>, field: Seq<char>) -> Option<Seq<char>> {
    if name.len() == 0 {
        Some(field + " must not be empty"@)
    } else if byte_len(name) > MAX_NAME_LEN {
        Some(field + " exceeds maximum length of 128"@)
    } else if exists|i: int| 0 <= i < name.len() && !is_name_char(#[trigger] name[i]) {
        Some(field + " contains invalid characters"@)
    } else {
        None
    }
}

/// What is wrong with a compose file path, if anything.
pub open spec fn path_problem(path: Seq<char>) -> Option<Seq<char>> {
    if path.len() == 0 {
        Some("path must not be empty"@)
    } else if byte_len(path) > MAX_PATH_LEN {
        Some("path exceeds maximum length"@)
    } else if has_char(path, '\0') || has_dot_dot(path) {
        Some("path contains forbidden sequences"@)
    } else {
        None
    }
}

/// What is wrong with the first faulty argument of `args`, if any.
pub open spec fn first_arg_problem(args: Seq<String>) -> Option<Seq<char>>
    decreases args.len(),
{
    if args.len() == 0 {
        None
    } else if byte_len(args[0]@) > MAX_ARG_LEN {
        Some("command argument too long"@)
    } else if has_char(args[0]@, '\0') {
        Some("command argument contains null byte"@)
    } else {
        first_arg_problem(args.drop_first())
    }
}

/// What is wrong with a command line, if anything.
pub open spec fn command_problem(args: Seq<String>) -> Option<Seq<char>> {
    if args.len() > MAX_CMD_ARGS {
        Some("command exceeds maximum of 32 arguments"@)
    } else {
        first_arg_problem(args)
    }
}

/// What is wrong with the first faulty environment entry, if any.
pub open spec fn env_problem(env: Seq<(String, String)>) -> Option<Seq<char>>
    decreases env.len(),
{
    if env.len() == 0 {
        None
    } else {
        let key = env[0].0@;
        let value = env[0].1@;
        if key.len() == 0 || byte_len(key) > MAX_ENV_KEY_LEN {
            Some("invalid environment variable key"@)
        } else if byte_len(value) > MAX_ENV_VALUE_LEN {
            Some("environment variable value too long"@)
        } else if exists|i: int| 0 <= i < key.len() && !is_env_key_char(#[trigger] key[i]) {
            Some("environment key contains invalid characters"@)
        } else {
            env_problem(env.drop_first())
        }
    }
}

/// What is wrong with a log tail count, if anything.
pub open spec fn tail_problem(tail: u64) -> Option<Seq<char>> {
    if tail == 0 || tail > MAX_LOG_TAIL {
        Some("tail must be between 1 and 10000"@)
    } else {
        None
    }
}

/// Whether every character of `v` is allowed in a name.
fn all_name_chars(v: &Vec<char>) -> (b: bool)
    ensures
        b == forall|i: int| 0 <= i < v@.len() ==> is_name_char(#[trigger] v@[i]),
{
    let mut i: usize = 0;
    while i < v.len()
        invariant
            i <= v@.len(),
            forall|k: int| 0 <= k < i ==> is_name_char(#[trigger] v@[k]),
        decreases v@.len() - i,
    {
        let c = v[i];
        let ok = ('0' <= c && c <= '9') || ('a' <= c && c <= 'z') || ('A' <= c && c <= 'Z') || c
            == '-' || c == '_' || c == '.' || c == '/' || c == ':';
        if !ok {
            return false;
        }
        i = i + 1;
    }
    true
}

/// Whether every character of `v` is allowed in an environment key.
fn all_env_key_chars(v: &Vec<char>) -> (b: bool)
    ensures
        b == forall|i: int| 0 <= i < v@.len() ==> is_env_key_char(#[trigger] v@[i]),
{
    let mut i: usize = 0;
    while i < v.len()
        invariant
            i <= v@.len(),
            forall|k: int| 0 <= k < i ==> is_env_key_char(#[trigger] v@[k]),
        decreases v@.len() - i,
    {
        let c = v[i];
        let ok = ('0' <= c && c <= '9') || ('a' <= c && c <= 'z') || ('A' <= c && c <= 'Z') || c
            == '_';
        if !ok {
            return false;
        }
        i = i + 1;
    }
    true
}

/// Whether `v` holds the character `c`.
fn vec_has_char(v: &Vec<char>, c: char) -> (b: bool)
    ensures
        b == has_char(v@, c),
{
    let mut i: usize = 0;
    while i < v.len()
        invariant
            i <= v@.len(),
            forall|k: int| 0 <= k < i ==> v@[k] != c,
        decreases v@.len() - i,
    {
        if v[i] == c {
            return true;
        }
        i = i + 1;
    }
    false
}

/// Whether `v` holds two dots in a row.
fn vec_has_dot_dot(v: &Vec<char>) -> (b: bool)
    ensures
        b == has_dot_dot(v@),
{
    let n = v.len();
    if n < 2 {
        return false;
    }
    let mut i: usize = 0;
    while i < n - 1
        invariant
            n == v@.len(),
            n >= 2,
            forall|k: int| 0 <= k < i && k < v@.len() - 1 ==> !(#[trigger] v@[k] == '.' && v@[k + 1] == '.'),
        decreases v@.len() - i,
    {
        if v[i] == '.' && v[i + 1] == '.' {
            return true;
        }
        i = i + 1;
    }
    false
}

/// Builds `field` followed by `suffix`.
fn message(field: &str, suffix: &str) -> (s: String)
    ensures
        s@ == field@ + suffix@,
{
    let mut s = String::from_str(field);
    s.append(suffix);
    s
}

/// Validates Docker container or image reference names: not empty, at most
/// 128 bytes, and only ASCII letters, digits and `-_./:`.
pub fn validate_name(name: &str, field: &str) -> (r: Result<(), DockerMcpError>)
    ensures
        validation_outcome(r, name_problem(name@, field@)),
{
    if name.is_empty() {
        return Err(DockerMcpError::Validation(message(field, " must not be empty")));
    }
    if name.as_bytes().len() > MAX_NAME_LEN {
        return Err(DockerMcpError::Validation(message(field, " exceeds maximum length of 128")));
    }
    let cs = chars_of(name);
    if !all_name_chars(&cs) {
        return Err(DockerMcpError::Validation(message(field, " contains invalid characters")));
    }
    Ok(())
}

/// Validates filesystem paths used for compose files: not empty, at most
/// 4096 bytes, no NUL character and no `..`.
pub fn validate_compose_path(path: &str) -> (r: Result<(), DockerMcpError>)
    ensures
        validation_outcome(r, path_problem(path@)),
{
    if path.is_empty() {
        return Err(DockerMcpError::validation("path must not be empty"));
    }
    if path.as_bytes().len() > MAX_PATH_LEN {
        return Err(DockerMcpError::validation("path exceeds maximum length"));
    }
    let cs = chars_of(path);
    if vec_has_char(&cs, '\0') || vec_has_dot_dot(&cs) {
        return Err(DockerMcpError::validation("path contains forbidden sequences"));
    }
    Ok(())
}

/// Validates optional command arguments for container run: at most 32
/// arguments, each at most 512 bytes and without NUL.
pub fn validate_command_args(args: &[String]) -> (r: Result<(), DockerMcpError>)
    ensures
        validation_outcome(r, command_problem(args@)),
{
    if args.len() > MAX_CMD_ARGS {
        return Err(DockerMcpError::validation("command exceeds maximum of 32 arguments"));
    }
    let mut i: usize = 0;
    proof {
        assert(args@.skip(0) =~= args@);
    }
    while i < args.len()
        invariant
            i <= args@.len(),
            args@.len() <= MAX_CMD_ARGS,
            first_arg_problem(args@) == first_arg_problem(args@.skip(i as int)),
        decreases args@.len() - i,
    {
        let arg = &args[i];
        proof {
            assert(args@.skip(i as int)[0] == args@[i as int]);
            assert(args@.skip(i as int).drop_first() =~= args@.skip(i + 1));
        }
        if arg.as_str().as_bytes().len() > MAX_ARG_LEN {
            return Err(DockerMcpError::validation("command argument too long"));
        }
        let cs = chars_of(arg.as_str());
        if vec_has_char(&cs, '\0') {
            return Err(DockerMcpError::validation("command argument contains null byte"));
        }
        i = i + 1;
    }
    proof {
        assert(args@.skip(i as int) =~= Seq::<String>::empty());
    }
    Ok(())
}

/// Validates environment variables for container run: keys of 1 to 256
/// bytes made of ASCII letters, digits and `_`; values of at most 4096 bytes.
pub fn validate_env(env: &[(String, String)]) -> (r: Result<(), DockerMcpError>)
    ensures
        validation_outcome(r, env_problem(env@)),
{
    let mut i: usize = 0;
    proof {
        assert(env@.skip(0) =~= env@);
    }
    while i < env.len()
        invariant
            i <= env@.len(),
            env_problem(env@) == env_problem(env@.skip(i as int)),
        decreases env@.len() - i,
    {
        let key = env[i].0.as_str();
        let value = env[i].1.as_str();
        proof {
            assert(env@.skip(i as int)[0] == env@[i as int]);
            assert(env@.skip(i as int).drop_first() =~= env@.skip(i + 1));
        }
        if key.is_empty() || key.as_bytes().len() > MAX_ENV_KEY_LEN {
            return Err(DockerMcpError::validation("invalid environment variable key"));
        }
        if value.as_bytes().len() > MAX_ENV_VALUE_LEN {
            return Err(DockerMcpError::validation("environment variable value too long"));
        }
        let cs = chars_of(key);
        if !all_env_key_chars(&cs) {
            return Err(DockerMcpError::validation("environment key contains invalid characters"));
        }
        i = i + 1;
    }
    proof {
        assert(env@.skip(i as int) =~= Seq::<(String, String)>::empty());
    }
    Ok(())
}

/// Validates the number of log lines asked for: between 1 and 10000.
pub fn validate_log_tail(tail: u64) -> (r: Result<(), DockerMcpError>)
    ensures
        validation_outcome(r, tail_problem(tail)),
{
    if tail == 0 || tail > MAX_LOG_TAIL {
        return Err(DockerMcpError::validation("tail must be between 1 and 10000"));
    }
    Ok(())
}

} // verus!
