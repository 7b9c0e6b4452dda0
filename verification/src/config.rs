//! Configuration of the application from its environment variables. The
//! application reads the variables; this module decides what their values
//! mean, with the defaults where a variable is not set.

use crate::text::{chars_of, parse_int, parse_integer, push_str};
use vstd::prelude::*;

verus! {

/// `std::io::Error`, an error of the operating system.
#[verifier::external_type_specification]
#[verifier::external_body]
pub struct ExIoError(std::io::Error);

/// Environment variable naming the database directory (an absolute path).
pub const ENV_DATA_DIR: &'static str = "QUEST_LOG_DATA_DIR";

/// Environment variable naming the server port.
pub const ENV_PORT: &'static str = "PORT";

/// Environment variable holding the editor's password hash.
pub const ENV_EDITOR_PASSWORD_HASH: &'static str = "QUEST_LOG_EDITOR_PASSWORD_HASH";

/// Environment variable holding the editor session duration in hours.
pub const ENV_EDITOR_SESSION_DURATION_HOURS: &'static str = "QUEST_LOG_EDITOR_SESSION_DURATION_HOURS";

/// Environment variable overriding today's date (debug builds).
pub const ENV_TODAY: &'static str = "QUEST_LOG_TODAY";

/// Environment variable that enables the test endpoints.
pub const ENV_ENABLE_TEST_ENDPOINTS: &'static str = "ENABLE_TEST_ENDPOINTS";

/// Port used where none is configured.
pub const DEFAULT_PORT_VALUE: &'static str = "3000";

/// Session duration in hours used where none is configured.
pub const DEFAULT_SESSION_DURATION: u64 = 24;

/// Data directory used where none is configured: the working directory.
pub const DEFAULT_DATA_DIR_VALUE: &'static str = ".";

/// Configuration errors.
#[derive(Debug)]
pub enum ConfigError {
    /// The path must be absolute: the variable's name and what was found.
    NotAbsolute(String, String),
    /// Failed to create the directory.
    DirectoryCreation(String, std::io::Error),
    /// Invalid port value.
    InvalidPort(String),
    /// Failed to get the current directory.
    CurrentDirectory(std::io::Error),
}

impl ConfigError {
    /// The text of the error (its `Display` in the application), for the
    /// variants that carry text only; the others also show their I/O error,
    /// which the application adds.
    pub fn to_text(&self) -> (s: String)
        ensures
            match *self {
                ConfigError::NotAbsolute(name, got) => s@ == name@ + " must be an absolute path, got: "@
                    + got@,
                ConfigError::DirectoryCreation(path, _) => s@ == "failed to create directory "@
                    + path@,
                ConfigError::InvalidPort(p) => s@ == "invalid port: "@ + p@,
                ConfigError::CurrentDirectory(_) => s@ == "failed to get current directory"@,
            },
    {
        let mut s = String::new();
        match self {
            ConfigError::NotAbsolute(name, got) => {
                push_str(&mut s, name.as_str());
                push_str(&mut s, " must be an absolute path, got: ");
                push_str(&mut s, got.as_str());
            },
            ConfigError::DirectoryCreation(path, _) => {
                push_str(&mut s, "failed to create directory ");
                push_str(&mut s, path.as_str());
            },
            ConfigError::InvalidPort(p) => {
                push_str(&mut s, "invalid port: ");
                push_str(&mut s, p.as_str());
            },
            ConfigError::CurrentDirectory(_) => {
                push_str(&mut s, "failed to get current directory");
            },
        }
        s
    }
}

/// The port text in effect: the configured one, else `3000`.
pub open spec fn port_text(configured: Option<Seq<char>>) -> Seq<char> {
    match configured {
        Some(p) => p,
        None => "3000"@,
    }
}

/// The server port: the value of `PORT` read as a `u16`, or `3000` where
/// `PORT` is not set; a value that does not parse is an invalid port.
pub fn port(configured: Option<&str>) -> (r: Result<u16, ConfigError>)
    ensures
        match parse_int(port_text(crate::dates::opt_str_view(configured)), 0, u16::MAX as int) {
            Some(v) => r matches Ok(p) && p == v,
            None => (r matches Err(ConfigError::InvalidPort(p)) && p@ == port_text(
                crate::dates::opt_str_view(configured),
            )),
        },
{
    let text = match configured {
        Some(p) => p,
        None => DEFAULT_PORT_VALUE,
    };
    let cs = chars_of(text);
    match parse_integer(&cs, 0, u16::MAX as i128) {
        Some(v) => Ok(v as u16),
        None => Err(ConfigError::InvalidPort(text.to_owned())),
    }
}

/// The session duration in hours: `QUEST_LOG_EDITOR_SESSION_DURATION_HOURS`
/// read as a `u64`, else 24.
pub open spec fn session_hours_of(configured: Option<Seq<char>>) -> int {
    match configured {
        Some(s) => match parse_int(s, 0, u64::MAX as int) {
            Some(h) => h,
            None => DEFAULT_SESSION_DURATION as int,
        },
        None => DEFAULT_SESSION_DURATION as int,
    }
}

/// The editor session duration in hours.
pub fn editor_session_duration_hours(configured: Option<&str>) -> (h: u64)
    ensures
        h == session_hours_of(crate::dates::opt_str_view(configured)),
{
    match configured {
        Some(s) => {
            let cs = chars_of(s);
            match parse_integer(&cs, 0, u64::MAX as i128) {
                Some(h) => h as u64,
                None => DEFAULT_SESSION_DURATION,
            }
        },
        None => DEFAULT_SESSION_DURATION,
    }
}

/// A path is absolute where it starts at the root, `/`.
pub open spec fn is_absolute_path(path: Seq<char>) -> bool {
    path.len() > 0 && path[0] == '/'
}

/// Checks the data directory: an absolute path is the directory; any
/// other is refused, naming the variable and showing the path and the
/// working directory `cwd` against which it would have been read.
pub fn check_data_dir(path: &str, cwd: &str) -> (r: Result<String, ConfigError>)
    ensures
        is_absolute_path(path@) ==> (r matches Ok(p) && p@ == path@),
        !is_absolute_path(path@) ==> (r matches Err(ConfigError::NotAbsolute(name, got)) && name@
            == "QUEST_LOG_DATA_DIR"@ && got@ == path@ + ". CWD would be: "@ + cwd@),
{
    let cs = chars_of(path);
    if cs.len() > 0 && cs[0] == '/' {
        return Ok(path.to_owned());
    }
    let mut got = String::new();
    push_str(&mut got, path);
    push_str(&mut got, ". CWD would be: ");
    push_str(&mut got, cwd);
    Err(ConfigError::NotAbsolute(ENV_DATA_DIR.to_owned(), got))
}

/// Whether the test endpoints are enabled: `ENABLE_TEST_ENDPOINTS` is `1`.
pub fn test_endpoints_enabled(configured: Option<&str>) -> (b: bool)
    ensures
        b == (configured matches Some(v) && v@ == "1"@),
{
    match configured {
        Some(v) => crate::text::str_eq(v, "1"),
        None => false,
    }
}

/// The first file descriptor that systemd passes for socket activation.
pub const LISTEN_FDS_START: i32 = 3;

/// How many sockets systemd passed, from `LISTEN_FDS` and `LISTEN_PID`: the
/// count where the process id is ours and the count is a positive `i32`,
/// else none.
pub open spec fn listen_fd_count(fds: Option<Seq<char>>, pid: Option<Seq<char>>, own_pid: u32) -> Option<int> {
    match (fds, pid) {
        (Some(f), Some(p)) => if parse_int(p, 0, u32::MAX as int) == Some(own_pid as int) {
            match parse_int(f, i32::MIN as int, i32::MAX as int) {
                Some(n) => if n > 0 {
                    Some(n)
                } else {
                    None
                },
                None => None,
            }
        } else {
            None
        },
        _ => None,
    }
}

/// The file descriptors that systemd passed for socket activation, given
/// `LISTEN_FDS`, `LISTEN_PID` and our process id: `n` descriptors from 3 on
/// for a count `n`, none where nothing was passed to this process. `None`
/// where the last descriptor would not fit in an `i32`.
pub fn listen_fd_list(fds: Option<&str>, pid: Option<&str>, own_pid: u32) -> (r: Option<Vec<i32>>)
    ensures
        match listen_fd_count(crate::dates::opt_str_view(fds), crate::dates::opt_str_view(pid), own_pid) {
            None => r matches Some(v) && v@.len() == 0,
            Some(n) => if n + 2 <= i32::MAX {
                r matches Some(v) && v@.len() == n && forall|i: int| 0 <= i < n ==> #[trigger] v@[i]
                    == 3 + i
            } else {
                r is None
            },
        },
{
    let empty: Vec<i32> = Vec::new();
    let (f, p) = match (fds, pid) {
        (Some(f), Some(p)) => (f, p),
        _ => return Some(empty),
    };
    match parse_integer(&chars_of(p), 0, u32::MAX as i128) {
        Some(v) => {
            if v != own_pid as i128 {
                return Some(empty);
            }
        },
        None => return Some(empty),
    }
    let n: i32 = match parse_integer(&chars_of(f), i32::MIN as i128, i32::MAX as i128) {
        Some(v) => {
            if v <= 0 {
                return Some(empty);
            }
            v as i32
        },
        None => return Some(empty),
    };
    if n > i32::MAX - 2 {
        return None;
    }
    let mut out: Vec<i32> = Vec::new();
    let mut i: i32 = 0;
    while i < n
        invariant
            0 <= i <= n,
            n + 2 <= i32::MAX,
            out@.len() == i,
            forall|k: int| 0 <= k < i ==> #[trigger] out@[k] == 3 + k,
        decreases n - i,
    {
        out.push(LISTEN_FDS_START + i);
        i += 1;
    }
    Some(out)
}

} // verus!
