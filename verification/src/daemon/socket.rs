//! The control socket's protocol: the commands a client sends, the
//! responses the daemon returns, and where the socket lives.

use vstd::prelude::*;
use crate::notification::Notification;
use crate::text::{join_path, path_join};
use crate::config::opt_str_view;

verus! {

/// Commands the client can send to the daemon
#[derive(Debug)]
pub enum Command {
    Speak,
    Dnd { mode: String },
    Dismiss,
    Action,
    Status,
    History { count: Option<usize> },
}

impl Clone for Command {
    fn clone(&self) -> (c: Self)
        ensures
            c == *self,
    {
        match self {
            Command::Speak => Command::Speak,
            Command::Dnd { mode } => Command::Dnd { mode: mode.clone() },
            Command::Dismiss => Command::Dismiss,
            Command::Action => Command::Action,
            Command::Status => Command::Status,
            Command::History { count } => Command::History { count: *count },
        }
    }
}

impl PartialEq for Command {
    fn eq(&self, other: &Self) -> (r: bool) {
        match self {
            Command::Speak => match other {
                Command::Speak => true,
                _ => false,
            },
            Command::Dnd { mode: a } => match other {
                Command::Dnd { mode: b } => *a == *b,
                _ => false,
            },
            Command::Dismiss => match other {
                Command::Dismiss => true,
                _ => false,
            },
            Command::Action => match other {
                Command::Action => true,
                _ => false,
            },
            Command::Status => match other {
                Command::Status => true,
                _ => false,
            },
            Command::History { count: a } => match other {
                Command::History { count: b } => match a {
                    Some(x) => match b {
                        Some(y) => *x == *y,
                        None => false,
                    },
                    None => b.is_none(),
                },
                _ => false,
            },
        }
    }
}

impl Command {
    /// Two commands are the same command: same variant, same mode text,
    /// same count.
    pub open spec fn same(self, other: Command) -> bool {
        match (self, other) {
            (Command::Speak, Command::Speak) => true,
            (Command::Dnd { mode: a }, Command::Dnd { mode: b }) => a@ == b@,
            (Command::Dismiss, Command::Dismiss) => true,
            (Command::Action, Command::Action) => true,
            (Command::Status, Command::Status) => true,
            (Command::History { count: a }, Command::History { count: b }) => a == b,
            _ => false,
        }
    }
}

impl vstd::std_specs::cmp::PartialEqSpecImpl for Command {
    open spec fn obeys_eq_spec() -> bool {
        true
    }

    open spec fn eq_spec(&self, other: &Self) -> bool {
        self.same(*other)
    }
}

/// Responses the daemon sends back
#[derive(Debug)]
pub struct Response {
    pub ok: bool,
    pub dnd: Option<String>,
    pub error: Option<String>,
    pub status: Option<String>,
    pub history: Option<Vec<Notification>>,
}

impl Default for Response {
    fn default() -> (r: Self)
        ensures
            !r.ok,
            r.dnd is None,
            r.error is None,
            r.status is None,
            r.history is None,
    {
        Response { ok: false, dnd: None, error: None, status: None, history: None }
    }
}

impl Response {
    /// A success with nothing more to say.
    pub open spec fn is_plain_ok(self) -> bool {
        self.ok && self.dnd is None && self.error is None && self.status is None
            && self.history is None
    }

    /// A success that reports the Do Not Disturb mode `mode`.
    pub open spec fn is_ok_dnd(self, mode: Seq<char>) -> bool {
        &&& self.ok
        &&& self.dnd matches Some(d) && d@ == mode
        &&& self.error is None && self.status is None && self.history is None
    }

    /// A failure that carries the message `msg`.
    pub open spec fn is_err(self, msg: Seq<char>) -> bool {
        &&& !self.ok
        &&& self.error matches Some(e) && e@ == msg
        &&& self.dnd is None && self.status is None && self.history is None
    }

    /// A success that reports the status line `s`.
    pub open spec fn is_ok_status(self, s: Seq<char>) -> bool {
        &&& self.ok
        &&& self.status matches Some(t) && t@ == s
        &&& self.dnd is None && self.error is None && self.history is None
    }

    pub fn ok() -> (r: Self)
        ensures
            r.is_plain_ok(),
    {
        Self { ok: true, dnd: None, error: None, status: None, history: None }
    }

    pub fn ok_dnd(mode: &str) -> (r: Self)
        ensures
            r.is_ok_dnd(mode@),
    {
        Self { ok: true, dnd: Some(mode.to_owned()), error: None, status: None, history: None }
    }

    pub fn err(msg: &str) -> (r: Self)
        ensures
            r.is_err(msg@),
    {
        Self { ok: false, dnd: None, error: Some(msg.to_owned()), status: None, history: None }
    }

    pub fn ok_status(s: &str) -> (r: Self)
        ensures
            r.is_ok_status(s@),
    {
        Self { ok: true, dnd: None, error: None, status: Some(s.to_owned()), history: None }
    }

    pub fn ok_history(entries: Vec<Notification>) -> (r: Self)
        ensures
            r.ok,
            r.history == Some(entries),
            r.dnd is None && r.error is None && r.status is None,
    {
        Self { ok: true, dnd: None, error: None, status: None, history: Some(entries) }
    }
}

/// Where the control socket lives: `cooee.sock` in `$XDG_RUNTIME_DIR`, or
/// in `/tmp` when that is unset.
pub open spec fn spec_socket_path(xdg_runtime_dir: Option<Seq<char>>) -> Seq<char> {
    path_join(
        match xdg_runtime_dir {
            Some(d) => d,
            None => "/tmp"@,
        },
        "cooee.sock"@,
    )
}

/// The control socket's path, given the value of `$XDG_RUNTIME_DIR`.
pub fn socket_path_from(xdg_runtime_dir: Option<&str>) -> (p: String)
    ensures
        p@ == spec_socket_path(opt_str_view(xdg_runtime_dir)),
{
    match xdg_runtime_dir {
        Some(d) => join_path(d, "cooee.sock"),
        None => join_path("/tmp", "cooee.sock"),
    }
}

} // verus!
