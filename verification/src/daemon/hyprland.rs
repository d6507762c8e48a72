//! Finding Hyprland's control socket and reading the active monitor from
//! its answer. Talking to the socket is left to the caller.

use vstd::prelude::*;
use crate::config::opt_str_view;
use crate::text::{join_path, path_join};
use crate::json::{JsonMember, JsonMemberView, json_member, member_result_view, read_json_member};

verus! {

/// Where Hyprland's control socket lives for instance `signature`:
/// `hypr/<signature>/.socket.sock` under `$XDG_RUNTIME_DIR`, or under
/// `/tmp` when that is unset.
pub open spec fn spec_hyprland_socket_path(signature: Seq<char>, runtime: Option<Seq<char>>) -> Seq<char> {
    let base = match runtime {
        Some(r) => r,
        None => "/tmp"@,
    };
    path_join(path_join(path_join(base, "hypr"@), signature), ".socket.sock"@)
}

/// The socket path, given the values of `$HYPRLAND_INSTANCE_SIGNATURE` and
/// `$XDG_RUNTIME_DIR`; none when no Hyprland instance is named.
pub fn hyprland_socket_path_from(signature: Option<&str>, xdg_runtime_dir: Option<&str>) -> (p: Option<String>)
    ensures
        p is Some <==> signature is Some,
        p matches Some(q) ==> q@ == spec_hyprland_socket_path(
            signature->0@,
            opt_str_view(xdg_runtime_dir),
        ),
{
    let sig = match signature {
        Some(s) => s,
        None => {
            return None;
        },
    };
    let runtime = match xdg_runtime_dir {
        Some(r) => r.to_owned(),
        None => "/tmp".to_owned(),
    };
    let a = join_path(runtime.as_str(), "hypr");
    let b = join_path(a.as_str(), sig);
    Some(join_path(b.as_str(), ".socket.sock"))
}

/// Why the active monitor could not be read from Hyprland's answer.
#[derive(Debug, Clone, Copy, PartialEq, Eq, Structural)]
pub enum HyprlandError {
    /// The answer is not JSON.
    InvalidJson,
    /// The answer has no string member `monitor`.
    MissingMonitor,
}

impl HyprlandError {
    pub open spec fn text(self) -> Seq<char> {
        match self {
            HyprlandError::InvalidJson => "parsing Hyprland workspace JSON"@,
            HyprlandError::MissingMonitor => "'monitor' field missing from Hyprland response"@,
        }
    }

    /// The error's message.
    pub fn message(&self) -> (s: String)
        ensures
            s@ == self.text(),
    {
        match self {
            HyprlandError::InvalidJson => "parsing Hyprland workspace JSON".to_owned(),
            HyprlandError::MissingMonitor => "'monitor' field missing from Hyprland response".to_owned(),
        }
    }
}

/// The monitor name from the `monitor` member as the JSON reader found it:
/// an error when the text is not JSON or the member is not a string.
pub open spec fn spec_monitor_from_member(member: Result<JsonMemberView, Seq<char>>) -> Result<Seq<char>, HyprlandError> {
    match member {
        Err(_) => Err(HyprlandError::InvalidJson),
        Ok(JsonMemberView::Str(name)) => Ok(name),
        Ok(_) => Err(HyprlandError::MissingMonitor),
    }
}

/// Turns the `monitor` member, as the JSON reader found it, into the
/// monitor's name or the reason there is none.
pub fn monitor_from_member(member: Result<JsonMember, String>) -> (r: Result<String, HyprlandError>)
    ensures
        match (r, spec_monitor_from_member(member_result_view(member))) {
            (Ok(a), Ok(b)) => a@ == b,
            (Err(a), Err(b)) => a == b,
            _ => false,
        },
{
    match member {
        Err(_) => Err(HyprlandError::InvalidJson),
        Ok(JsonMember::Str(name)) => Ok(name),
        Ok(_) => Err(HyprlandError::MissingMonitor),
    }
}

/// Reads the active monitor's connector name from Hyprland's
/// `activeworkspace` answer in JSON.
pub fn parse_monitor_from_workspace_json(json: &str) -> (r: Result<String, HyprlandError>)
    ensures
        match (r, spec_monitor_from_member(json_member(json@, "monitor"@))) {
            (Ok(a), Ok(b)) => a@ == b,
            (Err(a), Err(b)) => a == b,
            _ => false,
        },
{
    let member = read_json_member(json, "monitor");
    monitor_from_member(member)
}

} // verus!
