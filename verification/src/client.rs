//! The client side of the control socket: which socket command a
//! subcommand sends.

use vstd::prelude::*;
use crate::daemon::socket::Command as SocketCommand;
use crate::json::{JsonMember, JsonMemberView, json_member, member_result_view, read_json_member};
use crate::text::{push_char, trim_whitespace, trimmed};
use crate::notification::{string_views, Urgency};

verus! {

/// Why a subcommand has no socket command.
#[derive(Debug, Clone, Copy, PartialEq, Eq, Structural)]
pub enum ClientError {
    /// `daemon` starts the daemon and is never sent to one.
    DaemonCommand,
}

impl ClientError {
    pub open spec fn text(self) -> Seq<char> {
        "translate_command called with Daemon variant"@
    }

    /// The error's message.
    pub fn message(&self) -> (s: String)
        ensures
            s@ == self.text(),
    {
        "translate_command called with Daemon variant".to_owned()
    }
}

/// The socket command a subcommand sends: `dnd` without a mode asks for
/// the status; `daemon` has none.
pub open spec fn spec_translate(cmd: crate::Command, sent: SocketCommand) -> bool {
    match cmd {
        crate::Command::Speak => sent is Speak,
        crate::Command::Dnd { mode } => sent matches SocketCommand::Dnd { mode: m } && m@ == (
        match mode {
            Some(x) => x@,
            None => "status"@,
        }),
        crate::Command::Dismiss => sent is Dismiss,
        crate::Command::Action => sent is Action,
        crate::Command::Status => sent is Status,
        crate::Command::History { last } => sent matches SocketCommand::History { count } && count == last,
        crate::Command::Daemon => false,
    }
}

pub fn translate_command(cmd: crate::Command) -> (r: Result<SocketCommand, ClientError>)
    ensures
        r is Err <==> cmd is Daemon,
        r matches Ok(sent) ==> spec_translate(cmd, sent),
        r matches Err(e) ==> e == ClientError::DaemonCommand,
{
    match cmd {
        crate::Command::Speak => Ok(SocketCommand::Speak),
        crate::Command::Dnd { mode } => {
            let m = match mode {
                Some(x) => x,
                None => "status".to_owned(),
            };
            Ok(SocketCommand::Dnd { mode: m })
        },
        crate::Command::Dismiss => Ok(SocketCommand::Dismiss),
        crate::Command::Action => Ok(SocketCommand::Action),
        crate::Command::Status => Ok(SocketCommand::Status),
        crate::Command::History { last } => Ok(SocketCommand::History { count: last }),
        crate::Command::Daemon => Err(ClientError::DaemonCommand),
    }
}

/// What the client prints for the daemon's response: the line for
/// standard error when the daemon reports a failure (the client then exits
/// with status 1), and the lines for standard output otherwise.
#[derive(Debug)]
pub struct ClientReport {
    pub failure: Option<String>,
    pub lines: Vec<String>,
}

/// The text of a string member, if the member is one.
pub open spec fn member_str(m: Result<JsonMemberView, Seq<char>>) -> Option<Seq<char>> {
    match m {
        Ok(JsonMemberView::Str(s)) => Some(s),
        _ => None,
    }
}

/// The view of a member lookup's result that was read.
pub open spec fn report_view(r: Result<ClientReport, String>) -> Result<(Option<Seq<char>>, Seq<Seq<char>>), Seq<char>> {
    match r {
        Ok(rep) => Ok(
            (
                match rep.failure {
                    Some(f) => Some(f@),
                    None => None,
                },
                string_views(rep.lines@),
            ),
        ),
        Err(e) => Err(e@),
    }
}

/// What the client prints, from the members `ok`, `error`, `dnd` and
/// `status` of the response as the JSON reader found them: the parser's
/// message when the response is not JSON; a failure with the `error` (or
/// `unknown error`) when `ok` is `false`; otherwise the `dnd` mode, when it
/// is a string, as `DND mode: <mode>`, then the `status`, when it is a
/// string.
pub open spec fn spec_report(
    ok: Result<JsonMemberView, Seq<char>>,
    error: Result<JsonMemberView, Seq<char>>,
    dnd: Result<JsonMemberView, Seq<char>>,
    status: Result<JsonMemberView, Seq<char>>,
) -> Result<(Option<Seq<char>>, Seq<Seq<char>>), Seq<char>> {
    match ok {
        Err(e) => Err(e),
        Ok(JsonMemberView::Bool(false)) => Ok(
            (
                Some(
                    "cooee: "@ + match member_str(error) {
                        Some(e) => e,
                        None => "unknown error"@,
                    },
                ),
                Seq::empty(),
            ),
        ),
        Ok(_) => Ok(
            (
                None,
                (match member_str(dnd) {
                    Some(d) => seq!["DND mode: "@ + d],
                    None => Seq::empty(),
                }) + (match member_str(status) {
                    Some(st) => seq![st],
                    None => Seq::empty(),
                }),
            ),
        ),
    }
}

/// Decides what the client prints from the response's members `ok`,
/// `error`, `dnd` and `status` as the JSON reader found them.
pub fn report_from_members(
    ok: Result<JsonMember, String>,
    error: Result<JsonMember, String>,
    dnd: Result<JsonMember, String>,
    status: Result<JsonMember, String>,
) -> (r: Result<ClientReport, String>)
    ensures
        report_view(r) == spec_report(
            member_result_view(ok),
            member_result_view(error),
            member_result_view(dnd),
            member_result_view(status),
        ),
{
    match ok {
        Err(e) => {
            return Err(e);
        },
        Ok(JsonMember::Bool(false)) => {
            let err = match error {
                Ok(JsonMember::Str(e)) => e,
                _ => "unknown error".to_owned(),
            };
            let mut f = "cooee: ".to_owned();
            f.append(err.as_str());
            let lines: Vec<String> = Vec::new();
            proof {
                assert(string_views(lines@) =~= Seq::<Seq<char>>::empty());
            }
            return Ok(ClientReport { failure: Some(f), lines });
        },
        Ok(_) => {},
    }
    let mut lines: Vec<String> = Vec::new();
    if let Ok(JsonMember::Str(d)) = dnd {
        let mut l = "DND mode: ".to_owned();
        l.append(d.as_str());
        lines.push(l);
    }
    let ghost after_dnd = string_views(lines@);
    if let Ok(JsonMember::Str(st)) = status {
        lines.push(st);
    }
    proof {
        let dnd_lines = match member_str(member_result_view(dnd)) {
            Some(d) => seq!["DND mode: "@ + d],
            None => Seq::<Seq<char>>::empty(),
        };
        assert(after_dnd =~= dnd_lines);
        assert(string_views(lines@) =~= dnd_lines + match member_str(member_result_view(status)) {
            Some(st) => seq![st],
            None => Seq::<Seq<char>>::empty(),
        });
    }
    Ok(ClientReport { failure: None, lines })
}

/// Reads the daemon's one-line JSON response, trimmed of surrounding
/// whitespace, and decides what to print; fails with the parser's message
/// when the line is not JSON.
pub fn report_response(line: &str) -> (r: Result<ClientReport, String>)
    ensures
        report_view(r) == spec_report(
            json_member(trimmed(line@), "ok"@),
            json_member(trimmed(line@), "error"@),
            json_member(trimmed(line@), "dnd"@),
            json_member(trimmed(line@), "status"@),
        ),
{
    let text = trim_whitespace(line);
    let ok = read_json_member(text.as_str(), "ok");
    let error = read_json_member(text.as_str(), "error");
    let dnd = read_json_member(text.as_str(), "dnd");
    let status = read_json_member(text.as_str(), "status");
    report_from_members(ok, error, dnd, status)
}

/// `s` padded with spaces on the right to `width` characters; longer
/// text is kept whole.
pub open spec fn padded(s: Seq<char>, width: nat) -> Seq<char> {
    if s.len() >= width {
        s
    } else {
        s + Seq::new((width - s.len()) as nat, |i: int| ' ')
    }
}

/// Appends `s` padded with spaces to `width` characters.
fn push_padded(out: &mut String, s: &str, width: usize)
    ensures
        final(out)@ == old(out)@ + padded(s@, width as nat),
{
    out.append(s);
    let n = s.unicode_len();
    let mut k: usize = n;
    let ghost base = old(out)@ + s@;
    proof {
        assert(out@ =~= base + Seq::new(0, |i: int| ' '));
    }
    while k < width
        invariant
            n == s@.len(),
            out@ == base + Seq::new((k - n) as nat, |i: int| ' '),
            k >= n,
            n >= width ==> k == n,
            n < width ==> k <= width,
        decreases width - k,
    {
        push_char(out, ' ');
        proof {
            assert(out@ =~= base + Seq::new((k + 1 - n) as nat, |i: int| ' '));
        }
        k = k + 1;
    }
    proof {
        if n >= width {
            assert(out@ =~= base);
        } else {
            assert(out@ =~= old(out)@ + padded(s@, width as nat));
        }
    }
}

/// One line of `cooee history`: the time in brackets, the application's
/// name padded to 14 characters, the urgency in parentheses padded to 10
/// characters, and the summary, each separated by a space.
pub open spec fn spec_history_line(time: Seq<char>, app_name: Seq<char>, urgency: Urgency, summary: Seq<char>) -> Seq<char> {
    "["@ + time + "] "@ + padded(app_name, 14) + " "@ + padded("("@ + urgency.name() + ")"@, 10)
        + " "@ + summary
}

/// Formats one history entry for `cooee history`, newest entries first
/// being the caller's order; `time` is the entry's local time of day.
pub fn history_line(time: &str, app_name: &str, urgency: Urgency, summary: &str) -> (line: String)
    ensures
        line@ == spec_history_line(time@, app_name@, urgency, summary@),
{
    let mut line = "[".to_owned();
    line.append(time);
    line.append("] ");
    push_padded(&mut line, app_name, 14);
    line.append(" ");
    let mut u = "(".to_owned();
    let name = urgency.to_string();
    u.append(name.as_str());
    u.append(")");
    push_padded(&mut line, u.as_str(), 10);
    line.append(" ");
    line.append(summary);
    line
}

} // verus!
