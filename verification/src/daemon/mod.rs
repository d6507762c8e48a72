//! The daemon's decisions: state, socket protocol, speech, action picking,
//! D-Bus notification handling, Hyprland queries and popup layout.

pub mod action_picker;
pub mod dbus;
pub mod hyprland;
pub mod socket;
pub mod state;
pub mod tts;
pub mod ui;

use vstd::prelude::*;
use crate::config::{ActionsConfig, DndMode, TtsConfig};
use crate::notification::{Action, Notification, action_views};
use crate::text::same_text;
use self::action_picker::PickError;
use self::socket::{Command, Response};
use self::state::{AppState, dnd_name, next_dnd, notification_views, spec_newest_first};
use self::tts::{TtsClient, Utterance, utterance_for};

verus! {

/// What the daemon does for a control command, beyond changing its state.
#[derive(Debug)]
pub enum CommandOutcome {
    /// Send this response.
    Reply(Response),
    /// Speak (when there is something to say), then send the response.
    Speak { utterance: Option<Utterance>, reply: Response },
    /// Dismiss the newest popup, then send the response.
    Dismiss { reply: Response },
    /// Show the picker over `actions` of notification `id`; `action_reply`
    /// turns its outcome into the response.
    PickAction { id: u32, picker: String, actions: Vec<Action> },
}

/// The mode a `dnd` command asks for, from the current mode: `off`,
/// `silent` and `full` name a mode, `toggle` asks for the next one in the
/// cycle; anything else is no mode.
pub open spec fn dnd_request(mode: Seq<char>, current: DndMode) -> Option<DndMode> {
    if mode == "off"@ {
        Some(DndMode::Off)
    } else if mode == "silent"@ {
        Some(DndMode::Silent)
    } else if mode == "full"@ {
        Some(DndMode::Full)
    } else if mode == "toggle"@ {
        Some(next_dnd(current))
    } else {
        None
    }
}

/// `cooee dnd off|silent|full` sets that mode whatever the current one;
/// `toggle` moves along the cycle off, silent, full, off; `status` and
/// every other word ask for no mode.
pub proof fn lemma_dnd_words(current: DndMode, other: Seq<char>)
    requires
        other != "off"@ && other != "silent"@ && other != "full"@ && other != "toggle"@,
    ensures
        dnd_request("off"@, current) == Some(DndMode::Off),
        dnd_request("silent"@, current) == Some(DndMode::Silent),
        dnd_request("full"@, current) == Some(DndMode::Full),
        dnd_request("toggle"@, DndMode::Off) == Some(DndMode::Silent),
        dnd_request("toggle"@, DndMode::Silent) == Some(DndMode::Full),
        dnd_request("toggle"@, DndMode::Full) == Some(DndMode::Off),
        dnd_request("status"@, current) is None,
        dnd_request(other, current) is None,
{
    reveal_strlit("off");
    reveal_strlit("silent");
    reveal_strlit("full");
    reveal_strlit("toggle");
    reveal_strlit("status");
    assert("off"@.len() != "silent"@.len());
    assert("off"@.len() != "full"@.len());
    assert("silent"@.len() != "full"@.len());
    assert("off"@.len() != "toggle"@.len());
    assert("full"@.len() != "toggle"@.len());
    assert("silent"@[0] != "toggle"@[0]);
    assert("status"@.len() != "off"@.len());
    assert("status"@[1] != "silent"@[1]);
    assert("status"@.len() != "full"@.len());
    assert("status"@[0] != "toggle"@[0]);
}

/// The text `speak` reads for a notification: its body, or its summary
/// when the body is empty.
pub open spec fn spoken_text(n: Notification) -> Seq<char> {
    if n.body@.len() == 0 {
        n.summary@
    } else {
        n.body@
    }
}

/// The state of the daemon is the same apart from its Do Not Disturb mode.
pub open spec fn same_but_dnd(a: AppState, b: AppState) -> bool {
    &&& a.last_notification == b.last_notification
    &&& a.next_id == b.next_id
    &&& a.history == b.history
    &&& a.history_max == b.history_max
}

/// What `cmd` is answered, and how the state changes: only `dnd` with a
/// mode changes the Do Not Disturb mode, and nothing else changes.
pub open spec fn command_spec(
    cmd: Command,
    before: AppState,
    after: AppState,
    tts: TtsConfig,
    actions_cfg: ActionsConfig,
    out: CommandOutcome,
) -> bool {
    &&& same_but_dnd(before, after)
    &&& match cmd {
        Command::Speak => {
            &&& after.dnd_mode == before.dnd_mode
            &&& match before.last_notification {
                None => out matches CommandOutcome::Reply(r) && r.is_err(
                    "no notification to speak"@,
                ),
                Some(n) => out matches CommandOutcome::Speak { utterance, reply } && reply.is_plain_ok()
                    && (utterance is Some <==> tts.enabled) && (utterance matches Some(u)
                    ==> utterance_for(tts, spoken_text(n), u)),
            }
        },
        Command::Dnd { mode } => if mode@ == "status"@ {
            &&& after.dnd_mode == before.dnd_mode
            &&& out matches CommandOutcome::Reply(r) && r.is_ok_dnd(dnd_name(before.dnd_mode))
        } else {
            match dnd_request(mode@, before.dnd_mode) {
                Some(m) => after.dnd_mode == m && (out matches CommandOutcome::Reply(r)
                    && r.is_ok_dnd(dnd_name(m))),
                None => after.dnd_mode == before.dnd_mode && (out matches CommandOutcome::Reply(r)
                    && r.is_err("unknown DND mode: use off, silent, full, or toggle"@)),
            }
        },
        Command::Dismiss => after.dnd_mode == before.dnd_mode
            && (out matches CommandOutcome::Dismiss { reply } && reply.is_plain_ok()),
        Command::Action => {
            &&& after.dnd_mode == before.dnd_mode
            &&& match before.last_notification {
                None => out matches CommandOutcome::Reply(r) && r.is_err(
                    "no notification to act on"@,
                ),
                Some(n) => if n.actions@.len() == 0 {
                    out matches CommandOutcome::Reply(r) && r.is_err(
                        "last notification has no actions"@,
                    )
                } else {
                    out matches CommandOutcome::PickAction { id, picker, actions } && id == n.id
                        && picker@ == actions_cfg.picker@ && action_views(actions@)
                        == action_views(n.actions@)
                },
            }
        },
        Command::Status => after.dnd_mode == before.dnd_mode
            && (out matches CommandOutcome::Reply(r) && r.is_ok_status(
            "running | DND: "@ + dnd_name(before.dnd_mode),
        )),
        Command::History { count } => {
            &&& after.dnd_mode == before.dnd_mode
            &&& out matches CommandOutcome::Reply(r)
            &&& r.ok && r.dnd is None && r.error is None && r.status is None
            &&& r.history matches Some(h) && notification_views(h@) == notification_views(
                spec_newest_first(before.history@, count),
            )
        },
    }
}

/// Decides how the daemon answers a control command, changing its state
/// as the command asks.
pub fn handle_command(
    cmd: Command,
    state: &mut AppState,
    tts: &TtsConfig,
    actions_cfg: &ActionsConfig,
) -> (out: CommandOutcome)
    ensures
        command_spec(cmd, *old(state), *final(state), *tts, *actions_cfg, out),
        old(state).well_formed() ==> final(state).well_formed(),
{
    match cmd {
        Command::Speak => match &state.last_notification {
            None => CommandOutcome::Reply(Response::err("no notification to speak")),
            Some(n) => {
                let client = TtsClient::new(tts.clone());
                let utterance = if n.body.as_str().is_empty() {
                    client.speak_body(n.summary.as_str())
                } else {
                    client.speak_body(n.body.as_str())
                };
                CommandOutcome::Speak { utterance, reply: Response::ok() }
            },
        },
        Command::Dnd { mode } => {
            if same_text(mode.as_str(), "status") {
                return CommandOutcome::Reply(Response::ok_dnd(state.dnd_mode_str()));
            }
            if same_text(mode.as_str(), "off") {
                state.set_dnd(DndMode::Off);
            } else if same_text(mode.as_str(), "silent") {
                state.set_dnd(DndMode::Silent);
            } else if same_text(mode.as_str(), "full") {
                state.set_dnd(DndMode::Full);
            } else if same_text(mode.as_str(), "toggle") {
                state.toggle_dnd();
            } else {
                return CommandOutcome::Reply(
                    Response::err("unknown DND mode: use off, silent, full, or toggle"),
                );
            }
            CommandOutcome::Reply(Response::ok_dnd(state.dnd_mode_str()))
        },
        Command::Dismiss => CommandOutcome::Dismiss { reply: Response::ok() },
        Command::Action => match &state.last_notification {
            None => CommandOutcome::Reply(Response::err("no notification to act on")),
            Some(n) => {
                if n.actions.len() == 0 {
                    return CommandOutcome::Reply(Response::err("last notification has no actions"));
                }
                let actions = clone_action_list(&n.actions);
                CommandOutcome::PickAction { id: n.id, picker: actions_cfg.picker.clone(), actions }
            },
        },
        Command::Status => {
            let mut status = "running | DND: ".to_owned();
            status.append(state.dnd_mode_str());
            CommandOutcome::Reply(Response::ok_status(status.as_str()))
        },
        Command::History { count } => {
            let entries = state.get_history(count);
            let mut owned: Vec<Notification> = Vec::new();
            let mut i: usize = 0;
            while i < entries.len()
                invariant
                    i <= entries@.len(),
                    owned@.len() == i,
                    forall|j: int| 0 <= j < i ==> #[trigger] owned@[j]@ == (*entries@[j])@,
                decreases entries@.len() - i,
            {
                owned.push(entries[i].clone());
                i = i + 1;
            }
            proof {
                assert(notification_views(owned@) =~= notification_views(
                    spec_newest_first(state.history@, count),
                ));
            }
            CommandOutcome::Reply(Response::ok_history(owned))
        },
    }
}

/// A mode that is set is the mode reported: after a `dnd` command that
/// names a mode or toggles, asking for the status reports the new mode
/// and changes nothing.
pub proof fn lemma_dnd_set_then_status(
    s0: AppState,
    s1: AppState,
    s2: AppState,
    mode: String,
    query: String,
    tts: TtsConfig,
    actions_cfg: ActionsConfig,
    o1: CommandOutcome,
    o2: CommandOutcome,
)
    requires
        mode@ != "status"@,
        dnd_request(mode@, s0.dnd_mode) is Some,
        query@ == "status"@,
        command_spec(Command::Dnd { mode }, s0, s1, tts, actions_cfg, o1),
        command_spec(Command::Dnd { mode: query }, s1, s2, tts, actions_cfg, o2),
    ensures
        s1.dnd_mode == dnd_request(mode@, s0.dnd_mode)->0,
        o2 matches CommandOutcome::Reply(r) && r.is_ok_dnd(dnd_name(s1.dnd_mode)),
        s2.dnd_mode == s1.dnd_mode,
{
}

/// What `speak` reads is the last notification received: after a
/// `Notify` call that is not dropped by Do Not Disturb, `speak` reads that
/// notification's body, or its summary when the body is empty, with the
/// configured voice and rate, and changes nothing.
pub proof fn lemma_speak_reads_last_notification(
    s0: AppState,
    s1: AppState,
    s2: AppState,
    req: self::dbus::NotifyRequest,
    tts: TtsConfig,
    actions_cfg: ActionsConfig,
    o1: self::dbus::NotifyOutcome,
    o2: CommandOutcome,
)
    requires
        s0.dnd_mode != DndMode::Full,
        self::dbus::notify_spec(s0, s1, req, tts, o1),
        command_spec(Command::Speak, s1, s2, tts, actions_cfg, o2),
        tts.enabled,
    ensures
        o2 matches CommandOutcome::Speak { utterance, reply } && reply.is_plain_ok() && (
        utterance matches Some(u) && utterance_for(
            tts,
            if req.body@.len() == 0 {
                req.summary@
            } else {
                req.body@
            },
            u,
        )),
        s2.dnd_mode == s1.dnd_mode && same_but_dnd(s1, s2),
{
}

/// The picker is offered the actions of the last notification received:
/// after a `Notify` call with at least one action pair that is not dropped
/// by Do Not Disturb, `action` asks for the picker over those actions, for
/// that notification's id.
pub proof fn lemma_action_offers_last_actions(
    s0: AppState,
    s1: AppState,
    s2: AppState,
    req: self::dbus::NotifyRequest,
    tts: TtsConfig,
    actions_cfg: ActionsConfig,
    o1: self::dbus::NotifyOutcome,
    o2: CommandOutcome,
)
    requires
        s0.dnd_mode != DndMode::Full,
        req.actions@.len() >= 2,
        self::dbus::notify_spec(s0, s1, req, tts, o1),
        command_spec(Command::Action, s1, s2, tts, actions_cfg, o2),
    ensures
        o1 matches self::dbus::NotifyOutcome::Shown { id, .. } && o2 matches CommandOutcome::PickAction {
            id: pick_id,
            picker,
            actions,
        } && pick_id == id && picker@ == actions_cfg.picker@ && action_views(actions@)
            == crate::notification::spec_parse_actions(
            crate::notification::string_views(req.actions@),
        ),
{
    if let Some(last) = s1.last_notification {
        let parsed = crate::notification::spec_parse_actions(
            crate::notification::string_views(req.actions@),
        );
        assert(parsed.len() >= 1);
        assert(action_views(last.actions@).len() == last.actions@.len());
        assert(last.actions@.len() >= 1);
    }
}

/// The newest history entry is the last notification received: after a
/// `Notify` call that replaces nothing and is not dropped by Do Not
/// Disturb, with history enabled, asking for one history entry gives that
/// notification.
pub proof fn lemma_history_shows_last_notification(
    s0: AppState,
    s1: AppState,
    s2: AppState,
    req: self::dbus::NotifyRequest,
    tts: TtsConfig,
    actions_cfg: ActionsConfig,
    o1: self::dbus::NotifyOutcome,
    o2: CommandOutcome,
)
    requires
        s0.dnd_mode != DndMode::Full,
        s0.history_max > 0,
        req.replaces_id == 0,
        self::dbus::notify_spec(s0, s1, req, tts, o1),
        command_spec(Command::History { count: Some(1) }, s1, s2, tts, actions_cfg, o2),
    ensures
        o1 matches self::dbus::NotifyOutcome::Shown { notification, .. } && o2 matches CommandOutcome::Reply(
            r,
        ) && r.history matches Some(h) && h@.len() == 1 && h@[0]@ == notification@,
{
    let h0 = notification_views(s0.history@);
    if let self::dbus::NotifyOutcome::Shown { notification, .. } = o1 {
        let nv = notification@;
        let h1 = notification_views(s1.history@);
        assert(h1 == self::state::spec_push_history(h0, s0.history_max as nat, nv));
        self::state::lemma_history_append_newest(h0, s0.history_max as nat, nv);
        assert(h1.last() == nv);
        if let CommandOutcome::Reply(r) = o2 {
            if let Some(h) = r.history {
                let nf = spec_newest_first(s1.history@, Some(1));
                assert(notification_views(h@) == notification_views(nf));
                assert(notification_views(h@)[0] == h@[0]@);
                assert(notification_views(nf)[0] == nf[0]@);
                assert(nf[0] == s1.history@[s1.history@.len() - 1]);
                assert(h1[h1.len() - 1] == s1.history@[s1.history@.len() - 1]@);
            }
        }
    }
}

fn clone_action_list(v: &Vec<Action>) -> (res: Vec<Action>)
    ensures
        res@ == v@,
{
    let mut res: Vec<Action> = Vec::new();
    let mut i: usize = 0;
    while i < v.len()
        invariant
            i <= v@.len(),
            res@ == v@.subrange(0, i as int),
        decreases v@.len() - i,
    {
        res.push(v[i].clone());
        proof {
            assert(res@ =~= v@.subrange(0, i + 1));
        }
        i = i + 1;
    }
    proof {
        assert(res@ =~= v@);
    }
    res
}

/// The answer to an `action` command once the picker has run: on a pick,
/// success and the `ActionInvoked` signal to emit (the notification's id
/// and the action's key); otherwise the error's message and no signal.
pub fn action_reply(id: u32, picked: Result<Action, PickError>) -> (r: (Response, Option<(u32, String)>))
    ensures
        match picked {
            Ok(a) => r.0.is_plain_ok() && r.1 == Some((id, a.key)),
            Err(e) => r.0.is_err(e.text()) && r.1 is None,
        },
{
    match picked {
        Ok(action) => (Response::ok(), Some((id, action.key))),
        Err(e) => {
            let msg = e.message();
            (Response::err(msg.as_str()), None)
        },
    }
}

} // verus!
