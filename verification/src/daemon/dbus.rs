//! The decisions behind the `org.freedesktop.Notifications` D-Bus
//! interface: what a `Notify` call does to the daemon's state and what it
//! asks of the screen, the speakers and the bus.

use vstd::prelude::*;
use crate::config::{DndMode, TtsConfig};
use crate::notification::{
    ImageData, ImageDataView, Notification, NotificationView, opt_image_view, opt_string_view,
    spec_parse_actions, string_views, Urgency,
};
use crate::daemon::state::{AppState, id_after, notification_views, spec_push_history};
use crate::daemon::tts::{TtsClient, Utterance, spec_compose_utterance, utterance_for};

verus! {

/// The arguments of a `Notify` call, with the hints the daemon reads taken
/// out of the hint dictionary: the `urgency` byte, the `image-data`
/// structure and the `image-path` string, each when present and well typed.
#[derive(Debug)]
pub struct NotifyRequest {
    pub app_name: String,
    pub replaces_id: u32,
    pub app_icon: String,
    pub summary: String,
    pub body: String,
    pub actions: Vec<String>,
    pub urgency: Option<u8>,
    pub image_data: Option<ImageData>,
    pub image_path: Option<String>,
    pub expire_timeout: i32,
}

/// What the daemon does with a notification.
#[derive(Debug)]
pub enum NotifyOutcome {
    /// Do Not Disturb is full: the notification is dropped; the bus is told
    /// it closed (reason 3) and `id` is returned.
    Discarded { id: u32 },
    /// The notification is shown; when `alert`, the sound plays and
    /// `utterance`, if any, is spoken; `id` is returned.
    Shown { id: u32, notification: Notification, alert: bool, utterance: Option<Utterance> },
}

/// Whether image data can be shown: 8 bits per sample and 3 or 4 channels.
pub open spec fn image_usable(d: ImageDataView) -> bool {
    d.bits_per_sample == 8 && 3 <= d.n_channels <= 4
}

/// The image of a notification from its hints: the `image-data` hint when
/// it is usable, else none.
pub open spec fn spec_image_data(hint: Option<ImageDataView>) -> Option<ImageDataView> {
    match hint {
        Some(d) => if image_usable(d) {
            Some(d)
        } else {
            None
        },
        None => None,
    }
}

/// The image path of a notification: the `image-path` hint, used only
/// when no usable image data came with it.
pub open spec fn spec_image_path(data_hint: Option<ImageDataView>, path_hint: Option<Seq<char>>) -> Option<Seq<char>> {
    if spec_image_data(data_hint) is Some {
        None
    } else {
        path_hint
    }
}

/// Image data is kept exactly when it has 8 bits per sample and 3 (RGB) or
/// 4 (RGBA) channels, and then it is kept unchanged.
pub proof fn lemma_image_kept_iff_rgb_or_rgba(hint: ImageDataView)
    ensures
        hint.bits_per_sample == 8 && (hint.n_channels == 3 || hint.n_channels == 4)
            ==> spec_image_data(Some(hint)) == Some(hint),
        !(hint.bits_per_sample == 8 && (hint.n_channels == 3 || hint.n_channels == 4))
            ==> spec_image_data(Some(hint)) is None,
        spec_image_data(None) is None,
{
}

/// A notification keeps an 8-bit RGB or RGBA `image-data` hint as its
/// image, with no image path; any other image data is dropped and the
/// `image-path` hint, if any, is used instead.
pub proof fn lemma_notify_keeps_rgb_and_rgba_images(
    before: AppState,
    after: AppState,
    req: NotifyRequest,
    tts: TtsConfig,
    out: NotifyOutcome,
    hint: ImageData,
)
    requires
        before.dnd_mode != DndMode::Full,
        req.image_data == Some(hint),
        notify_spec(before, after, req, tts, out),
    ensures
        hint.bits_per_sample == 8 && (hint.n_channels == 3 || hint.n_channels == 4) ==> (
        out matches NotifyOutcome::Shown { notification, .. } && notification@.image_data == Some(
            hint@,
        ) && notification@.image_path is None),
        !(hint.bits_per_sample == 8 && (hint.n_channels == 3 || hint.n_channels == 4)) ==> (
        out matches NotifyOutcome::Shown { notification, .. } && notification@.image_data is None
            && notification@.image_path == opt_string_view(req.image_path)),
{
    lemma_image_kept_iff_rgb_or_rgba(hint@);
}

/// Keeps the `image-data` hint only when it can be shown.
pub fn usable_image(hint: Option<ImageData>) -> (d: Option<ImageData>)
    ensures
        opt_image_view(d) == spec_image_data(opt_image_view(hint)),
        match hint {
            Some(h) => if h.bits_per_sample == 8 && (h.n_channels == 3 || h.n_channels == 4) {
                d == Some(h)
            } else {
                d is None
            },
            None => d is None,
        },
{
    match hint {
        Some(d) => {
            if d.bits_per_sample != 8 {
                return None;
            }
            if d.n_channels < 3 || d.n_channels > 4 {
                return None;
            }
            Some(d)
        },
        None => None,
    }
}

/// Whether `n` is the notification built from request `req` under id `id`.
pub open spec fn built_from(n: NotificationView, req: NotifyRequest, id: u32) -> bool {
    &&& n.id == id
    &&& n.app_name == req.app_name@
    &&& n.app_icon == req.app_icon@
    &&& n.summary == req.summary@
    &&& n.body == req.body@
    &&& n.actions == spec_parse_actions(string_views(req.actions@))
    &&& n.urgency == Urgency::spec_from_byte(
        match req.urgency {
            Some(u) => u,
            None => 1,
        },
    )
    &&& n.expire_timeout == req.expire_timeout
    &&& n.image_data == spec_image_data(opt_image_view(req.image_data))
    &&& n.image_path == spec_image_path(opt_image_view(req.image_data), opt_string_view(req.image_path))
    &&& n.replaces_id == req.replaces_id
}

/// What a `Notify` call does. Under full Do Not Disturb the next id is
/// spent and nothing else changes. Otherwise the notification keeps the id
/// it replaces, or takes the next id; it becomes the last notification
/// and enters the history; sound and speech come unless Do Not Disturb is
/// silent, speech following the `[tts]` rules.
pub open spec fn notify_spec(
    before: AppState,
    after: AppState,
    req: NotifyRequest,
    tts: TtsConfig,
    out: NotifyOutcome,
) -> bool {
    &&& after.dnd_mode == before.dnd_mode
    &&& after.history_max == before.history_max
    &&& if before.dnd_mode == DndMode::Full {
        &&& out == NotifyOutcome::Discarded { id: before.next_id }
        &&& after.next_id == id_after(before.next_id)
        &&& after.last_notification == before.last_notification
        &&& after.history == before.history
    } else {
        let id = if req.replaces_id > 0 {
            req.replaces_id
        } else {
            before.next_id
        };
        &&& after.next_id == (if req.replaces_id > 0 {
            before.next_id
        } else {
            id_after(before.next_id)
        })
        &&& out matches NotifyOutcome::Shown { id: out_id, notification, alert, utterance }
        &&& out_id == id
        &&& built_from(notification@, req, id)
        &&& after.last_notification matches Some(last) && last@ == notification@
        &&& notification_views(after.history@) == spec_push_history(
            notification_views(before.history@),
            before.history_max as nat,
            notification@,
        )
        &&& alert == (before.dnd_mode != DndMode::Silent)
        &&& (utterance is Some <==> (alert && tts.enabled && tts.speak_summary
            && req.summary@.len() != 0))
        &&& (utterance matches Some(u) ==> utterance_for(
            tts,
            spec_compose_utterance(req.summary@, req.body@, tts.body_word_limit),
            u,
        ))
    }
}

/// Handles a `Notify` call against the daemon's state.
pub fn handle_notify(state: &mut AppState, req: NotifyRequest, tts: &TtsConfig) -> (out: NotifyOutcome)
    ensures
        notify_spec(*old(state), *final(state), req, *tts, out),
        old(state).well_formed() ==> final(state).well_formed(),
{
    let NotifyRequest {
        app_name,
        replaces_id,
        app_icon,
        summary,
        body,
        actions,
        urgency,
        image_data,
        image_path,
        expire_timeout,
    } = req;
    let urgency: u8 = match urgency {
        Some(u) => u,
        None => 1,
    };
    let image_data = usable_image(image_data);
    let image_path = if image_data.is_none() {
        image_path
    } else {
        None
    };

    // Full Do Not Disturb: drop the notification, but spend an id for it.
    if state.dnd_mode == DndMode::Full {
        let id = state.next_notification_id();
        return NotifyOutcome::Discarded { id };
    }

    let id = if replaces_id > 0 {
        replaces_id
    } else {
        state.next_notification_id()
    };
    let notification = Notification::new(
        id,
        app_name,
        app_icon,
        summary,
        body,
        actions,
        urgency,
        expire_timeout,
        image_data,
        image_path,
        replaces_id,
    );
    state.last_notification = Some(notification.clone());
    state.push_history(notification.clone());
    let is_silent = state.dnd_mode == DndMode::Silent;

    let utterance = if !is_silent {
        let client = TtsClient::new(tts.clone());
        client.speak_smart(notification.summary.as_str(), notification.body.as_str())
    } else {
        None
    };
    NotifyOutcome::Shown { id, notification, alert: !is_silent, utterance }
}

/// The optional features this server implements.
pub fn get_capabilities() -> (caps: Vec<String>)
    ensures
        string_views(caps@) == seq!["body"@, "body-markup"@, "icon-static"@, "actions"@],
{
    let mut caps: Vec<String> = Vec::new();
    caps.push("body".to_owned());
    caps.push("body-markup".to_owned());
    caps.push("icon-static".to_owned());
    caps.push("actions".to_owned());
    proof {
        assert(string_views(caps@) =~= seq!["body"@, "body-markup"@, "icon-static"@, "actions"@]);
    }
    caps
}

/// The server's name, vendor, version and the specification version it
/// implements, for a daemon of version `version`.
pub fn get_server_information(version: &str) -> (info: (String, String, String, String))
    ensures
        info.0@ == "cooee"@,
        info.1@ == "cooee"@,
        info.2@ == version@,
        info.3@ == "1.2"@,
{
    ("cooee".to_owned(), "cooee".to_owned(), version.to_owned(), "1.2".to_owned())
}

} // verus!
