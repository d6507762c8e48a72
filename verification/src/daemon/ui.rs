//! The popups' decisions: their style sheet, where they sit on the
//! screen, which image they show, and the stack of open popups.

use vstd::prelude::*;
use crate::config::{GeneralConfig, Position};
use crate::notification::Notification;
use crate::text::{decimal, push_decimal, has_prefix, same_text, starts_with, skip_chars};

verus! {

/// The style sheet of the popups for base font size `fs`: the summary one
/// pixel larger, the body and action buttons one pixel smaller.
pub open spec fn css_for(fs: int) -> Seq<char> {
    "\n.notification-card {\n    background-color: rgba(28, 28, 36, 0.95);\n    border: 1px solid rgba(120, 160, 230, 0.25);\n    border-radius: 10px;\n    padding: 12px 14px;\n    color: #d0d4e8;\n    font-size: "@
        + decimal(fs)
        + "px;\n}\n.notification-summary {\n    font-weight: bold;\n    font-size: "@
        + decimal(fs + 1)
        + "px;\n    color: #e0e4f8;\n}\n.notification-body {\n    color: #a8b0cc;\n    font-size: "@
        + decimal(fs - 1)
        + "px;\n    margin-top: 2px;\n}\n.notification-dismiss {\n    background: transparent;\n    border: none;\n    color: #606480;\n    padding: 0 4px;\n    min-width: 0;\n    min-height: 0;\n    margin-left: auto;\n    font-size: "@
        + decimal(fs)
        + "px;\n}\n.notification-dismiss:hover {\n    color: #e08090;\n    background: transparent;\n}\n.notification-actions {\n    margin-top: 6px;\n}\n.notification-action-btn {\n    background-color: rgba(120, 160, 230, 0.12);\n    border: 1px solid rgba(120, 160, 230, 0.28);\n    border-radius: 6px;\n    color: #88aaee;\n    padding: 3px 10px;\n    font-size: "@
        + decimal(fs - 1)
        + "px;\n}\n.notification-action-btn:hover {\n    background-color: rgba(120, 160, 230, 0.24);\n}\n"@
}

/// Generates the CSS string for notification windows based on config.
pub fn build_css(config: &GeneralConfig) -> (css: String)
    requires
        i32::MIN < config.font_size < i32::MAX,
    ensures
        css@ == css_for(config.font_size as int),
{
    let fs: i64 = config.font_size as i64;
    let mut css = "\n.notification-card {\n    background-color: rgba(28, 28, 36, 0.95);\n    border: 1px solid rgba(120, 160, 230, 0.25);\n    border-radius: 10px;\n    padding: 12px 14px;\n    color: #d0d4e8;\n    font-size: ".to_owned();
    push_decimal(&mut css, fs);
    css.append("px;\n}\n.notification-summary {\n    font-weight: bold;\n    font-size: ");
    push_decimal(&mut css, fs + 1);
    css.append("px;\n    color: #e0e4f8;\n}\n.notification-body {\n    color: #a8b0cc;\n    font-size: ");
    push_decimal(&mut css, fs - 1);
    css.append("px;\n    margin-top: 2px;\n}\n.notification-dismiss {\n    background: transparent;\n    border: none;\n    color: #606480;\n    padding: 0 4px;\n    min-width: 0;\n    min-height: 0;\n    margin-left: auto;\n    font-size: ");
    push_decimal(&mut css, fs);
    css.append("px;\n}\n.notification-dismiss:hover {\n    color: #e08090;\n    background: transparent;\n}\n.notification-actions {\n    margin-top: 6px;\n}\n.notification-action-btn {\n    background-color: rgba(120, 160, 230, 0.12);\n    border: 1px solid rgba(120, 160, 230, 0.28);\n    border-radius: 6px;\n    color: #88aaee;\n    padding: 3px 10px;\n    font-size: ");
    push_decimal(&mut css, fs - 1);
    css.append("px;\n}\n.notification-action-btn:hover {\n    background-color: rgba(120, 160, 230, 0.24);\n}\n");
    css
}

/// Events sent from the async runtime into the GTK main loop
#[derive(Debug)]
pub enum UiEvent {
    ShowNotification(Notification),
    CloseNotification(u32),
    DismissLatest,
    ReloadCss,
    Shutdown,
}

/// Which screen edges a popup is anchored to, and the margin kept from
/// each edge that gets one.
#[derive(Debug, Clone, Copy, PartialEq, Eq, Structural)]
pub struct Placement {
    pub anchor_top: bool,
    pub anchor_bottom: bool,
    pub anchor_left: bool,
    pub anchor_right: bool,
    pub margin_top: Option<i32>,
    pub margin_bottom: Option<i32>,
    pub margin_left: Option<i32>,
    pub margin_right: Option<i32>,
}

/// Where a popup sits for a position and margins: corners anchor to their
/// two edges with the vertical margin on the top or bottom edge and the
/// horizontal margin on the side edge; the centred positions anchor only
/// to the top (`center`, `center-top`) or the bottom (`center-bottom`)
/// edge, with the vertical margin there.
pub open spec fn spec_placement(position: Position, margin_x: i32, margin_y: i32) -> Placement {
    match position {
        Position::TopRight => Placement {
            anchor_top: true,
            anchor_bottom: false,
            anchor_left: false,
            anchor_right: true,
            margin_top: Some(margin_y),
            margin_bottom: None,
            margin_left: None,
            margin_right: Some(margin_x),
        },
        Position::TopLeft => Placement {
            anchor_top: true,
            anchor_bottom: false,
            anchor_left: true,
            anchor_right: false,
            margin_top: Some(margin_y),
            margin_bottom: None,
            margin_left: Some(margin_x),
            margin_right: None,
        },
        Position::BottomRight => Placement {
            anchor_top: false,
            anchor_bottom: true,
            anchor_left: false,
            anchor_right: true,
            margin_top: None,
            margin_bottom: Some(margin_y),
            margin_left: None,
            margin_right: Some(margin_x),
        },
        Position::BottomLeft => Placement {
            anchor_top: false,
            anchor_bottom: true,
            anchor_left: true,
            anchor_right: false,
            margin_top: None,
            margin_bottom: Some(margin_y),
            margin_left: Some(margin_x),
            margin_right: None,
        },
        Position::Center | Position::CenterTop => Placement {
            anchor_top: true,
            anchor_bottom: false,
            anchor_left: false,
            anchor_right: false,
            margin_top: Some(margin_y),
            margin_bottom: None,
            margin_left: None,
            margin_right: None,
        },
        Position::CenterBottom => Placement {
            anchor_top: false,
            anchor_bottom: true,
            anchor_left: false,
            anchor_right: false,
            margin_top: None,
            margin_bottom: Some(margin_y),
            margin_left: None,
            margin_right: None,
        },
    }
}

/// Every popup is anchored to exactly one of the top and bottom edges and
/// to at most one side, and keeps a margin only from edges it is anchored
/// to: the vertical margin from its vertical edge, the horizontal margin
/// from its side.
pub proof fn lemma_placement_consistent(position: Position, margin_x: i32, margin_y: i32)
    ensures
        ({
            let p = spec_placement(position, margin_x, margin_y);
            &&& p.anchor_top != p.anchor_bottom
            &&& !(p.anchor_left && p.anchor_right)
            &&& p.margin_top == (if p.anchor_top {
                Some(margin_y)
            } else {
                None::<i32>
            })
            &&& p.margin_bottom == (if p.anchor_bottom {
                Some(margin_y)
            } else {
                None::<i32>
            })
            &&& p.margin_left == (if p.anchor_left {
                Some(margin_x)
            } else {
                None::<i32>
            })
            &&& p.margin_right == (if p.anchor_right {
                Some(margin_x)
            } else {
                None::<i32>
            })
        }),
{
}

/// Whether a position names the left side of the screen.
pub open spec fn names_left(position: Position) -> bool {
    position == Position::TopLeft || position == Position::BottomLeft
}

/// Whether a position names the right side of the screen.
pub open spec fn names_right(position: Position) -> bool {
    position == Position::TopRight || position == Position::BottomRight
}

/// Whether a position names the bottom of the screen.
pub open spec fn names_bottom(position: Position) -> bool {
    position == Position::BottomLeft || position == Position::BottomRight || position
        == Position::CenterBottom
}

/// Whether the placement `p` puts a popup where `position` says, with the
/// given margins: on the side the position names (anchored to it, not to
/// the other side, the horizontal margin from it), or on neither side for
/// the centred positions; at the bottom for the bottom positions and at
/// the top for all others, with the vertical margin from that edge.
pub open spec fn placed_as_named(position: Position, margin_x: i32, margin_y: i32, p: Placement) -> bool {
    &&& names_left(position) ==> p.anchor_left && !p.anchor_right && p.margin_left == Some(margin_x)
        && p.margin_right is None
    &&& names_right(position) ==> p.anchor_right && !p.anchor_left && p.margin_right == Some(
        margin_x,
    ) && p.margin_left is None
    &&& !names_left(position) && !names_right(position) ==> !p.anchor_left && !p.anchor_right
        && p.margin_left is None && p.margin_right is None
    &&& names_bottom(position) ==> p.anchor_bottom && !p.anchor_top && p.margin_bottom == Some(
        margin_y,
    ) && p.margin_top is None
    &&& !names_bottom(position) ==> p.anchor_top && !p.anchor_bottom && p.margin_top == Some(
        margin_y,
    ) && p.margin_bottom is None
}

/// A popup sits where its position says: the side and the vertical edge
/// it is anchored to, and the margins it keeps, follow the position's name.
pub proof fn lemma_placement_follows_position(position: Position, margin_x: i32, margin_y: i32)
    ensures
        placed_as_named(position, margin_x, margin_y, spec_placement(position, margin_x, margin_y)),
{
}

/// Where a popup sits under the `[general]` configuration.
pub fn placement(config: &GeneralConfig) -> (p: Placement)
    ensures
        p == spec_placement(config.position, config.margin_x, config.margin_y),
        placed_as_named(config.position, config.margin_x, config.margin_y, p),
{
    let my = config.margin_y;
    let mx = config.margin_x;
    match config.position {
        Position::TopRight => Placement {
            anchor_top: true,
            anchor_bottom: false,
            anchor_left: false,
            anchor_right: true,
            margin_top: Some(my),
            margin_bottom: None,
            margin_left: None,
            margin_right: Some(mx),
        },
        Position::TopLeft => Placement {
            anchor_top: true,
            anchor_bottom: false,
            anchor_left: true,
            anchor_right: false,
            margin_top: Some(my),
            margin_bottom: None,
            margin_left: Some(mx),
            margin_right: None,
        },
        Position::BottomRight => Placement {
            anchor_top: false,
            anchor_bottom: true,
            anchor_left: false,
            anchor_right: true,
            margin_top: None,
            margin_bottom: Some(my),
            margin_left: None,
            margin_right: Some(mx),
        },
        Position::BottomLeft => Placement {
            anchor_top: false,
            anchor_bottom: true,
            anchor_left: true,
            anchor_right: false,
            margin_top: None,
            margin_bottom: Some(my),
            margin_left: Some(mx),
            margin_right: None,
        },
        Position::Center | Position::CenterTop => Placement {
            anchor_top: true,
            anchor_bottom: false,
            anchor_left: false,
            anchor_right: false,
            margin_top: Some(my),
            margin_bottom: None,
            margin_left: None,
            margin_right: None,
        },
        Position::CenterBottom => Placement {
            anchor_top: false,
            anchor_bottom: true,
            anchor_left: false,
            anchor_right: false,
            margin_top: None,
            margin_bottom: Some(my),
            margin_left: None,
            margin_right: None,
        },
    }
}

/// The content image of a popup.
#[derive(Debug)]
pub enum ImageSource {
    /// The notification's raw pixels, 8 bits per sample, with an alpha
    /// channel when `has_alpha`, rows `stride` bytes apart.
    Pixels { width: i32, height: i32, has_alpha: bool, stride: usize },
    /// An image file at this path.
    File(String),
    /// An icon of the icon theme with this name.
    Icon(String),
}

/// The content image of a notification: its image data, unless the row
/// stride is not positive (then none at all); else its image path, read
/// as a file when absolute or a `file://` URI (without the scheme), and
/// as an icon name otherwise; else none.
pub open spec fn image_source_ok(n: Notification, src: Option<ImageSource>) -> bool {
    match n.image_data {
        Some(d) => if d.rowstride <= 0 {
            src is None
        } else {
            src == Some(
                ImageSource::Pixels {
                    width: d.width,
                    height: d.height,
                    has_alpha: d.has_alpha,
                    stride: d.rowstride as usize,
                },
            )
        },
        None => match n.image_path {
            Some(p) => if has_prefix(p@, "/"@) {
                src matches Some(ImageSource::File(f)) && f@ == p@
            } else if has_prefix(p@, "file://"@) {
                src matches Some(ImageSource::File(f)) && f@ == p@.skip(7)
            } else {
                src matches Some(ImageSource::Icon(i)) && i@ == p@
            },
            None => src is None,
        },
    }
}

/// Chooses the content image of a notification's popup.
pub fn image_source(n: &Notification) -> (src: Option<ImageSource>)
    ensures
        image_source_ok(*n, src),
{
    if let Some(d) = &n.image_data {
        if d.rowstride <= 0 {
            return None;
        }
        return Some(
            ImageSource::Pixels {
                width: d.width,
                height: d.height,
                has_alpha: d.has_alpha,
                stride: d.rowstride as usize,
            },
        );
    }
    if let Some(p) = &n.image_path {
        if starts_with(p.as_str(), "/") {
            return Some(ImageSource::File(p.clone()));
        } else if starts_with(p.as_str(), "file://") {
            proof {
                reveal_strlit("file://");
            }
            return Some(ImageSource::File(skip_chars(p.as_str(), 7)));
        } else {
            return Some(ImageSource::Icon(p.clone()));
        }
    }
    None
}

/// The open popups, oldest first, each with the id of its notification.
pub struct PopupStack<W> {
    entries: Vec<(u32, W)>,
}

/// `s` with the entries whose flag is unset left out.
pub open spec fn keep_flagged<T>(s: Seq<T>, flags: Seq<bool>) -> Seq<T>
    decreases s.len(),
{
    if s.len() == 0 || flags.len() == 0 {
        Seq::empty()
    } else {
        let rest = keep_flagged(s.drop_last(), flags.drop_last());
        if flags.last() {
            rest.push(s.last())
        } else {
            rest
        }
    }
}

/// The popups after making room under the limit `max`: the oldest one goes
/// when there are `max` or more.
pub open spec fn spec_make_room<W>(s: Seq<(u32, W)>, max: nat) -> Seq<(u32, W)> {
    if s.len() >= max {
        s.drop_first()
    } else {
        s
    }
}

/// Showing a popup never takes the stack over `max_visible`: a stack
/// within the limit stays within it, the new popup is the newest, and the
/// stack grows by one only when it had room and nothing was replaced.
pub proof fn lemma_stack_within_limit<W>(s: Seq<(u32, W)>, max: nat, id: u32, replaces_id: u32, w: W)
    requires
        max > 0,
        s.len() <= max,
    ensures
        spec_show(s, id, replaces_id, max, w).len() <= max,
        spec_show(s, id, replaces_id, max, w).last() == (id, w),
        s.len() < max && spec_replaced(s, replaces_id) == s ==> spec_show(
            s,
            id,
            replaces_id,
            max,
            w,
        ).len() == s.len() + 1,
{
    if replaces_id > 0 && has_popup(s, replaces_id) {
        let k = choose|i: int| 0 <= i < s.len() && s[i].0 == replaces_id;
        lemma_first_popup_exists(s, replaces_id, k);
    }
}

proof fn lemma_first_popup_exists<W>(s: Seq<(u32, W)>, id: u32, w: int)
    requires
        0 <= w < s.len(),
        s[w].0 == id,
    ensures
        is_first_popup(s, id, first_popup(s, id)),
    decreases w,
{
    if exists|j: int| 0 <= j < w && s[j].0 == id {
        let j = choose|j: int| 0 <= j < w && s[j].0 == id;
        lemma_first_popup_exists(s, id, j);
    } else {
        assert(is_first_popup(s, id, w));
    }
}

/// Whether a monitor's connector name is `name`.
pub open spec fn connector_is(connector: Option<String>, name: Seq<char>) -> bool {
    connector matches Some(c) && c@ == name
}

/// The position of the first monitor whose connector is `name`.
pub open spec fn is_first_monitor(connectors: Seq<Option<String>>, name: Seq<char>, i: int) -> bool {
    &&& 0 <= i < connectors.len()
    &&& connector_is(connectors[i], name)
    &&& forall|j: int| 0 <= j < i ==> !connector_is(#[trigger] connectors[j], name)
}

/// Finds the monitor to show popups on: the first whose connector name is
/// `name`, among monitors listed by their connector names (none when a
/// monitor has no connector name).
pub fn monitor_index(connectors: &[Option<String>], name: &str) -> (r: Option<usize>)
    ensures
        match r {
            Some(i) => is_first_monitor(connectors@, name@, i as int),
            None => forall|j: int|
                0 <= j < connectors@.len() ==> !connector_is(#[trigger] connectors@[j], name@),
        },
{
    let mut i: usize = 0;
    while i < connectors.len()
        invariant
            i <= connectors@.len(),
            forall|j: int| 0 <= j < i ==> !connector_is(#[trigger] connectors@[j], name@),
        decreases connectors@.len() - i,
    {
        if let Some(c) = &connectors[i] {
            if same_text(c.as_str(), name) {
                return Some(i);
            }
        }
        i = i + 1;
    }
    None
}

/// Whether some popup of `s` belongs to notification `id`.
pub open spec fn has_popup<W>(s: Seq<(u32, W)>, id: u32) -> bool {
    exists|i: int| 0 <= i < s.len() && s[i].0 == id
}

/// The first position of `s` whose id is `id`.
pub open spec fn first_popup<W>(s: Seq<(u32, W)>, id: u32) -> int {
    choose|i: int| is_first_popup(s, id, i)
}

/// The popups after closing the oldest one of notification `id`, if any.
pub open spec fn spec_close<W>(s: Seq<(u32, W)>, id: u32) -> Seq<(u32, W)> {
    if has_popup(s, id) {
        s.remove(first_popup(s, id))
    } else {
        s
    }
}

/// The window that closing notification `id` takes off the stack, if any.
pub open spec fn closed_window<W>(s: Seq<(u32, W)>, id: u32) -> Option<W> {
    if has_popup(s, id) {
        Some(s[first_popup(s, id)].1)
    } else {
        None
    }
}

/// The popups once the one that notification `replaces_id` replaces is
/// closed; none is replaced when `replaces_id` is 0.
pub open spec fn spec_replaced<W>(s: Seq<(u32, W)>, replaces_id: u32) -> Seq<(u32, W)> {
    if replaces_id > 0 {
        spec_close(s, replaces_id)
    } else {
        s
    }
}

/// The popups after showing `w` for notification `id`: the replaced one
/// closed, room made under `max`, and `w` added as the newest.
pub open spec fn spec_show<W>(s: Seq<(u32, W)>, id: u32, replaces_id: u32, max: nat, w: W) -> Seq<(u32, W)> {
    spec_make_room(spec_replaced(s, replaces_id), max).push((id, w))
}

/// The windows that showing a popup takes off the stack: the replaced
/// one, if any, then the oldest one when the stack was full.
pub open spec fn spec_show_gone<W>(s: Seq<(u32, W)>, replaces_id: u32, max: nat) -> Seq<W> {
    let replaced: Seq<W> = if replaces_id > 0 && has_popup(s, replaces_id) {
        seq![s[first_popup(s, replaces_id)].1]
    } else {
        Seq::empty()
    };
    let t = spec_replaced(s, replaces_id);
    let evicted: Seq<W> = if t.len() >= max {
        seq![t[0].1]
    } else {
        Seq::empty()
    };
    replaced + evicted
}

proof fn lemma_first_popup_unique<W>(s: Seq<(u32, W)>, id: u32, i: int)
    requires
        is_first_popup(s, id, i),
    ensures
        first_popup(s, id) == i,
        has_popup(s, id),
{
    let k = first_popup(s, id);
    assert(is_first_popup(s, id, k));
    if k < i {
        assert(s[k].0 != id);
    } else if k > i {
        assert(s[i].0 != id);
    }
}

/// Whether `i` is the first position of `s` whose id is `id`.
pub open spec fn is_first_popup<W>(s: Seq<(u32, W)>, id: u32, i: int) -> bool {
    &&& 0 <= i < s.len()
    &&& s[i].0 == id
    &&& forall|j: int| 0 <= j < i ==> s[j].0 != id
}

impl<W> PopupStack<W> {
    /// The open popups, oldest first.
    pub closed spec fn view(&self) -> Seq<(u32, W)> {
        self.entries@
    }

    pub fn new() -> (s: Self)
        ensures
            s.view() == Seq::<(u32, W)>::empty(),
    {
        PopupStack { entries: Vec::new() }
    }

    /// The number of open popups.
    pub fn len(&self) -> (n: usize)
        ensures
            n == self.view().len(),
    {
        self.entries.len()
    }

    /// The window of the `i`-th oldest popup.
    pub fn window(&self, i: usize) -> (w: &W)
        requires
            i < self.view().len(),
        ensures
            *w == self.view()[i as int].1,
    {
        &self.entries[i].1
    }

    /// Forgets the popups whose flag is unset (their windows are gone);
    /// `alive` has one flag per popup, oldest first.
    pub fn retain_alive(&mut self, alive: &[bool])
        requires
            alive@.len() == old(self).view().len(),
        ensures
            final(self).view() == keep_flagged(old(self).view(), alive@),
    {
        let mut kept: Vec<(u32, W)> = Vec::new();
        let mut old_entries: Vec<(u32, W)> = Vec::new();
        std::mem::swap(&mut old_entries, &mut self.entries);
        let ghost all = old_entries@;
        let mut i: usize = 0;
        let mut rest = old_entries;
        proof {
            assert(kept@ =~= keep_flagged(all.take(0), alive@.take(0)));
        }
        while rest.len() > 0
            invariant
                all.len() == alive@.len(),
                i + rest@.len() == all.len(),
                rest@ == all.skip(i as int),
                kept@ == keep_flagged(all.take(i as int), alive@.take(i as int)),
            decreases rest@.len(),
        {
            let e = rest.remove(0);
            proof {
                assert(e == all[i as int]);
                assert(all.take(i + 1).drop_last() =~= all.take(i as int));
                assert(alive@.take(i + 1).drop_last() =~= alive@.take(i as int));
                assert(rest@ =~= all.skip(i + 1));
            }
            if alive[i] {
                kept.push(e);
            }
            i = i + 1;
        }
        proof {
            assert(all.take(all.len() as int) =~= all);
            assert(alive@.take(alive@.len() as int) =~= alive@);
        }
        self.entries = kept;
    }

    /// Closes the oldest popup of notification `id`, handing back its window.
    pub fn close(&mut self, id: u32) -> (w: Option<W>)
        ensures
            final(self).view() == spec_close(old(self).view(), id),
            w == closed_window(old(self).view(), id),
    {
        let mut i: usize = 0;
        while i < self.entries.len()
            invariant
                i <= self.entries@.len(),
                self.entries@ == old(self).entries@,
                forall|j: int| 0 <= j < i ==> self.entries@[j].0 != id,
            decreases self.entries@.len() - i,
        {
            if self.entries[i].0 == id {
                proof {
                    lemma_first_popup_unique(old(self).view(), id, i as int);
                }
                let (_, win) = self.entries.remove(i);
                return Some(win);
            }
            i = i + 1;
        }
        None
    }

    /// The number of popups left once the popup that notification
    /// `replaces_id` replaces, if any, is closed.
    pub fn len_after_replacing(&self, replaces_id: u32) -> (n: usize)
        ensures
            n == spec_replaced(self.view(), replaces_id).len(),
    {
        let mut i: usize = 0;
        if replaces_id == 0 {
            return self.entries.len();
        }
        while i < self.entries.len()
            invariant
                i <= self.entries@.len(),
                replaces_id > 0,
                forall|j: int| 0 <= j < i ==> self.entries@[j].0 != replaces_id,
            decreases self.entries@.len() - i,
        {
            if self.entries[i].0 == replaces_id {
                proof {
                    lemma_first_popup_unique(self.view(), replaces_id, i as int);
                }
                return self.entries.len() - 1;
            }
            i = i + 1;
        }
        self.entries.len()
    }

    /// Shows the popup `w` of notification `id`: closes the popup it
    /// replaces (`replaces_id > 0`), makes room under `max_visible`, and
    /// adds it as the newest; hands back the windows taken off the stack,
    /// the replaced one first.
    pub fn show(&mut self, id: u32, replaces_id: u32, max_visible: usize, w: W) -> (gone: Vec<W>)
        requires
            max_visible > 0 || spec_replaced(old(self).view(), replaces_id).len() > 0,
        ensures
            final(self).view() == spec_show(old(self).view(), id, replaces_id, max_visible as nat, w),
            gone@ == spec_show_gone(old(self).view(), replaces_id, max_visible as nat),
    {
        let mut gone: Vec<W> = Vec::new();
        if replaces_id > 0 {
            if let Some(old_win) = self.close(replaces_id) {
                gone.push(old_win);
            }
        }
        let ghost mid = self.view();
        let ghost before_room = gone@;
        if let Some(oldest) = self.make_room(max_visible) {
            gone.push(oldest);
        }
        self.push(id, w);
        proof {
            assert(mid == spec_replaced(old(self).view(), replaces_id));
            assert(gone@ =~= spec_show_gone(old(self).view(), replaces_id, max_visible as nat));
        }
        gone
    }

    /// Makes room for one more popup under the limit `max_visible`: when the
    /// stack is at or over it, the oldest popup is removed and its window
    /// handed back.
    pub fn make_room(&mut self, max_visible: usize) -> (w: Option<W>)
        requires
            old(self).view().len() > 0 || max_visible > 0,
        ensures
            final(self).view() == spec_make_room(old(self).view(), max_visible as nat),
            old(self).view().len() >= max_visible ==> w == Some(old(self).view()[0].1),
            old(self).view().len() < max_visible ==> w is None,
    {
        if self.entries.len() >= max_visible {
            let (_, win) = self.entries.remove(0);
            proof {
                assert(self.entries@ =~= old(self).entries@.drop_first());
            }
            Some(win)
        } else {
            None
        }
    }

    /// Adds the newest popup.
    pub fn push(&mut self, id: u32, w: W)
        ensures
            final(self).view() == old(self).view().push((id, w)),
    {
        self.entries.push((id, w));
    }

    /// Removes the newest popup, handing back its window.
    pub fn pop_latest(&mut self) -> (w: Option<W>)
        ensures
            old(self).view().len() == 0 ==> w is None && final(self).view() == old(self).view(),
            old(self).view().len() > 0 ==> w == Some(old(self).view().last().1)
                && final(self).view() == old(self).view().drop_last(),
    {
        match self.entries.pop() {
            Some((_, win)) => Some(win),
            None => None,
        }
    }
}

} // verus!
