//! The daemon's shared state: Do Not Disturb mode, the last notification,
//! notification ids and the notification history.

use vstd::prelude::*;
use std::collections::VecDeque;
use crate::config::DndMode;
use crate::notification::{Notification, NotificationView};

verus! {

#[derive(Debug)]
pub struct AppState {
    pub dnd_mode: DndMode,
    pub last_notification: Option<Notification>,
    pub next_id: u32,
    pub history: VecDeque<Notification>,
    pub history_max: usize,
}

/// The id handed out after `id`: the next integer, wrapping past the
/// largest `u32` to 1, since 0 is reserved by the specification.
pub open spec fn id_after(id: u32) -> u32 {
    if id == u32::MAX {
        1
    } else {
        (id + 1) as u32
    }
}

/// The Do Not Disturb cycle: off, silent, full, off.
pub open spec fn next_dnd(m: DndMode) -> DndMode {
    match m {
        DndMode::Off => DndMode::Silent,
        DndMode::Silent => DndMode::Full,
        DndMode::Full => DndMode::Off,
    }
}

/// The name of a Do Not Disturb mode.
pub open spec fn dnd_name(m: DndMode) -> Seq<char> {
    match m {
        DndMode::Off => "off"@,
        DndMode::Silent => "silent"@,
        DndMode::Full => "full"@,
    }
}

/// The views of a sequence of notifications.
pub open spec fn notification_views(v: Seq<Notification>) -> Seq<NotificationView> {
    v.map_values(|n: Notification| n@)
}

/// Whether `i` is the first position of `h` that holds a notification with id `id`.
pub open spec fn is_first_with_id(h: Seq<NotificationView>, id: u32, i: int) -> bool {
    &&& 0 <= i < h.len()
    &&& h[i].id == id
    &&& forall|j: int| 0 <= j < i ==> h[j].id != id
}

/// Whether some notification of `h` has id `id`.
pub open spec fn has_id(h: Seq<NotificationView>, id: u32) -> bool {
    exists|i: int| 0 <= i < h.len() && h[i].id == id
}

/// The first position of `h` holding a notification with id `id`.
pub open spec fn first_with_id(h: Seq<NotificationView>, id: u32) -> int {
    choose|i: int| is_first_with_id(h, id, i)
}

/// The history after recording `n` with capacity `max`: nothing changes
/// when `max` is 0; a replacement (`replaces_id > 0`) whose target is
/// present takes its place; otherwise `n` is appended, after the oldest
/// entry is dropped when the history is at or over capacity.
pub open spec fn spec_push_history(h: Seq<NotificationView>, max: nat, n: NotificationView) -> Seq<NotificationView> {
    if max == 0 {
        h
    } else if n.replaces_id > 0 && has_id(h, n.replaces_id) {
        h.update(first_with_id(h, n.replaces_id), n)
    } else if h.len() >= max {
        h.drop_first().push(n)
    } else {
        h.push(n)
    }
}

/// Up to `count` entries of `h`, newest first; all of them when `count` is none.
pub open spec fn spec_newest_first(h: Seq<Notification>, count: Option<usize>) -> Seq<Notification> {
    let k: int = match count {
        Some(c) => if c < h.len() {
            c as int
        } else {
            h.len() as int
        },
        None => h.len() as int,
    };
    Seq::new(k as nat, |i: int| h[h.len() - 1 - i])
}

/// The history kept under capacity `max`: the newest `max` entries.
pub open spec fn spec_trim_history(h: Seq<Notification>, max: nat) -> Seq<Notification> {
    if h.len() > max {
        h.skip(h.len() - max)
    } else {
        h
    }
}

/// Toggling Do Not Disturb three times gives the mode back: the modes
/// cycle off, silent, full, off.
pub proof fn lemma_toggle_cycle(m: DndMode)
    ensures
        next_dnd(next_dnd(next_dnd(m))) == m,
        next_dnd(m) != m,
        next_dnd(DndMode::Off) == DndMode::Silent,
        next_dnd(DndMode::Silent) == DndMode::Full,
        next_dnd(DndMode::Full) == DndMode::Off,
{
}

/// Ids are never 0 once they start at a non-zero value: the id after a
/// non-zero id is non-zero, and it is the next integer unless the largest
/// `u32` was reached, when the ids start again from 1.
pub proof fn lemma_ids_never_zero(id: u32)
    requires
        id >= 1,
    ensures
        id_after(id) >= 1,
        id < u32::MAX ==> id_after(id) == id + 1,
        id == u32::MAX ==> id_after(id) == 1,
{
}

/// The history never outgrows its capacity: recording a notification into
/// a history within capacity leaves it within capacity; with capacity 0
/// nothing is recorded.
pub proof fn lemma_history_within_capacity(h: Seq<NotificationView>, max: nat, n: NotificationView)
    requires
        h.len() <= max,
    ensures
        spec_push_history(h, max, n).len() <= max,
        max == 0 ==> spec_push_history(h, max, n) == h,
{
    if max > 0 && n.replaces_id > 0 && has_id(h, n.replaces_id) {
        let w = choose|i: int| 0 <= i < h.len() && h[i].id == n.replaces_id;
        lemma_first_exists(h, n.replaces_id, w);
    }
}

/// A notification that replaces one in the history takes its place: the
/// length and every other entry stay as they were.
pub proof fn lemma_history_replace_in_place(h: Seq<NotificationView>, max: nat, n: NotificationView)
    requires
        max > 0,
        n.replaces_id > 0,
        has_id(h, n.replaces_id),
    ensures
        spec_push_history(h, max, n).len() == h.len(),
        spec_push_history(h, max, n)[first_with_id(h, n.replaces_id)] == n,
        forall|i: int|
            0 <= i < h.len() && i != first_with_id(h, n.replaces_id) ==> spec_push_history(
                h,
                max,
                n,
            )[i] == h[i],
{
    let w = choose|i: int| 0 <= i < h.len() && h[i].id == n.replaces_id;
    lemma_first_exists(h, n.replaces_id, w);
}

/// A notification that replaces nothing in the history becomes its newest
/// entry, and the entries before it are the old ones, less the oldest
/// when the history was full.
pub proof fn lemma_history_append_newest(h: Seq<NotificationView>, max: nat, n: NotificationView)
    requires
        max > 0,
        !(n.replaces_id > 0 && has_id(h, n.replaces_id)),
    ensures
        spec_push_history(h, max, n).last() == n,
        spec_push_history(h, max, n).drop_last() == (if h.len() >= max {
            h.drop_first()
        } else {
            h
        }),
{
    let r = spec_push_history(h, max, n);
    if h.len() >= max {
        assert(r.drop_last() =~= h.drop_first());
    } else {
        assert(r.drop_last() =~= h);
    }
}

/// Asking for all of the history gives it newest first, and asking for
/// `k` entries gives the first `k` of those.
pub proof fn lemma_history_newest_first(h: Seq<Notification>, k: usize)
    ensures
        spec_newest_first(h, None) == h.reverse(),
        k <= h.len() ==> spec_newest_first(h, Some(k)) == h.reverse().take(k as int),
        k > h.len() ==> spec_newest_first(h, Some(k)) == h.reverse(),
{
    assert(spec_newest_first(h, None) =~= h.reverse());
    if k <= h.len() {
        assert(spec_newest_first(h, Some(k)) =~= h.reverse().take(k as int));
    } else {
        assert(spec_newest_first(h, Some(k)) =~= h.reverse());
    }
}

/// Lowering the capacity keeps the newest entries, as many as fit.
pub proof fn lemma_trim_keeps_newest(h: Seq<Notification>, max: nat)
    ensures
        spec_trim_history(h, max).len() == (if h.len() <= max {
            h.len()
        } else {
            max
        }),
        forall|i: int|
            0 <= i < spec_trim_history(h, max).len() ==> spec_trim_history(h, max)[i] == h[h.len()
                - spec_trim_history(h, max).len() + i],
{
}

proof fn lemma_first_exists(h: Seq<NotificationView>, id: u32, w: int)
    requires
        0 <= w < h.len(),
        h[w].id == id,
    ensures
        is_first_with_id(h, id, first_with_id(h, id)),
    decreases w,
{
    if exists|j: int| 0 <= j < w && h[j].id == id {
        let j = choose|j: int| 0 <= j < w && h[j].id == id;
        lemma_first_exists(h, id, j);
    } else {
        assert(is_first_with_id(h, id, w));
    }
}

proof fn lemma_first_unique(h: Seq<NotificationView>, id: u32, i: int)
    requires
        is_first_with_id(h, id, i),
    ensures
        first_with_id(h, id) == i,
{
    let k = first_with_id(h, id);
    assert(is_first_with_id(h, id, k));
    if k < i {
        assert(h[k].id != id);
    } else if k > i {
        assert(h[i].id != id);
    }
}

impl AppState {
    /// The state's invariant: ids handed out are never 0, and the history
    /// holds at most `history_max` notifications.
    pub open spec fn well_formed(&self) -> bool {
        &&& self.next_id >= 1
        &&& self.history@.len() <= self.history_max
    }

    pub fn new(initial_dnd: DndMode, history_max: usize) -> (s: Self)
        ensures
            s.dnd_mode == initial_dnd,
            s.last_notification is None,
            s.next_id == 1,
            s.history@.len() == 0,
            s.history_max == history_max,
            s.well_formed(),
    {
        Self {
            dnd_mode: initial_dnd,
            last_notification: None,
            next_id: 1,
            history: VecDeque::new(),
            history_max,
        }
    }

    /// Hands out the next notification id.
    pub fn next_notification_id(&mut self) -> (id: u32)
        ensures
            id == old(self).next_id,
            final(self).next_id == id_after(old(self).next_id),
            final(self).dnd_mode == old(self).dnd_mode,
            final(self).last_notification == old(self).last_notification,
            final(self).history == old(self).history,
            final(self).history_max == old(self).history_max,
            old(self).well_formed() ==> final(self).well_formed() && id >= 1,
    {
        let id = self.next_id;
        // wrapping_add then max(1) ensures we never hand out ID 0 (reserved by spec)
        self.next_id = self.next_id.wrapping_add(1).max(1);
        id
    }

    pub fn set_dnd(&mut self, mode: DndMode)
        ensures
            final(self).dnd_mode == mode,
            final(self).next_id == old(self).next_id,
            final(self).last_notification == old(self).last_notification,
            final(self).history == old(self).history,
            final(self).history_max == old(self).history_max,
    {
        self.dnd_mode = mode;
    }

    /// Cycle: off → silent → full → off
    pub fn toggle_dnd(&mut self)
        ensures
            final(self).dnd_mode == next_dnd(old(self).dnd_mode),
            final(self).next_id == old(self).next_id,
            final(self).last_notification == old(self).last_notification,
            final(self).history == old(self).history,
            final(self).history_max == old(self).history_max,
    {
        self.dnd_mode = match self.dnd_mode {
            DndMode::Off => DndMode::Silent,
            DndMode::Silent => DndMode::Full,
            DndMode::Full => DndMode::Off,
        };
    }

    pub fn dnd_mode_str(&self) -> (s: &'static str)
        ensures
            s@ == dnd_name(self.dnd_mode),
    {
        match self.dnd_mode {
            DndMode::Off => "off",
            DndMode::Silent => "silent",
            DndMode::Full => "full",
        }
    }

    /// Finds the first history entry with id `id`, if any.
    fn position_of(&self, id: u32) -> (p: Option<usize>)
        ensures
            match p {
                Some(i) => is_first_with_id(notification_views(self.history@), id, i as int),
                None => !has_id(notification_views(self.history@), id),
            },
    {
        let mut i: usize = 0;
        while i < self.history.len()
            invariant
                i <= self.history@.len(),
                forall|j: int| 0 <= j < i ==> self.history@[j].id != id,
            decreases self.history@.len() - i,
        {
            if self.history[i].id == id {
                return Some(i);
            }
            i = i + 1;
        }
        None
    }

    /// Append or replace in-place; trims oldest entry when at capacity. No-op if history_max == 0.
    pub fn push_history(&mut self, n: Notification)
        ensures
            notification_views(final(self).history@) == spec_push_history(
                notification_views(old(self).history@),
                old(self).history_max as nat,
                n@,
            ),
            final(self).history_max == old(self).history_max,
            final(self).dnd_mode == old(self).dnd_mode,
            final(self).next_id == old(self).next_id,
            final(self).last_notification == old(self).last_notification,
            old(self).well_formed() ==> final(self).well_formed(),
    {
        proof {
            if old(self).well_formed() {
                lemma_history_within_capacity(
                    notification_views(self.history@),
                    self.history_max as nat,
                    n@,
                );
            }
        }
        if self.history_max == 0 {
            return;
        }
        if n.replaces_id > 0 {
            if let Some(pos) = self.position_of(n.replaces_id) {
                proof {
                    lemma_first_unique(notification_views(self.history@), n.replaces_id, pos as int);
                }
                let ghost before = self.history@;
                let ghost nv = n@;
                self.history.remove(pos);
                self.history.insert(pos, n);
                proof {
                    assert(notification_views(self.history@) =~= notification_views(before).update(
                        pos as int,
                        nv,
                    ));
                }
                return;
            }
        }
        let ghost before = self.history@;
        let ghost nv = n@;
        if self.history.len() >= self.history_max {
            self.history.pop_front();
        }
        self.history.push_back(n);
        proof {
            if before.len() >= self.history_max {
                assert(notification_views(self.history@) =~= notification_views(
                    before,
                ).drop_first().push(nv));
            } else {
                assert(notification_views(self.history@) =~= notification_views(before).push(nv));
            }
        }
    }

    /// Returns up to `count` most recent entries, newest first.
    pub fn get_history(&self, count: Option<usize>) -> (entries: Vec<&Notification>)
        ensures
            entries@.len() == spec_newest_first(self.history@, count).len(),
            forall|i: int|
                0 <= i < entries@.len() ==> *#[trigger] entries@[i] == spec_newest_first(
                    self.history@,
                    count,
                )[i],
    {
        let len = self.history.len();
        let k: usize = match count {
            Some(c) => if c < len {
                c
            } else {
                len
            },
            None => len,
        };
        let mut entries: Vec<&Notification> = Vec::new();
        let mut i: usize = 0;
        while i < k
            invariant
                k <= len,
                len == self.history@.len(),
                k == spec_newest_first(self.history@, count).len(),
                i <= k,
                entries@.len() == i,
                forall|j: int|
                    0 <= j < i ==> *#[trigger] entries@[j] == self.history@[len - 1 - j],
            decreases k - i,
        {
            entries.push(&self.history[len - 1 - i]);
            i = i + 1;
        }
        entries
    }

    /// Sets the history capacity, dropping the oldest entries until the
    /// history fits within it.
    pub fn set_history_max(&mut self, max: usize)
        ensures
            final(self).history_max == max,
            final(self).history@ == spec_trim_history(old(self).history@, max as nat),
            final(self).dnd_mode == old(self).dnd_mode,
            final(self).next_id == old(self).next_id,
            final(self).last_notification == old(self).last_notification,
            old(self).next_id >= 1 ==> final(self).well_formed(),
    {
        self.history_max = max;
        let ghost start = self.history@;
        while self.history.len() > max
            invariant
                start.len() >= self.history@.len(),
                self.history@ == start.skip(start.len() - self.history@.len()),
                start.len() > max ==> self.history@.len() >= max,
                start.len() <= max ==> self.history@.len() == start.len(),
                self.history_max == max,
                self.dnd_mode == old(self).dnd_mode,
                self.next_id == old(self).next_id,
                self.last_notification == old(self).last_notification,
            decreases self.history@.len(),
        {
            self.history.pop_front();
            proof {
                assert(self.history@ =~= start.skip(start.len() - self.history@.len()));
            }
        }
        proof {
            if start.len() <= max {
                assert(start.skip(0) =~= start);
            }
        }
    }
}

} // verus!
