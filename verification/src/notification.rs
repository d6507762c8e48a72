use vstd::prelude::*;

verus! {

/// Urgency level per the freedesktop.org notification specification.
#[derive(Debug, Clone, Copy, PartialEq, Eq, Structural)]
pub enum Urgency {
    Low,
    Normal,
    Critical,
}

impl Urgency {
    /// The urgency a raw D-Bus urgency byte stands for: 0 is low, 2 is
    /// critical, every other value is normal.
    pub open spec fn spec_from_byte(v: u8) -> Urgency {
        if v == 0 {
            Urgency::Low
        } else if v == 2 {
            Urgency::Critical
        } else {
            Urgency::Normal
        }
    }

    /// The byte that encodes an urgency on the wire.
    pub open spec fn code(self) -> u8 {
        match self {
            Urgency::Low => 0,
            Urgency::Normal => 1,
            Urgency::Critical => 2,
        }
    }

    /// The lower-case name of an urgency.
    pub open spec fn name(self) -> Seq<char> {
        match self {
            Urgency::Low => "low"@,
            Urgency::Normal => "normal"@,
            Urgency::Critical => "critical"@,
        }
    }

    /// Returns the lower-case name of the urgency (`low`, `normal`, `critical`).
    pub fn to_string(&self) -> (s: String)
        ensures
            s@ == self.name(),
    {
        match self {
            Urgency::Low => "low".to_owned(),
            Urgency::Normal => "normal".to_owned(),
            Urgency::Critical => "critical".to_owned(),
        }
    }
}

impl From<u8> for Urgency {
    fn from(v: u8) -> (u: Urgency) {
        if v == 0 {
            Urgency::Low
        } else if v == 2 {
            Urgency::Critical
        } else {
            Urgency::Normal
        }
    }
}

impl vstd::std_specs::convert::FromSpecImpl<u8> for Urgency {
    open spec fn obeys_from_spec() -> bool {
        true
    }

    open spec fn from_spec(v: u8) -> Urgency {
        Urgency::spec_from_byte(v)
    }
}

impl From<Urgency> for u8 {
    fn from(u: Urgency) -> (b: u8) {
        match u {
            Urgency::Low => 0,
            Urgency::Normal => 1,
            Urgency::Critical => 2,
        }
    }
}

impl vstd::std_specs::convert::FromSpecImpl<Urgency> for u8 {
    open spec fn obeys_from_spec() -> bool {
        true
    }

    open spec fn from_spec(u: Urgency) -> u8 {
        u.code()
    }
}

/// A single action (key and display label) offered by the sending application.
#[derive(Debug)]
pub struct Action {
    pub key: String,
    pub label: String,
}

/// What an action is made of: its key and its label.
pub struct ActionView {
    pub key: Seq<char>,
    pub label: Seq<char>,
}

impl View for Action {
    type V = ActionView;

    open spec fn view(&self) -> ActionView {
        ActionView { key: self.key@, label: self.label@ }
    }
}

impl Clone for Action {
    fn clone(&self) -> (res: Self)
        ensures
            res == *self,
    {
        Action { key: self.key.clone(), label: self.label.clone() }
    }
}

impl PartialEq for Action {
    fn eq(&self, other: &Self) -> (r: bool) {
        self.key == other.key && self.label == other.label
    }
}

impl Eq for Action {}

impl vstd::std_specs::cmp::PartialEqSpecImpl for Action {
    open spec fn obeys_eq_spec() -> bool {
        true
    }

    open spec fn eq_spec(&self, other: &Self) -> bool {
        self@ == other@
    }
}

/// The actions described by a flat `[key, label, key, label, ...]` list:
/// one per complete pair, in order; a trailing unpaired key is ignored.
pub open spec fn spec_parse_actions(flat: Seq<Seq<char>>) -> Seq<ActionView> {
    Seq::new(flat.len() / 2, |i: int| ActionView { key: flat[2 * i], label: flat[2 * i + 1] })
}

/// The views of a sequence of strings.
pub open spec fn string_views(v: Seq<String>) -> Seq<Seq<char>> {
    v.map_values(|s: String| s@)
}

/// The views of a sequence of actions.
pub open spec fn action_views(v: Seq<Action>) -> Seq<ActionView> {
    v.map_values(|a: Action| a@)
}

/// Parses the flat `[key, label, key, label, ...]` list from D-Bus into actions.
pub fn parse_actions(flat: &[String]) -> (actions: Vec<Action>)
    ensures
        action_views(actions@) == spec_parse_actions(string_views(flat@)),
{
    let mut actions: Vec<Action> = Vec::new();
    let n: usize = flat.len() / 2;
    let mut i: usize = 0;
    while i < n
        invariant
            n == flat@.len() / 2,
            i <= n,
            2 * n <= flat@.len(),
            flat@.len() <= usize::MAX,
            actions@.len() == i,
            forall|j: int|
                0 <= j < i ==> #[trigger] actions@[j]@ == (ActionView {
                    key: flat@[2 * j]@,
                    label: flat@[2 * j + 1]@,
                }),
        decreases n - i,
    {
        let k: usize = 2 * i;
        let a = Action { key: flat[k].clone(), label: flat[k + 1].clone() };
        actions.push(a);
        i = i + 1;
    }
    proof {
        assert(action_views(actions@) =~= spec_parse_actions(string_views(flat@)));
    }
    actions
}

/// Raw image data from the `image-data` hint (freedesktop spec, section image-data).
#[derive(Debug)]
pub struct ImageData {
    pub width: i32,
    pub height: i32,
    pub rowstride: i32,
    pub has_alpha: bool,
    pub bits_per_sample: i32,
    pub n_channels: i32,
    pub data: Vec<u8>,
}

/// What an image is made of, with its pixel bytes as a sequence.
pub struct ImageDataView {
    pub width: i32,
    pub height: i32,
    pub rowstride: i32,
    pub has_alpha: bool,
    pub bits_per_sample: i32,
    pub n_channels: i32,
    pub data: Seq<u8>,
}

impl View for ImageData {
    type V = ImageDataView;

    open spec fn view(&self) -> ImageDataView {
        ImageDataView {
            width: self.width,
            height: self.height,
            rowstride: self.rowstride,
            has_alpha: self.has_alpha,
            bits_per_sample: self.bits_per_sample,
            n_channels: self.n_channels,
            data: self.data@,
        }
    }
}

impl Clone for ImageData {
    fn clone(&self) -> (res: Self)
        ensures
            res@ == self@,
    {
        let data = self.data.clone();
        proof {
            assert(data@ =~= self.data@);
        }
        ImageData {
            width: self.width,
            height: self.height,
            rowstride: self.rowstride,
            has_alpha: self.has_alpha,
            bits_per_sample: self.bits_per_sample,
            n_channels: self.n_channels,
            data,
        }
    }
}

/// A point in time: whole seconds since the Unix epoch and the nanoseconds
/// within that second.
#[derive(Debug, Clone, Copy, PartialEq, Eq, Structural)]
pub struct Timestamp {
    pub secs: i64,
    pub nanos: u32,
}

/// Reads the clock: converts `std::time::SystemTime::now()` with chrono's
/// `From<SystemTime> for DateTime<Utc>`, which also handles clocks set
/// before the Unix epoch, and takes the instant apart into seconds and
/// nanoseconds. The instant is the same in every time zone; a local offset
/// only matters for display. The nanoseconds are less than a second; the
/// seconds are whatever the clock reads and are not stated. The conversion
/// unwraps chrono's range check (about 262,000 years either side of the
/// epoch), which a reading of the system clock is taken to pass.
#[verifier::external_body]
fn now_timestamp() -> (ts: Timestamp)
    ensures
        ts.nanos < 1_000_000_000,
{
    let utc: chrono::DateTime<chrono::Utc> = chrono::DateTime::from(std::time::SystemTime::now());
    Timestamp { secs: utc.timestamp(), nanos: utc.timestamp_subsec_nanos() }
}

/// A received desktop notification.
#[derive(Debug)]
pub struct Notification {
    pub id: u32,
    pub app_name: String,
    pub app_icon: String,
    pub summary: String,
    pub body: String,
    pub actions: Vec<Action>,
    pub urgency: Urgency,
    /// Expiry in milliseconds; 0 = server default, -1 = persistent
    pub expire_timeout: i32,
    /// Timestamp when this notification was received by the daemon
    pub received_at: Timestamp,
    /// Structured image data from the `image-data` hint
    pub image_data: Option<ImageData>,
    /// File path or icon-theme name from the `image-path` hint
    pub image_path: Option<String>,
    /// Non-zero means this notification replaces the one with this ID
    pub replaces_id: u32,
}

/// What a notification is made of, its texts and images by their views.
pub struct NotificationView {
    pub id: u32,
    pub app_name: Seq<char>,
    pub app_icon: Seq<char>,
    pub summary: Seq<char>,
    pub body: Seq<char>,
    pub actions: Seq<ActionView>,
    pub urgency: Urgency,
    pub expire_timeout: i32,
    pub received_at: Timestamp,
    pub image_data: Option<ImageDataView>,
    pub image_path: Option<Seq<char>>,
    pub replaces_id: u32,
}

/// The view of an optional image.
pub open spec fn opt_image_view(i: Option<ImageData>) -> Option<ImageDataView> {
    match i {
        Some(d) => Some(d@),
        None => None,
    }
}

/// The view of an optional string.
pub open spec fn opt_string_view(s: Option<String>) -> Option<Seq<char>> {
    match s {
        Some(t) => Some(t@),
        None => None,
    }
}

impl View for Notification {
    type V = NotificationView;

    open spec fn view(&self) -> NotificationView {
        NotificationView {
            id: self.id,
            app_name: self.app_name@,
            app_icon: self.app_icon@,
            summary: self.summary@,
            body: self.body@,
            actions: action_views(self.actions@),
            urgency: self.urgency,
            expire_timeout: self.expire_timeout,
            received_at: self.received_at,
            image_data: opt_image_view(self.image_data),
            image_path: opt_string_view(self.image_path),
            replaces_id: self.replaces_id,
        }
    }
}

/// Clones a list of actions.
fn clone_actions(v: &Vec<Action>) -> (res: Vec<Action>)
    ensures
        res@ == v@,
{
    let mut res: Vec<Action> = Vec::new();
    let mut i: usize = 0;
    while i < v.len()
        invariant
            i <= v@.len(),
            res@ == v@.subrange(0, i as int),
        decreases v@.len() - i,
    {
        res.push(v[i].clone());
        proof {
            assert(res@ =~= v@.subrange(0, i + 1));
        }
        i = i + 1;
    }
    proof {
        assert(res@ =~= v@);
    }
    res
}

/// Clones an optional string.
fn clone_opt_string(s: &Option<String>) -> (res: Option<String>)
    ensures
        res == *s,
{
    match s {
        Some(t) => Some(t.clone()),
        None => None,
    }
}

impl Clone for Notification {
    fn clone(&self) -> (res: Self)
        ensures
            res@ == self@,
    {
        let image_data = match &self.image_data {
            Some(d) => Some(d.clone()),
            None => None,
        };
        Notification {
            id: self.id,
            app_name: self.app_name.clone(),
            app_icon: self.app_icon.clone(),
            summary: self.summary.clone(),
            body: self.body.clone(),
            actions: clone_actions(&self.actions),
            urgency: self.urgency,
            expire_timeout: self.expire_timeout,
            received_at: self.received_at,
            image_data,
            image_path: clone_opt_string(&self.image_path),
            replaces_id: self.replaces_id,
        }
    }
}

impl Notification {
    /// Builds a notification received now, parsing the flat action list and
    /// decoding the urgency byte.
    pub fn new(
        id: u32,
        app_name: String,
        app_icon: String,
        summary: String,
        body: String,
        actions: Vec<String>,
        urgency: u8,
        expire_timeout: i32,
        image_data: Option<ImageData>,
        image_path: Option<String>,
        replaces_id: u32,
    ) -> (n: Self)
        ensures
            n.id == id,
            n.app_name == app_name,
            n.app_icon == app_icon,
            n.summary == summary,
            n.body == body,
            action_views(n.actions@) == spec_parse_actions(string_views(actions@)),
            n.urgency == Urgency::spec_from_byte(urgency),
            n.expire_timeout == expire_timeout,
            n.image_data == image_data,
            n.image_path == image_path,
            n.replaces_id == replaces_id,
            n.received_at.nanos < 1_000_000_000,
    {
        Notification {
            id,
            app_name,
            app_icon,
            summary,
            body,
            actions: parse_actions(actions.as_slice()),
            urgency: Urgency::from(urgency),
            expire_timeout,
            received_at: now_timestamp(),
            image_data,
            image_path,
            replaces_id,
        }
    }

    /// The display duration for a given server default: a positive expiry
    /// is kept; every other expiry (both `0` and `-1`) means the server
    /// default, and a server default of 0 means the popup stays until it
    /// is dismissed (no duration).
    pub open spec fn spec_display_duration(self, default_ms: u32) -> Option<u32> {
        if self.expire_timeout > 0 {
            Some(self.expire_timeout as u32)
        } else if default_ms == 0 {
            None
        } else {
            Some(default_ms)
        }
    }

    /// Effective display duration in ms, or `None` for a popup that stays
    /// until dismissed.
    ///
    /// Both `0` and `-1` map to `default_ms`. Although the FDO spec assigns different
    /// meanings to these two values, libnotify (used by virtually every app) sends `-1`
    /// to mean "use the server's default timeout", so treating `-1` as persistent would
    /// cause most notifications to never auto-close. A configured default of `0` is
    /// persistent.
    pub fn display_duration_ms(&self, default_ms: u32) -> (d: Option<u32>)
        ensures
            d == self.spec_display_duration(default_ms),
            self.expire_timeout > 0 ==> d == Some(self.expire_timeout as u32),
            self.expire_timeout <= 0 && default_ms > 0 ==> d == Some(default_ms),
            self.expire_timeout <= 0 && default_ms == 0 ==> d is None,
    {
        if self.expire_timeout > 0 {
            Some(self.expire_timeout as u32)
        } else if default_ms == 0 {
            None
        } else {
            Some(default_ms)
        }
    }
}

/// An expiry the application asks for is used as it is, whatever the
/// server default; without one (0, -1 or any non-positive value) the
/// server default applies, and a default of 0 keeps the popup until it is
/// dismissed. The duration never depends on the default when an expiry is
/// given.
pub proof fn lemma_display_duration(n: Notification, default_ms: u32, other_default: u32)
    ensures
        n.expire_timeout > 0 ==> n.spec_display_duration(default_ms) == Some(
            n.expire_timeout as u32,
        ) && n.spec_display_duration(default_ms) == n.spec_display_duration(other_default),
        n.expire_timeout > 0 ==> n.spec_display_duration(default_ms).unwrap() as int
            == n.expire_timeout as int,
        n.expire_timeout <= 0 && default_ms > 0 ==> n.spec_display_duration(default_ms) == Some(
            default_ms,
        ),
        n.expire_timeout <= 0 && default_ms == 0 ==> n.spec_display_duration(default_ms) is None,
{
}

/// Urgency bytes follow the notification specification: 0 is low, 1 is
/// normal, 2 is critical, and any other byte is read as normal; encoding
/// gives 0, 1 and 2 back.
pub proof fn lemma_urgency_bytes(b: u8)
    ensures
        Urgency::spec_from_byte(0) == Urgency::Low,
        Urgency::spec_from_byte(1) == Urgency::Normal,
        Urgency::spec_from_byte(2) == Urgency::Critical,
        b > 2 ==> Urgency::spec_from_byte(b) == Urgency::Normal,
        Urgency::Low.code() == 0 && Urgency::Normal.code() == 1 && Urgency::Critical.code() == 2,
{
}

/// Decoding the byte of an urgency gives the urgency back.
pub proof fn lemma_urgency_code_round_trip(u: Urgency)
    ensures
        Urgency::spec_from_byte(u.code()) == u,
{
}

} // verus!
