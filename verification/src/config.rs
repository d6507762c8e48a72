//! Configuration sections and their defaults, and the paths of the
//! configuration files.

use vstd::prelude::*;
use crate::text::{join_path, path_join, has_prefix, starts_with, skip_chars};

verus! {

/// Where popups appear on the screen.
#[derive(Debug, Clone, Copy, PartialEq, Eq, Structural)]
pub enum Position {
    TopRight,
    TopLeft,
    BottomRight,
    BottomLeft,
    Center,
    CenterTop,
    CenterBottom,
}

impl Default for Position {
    fn default() -> (p: Self)
        ensures
            p == Position::TopRight,
    {
        Position::TopRight
    }
}

/// Do Not Disturb mode.
#[derive(Debug, Clone, Copy, PartialEq, Eq, Structural)]
pub enum DndMode {
    Off,
    Silent,
    Full,
}

impl Default for DndMode {
    fn default() -> (m: Self)
        ensures
            m == DndMode::Off,
    {
        DndMode::Off
    }
}

/// The `[general]` section: popup layout and lifetime.
#[derive(Debug, Clone, Copy)]
pub struct GeneralConfig {
    pub position: Position,
    pub margin_x: i32,
    pub margin_y: i32,
    pub max_visible: usize,
    pub timeout: u32,
    pub icon_size: i32,
    pub width: i32,
    pub font_size: i32,
}

impl GeneralConfig {
    pub fn default_position() -> (p: Position)
        ensures
            p == Position::TopRight,
    {
        Position::TopRight
    }

    pub fn default_margin_x() -> (v: i32)
        ensures
            v == 16,
    {
        16
    }

    pub fn default_margin_y() -> (v: i32)
        ensures
            v == 48,
    {
        48
    }

    pub fn default_max_visible() -> (v: usize)
        ensures
            v == 5,
    {
        5
    }

    pub fn default_timeout() -> (v: u32)
        ensures
            v == 5000,
    {
        5000
    }

    pub fn default_icon_size() -> (v: i32)
        ensures
            v == 36,
    {
        36
    }

    pub fn default_width() -> (v: i32)
        ensures
            v == 360,
    {
        360
    }

    pub fn default_font_size() -> (v: i32)
        ensures
            v == 14,
    {
        14
    }
}

impl Default for GeneralConfig {
    fn default() -> (c: Self)
        ensures
            c.position == Position::TopRight,
            c.margin_x == 16,
            c.margin_y == 48,
            c.max_visible == 5,
            c.timeout == 5000,
            c.icon_size == 36,
            c.width == 360,
            c.font_size == 14,
    {
        GeneralConfig {
            position: Self::default_position(),
            margin_x: Self::default_margin_x(),
            margin_y: Self::default_margin_y(),
            max_visible: Self::default_max_visible(),
            timeout: Self::default_timeout(),
            icon_size: Self::default_icon_size(),
            width: Self::default_width(),
            font_size: Self::default_font_size(),
        }
    }
}

/// The `[tts]` section: text-to-speech.
#[derive(Debug)]
pub struct TtsConfig {
    pub enabled: bool,
    pub speak_summary: bool,
    pub body_word_limit: u32,
    pub voice: String,
    pub rate: i32,
}

impl TtsConfig {
    pub fn default_enabled() -> (v: bool)
        ensures
            v,
    {
        true
    }

    pub fn default_speak_summary() -> (v: bool)
        ensures
            v,
    {
        true
    }

    pub fn default_body_word_limit() -> (v: u32)
        ensures
            v == 15,
    {
        15
    }
}

impl Clone for TtsConfig {
    fn clone(&self) -> (c: Self)
        ensures
            c == *self,
    {
        TtsConfig {
            enabled: self.enabled,
            speak_summary: self.speak_summary,
            body_word_limit: self.body_word_limit,
            voice: self.voice.clone(),
            rate: self.rate,
        }
    }
}

impl Default for TtsConfig {
    fn default() -> (c: Self)
        ensures
            c.enabled,
            c.speak_summary,
            c.body_word_limit == 15,
            c.voice@ == Seq::<char>::empty(),
            c.rate == 0,
    {
        TtsConfig {
            enabled: Self::default_enabled(),
            speak_summary: Self::default_speak_summary(),
            body_word_limit: Self::default_body_word_limit(),
            voice: String::new(),
            rate: 0,
        }
    }
}

/// The `[dnd]` section: the Do Not Disturb mode the daemon starts in.
#[derive(Debug, Clone, Copy)]
pub struct DndConfig {
    pub mode: DndMode,
}

impl Default for DndConfig {
    fn default() -> (c: Self)
        ensures
            c.mode == DndMode::Off,
    {
        DndConfig { mode: DndMode::Off }
    }
}

/// The `[actions]` section: the external picker command.
#[derive(Debug)]
pub struct ActionsConfig {
    pub picker: String,
}

impl ActionsConfig {
    pub fn default_picker() -> (p: String)
        ensures
            p@ == "rofi -dmenu -p 'Action:'"@,
    {
        "rofi -dmenu -p 'Action:'".to_owned()
    }
}

impl Clone for ActionsConfig {
    fn clone(&self) -> (c: Self)
        ensures
            c == *self,
    {
        ActionsConfig { picker: self.picker.clone() }
    }
}

impl Default for ActionsConfig {
    fn default() -> (c: Self)
        ensures
            c.picker@ == "rofi -dmenu -p 'Action:'"@,
    {
        ActionsConfig { picker: Self::default_picker() }
    }
}

/// The `[history]` section: how many notifications are remembered.
#[derive(Debug, Clone, Copy)]
pub struct HistoryConfig {
    pub max_entries: usize,
}

impl HistoryConfig {
    pub fn default_max_entries() -> (v: usize)
        ensures
            v == 50,
    {
        50
    }
}

impl Default for HistoryConfig {
    fn default() -> (c: Self)
        ensures
            c.max_entries == 50,
    {
        HistoryConfig { max_entries: 50 }
    }
}

/// What the daemon does when a watched file changes.
#[derive(Debug, Clone, Copy, PartialEq, Eq, Structural)]
pub enum WatchAction {
    /// Nothing: the event is not a modification.
    Ignore,
    /// Reload the style sheet only.
    ReloadCss,
    /// Reload `config.toml`, then the style sheet.
    ReloadConfig,
}

/// The reaction to a file-system event: only modifications count; a
/// modification of `style.css` reloads the style sheet alone, any other
/// (of `config.toml`) reloads the configuration.
pub open spec fn spec_watch_action(is_modification: bool, touches_style: bool) -> WatchAction {
    if !is_modification {
        WatchAction::Ignore
    } else if touches_style {
        WatchAction::ReloadCss
    } else {
        WatchAction::ReloadConfig
    }
}

/// Decides how to react to a file-system event on the watched files,
/// given whether it is a modification and whether `style.css` is among
/// its paths.
pub fn watch_action(is_modification: bool, touches_style: bool) -> (a: WatchAction)
    ensures
        a == spec_watch_action(is_modification, touches_style),
{
    if !is_modification {
        WatchAction::Ignore
    } else if touches_style {
        WatchAction::ReloadCss
    } else {
        WatchAction::ReloadConfig
    }
}

/// The view of an optional string slice.
pub open spec fn opt_str_view(s: Option<&str>) -> Option<Seq<char>> {
    match s {
        Some(t) => Some(t@),
        None => None,
    }
}

/// The base configuration directory: `$XDG_CONFIG_HOME` when set, else
/// `.config` under `$HOME`, else `.config` under the current directory.
pub open spec fn config_base(xdg_config_home: Option<Seq<char>>, home: Option<Seq<char>>) -> Seq<char> {
    match xdg_config_home {
        Some(x) => x,
        None => path_join(
            match home {
                Some(h) => h,
                None => "."@,
            },
            ".config"@,
        ),
    }
}

/// The file `name` in cooee's configuration directory.
pub open spec fn config_file(xdg_config_home: Option<Seq<char>>, home: Option<Seq<char>>, name: Seq<char>) -> Seq<char> {
    path_join(path_join(config_base(xdg_config_home, home), "cooee"@), name)
}

fn config_base_of(xdg_config_home: Option<&str>, home: Option<&str>) -> (b: String)
    ensures
        b@ == config_base(opt_str_view(xdg_config_home), opt_str_view(home)),
{
    match xdg_config_home {
        Some(x) => x.to_owned(),
        None => match home {
            Some(h) => join_path(h, ".config"),
            None => join_path(".", ".config"),
        },
    }
}

/// The path of `config.toml`, given the values of `$XDG_CONFIG_HOME` and `$HOME`.
pub fn config_path_from(xdg_config_home: Option<&str>, home: Option<&str>) -> (p: String)
    ensures
        p@ == config_file(opt_str_view(xdg_config_home), opt_str_view(home), "config.toml"@),
{
    let base = config_base_of(xdg_config_home, home);
    let dir = join_path(base.as_str(), "cooee");
    join_path(dir.as_str(), "config.toml")
}

/// The path of `style.css`, given the values of `$XDG_CONFIG_HOME` and `$HOME`.
pub fn style_path_from(xdg_config_home: Option<&str>, home: Option<&str>) -> (p: String)
    ensures
        p@ == config_file(opt_str_view(xdg_config_home), opt_str_view(home), "style.css"@),
{
    let base = config_base_of(xdg_config_home, home);
    let dir = join_path(base.as_str(), "cooee");
    join_path(dir.as_str(), "style.css")
}

/// A path with a leading `~/` expanded to the home directory, when one is known.
pub open spec fn expanded(path: Seq<char>, home: Option<Seq<char>>) -> Seq<char> {
    if has_prefix(path, "~/"@) && home is Some {
        path_join(home->0, path.skip(2))
    } else {
        path
    }
}

/// Expands a `~/` prefix of `path` to `home`; any other path, or any path
/// when no home directory is known, is returned unchanged.
pub fn expand_path_with_home(path: &str, home: Option<&str>) -> (p: String)
    ensures
        p@ == expanded(path@, opt_str_view(home)),
{
    if starts_with(path, "~/") {
        proof {
            reveal_strlit("~/");
        }
        if let Some(h) = home {
            let rest = skip_chars(path, 2);
            return join_path(h, rest.as_str());
        }
    }
    path.to_owned()
}

} // verus!
