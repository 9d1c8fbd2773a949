//! The settings window: whether it is showing, which control changed, which
//! link was followed, and the version label it shows.
use vstd::prelude::*;
use crate::keys::{ends_with, matches_open_settings_seq, open_settings_key_seq};
use crate::CURRENT_VERSION;

verus! {

/// Whether the settings window is showing. At most one is open at a time.
pub struct SettingsWindow {
    showing: bool,
}

/// What a request to show the settings window does, given whether it is
/// showing: whether a window is to be opened, and whether one shows afterwards.
pub open spec fn show_settings_step(showing: bool) -> (bool, bool) {
    if showing {
        (false, true)
    } else {
        (true, true)
    }
}

/// What a key press does, given the keys typed last and whether the window is
/// showing: whether a window is to be opened, and whether one shows afterwards.
pub open spec fn keydown_step(last_keys: Seq<u8>, showing: bool) -> (bool, bool) {
    if ends_with(last_keys, open_settings_key_seq()) {
        show_settings_step(showing)
    } else {
        (false, showing)
    }
}

impl View for SettingsWindow {
    type V = bool;

    closed spec fn view(&self) -> bool {
        self.showing
    }
}

impl SettingsWindow {
    /// No settings window shows when the program starts.
    pub fn new() -> (w: Self)
        ensures
            w@ == false,
    {
        SettingsWindow { showing: false }
    }

    /// Whether the settings window is showing.
    pub fn is_showing(&self) -> (r: bool)
        ensures
            r == self@,
    {
        self.showing
    }

    /// A request to show the settings window. Returns whether a window is to be
    /// opened: only when none is showing. Afterwards one is showing.
    pub fn show_settings(&mut self) -> (open: bool)
        ensures
            open == show_settings_step(old(self)@).0,
            final(self)@ == show_settings_step(old(self)@).1,
            open == !old(self)@,
            final(self)@,
    {
        if self.showing {
            return false;
        }
        self.showing = true;
        true
    }

    /// The settings window has closed: a later request opens a new one.
    pub fn window_will_close(&mut self)
        ensures
            final(self)@ == false,
    {
        self.showing = false;
    }

    /// A key press, after which `last_keys` are the keys typed last, oldest
    /// first. When they end with Q A Z 1 2 3 the settings window is asked for.
    /// Returns whether a window is to be opened.
    pub fn handle_keydown(&mut self, last_keys: &[u8]) -> (open: bool)
        ensures
            open == keydown_step(last_keys@, old(self)@).0,
            final(self)@ == keydown_step(last_keys@, old(self)@).1,
            open <==> (!old(self)@ && typed_q_a_z_1_2_3(last_keys@)),
            final(self)@ == (old(self)@ || open),
    {
        proof {
            lemma_keydown_opens_only_on_sequence(last_keys@, self@);
        }
        if !matches_open_settings_seq(last_keys) {
            return false;
        }
        self.show_settings()
    }
}

/// The link a button of the settings window opens, by the button's tag.
#[derive(PartialEq, Eq, Structural, Clone, Copy, Debug)]
pub enum Link {
    Website,
    Donate,
}

/// The link for a button's tag: 0 is the web site, 1 the donation page.
pub fn link_for_tag(tag: i64) -> (link: Link)
    requires
        tag == 0 || tag == 1,
    ensures
        tag == 0 ==> link == Link::Website,
        tag == 1 ==> link == Link::Donate,
{
    if tag == 0 {
        Link::Website
    } else {
        Link::Donate
    }
}

impl Link {
    /// The address the link opens.
    pub fn url(&self) -> (u: &'static str)
        ensures
            *self == Link::Website ==> u == crate::WEBSITE,
            *self == Link::Donate ==> u == crate::DONATE_URL,
    {
        match self {
            Link::Website => crate::WEBSITE,
            Link::Donate => crate::DONATE_URL,
        }
    }
}

/// The control of the settings window whose value changed, by its tag.
#[derive(PartialEq, Eq, Structural, Clone, Copy, Debug)]
pub enum SettingControl {
    AudioScheme,
    Volume,
    Pitch,
}

/// The control for a tag: 0 is the audio scheme menu, 1 the volume slider,
/// 2 the pitch slider.
pub fn setting_control_for_tag(tag: i64) -> (c: SettingControl)
    requires
        0 <= tag <= 2,
    ensures
        tag == 0 ==> c == SettingControl::AudioScheme,
        tag == 1 ==> c == SettingControl::Volume,
        tag == 2 ==> c == SettingControl::Pitch,
{
    if tag == 0 {
        SettingControl::AudioScheme
    } else if tag == 1 {
        SettingControl::Volume
    } else {
        SettingControl::Pitch
    }
}

/// The text of the settings window's version label: "v" and the version.
pub fn version_label() -> (s: String)
    ensures
        s@ == "v"@ + CURRENT_VERSION@,
{
    let mut s = "v".to_owned();
    s.append(CURRENT_VERSION);
    s
}

/// Whether the last six keys of `keys` are Q, A, Z, 1, 2, 3, whose virtual key
/// codes are 12, 0, 6, 18, 19 and 20.
pub open spec fn typed_q_a_z_1_2_3(keys: Seq<u8>) -> bool {
    let n = keys.len();
    &&& n >= 6
    &&& keys[n - 6] == 12 && keys[n - 5] == 0 && keys[n - 4] == 6
    &&& keys[n - 3] == 18 && keys[n - 2] == 19 && keys[n - 1] == 20
}

/// A key press asks for a window exactly when none shows and the last six keys
/// typed are Q A Z 1 2 3 (so a key typed after the sequence asks for nothing),
/// and a key press never closes a window that shows: afterwards one shows
/// exactly when one showed before or one was opened.
pub proof fn lemma_keydown_opens_only_on_sequence(keys: Seq<u8>, showing: bool)
    ensures
        keydown_step(keys, showing).0 <==> (!showing && typed_q_a_z_1_2_3(keys)),
        keydown_step(keys, showing).1 == (showing || keydown_step(keys, showing).0),
        showing ==> keydown_step(keys, showing).1,
{
    let n = keys.len();
    if n >= 6 {
        let tail = keys.subrange(n - 6, n as int);
        if typed_q_a_z_1_2_3(keys) {
            assert(tail =~= open_settings_key_seq());
        }
        if tail == open_settings_key_seq() {
            assert(tail[0] == keys[n - 6] && tail[5] == keys[n - 1]);
            assert(tail[1] == keys[n - 5] && tail[2] == keys[n - 4]);
            assert(tail[3] == keys[n - 3] && tail[4] == keys[n - 2]);
        }
    }
}

/// At most one settings window opens: a second request while one shows opens
/// nothing, and once it has closed the next request opens one again.
pub proof fn lemma_one_window_at_a_time(showing: bool)
    ensures
        !show_settings_step(show_settings_step(showing).1).0,
        show_settings_step(false).0,
        show_settings_step(showing).1,
{
}

/// Typing the sequence opens the settings window when none shows, and typing it
/// again before the window closes opens no second one.
pub proof fn lemma_sequence_opens_once(prefix: Seq<u8>, again: Seq<u8>)
    ensures
        keydown_step(prefix + open_settings_key_seq(), false) == (true, true),
        keydown_step(again, keydown_step(prefix + open_settings_key_seq(), false).1).0 == false,
{
    crate::keys::lemma_sequence_after_any_prefix(prefix);
}

} // verus!
