//! The decisions of the Tickeys key-sound utility, verified: the key sequence
//! that opens the settings window, the window's open/closed state, the choice of
//! the audio scheme, the resource paths, the update check and the
//! accessibility-permission dialogue.
use vstd::prelude::*;

pub mod keys;
pub mod settings;
pub mod schemes;
pub mod paths;
pub mod update;
pub mod json_guard;
pub mod accessibility;

verus! {

/// The version of this program, as compared with the one the update server reports.
pub const CURRENT_VERSION: &'static str = "0.3.5";

/// The project's web site, opened by the notification and by the settings window.
pub const WEBSITE: &'static str = "http://www.yingdev.com/projects/tickeys";

/// The donation page, opened by the settings window.
pub const DONATE_URL: &'static str = "http://www.yingdev.com/home/donate";

/// Where the latest version number is asked for.
pub const CHECK_UPDATE_API: &'static str = "http://www.yingdev.com/projects/latestVersion?product=Tickeys";

} // verus!
