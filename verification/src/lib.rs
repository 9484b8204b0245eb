//! Verified core of the Xiee OS desktop components: desktop shortcut files,
//! file-type icons, download planning, window-bar and desktop-shell decisions,
//! notification styling and the splash-screen sequence.

pub mod text;
pub mod icons;
pub mod shortcut;
pub mod download;
pub mod components;
pub mod notify;
pub mod splash;
pub mod desktop;
