//! Composes Windows toast notifications — title, body lines, logo, hero
//! image, buttons, sound and a progress bar — and renders each
//! configuration into the toast XML payload and the PowerShell script
//! that hands it to the OS notification manager. Every rendering function
//! carries a contract that pins the produced text down exactly; running
//! the script is left to the caller.

pub mod escape;
pub mod notify;
pub mod trim;
pub mod win_toast_notif;

pub use notify::{
    Action, ActivationType, Audio, CropCircle, Duration, ImagePlacement, Loop, Progress, Scenario,
    WinToastNotify,
};
