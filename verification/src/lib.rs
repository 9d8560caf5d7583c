//! The verified core of a bridge between an application shell and three native
//! facilities of macOS: the per-application preference store, the keychain and
//! a transient overlay ("HUD") that belongs to a window.
//!
//! Every command of the bridge is one native call with a little judgement
//! around it. The native calls themselves cannot be made from verified code;
//! what is here is the judgement: what a native answer means for the caller,
//! which window a HUD command is aimed at, which theme a name stands for and
//! which the host is asked for, and how a failure is put into words. Each function takes what the native
//! side answered as a plain value and states in its contract exactly what the
//! command returns for it.

pub mod commands;
pub mod error;

pub use commands::{
    close_hud, save_keychain, save_succeeded, set_theme, set_user_default, show_hud, theme_named,
    theme_of_lowercase, HudRequest, Theme, WindowLookup, SAVE_SUCCEEDED,
};
pub use error::{Error, ErrorView, TauriErrorWrapper};
