//! What each command of the bridge makes of the native side's answer.
//!
//! A command is carried out in two steps. The caller of this library makes the
//! native call; the function here that bears the command's name then says what
//! the command returns. For the two HUD commands the order is the other way
//! round: the function says what to ask of the native side, once the caller
//! has looked the window up.

use vstd::prelude::*;
use vstd::string::StringExecFns;

use crate::error::{Error, ErrorView, TauriErrorWrapper};

verus! {

/// The status with which the keychain reports that a value was saved. No other
/// status has a meaning of its own: each of them is a failure to save.
pub const SAVE_SUCCEEDED: i32 = 1;

/// A display theme that a caller can ask for.
#[derive(Debug, Clone, Copy, PartialEq, Eq)]
pub enum Theme {
    Light,
    Dark,
    /// Whatever the system is set to.
    System,
}

/// The lowercase equivalent of a text, as `str::to_lowercase` of the standard
/// library gives it.
pub uninterp spec fn lowercase(text: Seq<char>) -> Seq<char>;

/// The theme that a name in lowercase stands for: `dark` and `system` stand
/// for themselves, and every other text for the light theme.
pub open spec fn theme_of(lowered: Seq<char>) -> Theme {
    if lowered == "dark"@ {
        Theme::Dark
    } else if lowered == "system"@ {
        Theme::System
    } else {
        Theme::Light
    }
}

/// What the host found when it was asked for the window with a given label.
#[derive(Debug, PartialEq, Eq)]
pub enum WindowLookup {
    /// No open window bears the label.
    Missing,
    /// The window is open, but the host failed to hand out its native handle.
    Unavailable(TauriErrorWrapper),
    /// The window is open; this is its number in the window system.
    Found(isize),
}

/// What a HUD command asks of the native side.
#[derive(Debug, Clone, Copy, PartialEq, Eq)]
pub enum HudRequest {
    /// Show the overlay of the window with this number.
    Show(isize),
    /// Dismiss the overlay of the window with this number.
    Close(isize),
}

/// The failure that a HUD command ends in when no open window bears `label`.
pub open spec fn window_not_found(label: Seq<char>) -> ErrorView {
    ErrorView::Unknown("window not found: "@ + label)
}

/// Finishes the command that stores a preference: `failure` is what the
/// preference store answered. It answers nothing when the value is stored, and
/// with a message when it is not; the message becomes the description of the
/// failure that the caller gets.
pub fn set_user_default(failure: Option<String>) -> (done: Result<(), Error>)
    ensures
        match failure {
            None => done is Ok,
            Some(message) => done matches Err(error) && error@ == ErrorView::Unknown(message@),
        },
{
    match failure {
        None => Ok(()),
        Some(message) => Err(Error::Unknown(message)),
    }
}

/// Whether a status that the keychain reported means that the value was saved.
pub fn save_succeeded(status: i32) -> (saved: bool)
    ensures
        saved == (status == SAVE_SUCCEEDED),
{
    status == SAVE_SUCCEEDED
}

/// Finishes the command that saves a credential: `outcome` is the status that
/// the keychain reported, or the failure to reach it. The caller learns
/// whether the value was saved; a failure is passed on as it is.
pub fn save_keychain(outcome: Result<i32, Error>) -> (saved: Result<bool, Error>)
    ensures
        match outcome {
            Ok(status) => saved == Ok::<bool, Error>(status == SAVE_SUCCEEDED),
            Err(error) => saved == Err::<bool, Error>(error),
        },
{
    match outcome {
        Ok(status) => Ok(save_succeeded(status)),
        Err(error) => Err(error),
    }
}

/// Calls `str::to_lowercase` of the standard library. The contract is not
/// proved: it gives the text that comes back the name [`lowercase`], which
/// claims only that the same text always comes back for the same argument.
#[verifier::external_body]
fn to_lowercase(text: &str) -> (lowered: String)
    ensures
        lowered@ == lowercase(text@),
{
    text.to_lowercase()
}

/// The theme that a name already in lowercase stands for.
pub fn theme_of_lowercase(lowered: &str) -> (theme: Theme)
    ensures
        theme == theme_of(lowered@),
{
    let lowered = String::from_str(lowered);
    if lowered == String::from_str("dark") {
        Theme::Dark
    } else if lowered == String::from_str("system") {
        Theme::System
    } else {
        Theme::Light
    }
}

/// The theme that the user interface names with `name`. The name is read
/// without regard to case, and no name is refused: one that is neither
/// `dark` nor `system` asks for the light theme.
pub fn theme_named(name: &str) -> (theme: Theme)
    ensures
        theme == theme_of(lowercase(name@)),
{
    let lowered = to_lowercase(name);
    theme_of_lowercase(lowered.as_str())
}

/// The theme that the host is asked for. Naming no theme asks for the
/// system's own, so the command can always be carried out.
pub fn set_theme(theme: Option<Theme>) -> (asked: Theme)
    ensures
        asked == match theme {
            Some(named) => named,
            None => Theme::System,
        },
{
    match theme {
        Some(named) => named,
        None => Theme::System,
    }
}

/// The number of the window that a HUD command is aimed at, or the failure
/// that the command ends in: a window that is not open, or whose handle the
/// host cannot give, is an ordinary failure with a description.
fn hud_target(label: &str, window: WindowLookup) -> (target: Result<isize, Error>)
    ensures
        match window {
            WindowLookup::Found(number) => target == Ok::<isize, Error>(number),
            WindowLookup::Missing => target matches Err(error) && error@ == window_not_found(label@),
            WindowLookup::Unavailable(reason) => target matches Err(error) && error@
                == ErrorView::Unknown(reason@),
        },
{
    match window {
        WindowLookup::Found(number) => Ok(number),
        WindowLookup::Missing => Err(
            Error::Unknown(String::from_str("window not found: ").concat(label)),
        ),
        WindowLookup::Unavailable(reason) => Err(Error::from(reason)),
    }
}

/// Begins the command that shows the HUD of the window labelled `label`:
/// `window` is what the host found under that label. Where it found the
/// window, the native side is to show the overlay of exactly that window;
/// where it did not, nothing is asked of the native side and the caller gets a
/// failure that names the label.
pub fn show_hud(label: &str, window: WindowLookup) -> (request: Result<HudRequest, Error>)
    ensures
        match window {
            WindowLookup::Found(number) => request == Ok::<HudRequest, Error>(HudRequest::Show(number)),
            WindowLookup::Missing => request matches Err(error) && error@ == window_not_found(label@),
            WindowLookup::Unavailable(reason) => request matches Err(error) && error@
                == ErrorView::Unknown(reason@),
        },
{
    match hud_target(label, window) {
        Ok(number) => Ok(HudRequest::Show(number)),
        Err(error) => Err(error),
    }
}

/// Begins the command that dismisses the HUD of the window labelled `label`;
/// see [`show_hud`], of which this is the counterpart.
pub fn close_hud(label: &str, window: WindowLookup) -> (request: Result<HudRequest, Error>)
    ensures
        match window {
            WindowLookup::Found(number) => request == Ok::<HudRequest, Error>(HudRequest::Close(number)),
            WindowLookup::Missing => request matches Err(error) && error@ == window_not_found(label@),
            WindowLookup::Unavailable(reason) => request matches Err(error) && error@
                == ErrorView::Unknown(reason@),
        },
{
    match hud_target(label, window) {
        Ok(number) => Ok(HudRequest::Close(number)),
        Err(error) => Err(error),
    }
}

} // verus!
