//! The three companion applications and the windows they manage.

use vstd::prelude::*;

verus! {

/// Which companion application a decision is made for.
#[derive(Clone, Copy, Debug, PartialEq, Eq, Structural)]
pub enum Flavor {
    /// The SimNation desktop shell.
    Desktop,
    /// The radio player with its in-game overlay.
    Radio,
    /// The telemetry hub.
    Hub,
}

/// A window of an application.
#[derive(Clone, Copy, Debug, PartialEq, Eq, Structural)]
pub enum Window {
    /// The main application window.
    Main,
    /// The in-game overlay window.
    Overlay,
}

/// The label under which `window` is registered in `flavor`.
pub open spec fn label_of(flavor: Flavor, window: Window) -> Seq<char> {
    match window {
        Window::Main => "main"@,
        Window::Overlay => match flavor {
            Flavor::Desktop => "overlay"@,
            _ => "radio_overlay"@,
        },
    }
}

/// The label under which `window` is registered in `flavor`.
pub fn window_label(flavor: Flavor, window: Window) -> (label: &'static str)
    ensures
        label@ == label_of(flavor, window),
{
    match window {
        Window::Main => "main",
        Window::Overlay => match flavor {
            Flavor::Desktop => "overlay",
            _ => "radio_overlay",
        },
    }
}

/// Every application calls its main window "main"; the overlay never
/// shares the main window's label; the radio and the hub drive the same
/// overlay window ("radio_overlay"), the desktop shell its own ("overlay").
pub proof fn window_labels_are_distinct(flavor: Flavor)
    ensures
        label_of(flavor, Window::Main) == "main"@,
        label_of(flavor, Window::Overlay) != label_of(flavor, Window::Main),
        label_of(Flavor::Radio, Window::Overlay) == label_of(Flavor::Hub, Window::Overlay),
        label_of(Flavor::Radio, Window::Overlay) == "radio_overlay"@,
        label_of(Flavor::Desktop, Window::Overlay) == "overlay"@,
{
    reveal_strlit("main");
    reveal_strlit("overlay");
    reveal_strlit("radio_overlay");
}

} // verus!
