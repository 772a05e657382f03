//! The application shell: greeting, tray menu, tray clicks, closing the main
//! window, silent start-up and the telemetry-plugin command.

use vstd::prelude::*;
use vstd::string::StringExecFns;
use crate::flavor::{Flavor, Window};
use crate::text::same_text;

verus! {

/// The greeting the desktop shell answers with.
pub open spec fn greeting(name: Seq<char>) -> Seq<char> {
    "Hello, "@ + name + "! SimNation Desktop is ready."@
}

/// Greets the user by name.
pub fn greet(name: &str) -> (message: String)
    ensures
        message@ == greeting(name@),
{
    let mut message = String::from_str("Hello, ");
    message.append(name);
    message.append("! SimNation Desktop is ready.");
    message
}

/// The answer to a request to install the game's telemetry plugin: the hub
/// already provides telemetry, so nothing is installed.
pub open spec fn telemetry_plugin_note() -> Seq<char> {
    "SCS Telemetry is active via SimNation Hub."@
}

/// Answers a request to install the game's telemetry plugin. It always
/// succeeds.
pub fn install_telemetry_plugin() -> (answer: Result<String, String>)
    ensures
        answer matches Ok(note) && note@ == telemetry_plugin_note(),
{
    Ok(String::from_str("SCS Telemetry is active via SimNation Hub."))
}

/// An entry of the tray menu.
pub struct MenuEntry {
    pub id: &'static str,
    pub title: &'static str,
}

/// The tray menu of an application: its entries' ids and titles, in order.
pub open spec fn menu_of(flavor: Flavor) -> Seq<(Seq<char>, Seq<char>)> {
    match flavor {
        Flavor::Hub => seq![("show"@, "Show Hub"@), ("quit"@, "Quit SimNation"@)],
        _ => seq![("show"@, "Open SimNation"@), ("quit"@, "Quit Radio"@)],
    }
}

/// The tray menu of an application, in order.
pub fn tray_menu(flavor: Flavor) -> (entries: Vec<MenuEntry>)
    ensures
        entries@.len() == 2,
        menu_choice_of(entries@[0].id@) == MenuChoice::ShowMain,
        menu_choice_of(entries@[1].id@) == MenuChoice::Quit,
        entries@.len() == menu_of(flavor).len(),
        forall|i: int|
            0 <= i < entries@.len() ==> (#[trigger] entries@[i]).id@ == menu_of(flavor)[i].0
                && entries@[i].title@ == menu_of(flavor)[i].1,
{
    let mut entries: Vec<MenuEntry> = Vec::new();
    proof {
        tray_menu_entries_are_routed(flavor);
    }
    match flavor {
        Flavor::Hub => {
            entries.push(MenuEntry { id: "show", title: "Show Hub" });
            entries.push(MenuEntry { id: "quit", title: "Quit SimNation" });
        },
        _ => {
            entries.push(MenuEntry { id: "show", title: "Open SimNation" });
            entries.push(MenuEntry { id: "quit", title: "Quit Radio" });
        },
    }
    entries
}

/// What a click on a tray-menu entry asks for.
#[derive(Clone, Copy, Debug, PartialEq, Eq, Structural)]
pub enum MenuChoice {
    /// Show the main window and focus it.
    ShowMain,
    /// End the process.
    Quit,
    /// Nothing to do.
    Ignore,
}

pub open spec fn menu_choice_of(id: Seq<char>) -> MenuChoice {
    if id == "show"@ {
        MenuChoice::ShowMain
    } else if id == "quit"@ {
        MenuChoice::Quit
    } else {
        MenuChoice::Ignore
    }
}

/// What the tray-menu entry with this id asks for.
pub fn menu_choice(id: &str) -> (choice: MenuChoice)
    ensures
        choice == menu_choice_of(id@),
{
    if same_text(id, "show") {
        MenuChoice::ShowMain
    } else if same_text(id, "quit") {
        MenuChoice::Quit
    } else {
        MenuChoice::Ignore
    }
}

/// Whether a click on the tray icon itself (left button or not) brings up
/// the main window. The hub's tray icon does not react to clicks.
pub fn tray_click_shows_main(flavor: Flavor, left_button: bool) -> (show: bool)
    ensures
        show == (left_button && flavor != Flavor::Hub),
{
    match flavor {
        Flavor::Hub => false,
        _ => left_button,
    }
}

/// Whether a request to close the window with this label hides it instead
/// (the desktop shell and the radio keep running in the tray when their main
/// window is closed; the hub closes normally).
pub fn hide_instead_of_close(flavor: Flavor, label: &str) -> (hide: bool)
    ensures
        hide == (flavor != Flavor::Hub && label@ == crate::flavor::label_of(flavor, Window::Main)),
{
    match flavor {
        Flavor::Hub => false,
        _ => same_text(label, crate::flavor::window_label(flavor, Window::Main)),
    }
}

/// The argument with which the autostart entry launches the application.
pub open spec fn silent_flag() -> Seq<char> {
    "--silent"@
}

/// The argument with which the autostart entry launches the application.
pub fn autostart_args() -> (args: Vec<&'static str>)
    ensures
        args@.len() == 1,
        args@[0]@ == silent_flag(),
{
    let mut args: Vec<&'static str> = Vec::new();
    args.push("--silent");
    args
}

/// Whether the main window starts hidden: the desktop shell hides it when
/// launched with the silent flag; the other applications never do.
pub fn starts_hidden(flavor: Flavor, args: &Vec<String>) -> (hidden: bool)
    ensures
        hidden == (flavor == Flavor::Desktop && exists|i: int|
            0 <= i < args@.len() && #[trigger] args@[i]@ == silent_flag()),
{
    match flavor {
        Flavor::Desktop => {},
        _ => {
            return false;
        },
    }
    let mut i: usize = 0;
    while i < args.len()
        invariant
            flavor == Flavor::Desktop,
            i <= args.len(),
            forall|k: int| 0 <= k < i ==> #[trigger] args@[k]@ != silent_flag(),
        decreases args.len() - i,
    {
        if same_text(args[i].as_str(), "--silent") {
            assert(args@[i as int]@ == silent_flag());
            return true;
        }
        i = i + 1;
    }
    false
}

/// Every entry of every tray menu does something when clicked: the first
/// brings up the main window, the last quits, and there are just these two.
pub proof fn tray_menu_entries_are_routed(flavor: Flavor)
    ensures
        menu_of(flavor).len() == 2,
        menu_choice_of(menu_of(flavor)[0].0) == MenuChoice::ShowMain,
        menu_choice_of(menu_of(flavor)[1].0) == MenuChoice::Quit,
        forall|i: int|
            0 <= i < menu_of(flavor).len() ==> menu_choice_of(#[trigger] menu_of(flavor)[i].0)
                != MenuChoice::Ignore,
{
    reveal_strlit("show");
    reveal_strlit("quit");
    assert("quit"@[0] != "show"@[0]);
    let m = menu_of(flavor);
    assert(m[0].0 == "show"@);
    assert(m[1].0 == "quit"@);
    assert(menu_choice_of(m[1].0) == MenuChoice::Quit);
}

} // verus!
