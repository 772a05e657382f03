//! What to do with the overlay window when its hotkey is pressed.

use vstd::prelude::*;
use crate::flavor::Flavor;

verus! {

/// One operation on a window.
#[derive(Clone, Copy, Debug, PartialEq, Eq, Structural)]
pub enum WindowCommand {
    Show,
    Hide,
    Unminimize,
    Focus,
    /// Keep the window above all others.
    PinOnTop,
}

/// The commands that toggle the overlay, given what the window reported
/// about its visibility (`None` when it could not tell, which counts as
/// hidden).
pub open spec fn overlay_toggle(flavor: Flavor, visible: Option<bool>) -> Seq<WindowCommand> {
    let shown = match visible {
        Some(v) => v,
        None => false,
    };
    if shown {
        seq![WindowCommand::Hide]
    } else {
        match flavor {
            Flavor::Desktop => seq![
                WindowCommand::Show,
                WindowCommand::Unminimize,
                WindowCommand::Focus,
                WindowCommand::PinOnTop,
            ],
            Flavor::Radio => seq![
                WindowCommand::Show,
                WindowCommand::Unminimize,
                WindowCommand::PinOnTop,
                WindowCommand::Focus,
            ],
            Flavor::Hub => seq![
                WindowCommand::Show,
                WindowCommand::Unminimize,
                WindowCommand::Focus,
            ],
        }
    }
}

/// The commands, in order, that toggle the overlay window of `flavor`.
pub fn overlay_toggle_plan(flavor: Flavor, visible: Option<bool>) -> (plan: Vec<WindowCommand>)
    ensures
        plan@ == overlay_toggle(flavor, visible),
{
    let shown = match visible {
        Some(v) => v,
        None => false,
    };
    let mut plan: Vec<WindowCommand> = Vec::new();
    if shown {
        plan.push(WindowCommand::Hide);
    } else {
        plan.push(WindowCommand::Show);
        plan.push(WindowCommand::Unminimize);
        match flavor {
            Flavor::Desktop => {
                plan.push(WindowCommand::Focus);
                plan.push(WindowCommand::PinOnTop);
            },
            Flavor::Radio => {
                plan.push(WindowCommand::PinOnTop);
                plan.push(WindowCommand::Focus);
            },
            Flavor::Hub => {
                plan.push(WindowCommand::Focus);
            },
        }
    }
    assert(plan@ =~= overlay_toggle(flavor, visible));
    plan
}

/// A toggle either hides a visible overlay and does nothing else, or brings
/// a hidden one up: it is shown first, and never hidden in the same plan.
pub proof fn overlay_toggle_hides_or_shows(flavor: Flavor, visible: Option<bool>)
    ensures
        visible == Some(true) ==> overlay_toggle(flavor, visible) == seq![WindowCommand::Hide],
        visible != Some(true) ==> {
            let plan = overlay_toggle(flavor, visible);
            &&& plan.len() >= 3
            &&& plan[0] == WindowCommand::Show
            &&& !plan.contains(WindowCommand::Hide)
        },
{
    let plan = overlay_toggle(flavor, visible);
    if visible != Some(true) {
        assert(plan[0] == WindowCommand::Show);
        assert forall|i: int| 0 <= i < plan.len() implies plan[i] != WindowCommand::Hide by {}
    }
}

/// Whether a window is visible after these commands, starting from
/// `visible`: showing makes it visible, hiding makes it invisible, and the
/// other commands (restore, focus, pin) leave visibility as it is.
pub open spec fn visibility_after(visible: bool, commands: Seq<WindowCommand>) -> bool
    decreases commands.len(),
{
    if commands.len() == 0 {
        visible
    } else {
        let next = match commands[0] {
            WindowCommand::Show => true,
            WindowCommand::Hide => false,
            _ => visible,
        };
        visibility_after(next, commands.drop_first())
    }
}

proof fn toggle_flips(flavor: Flavor, visible: bool)
    ensures
        visibility_after(visible, overlay_toggle(flavor, Some(visible))) == !visible,
{
    let p = overlay_toggle(flavor, Some(visible));
    if visible {
        assert(p.drop_first() =~= Seq::<WindowCommand>::empty());
        assert(visibility_after(false, p.drop_first()) == false);
    } else {
        let rest = p.drop_first();
        assert(p[0] == WindowCommand::Show);
        match flavor {
            Flavor::Hub => {
                assert(rest =~= seq![WindowCommand::Unminimize, WindowCommand::Focus]);
                assert(rest.drop_first() =~= seq![WindowCommand::Focus]);
                assert(rest.drop_first().drop_first() =~= Seq::<WindowCommand>::empty());
                assert(visibility_after(true, rest.drop_first().drop_first()));
                assert(visibility_after(true, rest.drop_first()));
                assert(visibility_after(true, rest));
            },
            Flavor::Desktop => {
                let r1 = rest.drop_first();
                let r2 = r1.drop_first();
                let r3 = r2.drop_first();
                assert(rest =~= seq![WindowCommand::Unminimize, WindowCommand::Focus, WindowCommand::PinOnTop]);
                assert(r1 =~= seq![WindowCommand::Focus, WindowCommand::PinOnTop]);
                assert(r2 =~= seq![WindowCommand::PinOnTop]);
                assert(r3 =~= Seq::<WindowCommand>::empty());
                assert(visibility_after(true, r3));
                assert(visibility_after(true, r2));
                assert(visibility_after(true, r1));
                assert(visibility_after(true, rest));
            },
            Flavor::Radio => {
                let r1 = rest.drop_first();
                let r2 = r1.drop_first();
                let r3 = r2.drop_first();
                assert(rest =~= seq![WindowCommand::Unminimize, WindowCommand::PinOnTop, WindowCommand::Focus]);
                assert(r1 =~= seq![WindowCommand::PinOnTop, WindowCommand::Focus]);
                assert(r2 =~= seq![WindowCommand::Focus]);
                assert(r3 =~= Seq::<WindowCommand>::empty());
                assert(visibility_after(true, r3));
                assert(visibility_after(true, r2));
                assert(visibility_after(true, r1));
                assert(visibility_after(true, rest));
            },
        }
    }
}

/// When the overlay reports its visibility and every command succeeds, a
/// toggle flips the visibility, so two toggles in a row restore it.
pub proof fn overlay_toggle_twice_restores(flavor: Flavor, visible: bool)
    ensures
        visibility_after(visible, overlay_toggle(flavor, Some(visible))) == !visible,
        visibility_after(
            !visible,
            overlay_toggle(flavor, Some(!visible)),
        ) == visible,
{
    toggle_flips(flavor, visible);
    toggle_flips(flavor, !visible);
}

/// How a toggle treats the overlay, for every application and every
/// visibility report: an unreadable report counts as hidden; a visible
/// overlay is only hidden; a hidden one is shown first, then restored from
/// the taskbar, focused, and, in the desktop shell and the radio, pinned
/// above the game (the desktop shell focuses before pinning, the radio pins
/// before focusing); the hub's overlay is not pinned.
pub proof fn overlay_toggle_brings_up_or_hides(flavor: Flavor, visible: Option<bool>)
    ensures
        overlay_toggle(flavor, Some(false)) == overlay_toggle(flavor, None),
        overlay_toggle(flavor, Some(true)) == seq![WindowCommand::Hide],
        visible != Some(true) ==> {
            let p = overlay_toggle(flavor, visible);
            &&& p[0] == WindowCommand::Show
            &&& p[1] == WindowCommand::Unminimize
            &&& p.contains(WindowCommand::Focus)
            &&& !p.contains(WindowCommand::Hide)
            &&& (flavor != Flavor::Hub ==> p.len() == 4 && p.contains(WindowCommand::PinOnTop))
            &&& (flavor == Flavor::Hub ==> p.len() == 3 && !p.contains(WindowCommand::PinOnTop))
            &&& (flavor == Flavor::Desktop ==> p[2] == WindowCommand::Focus && p[3]
                == WindowCommand::PinOnTop)
            &&& (flavor == Flavor::Radio ==> p[2] == WindowCommand::PinOnTop && p[3]
                == WindowCommand::Focus)
        },
{
    let p = overlay_toggle(flavor, visible);
    if visible != Some(true) {
        match flavor {
            Flavor::Hub => {
                assert(p[2] == WindowCommand::Focus);
                assert(!p.contains(WindowCommand::PinOnTop));
            },
            Flavor::Desktop => {
                assert(p[2] == WindowCommand::Focus);
                assert(p[3] == WindowCommand::PinOnTop);
            },
            Flavor::Radio => {
                assert(p[2] == WindowCommand::PinOnTop);
                assert(p[3] == WindowCommand::Focus);
            },
        }
        assert(!p.contains(WindowCommand::Hide));
    }
}

} // verus!
