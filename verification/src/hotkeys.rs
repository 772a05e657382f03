//! Global hotkeys: which shortcuts to release and bind when the user changes
//! them, and what a pressed shortcut triggers.

use vstd::prelude::*;
use crate::flavor::Flavor;

verus! {

/// What a user-configurable hotkey is for.
#[derive(Clone, Copy, Debug, PartialEq, Eq, Structural)]
pub enum HotkeyRole {
    Play,
    Stop,
    Overlay,
}

/// An event sent to the web front end.
#[derive(Clone, Copy, Debug, PartialEq, Eq, Structural)]
pub enum AppEvent {
    MediaPlay,
    MediaStop,
    MediaHardwareToggle,
    TelemetryUpdate,
}

/// The name under which an event is emitted.
pub open spec fn event_label(event: AppEvent) -> Seq<char> {
    match event {
        AppEvent::MediaPlay => "media-play"@,
        AppEvent::MediaStop => "media-stop"@,
        AppEvent::MediaHardwareToggle => "media-hardware-toggle"@,
        AppEvent::TelemetryUpdate => "telemetry-update"@,
    }
}

/// The name under which an event is emitted.
pub fn event_name(event: AppEvent) -> (name: &'static str)
    ensures
        name@ == event_label(event),
{
    match event {
        AppEvent::MediaPlay => "media-play",
        AppEvent::MediaStop => "media-stop",
        AppEvent::MediaHardwareToggle => "media-hardware-toggle",
        AppEvent::TelemetryUpdate => "telemetry-update",
    }
}

/// What pressing a shortcut does.
#[derive(Clone, Copy, Debug, PartialEq, Eq, Structural)]
pub enum Reaction {
    /// Send this event to the front end.
    Emit(AppEvent),
    /// Show or hide the overlay window.
    ToggleOverlay,
}

pub open spec fn role_reaction(role: HotkeyRole) -> Reaction {
    match role {
        HotkeyRole::Play => Reaction::Emit(AppEvent::MediaPlay),
        HotkeyRole::Stop => Reaction::Emit(AppEvent::MediaStop),
        HotkeyRole::Overlay => Reaction::ToggleOverlay,
    }
}

/// What a user hotkey does when its shortcut changes state: it acts on the
/// press only, never on the release.
pub fn hotkey_reaction(role: HotkeyRole, pressed: bool) -> (r: Option<Reaction>)
    ensures
        r == (if pressed { Some(role_reaction(role)) } else { None }),
{
    if !pressed {
        return None;
    }
    match role {
        HotkeyRole::Play => Some(Reaction::Emit(AppEvent::MediaPlay)),
        HotkeyRole::Stop => Some(Reaction::Emit(AppEvent::MediaStop)),
        HotkeyRole::Overlay => Some(Reaction::ToggleOverlay),
    }
}

/// Whether the shortcut parser accepts this key text.
pub uninterp spec fn shortcut_accepted(key: Seq<char>) -> bool;

/// Calls `<global_hotkey::hotkey::HotKey as FromStr>::from_str` (the parser
/// behind the global-shortcut plugin's `Shortcut`) and reports whether it
/// accepted the text. Acceptance is named by `shortcut_accepted` of the
/// text's characters: the parser reads nothing but its argument. The one
/// case stated outright is the empty text, which the parser refuses (it is
/// a single empty token, which no key name matches).
#[verifier::external_body]
fn parses_as_shortcut(key: &str) -> (accepted: bool)
    ensures
        accepted == shortcut_accepted(key@),
        key@.len() == 0 ==> !accepted,
{
    key.parse::<global_hotkey::hotkey::HotKey>().is_ok()
}

/// A key text together with whether the shortcut parser accepts it.
pub struct CheckedKey {
    pub key: String,
    pub accepted: bool,
}

/// Runs the shortcut parser over a key text. The empty text is never
/// accepted.
pub fn check_key(key: String) -> (c: CheckedKey)
    ensures
        c.key@ == key@,
        c.accepted == shortcut_accepted(key@),
        c.accepted == accepted_key(key@),
{
    let accepted = parses_as_shortcut(key.as_str());
    CheckedKey { key, accepted }
}

/// A shortcut to bind and the role it gets.
pub struct Binding {
    pub key: String,
    pub role: HotkeyRole,
}

/// The shortcuts to release (those previously configured) and those to bind.
pub struct HotkeyPlan {
    pub release: Vec<String>,
    pub bind: Vec<Binding>,
}

/// An old key is released when one is configured (the text is not empty)
/// and the parser accepts it.
pub open spec fn released(key: Seq<char>, accepted: bool) -> Seq<Seq<char>> {
    if key.len() > 0 && accepted {
        seq![key]
    } else {
        Seq::empty()
    }
}

/// A new key is bound to its role when the parser accepts it.
pub open spec fn bound(key: Seq<char>, accepted: bool, role: HotkeyRole) -> Seq<(Seq<char>, HotkeyRole)> {
    if accepted {
        seq![(key, role)]
    } else {
        Seq::empty()
    }
}

/// The characters of each string.
pub open spec fn texts(keys: Seq<String>) -> Seq<Seq<char>> {
    keys.map_values(|s: String| s@)
}

/// The key text and role of each binding.
pub open spec fn bindings(b: Seq<Binding>) -> Seq<(Seq<char>, HotkeyRole)> {
    b.map_values(|x: Binding| (x.key@, x.role))
}

fn push_released(release: &mut Vec<String>, key: CheckedKey)
    ensures
        texts(final(release)@) == texts(old(release)@) + released(key.key@, key.accepted),
{
    if !key.key.as_str().is_empty() && key.accepted {
        release.push(key.key);
    }
    assert(texts(final(release)@) =~= texts(old(release)@) + released(key.key@, key.accepted));
}

fn push_bound(bind: &mut Vec<Binding>, key: CheckedKey, role: HotkeyRole)
    ensures
        bindings(final(bind)@) == bindings(old(bind)@) + bound(key.key@, key.accepted, role),
{
    if key.accepted {
        bind.push(Binding { key: key.key, role });
    }
    assert(bindings(final(bind)@) =~= bindings(old(bind)@) + bound(key.key@, key.accepted, role));
}

/// Plans a change of the play, stop and overlay hotkeys from keys already
/// run through the parser: the old keys that are configured and accepted
/// are released, in that order, then the accepted new keys are bound to
/// their roles, in that order.
pub fn plan_checked_hotkeys(
    old_play: CheckedKey,
    new_play: CheckedKey,
    old_stop: CheckedKey,
    new_stop: CheckedKey,
    old_overlay: CheckedKey,
    new_overlay: CheckedKey,
) -> (plan: HotkeyPlan)
    ensures
        texts(plan.release@) == released(old_play.key@, old_play.accepted) + released(
            old_stop.key@,
            old_stop.accepted,
        ) + released(old_overlay.key@, old_overlay.accepted),
        bindings(plan.bind@) == bound(new_play.key@, new_play.accepted, HotkeyRole::Play) + bound(
            new_stop.key@,
            new_stop.accepted,
            HotkeyRole::Stop,
        ) + bound(new_overlay.key@, new_overlay.accepted, HotkeyRole::Overlay),
{
    let mut release: Vec<String> = Vec::new();
    assert(texts(release@) =~= Seq::<Seq<char>>::empty());
    push_released(&mut release, old_play);
    push_released(&mut release, old_stop);
    push_released(&mut release, old_overlay);
    let mut bind: Vec<Binding> = Vec::new();
    assert(bindings(bind@) =~= Seq::<(Seq<char>, HotkeyRole)>::empty());
    push_bound(&mut bind, new_play, HotkeyRole::Play);
    push_bound(&mut bind, new_stop, HotkeyRole::Stop);
    push_bound(&mut bind, new_overlay, HotkeyRole::Overlay);
    HotkeyPlan { release, bind }
}

/// A key text the parser accepts; the empty text never is.
pub open spec fn accepted_key(key: Seq<char>) -> bool {
    key.len() > 0 && shortcut_accepted(key)
}

/// Plans a change of the play, stop and overlay hotkeys: the old keys that
/// are configured and accepted by the shortcut parser are released, in that
/// order, then the new keys that the parser accepts are bound to their
/// roles, in that order.
pub fn plan_hotkey_update(
    old_play: String,
    new_play: String,
    old_stop: String,
    new_stop: String,
    old_overlay: String,
    new_overlay: String,
) -> (plan: HotkeyPlan)
    ensures
        texts(plan.release@) == released(old_play@, accepted_key(old_play@)) + released(
            old_stop@,
            accepted_key(old_stop@),
        ) + released(old_overlay@, accepted_key(old_overlay@)),
        bindings(plan.bind@) == bound(new_play@, accepted_key(new_play@), HotkeyRole::Play) + bound(
            new_stop@,
            accepted_key(new_stop@),
            HotkeyRole::Stop,
        ) + bound(new_overlay@, accepted_key(new_overlay@), HotkeyRole::Overlay),
        forall|i: int| 0 <= i < plan.release@.len() ==> (#[trigger] plan.release@[i])@.len() > 0,
        forall|i: int| 0 <= i < plan.bind@.len() ==> (#[trigger] plan.bind@[i]).key@.len() > 0,
{
    let a = check_key(old_play);
    let b = check_key(new_play);
    let c = check_key(old_stop);
    let d = check_key(new_stop);
    let e = check_key(old_overlay);
    let f = check_key(new_overlay);
    let ghost aa = (a.key@, a.accepted);
    let ghost cc = (c.key@, c.accepted);
    let ghost ee = (e.key@, e.accepted);
    let ghost bb = (b.key@, b.accepted);
    let ghost dd = (d.key@, d.accepted);
    let ghost ff = (f.key@, f.accepted);
    let plan = plan_checked_hotkeys(a, b, c, d, e, f);
    proof {
        let rel = texts(plan.release@);
        let q1 = released(aa.0, aa.1);
        let q2 = released(cc.0, cc.1);
        let q3 = released(ee.0, ee.1);
        assert(rel == q1 + q2 + q3);
        assert forall|i: int| 0 <= i < rel.len() implies (#[trigger] rel[i]).len() > 0 by {
            if i < q1.len() {
                assert(rel[i] == q1[i]);
            } else if i < q1.len() + q2.len() {
                assert(rel[i] == q2[i - q1.len()]);
            } else {
                assert(rel[i] == q3[i - q1.len() - q2.len()]);
            }
        }
        assert forall|i: int| 0 <= i < plan.release@.len() implies (
        #[trigger] plan.release@[i])@.len() > 0 by {
            assert(rel[i] == plan.release@[i]@);
        }
        let bs = bindings(plan.bind@);
        let parts = bound(bb.0, bb.1, HotkeyRole::Play) + bound(dd.0, dd.1, HotkeyRole::Stop) + bound(
            ff.0,
            ff.1,
            HotkeyRole::Overlay,
        );
        assert(bs == parts);
        assert forall|i: int| 0 <= i < parts.len() implies (#[trigger] parts[i]).0.len() > 0 by {
            let p1 = bound(bb.0, bb.1, HotkeyRole::Play);
            let p2 = bound(dd.0, dd.1, HotkeyRole::Stop);
            let p3 = bound(ff.0, ff.1, HotkeyRole::Overlay);
            if i < p1.len() {
                assert(parts[i] == p1[i]);
            } else if i < p1.len() + p2.len() {
                assert(parts[i] == p2[i - p1.len()]);
            } else {
                assert(parts[i] == p3[i - p1.len() - p2.len()]);
            }
        }
        assert forall|i: int| 0 <= i < plan.bind@.len() implies (
        #[trigger] plan.bind@[i]).key@.len() > 0 by {
            assert(bs[i] == (plan.bind@[i].key@, plan.bind@[i].role));
        }
    }
    plan
}

/// No plan releases or binds an empty key, and every key it releases or
/// binds is one the parser accepts.
pub proof fn plans_hold_accepted_keys_only(key: Seq<char>, accepted: bool, role: HotkeyRole)
    requires
        key.len() == 0 ==> !accepted,
    ensures
        released(key, accepted).len() > 0 ==> released(key, accepted) == seq![key] && key.len() > 0
            && accepted,
        bound(key, accepted, role).len() > 0 ==> bound(key, accepted, role) == seq![(key, role)]
            && key.len() > 0 && accepted,
        accepted ==> bound(key, accepted, role) == seq![(key, role)],
{
}

/// A fixed media key bound at start-up.
#[derive(Clone, Copy, Debug, PartialEq, Eq)]
pub struct MediaKey {
    pub key: &'static str,
    pub event: AppEvent,
}

/// The fixed media keys an application offers at start-up: the desktop
/// shell maps the hardware play/pause and stop keys to their front-end
/// events; the others offer none.
pub open spec fn media_keys_of(flavor: Flavor) -> Seq<(Seq<char>, AppEvent)> {
    match flavor {
        Flavor::Desktop => seq![
            ("MediaPlayPause"@, AppEvent::MediaHardwareToggle),
            ("MediaStop"@, AppEvent::MediaStop),
        ],
        _ => Seq::empty(),
    }
}

/// The fixed media keys that get bound: those the shortcut parser accepts.
pub open spec fn bound_media_keys(flavor: Flavor) -> Seq<(Seq<char>, AppEvent)> {
    media_keys_of(flavor).filter(|m: (Seq<char>, AppEvent)| shortcut_accepted(m.0))
}

/// The key text and event of each media key.
pub open spec fn media_views(keys: Seq<MediaKey>) -> Seq<(Seq<char>, AppEvent)> {
    keys.map_values(|m: MediaKey| (m.key@, m.event))
}

/// The fixed media keys an application binds at start-up, in order. Each
/// emits its event when pressed.
pub fn media_keys(flavor: Flavor) -> (keys: Vec<MediaKey>)
    ensures
        media_views(keys@) == bound_media_keys(flavor),
{
    let mut keys: Vec<MediaKey> = Vec::new();
    proof {
        reveal_with_fuel(Seq::filter, 3);
    }
    if let Flavor::Desktop = flavor {
        let play_pause = "MediaPlayPause";
        let play_ok = parses_as_shortcut(play_pause);
        if play_ok {
            keys.push(MediaKey { key: play_pause, event: AppEvent::MediaHardwareToggle });
        }
        let stop = "MediaStop";
        let stop_ok = parses_as_shortcut(stop);
        if stop_ok {
            keys.push(MediaKey { key: stop, event: AppEvent::MediaStop });
        }
        let ghost all = media_keys_of(flavor);
        assert(all.drop_last() =~= seq![("MediaPlayPause"@, AppEvent::MediaHardwareToggle)]);
        assert(all.drop_last().drop_last() =~= Seq::<(Seq<char>, AppEvent)>::empty());
        assert(media_views(keys@) =~= bound_media_keys(flavor));
    } else {
        assert(media_views(keys@) =~= bound_media_keys(flavor));
    }
    keys
}

/// Each front-end event goes out under its own name, and the hotkeys do
/// what their roles say: play sends "media-play", stop sends "media-stop",
/// the overlay key toggles the overlay, so no two roles do the same thing.
/// On the desktop shell the hardware stop key sends the same event as the
/// stop hotkey, and the hardware play/pause key sends neither play nor stop
/// but the play/pause toggle; the other applications bind no media key.
pub proof fn hotkeys_do_what_their_roles_say(e1: AppEvent, e2: AppEvent, r1: HotkeyRole, r2: HotkeyRole)
    ensures
        e1 != e2 ==> event_label(e1) != event_label(e2),
        role_reaction(HotkeyRole::Play) matches Reaction::Emit(e) && event_label(e) == "media-play"@,
        role_reaction(HotkeyRole::Stop) matches Reaction::Emit(e) && event_label(e) == "media-stop"@,
        role_reaction(HotkeyRole::Overlay) == Reaction::ToggleOverlay,
        r1 != r2 ==> role_reaction(r1) != role_reaction(r2),
        media_keys_of(Flavor::Desktop).len() == 2,
        media_keys_of(Flavor::Desktop)[0].0 == "MediaPlayPause"@,
        media_keys_of(Flavor::Desktop)[1].0 == "MediaStop"@,
        role_reaction(HotkeyRole::Stop) == Reaction::Emit(media_keys_of(Flavor::Desktop)[1].1),
        event_label(media_keys_of(Flavor::Desktop)[0].1) == "media-hardware-toggle"@,
        media_keys_of(Flavor::Radio).len() == 0,
        media_keys_of(Flavor::Hub).len() == 0,
{
    reveal_strlit("media-play");
    reveal_strlit("media-stop");
    reveal_strlit("media-hardware-toggle");
    reveal_strlit("telemetry-update");
    if e1 != e2 {
        let a = event_label(e1);
        let b = event_label(e2);
        assert(a.len() != b.len() || a[6] != b[6] || a[7] != b[7]);
    }
}

} // verus!
