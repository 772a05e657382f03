//! Detecting a running truck simulator from the names of the running
//! processes, and the window changes that follow when it starts or stops.

use vstd::prelude::*;
use crate::flavor::{Flavor, Window};
use crate::overlay::WindowCommand;
use crate::text::{chars_of, chars_contain, contains_text, occurs_at};

verus! {

/// The pause between two looks at the process list, in seconds.
pub const POLL_SECS: u64 = 5;

/// The process-name fragments that identify a supported game.
pub open spec fn game_names(flavor: Flavor) -> Seq<Seq<char>> {
    match flavor {
        Flavor::Hub => seq!["eurotrucks2"@, "amtrucks"@],
        _ => seq!["eurotrucks2.exe"@, "amtrucks.exe"@, "eurotrucks2"@, "amtrucks"@],
    }
}

/// The process-name fragments that identify a supported game, in the order
/// they are tried.
pub fn game_list(flavor: Flavor) -> (games: Vec<&'static str>)
    ensures
        games@.len() == game_names(flavor).len(),
        forall|j: int| 0 <= j < games@.len() ==> #[trigger] games@[j]@ == game_names(flavor)[j],
{
    let mut games: Vec<&'static str> = Vec::new();
    match flavor {
        Flavor::Hub => {
            games.push("eurotrucks2");
            games.push("amtrucks");
        },
        _ => {
            games.push("eurotrucks2.exe");
            games.push("amtrucks.exe");
            games.push("eurotrucks2");
            games.push("amtrucks");
        },
    }
    games
}

/// What `str::to_lowercase` returns for a string with these characters.
pub uninterp spec fn lowercase(s: Seq<char>) -> Seq<char>;

/// ASCII lowercasing of one character.
pub open spec fn ascii_lower_char(c: char) -> char {
    if 'A' <= c <= 'Z' {
        ((c as int) + 32) as char
    } else {
        c
    }
}

/// ASCII lowercasing of every character.
pub open spec fn ascii_lower(s: Seq<char>) -> Seq<char> {
    Seq::new(s.len(), |i: int| ascii_lower_char(s[i]))
}

/// Calls `str::to_lowercase`. The result is named by `lowercase` of the
/// argument's characters; for an all-ASCII argument it is the character-wise
/// ASCII lowercasing, since the Unicode lowercase mapping of an ASCII letter
/// is its ASCII lowercase letter and other ASCII characters map to
/// themselves. Nothing is said here of other characters.
#[verifier::external_body]
fn to_lowercase(s: &str) -> (lower: String)
    ensures
        lower@ == lowercase(s@),
        vstd::utf8::is_ascii_chars(s@) ==> lower@ == ascii_lower(s@),
{
    s.to_lowercase()
}

/// A process with this name is one of the games: its lowercased name
/// contains one of the game fragments.
pub open spec fn is_game_process(flavor: Flavor, name: Seq<char>) -> bool {
    exists|j: int|
        0 <= j < game_names(flavor).len() && #[trigger] contains_text(
            lowercase(name),
            game_names(flavor)[j],
        )
}

/// Whether a process with this name is one of the games.
pub fn names_game(flavor: Flavor, name: &str) -> (found: bool)
    ensures
        found == is_game_process(flavor, name@),
        vstd::utf8::is_ascii_chars(name@) ==> found == exists|j: int|
            0 <= j < game_names(flavor).len() && #[trigger] contains_text(
                ascii_lower(name@),
                game_names(flavor)[j],
            ),
{
    let lower = to_lowercase(name);
    let hay = chars_of(lower.as_str());
    let games = game_list(flavor);
    let mut j: usize = 0;
    while j < games.len()
        invariant
            hay@ == lowercase(name@),
            vstd::utf8::is_ascii_chars(name@) ==> hay@ == ascii_lower(name@),
            games@.len() == game_names(flavor).len(),
            forall|k: int| 0 <= k < games@.len() ==> #[trigger] games@[k]@ == game_names(flavor)[k],
            j <= games.len(),
            forall|k: int| 0 <= k < j ==> !#[trigger] contains_text(hay@, game_names(flavor)[k]),
        decreases games.len() - j,
    {
        let needle = chars_of(games[j]);
        if chars_contain(&hay, &needle) {
            assert(contains_text(hay@, game_names(flavor)[j as int]));
            return true;
        }
        j = j + 1;
    }
    false
}

/// The characters of each name.
pub open spec fn name_views(names: Seq<String>) -> Seq<Seq<char>> {
    names.map_values(|s: String| s@)
}

/// Some running process is one of the games.
pub open spec fn game_running(flavor: Flavor, names: Seq<Seq<char>>) -> bool {
    exists|i: int| 0 <= i < names.len() && #[trigger] is_game_process(flavor, names[i])
}

/// Whether any of the running processes, given by name, is one of the games.
pub fn any_game_running(flavor: Flavor, names: &Vec<String>) -> (running: bool)
    ensures
        running == game_running(flavor, name_views(names@)),
        running == exists|i: int| 0 <= i < names@.len() && #[trigger] is_game_process(flavor, names@[i]@),
{
    let mut i: usize = 0;
    while i < names.len()
        invariant
            i <= names.len(),
            forall|k: int| 0 <= k < i ==> !#[trigger] is_game_process(flavor, names@[k]@),
        decreases names.len() - i,
    {
        if names_game(flavor, names[i].as_str()) {
            assert(name_views(names@)[i as int] == names@[i as int]@);
            return true;
        }
        i = i + 1;
    }
    assert forall|k: int| 0 <= k < name_views(names@).len() implies !#[trigger] is_game_process(
        flavor,
        name_views(names@)[k],
    ) by {
        assert(name_views(names@)[k] == names@[k]@);
    }
    false
}

proof fn longer_fragment_implies_shorter(hay: Seq<char>, long: Seq<char>, short: Seq<char>)
    requires
        short.len() <= long.len(),
        long.subrange(0, short.len() as int) == short,
        contains_text(hay, long),
    ensures
        contains_text(hay, short),
{
    let i = choose|i: int| occurs_at(hay, long, i);
    assert(hay.subrange(i, i + short.len()) =~= long.subrange(0, short.len() as int));
    assert(occurs_at(hay, short, i));
}

/// The three applications recognise the same processes: the desktop and
/// radio lists only add the ".exe" forms of the hub's fragments, and a name
/// that contains one of those contains the bare fragment too.
pub proof fn flavors_detect_the_same_games(name: Seq<char>)
    ensures
        is_game_process(Flavor::Desktop, name) == is_game_process(Flavor::Hub, name),
        is_game_process(Flavor::Radio, name) == is_game_process(Flavor::Hub, name),
{
    reveal_strlit("eurotrucks2.exe");
    reveal_strlit("eurotrucks2");
    reveal_strlit("amtrucks.exe");
    reveal_strlit("amtrucks");
    let lower = lowercase(name);
    let wide = game_names(Flavor::Desktop);
    let narrow = game_names(Flavor::Hub);
    assert(game_names(Flavor::Radio) == wide);
    assert(wide[0].subrange(0, narrow[0].len() as int) =~= narrow[0]);
    assert(wide[1].subrange(0, narrow[1].len() as int) =~= narrow[1]);
    if is_game_process(Flavor::Desktop, name) {
        let j = choose|j: int| 0 <= j < wide.len() && #[trigger] contains_text(lower, wide[j]);
        if j == 0 {
            longer_fragment_implies_shorter(lower, wide[0], narrow[0]);
            assert(contains_text(lower, narrow[0]));
        } else if j == 1 {
            longer_fragment_implies_shorter(lower, wide[1], narrow[1]);
            assert(contains_text(lower, narrow[1]));
        } else if j == 2 {
            assert(contains_text(lower, narrow[0]));
        } else {
            assert(contains_text(lower, narrow[1]));
        }
    }
    if is_game_process(Flavor::Hub, name) {
        let j = choose|j: int| 0 <= j < narrow.len() && #[trigger] contains_text(lower, narrow[j]);
        if j == 0 {
            assert(contains_text(lower, wide[2]));
        } else {
            assert(contains_text(lower, wide[3]));
        }
    }
}

/// A change applied to one window.
#[derive(Clone, Copy, Debug, PartialEq, Eq, Structural)]
pub struct WindowStep {
    pub window: Window,
    pub command: WindowCommand,
}

pub open spec fn step(window: Window, command: WindowCommand) -> WindowStep {
    WindowStep { window, command }
}

/// The window changes when a game has just started.
pub open spec fn on_game_start(flavor: Flavor) -> Seq<WindowStep> {
    let overlay_up = seq![
        step(Window::Overlay, WindowCommand::Show),
        step(Window::Overlay, WindowCommand::Unminimize),
        step(Window::Overlay, WindowCommand::PinOnTop),
    ];
    match flavor {
        Flavor::Hub => seq![step(Window::Main, WindowCommand::Show)] + overlay_up,
        _ => overlay_up + seq![step(Window::Main, WindowCommand::Hide)],
    }
}

/// The window changes when the game has just stopped.
pub open spec fn on_game_stop(flavor: Flavor) -> Seq<WindowStep> {
    match flavor {
        Flavor::Desktop => seq![step(Window::Overlay, WindowCommand::Hide)],
        Flavor::Radio => seq![
            step(Window::Overlay, WindowCommand::Hide),
            step(Window::Main, WindowCommand::Show),
            step(Window::Main, WindowCommand::Unminimize),
            step(Window::Main, WindowCommand::Focus),
        ],
        Flavor::Hub => seq![
            step(Window::Main, WindowCommand::Hide),
            step(Window::Overlay, WindowCommand::Hide),
        ],
    }
}

/// The window changes for one poll that found the game running or not,
/// when the previous poll found `was_running`.
pub open spec fn detector_reaction(flavor: Flavor, was_running: bool, running: bool) -> Seq<WindowStep> {
    if running && !was_running {
        on_game_start(flavor)
    } else if !running && was_running {
        on_game_stop(flavor)
    } else {
        Seq::empty()
    }
}

/// What the game detector remembers between polls.
pub struct GameDetector {
    pub was_running: bool,
}

impl GameDetector {
    /// A detector that has not seen the game yet.
    pub fn new() -> (d: GameDetector)
        ensures
            !d.was_running,
    {
        GameDetector { was_running: false }
    }

    /// Records one poll and returns the window changes it calls for.
    pub fn observe(&mut self, flavor: Flavor, running: bool) -> (steps: Vec<WindowStep>)
        ensures
            final(self).was_running == running,
            steps@ == detector_reaction(flavor, old(self).was_running, running),
    {
        let mut steps: Vec<WindowStep> = Vec::new();
        if running && !self.was_running {
            if let Flavor::Hub = flavor {
                steps.push(WindowStep { window: Window::Main, command: WindowCommand::Show });
            }
            steps.push(WindowStep { window: Window::Overlay, command: WindowCommand::Show });
            steps.push(WindowStep { window: Window::Overlay, command: WindowCommand::Unminimize });
            steps.push(WindowStep { window: Window::Overlay, command: WindowCommand::PinOnTop });
            match flavor {
                Flavor::Hub => {},
                _ => {
                    steps.push(WindowStep { window: Window::Main, command: WindowCommand::Hide });
                },
            }
            self.was_running = true;
        } else if !running && self.was_running {
            match flavor {
                Flavor::Desktop => {
                    steps.push(WindowStep { window: Window::Overlay, command: WindowCommand::Hide });
                },
                Flavor::Radio => {
                    steps.push(WindowStep { window: Window::Overlay, command: WindowCommand::Hide });
                    steps.push(WindowStep { window: Window::Main, command: WindowCommand::Show });
                    steps.push(WindowStep { window: Window::Main, command: WindowCommand::Unminimize });
                    steps.push(WindowStep { window: Window::Main, command: WindowCommand::Focus });
                },
                Flavor::Hub => {
                    steps.push(WindowStep { window: Window::Main, command: WindowCommand::Hide });
                    steps.push(WindowStep { window: Window::Overlay, command: WindowCommand::Hide });
                },
            }
            self.was_running = false;
        }
        assert(steps@ =~= detector_reaction(flavor, old(self).was_running, running));
        steps
    }
}

/// The detector reacts only to changes: a poll that agrees with the previous
/// one changes no window, and a poll that differs always changes some.
/// Whenever the game has just started the overlay is shown, and whenever it
/// has just stopped the overlay is hidden.
pub proof fn detector_reacts_to_changes_only(flavor: Flavor, was_running: bool, running: bool)
    ensures
        (detector_reaction(flavor, was_running, running).len() == 0) <==> (was_running == running),
        running && !was_running ==> detector_reaction(flavor, was_running, running).contains(
            step(Window::Overlay, WindowCommand::Show),
        ),
        !running && was_running ==> detector_reaction(flavor, was_running, running).contains(
            step(Window::Overlay, WindowCommand::Hide),
        ),
{
    let r = detector_reaction(flavor, was_running, running);
    if running && !was_running {
        match flavor {
            Flavor::Hub => assert(r[1] == step(Window::Overlay, WindowCommand::Show)),
            _ => assert(r[0] == step(Window::Overlay, WindowCommand::Show)),
        }
    } else if !running && was_running {
        match flavor {
            Flavor::Hub => assert(r[1] == step(Window::Overlay, WindowCommand::Hide)),
            _ => assert(r[0] == step(Window::Overlay, WindowCommand::Hide)),
        }
    }
}

/// Two polls with the same finding: the second changes no window, whatever
/// the state before the first.
pub proof fn detector_repeat_poll_is_quiet(flavor: Flavor, was_running: bool, running: bool)
    ensures
        detector_reaction(flavor, running, running).len() == 0,
{
}

/// What the detector does to the windows when the game starts or stops,
/// for every application: on a start the overlay is shown, restored and
/// pinned above the game and never hidden; the desktop shell and the radio
/// hide their main window, the hub shows its own; the desktop shell and the
/// radio react to a start alike. On a stop the overlay is hidden and never
/// shown; the radio brings its main window back (shown, restored, focused),
/// the hub hides its main window, and the desktop shell touches only the
/// overlay.
pub proof fn game_start_and_stop_windows(flavor: Flavor, was_running: bool, running: bool)
    ensures
        running && !was_running ==> {
            let r = detector_reaction(flavor, was_running, running);
            &&& r.len() == 4
            &&& r.contains(step(Window::Overlay, WindowCommand::Show))
            &&& r.contains(step(Window::Overlay, WindowCommand::Unminimize))
            &&& r.contains(step(Window::Overlay, WindowCommand::PinOnTop))
            &&& !r.contains(step(Window::Overlay, WindowCommand::Hide))
            &&& (flavor != Flavor::Hub ==> r.contains(step(Window::Main, WindowCommand::Hide))
                && !r.contains(step(Window::Main, WindowCommand::Show)))
            &&& (flavor == Flavor::Hub ==> r.contains(step(Window::Main, WindowCommand::Show))
                && !r.contains(step(Window::Main, WindowCommand::Hide)))
        },
        running && !was_running ==> detector_reaction(Flavor::Radio, was_running, running)
            == detector_reaction(Flavor::Desktop, was_running, running),
        !running && was_running ==> {
            let r = detector_reaction(flavor, was_running, running);
            &&& r.contains(step(Window::Overlay, WindowCommand::Hide))
            &&& !r.contains(step(Window::Overlay, WindowCommand::Show))
            &&& (flavor == Flavor::Radio ==> r.len() == 4
                && r.contains(step(Window::Main, WindowCommand::Show))
                && r.contains(step(Window::Main, WindowCommand::Unminimize))
                && r.contains(step(Window::Main, WindowCommand::Focus)))
            &&& (flavor == Flavor::Hub ==> r.len() == 2
                && r.contains(step(Window::Main, WindowCommand::Hide)))
            &&& (flavor == Flavor::Desktop ==> r.len() == 1)
        },
{
    let r = detector_reaction(flavor, was_running, running);
    if running && !was_running {
        match flavor {
            Flavor::Hub => {
                assert(r[0] == step(Window::Main, WindowCommand::Show));
                assert(r[1] == step(Window::Overlay, WindowCommand::Show));
                assert(r[2] == step(Window::Overlay, WindowCommand::Unminimize));
                assert(r[3] == step(Window::Overlay, WindowCommand::PinOnTop));
            },
            _ => {
                assert(r[0] == step(Window::Overlay, WindowCommand::Show));
                assert(r[1] == step(Window::Overlay, WindowCommand::Unminimize));
                assert(r[2] == step(Window::Overlay, WindowCommand::PinOnTop));
                assert(r[3] == step(Window::Main, WindowCommand::Hide));
            },
        }
        assert(!r.contains(step(Window::Overlay, WindowCommand::Hide)));
        assert(!r.contains(step(Window::Main, WindowCommand::Show)) || flavor == Flavor::Hub);
        assert(!r.contains(step(Window::Main, WindowCommand::Hide)) || flavor != Flavor::Hub);
    } else if !running && was_running {
        match flavor {
            Flavor::Radio => {
                assert(r[0] == step(Window::Overlay, WindowCommand::Hide));
                assert(r[1] == step(Window::Main, WindowCommand::Show));
                assert(r[2] == step(Window::Main, WindowCommand::Unminimize));
                assert(r[3] == step(Window::Main, WindowCommand::Focus));
            },
            Flavor::Hub => {
                assert(r[0] == step(Window::Main, WindowCommand::Hide));
                assert(r[1] == step(Window::Overlay, WindowCommand::Hide));
            },
            Flavor::Desktop => {
                assert(r[0] == step(Window::Overlay, WindowCommand::Hide));
            },
        }
        assert(!r.contains(step(Window::Overlay, WindowCommand::Show)));
    }
}

/// The game is running exactly when some process, wherever it stands in
/// the list, is the game: no process list is empty of the game by position.
/// An empty list never shows the game; a one-process list shows it just
/// when that process is the game; joining two lists shows the game just
/// when either does; and lists holding the same names, in any order or
/// repetition, give the same answer.
pub proof fn game_running_looks_at_every_process(
    flavor: Flavor,
    a: Seq<Seq<char>>,
    b: Seq<Seq<char>>,
    n: Seq<char>,
)
    ensures
        !game_running(flavor, Seq::empty()),
        game_running(flavor, seq![n]) == is_game_process(flavor, n),
        game_running(flavor, a + b) == (game_running(flavor, a) || game_running(flavor, b)),
        (forall|i: int| 0 <= i < a.len() ==> b.contains(#[trigger] a[i])) && (forall|j: int|
            0 <= j < b.len() ==> a.contains(#[trigger] b[j])) ==> game_running(flavor, a)
            == game_running(flavor, b),
{
    let one = seq![n];
    if is_game_process(flavor, n) {
        assert(is_game_process(flavor, one[0]));
    }
    let ab = a + b;
    if game_running(flavor, ab) {
        let i = choose|i: int| 0 <= i < ab.len() && #[trigger] is_game_process(flavor, ab[i]);
        if i < a.len() {
            assert(ab[i] == a[i]);
        } else {
            assert(ab[i] == b[i - a.len()]);
            assert(is_game_process(flavor, b[i - a.len()]));
        }
    }
    if game_running(flavor, a) {
        let i = choose|i: int| 0 <= i < a.len() && #[trigger] is_game_process(flavor, a[i]);
        assert(ab[i] == a[i]);
    }
    if game_running(flavor, b) {
        let j = choose|j: int| 0 <= j < b.len() && #[trigger] is_game_process(flavor, b[j]);
        assert(ab[a.len() + j] == b[j]);
    }
    if (forall|i: int| 0 <= i < a.len() ==> b.contains(#[trigger] a[i])) && (forall|j: int|
        0 <= j < b.len() ==> a.contains(#[trigger] b[j])) {
        if game_running(flavor, a) {
            let i = choose|i: int| 0 <= i < a.len() && #[trigger] is_game_process(flavor, a[i]);
            assert(b.contains(a[i]));
            let j = choose|j: int| 0 <= j < b.len() && b[j] == a[i];
            assert(is_game_process(flavor, b[j]));
        }
        if game_running(flavor, b) {
            let j = choose|j: int| 0 <= j < b.len() && #[trigger] is_game_process(flavor, b[j]);
            assert(a.contains(b[j]));
            let i = choose|i: int| 0 <= i < a.len() && a[i] == b[j];
            assert(is_game_process(flavor, a[i]));
        }
    }
}

/// The games recognised, in every application, are Euro Truck Simulator 2
/// and American Truck Simulator: a process is the game exactly when its
/// lowercased name contains "eurotrucks2" or "amtrucks".
pub proof fn games_are_the_two_truck_simulators(flavor: Flavor, name: Seq<char>)
    ensures
        is_game_process(flavor, name) == (contains_text(lowercase(name), "eurotrucks2"@)
            || contains_text(lowercase(name), "amtrucks"@)),
{
    flavors_detect_the_same_games(name);
    let lower = lowercase(name);
    let narrow = game_names(Flavor::Hub);
    if contains_text(lower, "eurotrucks2"@) {
        assert(contains_text(lower, narrow[0]));
    }
    if contains_text(lower, "amtrucks"@) {
        assert(contains_text(lower, narrow[1]));
    }
}

} // verus!
