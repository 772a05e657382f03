use simnation::flavor::{Flavor, Window};
use simnation::games::{any_game_running, game_list, names_game, GameDetector, WindowStep};
use simnation::overlay::{overlay_toggle_plan, WindowCommand};

use WindowCommand::{Focus, Hide, PinOnTop, Show, Unminimize};

#[test]
fn overlay_toggle_hides_visible_overlay() {
    for flavor in [Flavor::Desktop, Flavor::Radio, Flavor::Hub] {
        assert_eq!(overlay_toggle_plan(flavor, Some(true)), vec![Hide]);
    }
}

#[test]
fn overlay_toggle_shows_hidden_overlay() {
    assert_eq!(
        overlay_toggle_plan(Flavor::Desktop, Some(false)),
        vec![Show, Unminimize, Focus, PinOnTop]
    );
    assert_eq!(
        overlay_toggle_plan(Flavor::Radio, None),
        vec![Show, Unminimize, PinOnTop, Focus]
    );
    assert_eq!(overlay_toggle_plan(Flavor::Hub, Some(false)), vec![Show, Unminimize, Focus]);
}

#[test]
fn game_lists_per_flavor() {
    assert_eq!(
        game_list(Flavor::Desktop),
        vec!["eurotrucks2.exe", "amtrucks.exe", "eurotrucks2", "amtrucks"]
    );
    assert_eq!(game_list(Flavor::Hub), vec!["eurotrucks2", "amtrucks"]);
}

#[test]
fn game_names_match_any_case() {
    assert!(names_game(Flavor::Hub, "EuroTrucks2.exe"));
    assert!(names_game(Flavor::Desktop, "AMTRUCKS"));
    assert!(names_game(Flavor::Radio, "c:/games/amtrucks.exe"));
    assert!(!names_game(Flavor::Hub, "explorer.exe"));
    assert!(!names_game(Flavor::Hub, "eurotruck"));
}

#[test]
fn any_game_running_scans_all_processes() {
    let idle = vec!["init".to_string(), "bash".to_string()];
    let playing = vec!["init".to_string(), "eurotrucks2".to_string()];
    assert!(!any_game_running(Flavor::Hub, &idle));
    assert!(any_game_running(Flavor::Hub, &playing));
    assert!(!any_game_running(Flavor::Hub, &Vec::new()));
}

fn st(window: Window, command: WindowCommand) -> WindowStep {
    WindowStep { window, command }
}

#[test]
fn detector_desktop_start_and_stop() {
    let mut d = GameDetector::new();
    assert!(d.observe(Flavor::Desktop, false).is_empty());
    assert_eq!(
        d.observe(Flavor::Desktop, true),
        vec![
            st(Window::Overlay, Show),
            st(Window::Overlay, Unminimize),
            st(Window::Overlay, PinOnTop),
            st(Window::Main, Hide)
        ]
    );
    assert!(d.was_running);
    assert!(d.observe(Flavor::Desktop, true).is_empty());
    assert_eq!(d.observe(Flavor::Desktop, false), vec![st(Window::Overlay, Hide)]);
    assert!(!d.was_running);
}

#[test]
fn detector_radio_restores_main_window() {
    let mut d = GameDetector { was_running: true };
    assert_eq!(
        d.observe(Flavor::Radio, false),
        vec![
            st(Window::Overlay, Hide),
            st(Window::Main, Show),
            st(Window::Main, Unminimize),
            st(Window::Main, Focus)
        ]
    );
}

#[test]
fn detector_hub_shows_both_windows() {
    let mut d = GameDetector::new();
    assert_eq!(
        d.observe(Flavor::Hub, true),
        vec![
            st(Window::Main, Show),
            st(Window::Overlay, Show),
            st(Window::Overlay, Unminimize),
            st(Window::Overlay, PinOnTop)
        ]
    );
    assert_eq!(
        d.observe(Flavor::Hub, false),
        vec![st(Window::Main, Hide), st(Window::Overlay, Hide)]
    );
}

#[test]
fn all_flavors_recognise_the_same_processes() {
    for name in ["eurotrucks2.exe", "AmTrucks.exe", "amtrucks", "eurotrucks", "x", "EUROTRUCKS2"] {
        let hub = names_game(Flavor::Hub, name);
        assert_eq!(names_game(Flavor::Desktop, name), hub);
        assert_eq!(names_game(Flavor::Radio, name), hub);
    }
}

fn visibility_after(mut visible: bool, plan: &[WindowCommand]) -> bool {
    for c in plan {
        match c {
            Show => visible = true,
            Hide => visible = false,
            _ => {}
        }
    }
    visible
}

#[test]
fn two_overlay_toggles_restore_visibility() {
    for flavor in [Flavor::Desktop, Flavor::Radio, Flavor::Hub] {
        for start in [true, false] {
            let once = visibility_after(start, &overlay_toggle_plan(flavor, Some(start)));
            assert_eq!(once, !start);
            let twice = visibility_after(once, &overlay_toggle_plan(flavor, Some(once)));
            assert_eq!(twice, start);
        }
    }
}
