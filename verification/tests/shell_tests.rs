use simnation::flavor::{window_label, Flavor, Window};
use simnation::shell::{
    autostart_args, greet, hide_instead_of_close, install_telemetry_plugin, menu_choice,
    starts_hidden, tray_click_shows_main, tray_menu, MenuChoice,
};

#[test]
fn greet_names_the_user() {
    assert_eq!(greet("Ann"), "Hello, Ann! SimNation Desktop is ready.");
    assert_eq!(greet(""), "Hello, ! SimNation Desktop is ready.");
}

#[test]
fn install_plugin_reports_hub() {
    assert_eq!(
        install_telemetry_plugin(),
        Ok("SCS Telemetry is active via SimNation Hub.".to_string())
    );
}

#[test]
fn window_labels_per_flavor() {
    assert_eq!(window_label(Flavor::Desktop, Window::Main), "main");
    assert_eq!(window_label(Flavor::Desktop, Window::Overlay), "overlay");
    assert_eq!(window_label(Flavor::Radio, Window::Overlay), "radio_overlay");
    assert_eq!(window_label(Flavor::Hub, Window::Overlay), "radio_overlay");
    assert_eq!(window_label(Flavor::Hub, Window::Main), "main");
}

#[test]
fn menu_entries_per_flavor() {
    let radio = tray_menu(Flavor::Radio);
    assert_eq!(radio.len(), 2);
    assert_eq!((radio[0].id, radio[0].title), ("show", "Open SimNation"));
    assert_eq!((radio[1].id, radio[1].title), ("quit", "Quit Radio"));
    let hub = tray_menu(Flavor::Hub);
    assert_eq!((hub[0].id, hub[0].title), ("show", "Show Hub"));
    assert_eq!((hub[1].id, hub[1].title), ("quit", "Quit SimNation"));
}

#[test]
fn menu_choice_by_id() {
    assert_eq!(menu_choice("show"), MenuChoice::ShowMain);
    assert_eq!(menu_choice("quit"), MenuChoice::Quit);
    assert_eq!(menu_choice("other"), MenuChoice::Ignore);
    assert_eq!(menu_choice("Show"), MenuChoice::Ignore);
}

#[test]
fn tray_clicks() {
    assert!(tray_click_shows_main(Flavor::Desktop, true));
    assert!(!tray_click_shows_main(Flavor::Desktop, false));
    assert!(tray_click_shows_main(Flavor::Radio, true));
    assert!(!tray_click_shows_main(Flavor::Hub, true));
}

#[test]
fn closing_main_hides_it() {
    assert!(hide_instead_of_close(Flavor::Desktop, "main"));
    assert!(hide_instead_of_close(Flavor::Radio, "main"));
    assert!(!hide_instead_of_close(Flavor::Radio, "radio_overlay"));
    assert!(!hide_instead_of_close(Flavor::Hub, "main"));
}

#[test]
fn silent_start() {
    let with_flag = vec!["app".to_string(), "--silent".to_string()];
    let without = vec!["app".to_string(), "--silently".to_string()];
    assert!(starts_hidden(Flavor::Desktop, &with_flag));
    assert!(!starts_hidden(Flavor::Desktop, &without));
    assert!(!starts_hidden(Flavor::Radio, &with_flag));
    assert!(!starts_hidden(Flavor::Hub, &with_flag));
    assert!(!starts_hidden(Flavor::Desktop, &Vec::new()));
    assert_eq!(autostart_args(), vec!["--silent"]);
}
