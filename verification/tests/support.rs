use poe_minimizer::classify_message;
use poe_minimizer::construct_log_path;
use poe_minimizer::event_requests_exit;
use poe_minimizer::nul_terminated_len;
use poe_minimizer::tray_callback_requests_menu;
use poe_minimizer::Event;
use poe_minimizer::MessageDisposition;
use poe_minimizer::OptionAsResult;
use poe_minimizer::Settings;

#[test]
fn default_settings_match_the_target() {
    let settings = Settings::default();
    assert_eq!(settings.window_name, "Path of Exile");
    assert_eq!(settings.log_file_polling_interval_ms, 500);
    assert_eq!(settings.seconds_until_minimize, 5);
    assert_eq!(settings.seconds_to_check_for_poe, 30);
}

#[test]
fn log_path_sits_beside_the_executable() {
    let path = construct_log_path("C:\\Games\\Path of Exile\\PathOfExile.exe");
    assert_eq!(
        path.as_deref(),
        Some("C:\\Games\\Path of Exile\\logs\\Client.txt"),
    );
}

#[test]
fn log_path_accepts_forward_slashes() {
    let path = construct_log_path("C:/Games/poe/client.exe");
    assert_eq!(path.as_deref(), Some("C:/Games/poe\\logs\\Client.txt"));
}

#[test]
fn bare_executable_name_yields_relative_log_path() {
    let path = construct_log_path("PathOfExile.exe");
    assert_eq!(path.as_deref(), Some("logs\\Client.txt"));
}

#[test]
fn empty_path_yields_nothing() {
    assert_eq!(construct_log_path(""), None);
}

#[test]
fn root_only_paths_have_no_parent() {
    assert_eq!(construct_log_path("/"), None);
    assert_eq!(construct_log_path("\\"), None);
    assert_eq!(construct_log_path("C:\\"), None);
    assert_eq!(construct_log_path("C:"), None);
}

#[test]
fn trailing_separator_drops_the_last_component() {
    let path = construct_log_path("C:\\Games\\");
    assert_eq!(path.as_deref(), Some("C:\\logs\\Client.txt"));
}

#[test]
fn rooted_single_component_keeps_the_root() {
    let path = construct_log_path("\\PathOfExile.exe");
    assert_eq!(path.as_deref(), Some("\\logs\\Client.txt"));
}

#[test]
fn drive_relative_path_keeps_the_bare_prefix() {
    let path = construct_log_path("C:PathOfExile.exe");
    assert_eq!(path.as_deref(), Some("C:logs\\Client.txt"));
}

#[test]
fn repeated_separators_collapse_before_the_parent() {
    let path = construct_log_path("C:\\Games\\\\PathOfExile.exe");
    assert_eq!(path.as_deref(), Some("C:\\Games\\logs\\Client.txt"));
}

#[test]
fn nul_terminated_len_finds_the_first_zero() {
    let buffer: Vec<u16> = vec![80, 111, 69, 0, 99, 0];
    assert_eq!(nul_terminated_len(&buffer), 3);
}

#[test]
fn nul_terminated_len_of_full_buffer_is_its_length() {
    let buffer: Vec<u16> = vec![80, 111, 69];
    assert_eq!(nul_terminated_len(&buffer), 3);
}

#[test]
fn nul_terminated_len_of_leading_zero_is_zero() {
    let buffer: Vec<u16> = vec![0, 80, 111];
    assert_eq!(nul_terminated_len(&buffer), 0);
}

#[test]
fn some_becomes_ok_with_a_clone() {
    let stored: Option<String> = Some("value".to_string());
    let result: Result<String, i32> = stored.as_result(7);
    assert_eq!(result, Ok("value".to_string()));
}

#[test]
fn none_becomes_the_supplied_error() {
    let stored: Option<String> = None;
    let result: Result<String, i32> = stored.as_result(7);
    assert_eq!(result, Err(7));
}

#[test]
fn exit_menu_command_is_exit() {
    let d = classify_message(0x0111, 0x111);
    assert_eq!(d, MessageDisposition::Command(Event::Exit));
}

#[test]
fn startup_menu_command_toggles_autostart() {
    let d = classify_message(0x0111, 0x112);
    assert_eq!(d, MessageDisposition::Command(Event::ToggleAutoStart));
}

#[test]
fn unknown_menu_command_is_nothing() {
    let d = classify_message(0x0111, 0x999);
    assert_eq!(d, MessageDisposition::Command(Event::Nothing));
}

#[test]
fn popup_request_shows_the_menu() {
    let d = classify_message(0x8001, 0);
    assert_eq!(d, MessageDisposition::Forward { show_menu: true });
}

#[test]
fn other_messages_are_forwarded() {
    let d = classify_message(0x0400, 0);
    assert_eq!(d, MessageDisposition::Forward { show_menu: false });
}

#[test]
fn right_button_up_asks_for_the_menu() {
    // The low byte of the callback parameter carries the mouse event.
    assert!(tray_callback_requests_menu(0x0204));
    assert!(tray_callback_requests_menu(0x1104));
    assert!(!tray_callback_requests_menu(0x0205));
    assert!(!tray_callback_requests_menu(0x0000));
}

#[test]
fn only_exit_ends_the_ui_loop() {
    assert!(event_requests_exit(&Event::Exit));
    assert!(!event_requests_exit(&Event::ToggleAutoStart));
    assert!(!event_requests_exit(&Event::Nothing));
}
