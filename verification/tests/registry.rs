//! The window registry and the small building blocks around it.

use pomodoro::color::Rgba;
use pomodoro::platform::{Platform, WindowStyler};
use pomodoro::registry::WindowRegistry;
use pomodoro::startup::{main_window_label, StartupError};

#[test]
fn main_window_label_is_main() {
    assert_eq!(main_window_label(), "main".to_string());
}

#[test]
fn transparent_color_has_all_channels_at_zero() {
    let c = Rgba::transparent();
    assert_eq!(c, Rgba { red: 0, green: 0, blue: 0, alpha: 0 });
}

#[test]
fn styler_selection_follows_the_platform() {
    assert_eq!(
        pomodoro::platform::styler_for(Platform::MacOs),
        WindowStyler::NativeVibrancy
    );
    assert_eq!(
        pomodoro::platform::styler_for(Platform::Other),
        WindowStyler::NoOp
    );
}

#[test]
fn find_reports_position_and_absence() {
    let mut reg = WindowRegistry::new();
    assert!(reg.add_window("settings".to_string()));
    assert!(reg.add_window(main_window_label()));
    assert_eq!(reg.find(&"settings".to_string()), Some(0));
    assert_eq!(reg.find(&main_window_label()), Some(1));
    assert_eq!(reg.find(&"about".to_string()), None);
}

#[test]
fn duplicate_labels_are_not_registered() {
    let mut reg = WindowRegistry::new();
    assert!(reg.add_window(main_window_label()));
    assert!(!reg.add_window(main_window_label()));
    assert_eq!(reg.windows.len(), 1);
}

#[test]
fn state_of_an_unregistered_label_is_none() {
    let reg = WindowRegistry::new();
    assert_eq!(reg.state_of(&main_window_label()), None);
}

#[test]
fn each_abort_has_its_diagnostic() {
    assert_eq!(
        StartupError::WindowNotFound.message(),
        "no window labelled \"main\" exists at setup time"
    );
    assert_eq!(
        StartupError::VibrancyUnsupported.message(),
        "Unsupported platform! 'apply_vibrancy' is only supported on macOS"
    );
    assert_eq!(
        StartupError::RunLoopFailed.message(),
        "error while running tauri application"
    );
}
