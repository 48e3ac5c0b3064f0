//! Startup behavior exercised on concrete registries: the styling a
//! successful start leaves behind, the no-op off the qualifying platform,
//! and each fatal abort.

use pomodoro::color::Rgba;
use pomodoro::platform::{Platform, VibrancyMaterial, WindowStyler};
use pomodoro::registry::{WindowRegistry, WindowState};
use pomodoro::startup::{boot, main_window_label, HostModel, HostPhase, StartupError};

fn registry_with_main() -> WindowRegistry {
    let mut reg = WindowRegistry::new();
    assert!(reg.add_window(main_window_label()));
    reg
}

#[test]
fn qualifying_platform_styles_main_window() {
    let mut host = HostModel::new(registry_with_main());
    let styler = pomodoro::platform::styler_for(Platform::MacOs);
    assert_eq!(styler, WindowStyler::NativeVibrancy);
    let r = boot(&mut host, styler, true, true);
    assert_eq!(r, Ok(()));
    assert_eq!(host.phase, HostPhase::EventLoop);
    let state = host.registry.state_of(&main_window_label()).unwrap();
    assert_eq!(
        state.background,
        Some(Rgba { red: 0, green: 0, blue: 0, alpha: 0 })
    );
    assert_eq!(state.vibrancy, Some(VibrancyMaterial::HudWindow));
}

#[test]
fn other_platform_leaves_window_unmodified() {
    let mut host = HostModel::new(registry_with_main());
    let styler = pomodoro::platform::styler_for(Platform::Other);
    assert_eq!(styler, WindowStyler::NoOp);
    let r = boot(&mut host, styler, true, true);
    assert_eq!(r, Ok(()));
    assert_eq!(host.phase, HostPhase::EventLoop);
    let state = host.registry.state_of(&main_window_label()).unwrap();
    assert_eq!(state, WindowState::host_default());
    assert_eq!(state.background, None);
    assert_eq!(state.vibrancy, None);
}

#[test]
fn empty_registry_aborts_startup() {
    let mut host = HostModel::new(WindowRegistry::new());
    let r = boot(&mut host, WindowStyler::NativeVibrancy, true, true);
    assert_eq!(r, Err(StartupError::WindowNotFound));
    assert_eq!(host.phase, HostPhase::Aborted);
}

#[test]
fn missing_main_label_aborts_startup() {
    let mut reg = WindowRegistry::new();
    assert!(reg.add_window("settings".to_string()));
    let mut host = HostModel::new(reg);
    let r = boot(&mut host, WindowStyler::NoOp, true, true);
    assert_eq!(r, Err(StartupError::WindowNotFound));
    assert_eq!(host.phase, HostPhase::Aborted);
}

#[test]
fn vibrancy_refusal_aborts_startup() {
    let mut host = HostModel::new(registry_with_main());
    let r = boot(&mut host, WindowStyler::NativeVibrancy, false, true);
    assert_eq!(r, Err(StartupError::VibrancyUnsupported));
    assert_eq!(host.phase, HostPhase::Aborted);
    // The background was cleared before the compositor answered, but no
    // material was attached.
    let state = host.registry.state_of(&main_window_label()).unwrap();
    assert_eq!(
        state.background,
        Some(Rgba { red: 0, green: 0, blue: 0, alpha: 0 })
    );
    assert_eq!(state.vibrancy, None);
}

#[test]
fn run_loop_failure_aborts_startup() {
    let mut host = HostModel::new(registry_with_main());
    let r = boot(&mut host, WindowStyler::NativeVibrancy, true, false);
    assert_eq!(r, Err(StartupError::RunLoopFailed));
    assert_eq!(host.phase, HostPhase::Aborted);
}

#[test]
fn setup_runs_exactly_once() {
    let mut host = HostModel::new(registry_with_main());
    assert_eq!(host.setup_runs, 0);
    let r = boot(&mut host, WindowStyler::NativeVibrancy, true, true);
    assert_eq!(r, Ok(()));
    assert_eq!(host.setup_runs, 1);

    let mut aborted = HostModel::new(WindowRegistry::new());
    let _ = boot(&mut aborted, WindowStyler::NoOp, true, true);
    assert_eq!(aborted.setup_runs, 1);
}

#[test]
fn only_the_main_window_is_styled() {
    let mut reg = WindowRegistry::new();
    assert!(reg.add_window(main_window_label()));
    assert!(reg.add_window("settings".to_string()));
    let mut host = HostModel::new(reg);
    let r = boot(&mut host, WindowStyler::NativeVibrancy, true, true);
    assert_eq!(r, Ok(()));
    let other = host.registry.state_of(&"settings".to_string()).unwrap();
    assert_eq!(other, WindowState::host_default());
    let main = host.registry.state_of(&main_window_label()).unwrap();
    assert_eq!(main.vibrancy, Some(VibrancyMaterial::HudWindow));
}
