//! Startup of the shell: the one-time setup callback that styles the main
//! window, and the boot sequence around it. Every failure during startup is
//! fatal — the shell aborts rather than run with a broken window contract.

use vstd::prelude::*;

verus! {

use crate::color::Rgba;
use crate::platform::{VibrancyMaterial, WindowStyler};
use crate::registry::{
    WindowModel, WindowRegistry, WindowState, has_window, labels_unique,
    lemma_window_index_unique, lemma_with_window_state_labels, window_state, with_window_state,
};

/// Why startup aborted. Each is a broken build or environment contract, not
/// a condition to recover from.
#[derive(Clone, Copy, PartialEq, Eq, Structural, Debug)]
pub enum StartupError {
    /// No window carried the main label when setup ran.
    WindowNotFound,
    /// The compositor refused the vibrancy request at run time.
    VibrancyUnsupported,
    /// The host runtime's event loop failed to start.
    RunLoopFailed,
}

impl StartupError {
    /// The diagnostic printed when the process aborts over this failure.
    pub fn message(&self) -> (m: String)
        ensures
            m@ == match *self {
                StartupError::WindowNotFound => "no window labelled \"main\" exists at setup time"@,
                StartupError::VibrancyUnsupported => "Unsupported platform! 'apply_vibrancy' is only supported on macOS"@,
                StartupError::RunLoopFailed => "error while running tauri application"@,
            },
    {
        match self {
            StartupError::WindowNotFound => "no window labelled \"main\" exists at setup time".to_owned(),
            StartupError::VibrancyUnsupported => "Unsupported platform! 'apply_vibrancy' is only supported on macOS".to_owned(),
            StartupError::RunLoopFailed => "error while running tauri application".to_owned(),
        }
    }
}

/// The label of the one window this shell configures.
pub open spec fn main_label() -> Seq<char> {
    "main"@
}

pub fn main_window_label() -> (s: String)
    ensures
        s@ == main_label(),
{
    "main".to_owned()
}

/// A window restyled so the compositor effect can show through: the
/// background set to the fully transparent color.
pub open spec fn with_transparent_background(s: WindowState) -> WindowState {
    WindowState { background: Some(Rgba::spec_transparent()), ..s }
}

/// A window with the HUD vibrancy material attached.
pub open spec fn with_hud_vibrancy(s: WindowState) -> WindowState {
    WindowState { vibrancy: Some(VibrancyMaterial::HudWindow), ..s }
}

/// What one run of the setup callback does to the registry, and what it
/// returns. The main-window lookup comes first on every platform; only the
/// styling steps sit behind the platform gate. With the native styler the
/// background turns transparent before the vibrancy request, so a refused
/// request aborts with the background already cleared and no material
/// attached.
pub open spec fn spec_setup(
    ws: Seq<WindowModel>,
    styler: WindowStyler,
    vibrancy_ok: bool,
) -> (Seq<WindowModel>, Result<(), StartupError>) {
    if !has_window(ws, main_label()) {
        (ws, Err(StartupError::WindowNotFound))
    } else {
        match styler {
            WindowStyler::NoOp => (ws, Ok(())),
            WindowStyler::NativeVibrancy => {
                let cleared = with_window_state(
                    ws,
                    main_label(),
                    with_transparent_background(window_state(ws, main_label())),
                );
                if vibrancy_ok {
                    (
                        with_window_state(
                            cleared,
                            main_label(),
                            with_hud_vibrancy(window_state(cleared, main_label())),
                        ),
                        Ok(()),
                    )
                } else {
                    (cleared, Err(StartupError::VibrancyUnsupported))
                }
            },
        }
    }
}

/// The setup callback: resolve the main window, then, behind the platform
/// gate, clear its background and request the vibrancy effect. The
/// compositor's verdict on that request arrives as `vibrancy_ok`; a refusal
/// is fatal, never a silent fallback to an opaque window.
pub fn setup(
    registry: &mut WindowRegistry,
    styler: WindowStyler,
    vibrancy_ok: bool,
) -> (r: Result<(), StartupError>)
    requires
        labels_unique(old(registry)@),
    ensures
        labels_unique(final(registry)@),
        final(registry)@ == spec_setup(old(registry)@, styler, vibrancy_ok).0,
        r == spec_setup(old(registry)@, styler, vibrancy_ok).1,
{
    let label = main_window_label();
    let idx = match registry.find(&label) {
        None => {
            return Err(StartupError::WindowNotFound);
        },
        Some(i) => i,
    };
    proof {
        lemma_window_index_unique(registry@, main_label(), idx as int);
    }
    match styler {
        WindowStyler::NoOp => Ok(()),
        WindowStyler::NativeVibrancy => {
            let ghost ws0 = registry@;
            let s0 = registry.windows[idx].state;
            let s1 = WindowState { background: Some(Rgba::transparent()), ..s0 };
            registry.set_state(idx, s1);
            proof {
                lemma_with_window_state_labels(ws0, main_label(), with_transparent_background(s0));
                assert(registry@ == with_window_state(
                    ws0,
                    main_label(),
                    with_transparent_background(s0),
                ));
            }
            if !vibrancy_ok {
                return Err(StartupError::VibrancyUnsupported);
            }
            let ghost ws1 = registry@;
            let s2 = WindowState { vibrancy: Some(VibrancyMaterial::HudWindow), ..s1 };
            registry.set_state(idx, s2);
            proof {
                lemma_with_window_state_labels(ws1, main_label(), with_hud_vibrancy(s1));
                assert(registry@ == with_window_state(ws1, main_label(), with_hud_vibrancy(s1)));
            }
            Ok(())
        },
    }
}

/// Where the process stands in its lifecycle.
#[derive(Clone, Copy, PartialEq, Eq, Structural, Debug)]
pub enum HostPhase {
    /// Windows created, setup not yet run.
    NotStarted,
    /// Setup succeeded and the event loop is accepting input.
    EventLoop,
    /// A fatal startup failure; the process aborts without ever accepting
    /// input.
    Aborted,
}

/// The shell's model of the whole process: the window registry the host
/// created, the lifecycle phase, and how many times setup has run.
pub struct HostModel {
    pub registry: WindowRegistry,
    pub phase: HostPhase,
    pub setup_runs: u64,
}

/// The mathematical image of the host: its windows, phase and setup count.
pub struct HostView {
    pub windows: Seq<WindowModel>,
    pub phase: HostPhase,
    pub setup_runs: nat,
}

impl View for HostModel {
    type V = HostView;

    open spec fn view(&self) -> HostView {
        HostView {
            windows: self.registry@,
            phase: self.phase,
            setup_runs: self.setup_runs as nat,
        }
    }
}

impl HostModel {
    /// A host that has created its windows but not yet run setup.
    pub fn new(registry: WindowRegistry) -> (h: HostModel)
        ensures
            h@ == (HostView {
                windows: registry@,
                phase: HostPhase::NotStarted,
                setup_runs: 0,
            }),
    {
        HostModel { registry, phase: HostPhase::NotStarted, setup_runs: 0 }
    }
}

/// What booting the shell does: run setup exactly once; abort on its
/// failure; otherwise hand control to the event loop, aborting if the host
/// cannot start it.
pub open spec fn spec_boot(
    h: HostView,
    styler: WindowStyler,
    vibrancy_ok: bool,
    run_loop_ok: bool,
) -> (HostView, Result<(), StartupError>) {
    let after_setup = spec_setup(h.windows, styler, vibrancy_ok);
    let runs = h.setup_runs + 1;
    match after_setup.1 {
        Err(e) => (
            HostView { windows: after_setup.0, phase: HostPhase::Aborted, setup_runs: runs },
            Err(e),
        ),
        Ok(_) => if run_loop_ok {
            (
                HostView { windows: after_setup.0, phase: HostPhase::EventLoop, setup_runs: runs },
                Ok(()),
            )
        } else {
            (
                HostView { windows: after_setup.0, phase: HostPhase::Aborted, setup_runs: runs },
                Err(StartupError::RunLoopFailed),
            )
        },
    }
}

/// Boot the shell: invoke the setup callback once on the registry, then
/// start the event loop. `vibrancy_ok` carries the compositor's verdict on
/// the vibrancy request, `run_loop_ok` whether the host's event loop came
/// up; each refusal aborts startup with its own error.
pub fn boot(
    host: &mut HostModel,
    styler: WindowStyler,
    vibrancy_ok: bool,
    run_loop_ok: bool,
) -> (r: Result<(), StartupError>)
    requires
        old(host).phase == HostPhase::NotStarted,
        old(host).setup_runs == 0,
        labels_unique(old(host)@.windows),
    ensures
        final(host)@ == spec_boot(old(host)@, styler, vibrancy_ok, run_loop_ok).0,
        r == spec_boot(old(host)@, styler, vibrancy_ok, run_loop_ok).1,
{
    host.setup_runs = host.setup_runs + 1;
    let setup_result = setup(&mut host.registry, styler, vibrancy_ok);
    match setup_result {
        Err(e) => {
            host.phase = HostPhase::Aborted;
            Err(e)
        },
        Ok(_) => {
            if run_loop_ok {
                host.phase = HostPhase::EventLoop;
                Ok(())
            } else {
                host.phase = HostPhase::Aborted;
                Err(StartupError::RunLoopFailed)
            }
        },
    }
}

} // verus!
