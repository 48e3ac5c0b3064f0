//! What the startup logic guarantees, proved once and for all registries:
//! the styling that a successful start leaves on the main window, the no-op
//! behavior off the qualifying platform, and the fatal aborts.

use vstd::prelude::*;

verus! {

use crate::color::Rgba;
use crate::platform::{Platform, VibrancyMaterial, WindowStyler, spec_styler_for};
use crate::registry::{
    WindowModel, has_window, labels_unique, lemma_with_window_state_labels, window_index,
    window_state, with_window_state,
};
use crate::startup::{
    HostPhase, HostView, StartupError, main_label, spec_boot, spec_setup,
    with_hud_vibrancy, with_transparent_background,
};

/// A successful run of the native styler restyles exactly the main window:
/// its background becomes fully transparent, the HUD vibrancy material is
/// attached to it, and every other window is untouched.
pub proof fn lemma_native_setup_styles_main(ws: Seq<WindowModel>, vibrancy_ok: bool)
    requires
        labels_unique(ws),
        has_window(ws, main_label()),
        vibrancy_ok,
    ensures
        ({
            let after = spec_setup(ws, WindowStyler::NativeVibrancy, vibrancy_ok).0;
            &&& spec_setup(ws, WindowStyler::NativeVibrancy, vibrancy_ok).1 == Ok::<
                (),
                StartupError,
            >(())
            &&& after.len() == ws.len()
            &&& labels_unique(after)
            &&& window_state(after, main_label()).background == Some(Rgba::spec_transparent())
            &&& window_state(after, main_label()).vibrancy == Some(VibrancyMaterial::HudWindow)
            &&& forall|j: int|
                0 <= j < ws.len() && j != window_index(ws, main_label()) ==> after[j] == ws[j]
        }),
{
    let l = main_label();
    let i = window_index(ws, l);
    let cleared = with_window_state(ws, l, with_transparent_background(window_state(ws, l)));
    lemma_with_window_state_labels(ws, l, with_transparent_background(window_state(ws, l)));
    assert(cleared[i].label == l);
    assert(has_window(cleared, l));
    lemma_with_window_state_labels(cleared, l, with_hud_vibrancy(window_state(cleared, l)));
}

/// On the qualifying platform, whenever startup completes successfully, the
/// main window's background equals the fully transparent color exactly.
pub proof fn lemma_transparent_after_startup(h: HostView, vibrancy_ok: bool, run_loop_ok: bool)
    requires
        labels_unique(h.windows),
        spec_boot(h, spec_styler_for(Platform::MacOs), vibrancy_ok, run_loop_ok).1 is Ok,
    ensures
        window_state(
            spec_boot(h, spec_styler_for(Platform::MacOs), vibrancy_ok, run_loop_ok).0.windows,
            main_label(),
        ).background == Some(Rgba::spec_transparent()),
{
    assert(has_window(h.windows, main_label()));
    assert(vibrancy_ok);
    lemma_native_setup_styles_main(h.windows, vibrancy_ok);
}

/// On the qualifying platform, whenever startup completes successfully, the
/// HUD vibrancy material is attached to the main window.
pub proof fn lemma_hud_vibrancy_after_startup(h: HostView, vibrancy_ok: bool, run_loop_ok: bool)
    requires
        labels_unique(h.windows),
        spec_boot(h, spec_styler_for(Platform::MacOs), vibrancy_ok, run_loop_ok).1 is Ok,
    ensures
        window_state(
            spec_boot(h, spec_styler_for(Platform::MacOs), vibrancy_ok, run_loop_ok).0.windows,
            main_label(),
        ).vibrancy == Some(VibrancyMaterial::HudWindow),
{
    assert(has_window(h.windows, main_label()));
    assert(vibrancy_ok);
    lemma_native_setup_styles_main(h.windows, vibrancy_ok);
}

/// Off the qualifying platform the selected styler is the no-op: booting
/// performs no styling at all, and every window keeps exactly the state it
/// had.
pub proof fn lemma_other_platform_no_styling(h: HostView, vibrancy_ok: bool, run_loop_ok: bool)
    ensures
        spec_styler_for(Platform::Other) == WindowStyler::NoOp,
        spec_boot(h, spec_styler_for(Platform::Other), vibrancy_ok, run_loop_ok).0.windows
            == h.windows,
{
}

/// On a non-qualifying platform, startup succeeds whenever the main window
/// exists and the event loop starts, and the main window keeps whatever
/// chrome it had — for a freshly created window, the host default: opaque
/// background, no vibrancy.
pub proof fn lemma_other_platform_startup_succeeds(h: HostView, vibrancy_ok: bool)
    requires
        has_window(h.windows, main_label()),
    ensures
        spec_boot(h, spec_styler_for(Platform::Other), vibrancy_ok, true).1 == Ok::<
            (),
            StartupError,
        >(()),
        spec_boot(h, spec_styler_for(Platform::Other), vibrancy_ok, true).0.phase
            == HostPhase::EventLoop,
        spec_boot(h, spec_styler_for(Platform::Other), vibrancy_ok, true).0.windows == h.windows,
{
}

/// With no window labelled "main" registered at setup time, startup aborts
/// before the event loop ever accepts input — on every platform, whatever
/// the compositor or the event loop would have answered — and no window is
/// touched.
pub proof fn lemma_missing_main_window_aborts(
    h: HostView,
    styler: WindowStyler,
    vibrancy_ok: bool,
    run_loop_ok: bool,
)
    requires
        !has_window(h.windows, main_label()),
    ensures
        spec_boot(h, styler, vibrancy_ok, run_loop_ok).1 == Err::<(), StartupError>(
            StartupError::WindowNotFound,
        ),
        spec_boot(h, styler, vibrancy_ok, run_loop_ok).0.phase == HostPhase::Aborted,
        spec_boot(h, styler, vibrancy_ok, run_loop_ok).0.windows == h.windows,
{
}

/// A vibrancy request the compositor refuses is fatal: startup aborts
/// rather than continue into the event loop with an opaque or
/// default-styled window.
pub proof fn lemma_vibrancy_refusal_aborts(h: HostView, run_loop_ok: bool)
    requires
        has_window(h.windows, main_label()),
    ensures
        spec_boot(h, WindowStyler::NativeVibrancy, false, run_loop_ok).1 == Err::<
            (),
            StartupError,
        >(StartupError::VibrancyUnsupported),
        spec_boot(h, WindowStyler::NativeVibrancy, false, run_loop_ok).0.phase
            == HostPhase::Aborted,
{
}

/// Setup runs exactly once per boot: a host that has never run setup ends
/// its boot — successful or aborted — with the setup counter at one.
pub proof fn lemma_setup_runs_once(
    h: HostView,
    styler: WindowStyler,
    vibrancy_ok: bool,
    run_loop_ok: bool,
)
    requires
        h.setup_runs == 0,
    ensures
        spec_boot(h, styler, vibrancy_ok, run_loop_ok).0.setup_runs == 1,
{
}

} // verus!
