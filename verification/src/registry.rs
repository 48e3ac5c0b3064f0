//! The window registry: the shell's model of the windows the host runtime
//! has created, keyed by label. Setup receives the registry as an injected
//! dependency, so its lookup and styling behavior can be exercised against
//! any registry, the real one or a bare fake.

use vstd::prelude::*;

verus! {

use crate::color::Rgba;
use crate::platform::VibrancyMaterial;

/// What the shell knows of one window's chrome: the background color it has
/// set, if any (`None` means the host's default opaque background), and the
/// vibrancy material attached, if any.
#[derive(Clone, Copy, PartialEq, Eq, Debug)]
pub struct WindowState {
    pub background: Option<Rgba>,
    pub vibrancy: Option<VibrancyMaterial>,
}

impl WindowState {
    /// The chrome of a freshly created window: the host's default opaque
    /// background and no vibrancy effect.
    pub open spec fn spec_host_default() -> WindowState {
        WindowState { background: None, vibrancy: None }
    }

    pub fn host_default() -> (s: WindowState)
        ensures
            s == WindowState::spec_host_default(),
    {
        WindowState { background: None, vibrancy: None }
    }
}

/// One registered window: its label and its chrome state.
#[derive(PartialEq, Eq, Debug)]
pub struct Window {
    pub label: String,
    pub state: WindowState,
}

/// The mathematical image of one registered window: the label as a sequence
/// of characters, together with the chrome state.
pub struct WindowModel {
    pub label: Seq<char>,
    pub state: WindowState,
}

/// Does some window in `ws` carry this label?
pub open spec fn has_window(ws: Seq<WindowModel>, label: Seq<char>) -> bool {
    exists|i: int| 0 <= i < ws.len() && ws[i].label == label
}

/// The position of the window with this label (meaningful only when
/// `has_window` holds; under `labels_unique` it is the one such position).
pub open spec fn window_index(ws: Seq<WindowModel>, label: Seq<char>) -> int {
    choose|i: int| 0 <= i < ws.len() && ws[i].label == label
}

/// The chrome state of the window with this label.
pub open spec fn window_state(ws: Seq<WindowModel>, label: Seq<char>) -> WindowState {
    ws[window_index(ws, label)].state
}

/// `ws` with the state of the window labelled `label` replaced by `s`.
pub open spec fn with_window_state(
    ws: Seq<WindowModel>,
    label: Seq<char>,
    s: WindowState,
) -> Seq<WindowModel> {
    ws.update(window_index(ws, label), WindowModel { label, state: s })
}

/// No two registered windows share a label, so lookup by label is
/// unambiguous.
pub open spec fn labels_unique(ws: Seq<WindowModel>) -> bool {
    forall|i: int, j: int|
        0 <= i < ws.len() && 0 <= j < ws.len() && i != j ==> ws[i].label != ws[j].label
}

/// Under unique labels, a position holding `label` is the position that
/// `window_index` denotes.
pub proof fn lemma_window_index_unique(ws: Seq<WindowModel>, label: Seq<char>, i: int)
    requires
        labels_unique(ws),
        0 <= i < ws.len(),
        ws[i].label == label,
    ensures
        has_window(ws, label),
        window_index(ws, label) == i,
{
    assert(has_window(ws, label));
    let j = window_index(ws, label);
    assert(0 <= j < ws.len() && ws[j].label == label);
}

/// Replacing one window's state leaves every label in place.
pub proof fn lemma_with_window_state_labels(ws: Seq<WindowModel>, label: Seq<char>, s: WindowState)
    requires
        labels_unique(ws),
        has_window(ws, label),
    ensures
        with_window_state(ws, label, s).len() == ws.len(),
        forall|j: int|
            0 <= j < ws.len() ==> #[trigger] with_window_state(ws, label, s)[j].label
                == ws[j].label,
        labels_unique(with_window_state(ws, label, s)),
        window_index(with_window_state(ws, label, s), label) == window_index(ws, label),
        window_state(with_window_state(ws, label, s), label) == s,
        forall|j: int|
            0 <= j < ws.len() && j != window_index(ws, label)
                ==> #[trigger] with_window_state(ws, label, s)[j] == ws[j],
{
    let i = window_index(ws, label);
    assert(0 <= i < ws.len() && ws[i].label == label);
    let after = with_window_state(ws, label, s);
    assert(forall|j: int| 0 <= j < ws.len() ==> #[trigger] after[j].label == ws[j].label);
    lemma_window_index_unique(after, label, i);
}

/// The registry of windows the host runtime created. Its mathematical view
/// is the sequence of window models.
#[derive(PartialEq, Eq, Debug)]
pub struct WindowRegistry {
    pub windows: Vec<Window>,
}

impl View for WindowRegistry {
    type V = Seq<WindowModel>;

    open spec fn view(&self) -> Seq<WindowModel> {
        self.windows@.map(|i: int, w: Window| WindowModel { label: w.label@, state: w.state })
    }
}

impl WindowRegistry {
    /// A registry with no windows at all.
    pub fn new() -> (r: WindowRegistry)
        ensures
            r@ == Seq::<WindowModel>::empty(),
    {
        let r = WindowRegistry { windows: Vec::new() };
        proof {
            assert(r@ =~= Seq::<WindowModel>::empty());
        }
        r
    }

    /// Register a window under `label`, in the host-default state. A label
    /// that is already taken is left alone, so labels stay unique; the
    /// result says whether the window was added.
    pub fn add_window(&mut self, label: String) -> (added: bool)
        requires
            labels_unique(old(self)@),
        ensures
            labels_unique(final(self)@),
            added == !has_window(old(self)@, label@),
            added ==> final(self)@ == old(self)@.push(
                (WindowModel { label: label@, state: WindowState::spec_host_default() }),
            ),
            !added ==> final(self)@ == old(self)@,
    {
        if self.find(&label).is_some() {
            return false;
        }
        let ghost before = self@;
        let ghost lview = label@;
        self.windows.push(Window { label, state: WindowState::host_default() });
        proof {
            assert(self@ =~= before.push(
                (WindowModel { label: lview, state: WindowState::spec_host_default() }),
            ));
        }
        true
    }

    /// Look up a window by label: the position of the window carrying it,
    /// or `None` when no window does.
    pub fn find(&self, label: &String) -> (r: Option<usize>)
        ensures
            match r {
                Some(i) => i < self@.len() && self@[i as int].label == label@ && has_window(
                    self@,
                    label@,
                ),
                None => !has_window(self@, label@),
            },
    {
        let mut i: usize = 0;
        while i < self.windows.len()
            invariant
                i <= self@.len(),
                self@.len() == self.windows@.len(),
                forall|j: int| 0 <= j < i ==> self@[j].label != label@,
            decreases self@.len() - i,
        {
            if self.windows[i].label == *label {
                return Some(i);
            }
            i += 1;
        }
        None
    }

    /// The state recorded for the window with this label, if one is
    /// registered.
    pub fn state_of(&self, label: &String) -> (r: Option<WindowState>)
        requires
            labels_unique(self@),
        ensures
            has_window(self@, label@) ==> r == Some(window_state(self@, label@)),
            !has_window(self@, label@) ==> r is None,
    {
        match self.find(label) {
            Some(i) => {
                proof {
                    lemma_window_index_unique(self@, label@, i as int);
                }
                Some(self.windows[i].state)
            },
            None => None,
        }
    }

    /// Replace the state of the window at `index`, keeping its label.
    pub fn set_state(&mut self, index: usize, s: WindowState)
        requires
            index < old(self)@.len(),
        ensures
            final(self)@ == old(self)@.update(
                index as int,
                (WindowModel { label: old(self)@[index as int].label, state: s }),
            ),
    {
        let ghost before = self@;
        self.windows[index].state = s;
        proof {
            assert(self@ =~= before.update(
                index as int,
                (WindowModel { label: before[index as int].label, state: s }),
            ));
        }
    }
}

} // verus!
