//! Per-window Vietnamese/English state: each window keeps the state that was
//! last saved while it was active.

use vstd::prelude::*;
use std::collections::HashMap;
use std::hash::Hash;
use vstd::std_specs::hash::obeys_key_model;
use vstd::std_specs::cmp::PartialEqSpec;

verus! {

broadcast use vstd::std_specs::hash::group_hash_axioms;

/// `K` behaves as a hash-map key should: hashing is deterministic, `==` is
/// identity and `clone` gives back an identical key.
pub open spec fn well_behaved_key<K: PartialEq + Clone>() -> bool {
    &&& obeys_key_model::<K>()
    &&& forall|a: K, b: K| #[trigger] cloned::<K>(a, b) ==> a == b
    &&& K::obeys_eq_spec()
    &&& forall|a: K, b: K| (#[trigger] a.eq_spec(&b) <==> (a == b))
}

/// Integer window ids, as the X11 front end uses, meet [`well_behaved_key`].
pub proof fn lemma_u32_ids_well_behaved()
    ensures
        well_behaved_key::<u32>(),
{
}

/// Remembers a state per window and which window is active.
pub struct WindowStateManager<K: Eq + Hash> {
    states: HashMap<K, bool>,
    current_active_window: Option<K>,
}

impl<K: Eq + Hash + Clone> WindowStateManager<K> {
    /// The saved state of each window.
    pub closed spec fn saved(&self) -> Map<K, bool> {
        self.states@
    }

    /// The active window, if any.
    pub closed spec fn active(&self) -> Option<K> {
        self.current_active_window
    }

    /// The state saved for window `w`, if any.
    pub open spec fn state_of(&self, w: K) -> Option<bool> {
        if self.saved().contains_key(w) {
            Some(self.saved()[w])
        } else {
            None
        }
    }

    /// The state saved for the active window.
    pub open spec fn spec_current_state(&self) -> Option<bool> {
        match self.active() {
            Some(id) => self.state_of(id),
            None => None,
        }
    }

    /// No window known and none active.
    #[allow(clippy::new_without_default)]
    pub fn new() -> (r: Self)
        ensures
            r.saved() == Map::<K, bool>::empty(),
            r.active() is None,
    {
        Self { states: HashMap::new(), current_active_window: None }
    }

    /// Makes `window_id` the active window.
    pub fn set_active_window(&mut self, window_id: K)
        ensures
            final(self).active() == Some(window_id),
            final(self).saved() == old(self).saved(),
    {
        self.current_active_window = Some(window_id);
    }

    /// The state saved for the active window; `None` when no window is
    /// active or nothing was saved for it.
    pub fn get_state_for_current_window(&self) -> (r: Option<bool>)
        ensures
            well_behaved_key::<K>() ==> r == self.spec_current_state(),
    {
        match &self.current_active_window {
            Some(id) => match self.states.get(id) {
                Some(v) => Some(*v),
                None => None,
            },
            None => None,
        }
    }

    /// Saves `state` for the active window, if there is one.
    pub fn save_state_for_current_window(&mut self, state: bool)
        ensures
            final(self).active() == old(self).active(),
            old(self).active() is None ==> final(self).saved() == old(self).saved(),
            well_behaved_key::<K>() && old(self).active() is Some ==> final(self).saved() == old(
                self,
            ).saved().insert(old(self).active()->0, state),
    {
        if let Some(window_id) = &self.current_active_window {
            let key = window_id.clone();
            proof {
                assert(cloned::<K>(*window_id, key));
            }
            self.states.insert(key, state);
        }
    }

    /// Forgets the state of closed window `window_id`; it stops being the
    /// active window if it was.
    pub fn remove_window(&mut self, window_id: &K)
        ensures
            well_behaved_key::<K>() ==> final(self).saved() == old(self).saved().remove(*window_id),
            well_behaved_key::<K>() ==> final(self).active() == if old(self).active() == Some(
                *window_id,
            ) {
                None
            } else {
                old(self).active()
            },
    {
        self.states.remove(window_id);
        let is_active = match &self.current_active_window {
            Some(id) => id == window_id,
            None => false,
        };
        if is_active {
            self.current_active_window = None;
        }
    }
}

/// Reading back: right after a state is saved for the active window, that
/// window's state is the saved one.
pub proof fn lemma_read_after_save<K: Eq + Hash + Clone>(
    m: WindowStateManager<K>,
    state: bool,
    after: WindowStateManager<K>,
)
    requires
        m.active() is Some,
        after.active() == m.active(),
        after.saved() == m.saved().insert(m.active()->0, state),
    ensures
        after.spec_current_state() == Some(state),
{
}

/// Saving for the active window leaves every other window's state as it was,
/// so switching back to a window gives the state it had.
pub proof fn lemma_save_keeps_other_windows<K: Eq + Hash + Clone>(
    m: WindowStateManager<K>,
    state: bool,
    after: WindowStateManager<K>,
    other: K,
)
    requires
        m.active() is Some,
        m.active() != Some(other),
        after.saved() == m.saved().insert(m.active()->0, state),
    ensures
        after.state_of(other) == m.state_of(other),
{
}

/// A removed window has no saved state; the others keep theirs.
pub proof fn lemma_remove_forgets<K: Eq + Hash + Clone>(
    m: WindowStateManager<K>,
    removed: K,
    after: WindowStateManager<K>,
    other: K,
)
    requires
        after.saved() == m.saved().remove(removed),
        other != removed,
    ensures
        after.state_of(removed) is None,
        after.state_of(other) == m.state_of(other),
{
}

} // verus!
