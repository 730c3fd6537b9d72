//! The table of live sound instances, keyed by opaque instance identifiers.
use vstd::prelude::*;
use std::collections::HashMap;

verus! {

broadcast use vstd::std_specs::hash::group_hash_axioms;

/// Playback state of a live sound instance, as the playback engine reports it.
#[derive(Clone, Copy, Debug, PartialEq, Eq, Structural)]
pub enum PlaybackState {
    Playing,
    Pausing,
    Paused,
    Stopping,
    Stopped,
}

/// Whether the table holds `id` and reports it as stopped.
pub open spec fn stopped_in(m: Map<u64, PlaybackState>, id: u64) -> bool {
    m.contains_key(id) && m[id] == PlaybackState::Stopped
}

/// A snapshot of the sound instance store: for each live instance identifier,
/// its current playback state.
pub struct InstanceTable {
    states: HashMap<u64, PlaybackState>,
}

impl View for InstanceTable {
    type V = Map<u64, PlaybackState>;

    closed spec fn view(&self) -> Map<u64, PlaybackState> {
        self.states@
    }
}

impl InstanceTable {
    /// An empty table.
    pub fn new() -> (t: InstanceTable)
        ensures
            t@ == Map::<u64, PlaybackState>::empty(),
    {
        InstanceTable { states: HashMap::new() }
    }

    /// Records `state` for instance `id`, adding the instance if it is new.
    pub fn set_state(&mut self, id: u64, state: PlaybackState)
        ensures
            final(self)@ == old(self)@.insert(id, state),
    {
        self.states.insert(id, state);
    }

    /// The playback state of instance `id`, or `None` if the table lacks it.
    pub fn state(&self, id: u64) -> (r: Option<PlaybackState>)
        ensures
            r == (if self@.contains_key(id) { Some(self@[id]) } else { None::<PlaybackState> }),
    {
        match self.states.get(&id) {
            Some(s) => Some(*s),
            None => None,
        }
    }

    /// Whether the table holds instance `id`.
    pub fn contains(&self, id: u64) -> (r: bool)
        ensures
            r == self@.contains_key(id),
    {
        self.states.contains_key(&id)
    }

    /// Whether the table holds instance `id` and reports it as stopped.
    pub fn is_stopped(&self, id: u64) -> (r: bool)
        ensures
            r == stopped_in(self@, id),
    {
        match self.state(id) {
            Some(PlaybackState::Stopped) => true,
            _ => false,
        }
    }
}

} // verus!
