use vstd::prelude::*;

verus! {

/// The game's three scheduling states.  `Playing` is the initial state;
/// `Dead` is terminal — no transition leaves it.
#[derive(Clone, Copy, Debug, PartialEq, Eq, Hash, Structural)]
pub enum AppState {
    Playing,
    Paused,
    Dead,
}

} // verus!
