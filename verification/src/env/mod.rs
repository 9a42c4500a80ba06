//! Environments whose states and rewards are integers.
use vstd::prelude::*;

pub mod grid;
pub mod line;
pub mod toy;

verus! {

/// Marker for values an environment hands out as observations.
pub trait Observation {}

/// An environment that can be put back into its start state.
///
/// The observation type is named by an associated type.
pub trait Env {
    type Obs: Observation;

    fn reset(&mut self) -> Self::Obs;
}

} // verus!
