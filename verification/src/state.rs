//! The mutable game record threaded through every frame.

use vstd::prelude::*;
use crate::INITIAL_HEALTH;
use crate::model::{StateModel, initial_state};

verus! {

/// Health, loss flag, lean slowdown and lean accumulator. The slowdown
/// is in world units per second; the lean accumulator (`rotation`) is
/// in thousandths.
#[derive(Clone, Copy, Debug)]
pub struct GameState {
    pub health_amount: u8,
    pub lost: bool,
    pub slowdown: i64,
    pub rotation: i64,
}

impl View for GameState {
    type V = StateModel;

    open spec fn view(&self) -> StateModel {
        StateModel {
            health: self.health_amount as int,
            lost: self.lost,
            slowdown: self.slowdown as int,
            lean: self.rotation as int,
        }
    }
}

impl Default for GameState {
    /// A fresh round: full health, not lost, no slowdown, no lean.
    fn default() -> (s: Self)
        ensures
            s@ == initial_state(),
            s@.wf(),
    {
        GameState { health_amount: INITIAL_HEALTH, lost: false, slowdown: 0, rotation: 0 }
    }
}

} // verus!
