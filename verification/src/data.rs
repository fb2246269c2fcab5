//! The durable per-player data and its observation surface.
//!
//! The `State` component stores, for every player that was ever touched, a
//! record distinguishing only `Active` and `Suspended`; a player with no
//! record is implicitly "not added". Readers observe the three-way
//! `PlayerLifecycle`, where absence of a record appears as `NotAdded`.

use vstd::prelude::*;

verus! {

/// The lifecycle state a durable player record can hold.
#[derive(Clone, Copy, PartialEq, Eq, Structural, Debug)]
pub enum PlayerState {
    Active,
    Suspended,
}

/// The lifecycle state as observed through the read surface: a player
/// without a durable record is `NotAdded`.
#[derive(Clone, Copy, PartialEq, Eq, Structural, Debug)]
pub enum PlayerLifecycle {
    NotAdded,
    Active,
    Suspended,
}

/// The recorded outcome of a player's last battle.
#[derive(Clone, Copy, PartialEq, Eq, Structural, Debug)]
pub enum BattleResult {
    NoResult,
    Win,
    Loss,
}

/// The durable record kept per player.
#[derive(Clone, Copy, PartialEq, Eq, Structural, Debug)]
pub struct PlayerData {
    pub state: PlayerState,
    pub result: BattleResult,
}

impl PlayerData {
    /// The record a player receives when first touched.
    pub open spec fn spec_fresh() -> PlayerData {
        PlayerData { state: PlayerState::Active, result: BattleResult::NoResult }
    }

    /// The record a player receives when first touched.
    pub fn fresh() -> (d: PlayerData)
        ensures
            d == PlayerData::spec_fresh(),
    {
        PlayerData { state: PlayerState::Active, result: BattleResult::NoResult }
    }

    /// The three-way lifecycle an existing record is observed as.
    pub open spec fn spec_lifecycle(self) -> PlayerLifecycle {
        spec_observed_lifecycle(self.state)
    }

    /// The three-way lifecycle an existing record is observed as.
    pub fn lifecycle(&self) -> (l: PlayerLifecycle)
        ensures
            l == self.spec_lifecycle(),
    {
        match self.state {
            PlayerState::Active => PlayerLifecycle::Active,
            PlayerState::Suspended => PlayerLifecycle::Suspended,
        }
    }
}

/// The lifecycle a durable state is observed as.
pub open spec fn spec_observed_lifecycle(s: PlayerState) -> PlayerLifecycle {
    match s {
        PlayerState::Active => PlayerLifecycle::Active,
        PlayerState::Suspended => PlayerLifecycle::Suspended,
    }
}

/// What a reader observes for a player: absence is `NotAdded`, a record is
/// observed through its lifecycle and battle result.
pub open spec fn spec_observe(d: Option<PlayerData>) -> (PlayerLifecycle, BattleResult) {
    match d {
        Option::None => (PlayerLifecycle::NotAdded, BattleResult::NoResult),
        Option::Some(r) => (r.spec_lifecycle(), r.result),
    }
}

/// What a reader observes for a player: absence is `NotAdded`, a record is
/// observed through its lifecycle and battle result.
pub fn observe(d: Option<PlayerData>) -> (o: (PlayerLifecycle, BattleResult))
    ensures
        o == spec_observe(d),
{
    match d {
        Option::None => (PlayerLifecycle::NotAdded, BattleResult::NoResult),
        Option::Some(r) => (r.lifecycle(), r.result),
    }
}

} // verus!
