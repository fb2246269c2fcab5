//! The `State` component: the long-lived store of all durable data.
//!
//! It owns the per-player records, the global pause flag and the pair of
//! addresses it trusts. It is the leaf of the protocol: it calls nothing,
//! and every mutation checks the caller first. The address pair is set
//! exactly once; a mutation other than `initialize` fails `UnInitialized`
//! until then.

use vstd::prelude::*;
use crate::addr::{AccountAddress, Address, ContractAddress};
use crate::data::{BattleResult, PlayerData, PlayerLifecycle, PlayerState, spec_observe, observe};
use crate::error::StateError;
use crate::players::PlayerMap;

verus! {

/// The pair of addresses the state component cooperates with, set exactly
/// once.
#[derive(Clone, Copy, PartialEq, Eq, Structural, Debug)]
pub enum ProtocolAddressesState {
    UnInitialized,
    Initialized { proxy_address: ContractAddress, implementation_address: ContractAddress },
}

/// What `view_state` returns: the basic durable fields, without the
/// per-player records.
#[derive(Clone, Copy, PartialEq, Eq, Structural, Debug)]
pub struct ReturnBasicState {
    pub proxy_address: ContractAddress,
    pub implementation_address: ContractAddress,
    pub paused: bool,
}

/// The mathematical content of a state component.
pub struct StateView {
    pub deployer: AccountAddress,
    pub protocol_addresses: ProtocolAddressesState,
    pub players: Map<Address, PlayerData>,
    pub paused: bool,
}

/// The `State` component.
#[derive(Debug)]
pub struct State {
    deployer: AccountAddress,
    protocol_addresses: ProtocolAddressesState,
    players: PlayerMap,
    paused: bool,
}

impl View for State {
    type V = StateView;

    closed spec fn view(&self) -> StateView {
        StateView {
            deployer: self.deployer,
            protocol_addresses: self.protocol_addresses,
            players: self.players@,
            paused: self.paused,
        }
    }
}

impl State {
    /// The per-player record store keeps its keys pairwise distinct.
    pub closed spec fn wf(self) -> bool {
        self.players.wf()
    }

    /// The content of a freshly deployed state component.
    pub open spec fn spec_new(deployer: AccountAddress) -> StateView {
        StateView {
            deployer,
            protocol_addresses: ProtocolAddressesState::UnInitialized,
            players: Map::empty(),
            paused: false,
        }
    }

    /// Deploys a state component: no records, unpaused, addresses not yet
    /// set. The deploying account is recorded; only a transaction it starts
    /// may later set the addresses.
    pub fn new(deployer: AccountAddress) -> (s: State)
        ensures
            s.wf(),
            s@ == State::spec_new(deployer),
    {
        let s = State {
            deployer,
            protocol_addresses: ProtocolAddressesState::UnInitialized,
            players: PlayerMap::new(),
            paused: false,
        };
        proof {
            assert(s@.players =~= Map::<Address, PlayerData>::empty());
        }
        s
    }

    /// `initialize`: sets the proxy and implementation addresses, exactly
    /// once. A second call fails `AlreadyInitialized` whoever sends it; a
    /// first call by a transaction the recorded deployer did not start
    /// fails `OnlyDeployer`.
    pub open spec fn spec_initialize(
        pre: StateView,
        invoker: AccountAddress,
        proxy_address: ContractAddress,
        implementation_address: ContractAddress,
    ) -> (StateView, Result<(), StateError>) {
        if !(pre.protocol_addresses is UnInitialized) {
            (pre, Result::Err(StateError::AlreadyInitialized))
        } else if invoker != pre.deployer {
            (pre, Result::Err(StateError::OnlyDeployer))
        } else {
            (
                StateView {
                    protocol_addresses: ProtocolAddressesState::Initialized {
                        proxy_address,
                        implementation_address,
                    },
                    ..pre
                },
                Result::Ok(()),
            )
        }
    }

    /// Sets the proxy and implementation addresses, exactly once.
    ///
    /// `invoker` is the account that started the transaction, supplied by
    /// the host; requiring it to equal the recorded deployer keeps a
    /// stranger from claiming the component before the proxy does.
    pub fn initialize(
        &mut self,
        invoker: AccountAddress,
        proxy_address: ContractAddress,
        implementation_address: ContractAddress,
    ) -> (r: Result<(), StateError>)
        requires
            old(self).wf(),
        ensures
            final(self).wf(),
            final(self)@ == State::spec_initialize(
                old(self)@,
                invoker,
                proxy_address,
                implementation_address,
            ).0,
            r == State::spec_initialize(
                old(self)@,
                invoker,
                proxy_address,
                implementation_address,
            ).1,
    {
        match self.protocol_addresses {
            ProtocolAddressesState::Initialized { .. } => Result::Err(
                StateError::AlreadyInitialized,
            ),
            ProtocolAddressesState::UnInitialized => {
                if invoker != self.deployer {
                    Result::Err(StateError::OnlyDeployer)
                } else {
                    self.protocol_addresses = ProtocolAddressesState::Initialized {
                        proxy_address,
                        implementation_address,
                    };
                    Result::Ok(())
                }
            },
        }
    }

    /// `setImplementationAddress`: replaces the implementation half of the
    /// address pair, keeping the proxy half. Only the recorded proxy may
    /// call it.
    pub open spec fn spec_set_implementation_address(
        pre: StateView,
        sender: Address,
        new_implementation: ContractAddress,
    ) -> (StateView, Result<(), StateError>) {
        match pre.protocol_addresses {
            ProtocolAddressesState::UnInitialized => (pre, Result::Err(StateError::UnInitialized)),
            ProtocolAddressesState::Initialized { proxy_address, implementation_address } => {
                if !sender.spec_matches_contract(proxy_address) {
                    (pre, Result::Err(StateError::OnlyProxy))
                } else {
                    (
                        StateView {
                            protocol_addresses: ProtocolAddressesState::Initialized {
                                proxy_address,
                                implementation_address: new_implementation,
                            },
                            ..pre
                        },
                        Result::Ok(()),
                    )
                }
            },
        }
    }

    /// Replaces the implementation half of the address pair; proxy only.
    pub fn set_implementation_address(
        &mut self,
        sender: Address,
        new_implementation: ContractAddress,
    ) -> (r: Result<(), StateError>)
        requires
            old(self).wf(),
        ensures
            final(self).wf(),
            final(self)@ == State::spec_set_implementation_address(
                old(self)@,
                sender,
                new_implementation,
            ).0,
            r == State::spec_set_implementation_address(
                old(self)@,
                sender,
                new_implementation,
            ).1,
    {
        match self.protocol_addresses {
            ProtocolAddressesState::UnInitialized => Result::Err(StateError::UnInitialized),
            ProtocolAddressesState::Initialized { proxy_address, implementation_address: _ } => {
                if !sender.matches_contract(&proxy_address) {
                    Result::Err(StateError::OnlyProxy)
                } else {
                    self.protocol_addresses = ProtocolAddressesState::Initialized {
                        proxy_address,
                        implementation_address: new_implementation,
                    };
                    Result::Ok(())
                }
            },
        }
    }

    /// `setPaused`: stores the pause flag. Only the recorded implementation
    /// may call it.
    pub open spec fn spec_set_paused(pre: StateView, sender: Address, paused: bool) -> (
        StateView,
        Result<(), StateError>,
    ) {
        match pre.protocol_addresses {
            ProtocolAddressesState::UnInitialized => (pre, Result::Err(StateError::UnInitialized)),
            ProtocolAddressesState::Initialized { proxy_address, implementation_address } => {
                if !sender.spec_matches_contract(implementation_address) {
                    (pre, Result::Err(StateError::OnlyImplementation))
                } else {
                    (StateView { paused, ..pre }, Result::Ok(()))
                }
            },
        }
    }

    /// Stores the pause flag; implementation only.
    pub fn set_paused(&mut self, sender: Address, paused: bool) -> (r: Result<(), StateError>)
        requires
            old(self).wf(),
        ensures
            final(self).wf(),
            final(self)@ == State::spec_set_paused(old(self)@, sender, paused).0,
            r == State::spec_set_paused(old(self)@, sender, paused).1,
    {
        match self.protocol_addresses {
            ProtocolAddressesState::UnInitialized => Result::Err(StateError::UnInitialized),
            ProtocolAddressesState::Initialized { proxy_address: _, implementation_address } => {
                if !sender.matches_contract(&implementation_address) {
                    Result::Err(StateError::OnlyImplementation)
                } else {
                    self.paused = paused;
                    Result::Ok(())
                }
            },
        }
    }

    /// `updatePlayerState`: gets or creates the player's record, then sets
    /// its lifecycle state, keeping the battle result. Implementation only.
    pub open spec fn spec_update_player_state(
        pre: StateView,
        sender: Address,
        player: Address,
        state: PlayerState,
    ) -> (StateView, Result<(), StateError>) {
        match pre.protocol_addresses {
            ProtocolAddressesState::UnInitialized => (pre, Result::Err(StateError::UnInitialized)),
            ProtocolAddressesState::Initialized { proxy_address, implementation_address } => {
                if !sender.spec_matches_contract(implementation_address) {
                    (pre, Result::Err(StateError::OnlyImplementation))
                } else {
                    (
                        StateView {
                            players: PlayerMap::spec_touched(pre.players, player).insert(
                                player,
                                PlayerData {
                                    state,
                                    result: PlayerMap::spec_touched(
                                        pre.players,
                                        player,
                                    )[player].result,
                                },
                            ),
                            ..pre
                        },
                        Result::Ok(()),
                    )
                }
            },
        }
    }

    /// Gets or creates the player's record and sets its lifecycle state;
    /// implementation only.
    pub fn update_player_state(&mut self, sender: Address, player: Address, state: PlayerState) -> (r:
        Result<(), StateError>)
        requires
            old(self).wf(),
        ensures
            final(self).wf(),
            final(self)@ == State::spec_update_player_state(old(self)@, sender, player, state).0,
            r == State::spec_update_player_state(old(self)@, sender, player, state).1,
    {
        match self.protocol_addresses {
            ProtocolAddressesState::UnInitialized => Result::Err(StateError::UnInitialized),
            ProtocolAddressesState::Initialized { proxy_address: _, implementation_address } => {
                if !sender.matches_contract(&implementation_address) {
                    Result::Err(StateError::OnlyImplementation)
                } else {
                    self.players.set_state(&player, state);
                    Result::Ok(())
                }
            },
        }
    }

    /// `updateBattleResult`: gets or creates the player's record, then sets
    /// its battle result, keeping the lifecycle state. Implementation only.
    pub open spec fn spec_update_battle_result(
        pre: StateView,
        sender: Address,
        player: Address,
        result: BattleResult,
    ) -> (StateView, Result<(), StateError>) {
        match pre.protocol_addresses {
            ProtocolAddressesState::UnInitialized => (pre, Result::Err(StateError::UnInitialized)),
            ProtocolAddressesState::Initialized { proxy_address, implementation_address } => {
                if !sender.spec_matches_contract(implementation_address) {
                    (pre, Result::Err(StateError::OnlyImplementation))
                } else {
                    (
                        StateView {
                            players: PlayerMap::spec_touched(pre.players, player).insert(
                                player,
                                PlayerData {
                                    state: PlayerMap::spec_touched(
                                        pre.players,
                                        player,
                                    )[player].state,
                                    result,
                                },
                            ),
                            ..pre
                        },
                        Result::Ok(()),
                    )
                }
            },
        }
    }

    /// Gets or creates the player's record and sets its battle result;
    /// implementation only.
    pub fn update_battle_result(
        &mut self,
        sender: Address,
        player: Address,
        result: BattleResult,
    ) -> (r: Result<(), StateError>)
        requires
            old(self).wf(),
        ensures
            final(self).wf(),
            final(self)@ == State::spec_update_battle_result(old(self)@, sender, player, result).0,
            r == State::spec_update_battle_result(old(self)@, sender, player, result).1,
    {
        match self.protocol_addresses {
            ProtocolAddressesState::UnInitialized => Result::Err(StateError::UnInitialized),
            ProtocolAddressesState::Initialized { proxy_address: _, implementation_address } => {
                if !sender.matches_contract(&implementation_address) {
                    Result::Err(StateError::OnlyImplementation)
                } else {
                    self.players.set_result(&player, result);
                    Result::Ok(())
                }
            },
        }
    }

    /// `addPlayer`: gets or creates the player's record with no further
    /// effect beyond creation; calling it for a player that already has a
    /// record changes nothing. Implementation only.
    pub open spec fn spec_add_player(pre: StateView, sender: Address, player: Address) -> (
        StateView,
        Result<(), StateError>,
    ) {
        match pre.protocol_addresses {
            ProtocolAddressesState::UnInitialized => (pre, Result::Err(StateError::UnInitialized)),
            ProtocolAddressesState::Initialized { proxy_address, implementation_address } => {
                if !sender.spec_matches_contract(implementation_address) {
                    (pre, Result::Err(StateError::OnlyImplementation))
                } else {
                    (
                        StateView { players: PlayerMap::spec_touched(pre.players, player), ..pre },
                        Result::Ok(()),
                    )
                }
            },
        }
    }

    /// Gets or creates the player's record; implementation only.
    pub fn add_player(&mut self, sender: Address, player: Address) -> (r: Result<(), StateError>)
        requires
            old(self).wf(),
        ensures
            final(self).wf(),
            final(self)@ == State::spec_add_player(old(self)@, sender, player).0,
            r == State::spec_add_player(old(self)@, sender, player).1,
    {
        match self.protocol_addresses {
            ProtocolAddressesState::UnInitialized => Result::Err(StateError::UnInitialized),
            ProtocolAddressesState::Initialized { proxy_address: _, implementation_address } => {
                if !sender.matches_contract(&implementation_address) {
                    Result::Err(StateError::OnlyImplementation)
                } else {
                    self.players.touch(&player);
                    Result::Ok(())
                }
            },
        }
    }

    /// `getPaused`: the stored pause flag, returned whether or not the
    /// addresses were initialized.
    pub fn get_paused(&self) -> (r: bool)
        ensures
            r == self@.paused,
    {
        self.paused
    }

    /// `isAdded`: whether the player already has a durable record, returned
    /// whether or not the addresses were initialized.
    pub fn is_added(&self, player: &Address) -> (r: bool)
        requires
            self.wf(),
        ensures
            r == self@.players.dom().contains(*player),
    {
        self.players.contains(player)
    }

    /// What `getPlayerData` returns for a player.
    pub open spec fn spec_get_player_data(pre: StateView, player: Address) -> (
        PlayerLifecycle,
        BattleResult,
    ) {
        spec_observe(
            if pre.players.dom().contains(player) {
                Option::Some(pre.players[player])
            } else {
                Option::None
            },
        )
    }

    /// `getPlayerData`: the player's stored lifecycle and battle result,
    /// returned whether or not the addresses were initialized; a player
    /// without a record is observed as `NotAdded` with `NoResult`.
    pub fn get_player_data(&self, player: &Address) -> (r: (PlayerLifecycle, BattleResult))
        requires
            self.wf(),
        ensures
            r == State::spec_get_player_data(self@, *player),
    {
        observe(self.players.get(player))
    }

    /// What `view` returns: the address pair and the pause flag, or
    /// `UnInitialized` before the pair is set.
    pub open spec fn spec_view_state(pre: StateView) -> Result<ReturnBasicState, StateError> {
        match pre.protocol_addresses {
            ProtocolAddressesState::UnInitialized => Result::Err(StateError::UnInitialized),
            ProtocolAddressesState::Initialized { proxy_address, implementation_address } => {
                Result::Ok(
                    ReturnBasicState { proxy_address, implementation_address, paused: pre.paused },
                )
            },
        }
    }

    /// `view`: the address pair and the pause flag; fails `UnInitialized`
    /// before the pair is set.
    pub fn view_state(&self) -> (r: Result<ReturnBasicState, StateError>)
        ensures
            r == State::spec_view_state(self@),
    {
        match self.protocol_addresses {
            ProtocolAddressesState::UnInitialized => Result::Err(StateError::UnInitialized),
            ProtocolAddressesState::Initialized { proxy_address, implementation_address } => {
                Result::Ok(
                    ReturnBasicState {
                        proxy_address,
                        implementation_address,
                        paused: self.paused,
                    },
                )
            },
        }
    }

    /// The recorded address pair, as readers and the host model see it.
    pub fn protocol_addresses(&self) -> (r: ProtocolAddressesState)
        ensures
            r == self@.protocol_addresses,
    {
        self.protocol_addresses
    }

    /// The account that deployed this instance.
    pub fn deployer(&self) -> (r: AccountAddress)
        ensures
            r == self@.deployer,
    {
        self.deployer
    }
}

} // verus!
