//! The host model: one deployment of the three components.
//!
//! The host ledger executes calls, supplies the caller identity, resolves
//! contract addresses and rolls back every state change of a synchronous
//! call chain whose tail fails. This module models such a host for one
//! deployment: the three components live at three distinct addresses, and
//! each entry point that issues cross-component calls is an operation on
//! the whole deployment, atomic by construction — on any failure the
//! deployment is returned unchanged.
//!
//! A cross-component call is resolved against the deployment: a recorded
//! peer address that is not the address of the live peer instance fails as
//! the host's missing-contract failure would, which the caller observes as
//! its cross-call invocation error.

use vstd::prelude::*;
use crate::addr::{AccountAddress, Address, ContractAddress};
use crate::codec;
use crate::data::{BattleResult, PlayerLifecycle, PlayerState};
use crate::error::{ImplError, ProxyError};
use crate::implementation::Implementation;
use crate::proxy::Proxy;
use crate::state::{State, StateView};

verus! {

/// The mathematical content of a deployment.
pub struct ChainView {
    pub proxy_address: ContractAddress,
    pub implementation_address: ContractAddress,
    pub state_address: ContractAddress,
    pub proxy: Proxy,
    pub implementation: Implementation,
    pub state: StateView,
    pub proxy_log: Seq<Seq<u8>>,
    pub implementation_log: Seq<Seq<u8>>,
}

/// The three instance addresses are pairwise distinct: the host never
/// assigns one address twice.
pub open spec fn spec_addresses_distinct(cv: ChainView) -> bool {
    &&& cv.proxy_address != cv.implementation_address
    &&& cv.proxy_address != cv.state_address
    &&& cv.implementation_address != cv.state_address
}

/// One deployment of the protocol: proxy, implementation and state, each
/// live at its own address, with the event logs of the two components that
/// log.
#[derive(Debug)]
pub struct Chain {
    proxy_address: ContractAddress,
    implementation_address: ContractAddress,
    state_address: ContractAddress,
    proxy: Proxy,
    implementation: Implementation,
    state: State,
    proxy_log: Vec<Vec<u8>>,
    implementation_log: Vec<Vec<u8>>,
}

impl View for Chain {
    type V = ChainView;

    closed spec fn view(&self) -> ChainView {
        ChainView {
            proxy_address: self.proxy_address,
            implementation_address: self.implementation_address,
            state_address: self.state_address,
            proxy: self.proxy,
            implementation: self.implementation,
            state: self.state@,
            proxy_log: self.proxy_log.deep_view(),
            implementation_log: self.implementation_log.deep_view(),
        }
    }
}

impl Chain {
    /// The state component keeps its record store well-formed, and the
    /// three addresses are pairwise distinct.
    pub closed spec fn wf(self) -> bool {
        self.state.wf() && spec_addresses_distinct(self@)
    }

    /// A fresh deployment: state and implementation deployed first, then
    /// the proxy holding both peer addresses; one account deploys all three
    /// and starts as both admins. The implementation's deployment logs a
    /// new-admin event.
    pub open spec fn spec_new(
        deployer: AccountAddress,
        proxy_address: ContractAddress,
        implementation_address: ContractAddress,
        state_address: ContractAddress,
    ) -> ChainView {
        ChainView {
            proxy_address,
            implementation_address,
            state_address,
            proxy: Proxy::spec_new(deployer, implementation_address, state_address),
            implementation: Implementation::spec_new(deployer),
            state: State::spec_new(deployer),
            proxy_log: Seq::empty(),
            implementation_log: Seq::empty().push(
                codec::spec_new_admin_event_bytes(Address::Account(deployer)),
            ),
        }
    }

    /// Deploys the three components at three distinct addresses.
    pub fn new(
        deployer: AccountAddress,
        proxy_address: ContractAddress,
        implementation_address: ContractAddress,
        state_address: ContractAddress,
    ) -> (c: Chain)
        requires
            proxy_address != implementation_address,
            proxy_address != state_address,
            implementation_address != state_address,
        ensures
            c.wf(),
            c@ == Chain::spec_new(deployer, proxy_address, implementation_address, state_address),
    {
        let state = State::new(deployer);
        let mut implementation_log: Vec<Vec<u8>> = Vec::new();
        let implementation = Implementation::new(deployer, &mut implementation_log);
        let proxy = Proxy::new(deployer, implementation_address, state_address);
        let proxy_log: Vec<Vec<u8>> = Vec::new();
        let c = Chain {
            proxy_address,
            implementation_address,
            state_address,
            proxy,
            implementation,
            state,
            proxy_log,
            implementation_log,
        };
        proof {
            assert(c.proxy_log.deep_view() =~= Seq::<Seq<u8>>::empty());
            assert(c.implementation_log.deep_view() =~= Seq::<Seq<u8>>::empty().push(
                codec::spec_new_admin_event_bytes(Address::Account(deployer)),
            ));
        }
        c
    }

    // -----------------------------------------------------------------
    // Read access.
    // -----------------------------------------------------------------

    /// The live state instance.
    pub fn state_ref(&self) -> (r: &State)
        ensures
            r@ == self@.state,
            self.wf() ==> r.wf(),
    {
        &self.state
    }

    /// The live proxy instance's durable fields.
    pub fn proxy_fields(&self) -> (r: Proxy)
        ensures
            r == self@.proxy,
    {
        self.proxy
    }

    /// The live implementation instance's durable fields.
    pub fn implementation_fields(&self) -> (r: Implementation)
        ensures
            r == self@.implementation,
    {
        self.implementation
    }

    /// The address the proxy is deployed at.
    pub fn proxy_address(&self) -> (r: ContractAddress)
        ensures
            r == self@.proxy_address,
    {
        self.proxy_address
    }

    /// The address the implementation is deployed at.
    pub fn implementation_address(&self) -> (r: ContractAddress)
        ensures
            r == self@.implementation_address,
    {
        self.implementation_address
    }

    /// The address the state component is deployed at.
    pub fn state_address(&self) -> (r: ContractAddress)
        ensures
            r == self@.state_address,
    {
        self.state_address
    }

    /// The proxy's event log.
    pub fn proxy_log(&self) -> (r: &Vec<Vec<u8>>)
        ensures
            r.deep_view() == self@.proxy_log,
    {
        &self.proxy_log
    }

    /// The implementation's event log.
    pub fn implementation_log(&self) -> (r: &Vec<Vec<u8>>)
        ensures
            r.deep_view() == self@.implementation_log,
    {
        &self.implementation_log
    }

    // -----------------------------------------------------------------
    // Proxy entry points that issue cross-component calls.
    // -----------------------------------------------------------------

    /// `initialize` on the proxy: hands the proxy's own address and the
    /// respective peer to `initialize` of the state and the implementation
    /// components, then logs a new-implementation and a new-admin event.
    /// Each callee enforces its own one-shot guard; a callee's rejection
    /// reaches the caller as the proxy's cross-call invocation error and
    /// rolls the whole chain back.
    pub open spec fn spec_proxy_initialize(pre: ChainView, invoker: AccountAddress) -> (
        ChainView,
        Result<(), ProxyError>,
    ) {
        if pre.proxy.state_address != pre.state_address {
            (pre, Result::Err(ProxyError::InvokeContractError))
        } else {
            let (state1, r1) = State::spec_initialize(
                pre.state,
                invoker,
                pre.proxy_address,
                pre.proxy.implementation_address,
            );
            if r1 is Err {
                (pre, Result::Err(ProxyError::InvokeContractError))
            } else if pre.proxy.implementation_address != pre.implementation_address {
                (pre, Result::Err(ProxyError::InvokeContractError))
            } else {
                let (impl1, r2) = Implementation::spec_initialize(
                    pre.implementation,
                    invoker,
                    pre.proxy_address,
                    pre.proxy.state_address,
                );
                if r2 is Err {
                    (pre, Result::Err(ProxyError::InvokeContractError))
                } else {
                    (
                        ChainView {
                            state: state1,
                            implementation: impl1,
                            proxy_log: pre.proxy_log.push(
                                codec::spec_new_implementation_event_bytes(
                                    pre.proxy.implementation_address,
                                ),
                            ).push(codec::spec_new_admin_event_bytes(pre.proxy.admin)),
                            ..pre
                        },
                        Result::Ok(()),
                    )
                }
            }
        }
    }

    /// `initialize` on the proxy; see `spec_proxy_initialize`.
    pub fn proxy_initialize(&mut self, invoker: AccountAddress) -> (r: Result<(), ProxyError>)
        requires
            old(self).wf(),
        ensures
            final(self).wf(),
            final(self)@ == Chain::spec_proxy_initialize(old(self)@, invoker).0,
            r == Chain::spec_proxy_initialize(old(self)@, invoker).1,
    {
        let proxy_address = self.proxy_address;
        let recorded_state = self.proxy.state_address;
        let recorded_implementation = self.proxy.implementation_address;
        if recorded_state != self.state_address {
            return Result::Err(ProxyError::InvokeContractError);
        }
        // The host rolls the whole chain back when any call in it fails, so
        // nothing is mutated until every callee is known to accept.
        let state_accepts = matches!(
            self.state.protocol_addresses(),
            crate::state::ProtocolAddressesState::UnInitialized
        ) && invoker == self.state.deployer();
        if !state_accepts {
            return Result::Err(ProxyError::InvokeContractError);
        }
        if recorded_implementation != self.implementation_address {
            return Result::Err(ProxyError::InvokeContractError);
        }
        let implementation_accepts = matches!(
            self.implementation.protocol_addresses,
            crate::implementation::ProtocolAddressesImplementation::UnInitialized
        ) && invoker == self.implementation.deployer;
        if !implementation_accepts {
            return Result::Err(ProxyError::InvokeContractError);
        }
        let _r1 = self.state.initialize(invoker, proxy_address, recorded_implementation);
        let _r2 = self.implementation.initialize(invoker, proxy_address, recorded_state);
        codec::append_log(
            &mut self.proxy_log,
            codec::new_implementation_event_bytes(&recorded_implementation),
        );
        codec::append_log(&mut self.proxy_log, codec::new_admin_event_bytes(&self.proxy.admin));
        Result::Ok(())
    }

    /// `updateAdmin` on the proxy: rotates the proxy's admin and logs a
    /// new-admin event; no cross-component call.
    pub open spec fn spec_proxy_update_admin(pre: ChainView, sender: Address, new_admin: Address) -> (
        ChainView,
        Result<(), ProxyError>,
    ) {
        let (proxy1, r) = Proxy::spec_update_admin(pre.proxy, sender, new_admin);
        if r is Ok {
            (
                ChainView {
                    proxy: proxy1,
                    proxy_log: pre.proxy_log.push(codec::spec_new_admin_event_bytes(new_admin)),
                    ..pre
                },
                r,
            )
        } else {
            (pre, r)
        }
    }

    /// `updateAdmin` on the proxy; see `spec_proxy_update_admin`.
    pub fn proxy_update_admin(&mut self, sender: Address, new_admin: Address) -> (r: Result<
        (),
        ProxyError,
    >)
        requires
            old(self).wf(),
        ensures
            final(self).wf(),
            final(self)@ == Chain::spec_proxy_update_admin(old(self)@, sender, new_admin).0,
            r == Chain::spec_proxy_update_admin(old(self)@, sender, new_admin).1,
    {
        self.proxy.update_admin(sender, new_admin, &mut self.proxy_log)
    }

    /// `updateImplementation` on the proxy: rotates the proxy's recorded
    /// implementation address, forwards `setImplementationAddress` to the
    /// state component so its view stays consistent, and logs a
    /// new-implementation event. Proxy admin only; a failing forward rolls
    /// the whole chain back.
    pub open spec fn spec_proxy_update_implementation(
        pre: ChainView,
        sender: Address,
        new_implementation: ContractAddress,
    ) -> (ChainView, Result<(), ProxyError>) {
        if sender != pre.proxy.admin {
            (pre, Result::Err(ProxyError::OnlyAdmin))
        } else if pre.proxy.state_address != pre.state_address {
            (pre, Result::Err(ProxyError::InvokeContractError))
        } else {
            let (state1, r1) = State::spec_set_implementation_address(
                pre.state,
                Address::Contract(pre.proxy_address),
                new_implementation,
            );
            if r1 is Err {
                (pre, Result::Err(ProxyError::InvokeContractError))
            } else {
                (
                    ChainView {
                        proxy: Proxy { implementation_address: new_implementation, ..pre.proxy },
                        state: state1,
                        proxy_log: pre.proxy_log.push(
                            codec::spec_new_implementation_event_bytes(new_implementation),
                        ),
                        ..pre
                    },
                    Result::Ok(()),
                )
            }
        }
    }

    /// `updateImplementation` on the proxy; see
    /// `spec_proxy_update_implementation`.
    pub fn proxy_update_implementation(
        &mut self,
        sender: Address,
        new_implementation: ContractAddress,
    ) -> (r: Result<(), ProxyError>)
        requires
            old(self).wf(),
        ensures
            final(self).wf(),
            final(self)@ == Chain::spec_proxy_update_implementation(
                old(self)@,
                sender,
                new_implementation,
            ).0,
            r == Chain::spec_proxy_update_implementation(old(self)@, sender, new_implementation).1,
    {
        let proxy_address = self.proxy_address;
        if sender != self.proxy.admin {
            return Result::Err(ProxyError::OnlyAdmin);
        }
        if self.proxy.state_address != self.state_address {
            return Result::Err(ProxyError::InvokeContractError);
        }
        let r1 = self.state.set_implementation_address(
            Address::Contract(proxy_address),
            new_implementation,
        );
        if r1.is_err() {
            return Result::Err(ProxyError::InvokeContractError);
        }
        self.proxy.implementation_address = new_implementation;
        codec::append_log(
            &mut self.proxy_log,
            codec::new_implementation_event_bytes(&new_implementation),
        );
        Result::Ok(())
    }

    /// `logEvent` on the proxy: the implementation publishes a raw record
    /// under the proxy's address; anyone else is turned away.
    pub open spec fn spec_proxy_log_event(pre: ChainView, sender: Address, raw: Seq<u8>) -> (
        ChainView,
        Result<(), ProxyError>,
    ) {
        let r = Proxy::spec_log_event(pre.proxy, sender);
        if r is Ok {
            (ChainView { proxy_log: pre.proxy_log.push(raw), ..pre }, r)
        } else {
            (pre, r)
        }
    }

    /// `logEvent` on the proxy; see `spec_proxy_log_event`.
    pub fn proxy_log_event(&mut self, sender: Address, raw: Vec<u8>) -> (r: Result<(), ProxyError>)
        requires
            old(self).wf(),
        ensures
            final(self).wf(),
            final(self)@ == Chain::spec_proxy_log_event(old(self)@, sender, raw@).0,
            r == Chain::spec_proxy_log_event(old(self)@, sender, raw@).1,
    {
        self.proxy.log_event(sender, raw, &mut self.proxy_log)
    }

    // -----------------------------------------------------------------
    // Implementation entry points. Each re-derives the (proxy, state)
    // pair from the implementation's own record and fails `UnInitialized`
    // before `initialize` has succeeded.
    // -----------------------------------------------------------------

    /// The guard every non-admin-gated business mutation runs first: the
    /// sender must be the recorded proxy, the recorded state component must
    /// resolve, and its pause flag must be off. Yields the resolved state
    /// address.
    pub open spec fn spec_business_guard(pre: ChainView, sender: Address) -> Result<
        ContractAddress,
        ImplError,
    > {
        match Implementation::spec_protocol_pair(pre.implementation) {
            Result::Err(e) => Result::Err(e),
            Result::Ok((proxy_address, state_address)) => {
                if !sender.spec_matches_contract(proxy_address) {
                    Result::Err(ImplError::OnlyProxy)
                } else if state_address != pre.state_address {
                    Result::Err(ImplError::InvokeContractError)
                } else if pre.state.paused {
                    Result::Err(ImplError::ContractPaused)
                } else {
                    Result::Ok(state_address)
                }
            },
        }
    }

    /// Runs the business guard: initialized, sender is the proxy, the
    /// state component resolves and is not paused.
    fn business_guard(&self, sender: Address) -> (r: Result<ContractAddress, ImplError>)
        ensures
            r == Chain::spec_business_guard(self@, sender),
    {
        let pair = self.implementation.protocol_pair();
        match pair {
            Result::Err(e) => Result::Err(e),
            Result::Ok((proxy_address, state_address)) => {
                if let Result::Err(e) = crate::implementation::only_proxy(proxy_address, sender) {
                    Result::Err(e)
                } else if state_address != self.state_address {
                    Result::Err(ImplError::InvokeContractError)
                } else if self.state.get_paused() {
                    Result::Err(ImplError::ContractPaused)
                } else {
                    Result::Ok(state_address)
                }
            },
        }
    }

    /// `updatePlayerState` on the implementation: under the business
    /// guard, forwards the mutation to the state component with the
    /// implementation's own address as sender.
    pub open spec fn spec_implementation_update_player_state(
        pre: ChainView,
        sender: Address,
        player: Address,
        state: PlayerState,
    ) -> (ChainView, Result<(), ImplError>) {
        match Chain::spec_business_guard(pre, sender) {
            Result::Err(e) => (pre, Result::Err(e)),
            Result::Ok(_) => {
                let (state1, r1) = State::spec_update_player_state(
                    pre.state,
                    Address::Contract(pre.implementation_address),
                    player,
                    state,
                );
                if r1 is Err {
                    (pre, Result::Err(ImplError::InvokeContractError))
                } else {
                    (ChainView { state: state1, ..pre }, Result::Ok(()))
                }
            },
        }
    }

    /// `updatePlayerState` on the implementation; see
    /// `spec_implementation_update_player_state`.
    pub fn implementation_update_player_state(
        &mut self,
        sender: Address,
        player: Address,
        state: PlayerState,
    ) -> (r: Result<(), ImplError>)
        requires
            old(self).wf(),
        ensures
            final(self).wf(),
            final(self)@ == Chain::spec_implementation_update_player_state(
                old(self)@,
                sender,
                player,
                state,
            ).0,
            r == Chain::spec_implementation_update_player_state(
                old(self)@,
                sender,
                player,
                state,
            ).1,
    {
        let implementation_address = self.implementation_address;
        match self.business_guard(sender) {
            Result::Err(e) => Result::Err(e),
            Result::Ok(_) => {
                let r1 = self.state.update_player_state(
                    Address::Contract(implementation_address),
                    player,
                    state,
                );
                if r1.is_err() {
                    Result::Err(ImplError::InvokeContractError)
                } else {
                    Result::Ok(())
                }
            },
        }
    }

    /// `updateBattleResult` on the implementation: under the business
    /// guard, forwards the mutation to the state component with the
    /// implementation's own address as sender.
    pub open spec fn spec_implementation_update_battle_result(
        pre: ChainView,
        sender: Address,
        player: Address,
        result: BattleResult,
    ) -> (ChainView, Result<(), ImplError>) {
        match Chain::spec_business_guard(pre, sender) {
            Result::Err(e) => (pre, Result::Err(e)),
            Result::Ok(_) => {
                let (state1, r1) = State::spec_update_battle_result(
                    pre.state,
                    Address::Contract(pre.implementation_address),
                    player,
                    result,
                );
                if r1 is Err {
                    (pre, Result::Err(ImplError::InvokeContractError))
                } else {
                    (ChainView { state: state1, ..pre }, Result::Ok(()))
                }
            },
        }
    }

    /// `updateBattleResult` on the implementation; see
    /// `spec_implementation_update_battle_result`.
    pub fn implementation_update_battle_result(
        &mut self,
        sender: Address,
        player: Address,
        result: BattleResult,
    ) -> (r: Result<(), ImplError>)
        requires
            old(self).wf(),
        ensures
            final(self).wf(),
            final(self)@ == Chain::spec_implementation_update_battle_result(
                old(self)@,
                sender,
                player,
                result,
            ).0,
            r == Chain::spec_implementation_update_battle_result(
                old(self)@,
                sender,
                player,
                result,
            ).1,
    {
        let implementation_address = self.implementation_address;
        match self.business_guard(sender) {
            Result::Err(e) => Result::Err(e),
            Result::Ok(_) => {
                let r1 = self.state.update_battle_result(
                    Address::Contract(implementation_address),
                    player,
                    result,
                );
                if r1.is_err() {
                    Result::Err(ImplError::InvokeContractError)
                } else {
                    Result::Ok(())
                }
            },
        }
    }

    /// `addPlayer` on the implementation: under the business guard, reads
    /// the state component's already-added predicate — a player that
    /// already has a record is turned away with `AlreadyAdded` — then
    /// forwards the creation to the state component.
    pub open spec fn spec_implementation_add_player(
        pre: ChainView,
        sender: Address,
        player: Address,
    ) -> (ChainView, Result<(), ImplError>) {
        match Chain::spec_business_guard(pre, sender) {
            Result::Err(e) => (pre, Result::Err(e)),
            Result::Ok(_) => {
                if pre.state.players.dom().contains(player) {
                    (pre, Result::Err(ImplError::AlreadyAdded))
                } else {
                    let (state1, r1) = State::spec_add_player(
                        pre.state,
                        Address::Contract(pre.implementation_address),
                        player,
                    );
                    if r1 is Err {
                        (pre, Result::Err(ImplError::InvokeContractError))
                    } else {
                        (ChainView { state: state1, ..pre }, Result::Ok(()))
                    }
                }
            },
        }
    }

    /// `addPlayer` on the implementation; see
    /// `spec_implementation_add_player`.
    pub fn implementation_add_player(&mut self, sender: Address, player: Address) -> (r: Result<
        (),
        ImplError,
    >)
        requires
            old(self).wf(),
        ensures
            final(self).wf(),
            final(self)@ == Chain::spec_implementation_add_player(old(self)@, sender, player).0,
            r == Chain::spec_implementation_add_player(old(self)@, sender, player).1,
    {
        let implementation_address = self.implementation_address;
        match self.business_guard(sender) {
            Result::Err(e) => Result::Err(e),
            Result::Ok(_) => {
                if self.state.is_added(&player) {
                    Result::Err(ImplError::AlreadyAdded)
                } else {
                    let r1 = self.state.add_player(
                        Address::Contract(implementation_address),
                        player,
                    );
                    if r1.is_err() {
                        Result::Err(ImplError::InvokeContractError)
                    } else {
                        Result::Ok(())
                    }
                }
            },
        }
    }

    /// `initialize` on the implementation, as a caller reaches it directly:
    /// sets the proxy and state addresses, exactly once.
    pub open spec fn spec_implementation_initialize(
        pre: ChainView,
        invoker: AccountAddress,
        proxy_address: ContractAddress,
        state_address: ContractAddress,
    ) -> (ChainView, Result<(), ImplError>) {
        let (impl1, r) = Implementation::spec_initialize(
            pre.implementation,
            invoker,
            proxy_address,
            state_address,
        );
        if r is Ok {
            (ChainView { implementation: impl1, ..pre }, r)
        } else {
            (pre, r)
        }
    }

    /// `initialize` on the implementation; see
    /// `spec_implementation_initialize`.
    pub fn implementation_initialize(
        &mut self,
        invoker: AccountAddress,
        proxy_address: ContractAddress,
        state_address: ContractAddress,
    ) -> (r: Result<(), ImplError>)
        requires
            old(self).wf(),
        ensures
            final(self).wf(),
            final(self)@ == Chain::spec_implementation_initialize(
                old(self)@,
                invoker,
                proxy_address,
                state_address,
            ).0,
            r == Chain::spec_implementation_initialize(
                old(self)@,
                invoker,
                proxy_address,
                state_address,
            ).1,
    {
        self.implementation.initialize(invoker, proxy_address, state_address)
    }

    /// `initialize` on the state component, as a caller reaches it
    /// directly: sets the proxy and implementation addresses, exactly once.
    pub open spec fn spec_state_initialize(
        pre: ChainView,
        invoker: AccountAddress,
        proxy_address: ContractAddress,
        implementation_address: ContractAddress,
    ) -> (ChainView, Result<(), crate::error::StateError>) {
        let (state1, r) = State::spec_initialize(
            pre.state,
            invoker,
            proxy_address,
            implementation_address,
        );
        if r is Ok {
            (ChainView { state: state1, ..pre }, r)
        } else {
            (pre, r)
        }
    }

    /// `initialize` on the state component; see `spec_state_initialize`.
    pub fn state_initialize(
        &mut self,
        invoker: AccountAddress,
        proxy_address: ContractAddress,
        implementation_address: ContractAddress,
    ) -> (r: Result<(), crate::error::StateError>)
        requires
            old(self).wf(),
        ensures
            final(self).wf(),
            final(self)@ == Chain::spec_state_initialize(
                old(self)@,
                invoker,
                proxy_address,
                implementation_address,
            ).0,
            r == Chain::spec_state_initialize(
                old(self)@,
                invoker,
                proxy_address,
                implementation_address,
            ).1,
    {
        self.state.initialize(invoker, proxy_address, implementation_address)
    }

    /// `updateAdmin` on the implementation: rotates the implementation's
    /// admin and logs a new-admin event; no cross-component call, and no
    /// initialization requirement.
    pub open spec fn spec_implementation_update_admin(
        pre: ChainView,
        sender: Address,
        new_admin: Address,
    ) -> (ChainView, Result<(), ImplError>) {
        let (impl1, r) = Implementation::spec_update_admin(pre.implementation, sender, new_admin);
        if r is Ok {
            (
                ChainView {
                    implementation: impl1,
                    implementation_log: pre.implementation_log.push(
                        codec::spec_new_admin_event_bytes(new_admin),
                    ),
                    ..pre
                },
                r,
            )
        } else {
            (pre, r)
        }
    }

    /// `updateAdmin` on the implementation; see
    /// `spec_implementation_update_admin`.
    pub fn implementation_update_admin(&mut self, sender: Address, new_admin: Address) -> (r: Result<
        (),
        ImplError,
    >)
        requires
            old(self).wf(),
        ensures
            final(self).wf(),
            final(self)@ == Chain::spec_implementation_update_admin(old(self)@, sender, new_admin).0,
            r == Chain::spec_implementation_update_admin(old(self)@, sender, new_admin).1,
    {
        self.implementation.update_admin(sender, new_admin, &mut self.implementation_log)
    }

    /// `pause` and `unpause` share one shape: admin check first, then the
    /// address pair, then `setPaused` forwarded to the state component
    /// with the implementation's own address as sender.
    pub open spec fn spec_implementation_set_paused(pre: ChainView, sender: Address, paused: bool) -> (
        ChainView,
        Result<(), ImplError>,
    ) {
        if sender != pre.implementation.admin {
            (pre, Result::Err(ImplError::OnlyAdmin))
        } else {
            match Implementation::spec_protocol_pair(pre.implementation) {
                Result::Err(e) => (pre, Result::Err(e)),
                Result::Ok((proxy_address, state_address)) => {
                    if state_address != pre.state_address {
                        (pre, Result::Err(ImplError::InvokeContractError))
                    } else {
                        let (state1, r1) = State::spec_set_paused(
                            pre.state,
                            Address::Contract(pre.implementation_address),
                            paused,
                        );
                        if r1 is Err {
                            (pre, Result::Err(ImplError::InvokeContractError))
                        } else {
                            (ChainView { state: state1, ..pre }, Result::Ok(()))
                        }
                    }
                },
            }
        }
    }

    /// Shared body of `pause` and `unpause`.
    fn implementation_set_paused(&mut self, sender: Address, paused: bool) -> (r: Result<
        (),
        ImplError,
    >)
        requires
            old(self).wf(),
        ensures
            final(self).wf(),
            final(self)@ == Chain::spec_implementation_set_paused(old(self)@, sender, paused).0,
            r == Chain::spec_implementation_set_paused(old(self)@, sender, paused).1,
    {
        let implementation_address = self.implementation_address;
        if sender != self.implementation.admin {
            return Result::Err(ImplError::OnlyAdmin);
        }
        match self.implementation.protocol_pair() {
            Result::Err(e) => Result::Err(e),
            Result::Ok((_proxy_address, state_address)) => {
                if state_address != self.state_address {
                    Result::Err(ImplError::InvokeContractError)
                } else {
                    let r1 = self.state.set_paused(
                        Address::Contract(implementation_address),
                        paused,
                    );
                    if r1.is_err() {
                        Result::Err(ImplError::InvokeContractError)
                    } else {
                        Result::Ok(())
                    }
                }
            },
        }
    }

    /// `pause` on the implementation: sets the state component's pause
    /// flag; implementation admin only.
    pub fn implementation_pause(&mut self, sender: Address) -> (r: Result<(), ImplError>)
        requires
            old(self).wf(),
        ensures
            final(self).wf(),
            final(self)@ == Chain::spec_implementation_set_paused(old(self)@, sender, true).0,
            r == Chain::spec_implementation_set_paused(old(self)@, sender, true).1,
    {
        self.implementation_set_paused(sender, true)
    }

    /// `unpause` on the implementation: clears the state component's pause
    /// flag; implementation admin only.
    pub fn implementation_unpause(&mut self, sender: Address) -> (r: Result<(), ImplError>)
        requires
            old(self).wf(),
        ensures
            final(self).wf(),
            final(self)@ == Chain::spec_implementation_set_paused(old(self)@, sender, false).0,
            r == Chain::spec_implementation_set_paused(old(self)@, sender, false).1,
    {
        self.implementation_set_paused(sender, false)
    }

    /// `getPlayerData` on the implementation: a read-only forward to the
    /// state component's getter; no sender restriction.
    pub open spec fn spec_implementation_get_player_data(pre: ChainView, player: Address) -> Result<
        (PlayerLifecycle, BattleResult),
        ImplError,
    > {
        match Implementation::spec_protocol_pair(pre.implementation) {
            Result::Err(e) => Result::Err(e),
            Result::Ok((proxy_address, state_address)) => {
                if state_address != pre.state_address {
                    Result::Err(ImplError::InvokeContractError)
                } else {
                    Result::Ok(State::spec_get_player_data(pre.state, player))
                }
            },
        }
    }

    /// `getPlayerData` on the implementation; see
    /// `spec_implementation_get_player_data`.
    pub fn implementation_get_player_data(&self, player: Address) -> (r: Result<
        (PlayerLifecycle, BattleResult),
        ImplError,
    >)
        requires
            self.wf(),
        ensures
            r == Chain::spec_implementation_get_player_data(self@, player),
    {
        match self.implementation.protocol_pair() {
            Result::Err(e) => Result::Err(e),
            Result::Ok((_proxy_address, state_address)) => {
                if state_address != self.state_address {
                    Result::Err(ImplError::InvokeContractError)
                } else {
                    Result::Ok(self.state.get_player_data(&player))
                }
            },
        }
    }
}

} // verus!
