//! The protocol's laws, stated over the transition functions and proved
//! once for all inputs: one-shot initialization, caller gating, pause
//! gating, record round trips, admin rotation, transparent forwarding, and
//! all-or-nothing failure.

use vstd::prelude::*;
use crate::addr::{AccountAddress, Address, ContractAddress};
use crate::chain::{Chain, ChainView};
use crate::data::{BattleResult, PlayerData, PlayerState};
use crate::codec;
use crate::dispatch::{spec_impl_reject, CallErrorView, RejectView};
use crate::error::{ImplError, ProxyError, StateError};
use crate::implementation::{Implementation, ProtocolAddressesImplementation};
use crate::state::{ProtocolAddressesState, State, StateView};

verus! {

// -----------------------------------------------------------------------
// Before `initialize` has succeeded, every entry point of the state
// component other than its constructor, `initialize` and the bare reads
// (`getPaused`, `getPlayerData`, `isAdded` return stored values whether or
// not the addresses are set) fails `UnInitialized` and changes nothing,
// whoever the sender is.
// -----------------------------------------------------------------------

pub proof fn lemma_state_uninitialized_rejects(
    pre: StateView,
    sender: Address,
    player: Address,
    state: PlayerState,
    result: BattleResult,
    new_implementation: ContractAddress,
    paused: bool,
)
    requires
        pre.protocol_addresses is UnInitialized,
    ensures
        State::spec_set_implementation_address(pre, sender, new_implementation).0 == pre,
        State::spec_set_implementation_address(pre, sender, new_implementation).1 == Result::<
            (),
            StateError,
        >::Err(StateError::UnInitialized),
        State::spec_set_paused(pre, sender, paused).0 == pre,
        State::spec_set_paused(pre, sender, paused).1 == Result::<(), StateError>::Err(
            StateError::UnInitialized,
        ),
        State::spec_update_player_state(pre, sender, player, state).0 == pre,
        State::spec_update_player_state(pre, sender, player, state).1 == Result::<
            (),
            StateError,
        >::Err(StateError::UnInitialized),
        State::spec_update_battle_result(pre, sender, player, result).0 == pre,
        State::spec_update_battle_result(pre, sender, player, result).1 == Result::<
            (),
            StateError,
        >::Err(StateError::UnInitialized),
        State::spec_add_player(pre, sender, player).0 == pre,
        State::spec_add_player(pre, sender, player).1 == Result::<(), StateError>::Err(
            StateError::UnInitialized,
        ),
        State::spec_view_state(pre) == Result::<
            crate::state::ReturnBasicState,
            StateError,
        >::Err(StateError::UnInitialized),
{
}

// -----------------------------------------------------------------------
// Before `initialize` has succeeded, every entry point of the
// implementation other than its constructor, `initialize` and `updateAdmin`
// (which guards only on the admin) fails `UnInitialized` and changes
// nothing. `pause` and `unpause` check the admin first, so the law holds
// of them for the admin as sender.
// -----------------------------------------------------------------------

pub proof fn lemma_implementation_uninitialized_rejects(
    pre: ChainView,
    sender: Address,
    player: Address,
    state: PlayerState,
    result: BattleResult,
    paused: bool,
)
    requires
        pre.implementation.protocol_addresses is UnInitialized,
    ensures
        Chain::spec_implementation_update_player_state(pre, sender, player, state).0 == pre,
        Chain::spec_implementation_update_player_state(pre, sender, player, state).1 == Result::<
            (),
            ImplError,
        >::Err(ImplError::UnInitialized),
        Chain::spec_implementation_update_battle_result(pre, sender, player, result).0 == pre,
        Chain::spec_implementation_update_battle_result(pre, sender, player, result).1 == Result::<
            (),
            ImplError,
        >::Err(ImplError::UnInitialized),
        Chain::spec_implementation_add_player(pre, sender, player).0 == pre,
        Chain::spec_implementation_add_player(pre, sender, player).1 == Result::<
            (),
            ImplError,
        >::Err(ImplError::UnInitialized),
        Chain::spec_implementation_get_player_data(pre, player) == Result::<
            (crate::data::PlayerLifecycle, BattleResult),
            ImplError,
        >::Err(ImplError::UnInitialized),
        sender == pre.implementation.admin ==> {
            &&& Chain::spec_implementation_set_paused(pre, sender, paused).0 == pre
            &&& Chain::spec_implementation_set_paused(pre, sender, paused).1 == Result::<
                (),
                ImplError,
            >::Err(ImplError::UnInitialized)
        },
{
}

// -----------------------------------------------------------------------
// `initialize` succeeds exactly once per component instance. The first
// call by a transaction of the recorded deployer succeeds; from then on
// the component stays initialized forever, and every further call —
// whoever sends it — fails `AlreadyInitialized` and changes nothing.
// -----------------------------------------------------------------------

pub proof fn lemma_state_initialize_once(
    pre: StateView,
    proxy_address: ContractAddress,
    implementation_address: ContractAddress,
    again_invoker: AccountAddress,
    again_proxy: ContractAddress,
    again_implementation: ContractAddress,
)
    requires
        pre.protocol_addresses is UnInitialized,
    ensures
        State::spec_initialize(pre, pre.deployer, proxy_address, implementation_address).1
            is Ok,
        State::spec_initialize(pre, pre.deployer, proxy_address, implementation_address).0
            .protocol_addresses == (ProtocolAddressesState::Initialized {
            proxy_address,
            implementation_address,
        }),
        State::spec_initialize(
            State::spec_initialize(pre, pre.deployer, proxy_address, implementation_address).0,
            again_invoker,
            again_proxy,
            again_implementation,
        ).0 == State::spec_initialize(pre, pre.deployer, proxy_address, implementation_address).0,
        State::spec_initialize(
            State::spec_initialize(pre, pre.deployer, proxy_address, implementation_address).0,
            again_invoker,
            again_proxy,
            again_implementation,
        ).1 == Result::<(), StateError>::Err(StateError::AlreadyInitialized),
{
}

pub proof fn lemma_implementation_initialize_once(
    pre: Implementation,
    proxy_address: ContractAddress,
    state_address: ContractAddress,
    again_invoker: AccountAddress,
    again_proxy: ContractAddress,
    again_state: ContractAddress,
)
    requires
        pre.protocol_addresses is UnInitialized,
    ensures
        Implementation::spec_initialize(pre, pre.deployer, proxy_address, state_address).1 is Ok,
        Implementation::spec_initialize(pre, pre.deployer, proxy_address, state_address).0
            .protocol_addresses == (ProtocolAddressesImplementation::Initialized {
            proxy_address,
            state_address,
        }),
        Implementation::spec_initialize(
            Implementation::spec_initialize(pre, pre.deployer, proxy_address, state_address).0,
            again_invoker,
            again_proxy,
            again_state,
        ).0 == Implementation::spec_initialize(pre, pre.deployer, proxy_address, state_address).0,
        Implementation::spec_initialize(
            Implementation::spec_initialize(pre, pre.deployer, proxy_address, state_address).0,
            again_invoker,
            again_proxy,
            again_state,
        ).1 == Result::<(), ImplError>::Err(ImplError::AlreadyInitialized),
{
}

// -----------------------------------------------------------------------
// Initialization is terminal: no transition of the state component takes
// the recorded address pair back to `UnInitialized`.
// -----------------------------------------------------------------------

pub proof fn lemma_state_initialized_is_terminal(
    pre: StateView,
    invoker: AccountAddress,
    sender: Address,
    player: Address,
    state: PlayerState,
    result: BattleResult,
    proxy_address: ContractAddress,
    implementation_address: ContractAddress,
    paused: bool,
)
    requires
        pre.protocol_addresses is Initialized,
    ensures
        State::spec_initialize(pre, invoker, proxy_address, implementation_address).0
            .protocol_addresses is Initialized,
        State::spec_set_implementation_address(pre, sender, implementation_address).0
            .protocol_addresses is Initialized,
        State::spec_set_paused(pre, sender, paused).0.protocol_addresses is Initialized,
        State::spec_update_player_state(pre, sender, player, state).0
            .protocol_addresses is Initialized,
        State::spec_update_battle_result(pre, sender, player, result).0
            .protocol_addresses is Initialized,
        State::spec_add_player(pre, sender, player).0.protocol_addresses is Initialized,
{
}

// -----------------------------------------------------------------------
// The non-admin-gated business mutations of the implementation reject
// every sender but the recorded proxy with `OnlyProxy` and leave the whole
// deployment — the state component included — unchanged.
// -----------------------------------------------------------------------

pub proof fn lemma_implementation_only_proxy(
    pre: ChainView,
    sender: Address,
    player: Address,
    state: PlayerState,
    result: BattleResult,
)
    requires
        pre.implementation.protocol_addresses matches
            ProtocolAddressesImplementation::Initialized { proxy_address, .. }
            && !sender.spec_matches_contract(proxy_address),
    ensures
        Chain::spec_implementation_update_player_state(pre, sender, player, state).0 == pre,
        Chain::spec_implementation_update_player_state(pre, sender, player, state).1 == Result::<
            (),
            ImplError,
        >::Err(ImplError::OnlyProxy),
        Chain::spec_implementation_update_battle_result(pre, sender, player, result).0 == pre,
        Chain::spec_implementation_update_battle_result(pre, sender, player, result).1 == Result::<
            (),
            ImplError,
        >::Err(ImplError::OnlyProxy),
        Chain::spec_implementation_add_player(pre, sender, player).0 == pre,
        Chain::spec_implementation_add_player(pre, sender, player).1 == Result::<
            (),
            ImplError,
        >::Err(ImplError::OnlyProxy),
{
}

// -----------------------------------------------------------------------
// The non-proxy-gated mutations of the state component reject every
// sender but the recorded implementation with `OnlyImplementation` and
// leave the durable data unchanged.
// -----------------------------------------------------------------------

pub proof fn lemma_state_only_implementation(
    pre: StateView,
    sender: Address,
    player: Address,
    state: PlayerState,
    result: BattleResult,
    paused: bool,
)
    requires
        pre.protocol_addresses matches ProtocolAddressesState::Initialized {
            implementation_address,
            ..
        } && !sender.spec_matches_contract(implementation_address),
    ensures
        State::spec_set_paused(pre, sender, paused).0 == pre,
        State::spec_set_paused(pre, sender, paused).1 == Result::<(), StateError>::Err(
            StateError::OnlyImplementation,
        ),
        State::spec_update_player_state(pre, sender, player, state).0 == pre,
        State::spec_update_player_state(pre, sender, player, state).1 == Result::<
            (),
            StateError,
        >::Err(StateError::OnlyImplementation),
        State::spec_update_battle_result(pre, sender, player, result).0 == pre,
        State::spec_update_battle_result(pre, sender, player, result).1 == Result::<
            (),
            StateError,
        >::Err(StateError::OnlyImplementation),
        State::spec_add_player(pre, sender, player).0 == pre,
        State::spec_add_player(pre, sender, player).1 == Result::<(), StateError>::Err(
            StateError::OnlyImplementation,
        ),
{
}

// -----------------------------------------------------------------------
// Once the state component's pause flag is true, every business mutation
// reachable through the implementation — `updatePlayerState`,
// `updateBattleResult`, `addPlayer` — fails `ContractPaused`, and nothing
// changes. The hypotheses are the guards that come first: the caller is
// the recorded proxy and the recorded state component resolves.
// -----------------------------------------------------------------------

pub proof fn lemma_paused_rejects_business(
    pre: ChainView,
    sender: Address,
    player: Address,
    state: PlayerState,
    result: BattleResult,
)
    requires
        pre.implementation.protocol_addresses matches
            ProtocolAddressesImplementation::Initialized { proxy_address, state_address }
            && sender.spec_matches_contract(proxy_address) && state_address == pre.state_address,
        pre.state.paused,
    ensures
        Chain::spec_implementation_update_player_state(pre, sender, player, state).0 == pre,
        Chain::spec_implementation_update_player_state(pre, sender, player, state).1 == Result::<
            (),
            ImplError,
        >::Err(ImplError::ContractPaused),
        Chain::spec_implementation_update_battle_result(pre, sender, player, result).0 == pre,
        Chain::spec_implementation_update_battle_result(pre, sender, player, result).1 == Result::<
            (),
            ImplError,
        >::Err(ImplError::ContractPaused),
        Chain::spec_implementation_add_player(pre, sender, player).0 == pre,
        Chain::spec_implementation_add_player(pre, sender, player).1 == Result::<
            (),
            ImplError,
        >::Err(ImplError::ContractPaused),
{
}

// -----------------------------------------------------------------------
// With the pause flag off and every guard satisfied — the caller is the
// recorded proxy, the recorded state component resolves, and the state
// component in turn trusts the live implementation — the business
// mutations succeed. `addPlayer` succeeds exactly on a fresh address,
// creating the record `Active`/`NoResult`; an address that already has a
// record is turned away with `AlreadyAdded` and nothing changes.
// -----------------------------------------------------------------------

pub proof fn lemma_unpaused_business_succeeds(
    pre: ChainView,
    sender: Address,
    player: Address,
    state: PlayerState,
    result: BattleResult,
)
    requires
        pre.implementation.protocol_addresses matches
            ProtocolAddressesImplementation::Initialized { proxy_address, state_address }
            && sender.spec_matches_contract(proxy_address) && state_address == pre.state_address,
        !pre.state.paused,
        pre.state.protocol_addresses matches ProtocolAddressesState::Initialized {
            implementation_address,
            ..
        } && implementation_address == pre.implementation_address,
    ensures
        Chain::spec_implementation_update_player_state(pre, sender, player, state).1 is Ok,
        Chain::spec_implementation_update_battle_result(pre, sender, player, result).1 is Ok,
        !pre.state.players.dom().contains(player) ==> {
            &&& Chain::spec_implementation_add_player(pre, sender, player).1 is Ok
            &&& Chain::spec_implementation_add_player(pre, sender, player).0.state.players
                == pre.state.players.insert(player, PlayerData::spec_fresh())
        },
        pre.state.players.dom().contains(player) ==> {
            &&& Chain::spec_implementation_add_player(pre, sender, player).0 == pre
            &&& Chain::spec_implementation_add_player(pre, sender, player).1 == Result::<
                (),
                ImplError,
            >::Err(ImplError::AlreadyAdded)
        },
{
}

// -----------------------------------------------------------------------
// `pause` and `unpause` store exactly the flag and touch nothing else:
// after a successful `pause`, the flag is true; after a successful
// `unpause`, calls run as before the pause — the two preceding laws then
// apply to the new deployment verbatim.
// -----------------------------------------------------------------------

pub proof fn lemma_set_paused_effect(pre: ChainView, sender: Address, paused: bool)
    requires
        sender == pre.implementation.admin,
        pre.implementation.protocol_addresses matches
            ProtocolAddressesImplementation::Initialized { state_address, .. } && state_address
            == pre.state_address,
        pre.state.protocol_addresses matches ProtocolAddressesState::Initialized {
            implementation_address,
            ..
        } && implementation_address == pre.implementation_address,
    ensures
        Chain::spec_implementation_set_paused(pre, sender, paused).1 is Ok,
        Chain::spec_implementation_set_paused(pre, sender, paused).0 == (ChainView {
            state: StateView { paused, ..pre.state },
            ..pre
        }),
{
}

// -----------------------------------------------------------------------
// Round trip: after a successful `updatePlayerState(player, s)`, reading
// the player back observes the lifecycle `s` stands for, and a battle
// result identical to what a read would have returned before the update.
// -----------------------------------------------------------------------

pub proof fn lemma_state_update_then_get(
    pre: StateView,
    sender: Address,
    player: Address,
    state: PlayerState,
)
    requires
        State::spec_update_player_state(pre, sender, player, state).1 is Ok,
    ensures
        State::spec_get_player_data(
            State::spec_update_player_state(pre, sender, player, state).0,
            player,
        ).0 == crate::data::spec_observed_lifecycle(state),
        State::spec_get_player_data(
            State::spec_update_player_state(pre, sender, player, state).0,
            player,
        ).1 == State::spec_get_player_data(pre, player).1,
{
}

// -----------------------------------------------------------------------
// The same round trip observed through the implementation's own read
// surface.
// -----------------------------------------------------------------------

pub proof fn lemma_chain_update_then_get(
    pre: ChainView,
    sender: Address,
    player: Address,
    state: PlayerState,
)
    requires
        Chain::spec_implementation_update_player_state(pre, sender, player, state).1 is Ok,
    ensures
        Chain::spec_implementation_get_player_data(
            Chain::spec_implementation_update_player_state(pre, sender, player, state).0,
            player,
        ) == Result::<(crate::data::PlayerLifecycle, BattleResult), ImplError>::Ok(
            (
                crate::data::spec_observed_lifecycle(state),
                State::spec_get_player_data(pre.state, player).1,
            ),
        ),
{
}

// -----------------------------------------------------------------------
// Admin rotation on the proxy: after `updateAdmin(new_admin)` by the
// current admin, the old admin can no longer reach the admin-gated entries
// — they fail `OnlyAdmin` and change nothing — and the new admin can.
// -----------------------------------------------------------------------

pub proof fn lemma_proxy_admin_rotation(
    pre: ChainView,
    new_admin: Address,
    later_admin: Address,
    new_implementation: ContractAddress,
)
    requires
        new_admin != pre.proxy.admin,
    ensures
        Chain::spec_proxy_update_admin(pre, pre.proxy.admin, new_admin).1 is Ok,
        Chain::spec_proxy_update_admin(pre, pre.proxy.admin, new_admin).0.proxy.admin == new_admin,
        Chain::spec_proxy_update_admin(
            Chain::spec_proxy_update_admin(pre, pre.proxy.admin, new_admin).0,
            pre.proxy.admin,
            later_admin,
        ).0 == Chain::spec_proxy_update_admin(pre, pre.proxy.admin, new_admin).0,
        Chain::spec_proxy_update_admin(
            Chain::spec_proxy_update_admin(pre, pre.proxy.admin, new_admin).0,
            pre.proxy.admin,
            later_admin,
        ).1 == Result::<(), ProxyError>::Err(ProxyError::OnlyAdmin),
        Chain::spec_proxy_update_implementation(
            Chain::spec_proxy_update_admin(pre, pre.proxy.admin, new_admin).0,
            pre.proxy.admin,
            new_implementation,
        ).0 == Chain::spec_proxy_update_admin(pre, pre.proxy.admin, new_admin).0,
        Chain::spec_proxy_update_implementation(
            Chain::spec_proxy_update_admin(pre, pre.proxy.admin, new_admin).0,
            pre.proxy.admin,
            new_implementation,
        ).1 == Result::<(), ProxyError>::Err(ProxyError::OnlyAdmin),
        Chain::spec_proxy_update_admin(
            Chain::spec_proxy_update_admin(pre, pre.proxy.admin, new_admin).0,
            new_admin,
            later_admin,
        ).1 is Ok,
{
}

// -----------------------------------------------------------------------
// Admin rotation on the implementation, independently of the proxy's
// admin: the old admin loses `updateAdmin`, `pause` and `unpause`; the new
// admin gains them.
// -----------------------------------------------------------------------

pub proof fn lemma_implementation_admin_rotation(
    pre: ChainView,
    new_admin: Address,
    later_admin: Address,
    paused: bool,
)
    requires
        new_admin != pre.implementation.admin,
    ensures
        Chain::spec_implementation_update_admin(pre, pre.implementation.admin, new_admin).1 is Ok,
        Chain::spec_implementation_update_admin(pre, pre.implementation.admin, new_admin).0
            .implementation.admin == new_admin,
        Chain::spec_implementation_update_admin(
            Chain::spec_implementation_update_admin(pre, pre.implementation.admin, new_admin).0,
            pre.implementation.admin,
            later_admin,
        ).1 == Result::<(), ImplError>::Err(ImplError::OnlyAdmin),
        Chain::spec_implementation_set_paused(
            Chain::spec_implementation_update_admin(pre, pre.implementation.admin, new_admin).0,
            pre.implementation.admin,
            paused,
        ).0 == Chain::spec_implementation_update_admin(pre, pre.implementation.admin, new_admin).0,
        Chain::spec_implementation_set_paused(
            Chain::spec_implementation_update_admin(pre, pre.implementation.admin, new_admin).0,
            pre.implementation.admin,
            paused,
        ).1 == Result::<(), ImplError>::Err(ImplError::OnlyAdmin),
        Chain::spec_implementation_update_admin(
            Chain::spec_implementation_update_admin(pre, pre.implementation.admin, new_admin).0,
            new_admin,
            later_admin,
        ).1 is Ok,
{
}

// -----------------------------------------------------------------------
// The proxy's admin and the implementation's admin are independent:
// rotating one leaves the other exactly as it was.
// -----------------------------------------------------------------------

pub proof fn lemma_admins_independent(pre: ChainView, new_admin: Address)
    ensures
        Chain::spec_proxy_update_admin(pre, pre.proxy.admin, new_admin).0.implementation
            == pre.implementation,
        Chain::spec_implementation_update_admin(pre, pre.implementation.admin, new_admin).0.proxy
            == pre.proxy,
{
}

// -----------------------------------------------------------------------
// Transparent forwarding: a name the proxy does not recognize, invoked on
// the proxy with any parameter bytes and any attached amount, leaves the
// deployment and answers the caller exactly as the same name, bytes and
// amount invoked on the current implementation address with the proxy as
// sender: success bytes unchanged, a structured rejection re-raised with
// the same reason code and payload, and a forwarding failure as the
// proxy's generic invocation error without payload.
// -----------------------------------------------------------------------

pub proof fn lemma_fallback_forwards(
    pre: ChainView,
    invoker: AccountAddress,
    sender: Address,
    entrypoint: Seq<char>,
    parameter: Seq<u8>,
    amount: u64,
)
    requires
        entrypoint != "initialize"@,
        entrypoint != "updateAdmin"@,
        entrypoint != "updateImplementation"@,
        entrypoint != "logEvent"@,
        entrypoint != "view"@,
        pre.proxy.implementation_address == pre.implementation_address,
    ensures
        Chain::spec_invoke_proxy(pre, invoker, sender, entrypoint, parameter, amount).0
            == Chain::spec_invoke_implementation(
            pre,
            invoker,
            Address::Contract(pre.proxy_address),
            entrypoint,
            parameter,
            amount,
        ).0,
        Chain::spec_invoke_implementation(
            pre,
            invoker,
            Address::Contract(pre.proxy_address),
            entrypoint,
            parameter,
            amount,
        ).1 matches Result::Ok(bytes) ==> Chain::spec_invoke_proxy(
            pre,
            invoker,
            sender,
            entrypoint,
            parameter,
            amount,
        ).1 == Result::<Seq<u8>, RejectView>::Ok(bytes),
        Chain::spec_invoke_implementation(
            pre,
            invoker,
            Address::Contract(pre.proxy_address),
            entrypoint,
            parameter,
            amount,
        ).1 matches Result::Err(CallErrorView::LogicReject { reason, payload }) ==> Chain::spec_invoke_proxy(
            pre,
            invoker,
            sender,
            entrypoint,
            parameter,
            amount,
        ).1 == Result::<Seq<u8>, RejectView>::Err(
            RejectView { code: reason, payload: Option::Some(payload) },
        ),
        Chain::spec_invoke_implementation(
            pre,
            invoker,
            Address::Contract(pre.proxy_address),
            entrypoint,
            parameter,
            amount,
        ).1 == Result::<Seq<u8>, CallErrorView>::Err(CallErrorView::Missing) ==> Chain::spec_invoke_proxy(
            pre,
            invoker,
            sender,
            entrypoint,
            parameter,
            amount,
        ).1 == Result::<Seq<u8>, RejectView>::Err(
            RejectView {
                code: ProxyError::InvokeContractError.spec_reject_code(),
                payload: Option::None,
            },
        ),
{
}

// -----------------------------------------------------------------------
// When the proxy's recorded implementation address does not resolve — the
// implementation was swapped for an address with no live instance — the
// catch-all rejects with the generic invocation error, without payload,
// and nothing changes.
// -----------------------------------------------------------------------

pub proof fn lemma_fallback_stale_implementation(
    pre: ChainView,
    invoker: AccountAddress,
    sender: Address,
    entrypoint: Seq<char>,
    parameter: Seq<u8>,
    amount: u64,
)
    requires
        entrypoint != "initialize"@,
        entrypoint != "updateAdmin"@,
        entrypoint != "updateImplementation"@,
        entrypoint != "logEvent"@,
        entrypoint != "view"@,
        pre.proxy.implementation_address != pre.implementation_address,
    ensures
        Chain::spec_invoke_proxy(pre, invoker, sender, entrypoint, parameter, amount).0 == pre,
        Chain::spec_invoke_proxy(pre, invoker, sender, entrypoint, parameter, amount).1
            == Result::<Seq<u8>, RejectView>::Err(
            RejectView {
                code: ProxyError::InvokeContractError.spec_reject_code(),
                payload: Option::None,
            },
        ),
{
}

// -----------------------------------------------------------------------
// All-or-nothing: a named call on the implementation that fails, however
// it fails, leaves the whole deployment exactly as it was.
// -----------------------------------------------------------------------

pub proof fn lemma_invoke_implementation_atomic(
    pre: ChainView,
    invoker: AccountAddress,
    sender: Address,
    entrypoint: Seq<char>,
    parameter: Seq<u8>,
    amount: u64,
)
    ensures
        Chain::spec_invoke_implementation(pre, invoker, sender, entrypoint, parameter, amount).1
            is Err ==> Chain::spec_invoke_implementation(
            pre,
            invoker,
            sender,
            entrypoint,
            parameter,
            amount,
        ).0 == pre,
{
}

// -----------------------------------------------------------------------
// All-or-nothing: a named call on the proxy that fails, however it fails,
// leaves the whole deployment exactly as it was — the forwarded calls
// included.
// -----------------------------------------------------------------------

pub proof fn lemma_invoke_proxy_atomic(
    pre: ChainView,
    invoker: AccountAddress,
    sender: Address,
    entrypoint: Seq<char>,
    parameter: Seq<u8>,
    amount: u64,
)
    ensures
        Chain::spec_invoke_proxy(pre, invoker, sender, entrypoint, parameter, amount).1 is Err
            ==> Chain::spec_invoke_proxy(pre, invoker, sender, entrypoint, parameter, amount).0
            == pre,
{
    lemma_invoke_implementation_atomic(
        pre,
        invoker,
        Address::Contract(pre.proxy_address),
        entrypoint,
        parameter,
        amount,
    );
}

// -----------------------------------------------------------------------
// The byte surface agrees with the typed surface: delivering
// `updatePlayerState` with the encoding of a player and a lifecycle state
// behaves exactly as the typed entry point — the codec's round trip
// carries the values through, and the rejection carries the typed error's
// reason code and serialization.
// -----------------------------------------------------------------------

#[verifier::rlimit(60)]
#[verifier::spinoff_prover]
pub proof fn lemma_wire_update_player_state_agrees(
    pre: ChainView,
    invoker: AccountAddress,
    sender: Address,
    player: Address,
    state: PlayerState,
    amount: u64,
)
    ensures
        ({
            let parameter = codec::spec_address_bytes(player) + seq![
                codec::spec_player_state_byte(state),
            ];
            let wire = Chain::spec_invoke_implementation(
                pre,
                invoker,
                sender,
                "updatePlayerState"@,
                parameter,
                amount,
            );
            let typed = Chain::spec_implementation_update_player_state(pre, sender, player, state);
            &&& (typed.1 is Ok ==> wire == (
                typed.0,
                Result::<Seq<u8>, CallErrorView>::Ok(Seq::empty()),
            ))
            &&& (typed.1 matches Result::Err(e) ==> wire == (
                pre,
                Result::<Seq<u8>, CallErrorView>::Err(spec_impl_reject(e)),
            ))
        }),
{
    reveal_strlit("initialize");
    reveal_strlit("updatePlayerState");
    assert("initialize"@.len() == 10);
    assert("updatePlayerState"@.len() == 17);
    assert("updatePlayerState"@ != "initialize"@);
    let a = codec::spec_address_bytes(player);
    let parameter = a + seq![codec::spec_player_state_byte(state)];
    let l = a.len() as int;
    assert(parameter.subrange(0, l) =~= a);
    codec::lemma_read_address(parameter, 0, player);
    assert(parameter[l] == codec::spec_player_state_byte(state));
    assert(codec::spec_read_player_state(parameter, l) == Option::Some((state, l + 1)));
}

// -----------------------------------------------------------------------
// The same agreement for `addPlayer`: the encoding of the player address
// alone is the whole parameter.
// -----------------------------------------------------------------------

#[verifier::rlimit(60)]
#[verifier::spinoff_prover]
pub proof fn lemma_wire_add_player_agrees(
    pre: ChainView,
    invoker: AccountAddress,
    sender: Address,
    player: Address,
    amount: u64,
)
    ensures
        ({
            let parameter = codec::spec_address_bytes(player);
            let wire = Chain::spec_invoke_implementation(
                pre,
                invoker,
                sender,
                "addPlayer"@,
                parameter,
                amount,
            );
            let typed = Chain::spec_implementation_add_player(pre, sender, player);
            &&& (typed.1 is Ok ==> wire == (
                typed.0,
                Result::<Seq<u8>, CallErrorView>::Ok(Seq::empty()),
            ))
            &&& (typed.1 matches Result::Err(e) ==> wire == (
                pre,
                Result::<Seq<u8>, CallErrorView>::Err(spec_impl_reject(e)),
            ))
        }),
{
    reveal_strlit("addPlayer");
    reveal_strlit("initialize");
    reveal_strlit("updatePlayerState");
    reveal_strlit("updateBattleResult");
    assert("addPlayer"@.len() == 9);
    assert("initialize"@.len() == 10);
    assert("updatePlayerState"@.len() == 17);
    assert("updateBattleResult"@.len() == 18);
    assert("addPlayer"@ != "initialize"@);
    assert("addPlayer"@ != "updatePlayerState"@);
    assert("addPlayer"@ != "updateBattleResult"@);
    let parameter = codec::spec_address_bytes(player);
    let l = parameter.len() as int;
    assert(parameter.subrange(0, l) =~= parameter);
    codec::lemma_read_address(parameter, 0, player);
    assert(codec::spec_read_address(parameter, 0) == Option::Some((player, l)));
}

} // verus!

