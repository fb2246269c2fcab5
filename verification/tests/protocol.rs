//! The typed entry-point surface of one deployment: initialization order,
//! caller gating, pause gating, player records and admin rotation.

use versus::addr::{AccountAddress, Address, ContractAddress};
use versus::chain::Chain;
use versus::data::{BattleResult, PlayerLifecycle, PlayerState};
use versus::error::{ImplError, ProxyError, StateError};
use versus::state::{ProtocolAddressesState, State};

fn acct(i: u64) -> AccountAddress {
    AccountAddress { w0: i, w1: 0, w2: 0, w3: 0 }
}

fn caddr(i: u64) -> ContractAddress {
    ContractAddress { index: i, subindex: 0 }
}

/// A deployment at addresses 1 (proxy), 2 (implementation), 3 (state),
/// deployed by account 100.
fn deploy() -> Chain {
    Chain::new(acct(100), caddr(1), caddr(2), caddr(3))
}

/// The same deployment, after the proxy's `initialize` has run.
fn deploy_initialized() -> Chain {
    let mut chain = deploy();
    chain.proxy_initialize(acct(100)).unwrap();
    chain
}

fn proxy_sender() -> Address {
    Address::Contract(caddr(1))
}

#[test]
fn test_deploy_and_initialize() {
    let mut chain = deploy();
    assert_eq!(chain.proxy_address(), caddr(1));
    assert_eq!(chain.implementation_address(), caddr(2));
    assert_eq!(chain.state_address(), caddr(3));
    assert_eq!(chain.proxy_initialize(acct(100)), Ok(()));
    let basic = chain.state_ref().view_state().unwrap();
    assert_eq!(basic.proxy_address, caddr(1));
    assert_eq!(basic.implementation_address, caddr(2));
    assert!(!basic.paused);
    let fields = chain.implementation_fields();
    assert_eq!(fields.admin, Address::Account(acct(100)));
}

#[test]
fn test_initialize_succeeds_only_once() {
    let mut chain = deploy_initialized();
    // The proxy's second attempt dies on the callees' one-shot guards.
    assert_eq!(chain.proxy_initialize(acct(100)), Err(ProxyError::InvokeContractError));
    // Directly on the components the guard is visible, whoever calls.
    assert_eq!(
        chain.state_initialize(acct(100), caddr(1), caddr(2)),
        Err(StateError::AlreadyInitialized)
    );
    assert_eq!(
        chain.state_initialize(acct(999), caddr(8), caddr(9)),
        Err(StateError::AlreadyInitialized)
    );
    assert_eq!(
        chain.implementation_initialize(acct(100), caddr(1), caddr(3)),
        Err(ImplError::AlreadyInitialized)
    );
    assert_eq!(
        chain.implementation_initialize(acct(999), caddr(8), caddr(9)),
        Err(ImplError::AlreadyInitialized)
    );
}

#[test]
fn test_uninitialized_rejects_business_calls() {
    let mut chain = deploy();
    let player = Address::Account(acct(7));
    assert_eq!(
        chain.implementation_update_player_state(proxy_sender(), player, PlayerState::Active),
        Err(ImplError::UnInitialized)
    );
    assert_eq!(
        chain.implementation_update_battle_result(proxy_sender(), player, BattleResult::Win),
        Err(ImplError::UnInitialized)
    );
    assert_eq!(
        chain.implementation_add_player(proxy_sender(), player),
        Err(ImplError::UnInitialized)
    );
    assert_eq!(chain.implementation_get_player_data(player), Err(ImplError::UnInitialized));
    // The admin passes the admin gate and then dies on the address pair.
    assert_eq!(
        chain.implementation_pause(Address::Account(acct(100))),
        Err(ImplError::UnInitialized)
    );
}

#[test]
fn test_uninitialized_state_component() {
    let mut state = State::new(acct(100));
    let player = Address::Account(acct(7));
    let sender = Address::Contract(caddr(2));
    assert_eq!(state.set_paused(sender, true), Err(StateError::UnInitialized));
    assert_eq!(
        state.update_player_state(sender, player, PlayerState::Active),
        Err(StateError::UnInitialized)
    );
    assert_eq!(
        state.update_battle_result(sender, player, BattleResult::Win),
        Err(StateError::UnInitialized)
    );
    assert_eq!(state.add_player(sender, player), Err(StateError::UnInitialized));
    assert_eq!(
        state.set_implementation_address(sender, caddr(9)),
        Err(StateError::UnInitialized)
    );
    assert_eq!(state.view_state(), Err(StateError::UnInitialized));
    // The bare reads return stored values whether or not the addresses are
    // set.
    assert!(!state.get_paused());
    assert!(!state.is_added(&player));
    assert_eq!(
        state.get_player_data(&player),
        (PlayerLifecycle::NotAdded, BattleResult::NoResult)
    );
}

#[test]
fn test_initialize_gated_to_deployer() {
    let mut state = State::new(acct(100));
    assert_eq!(state.initialize(acct(999), caddr(1), caddr(2)), Err(StateError::OnlyDeployer));
    assert_eq!(state.initialize(acct(100), caddr(1), caddr(2)), Ok(()));
    assert!(matches!(
        state.protocol_addresses(),
        ProtocolAddressesState::Initialized { .. }
    ));

    let mut chain = deploy();
    assert_eq!(
        chain.implementation_initialize(acct(999), caddr(1), caddr(3)),
        Err(ImplError::OnlyDeployer)
    );
    // A stranger cannot run the proxy's initialize either: the callees
    // reject the foreign transaction, which the proxy sees as a failed
    // cross-call.
    assert_eq!(chain.proxy_initialize(acct(999)), Err(ProxyError::InvokeContractError));
    // The legitimate deployer still can.
    assert_eq!(chain.proxy_initialize(acct(100)), Ok(()));
}

#[test]
fn test_only_proxy_gates_implementation_mutations() {
    let mut chain = deploy_initialized();
    let player = Address::Account(acct(7));
    let strangers = [Address::Account(acct(5)), Address::Contract(caddr(2)), Address::Contract(caddr(3))];
    for sender in strangers {
        assert_eq!(
            chain.implementation_update_player_state(sender, player, PlayerState::Active),
            Err(ImplError::OnlyProxy)
        );
        assert_eq!(
            chain.implementation_update_battle_result(sender, player, BattleResult::Loss),
            Err(ImplError::OnlyProxy)
        );
        assert_eq!(chain.implementation_add_player(sender, player), Err(ImplError::OnlyProxy));
    }
    // The state component is untouched.
    assert_eq!(
        chain.implementation_get_player_data(player),
        Ok((PlayerLifecycle::NotAdded, BattleResult::NoResult))
    );
    // The recorded proxy passes.
    assert_eq!(chain.implementation_add_player(proxy_sender(), player), Ok(()));
}

#[test]
fn test_only_implementation_gates_state_mutations() {
    let mut state = State::new(acct(100));
    state.initialize(acct(100), caddr(1), caddr(2)).unwrap();
    let player = Address::Account(acct(7));
    let strangers = [Address::Account(acct(5)), Address::Contract(caddr(1)), Address::Contract(caddr(9))];
    for sender in strangers {
        assert_eq!(state.set_paused(sender, true), Err(StateError::OnlyImplementation));
        assert_eq!(
            state.update_player_state(sender, player, PlayerState::Suspended),
            Err(StateError::OnlyImplementation)
        );
        assert_eq!(
            state.update_battle_result(sender, player, BattleResult::Win),
            Err(StateError::OnlyImplementation)
        );
        assert_eq!(state.add_player(sender, player), Err(StateError::OnlyImplementation));
    }
    // The durable data is unchanged.
    assert!(!state.get_paused());
    assert!(!state.is_added(&player));
    // The recorded implementation passes.
    assert_eq!(state.update_player_state(Address::Contract(caddr(2)), player, PlayerState::Suspended), Ok(()));
    assert_eq!(state.get_player_data(&player), (PlayerLifecycle::Suspended, BattleResult::NoResult));
}

#[test]
fn test_set_implementation_address_gated_to_proxy() {
    let mut state = State::new(acct(100));
    state.initialize(acct(100), caddr(1), caddr(2)).unwrap();
    assert_eq!(
        state.set_implementation_address(Address::Contract(caddr(2)), caddr(9)),
        Err(StateError::OnlyProxy)
    );
    assert_eq!(state.set_implementation_address(Address::Contract(caddr(1)), caddr(9)), Ok(()));
    let basic = state.view_state().unwrap();
    assert_eq!(basic.proxy_address, caddr(1));
    assert_eq!(basic.implementation_address, caddr(9));
}

#[test]
fn test_pause_gates_business_mutations() {
    let mut chain = deploy_initialized();
    let admin = Address::Account(acct(100));
    let player = Address::Account(acct(7));
    chain.implementation_add_player(proxy_sender(), player).unwrap();

    // Only the implementation's admin may pause.
    assert_eq!(chain.implementation_pause(Address::Account(acct(5))), Err(ImplError::OnlyAdmin));
    assert_eq!(chain.implementation_pause(admin), Ok(()));
    assert!(chain.state_ref().get_paused());

    assert_eq!(
        chain.implementation_update_player_state(proxy_sender(), player, PlayerState::Suspended),
        Err(ImplError::ContractPaused)
    );
    assert_eq!(
        chain.implementation_update_battle_result(proxy_sender(), player, BattleResult::Win),
        Err(ImplError::ContractPaused)
    );
    assert_eq!(
        chain.implementation_add_player(proxy_sender(), Address::Account(acct(8))),
        Err(ImplError::ContractPaused)
    );
    // State unmodified by the rejected calls.
    assert_eq!(
        chain.implementation_get_player_data(player),
        Ok((PlayerLifecycle::Active, BattleResult::NoResult))
    );

    // Once unpaused, the identical calls succeed.
    assert_eq!(chain.implementation_unpause(admin), Ok(()));
    assert!(!chain.state_ref().get_paused());
    assert_eq!(
        chain.implementation_update_player_state(proxy_sender(), player, PlayerState::Suspended),
        Ok(())
    );
    assert_eq!(
        chain.implementation_update_battle_result(proxy_sender(), player, BattleResult::Win),
        Ok(())
    );
    assert_eq!(chain.implementation_add_player(proxy_sender(), Address::Account(acct(8))), Ok(()));
}

#[test]
fn test_add_player_fresh_and_already_added() {
    let mut chain = deploy_initialized();
    let player = Address::Account(acct(7));
    assert_eq!(chain.implementation_add_player(proxy_sender(), player), Ok(()));
    assert_eq!(
        chain.implementation_get_player_data(player),
        Ok((PlayerLifecycle::Active, BattleResult::NoResult))
    );
    assert_eq!(
        chain.implementation_add_player(proxy_sender(), player),
        Err(ImplError::AlreadyAdded)
    );
    // Adding leaves an existing record alone.
    chain
        .implementation_update_player_state(proxy_sender(), player, PlayerState::Suspended)
        .unwrap();
    assert_eq!(
        chain.implementation_add_player(proxy_sender(), player),
        Err(ImplError::AlreadyAdded)
    );
    assert_eq!(
        chain.implementation_get_player_data(player),
        Ok((PlayerLifecycle::Suspended, BattleResult::NoResult))
    );
}

#[test]
fn test_update_then_get_keeps_result() {
    let mut chain = deploy_initialized();
    let player = Address::Account(acct(7));
    chain.implementation_add_player(proxy_sender(), player).unwrap();
    chain
        .implementation_update_battle_result(proxy_sender(), player, BattleResult::Win)
        .unwrap();
    chain
        .implementation_update_player_state(proxy_sender(), player, PlayerState::Suspended)
        .unwrap();
    // The result field rides along unchanged.
    assert_eq!(
        chain.implementation_get_player_data(player),
        Ok((PlayerLifecycle::Suspended, BattleResult::Win))
    );
    // And back.
    chain
        .implementation_update_player_state(proxy_sender(), player, PlayerState::Active)
        .unwrap();
    assert_eq!(
        chain.implementation_get_player_data(player),
        Ok((PlayerLifecycle::Active, BattleResult::Win))
    );
}

#[test]
fn test_update_player_state_creates_record() {
    let mut chain = deploy_initialized();
    let player = Address::Account(acct(7));
    // First touch through updatePlayerState: created, then set.
    chain
        .implementation_update_player_state(proxy_sender(), player, PlayerState::Suspended)
        .unwrap();
    assert_eq!(
        chain.implementation_get_player_data(player),
        Ok((PlayerLifecycle::Suspended, BattleResult::NoResult))
    );
    // First touch through updateBattleResult: created Active, result set.
    let other = Address::Account(acct(8));
    chain
        .implementation_update_battle_result(proxy_sender(), other, BattleResult::Loss)
        .unwrap();
    assert_eq!(
        chain.implementation_get_player_data(other),
        Ok((PlayerLifecycle::Active, BattleResult::Loss))
    );
}

#[test]
fn test_proxy_admin_rotation() {
    let mut chain = deploy_initialized();
    let old_admin = Address::Account(acct(100));
    let new_admin = Address::Account(acct(200));
    assert_eq!(chain.proxy_update_admin(Address::Account(acct(5)), new_admin), Err(ProxyError::OnlyAdmin));
    assert_eq!(chain.proxy_update_admin(old_admin, new_admin), Ok(()));
    assert_eq!(chain.proxy_fields().admin, new_admin);
    // The old admin is out.
    assert_eq!(chain.proxy_update_admin(old_admin, old_admin), Err(ProxyError::OnlyAdmin));
    assert_eq!(
        chain.proxy_update_implementation(old_admin, caddr(9)),
        Err(ProxyError::OnlyAdmin)
    );
    // The new admin is in.
    assert_eq!(chain.proxy_update_implementation(new_admin, caddr(9)), Ok(()));
    // The implementation's admin is untouched.
    assert_eq!(chain.implementation_fields().admin, old_admin);
}

#[test]
fn test_implementation_admin_rotation() {
    let mut chain = deploy_initialized();
    let old_admin = Address::Account(acct(100));
    let new_admin = Address::Account(acct(200));
    assert_eq!(
        chain.implementation_update_admin(Address::Account(acct(5)), new_admin),
        Err(ImplError::OnlyAdmin)
    );
    assert_eq!(chain.implementation_update_admin(old_admin, new_admin), Ok(()));
    assert_eq!(chain.implementation_fields().admin, new_admin);
    assert_eq!(chain.implementation_pause(old_admin), Err(ImplError::OnlyAdmin));
    assert_eq!(chain.implementation_pause(new_admin), Ok(()));
    assert_eq!(chain.implementation_unpause(new_admin), Ok(()));
    // The proxy's admin is untouched.
    assert_eq!(chain.proxy_fields().admin, old_admin);
}

#[test]
fn test_update_implementation_keeps_state_consistent() {
    let mut chain = deploy_initialized();
    let admin = Address::Account(acct(100));
    assert_eq!(chain.proxy_update_implementation(admin, caddr(9)), Ok(()));
    assert_eq!(chain.proxy_fields().implementation_address, caddr(9));
    // The state component was told as well.
    let basic = chain.state_ref().view_state().unwrap();
    assert_eq!(basic.implementation_address, caddr(9));
    // The live implementation at the old address is no longer trusted by
    // the state component, so its business calls die on the cross-call.
    let player = Address::Account(acct(7));
    assert_eq!(
        chain.implementation_add_player(proxy_sender(), player),
        Err(ImplError::InvokeContractError)
    );
}

#[test]
fn test_log_event_gated_to_implementation() {
    let mut chain = deploy_initialized();
    let raw = vec![1u8, 2, 3, 255];
    assert_eq!(
        chain.proxy_log_event(Address::Account(acct(100)), raw.clone()),
        Err(ProxyError::OnlyImplementation)
    );
    let before = chain.proxy_log().len();
    assert_eq!(chain.proxy_log_event(Address::Contract(caddr(2)), raw.clone()), Ok(()));
    let log = chain.proxy_log();
    assert_eq!(log.len(), before + 1);
    assert_eq!(log[log.len() - 1], raw);
}

#[test]
fn test_event_records() {
    let chain = deploy_initialized();
    // Deployment logged the implementation's first admin.
    let implementation_log = chain.implementation_log();
    assert_eq!(implementation_log.len(), 1);
    let mut new_admin_record = vec![250u8, 0];
    new_admin_record.extend_from_slice(&le_bytes_of_account_100());
    assert_eq!(implementation_log[0], new_admin_record);
    // The proxy's initialize logged a new-implementation event, then a
    // new-admin event.
    let proxy_log = chain.proxy_log();
    assert_eq!(proxy_log.len(), 2);
    let mut new_implementation_record = vec![249u8];
    new_implementation_record.extend_from_slice(&2u64.to_le_bytes());
    new_implementation_record.extend_from_slice(&0u64.to_le_bytes());
    assert_eq!(proxy_log[0], new_implementation_record);
    assert_eq!(proxy_log[1], new_admin_record);
}

fn le_bytes_of_account_100() -> Vec<u8> {
    let mut b = Vec::new();
    b.extend_from_slice(&100u64.to_le_bytes());
    b.extend_from_slice(&0u64.to_le_bytes());
    b.extend_from_slice(&0u64.to_le_bytes());
    b.extend_from_slice(&0u64.to_le_bytes());
    b
}

#[test]
fn test_admin_rotation_logs_events() {
    let mut chain = deploy_initialized();
    let before = chain.implementation_log().len();
    chain
        .implementation_update_admin(Address::Account(acct(100)), Address::Account(acct(200)))
        .unwrap();
    let log = chain.implementation_log();
    assert_eq!(log.len(), before + 1);
    let mut expected = vec![250u8, 0];
    expected.extend_from_slice(&200u64.to_le_bytes());
    expected.extend_from_slice(&0u64.to_le_bytes());
    expected.extend_from_slice(&0u64.to_le_bytes());
    expected.extend_from_slice(&0u64.to_le_bytes());
    assert_eq!(log[log.len() - 1], expected);
}
