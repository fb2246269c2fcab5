//! The wire surface: the binary codec, the named dispatch tables, and the
//! proxy's catch-all forwarding.

use versus::addr::{AccountAddress, Address, ContractAddress};
use versus::chain::Chain;
use versus::codec;
use versus::data::{BattleResult, PlayerLifecycle, PlayerState};
use versus::dispatch::{CallError, Reject};
use versus::error::{ImplError, ProxyError, StateError};

fn account(i: u64) -> AccountAddress {
    AccountAddress { w0: i, w1: 0, w2: 0, w3: 0 }
}

fn contract_at(i: u64) -> ContractAddress {
    ContractAddress { index: i, subindex: 0 }
}

fn wire_deploy_initialized() -> Chain {
    let mut chain = Chain::new(account(100), contract_at(1), contract_at(2), contract_at(3));
    chain.proxy_initialize(account(100)).unwrap();
    chain
}

fn as_proxy() -> Address {
    Address::Contract(contract_at(1))
}

#[test]
fn test_u64_encoding_is_little_endian() {
    let mut out: Vec<u8> = Vec::new();
    codec::push_u64_le(&mut out, 0x0102030405060708);
    assert_eq!(out, vec![0x08, 0x07, 0x06, 0x05, 0x04, 0x03, 0x02, 0x01]);
}

#[test]
fn test_account_address_encoding() {
    let a = Address::Account(AccountAddress { w0: 1, w1: 2, w2: 3, w3: u64::MAX });
    let bytes = codec::address_bytes(&a);
    let mut expected = vec![0u8];
    expected.extend_from_slice(&1u64.to_le_bytes());
    expected.extend_from_slice(&2u64.to_le_bytes());
    expected.extend_from_slice(&3u64.to_le_bytes());
    expected.extend_from_slice(&u64::MAX.to_le_bytes());
    assert_eq!(bytes, expected);
    assert_eq!(bytes.len(), 33);
}

#[test]
fn test_contract_address_encoding() {
    let a = Address::Contract(ContractAddress { index: 5, subindex: 7 });
    let bytes = codec::address_bytes(&a);
    let mut expected = vec![1u8];
    expected.extend_from_slice(&5u64.to_le_bytes());
    expected.extend_from_slice(&7u64.to_le_bytes());
    assert_eq!(bytes, expected);
    assert_eq!(bytes.len(), 17);
}

#[test]
fn test_address_codec_round_trip() {
    let addresses = [
        Address::Account(AccountAddress { w0: u64::MAX, w1: 0, w2: 42, w3: 7 }),
        Address::Contract(ContractAddress { index: u64::MAX, subindex: u64::MAX }),
        Address::Account(account(0)),
        Address::Contract(contract_at(0)),
    ];
    for a in addresses {
        let mut bytes = codec::address_bytes(&a);
        // Trailing bytes are ignored, as the host's cursor ignores them.
        bytes.push(0xAB);
        let (decoded, next) = codec::read_address(&bytes, 0).unwrap();
        assert_eq!(decoded, a);
        assert_eq!(next, bytes.len() - 1);
    }
}

#[test]
fn test_decoding_rejects_malformed_prefixes() {
    // Too short for the discriminant's payload.
    let short = vec![0u8, 1, 2, 3];
    assert!(codec::read_address(&short, 0).is_none());
    // Unknown address discriminant.
    let bad_tag = codec::address_bytes(&Address::Account(account(1)));
    let mut bad = bad_tag.clone();
    bad[0] = 2;
    assert!(codec::read_address(&bad, 0).is_none());
    // Unknown lifecycle and battle-result ordinals.
    assert!(codec::read_player_state(&vec![2u8], 0).is_none());
    assert!(codec::read_battle_result(&vec![3u8], 0).is_none());
    // Empty buffers.
    assert!(codec::read_u64_le(&Vec::new(), 0).is_none());
    assert!(codec::read_u8(&Vec::new(), 0).is_none());
}

#[test]
fn test_reject_codes_follow_declaration_order() {
    assert_eq!(StateError::ParseParamsError.reject_code(), -1);
    assert_eq!(StateError::AlreadyInitialized.reject_code(), -4);
    assert_eq!(StateError::UnInitialized.reject_code(), -5);
    assert_eq!(StateError::OnlyImplementation.reject_code(), -6);
    assert_eq!(StateError::OnlyProxy.reject_code(), -7);
    assert_eq!(StateError::OnlyDeployer.reject_code(), -9);
    assert_eq!(ImplError::ParseParamsError.reject_code(), -1);
    assert_eq!(ImplError::InvokeContractError.reject_code(), -4);
    assert_eq!(ImplError::ContractPaused.reject_code(), -5);
    assert_eq!(ImplError::AlreadyInitialized.reject_code(), -6);
    assert_eq!(ImplError::UnInitialized.reject_code(), -7);
    assert_eq!(ImplError::OnlyProxy.reject_code(), -8);
    assert_eq!(ImplError::OnlyAdmin.reject_code(), -10);
    assert_eq!(ImplError::AlreadyAdded.reject_code(), -11);
    assert_eq!(ImplError::OnlyDeployer.reject_code(), -12);
    assert_eq!(ProxyError::ParseParams.reject_code(), -1);
    assert_eq!(ProxyError::InvokeContractError.reject_code(), -4);
    assert_eq!(ProxyError::OnlyImplementation.reject_code(), -9);
    assert_eq!(ProxyError::OnlyAdmin.reject_code(), -12);
}

#[test]
fn test_dispatch_update_player_state() {
    let mut chain = wire_deploy_initialized();
    let player = Address::Account(account(7));
    let mut parameter = codec::address_bytes(&player);
    parameter.push(codec::player_state_byte(PlayerState::Suspended));
    let r = chain.invoke_implementation(account(50), as_proxy(), "updatePlayerState", &parameter, 0);
    assert_eq!(r, Ok(Vec::new()));
    assert_eq!(
        chain.implementation_get_player_data(player),
        Ok((PlayerLifecycle::Suspended, BattleResult::NoResult))
    );
}

#[test]
fn test_dispatch_update_battle_result() {
    let mut chain = wire_deploy_initialized();
    let player = Address::Account(account(7));
    let mut parameter = codec::address_bytes(&player);
    parameter.push(codec::battle_result_byte(BattleResult::Loss));
    let r = chain.invoke_implementation(account(50), as_proxy(), "updateBattleResult", &parameter, 0);
    assert_eq!(r, Ok(Vec::new()));
    assert_eq!(
        chain.implementation_get_player_data(player),
        Ok((PlayerLifecycle::Active, BattleResult::Loss))
    );
}

#[test]
fn test_dispatch_get_player_data_bytes() {
    let mut chain = wire_deploy_initialized();
    let player = Address::Account(account(7));
    chain.implementation_add_player(as_proxy(), player).unwrap();
    chain
        .implementation_update_battle_result(as_proxy(), player, BattleResult::Win)
        .unwrap();
    let parameter = codec::address_bytes(&player);
    let r = chain.invoke_implementation(account(50), Address::Account(account(5)), "getPlayerData", &parameter, 0);
    // Active = 1, Win = 1 on the wire.
    assert_eq!(r, Ok(vec![1u8, 1]));
}

#[test]
fn test_dispatch_parse_error() {
    let mut chain = wire_deploy_initialized();
    let garbage = vec![0xFFu8];
    let r = chain.invoke_implementation(account(50), as_proxy(), "updatePlayerState", &garbage, 0);
    assert_eq!(r, Err(CallError::LogicReject { reason: -1, payload: vec![0u8] }));
    // A well-formed address but a bad lifecycle ordinal.
    let player = Address::Account(account(7));
    let mut parameter = codec::address_bytes(&player);
    parameter.push(9);
    let r = chain.invoke_implementation(account(50), as_proxy(), "updatePlayerState", &parameter, 0);
    assert_eq!(r, Err(CallError::LogicReject { reason: -1, payload: vec![0u8] }));
    // Nothing was created along the way.
    assert_eq!(
        chain.implementation_get_player_data(player),
        Ok((PlayerLifecycle::NotAdded, BattleResult::NoResult))
    );
}

#[test]
fn test_dispatch_unknown_entry_point() {
    let mut chain = wire_deploy_initialized();
    let r = chain.invoke_implementation(account(50), as_proxy(), "frobnicate", &vec![1u8, 2], 0);
    assert_eq!(r, Err(CallError::Missing));
}

#[test]
fn test_dispatch_view_implementation() {
    let mut chain = wire_deploy_initialized();
    let r = chain.invoke_implementation(account(50), Address::Account(account(5)), "view", &Vec::new(), 0);
    let mut expected = codec::address_bytes(&Address::Account(account(100)));
    expected.push(1);
    expected.extend_from_slice(&codec::contract_bytes(&contract_at(1)));
    expected.extend_from_slice(&codec::contract_bytes(&contract_at(3)));
    assert_eq!(r, Ok(expected));
}

#[test]
fn test_dispatch_pause_and_unpause() {
    let mut chain = wire_deploy_initialized();
    let admin = Address::Account(account(100));
    let r = chain.invoke_implementation(account(100), admin, "pause", &Vec::new(), 0);
    assert_eq!(r, Ok(Vec::new()));
    assert!(chain.state_ref().get_paused());
    let r = chain.invoke_implementation(account(100), admin, "unpause", &Vec::new(), 0);
    assert_eq!(r, Ok(Vec::new()));
    assert!(!chain.state_ref().get_paused());
}

#[test]
fn test_proxy_dispatch_own_entries() {
    let mut chain = Chain::new(account(100), contract_at(1), contract_at(2), contract_at(3));
    let deployer = Address::Account(account(100));
    // initialize through the byte surface.
    let r = chain.invoke_proxy(account(100), deployer, "initialize", &Vec::new(), 0);
    assert_eq!(r, Ok(Vec::new()));
    // view returns admin, implementation and state addresses.
    let r = chain.invoke_proxy(account(5), Address::Account(account(5)), "view", &Vec::new(), 0);
    let mut expected = codec::address_bytes(&deployer);
    expected.extend_from_slice(&codec::contract_bytes(&contract_at(2)));
    expected.extend_from_slice(&codec::contract_bytes(&contract_at(3)));
    assert_eq!(r, Ok(expected));
    // updateAdmin through the byte surface.
    let new_admin = Address::Account(account(200));
    let parameter = codec::address_bytes(&new_admin);
    let r = chain.invoke_proxy(account(100), deployer, "updateAdmin", &parameter, 0);
    assert_eq!(r, Ok(Vec::new()));
    assert_eq!(chain.proxy_fields().admin, new_admin);
    // A malformed parameter rejects with the proxy's decode error.
    let r = chain.invoke_proxy(account(200), new_admin, "updateAdmin", &vec![9u8], 0);
    assert_eq!(r, Err(Reject { code: -1, payload: Some(vec![0u8]) }));
}

#[test]
fn test_fallback_forwards_success() {
    let mut chain = wire_deploy_initialized();
    let player = Address::Account(account(7));
    let parameter = codec::address_bytes(&player);
    // An arbitrary account invokes an entry name the proxy does not know;
    // the call reaches the implementation with the proxy as sender.
    let r = chain.invoke_proxy(account(50), Address::Account(account(50)), "addPlayer", &parameter, 0);
    assert_eq!(r, Ok(Vec::new()));
    assert_eq!(
        chain.implementation_get_player_data(player),
        Ok((PlayerLifecycle::Active, BattleResult::NoResult))
    );
}

#[test]
fn test_fallback_matches_direct_invocation() {
    // Two identical deployments: one called through the proxy's catch-all,
    // one called directly on the implementation with the proxy as sender.
    let mut via_proxy = wire_deploy_initialized();
    let mut direct = wire_deploy_initialized();
    let player = Address::Account(account(7));
    let parameter = codec::address_bytes(&player);
    let caller = Address::Account(account(50));

    for _round in 0..2 {
        let a = via_proxy.invoke_proxy(account(50), caller, "addPlayer", &parameter, 0);
        let b = direct.invoke_implementation(account(50), as_proxy(), "addPlayer", &parameter, 0);
        match (a, b) {
            (Ok(xs), Ok(ys)) => assert_eq!(xs, ys),
            (Err(Reject { code, payload }), Err(CallError::LogicReject { reason, payload: p })) => {
                assert_eq!(code, reason);
                assert_eq!(payload, Some(p));
            },
            (a, b) => panic!("outcomes diverge: {:?} vs {:?}", a, b),
        }
    }
    // The second round rejected with AlreadyAdded on both paths.
    let a = via_proxy.invoke_proxy(account(50), caller, "addPlayer", &parameter, 0);
    assert_eq!(a, Err(Reject { code: -11, payload: Some(vec![10u8]) }));
}

#[test]
fn test_fallback_parse_error_passthrough() {
    let mut chain = wire_deploy_initialized();
    let garbage = vec![0xEEu8, 0xFF];
    let r = chain.invoke_proxy(account(50), Address::Account(account(50)), "updatePlayerState", &garbage, 0);
    // The implementation's decode error rides through byte-exactly.
    assert_eq!(r, Err(Reject { code: -1, payload: Some(vec![0u8]) }));
}

#[test]
fn test_fallback_unknown_everywhere() {
    let mut chain = wire_deploy_initialized();
    let r = chain.invoke_proxy(account(50), Address::Account(account(50)), "frobnicate", &vec![1u8], 0);
    // Missing on the implementation is not a structured rejection; the
    // proxy reports its generic invocation error, without payload.
    assert_eq!(r, Err(Reject { code: -4, payload: None }));
}

#[test]
fn test_fallback_with_stale_implementation() {
    let mut chain = wire_deploy_initialized();
    let admin = Address::Account(account(100));
    chain.proxy_update_implementation(admin, contract_at(9)).unwrap();
    let player = Address::Account(account(7));
    let parameter = codec::address_bytes(&player);
    // There is no live instance at the new address: forwarding fails.
    let r = chain.invoke_proxy(account(50), Address::Account(account(50)), "addPlayer", &parameter, 0);
    assert_eq!(r, Err(Reject { code: -4, payload: None }));
}

#[test]
fn test_fallback_forwards_amount_and_bytes_verbatim() {
    let mut chain = wire_deploy_initialized();
    // logEvent is a proxy entry, so it is handled locally, but an unknown
    // name with the same payload goes through untouched: the trailing
    // garbage after a well-formed address is ignored by the decoder on
    // both paths.
    let player = Address::Account(account(7));
    let mut parameter = codec::address_bytes(&player);
    parameter.extend_from_slice(&[0xDE, 0xAD]);
    let r = chain.invoke_proxy(account(50), Address::Account(account(50)), "addPlayer", &parameter, 77);
    assert_eq!(r, Ok(Vec::new()));
    assert!(chain.state_ref().is_added(&player));
}
