//! The binary encoding of the values that cross the component boundary.
//!
//! The encoding is fixed and versionless: fixed-width integers are
//! little-endian, an enumerated value is a leading discriminant ordinal,
//! an account address is its 32 bytes, a contract address is index then
//! subindex. Decoding reads a prefix of the buffer and ignores what
//! follows, as the host's parameter cursor does.

use vstd::prelude::*;
use crate::addr::{AccountAddress, Address, ContractAddress};
use crate::data::{BattleResult, PlayerLifecycle, PlayerState};

verus! {

/// Event-log discriminator for a new-admin record.
pub const TAG_NEW_ADMIN_EVENT: u8 = 250;

/// Event-log discriminator for a new-implementation record.
pub const TAG_NEW_IMPLEMENTATION_EVENT: u8 = 249;

/// Address discriminant: an account.
pub const TAG_ADDRESS_ACCOUNT: u8 = 0;

/// Address discriminant: a contract.
pub const TAG_ADDRESS_CONTRACT: u8 = 1;

// ---------------------------------------------------------------------
// Encoding, specification side.
// ---------------------------------------------------------------------

/// The eight little-endian bytes of a 64-bit integer.
pub open spec fn spec_u64_le(x: u64) -> Seq<u8> {
    seq![
        (x & 0xff) as u8,
        ((x >> 8) & 0xff) as u8,
        ((x >> 16) & 0xff) as u8,
        ((x >> 24) & 0xff) as u8,
        ((x >> 32) & 0xff) as u8,
        ((x >> 40) & 0xff) as u8,
        ((x >> 48) & 0xff) as u8,
        ((x >> 56) & 0xff) as u8,
    ]
}

/// The 32 bytes of an account address.
pub open spec fn spec_account_bytes(a: AccountAddress) -> Seq<u8> {
    spec_u64_le(a.w0) + spec_u64_le(a.w1) + spec_u64_le(a.w2) + spec_u64_le(a.w3)
}

/// The 16 bytes of a contract address: index, then subindex.
pub open spec fn spec_contract_bytes(c: ContractAddress) -> Seq<u8> {
    spec_u64_le(c.index) + spec_u64_le(c.subindex)
}

/// An address: a discriminant byte, then the account or contract bytes.
pub open spec fn spec_address_bytes(a: Address) -> Seq<u8> {
    match a {
        Address::Account(acc) => seq![TAG_ADDRESS_ACCOUNT] + spec_account_bytes(acc),
        Address::Contract(c) => seq![TAG_ADDRESS_CONTRACT] + spec_contract_bytes(c),
    }
}

/// The ordinal byte of a durable lifecycle state.
pub open spec fn spec_player_state_byte(s: PlayerState) -> u8 {
    match s {
        PlayerState::Active => 0,
        PlayerState::Suspended => 1,
    }
}

/// The ordinal byte of an observed lifecycle.
pub open spec fn spec_lifecycle_byte(l: PlayerLifecycle) -> u8 {
    match l {
        PlayerLifecycle::NotAdded => 0,
        PlayerLifecycle::Active => 1,
        PlayerLifecycle::Suspended => 2,
    }
}

/// The ordinal byte of a battle result.
pub open spec fn spec_battle_result_byte(r: BattleResult) -> u8 {
    match r {
        BattleResult::NoResult => 0,
        BattleResult::Win => 1,
        BattleResult::Loss => 2,
    }
}

/// What `getPlayerData` puts on the wire: lifecycle, then battle result.
pub open spec fn spec_player_data_bytes(l: PlayerLifecycle, r: BattleResult) -> Seq<u8> {
    seq![spec_lifecycle_byte(l), spec_battle_result_byte(r)]
}

/// A new-admin event record: the discriminator, then the admin address.
pub open spec fn spec_new_admin_event_bytes(a: Address) -> Seq<u8> {
    seq![TAG_NEW_ADMIN_EVENT] + spec_address_bytes(a)
}

/// A new-implementation event record: the discriminator, then the
/// implementation's contract address.
pub open spec fn spec_new_implementation_event_bytes(c: ContractAddress) -> Seq<u8> {
    seq![TAG_NEW_IMPLEMENTATION_EVENT] + spec_contract_bytes(c)
}

// ---------------------------------------------------------------------
// Encoding, executable side.
// ---------------------------------------------------------------------

/// Appends the eight little-endian bytes of `x`.
pub fn push_u64_le(out: &mut Vec<u8>, x: u64)
    ensures
        final(out)@ =~= old(out)@ + spec_u64_le(x),
{
    out.push((x & 0xff) as u8);
    out.push(((x >> 8) & 0xff) as u8);
    out.push(((x >> 16) & 0xff) as u8);
    out.push(((x >> 24) & 0xff) as u8);
    out.push(((x >> 32) & 0xff) as u8);
    out.push(((x >> 40) & 0xff) as u8);
    out.push(((x >> 48) & 0xff) as u8);
    out.push(((x >> 56) & 0xff) as u8);
}

/// Appends the 32 bytes of an account address.
pub fn push_account_bytes(out: &mut Vec<u8>, a: &AccountAddress)
    ensures
        final(out)@ =~= old(out)@ + spec_account_bytes(*a),
{
    push_u64_le(out, a.w0);
    push_u64_le(out, a.w1);
    push_u64_le(out, a.w2);
    push_u64_le(out, a.w3);
}

/// Appends the 16 bytes of a contract address.
pub fn push_contract_bytes(out: &mut Vec<u8>, c: &ContractAddress)
    ensures
        final(out)@ =~= old(out)@ + spec_contract_bytes(*c),
{
    push_u64_le(out, c.index);
    push_u64_le(out, c.subindex);
}

/// Appends the encoding of an address.
pub fn push_address_bytes(out: &mut Vec<u8>, a: &Address)
    ensures
        final(out)@ =~= old(out)@ + spec_address_bytes(*a),
{
    match a {
        Address::Account(acc) => {
            out.push(TAG_ADDRESS_ACCOUNT);
            push_account_bytes(out, acc);
        },
        Address::Contract(c) => {
            out.push(TAG_ADDRESS_CONTRACT);
            push_contract_bytes(out, c);
        },
    }
}

/// The encoding of an address, as a fresh buffer.
pub fn address_bytes(a: &Address) -> (r: Vec<u8>)
    ensures
        r@ =~= spec_address_bytes(*a),
{
    let mut out: Vec<u8> = Vec::new();
    push_address_bytes(&mut out, a);
    out
}

/// The encoding of a contract address, as a fresh buffer.
pub fn contract_bytes(c: &ContractAddress) -> (r: Vec<u8>)
    ensures
        r@ =~= spec_contract_bytes(*c),
{
    let mut out: Vec<u8> = Vec::new();
    push_contract_bytes(&mut out, c);
    out
}

/// A new-admin event record.
pub fn new_admin_event_bytes(a: &Address) -> (r: Vec<u8>)
    ensures
        r@ =~= spec_new_admin_event_bytes(*a),
{
    let mut out: Vec<u8> = Vec::new();
    out.push(TAG_NEW_ADMIN_EVENT);
    push_address_bytes(&mut out, a);
    out
}

/// A new-implementation event record.
pub fn new_implementation_event_bytes(c: &ContractAddress) -> (r: Vec<u8>)
    ensures
        r@ =~= spec_new_implementation_event_bytes(*c),
{
    let mut out: Vec<u8> = Vec::new();
    out.push(TAG_NEW_IMPLEMENTATION_EVENT);
    push_contract_bytes(&mut out, c);
    out
}

/// What `getPlayerData` puts on the wire.
pub fn player_data_bytes(l: PlayerLifecycle, r: BattleResult) -> (out: Vec<u8>)
    ensures
        out@ =~= spec_player_data_bytes(l, r),
{
    let mut out: Vec<u8> = Vec::new();
    out.push(lifecycle_byte(l));
    out.push(battle_result_byte(r));
    out
}

/// The ordinal byte of a durable lifecycle state.
pub fn player_state_byte(s: PlayerState) -> (b: u8)
    ensures
        b == spec_player_state_byte(s),
{
    match s {
        PlayerState::Active => 0,
        PlayerState::Suspended => 1,
    }
}

/// The ordinal byte of an observed lifecycle.
pub fn lifecycle_byte(l: PlayerLifecycle) -> (b: u8)
    ensures
        b == spec_lifecycle_byte(l),
{
    match l {
        PlayerLifecycle::NotAdded => 0,
        PlayerLifecycle::Active => 1,
        PlayerLifecycle::Suspended => 2,
    }
}

/// The ordinal byte of a battle result.
pub fn battle_result_byte(r: BattleResult) -> (b: u8)
    ensures
        b == spec_battle_result_byte(r),
{
    match r {
        BattleResult::NoResult => 0,
        BattleResult::Win => 1,
        BattleResult::Loss => 2,
    }
}

/// Appends one record to an event log, observed as a sequence of byte
/// records.
pub fn append_log(log: &mut Vec<Vec<u8>>, record: Vec<u8>)
    ensures
        final(log).deep_view() =~= old(log).deep_view().push(record@),
{
    let ghost pre = log.deep_view();
    let ghost rec = record@;
    log.push(record);
    proof {
        assert forall|i: int| 0 <= i < log.deep_view().len() implies log.deep_view()[i]
            == pre.push(rec)[i] by {
            if i < pre.len() {
                assert(log@[i] == old(log)@[i]);
            } else {
                assert(log@[i].deep_view() =~= rec);
            }
        }
    }
}

// ---------------------------------------------------------------------
// Decoding, specification side. Each reader yields the value and the
// position just past it, or nothing when the buffer is too short or the
// discriminant is unknown.
// ---------------------------------------------------------------------

/// The 64-bit integer whose little-endian bytes stand at `pos`.
pub open spec fn spec_combine_u64(
    b0: u8,
    b1: u8,
    b2: u8,
    b3: u8,
    b4: u8,
    b5: u8,
    b6: u8,
    b7: u8,
) -> u64 {
    (b0 as u64) | ((b1 as u64) << 8) | ((b2 as u64) << 16) | ((b3 as u64) << 24) | ((b4 as u64)
        << 32) | ((b5 as u64) << 40) | ((b6 as u64) << 48) | ((b7 as u64) << 56)
}

/// Reads one byte.
pub open spec fn spec_read_u8(b: Seq<u8>, pos: int) -> Option<(u8, int)> {
    if 0 <= pos && pos + 1 <= b.len() {
        Option::Some((b[pos], pos + 1))
    } else {
        Option::None
    }
}

/// Reads a little-endian 64-bit integer.
pub open spec fn spec_read_u64(b: Seq<u8>, pos: int) -> Option<(u64, int)> {
    if 0 <= pos && pos + 8 <= b.len() {
        Option::Some(
            (
                spec_combine_u64(
                    b[pos],
                    b[pos + 1],
                    b[pos + 2],
                    b[pos + 3],
                    b[pos + 4],
                    b[pos + 5],
                    b[pos + 6],
                    b[pos + 7],
                ),
                pos + 8,
            ),
        )
    } else {
        Option::None
    }
}

/// Reads the 32 bytes of an account address.
pub open spec fn spec_read_account(b: Seq<u8>, pos: int) -> Option<(AccountAddress, int)> {
    match spec_read_u64(b, pos) {
        Option::None => Option::None,
        Option::Some((w0, p1)) => match spec_read_u64(b, p1) {
            Option::None => Option::None,
            Option::Some((w1, p2)) => match spec_read_u64(b, p2) {
                Option::None => Option::None,
                Option::Some((w2, p3)) => match spec_read_u64(b, p3) {
                    Option::None => Option::None,
                    Option::Some((w3, p4)) => Option::Some(
                        (AccountAddress { w0, w1, w2, w3 }, p4),
                    ),
                },
            },
        },
    }
}

/// Reads the 16 bytes of a contract address.
pub open spec fn spec_read_contract(b: Seq<u8>, pos: int) -> Option<(ContractAddress, int)> {
    match spec_read_u64(b, pos) {
        Option::None => Option::None,
        Option::Some((index, p1)) => match spec_read_u64(b, p1) {
            Option::None => Option::None,
            Option::Some((subindex, p2)) => Option::Some(
                (ContractAddress { index, subindex }, p2),
            ),
        },
    }
}

/// Reads an address: a discriminant byte, then the account or contract
/// bytes.
pub open spec fn spec_read_address(b: Seq<u8>, pos: int) -> Option<(Address, int)> {
    match spec_read_u8(b, pos) {
        Option::None => Option::None,
        Option::Some((tag, p1)) => if tag == TAG_ADDRESS_ACCOUNT {
            match spec_read_account(b, p1) {
                Option::None => Option::None,
                Option::Some((acc, p2)) => Option::Some((Address::Account(acc), p2)),
            }
        } else if tag == TAG_ADDRESS_CONTRACT {
            match spec_read_contract(b, p1) {
                Option::None => Option::None,
                Option::Some((c, p2)) => Option::Some((Address::Contract(c), p2)),
            }
        } else {
            Option::None
        },
    }
}

/// Reads a durable lifecycle state.
pub open spec fn spec_read_player_state(b: Seq<u8>, pos: int) -> Option<(PlayerState, int)> {
    match spec_read_u8(b, pos) {
        Option::None => Option::None,
        Option::Some((tag, p1)) => if tag == 0 {
            Option::Some((PlayerState::Active, p1))
        } else if tag == 1 {
            Option::Some((PlayerState::Suspended, p1))
        } else {
            Option::None
        },
    }
}

/// Reads a battle result.
pub open spec fn spec_read_battle_result(b: Seq<u8>, pos: int) -> Option<(BattleResult, int)> {
    match spec_read_u8(b, pos) {
        Option::None => Option::None,
        Option::Some((tag, p1)) => if tag == 0 {
            Option::Some((BattleResult::NoResult, p1))
        } else if tag == 1 {
            Option::Some((BattleResult::Win, p1))
        } else if tag == 2 {
            Option::Some((BattleResult::Loss, p1))
        } else {
            Option::None
        },
    }
}

// ---------------------------------------------------------------------
// Decoding, executable side.
// ---------------------------------------------------------------------

/// Reads one byte.
pub fn read_u8(b: &Vec<u8>, pos: usize) -> (r: Option<(u8, usize)>)
    ensures
        match r {
            Option::Some((v, p)) => spec_read_u8(b@, pos as int) == Option::Some((v, p as int)),
            Option::None => spec_read_u8(b@, pos as int) is None,
        },
{
    if pos < b.len() {
        Option::Some((b[pos], pos + 1))
    } else {
        Option::None
    }
}

/// Reads a little-endian 64-bit integer.
pub fn read_u64_le(b: &Vec<u8>, pos: usize) -> (r: Option<(u64, usize)>)
    ensures
        match r {
            Option::Some((v, p)) => spec_read_u64(b@, pos as int) == Option::Some((v, p as int)),
            Option::None => spec_read_u64(b@, pos as int) is None,
        },
{
    if b.len() >= 8 && pos <= b.len() - 8 {
        let v = (b[pos] as u64) | ((b[pos + 1] as u64) << 8) | ((b[pos + 2] as u64) << 16) | ((b[pos
            + 3] as u64) << 24) | ((b[pos + 4] as u64) << 32) | ((b[pos + 5] as u64) << 40) | ((b[pos
            + 6] as u64) << 48) | ((b[pos + 7] as u64) << 56);
        Option::Some((v, pos + 8))
    } else {
        Option::None
    }
}

/// Reads the 32 bytes of an account address.
pub fn read_account(b: &Vec<u8>, pos: usize) -> (r: Option<(AccountAddress, usize)>)
    ensures
        match r {
            Option::Some((v, p)) => spec_read_account(b@, pos as int) == Option::Some(
                (v, p as int),
            ),
            Option::None => spec_read_account(b@, pos as int) is None,
        },
{
    match read_u64_le(b, pos) {
        Option::None => Option::None,
        Option::Some((w0, p1)) => match read_u64_le(b, p1) {
            Option::None => Option::None,
            Option::Some((w1, p2)) => match read_u64_le(b, p2) {
                Option::None => Option::None,
                Option::Some((w2, p3)) => match read_u64_le(b, p3) {
                    Option::None => Option::None,
                    Option::Some((w3, p4)) => Option::Some(
                        (AccountAddress { w0, w1, w2, w3 }, p4),
                    ),
                },
            },
        },
    }
}

/// Reads the 16 bytes of a contract address.
pub fn read_contract(b: &Vec<u8>, pos: usize) -> (r: Option<(ContractAddress, usize)>)
    ensures
        match r {
            Option::Some((v, p)) => spec_read_contract(b@, pos as int) == Option::Some(
                (v, p as int),
            ),
            Option::None => spec_read_contract(b@, pos as int) is None,
        },
{
    match read_u64_le(b, pos) {
        Option::None => Option::None,
        Option::Some((index, p1)) => match read_u64_le(b, p1) {
            Option::None => Option::None,
            Option::Some((subindex, p2)) => Option::Some((ContractAddress { index, subindex }, p2)),
        },
    }
}

/// Reads an address.
pub fn read_address(b: &Vec<u8>, pos: usize) -> (r: Option<(Address, usize)>)
    ensures
        match r {
            Option::Some((v, p)) => spec_read_address(b@, pos as int) == Option::Some(
                (v, p as int),
            ),
            Option::None => spec_read_address(b@, pos as int) is None,
        },
{
    match read_u8(b, pos) {
        Option::None => Option::None,
        Option::Some((tag, p1)) => {
            if tag == TAG_ADDRESS_ACCOUNT {
                match read_account(b, p1) {
                    Option::None => Option::None,
                    Option::Some((acc, p2)) => Option::Some((Address::Account(acc), p2)),
                }
            } else if tag == TAG_ADDRESS_CONTRACT {
                match read_contract(b, p1) {
                    Option::None => Option::None,
                    Option::Some((c, p2)) => Option::Some((Address::Contract(c), p2)),
                }
            } else {
                Option::None
            }
        },
    }
}

/// Reads a durable lifecycle state.
pub fn read_player_state(b: &Vec<u8>, pos: usize) -> (r: Option<(PlayerState, usize)>)
    ensures
        match r {
            Option::Some((v, p)) => spec_read_player_state(b@, pos as int) == Option::Some(
                (v, p as int),
            ),
            Option::None => spec_read_player_state(b@, pos as int) is None,
        },
{
    match read_u8(b, pos) {
        Option::None => Option::None,
        Option::Some((tag, p1)) => {
            if tag == 0 {
                Option::Some((PlayerState::Active, p1))
            } else if tag == 1 {
                Option::Some((PlayerState::Suspended, p1))
            } else {
                Option::None
            }
        },
    }
}

/// Reads a battle result.
pub fn read_battle_result(b: &Vec<u8>, pos: usize) -> (r: Option<(BattleResult, usize)>)
    ensures
        match r {
            Option::Some((v, p)) => spec_read_battle_result(b@, pos as int) == Option::Some(
                (v, p as int),
            ),
            Option::None => spec_read_battle_result(b@, pos as int) is None,
        },
{
    match read_u8(b, pos) {
        Option::None => Option::None,
        Option::Some((tag, p1)) => {
            if tag == 0 {
                Option::Some((BattleResult::NoResult, p1))
            } else if tag == 1 {
                Option::Some((BattleResult::Win, p1))
            } else if tag == 2 {
                Option::Some((BattleResult::Loss, p1))
            } else {
                Option::None
            }
        },
    }
}

// ---------------------------------------------------------------------
// Round trips: every reader inverts the matching encoder, wherever the
// encoding stands in a larger buffer.
// ---------------------------------------------------------------------

/// Recombining the little-endian bytes of an integer gives it back.
pub proof fn lemma_u64_le_round_trip(x: u64)
    ensures
        spec_combine_u64(
            spec_u64_le(x)[0],
            spec_u64_le(x)[1],
            spec_u64_le(x)[2],
            spec_u64_le(x)[3],
            spec_u64_le(x)[4],
            spec_u64_le(x)[5],
            spec_u64_le(x)[6],
            spec_u64_le(x)[7],
        ) == x,
{
    assert(((x & 0xff) as u8 as u64) | ((((x >> 8) & 0xff) as u8 as u64) << 8) | ((((x >> 16)
        & 0xff) as u8 as u64) << 16) | ((((x >> 24) & 0xff) as u8 as u64) << 24) | ((((x >> 32)
        & 0xff) as u8 as u64) << 32) | ((((x >> 40) & 0xff) as u8 as u64) << 40) | ((((x >> 48)
        & 0xff) as u8 as u64) << 48) | ((((x >> 56) & 0xff) as u8 as u64) << 56) == x)
        by (bit_vector);
}

/// Reading a 64-bit integer where its encoding stands gives it back.
pub proof fn lemma_read_u64_le(b: Seq<u8>, pos: int, x: u64)
    requires
        0 <= pos,
        pos + 8 <= b.len(),
        b.subrange(pos, pos + 8) =~= spec_u64_le(x),
    ensures
        spec_read_u64(b, pos) == Option::Some((x, pos + 8)),
{
    assert forall|i: int| 0 <= i < 8 implies b[pos + i] == spec_u64_le(x)[i] by {
        assert(b.subrange(pos, pos + 8)[i] == b[pos + i]);
    }
    lemma_u64_le_round_trip(x);
}

/// Reading an account address where its encoding stands gives it back.
pub proof fn lemma_read_account(b: Seq<u8>, pos: int, a: AccountAddress)
    requires
        0 <= pos,
        pos + 32 <= b.len(),
        b.subrange(pos, pos + 32) =~= spec_account_bytes(a),
    ensures
        spec_read_account(b, pos) == Option::Some((a, pos + 32)),
{
    let s = spec_account_bytes(a);
    assert forall|j: int| 0 <= j < 32 implies b[pos + j] == s[j] by {
        assert(b.subrange(pos, pos + 32)[j] == b[pos + j]);
    }
    assert forall|i: int| 0 <= i < 8 implies {
        &&& s[i] == spec_u64_le(a.w0)[i]
        &&& s[8 + i] == spec_u64_le(a.w1)[i]
        &&& s[16 + i] == spec_u64_le(a.w2)[i]
        &&& s[24 + i] == spec_u64_le(a.w3)[i]
    } by {
        assert(spec_u64_le(a.w0).len() == 8);
        assert(spec_u64_le(a.w1).len() == 8);
        assert(spec_u64_le(a.w2).len() == 8);
        assert(spec_u64_le(a.w3).len() == 8);
    }
    assert(b.subrange(pos, pos + 8) =~= spec_u64_le(a.w0));
    assert(b.subrange(pos + 8, pos + 16) =~= spec_u64_le(a.w1));
    assert(b.subrange(pos + 16, pos + 24) =~= spec_u64_le(a.w2));
    assert(b.subrange(pos + 24, pos + 32) =~= spec_u64_le(a.w3));
    lemma_read_u64_le(b, pos, a.w0);
    lemma_read_u64_le(b, pos + 8, a.w1);
    lemma_read_u64_le(b, pos + 16, a.w2);
    lemma_read_u64_le(b, pos + 24, a.w3);
}

/// Reading a contract address where its encoding stands gives it back.
pub proof fn lemma_read_contract(b: Seq<u8>, pos: int, c: ContractAddress)
    requires
        0 <= pos,
        pos + 16 <= b.len(),
        b.subrange(pos, pos + 16) =~= spec_contract_bytes(c),
    ensures
        spec_read_contract(b, pos) == Option::Some((c, pos + 16)),
{
    let s = spec_contract_bytes(c);
    assert forall|j: int| 0 <= j < 16 implies b[pos + j] == s[j] by {
        assert(b.subrange(pos, pos + 16)[j] == b[pos + j]);
    }
    assert forall|i: int| 0 <= i < 8 implies {
        &&& s[i] == spec_u64_le(c.index)[i]
        &&& s[8 + i] == spec_u64_le(c.subindex)[i]
    } by {
        assert(spec_u64_le(c.index).len() == 8);
        assert(spec_u64_le(c.subindex).len() == 8);
    }
    assert(b.subrange(pos, pos + 8) =~= spec_u64_le(c.index));
    assert(b.subrange(pos + 8, pos + 16) =~= spec_u64_le(c.subindex));
    lemma_read_u64_le(b, pos, c.index);
    lemma_read_u64_le(b, pos + 8, c.subindex);
}

/// Reading an address where its encoding stands gives it back.
pub proof fn lemma_read_address(b: Seq<u8>, pos: int, a: Address)
    requires
        0 <= pos,
        pos + spec_address_bytes(a).len() <= b.len(),
        b.subrange(pos, pos + spec_address_bytes(a).len() as int) =~= spec_address_bytes(a),
    ensures
        spec_read_address(b, pos) == Option::Some(
            (a, pos + spec_address_bytes(a).len() as int),
        ),
{
    let s = spec_address_bytes(a);
    assert forall|j: int| 0 <= j < s.len() implies b[pos + j] == s[j] by {
        assert(b.subrange(pos, pos + s.len() as int)[j] == b[pos + j]);
    }
    match a {
        Address::Account(acc) => {
            assert(s.len() == 33);
            assert(b[pos + 0] == s[0]);
            assert(s[0] == TAG_ADDRESS_ACCOUNT);
            assert forall|j: int| 0 <= j < 32 implies b.subrange(pos + 1, pos + 33)[j]
                == spec_account_bytes(acc)[j] by {
                assert(b[pos + 1 + j] == s[1 + j]);
                assert(s[1 + j] == spec_account_bytes(acc)[j]);
            }
            assert(b.subrange(pos + 1, pos + 33) =~= spec_account_bytes(acc));
            lemma_read_account(b, pos + 1, acc);
        },
        Address::Contract(c) => {
            assert(s.len() == 17);
            assert(b[pos + 0] == s[0]);
            assert(s[0] == TAG_ADDRESS_CONTRACT);
            assert forall|j: int| 0 <= j < 16 implies b.subrange(pos + 1, pos + 17)[j]
                == spec_contract_bytes(c)[j] by {
                assert(b[pos + 1 + j] == s[1 + j]);
                assert(s[1 + j] == spec_contract_bytes(c)[j]);
            }
            assert(b.subrange(pos + 1, pos + 17) =~= spec_contract_bytes(c));
            lemma_read_contract(b, pos + 1, c);
        },
    }
}

} // verus!
