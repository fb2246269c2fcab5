//! The named entry-point surface: raw parameter bytes in, raw bytes out.
//!
//! The host hands every call to a contract as an entry-point name and a
//! parameter buffer. This module gives the implementation and the proxy
//! their dispatch tables over that surface. The proxy's table ends in the
//! catch-all: every unrecognized name is forwarded verbatim — same name,
//! same bytes, same attached amount — to the current implementation
//! address, and the implementation's outcome is returned unchanged: its
//! success bytes as they are, a structured rejection with the same reason
//! code and the same payload, and any other forwarding failure as the
//! proxy's generic invocation error.

use vstd::prelude::*;
use crate::addr::{AccountAddress, Address};
use crate::chain::{Chain, ChainView};
use crate::codec;
use crate::error::{ImplError, ProxyError};
use crate::implementation::{Implementation, ProtocolAddressesImplementation};
use crate::proxy::Proxy;

verus! {

/// How the host reports a failed cross-contract invocation to the calling
/// contract.
#[derive(Debug, PartialEq, Eq)]
pub enum CallError {
    /// No contract instance, or no such entry point, at the target.
    Missing,
    /// The callee rejected: a numeric reason code and the payload it
    /// returned.
    LogicReject { reason: i32, payload: Vec<u8> },
}

/// The mathematical content of a `CallError`.
pub enum CallErrorView {
    Missing,
    LogicReject { reason: int, payload: Seq<u8> },
}

impl View for CallError {
    type V = CallErrorView;

    open spec fn view(&self) -> CallErrorView {
        match self {
            CallError::Missing => CallErrorView::Missing,
            CallError::LogicReject { reason, payload } => CallErrorView::LogicReject {
                reason: *reason as int,
                payload: payload@,
            },
        }
    }
}

/// What an external caller observes of a failed top-level invocation: a
/// reason code, and the callee's payload when there is one.
#[derive(Debug, PartialEq, Eq)]
pub struct Reject {
    pub code: i32,
    pub payload: Option<Vec<u8>>,
}

/// The mathematical content of a `Reject`.
pub struct RejectView {
    pub code: int,
    pub payload: Option<Seq<u8>>,
}

impl View for Reject {
    type V = RejectView;

    open spec fn view(&self) -> RejectView {
        RejectView {
            code: self.code as int,
            payload: match self.payload {
                Option::None => Option::None,
                Option::Some(ref p) => Option::Some(p@),
            },
        }
    }
}

/// The mathematical content of a contract-to-contract invocation outcome.
pub open spec fn spec_call_outcome(r: Result<Vec<u8>, CallError>) -> Result<Seq<u8>, CallErrorView> {
    match r {
        Result::Ok(v) => Result::Ok(v@),
        Result::Err(e) => Result::Err(e@),
    }
}

/// The mathematical content of a top-level invocation outcome.
pub open spec fn spec_invoke_outcome(r: Result<Vec<u8>, Reject>) -> Result<Seq<u8>, RejectView> {
    match r {
        Result::Ok(v) => Result::Ok(v@),
        Result::Err(e) => Result::Err(e@),
    }
}

/// The rejection an implementation error is observed as: its reason code,
/// and its one-byte serialization as payload.
pub open spec fn spec_impl_reject(e: ImplError) -> CallErrorView {
    CallErrorView::LogicReject { reason: e.spec_reject_code(), payload: seq![e.spec_ordinal() as u8] }
}

/// The rejection a proxy error is observed as by an external caller.
pub open spec fn spec_proxy_reject(e: ProxyError) -> RejectView {
    RejectView { code: e.spec_reject_code(), payload: Option::Some(seq![e.spec_ordinal() as u8]) }
}

/// The rejection an implementation error is observed as.
pub fn impl_reject(e: ImplError) -> (r: CallError)
    ensures
        r@ == spec_impl_reject(e),
{
    let mut payload: Vec<u8> = Vec::new();
    payload.push(e.ordinal_byte());
    proof {
        assert(payload@ =~= seq![e.spec_ordinal() as u8]);
    }
    CallError::LogicReject { reason: e.reject_code(), payload }
}

/// The rejection a proxy error is observed as by an external caller.
pub fn proxy_reject(e: ProxyError) -> (r: Reject)
    ensures
        r@ == spec_proxy_reject(e),
{
    let mut payload: Vec<u8> = Vec::new();
    payload.push(e.ordinal_byte());
    proof {
        assert(payload@ =~= seq![e.spec_ordinal() as u8]);
    }
    Reject { code: e.reject_code(), payload: Option::Some(payload) }
}

/// Whether the requested entry-point name is the given one.
fn entry_is(entrypoint: &str, name: &str) -> (r: bool)
    ensures
        r == (entrypoint@ == name@),
{
    let a: String = entrypoint.to_owned();
    let b: String = name.to_owned();
    a == b
}

/// What the implementation's `view` entry puts on the wire: the admin
/// address, then the address pair with its leading discriminant. The
/// recorded deployer is host bookkeeping and not part of the wire view.
pub open spec fn spec_implementation_state_bytes(i: Implementation) -> Seq<u8> {
    codec::spec_address_bytes(i.admin) + (match i.protocol_addresses {
        ProtocolAddressesImplementation::UnInitialized => seq![0u8],
        ProtocolAddressesImplementation::Initialized { proxy_address, state_address } => seq![1u8]
            + codec::spec_contract_bytes(proxy_address) + codec::spec_contract_bytes(state_address),
    })
}

/// What the implementation's `view` entry puts on the wire.
pub fn implementation_state_bytes(i: &Implementation) -> (r: Vec<u8>)
    ensures
        r@ =~= spec_implementation_state_bytes(*i),
{
    let mut out: Vec<u8> = Vec::new();
    codec::push_address_bytes(&mut out, &i.admin);
    match i.protocol_addresses {
        ProtocolAddressesImplementation::UnInitialized => {
            out.push(0u8);
        },
        ProtocolAddressesImplementation::Initialized { proxy_address, state_address } => {
            out.push(1u8);
            codec::push_contract_bytes(&mut out, &proxy_address);
            codec::push_contract_bytes(&mut out, &state_address);
        },
    }
    out
}

/// What the proxy's `view` entry puts on the wire: the admin address, then
/// the implementation and state addresses.
pub open spec fn spec_proxy_state_bytes(p: Proxy) -> Seq<u8> {
    codec::spec_address_bytes(p.admin) + codec::spec_contract_bytes(p.implementation_address)
        + codec::spec_contract_bytes(p.state_address)
}

/// What the proxy's `view` entry puts on the wire.
pub fn proxy_state_bytes(p: &Proxy) -> (r: Vec<u8>)
    ensures
        r@ =~= spec_proxy_state_bytes(*p),
{
    let mut out: Vec<u8> = Vec::new();
    codec::push_address_bytes(&mut out, &p.admin);
    codec::push_contract_bytes(&mut out, &p.implementation_address);
    codec::push_contract_bytes(&mut out, &p.state_address);
    out
}

impl Chain {
    /// One named call on the implementation instance, as the host delivers
    /// it: the entry point is picked by name, the parameter bytes are
    /// decoded (trailing bytes are ignored; a malformed prefix rejects with
    /// the parameter-decode error), the typed entry runs, and its outcome
    /// is put back on the wire. An unknown name is the host's
    /// missing-entry-point failure. The attached amount is carried but no
    /// entry of the implementation reads it.
    pub open spec fn spec_invoke_implementation(
        pre: ChainView,
        invoker: AccountAddress,
        sender: Address,
        entrypoint: Seq<char>,
        parameter: Seq<u8>,
        amount: u64,
    ) -> (ChainView, Result<Seq<u8>, CallErrorView>) {
        if entrypoint == "initialize"@ {
            match codec::spec_read_contract(parameter, 0) {
                Option::None => (pre, Result::Err(spec_impl_reject(ImplError::ParseParamsError))),
                Option::Some((proxy_address, p1)) => match codec::spec_read_contract(parameter, p1) {
                    Option::None => (
                        pre,
                        Result::Err(spec_impl_reject(ImplError::ParseParamsError)),
                    ),
                    Option::Some((state_address, _p2)) => {
                        let (impl1, r) = Implementation::spec_initialize(
                            pre.implementation,
                            invoker,
                            proxy_address,
                            state_address,
                        );
                        match r {
                            Result::Err(e) => (pre, Result::Err(spec_impl_reject(e))),
                            Result::Ok(_) => (
                                ChainView { implementation: impl1, ..pre },
                                Result::Ok(Seq::empty()),
                            ),
                        }
                    },
                },
            }
        } else if entrypoint == "updatePlayerState"@ {
            match codec::spec_read_address(parameter, 0) {
                Option::None => (pre, Result::Err(spec_impl_reject(ImplError::ParseParamsError))),
                Option::Some((player, p1)) => match codec::spec_read_player_state(parameter, p1) {
                    Option::None => (
                        pre,
                        Result::Err(spec_impl_reject(ImplError::ParseParamsError)),
                    ),
                    Option::Some((state, _p2)) => {
                        let (post, r) = Chain::spec_implementation_update_player_state(
                            pre,
                            sender,
                            player,
                            state,
                        );
                        match r {
                            Result::Err(e) => (pre, Result::Err(spec_impl_reject(e))),
                            Result::Ok(_) => (post, Result::Ok(Seq::empty())),
                        }
                    },
                },
            }
        } else if entrypoint == "updateBattleResult"@ {
            match codec::spec_read_address(parameter, 0) {
                Option::None => (pre, Result::Err(spec_impl_reject(ImplError::ParseParamsError))),
                Option::Some((player, p1)) => match codec::spec_read_battle_result(parameter, p1) {
                    Option::None => (
                        pre,
                        Result::Err(spec_impl_reject(ImplError::ParseParamsError)),
                    ),
                    Option::Some((result, _p2)) => {
                        let (post, r) = Chain::spec_implementation_update_battle_result(
                            pre,
                            sender,
                            player,
                            result,
                        );
                        match r {
                            Result::Err(e) => (pre, Result::Err(spec_impl_reject(e))),
                            Result::Ok(_) => (post, Result::Ok(Seq::empty())),
                        }
                    },
                },
            }
        } else if entrypoint == "addPlayer"@ {
            match codec::spec_read_address(parameter, 0) {
                Option::None => (pre, Result::Err(spec_impl_reject(ImplError::ParseParamsError))),
                Option::Some((player, _p1)) => {
                    let (post, r) = Chain::spec_implementation_add_player(pre, sender, player);
                    match r {
                        Result::Err(e) => (pre, Result::Err(spec_impl_reject(e))),
                        Result::Ok(_) => (post, Result::Ok(Seq::empty())),
                    }
                },
            }
        } else if entrypoint == "updateAdmin"@ {
            match codec::spec_read_address(parameter, 0) {
                Option::None => (pre, Result::Err(spec_impl_reject(ImplError::ParseParamsError))),
                Option::Some((new_admin, _p1)) => {
                    let (post, r) = Chain::spec_implementation_update_admin(pre, sender, new_admin);
                    match r {
                        Result::Err(e) => (pre, Result::Err(spec_impl_reject(e))),
                        Result::Ok(_) => (post, Result::Ok(Seq::empty())),
                    }
                },
            }
        } else if entrypoint == "pause"@ {
            let (post, r) = Chain::spec_implementation_set_paused(pre, sender, true);
            match r {
                Result::Err(e) => (pre, Result::Err(spec_impl_reject(e))),
                Result::Ok(_) => (post, Result::Ok(Seq::empty())),
            }
        } else if entrypoint == "unpause"@ {
            let (post, r) = Chain::spec_implementation_set_paused(pre, sender, false);
            match r {
                Result::Err(e) => (pre, Result::Err(spec_impl_reject(e))),
                Result::Ok(_) => (post, Result::Ok(Seq::empty())),
            }
        } else if entrypoint == "getPlayerData"@ {
            match codec::spec_read_address(parameter, 0) {
                Option::None => (pre, Result::Err(spec_impl_reject(ImplError::ParseParamsError))),
                Option::Some((player, _p1)) => {
                    match Chain::spec_implementation_get_player_data(pre, player) {
                        Result::Err(e) => (pre, Result::Err(spec_impl_reject(e))),
                        Result::Ok((l, b)) => (pre, Result::Ok(codec::spec_player_data_bytes(l, b))),
                    }
                },
            }
        } else if entrypoint == "view"@ {
            (pre, Result::Ok(spec_implementation_state_bytes(pre.implementation)))
        } else {
            (pre, Result::Err(CallErrorView::Missing))
        }
    }

    /// One named call on the implementation instance; see
    /// `spec_invoke_implementation`.
    pub fn invoke_implementation(
        &mut self,
        invoker: AccountAddress,
        sender: Address,
        entrypoint: &str,
        parameter: &Vec<u8>,
        amount: u64,
    ) -> (r: Result<Vec<u8>, CallError>)
        requires
            old(self).wf(),
        ensures
            final(self).wf(),
            final(self)@ == Chain::spec_invoke_implementation(
                old(self)@,
                invoker,
                sender,
                entrypoint@,
                parameter@,
                amount,
            ).0,
            spec_call_outcome(r) == Chain::spec_invoke_implementation(
                old(self)@,
                invoker,
                sender,
                entrypoint@,
                parameter@,
                amount,
            ).1,
    {
        if entry_is(entrypoint, "initialize") {
            match codec::read_contract(parameter, 0) {
                Option::None => Result::Err(impl_reject(ImplError::ParseParamsError)),
                Option::Some((proxy_address, p1)) => match codec::read_contract(parameter, p1) {
                    Option::None => Result::Err(impl_reject(ImplError::ParseParamsError)),
                    Option::Some((state_address, _p2)) => {
                        match self.implementation_initialize(
                            invoker,
                            proxy_address,
                            state_address,
                        ) {
                            Result::Err(e) => Result::Err(impl_reject(e)),
                            Result::Ok(()) => Result::Ok(Vec::new()),
                        }
                    },
                },
            }
        } else if entry_is(entrypoint, "updatePlayerState") {
            match codec::read_address(parameter, 0) {
                Option::None => Result::Err(impl_reject(ImplError::ParseParamsError)),
                Option::Some((player, p1)) => match codec::read_player_state(parameter, p1) {
                    Option::None => Result::Err(impl_reject(ImplError::ParseParamsError)),
                    Option::Some((state, _p2)) => {
                        match self.implementation_update_player_state(sender, player, state) {
                            Result::Err(e) => Result::Err(impl_reject(e)),
                            Result::Ok(()) => Result::Ok(Vec::new()),
                        }
                    },
                },
            }
        } else if entry_is(entrypoint, "updateBattleResult") {
            match codec::read_address(parameter, 0) {
                Option::None => Result::Err(impl_reject(ImplError::ParseParamsError)),
                Option::Some((player, p1)) => match codec::read_battle_result(parameter, p1) {
                    Option::None => Result::Err(impl_reject(ImplError::ParseParamsError)),
                    Option::Some((result, _p2)) => {
                        match self.implementation_update_battle_result(sender, player, result) {
                            Result::Err(e) => Result::Err(impl_reject(e)),
                            Result::Ok(()) => Result::Ok(Vec::new()),
                        }
                    },
                },
            }
        } else if entry_is(entrypoint, "addPlayer") {
            match codec::read_address(parameter, 0) {
                Option::None => Result::Err(impl_reject(ImplError::ParseParamsError)),
                Option::Some((player, _p1)) => {
                    match self.implementation_add_player(sender, player) {
                        Result::Err(e) => Result::Err(impl_reject(e)),
                        Result::Ok(()) => Result::Ok(Vec::new()),
                    }
                },
            }
        } else if entry_is(entrypoint, "updateAdmin") {
            match codec::read_address(parameter, 0) {
                Option::None => Result::Err(impl_reject(ImplError::ParseParamsError)),
                Option::Some((new_admin, _p1)) => {
                    match self.implementation_update_admin(sender, new_admin) {
                        Result::Err(e) => Result::Err(impl_reject(e)),
                        Result::Ok(()) => Result::Ok(Vec::new()),
                    }
                },
            }
        } else if entry_is(entrypoint, "pause") {
            match self.implementation_pause(sender) {
                Result::Err(e) => Result::Err(impl_reject(e)),
                Result::Ok(()) => Result::Ok(Vec::new()),
            }
        } else if entry_is(entrypoint, "unpause") {
            match self.implementation_unpause(sender) {
                Result::Err(e) => Result::Err(impl_reject(e)),
                Result::Ok(()) => Result::Ok(Vec::new()),
            }
        } else if entry_is(entrypoint, "getPlayerData") {
            match codec::read_address(parameter, 0) {
                Option::None => Result::Err(impl_reject(ImplError::ParseParamsError)),
                Option::Some((player, _p1)) => {
                    match self.implementation_get_player_data(player) {
                        Result::Err(e) => Result::Err(impl_reject(e)),
                        Result::Ok((l, b)) => Result::Ok(codec::player_data_bytes(l, b)),
                    }
                },
            }
        } else if entry_is(entrypoint, "view") {
            let fields = self.implementation_fields();
            Result::Ok(implementation_state_bytes(&fields))
        } else {
            Result::Err(CallError::Missing)
        }
    }

    /// One named call on the proxy instance, as an external caller reaches
    /// it: the proxy's own entries are handled in place, and any other
    /// name falls through to the catch-all, which re-invokes that same
    /// name on the current implementation address with the same parameter
    /// bytes and the same attached amount, the proxy's own address as
    /// sender. A success payload is returned unchanged; a structured
    /// rejection of the implementation is re-raised with the same reason
    /// code and the same payload; any other forwarding failure becomes the
    /// proxy's generic invocation error, without payload.
    pub open spec fn spec_invoke_proxy(
        pre: ChainView,
        invoker: AccountAddress,
        sender: Address,
        entrypoint: Seq<char>,
        parameter: Seq<u8>,
        amount: u64,
    ) -> (ChainView, Result<Seq<u8>, RejectView>) {
        if entrypoint == "initialize"@ {
            let (post, r) = Chain::spec_proxy_initialize(pre, invoker);
            match r {
                Result::Err(e) => (pre, Result::Err(spec_proxy_reject(e))),
                Result::Ok(_) => (post, Result::Ok(Seq::empty())),
            }
        } else if entrypoint == "updateAdmin"@ {
            match codec::spec_read_address(parameter, 0) {
                Option::None => (pre, Result::Err(spec_proxy_reject(ProxyError::ParseParams))),
                Option::Some((new_admin, _p1)) => {
                    let (post, r) = Chain::spec_proxy_update_admin(pre, sender, new_admin);
                    match r {
                        Result::Err(e) => (pre, Result::Err(spec_proxy_reject(e))),
                        Result::Ok(_) => (post, Result::Ok(Seq::empty())),
                    }
                },
            }
        } else if entrypoint == "updateImplementation"@ {
            match codec::spec_read_contract(parameter, 0) {
                Option::None => (pre, Result::Err(spec_proxy_reject(ProxyError::ParseParams))),
                Option::Some((new_implementation, _p1)) => {
                    let (post, r) = Chain::spec_proxy_update_implementation(
                        pre,
                        sender,
                        new_implementation,
                    );
                    match r {
                        Result::Err(e) => (pre, Result::Err(spec_proxy_reject(e))),
                        Result::Ok(_) => (post, Result::Ok(Seq::empty())),
                    }
                },
            }
        } else if entrypoint == "logEvent"@ {
            let (post, r) = Chain::spec_proxy_log_event(pre, sender, parameter);
            match r {
                Result::Err(e) => (pre, Result::Err(spec_proxy_reject(e))),
                Result::Ok(_) => (post, Result::Ok(Seq::empty())),
            }
        } else if entrypoint == "view"@ {
            (pre, Result::Ok(spec_proxy_state_bytes(pre.proxy)))
        } else {
            Chain::spec_proxy_fallback(pre, invoker, entrypoint, parameter, amount)
        }
    }

    /// The catch-all: forwards the call verbatim to the current
    /// implementation address and passes the outcome through byte-exactly.
    pub open spec fn spec_proxy_fallback(
        pre: ChainView,
        invoker: AccountAddress,
        entrypoint: Seq<char>,
        parameter: Seq<u8>,
        amount: u64,
    ) -> (ChainView, Result<Seq<u8>, RejectView>) {
        if pre.proxy.implementation_address != pre.implementation_address {
            (
                pre,
                Result::Err(
                    RejectView {
                        code: ProxyError::InvokeContractError.spec_reject_code(),
                        payload: Option::None,
                    },
                ),
            )
        } else {
            let (post, r) = Chain::spec_invoke_implementation(
                pre,
                invoker,
                Address::Contract(pre.proxy_address),
                entrypoint,
                parameter,
                amount,
            );
            match r {
                Result::Ok(bytes) => (post, Result::Ok(bytes)),
                Result::Err(CallErrorView::LogicReject { reason, payload }) => (
                    post,
                    Result::Err(RejectView { code: reason, payload: Option::Some(payload) }),
                ),
                Result::Err(CallErrorView::Missing) => (
                    post,
                    Result::Err(
                        RejectView {
                            code: ProxyError::InvokeContractError.spec_reject_code(),
                            payload: Option::None,
                        },
                    ),
                ),
            }
        }
    }

    /// One named call on the proxy instance; see `spec_invoke_proxy`.
    pub fn invoke_proxy(
        &mut self,
        invoker: AccountAddress,
        sender: Address,
        entrypoint: &str,
        parameter: &Vec<u8>,
        amount: u64,
    ) -> (r: Result<Vec<u8>, Reject>)
        requires
            old(self).wf(),
        ensures
            final(self).wf(),
            final(self)@ == Chain::spec_invoke_proxy(
                old(self)@,
                invoker,
                sender,
                entrypoint@,
                parameter@,
                amount,
            ).0,
            spec_invoke_outcome(r) == Chain::spec_invoke_proxy(
                old(self)@,
                invoker,
                sender,
                entrypoint@,
                parameter@,
                amount,
            ).1,
    {
        if entry_is(entrypoint, "initialize") {
            match self.proxy_initialize(invoker) {
                Result::Err(e) => Result::Err(proxy_reject(e)),
                Result::Ok(()) => Result::Ok(Vec::new()),
            }
        } else if entry_is(entrypoint, "updateAdmin") {
            match codec::read_address(parameter, 0) {
                Option::None => Result::Err(proxy_reject(ProxyError::ParseParams)),
                Option::Some((new_admin, _p1)) => {
                    match self.proxy_update_admin(sender, new_admin) {
                        Result::Err(e) => Result::Err(proxy_reject(e)),
                        Result::Ok(()) => Result::Ok(Vec::new()),
                    }
                },
            }
        } else if entry_is(entrypoint, "updateImplementation") {
            match codec::read_contract(parameter, 0) {
                Option::None => Result::Err(proxy_reject(ProxyError::ParseParams)),
                Option::Some((new_implementation, _p1)) => {
                    match self.proxy_update_implementation(sender, new_implementation) {
                        Result::Err(e) => Result::Err(proxy_reject(e)),
                        Result::Ok(()) => Result::Ok(Vec::new()),
                    }
                },
            }
        } else if entry_is(entrypoint, "logEvent") {
            let raw = copy_bytes(parameter);
            match self.proxy_log_event(sender, raw) {
                Result::Err(e) => Result::Err(proxy_reject(e)),
                Result::Ok(()) => Result::Ok(Vec::new()),
            }
        } else if entry_is(entrypoint, "view") {
            let fields = self.proxy_fields();
            Result::Ok(proxy_state_bytes(&fields))
        } else {
            let forward_to = self.proxy_fields().implementation_address;
            if forward_to != self.implementation_address() {
                return Result::Err(
                    Reject {
                        code: ProxyError::InvokeContractError.reject_code(),
                        payload: Option::None,
                    },
                );
            }
            let own_address = Address::Contract(self.proxy_address());
            match self.invoke_implementation(invoker, own_address, entrypoint, parameter, amount) {
                Result::Ok(bytes) => Result::Ok(bytes),
                Result::Err(CallError::LogicReject { reason, payload }) => Result::Err(
                    Reject { code: reason, payload: Option::Some(payload) },
                ),
                Result::Err(CallError::Missing) => Result::Err(
                    Reject {
                        code: ProxyError::InvokeContractError.reject_code(),
                        payload: Option::None,
                    },
                ),
            }
        }
    }
}

/// A fresh buffer holding the same bytes.
pub fn copy_bytes(b: &Vec<u8>) -> (r: Vec<u8>)
    ensures
        r@ =~= b@,
{
    let mut out: Vec<u8> = Vec::new();
    let mut i: usize = 0;
    while i < b.len()
        invariant
            i <= b@.len(),
            out@ =~= b@.subrange(0, i as int),
        decreases b@.len() - i,
    {
        out.push(b[i]);
        proof {
            assert(out@ =~= b@.subrange(0, i + 1 as int));
        }
        i = i + 1;
    }
    proof {
        assert(b@.subrange(0, b@.len() as int) =~= b@);
    }
    out
}

} // verus!
