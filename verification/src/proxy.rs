//! The `Proxy` component: the stable public entry point.
//!
//! It records the implementation and state addresses at construction, keeps
//! its own admin identity, lets the implementation log events under the
//! proxy's address, and forwards every unrecognized call verbatim to the
//! current implementation. Bootstrapping the other two components and the
//! forwarding itself are cross-component calls and live in the host model
//! of the `chain` module.

use vstd::prelude::*;
use crate::addr::{AccountAddress, Address, ContractAddress};
use crate::codec;
use crate::error::ProxyError;

verus! {

/// The `Proxy` component's durable fields. A plain record with no internal
/// invariant; `view` returns it whole.
#[derive(Clone, Copy, PartialEq, Eq, Structural, Debug)]
pub struct Proxy {
    /// The admin may rotate itself and swap the implementation; independent
    /// of the implementation's admin.
    pub admin: Address,
    /// The implementation that unrecognized calls are forwarded to.
    pub implementation_address: ContractAddress,
    /// The state component the protocol was deployed with.
    pub state_address: ContractAddress,
}

/// Ensures the call comes from the recorded implementation contract.
pub fn only_implementation(implementation_address: ContractAddress, sender: Address) -> (r: Result<
    (),
    ProxyError,
>)
    ensures
        r == (if sender.spec_matches_contract(implementation_address) {
            Result::<(), ProxyError>::Ok(())
        } else {
            Result::<(), ProxyError>::Err(ProxyError::OnlyImplementation)
        }),
{
    if sender.matches_contract(&implementation_address) {
        Result::Ok(())
    } else {
        Result::Err(ProxyError::OnlyImplementation)
    }
}

impl Proxy {
    /// The durable fields of a freshly deployed proxy: both peer addresses
    /// are recorded (the peers need not be live contracts yet) and the
    /// deploying account becomes the first admin.
    pub open spec fn spec_new(
        deployer: AccountAddress,
        implementation_address: ContractAddress,
        state_address: ContractAddress,
    ) -> Proxy {
        Proxy { admin: Address::Account(deployer), implementation_address, state_address }
    }

    /// Deploys a proxy component.
    pub fn new(
        deployer: AccountAddress,
        implementation_address: ContractAddress,
        state_address: ContractAddress,
    ) -> (s: Proxy)
        ensures
            s == Proxy::spec_new(deployer, implementation_address, state_address),
    {
        Proxy { admin: Address::Account(deployer), implementation_address, state_address }
    }

    /// `updateAdmin`: replaces the admin; only the current admin may.
    pub open spec fn spec_update_admin(pre: Proxy, sender: Address, new_admin: Address) -> (
        Proxy,
        Result<(), ProxyError>,
    ) {
        if sender != pre.admin {
            (pre, Result::Err(ProxyError::OnlyAdmin))
        } else {
            (Proxy { admin: new_admin, ..pre }, Result::Ok(()))
        }
    }

    /// Replaces the admin and logs a new-admin event; current admin only.
    pub fn update_admin(&mut self, sender: Address, new_admin: Address, log: &mut Vec<Vec<u8>>) -> (r:
        Result<(), ProxyError>)
        ensures
            *final(self) == Proxy::spec_update_admin(*old(self), sender, new_admin).0,
            r == Proxy::spec_update_admin(*old(self), sender, new_admin).1,
            final(log).deep_view() =~= (if r is Ok {
                old(log).deep_view().push(codec::spec_new_admin_event_bytes(new_admin))
            } else {
                old(log).deep_view()
            }),
    {
        if sender != self.admin {
            Result::Err(ProxyError::OnlyAdmin)
        } else {
            self.admin = new_admin;
            codec::append_log(log, codec::new_admin_event_bytes(&new_admin));
            Result::Ok(())
        }
    }

    /// What `logEvent` does: appends the raw parameter bytes verbatim as a
    /// log record, so the implementation's events appear under the proxy's
    /// address. Only the recorded implementation may call it.
    pub open spec fn spec_log_event(pre: Proxy, sender: Address) -> Result<(), ProxyError> {
        if sender.spec_matches_contract(pre.implementation_address) {
            Result::Ok(())
        } else {
            Result::Err(ProxyError::OnlyImplementation)
        }
    }

    /// Appends the raw bytes verbatim to the proxy's event log;
    /// implementation only.
    pub fn log_event(&self, sender: Address, raw: Vec<u8>, log: &mut Vec<Vec<u8>>) -> (r: Result<
        (),
        ProxyError,
    >)
        ensures
            r == Proxy::spec_log_event(*self, sender),
            final(log).deep_view() =~= (if r is Ok {
                old(log).deep_view().push(raw@)
            } else {
                old(log).deep_view()
            }),
    {
        match only_implementation(self.implementation_address, sender) {
            Result::Err(e) => Result::Err(e),
            Result::Ok(()) => {
                codec::append_log(log, raw);
                Result::Ok(())
            },
        }
    }

    /// `view`: the component's full durable state, with no side effect.
    pub fn view_state(&self) -> (r: Proxy)
        ensures
            r == *self,
    {
        *self
    }
}

} // verus!
