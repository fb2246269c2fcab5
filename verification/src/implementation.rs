//! The `Implementation` component: the replaceable business-logic tier.
//!
//! It keeps its own admin identity and, once initialized, the addresses of
//! the proxy and the state component. The business mutations themselves
//! (player lifecycle, battle results, pausing) reach the state component
//! through cross-component calls and live in the host model of the `chain`
//! module; this module holds the component's own durable fields and the
//! entry points that touch nothing but them.

use vstd::prelude::*;
use crate::addr::{AccountAddress, Address, ContractAddress};
use crate::codec;
use crate::error::ImplError;

verus! {

/// The pair of addresses the implementation cooperates with, set exactly
/// once.
#[derive(Clone, Copy, PartialEq, Eq, Structural, Debug)]
pub enum ProtocolAddressesImplementation {
    UnInitialized,
    Initialized { proxy_address: ContractAddress, state_address: ContractAddress },
}

/// The `Implementation` component's durable fields. A plain record with no
/// internal invariant; `view` returns it whole.
#[derive(Clone, Copy, PartialEq, Eq, Structural, Debug)]
pub struct Implementation {
    /// The account that deployed this instance; fixed for its lifetime.
    pub deployer: AccountAddress,
    /// The admin may rotate itself, pause and unpause; independent of the
    /// proxy's admin.
    pub admin: Address,
    /// Set exactly once by `initialize`.
    pub protocol_addresses: ProtocolAddressesImplementation,
}

/// Ensures the call comes from the recorded proxy contract.
pub fn only_proxy(proxy_address: ContractAddress, sender: Address) -> (r: Result<(), ImplError>)
    ensures
        r == (if sender.spec_matches_contract(proxy_address) {
            Result::<(), ImplError>::Ok(())
        } else {
            Result::<(), ImplError>::Err(ImplError::OnlyProxy)
        }),
{
    if sender.matches_contract(&proxy_address) {
        Result::Ok(())
    } else {
        Result::Err(ImplError::OnlyProxy)
    }
}

impl Implementation {
    /// The durable fields of a freshly deployed implementation: the
    /// deploying account is recorded and becomes the first admin.
    pub open spec fn spec_new(deployer: AccountAddress) -> Implementation {
        Implementation {
            deployer,
            admin: Address::Account(deployer),
            protocol_addresses: ProtocolAddressesImplementation::UnInitialized,
        }
    }

    /// Deploys an implementation component and logs a new-admin event for
    /// the deploying account.
    pub fn new(deployer: AccountAddress, log: &mut Vec<Vec<u8>>) -> (s: Implementation)
        ensures
            s == Implementation::spec_new(deployer),
            final(log).deep_view() =~= old(log).deep_view().push(
                codec::spec_new_admin_event_bytes(Address::Account(deployer)),
            ),
    {
        let admin = Address::Account(deployer);
        codec::append_log(log, codec::new_admin_event_bytes(&admin));
        Implementation {
            deployer,
            admin,
            protocol_addresses: ProtocolAddressesImplementation::UnInitialized,
        }
    }

    /// `initialize`: sets the proxy and state addresses, exactly once. A
    /// second call fails `AlreadyInitialized` whoever sends it; a first
    /// call by a transaction the recorded deployer did not start fails
    /// `OnlyDeployer`.
    pub open spec fn spec_initialize(
        pre: Implementation,
        invoker: AccountAddress,
        proxy_address: ContractAddress,
        state_address: ContractAddress,
    ) -> (Implementation, Result<(), ImplError>) {
        if !(pre.protocol_addresses is UnInitialized) {
            (pre, Result::Err(ImplError::AlreadyInitialized))
        } else if invoker != pre.deployer {
            (pre, Result::Err(ImplError::OnlyDeployer))
        } else {
            (
                Implementation {
                    protocol_addresses: ProtocolAddressesImplementation::Initialized {
                        proxy_address,
                        state_address,
                    },
                    ..pre
                },
                Result::Ok(()),
            )
        }
    }

    /// Sets the proxy and state addresses, exactly once.
    ///
    /// `invoker` is the account that started the transaction, supplied by
    /// the host; requiring it to equal the recorded deployer keeps a
    /// stranger from claiming the component before the proxy does.
    pub fn initialize(
        &mut self,
        invoker: AccountAddress,
        proxy_address: ContractAddress,
        state_address: ContractAddress,
    ) -> (r: Result<(), ImplError>)
        ensures
            *final(self) == Implementation::spec_initialize(
                *old(self),
                invoker,
                proxy_address,
                state_address,
            ).0,
            r == Implementation::spec_initialize(
                *old(self),
                invoker,
                proxy_address,
                state_address,
            ).1,
    {
        match self.protocol_addresses {
            ProtocolAddressesImplementation::Initialized { .. } => Result::Err(
                ImplError::AlreadyInitialized,
            ),
            ProtocolAddressesImplementation::UnInitialized => {
                if invoker != self.deployer {
                    Result::Err(ImplError::OnlyDeployer)
                } else {
                    self.protocol_addresses = ProtocolAddressesImplementation::Initialized {
                        proxy_address,
                        state_address,
                    };
                    Result::Ok(())
                }
            },
        }
    }

    /// The recorded (proxy, state) pair, or `UnInitialized` before
    /// `initialize` has succeeded.
    pub open spec fn spec_protocol_pair(pre: Implementation) -> Result<
        (ContractAddress, ContractAddress),
        ImplError,
    > {
        match pre.protocol_addresses {
            ProtocolAddressesImplementation::UnInitialized => Result::Err(ImplError::UnInitialized),
            ProtocolAddressesImplementation::Initialized { proxy_address, state_address } => {
                Result::Ok((proxy_address, state_address))
            },
        }
    }

    /// The recorded (proxy, state) pair, or `UnInitialized` before
    /// `initialize` has succeeded.
    pub fn protocol_pair(&self) -> (r: Result<(ContractAddress, ContractAddress), ImplError>)
        ensures
            r == Implementation::spec_protocol_pair(*self),
    {
        match self.protocol_addresses {
            ProtocolAddressesImplementation::UnInitialized => Result::Err(ImplError::UnInitialized),
            ProtocolAddressesImplementation::Initialized { proxy_address, state_address } => {
                Result::Ok((proxy_address, state_address))
            },
        }
    }

    /// `updateAdmin`: replaces the admin; only the current admin may.
    pub open spec fn spec_update_admin(pre: Implementation, sender: Address, new_admin: Address) -> (
        Implementation,
        Result<(), ImplError>,
    ) {
        if sender != pre.admin {
            (pre, Result::Err(ImplError::OnlyAdmin))
        } else {
            (Implementation { admin: new_admin, ..pre }, Result::Ok(()))
        }
    }

    /// Replaces the admin and logs a new-admin event; current admin only.
    /// Works whether or not the addresses were initialized.
    pub fn update_admin(&mut self, sender: Address, new_admin: Address, log: &mut Vec<Vec<u8>>) -> (r:
        Result<(), ImplError>)
        ensures
            *final(self) == Implementation::spec_update_admin(*old(self), sender, new_admin).0,
            r == Implementation::spec_update_admin(*old(self), sender, new_admin).1,
            final(log).deep_view() =~= (if r is Ok {
                old(log).deep_view().push(codec::spec_new_admin_event_bytes(new_admin))
            } else {
                old(log).deep_view()
            }),
    {
        if sender != self.admin {
            Result::Err(ImplError::OnlyAdmin)
        } else {
            self.admin = new_admin;
            codec::append_log(log, codec::new_admin_event_bytes(&new_admin));
            Result::Ok(())
        }
    }

    /// `view`: the component's full durable state, with no side effect.
    pub fn view_state(&self) -> (r: Implementation)
        ensures
            r == *self,
    {
        *self
    }
}

} // verus!
