//! The structured failures each component can return.
//!
//! Every entry point returns an explicit error, never partial state: the
//! host rolls back the whole synchronous call chain when any call in it
//! fails. When a callee rejects, the host hands the caller a numeric reason
//! code together with the serialized error as payload; the reason code of a
//! variant is `-(ordinal + 1)`, counting variants from zero in declaration
//! order, and the payload is the one-byte ordinal.

use vstd::prelude::*;

verus! {

/// The failures of the `State` component.
#[derive(Clone, Copy, PartialEq, Eq, Structural, Debug)]
pub enum StateError {
    /// The parameter bytes do not decode to what the entry point expects.
    ParseParamsError,
    /// A cross-component call could not be carried out.
    InvokeContractError,
    /// The pause flag is set.
    ContractPaused,
    /// `initialize` was already called successfully.
    AlreadyInitialized,
    /// `initialize` has not been called successfully yet.
    UnInitialized,
    /// The sender is not the recorded implementation contract.
    OnlyImplementation,
    /// The sender is not the recorded proxy contract.
    OnlyProxy,
    /// A read from the state contract did not resolve.
    StateInvokeError,
    /// The transaction was not started by the recorded deployer.
    OnlyDeployer,
}

impl StateError {
    /// The variant's position in declaration order.
    pub open spec fn spec_ordinal(self) -> int {
        match self {
            StateError::ParseParamsError => 0,
            StateError::InvokeContractError => 1,
            StateError::ContractPaused => 2,
            StateError::AlreadyInitialized => 3,
            StateError::UnInitialized => 4,
            StateError::OnlyImplementation => 5,
            StateError::OnlyProxy => 6,
            StateError::StateInvokeError => 7,
            StateError::OnlyDeployer => 8,
        }
    }

    /// The one-byte serialization of this error.
    pub fn ordinal_byte(&self) -> (b: u8)
        ensures
            b as int == self.spec_ordinal(),
    {
        match self {
            StateError::ParseParamsError => 0,
            StateError::InvokeContractError => 1,
            StateError::ContractPaused => 2,
            StateError::AlreadyInitialized => 3,
            StateError::UnInitialized => 4,
            StateError::OnlyImplementation => 5,
            StateError::OnlyProxy => 6,
            StateError::StateInvokeError => 7,
            StateError::OnlyDeployer => 8,
        }
    }

    /// The reason code the host reports when an entry rejects with this
    /// error.
    pub open spec fn spec_reject_code(self) -> int {
        -1 - self.spec_ordinal()
    }

    /// The reason code the host reports when an entry rejects with this
    /// error.
    pub fn reject_code(&self) -> (c: i32)
        ensures
            c as int == self.spec_reject_code(),
    {
        -1 - (self.ordinal_byte() as i32)
    }
}

/// The failures of the `Implementation` component.
#[derive(Clone, Copy, PartialEq, Eq, Structural, Debug)]
pub enum ImplError {
    /// The parameter bytes do not decode to what the entry point expects.
    ParseParamsError,
    /// The event log cannot take another record.
    LogFull,
    /// The event record is malformed.
    LogMalformed,
    /// A cross-component call could not be carried out.
    InvokeContractError,
    /// The pause flag of the state component is set.
    ContractPaused,
    /// `initialize` was already called successfully.
    AlreadyInitialized,
    /// `initialize` has not been called successfully yet.
    UnInitialized,
    /// The sender is not the recorded proxy contract.
    OnlyProxy,
    /// A read from the state contract did not resolve.
    StateInvokeError,
    /// The sender is not the current admin.
    OnlyAdmin,
    /// The player already has a durable record.
    AlreadyAdded,
    /// The transaction was not started by the recorded deployer.
    OnlyDeployer,
}

impl ImplError {
    /// The variant's position in declaration order.
    pub open spec fn spec_ordinal(self) -> int {
        match self {
            ImplError::ParseParamsError => 0,
            ImplError::LogFull => 1,
            ImplError::LogMalformed => 2,
            ImplError::InvokeContractError => 3,
            ImplError::ContractPaused => 4,
            ImplError::AlreadyInitialized => 5,
            ImplError::UnInitialized => 6,
            ImplError::OnlyProxy => 7,
            ImplError::StateInvokeError => 8,
            ImplError::OnlyAdmin => 9,
            ImplError::AlreadyAdded => 10,
            ImplError::OnlyDeployer => 11,
        }
    }

    /// The one-byte serialization of this error.
    pub fn ordinal_byte(&self) -> (b: u8)
        ensures
            b as int == self.spec_ordinal(),
    {
        match self {
            ImplError::ParseParamsError => 0,
            ImplError::LogFull => 1,
            ImplError::LogMalformed => 2,
            ImplError::InvokeContractError => 3,
            ImplError::ContractPaused => 4,
            ImplError::AlreadyInitialized => 5,
            ImplError::UnInitialized => 6,
            ImplError::OnlyProxy => 7,
            ImplError::StateInvokeError => 8,
            ImplError::OnlyAdmin => 9,
            ImplError::AlreadyAdded => 10,
            ImplError::OnlyDeployer => 11,
        }
    }

    /// The reason code the host reports when an entry rejects with this
    /// error.
    pub open spec fn spec_reject_code(self) -> int {
        -1 - self.spec_ordinal()
    }

    /// The reason code the host reports when an entry rejects with this
    /// error.
    pub fn reject_code(&self) -> (c: i32)
        ensures
            c as int == self.spec_reject_code(),
    {
        -1 - (self.ordinal_byte() as i32)
    }
}

/// The failures of the `Proxy` component.
#[derive(Clone, Copy, PartialEq, Eq, Structural, Debug)]
pub enum ProxyError {
    /// The parameter bytes do not decode to what the entry point expects.
    ParseParams,
    /// The event log cannot take another record.
    LogFull,
    /// The event record is malformed.
    LogMalformed,
    /// A cross-component call could not be carried out.
    InvokeContractError,
    /// A transfer could not be carried out.
    InvokeTransferError,
    /// The pause flag of the state component is set.
    ContractPaused,
    /// `initialize` was already called successfully.
    AlreadyInitialized,
    /// `initialize` has not been called successfully yet.
    UnInitialized,
    /// The sender is not the recorded implementation contract.
    OnlyImplementation,
    /// The sender is not the recorded proxy contract.
    OnlyProxy,
    /// A read from the state contract did not resolve.
    StateInvokeError,
    /// The sender is not the current admin.
    OnlyAdmin,
}

impl ProxyError {
    /// The variant's position in declaration order.
    pub open spec fn spec_ordinal(self) -> int {
        match self {
            ProxyError::ParseParams => 0,
            ProxyError::LogFull => 1,
            ProxyError::LogMalformed => 2,
            ProxyError::InvokeContractError => 3,
            ProxyError::InvokeTransferError => 4,
            ProxyError::ContractPaused => 5,
            ProxyError::AlreadyInitialized => 6,
            ProxyError::UnInitialized => 7,
            ProxyError::OnlyImplementation => 8,
            ProxyError::OnlyProxy => 9,
            ProxyError::StateInvokeError => 10,
            ProxyError::OnlyAdmin => 11,
        }
    }

    /// The one-byte serialization of this error.
    pub fn ordinal_byte(&self) -> (b: u8)
        ensures
            b as int == self.spec_ordinal(),
    {
        match self {
            ProxyError::ParseParams => 0,
            ProxyError::LogFull => 1,
            ProxyError::LogMalformed => 2,
            ProxyError::InvokeContractError => 3,
            ProxyError::InvokeTransferError => 4,
            ProxyError::ContractPaused => 5,
            ProxyError::AlreadyInitialized => 6,
            ProxyError::UnInitialized => 7,
            ProxyError::OnlyImplementation => 8,
            ProxyError::OnlyProxy => 9,
            ProxyError::StateInvokeError => 10,
            ProxyError::OnlyAdmin => 11,
        }
    }

    /// The reason code the host reports when an entry rejects with this
    /// error.
    pub open spec fn spec_reject_code(self) -> int {
        -1 - self.spec_ordinal()
    }

    /// The reason code the host reports when an entry rejects with this
    /// error.
    pub fn reject_code(&self) -> (c: i32)
        ensures
            c as int == self.spec_reject_code(),
    {
        -1 - (self.ordinal_byte() as i32)
    }
}

} // verus!
