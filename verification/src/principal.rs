//! Principal data types: composition of an address version, an opaque
//! address, and optionally a validated contract name.
//!
//! This module performs no validation of its own: the address parts are
//! treated as already-valid opaque values, and a contract principal carries a
//! [`ContractName`] that the validating constructor produced. All failure is
//! pushed to the validation layer, so every constructor here is total.

use vstd::prelude::*;
use crate::contract_name::ContractName;

verus! {

/// Tag identifying the network / address kind a raw address belongs to.
#[derive(Clone, Copy, Debug, PartialEq, Eq)]
pub enum AddressVersion {
    /// Single-signature account on the main network.
    MainnetSingleSig,
    /// Multi-signature account on the main network.
    MainnetMultiSig,
    /// Single-signature account on the test network.
    TestnetSingleSig,
    /// Multi-signature account on the test network.
    TestnetMultiSig,
}

/// Opaque fixed-size account identifier (for example, the hash of a public
/// key). Its bytes are already validated by the address layer; this module
/// places no constraints on them beyond identity.
#[derive(Clone, Copy, Debug, PartialEq, Eq)]
pub struct StacksAddress(pub [u8; 20]);

/// Standard principal data type: an address version paired with an address.
#[derive(Clone, Copy, Debug, PartialEq, Eq)]
pub struct StandardPrincipalData(pub AddressVersion, pub StacksAddress);

impl StandardPrincipalData {
    /// Create a new standard principal data type from the provided address
    /// version and stacks address. Total: stores the pair by value.
    pub fn new(version: AddressVersion, address: StacksAddress) -> (principal: Self)
        ensures
            principal.0 == version,
            principal.1 == address,
    {
        StandardPrincipalData(version, address)
    }
}

/// Principal Data type
pub enum PrincipalData {
    /// Standard principal data type: a user / account identity.
    Standard(StandardPrincipalData),
    /// Contract principal data type: a deployed contract identity, scoped to
    /// the account that deployed it.
    Contract(StandardPrincipalData, ContractName),
}

} // verus!
