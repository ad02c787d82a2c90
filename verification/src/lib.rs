//! Identity model for a blockchain node: validated contract names and
//! principal (account / contract) data types.
//!
//! `contract_name` validates raw strings against the contract-name grammar
//! and wraps accepted ones in an immutable [`contract_name::ContractName`].
//! `principal` composes an address version, an opaque address, and
//! optionally a validated name into principal values.

pub mod contract_name;
pub mod principal;
