//! Addressable references and the identifiers of stored code.

use crate::error::Error;
use vstd::prelude::*;

verus! {

/// The address of one hash-addressed item of global state.
pub type HashAddr = [u8; 32];

/// The identifier of one immutable contract.
pub type ContractHash = [u8; 32];

/// The identifier of a contract package: a collection of contract versions.
pub type ContractPackageHash = [u8; 32];

/// A reference to a storage location or a purse, with the rights it grants.
#[derive(Clone, Copy, Debug, PartialEq, Eq)]
pub struct URef {
    pub addr: [u8; 32],
    pub access_rights: u8,
}

/// An addressable reference. Only `Hash` denotes the address of code.
#[derive(Clone, Copy, Debug, PartialEq, Eq)]
pub enum Key {
    /// The address of an account.
    Account([u8; 32]),
    /// The address of stored code, or of a package of it.
    Hash(HashAddr),
    /// A storage location or a purse.
    URef(URef),
}

impl Key {
    /// The key that denotes the code stored under `hash`.
    pub fn from_hash(hash: HashAddr) -> (key: Key)
        ensures
            key == Key::Hash(hash),
    {
        Key::Hash(hash)
    }

    /// The code address that this key denotes, if it denotes one.
    pub open spec fn spec_into_hash(self) -> Option<HashAddr> {
        match self {
            Key::Hash(hash) => Some(hash),
            _ => None,
        }
    }

    /// Returns the address inside a `Hash` key, and `None` for every other
    /// kind of key.
    pub fn into_hash(self) -> (hash: Option<HashAddr>)
        ensures
            hash == self.spec_into_hash(),
    {
        match self {
            Key::Hash(hash) => Some(hash),
            _ => None,
        }
    }

    /// Reads the key as the address of contract code. Fails with
    /// `ConvertingKeyIntoHash` exactly when the key is not a `Hash` key.
    pub fn into_contract_code_address(self) -> (res: Result<ContractHash, Error>)
        ensures
            match self {
                Key::Hash(hash) => res == Ok::<ContractHash, Error>(hash),
                _ => res == Err::<ContractHash, Error>(Error::ConvertingKeyIntoHash),
            },
    {
        match self.into_hash() {
            Some(hash) => Ok(hash),
            None => Err(Error::ConvertingKeyIntoHash),
        }
    }
}

} // verus!
