//! The executable part of a deploy, and what it resolves to.

use crate::account::Account;
use crate::error::DecodeError;
use crate::error::Error;
use crate::key::ContractHash;
use crate::key::ContractPackageHash;
use crate::key::Key;
use crate::runtime_args::decoded_runtime_args;
use crate::runtime_args::deserialize_runtime_args;
use crate::runtime_args::RuntimeArgs;
use vstd::prelude::*;

verus! {

/// The number of one version of a contract package.
pub type ContractVersion = u32;

/// The entry point of an item that carries or implies its own code.
pub open spec fn implicit_entry_point() -> Seq<char> {
    "call"@
}

/// Reads `casper_types::contracts::DEFAULT_ENTRY_POINT_NAME`, the name
/// reserved for the top-level code of an item. It is taken on trust that the
/// constant is the string `call`, as its declaration shows.
#[verifier::external_body]
fn default_entry_point_name() -> (name: &'static str)
    ensures
        name@ == implicit_entry_point(),
{
    casper_types::contracts::DEFAULT_ENTRY_POINT_NAME
}

/// What a deploy asks to run. Exactly one variant is active, and it fixes
/// which fields there are.
#[derive(Clone, Debug, PartialEq, Eq)]
pub enum ExecutableDeployItem {
    /// Code carried by the deploy itself.
    ModuleBytes { module_bytes: Vec<u8>, args: Vec<u8> },
    /// A stored contract, by its hash.
    StoredContractByHash { hash: ContractHash, entry_point: String, args: Vec<u8> },
    /// A stored contract, by a name in the account's named keys.
    StoredContractByName { name: String, entry_point: String, args: Vec<u8> },
    /// One version of a package, the package by a name in the account's
    /// named keys. Without a version, the active one is meant.
    StoredVersionedContractByName {
        name: String,
        version: Option<ContractVersion>,
        entry_point: String,
        args: Vec<u8>,
    },
    /// One version of a package, the package by its hash. Without a
    /// version, the active one is meant.
    StoredVersionedContractByHash {
        hash: ContractPackageHash,
        version: Option<ContractVersion>,
        entry_point: String,
        args: Vec<u8>,
    },
    /// A transfer of value, which runs no stored code.
    TransferToAccount { args: Vec<u8> },
}

/// How an item says where its code is.
pub enum CodeReference {
    /// The item names no stored code.
    Unaddressed,
    /// The item gives the address itself.
    ByHash(ContractHash),
    /// The item gives a name to look up in the account's named keys.
    ByName(Seq<char>),
}

impl ExecutableDeployItem {
    /// The item's argument bytes.
    pub open spec fn spec_args(&self) -> Seq<u8> {
        match self {
            ExecutableDeployItem::ModuleBytes { args, .. } => args@,
            ExecutableDeployItem::StoredContractByHash { args, .. } => args@,
            ExecutableDeployItem::StoredContractByName { args, .. } => args@,
            ExecutableDeployItem::StoredVersionedContractByName { args, .. } => args@,
            ExecutableDeployItem::StoredVersionedContractByHash { args, .. } => args@,
            ExecutableDeployItem::TransferToAccount { args } => args@,
        }
    }

    /// The entry point that the item targets: its `entry_point` field as it
    /// stands, or the implicit one where it has no such field.
    pub open spec fn spec_entry_point(&self) -> Seq<char> {
        match self {
            ExecutableDeployItem::ModuleBytes { .. } => implicit_entry_point(),
            ExecutableDeployItem::TransferToAccount { .. } => implicit_entry_point(),
            ExecutableDeployItem::StoredContractByHash { entry_point, .. } => entry_point@,
            ExecutableDeployItem::StoredContractByName { entry_point, .. } => entry_point@,
            ExecutableDeployItem::StoredVersionedContractByName { entry_point, .. } => entry_point@,
            ExecutableDeployItem::StoredVersionedContractByHash { entry_point, .. } => entry_point@,
        }
    }

    /// How the item refers to its code.
    pub open spec fn code_reference(&self) -> CodeReference {
        match self {
            ExecutableDeployItem::ModuleBytes { .. } => CodeReference::Unaddressed,
            ExecutableDeployItem::TransferToAccount { .. } => CodeReference::Unaddressed,
            ExecutableDeployItem::StoredContractByHash { hash, .. } => CodeReference::ByHash(*hash),
            ExecutableDeployItem::StoredVersionedContractByHash { hash, .. } => CodeReference::ByHash(
                *hash,
            ),
            ExecutableDeployItem::StoredContractByName { name, .. } => CodeReference::ByName(name@),
            ExecutableDeployItem::StoredVersionedContractByName { name, .. } => CodeReference::ByName(
                name@,
            ),
        }
    }

    /// Whether `res` is what resolving the item's code address gives, for an
    /// account whose named keys are `named_keys`.
    pub open spec fn resolves_to(
        &self,
        named_keys: Map<Seq<char>, Key>,
        res: Result<Option<Key>, Error>,
    ) -> bool {
        match self.code_reference() {
            CodeReference::Unaddressed => res == Ok::<Option<Key>, Error>(None),
            CodeReference::ByHash(hash) => res == Ok::<Option<Key>, Error>(Some(Key::Hash(hash))),
            CodeReference::ByName(name) => if named_keys.contains_key(name) {
                res == Ok::<Option<Key>, Error>(Some(named_keys[name]))
            } else {
                res matches Err(Error::NamedKeyNotFound(missing)) && missing@ == name
            },
        }
    }

    /// Whether `res` is what the codec makes of the item's argument bytes:
    /// the decoded arguments, or the codec's error.
    pub open spec fn decodes_to(&self, res: Result<RuntimeArgs, DecodeError>) -> bool {
        match res {
            Ok(args) => decoded_runtime_args(self.spec_args()) == Ok::<
                Seq<(Seq<char>, Seq<char>, Seq<u8>)>,
                DecodeError,
            >(args@),
            Err(e) => decoded_runtime_args(self.spec_args()) == Err::<
                Seq<(Seq<char>, Seq<char>, Seq<u8>)>,
                DecodeError,
            >(e),
        }
    }

    /// Resolves the address of the code that the item asks to run.
    ///
    /// An item that gives a hash resolves to the `Hash` key of that hash,
    /// whatever the account holds. An item that gives a name resolves to a
    /// copy of the key that the account's named keys hold under that name,
    /// and fails with `NamedKeyNotFound` of that name exactly when they hold
    /// none. `ModuleBytes` and `TransferToAccount` resolve to no address.
    pub fn to_contract_hash_key(&self, account: &Account) -> (res: Result<Option<Key>, Error>)
        ensures
            self.resolves_to(account.spec_named_keys(), res),
    {
        match self {
            ExecutableDeployItem::StoredContractByHash { hash, .. } => Ok(
                Some(Key::from_hash(*hash)),
            ),
            ExecutableDeployItem::StoredVersionedContractByHash { hash, .. } => Ok(
                Some(Key::from_hash(*hash)),
            ),
            ExecutableDeployItem::StoredContractByName { name, .. } => lookup_named_key(
                account,
                name,
            ),
            ExecutableDeployItem::StoredVersionedContractByName { name, .. } => lookup_named_key(
                account,
                name,
            ),
            ExecutableDeployItem::ModuleBytes { .. } => Ok(None),
            ExecutableDeployItem::TransferToAccount { .. } => Ok(None),
        }
    }

    /// Decodes the item's argument bytes, in the same way for every variant.
    /// The result is the codec's: the arguments where the bytes encode
    /// runtime arguments, else the codec's error, and never a part of them.
    pub fn into_runtime_args(self) -> (res: Result<RuntimeArgs, DecodeError>)
        ensures
            self.decodes_to(res),
    {
        match self {
            ExecutableDeployItem::ModuleBytes { args, .. } => deserialize_runtime_args(args),
            ExecutableDeployItem::StoredContractByHash { args, .. } => deserialize_runtime_args(
                args,
            ),
            ExecutableDeployItem::StoredContractByName { args, .. } => deserialize_runtime_args(
                args,
            ),
            ExecutableDeployItem::StoredVersionedContractByHash {
                args,
                ..
            } => deserialize_runtime_args(args),
            ExecutableDeployItem::StoredVersionedContractByName {
                args,
                ..
            } => deserialize_runtime_args(args),
            ExecutableDeployItem::TransferToAccount { args } => deserialize_runtime_args(args),
        }
    }

    /// The name of the entry point to invoke: the implicit one for
    /// `ModuleBytes` and `TransferToAccount`, else the item's `entry_point`
    /// unchanged, the empty string included.
    pub fn entry_point_name(&self) -> (name: &str)
        ensures
            name@ == self.spec_entry_point(),
    {
        match self {
            ExecutableDeployItem::ModuleBytes { .. } => default_entry_point_name(),
            ExecutableDeployItem::TransferToAccount { .. } => default_entry_point_name(),
            ExecutableDeployItem::StoredVersionedContractByName {
                entry_point,
                ..
            } => entry_point.as_str(),
            ExecutableDeployItem::StoredVersionedContractByHash {
                entry_point,
                ..
            } => entry_point.as_str(),
            ExecutableDeployItem::StoredContractByHash { entry_point, .. } => entry_point.as_str(),
            ExecutableDeployItem::StoredContractByName { entry_point, .. } => entry_point.as_str(),
        }
    }
}

/// Looks `name` up in the account's named keys, and reports the name where
/// it is absent.
fn lookup_named_key(account: &Account, name: &String) -> (res: Result<Option<Key>, Error>)
    ensures
        if account.spec_named_keys().contains_key(name@) {
            res == Ok::<Option<Key>, Error>(Some(account.spec_named_keys()[name@]))
        } else {
            res matches Err(Error::NamedKeyNotFound(missing)) && missing@ == name@
        },
{
    match account.named_keys().get(name) {
        Some(key) => Ok(Some(key)),
        None => Err(Error::NamedKeyNotFound(name.clone())),
    }
}

/// An item that gives a hash resolves without regard to the account: to the
/// same address under any two tables, and never to an error.
pub proof fn lemma_hash_addressed_ignores_account(
    item: ExecutableDeployItem,
    first: Map<Seq<char>, Key>,
    second: Map<Seq<char>, Key>,
    res: Result<Option<Key>, Error>,
)
    requires
        item.code_reference() is ByHash,
        item.resolves_to(first, res),
    ensures
        res is Ok,
        item.resolves_to(second, res),
{
}

/// An item that gives a name fails to resolve exactly when the table lacks
/// the name, with `NamedKeyNotFound` of that name, and resolves to the key
/// stored under the name otherwise.
pub proof fn lemma_name_addressed_follows_table(
    item: ExecutableDeployItem,
    named_keys: Map<Seq<char>, Key>,
    res: Result<Option<Key>, Error>,
)
    requires
        item.code_reference() is ByName,
        item.resolves_to(named_keys, res),
    ensures
        res is Err <==> !named_keys.contains_key(item.code_reference()->ByName_0),
        res matches Err(e) ==> e matches Error::NamedKeyNotFound(missing) && missing@
            == item.code_reference()->ByName_0,
        res matches Ok(key) ==> key == Some(named_keys[item.code_reference()->ByName_0]),
{
}

/// Resolving one item twice against one table gives one result: two
/// outcomes of resolution agree in the key, or in the name they report.
pub proof fn lemma_resolution_is_repeatable(
    item: ExecutableDeployItem,
    named_keys: Map<Seq<char>, Key>,
    first: Result<Option<Key>, Error>,
    second: Result<Option<Key>, Error>,
)
    requires
        item.resolves_to(named_keys, first),
        item.resolves_to(named_keys, second),
    ensures
        first is Ok <==> second is Ok,
        first is Ok ==> first == second,
        first matches Err(e1) ==> (second matches Err(e2) && e1 matches Error::NamedKeyNotFound(n1)
            && e2 matches Error::NamedKeyNotFound(n2) && n1@ == n2@),
{
}

/// Decoding the arguments of two items that carry the same argument bytes
/// gives one result, whatever their variants: the same arguments in the
/// same order, or the same error.
pub proof fn lemma_decoding_is_repeatable(
    first_item: ExecutableDeployItem,
    second_item: ExecutableDeployItem,
    first: Result<RuntimeArgs, DecodeError>,
    second: Result<RuntimeArgs, DecodeError>,
)
    requires
        first_item.spec_args() == second_item.spec_args(),
        first_item.decodes_to(first),
        second_item.decodes_to(second),
    ensures
        first is Ok <==> second is Ok,
        first matches Ok(a) ==> (second matches Ok(b) && a@ == b@),
        first matches Err(e) ==> second == Err::<RuntimeArgs, DecodeError>(e),
{
}

} // verus!
