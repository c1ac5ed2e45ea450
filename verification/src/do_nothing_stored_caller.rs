//! A caller of a stored, versioned contract: from its three arguments it
//! works out which package to call, at which version, and with what.

use crate::error::ApiError;
use crate::error::DecodeError;
use crate::key::ContractPackageHash;
use crate::key::Key;
use vstd::prelude::*;

verus! {

/// The entry point that is called in the stored contract.
pub const ENTRY_FUNCTION_NAME: &'static str = "delegate";

/// The name of the one argument that is handed on.
pub const PURSE_NAME_ARG_NAME: &'static str = "purse_name";

/// The caller's own reasons to revert.
#[derive(Clone, Copy, Debug, PartialEq, Eq)]
pub enum CustomError {
    MissingDoNothingContractMetadataKeyArg,
    MissingPurseNameArg,
    ConvertingKeyIntoHash,
    MissingDoNothingVersion,
}

impl CustomError {
    /// The code under which the reason is reported.
    pub open spec fn spec_code(self) -> u16 {
        match self {
            CustomError::MissingDoNothingContractMetadataKeyArg => 0,
            CustomError::MissingPurseNameArg => 1,
            CustomError::ConvertingKeyIntoHash => 2,
            CustomError::MissingDoNothingVersion => 3,
        }
    }

    /// The code under which the reason is reported.
    pub fn code(self) -> (code: u16)
        ensures
            code == self.spec_code(),
    {
        match self {
            CustomError::MissingDoNothingContractMetadataKeyArg => 0,
            CustomError::MissingPurseNameArg => 1,
            CustomError::ConvertingKeyIntoHash => 2,
            CustomError::MissingDoNothingVersion => 3,
        }
    }
}

/// A version in three parts.
#[derive(Clone, Copy, Debug, PartialEq, Eq)]
pub struct SemVer {
    pub major: u32,
    pub minor: u32,
    pub patch: u32,
}

/// One call of a versioned contract, ready to be made.
#[derive(Clone, Debug, PartialEq, Eq)]
pub struct VersionedCall {
    pub contract_package_hash: ContractPackageHash,
    pub version: SemVer,
    pub entry_point: String,
    pub arg_name: String,
    pub purse_name: String,
}

/// The revert that an argument by itself calls for: the reason `missing`
/// where it is absent, `InvalidArgument` where it did not decode, none
/// where it is there.
pub open spec fn arg_failure<T>(arg: Option<Result<T, DecodeError>>, missing: CustomError) -> Option<
    ApiError,
> {
    match arg {
        None => Some(ApiError::User(missing.spec_code())),
        Some(Err(_)) => Some(ApiError::InvalidArgument),
        Some(Ok(_)) => None,
    }
}

/// The revert that the three arguments call for, if any. The key is looked
/// at first, then whether it denotes code, then the purse name, then the
/// version: the first that fails decides.
pub open spec fn call_failure(
    key: Option<Result<Key, DecodeError>>,
    purse_name: Option<Result<String, DecodeError>>,
    version: Option<Result<u32, DecodeError>>,
) -> Option<ApiError> {
    if arg_failure(key, CustomError::MissingDoNothingContractMetadataKeyArg) is Some {
        arg_failure(key, CustomError::MissingDoNothingContractMetadataKeyArg)
    } else if key->0->Ok_0.spec_into_hash() is None {
        Some(ApiError::User(CustomError::ConvertingKeyIntoHash.spec_code()))
    } else if arg_failure(purse_name, CustomError::MissingPurseNameArg) is Some {
        arg_failure(purse_name, CustomError::MissingPurseNameArg)
    } else {
        arg_failure(version, CustomError::MissingDoNothingVersion)
    }
}

/// Decides what the caller does with its arguments, each given as it was
/// read: absent, undecodable, or a value.
///
/// Where `call_failure` names a reason, the caller reverts with it. Else it
/// calls `delegate` in the package that the key denotes, at the version
/// whose major part is the version argument and whose other parts are 0,
/// with the purse name as the argument `purse_name`.
pub fn call(
    key: Option<Result<Key, DecodeError>>,
    purse_name: Option<Result<String, DecodeError>>,
    version: Option<Result<u32, DecodeError>>,
) -> (res: Result<VersionedCall, ApiError>)
    ensures
        match call_failure(key, purse_name, version) {
            Some(reason) => res == Err::<VersionedCall, ApiError>(reason),
            None => res matches Ok(planned) && Some(planned.contract_package_hash)
                == key->0->Ok_0.spec_into_hash() && planned.version == (SemVer {
                major: version->0->Ok_0,
                minor: 0,
                patch: 0,
            }) && planned.entry_point@ == ENTRY_FUNCTION_NAME@ && planned.arg_name@
                == PURSE_NAME_ARG_NAME@ && planned.purse_name@ == purse_name->0->Ok_0@,
        },
{
    let contract_metadata_key = match key {
        None => {
            return Err(ApiError::User(CustomError::MissingDoNothingContractMetadataKeyArg.code()));
        },
        Some(Err(_)) => {
            return Err(ApiError::InvalidArgument);
        },
        Some(Ok(found)) => found,
    };
    let contract_metadata_hash = match contract_metadata_key.into_hash() {
        None => {
            return Err(ApiError::User(CustomError::ConvertingKeyIntoHash.code()));
        },
        Some(hash) => hash,
    };
    let new_purse_name = match purse_name {
        None => {
            return Err(ApiError::User(CustomError::MissingPurseNameArg.code()));
        },
        Some(Err(_)) => {
            return Err(ApiError::InvalidArgument);
        },
        Some(Ok(found)) => found,
    };
    let version_number: u32 = match version {
        None => {
            return Err(ApiError::User(CustomError::MissingDoNothingVersion.code()));
        },
        Some(Err(_)) => {
            return Err(ApiError::InvalidArgument);
        },
        Some(Ok(found)) => found,
    };
    Ok(
        VersionedCall {
            contract_package_hash: contract_metadata_hash,
            version: SemVer { major: version_number, minor: 0, patch: 0 },
            entry_point: ENTRY_FUNCTION_NAME.to_owned(),
            arg_name: PURSE_NAME_ARG_NAME.to_owned(),
            purse_name: new_purse_name,
        },
    )
}

} // verus!
