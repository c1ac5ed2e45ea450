use deploy_resolver::do_nothing_stored_caller::{
    call as stored_call, CustomError, SemVer, VersionedCall,
};
use deploy_resolver::ee_598_regression::{
    bond, call as bonding_call, purse_to_key, unbond, BondCall, UnbondCall, GET_POS_UREF_ERROR,
};
use deploy_resolver::error::{ApiError, DecodeError};
use deploy_resolver::key::{Key, URef};
use deploy_resolver::payment_purse::{
    after_balance, after_deposit, after_withdrawal, payment_amount, PurseTransferResult, Step,
};
use deploy_resolver::uint::U512;

const H: [u8; 32] = [5u8; 32];

fn purse() -> URef {
    URef { addr: [8; 32], access_rights: 7 }
}

#[test]
fn custom_error_codes() {
    assert_eq!(CustomError::MissingDoNothingContractMetadataKeyArg.code(), 0);
    assert_eq!(CustomError::MissingPurseNameArg.code(), 1);
    assert_eq!(CustomError::ConvertingKeyIntoHash.code(), 2);
    assert_eq!(CustomError::MissingDoNothingVersion.code(), 3);
}

#[test]
fn stored_caller_calls_delegate() {
    let planned = stored_call(Some(Ok(Key::Hash(H))), Some(Ok("purse".to_string())), Some(Ok(4)));
    assert_eq!(
        planned,
        Ok(VersionedCall {
            contract_package_hash: H,
            version: SemVer { major: 4, minor: 0, patch: 0 },
            entry_point: "delegate".to_string(),
            arg_name: "purse_name".to_string(),
            purse_name: "purse".to_string(),
        })
    );
}

#[test]
fn stored_caller_missing_arguments() {
    let name = || Some(Ok("purse".to_string()));
    assert_eq!(stored_call(None, name(), Some(Ok(1))), Err(ApiError::User(0)));
    assert_eq!(stored_call(Some(Ok(Key::Hash(H))), None, Some(Ok(1))), Err(ApiError::User(1)));
    assert_eq!(stored_call(Some(Ok(Key::Hash(H))), name(), None), Err(ApiError::User(3)));
}

#[test]
fn stored_caller_undecodable_arguments() {
    let bad = DecodeError::Formatting;
    let name = || Some(Ok("purse".to_string()));
    assert_eq!(stored_call(Some(Err(bad)), name(), Some(Ok(1))), Err(ApiError::InvalidArgument));
    assert_eq!(
        stored_call(Some(Ok(Key::Hash(H))), Some(Err(bad)), Some(Ok(1))),
        Err(ApiError::InvalidArgument)
    );
    assert_eq!(
        stored_call(Some(Ok(Key::Hash(H))), name(), Some(Err(bad))),
        Err(ApiError::InvalidArgument)
    );
}

#[test]
fn stored_caller_key_that_is_no_code_address() {
    let name = || Some(Ok("purse".to_string()));
    assert_eq!(stored_call(Some(Ok(Key::Account(H))), name(), Some(Ok(1))), Err(ApiError::User(2)));
    assert_eq!(
        stored_call(Some(Ok(Key::URef(purse()))), name(), Some(Ok(1))),
        Err(ApiError::User(2))
    );
}

#[test]
fn stored_caller_first_failure_decides() {
    assert_eq!(stored_call(None, None, None), Err(ApiError::User(0)));
    assert_eq!(stored_call(Some(Ok(Key::Account(H))), None, None), Err(ApiError::User(2)));
    assert_eq!(stored_call(Some(Ok(Key::Hash(H))), None, None), Err(ApiError::User(1)));
    assert_eq!(
        stored_call(Some(Err(DecodeError::EarlyEndOfStream)), None, None),
        Err(ApiError::InvalidArgument)
    );
}

#[test]
fn purse_key_is_a_uref_key() {
    assert_eq!(purse_to_key(purse()), Key::URef(purse()));
}

#[test]
fn bond_and_unbond_calls() {
    let amount = U512::from_u32(100);
    assert_eq!(
        bond(amount, purse()),
        BondCall {
            method: "bond".to_string(),
            amount,
            source: purse(),
            extra_keys: vec![Key::URef(purse())],
        }
    );
    assert_eq!(
        unbond(Some(amount)),
        UnbondCall { method: "unbond".to_string(), amount: Some(amount), extra_keys: vec![] }
    );
    assert_eq!(
        unbond(None),
        UnbondCall { method: "unbond".to_string(), amount: None, extra_keys: vec![] }
    );
}

#[test]
fn bonding_caller_unbonds_one_more() {
    let (first, second) = bonding_call(true, U512::from_u32(100), purse()).unwrap();
    assert_eq!(first, bond(U512::from_u32(100), purse()));
    assert_eq!(second, unbond(Some(U512::from_u32(101))));
    assert_eq!(second.amount.unwrap().limbs, [101, 0, 0, 0, 0, 0, 0, 0]);
}

#[test]
fn bonding_caller_carries_into_the_next_limb() {
    let amount = U512 { limbs: [u64::MAX, u64::MAX, 3, 0, 0, 0, 0, 0] };
    let (_, second) = bonding_call(true, amount, purse()).unwrap();
    assert_eq!(second.amount.unwrap().limbs, [0, 0, 4, 0, 0, 0, 0, 0]);
}

#[test]
fn bonding_caller_without_the_contract() {
    assert_eq!(bonding_call(false, U512::from_u32(100), purse()), Err(1000));
    assert_eq!(GET_POS_UREF_ERROR, 1000);
}

#[test]
fn amounts_from_small_numbers() {
    assert_eq!(U512::from_u32(0).limbs, [0; 8]);
    assert_eq!(U512::from_u32(u32::MAX).limbs, [4294967295, 0, 0, 0, 0, 0, 0, 0]);
    assert_eq!(payment_amount(7), U512::from_u32(7));
    assert_eq!(casper_types::U512(U512::from_u32(7).limbs), casper_types::U512::from(7u32));
}

#[test]
fn amounts_are_equal_by_their_limbs() {
    let a = U512 { limbs: [1, 2, 3, 4, 5, 6, 7, 8] };
    let mut b = a;
    assert!(a.equals(&b));
    b.limbs[7] = 9;
    assert!(!a.equals(&b));
    assert!(!U512::from_u32(1).equals(&U512::from_u32(2)));
}

#[test]
fn payment_steps() {
    assert_eq!(after_deposit(PurseTransferResult::TransferError), Step::Revert(1));
    assert_eq!(after_deposit(PurseTransferResult::TransferSuccessful), Step::ReadBalance);
    let paid = payment_amount(50);
    assert_eq!(after_balance(None, &paid), Step::Revert(2));
    assert_eq!(after_balance(Some(U512::from_u32(49)), &paid), Step::Revert(3));
    let high = U512 { limbs: [50, 1, 0, 0, 0, 0, 0, 0] };
    assert_eq!(after_balance(Some(high), &paid), Step::Revert(3));
    assert_eq!(after_balance(Some(U512::from_u32(50)), &paid), Step::Withdraw);
    assert_eq!(after_withdrawal(PurseTransferResult::TransferSuccessful), Step::Revert(4));
    assert_eq!(after_withdrawal(PurseTransferResult::TransferError), Step::Finish);
}
