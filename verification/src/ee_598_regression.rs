//! A caller of the proof-of-stake contract that bonds an amount and then
//! asks to unbond one more than it bonded.

use crate::key::Key;
use crate::key::URef;
use crate::uint::max_value;
use crate::uint::U512;
use vstd::prelude::*;

verus! {

/// The method of the proof-of-stake contract that bonds.
pub const POS_BOND: &'static str = "bond";

/// The method of the proof-of-stake contract that unbonds.
pub const POS_UNBOND: &'static str = "unbond";

/// The code with which the caller reverts where the proof-of-stake
/// contract cannot be found.
pub const GET_POS_UREF_ERROR: u32 = 1000;

/// A call of `bond`: the amount, the purse that pays, and the keys that the
/// callee may use.
#[derive(Clone, Debug, PartialEq, Eq)]
pub struct BondCall {
    pub method: String,
    pub amount: U512,
    pub source: URef,
    pub extra_keys: Vec<Key>,
}

/// A call of `unbond`: the amount, or none for all that is bonded, and the
/// keys that the callee may use.
#[derive(Clone, Debug, PartialEq, Eq)]
pub struct UnbondCall {
    pub method: String,
    pub amount: Option<U512>,
    pub extra_keys: Vec<Key>,
}

/// Whether `planned` is the call that bonds `amount` from `source`, with
/// the key of `source` as the one key handed to the callee.
pub open spec fn is_bond_of(planned: BondCall, amount: U512, source: URef) -> bool {
    &&& planned.method@ == POS_BOND@
    &&& planned.amount == amount
    &&& planned.source == source
    &&& planned.extra_keys@ == seq![Key::URef(source)]
}

/// Whether `planned` is the call that unbonds the number `amount`, or all
/// where there is none, with no key handed to the callee.
pub open spec fn is_unbond_of(planned: UnbondCall, amount: Option<nat>) -> bool {
    &&& planned.method@ == POS_UNBOND@
    &&& planned.extra_keys@ == Seq::<Key>::empty()
    &&& match amount {
        None => planned.amount is None,
        Some(n) => planned.amount matches Some(given) && given.value() == n,
    }
}

/// The key of a purse.
pub fn purse_to_key(p: URef) -> (key: Key)
    ensures
        key == Key::URef(p),
{
    Key::URef(p)
}

/// The call that bonds `amount` from `source`. The callee gets the key of
/// `source` and no other.
pub fn bond(amount: U512, source: URef) -> (planned: BondCall)
    ensures
        is_bond_of(planned, amount, source),
{
    let mut extra_keys: Vec<Key> = Vec::new();
    extra_keys.push(purse_to_key(source));
    assert(extra_keys@ =~= seq![Key::URef(source)]);
    BondCall { method: POS_BOND.to_owned(), amount, source, extra_keys }
}

/// The call that unbonds `amount`. The callee gets no key.
pub fn unbond(amount: Option<U512>) -> (planned: UnbondCall)
    ensures
        planned.amount == amount,
        is_unbond_of(
            planned,
            match amount {
                None => None,
                Some(given) => Some(given.value()),
            },
        ),
{
    UnbondCall { method: POS_UNBOND.to_owned(), amount, extra_keys: Vec::new() }
}

/// Decides the caller's two calls, given whether the proof-of-stake
/// contract was found, the amount argument and the caller's main purse.
///
/// Without the contract the caller reverts with `GET_POS_UREF_ERROR`. With
/// it, the caller bonds `amount` from its main purse and then unbonds
/// `amount` and one. The amount must leave room for that one.
pub fn call(pos_found: bool, amount: U512, main_purse: URef) -> (res: Result<
    (BondCall, UnbondCall),
    u32,
>)
    requires
        amount.value() < max_value(),
    ensures
        !pos_found ==> res == Err::<(BondCall, UnbondCall), u32>(GET_POS_UREF_ERROR),
        pos_found ==> (res matches Ok(calls) && is_bond_of(calls.0, amount, main_purse)
            && is_unbond_of(calls.1, Some(amount.value() + 1))),
{
    if !pos_found {
        return Err(GET_POS_UREF_ERROR);
    }
    let first = bond(amount, main_purse);
    match amount.checked_add(U512::from_u32(1)) {
        Some(more) => Ok((first, unbond(Some(more)))),
        None => vstd::pervasive::unreached(),
    }
}

} // verus!
