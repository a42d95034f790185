//! Balances and frozen flags, with checked transitions.

use vstd::prelude::*;

use crate::errors::Error;
use crate::host::{Env, EnvView};
use crate::public_types::Identifier;
use crate::storage_types::{DataKey, StoredVal};

verus! {

/// The balance of an identity: the stored amount, or 0 when absent.
pub open spec fn balance_of(s: EnvView, id: Identifier) -> u64 {
    if s.store.contains_key(DataKey::Balance(id)) {
        match s.store[DataKey::Balance(id)] {
            StoredVal::Amount(a) => a,
            _ => 0,
        }
    } else {
        0
    }
}

/// Whether an identity is frozen: the stored flag, or false when absent.
pub open spec fn frozen_of(s: EnvView, id: Identifier) -> bool {
    if s.store.contains_key(DataKey::State(id)) {
        match s.store[DataKey::State(id)] {
            StoredVal::Flag(f) => f,
            _ => false,
        }
    } else {
        false
    }
}

/// Read an identity's balance; never fails.
pub fn read_balance(e: &Env, id: &Identifier) -> (r: u64)
    requires
        e.wf(),
    ensures
        r == balance_of(e@, *id),
{
    match e.get_amount(&DataKey::Balance(*id)) {
        Some(a) => a,
        None => 0,
    }
}

/// Overwrite an identity's balance.
fn write_balance(e: &mut Env, id: &Identifier, amount: u64)
    requires
        old(e).wf(),
    ensures
        final(e).wf(),
        final(e)@.store == old(e)@.store.insert(DataKey::Balance(*id), StoredVal::Amount(amount)),
        final(e)@.invoker == old(e)@.invoker,
        final(e)@.accounts == old(e)@.accounts,
{
    e.set_amount(DataKey::Balance(*id), amount);
}

/// Add `amount` to an identity's balance.  Fails, changing nothing, when
/// the identity is frozen or the balance would overflow.
pub fn receive_balance(e: &mut Env, id: &Identifier, amount: u64) -> (r: Result<(), Error>)
    requires
        old(e).wf(),
    ensures
        final(e).wf(),
        r is Ok <==> !frozen_of(old(e)@, *id) && balance_of(old(e)@, *id) + amount <= u64::MAX,
        r is Ok ==> {
            &&& final(e)@.store == old(e)@.store.insert(
                DataKey::Balance(*id),
                StoredVal::Amount((balance_of(old(e)@, *id) + amount) as u64),
            )
            &&& final(e)@.invoker == old(e)@.invoker
            &&& final(e)@.accounts == old(e)@.accounts
        },
        frozen_of(old(e)@, *id) ==> r == Err::<(), Error>(Error::FrozenAccount),
        !frozen_of(old(e)@, *id) && balance_of(old(e)@, *id) + amount > u64::MAX ==> r == Err::<
            (),
            Error,
        >(Error::ArithmeticOverflow),
        r is Err ==> final(e)@ == old(e)@,
{
    let frozen = read_state(e, id);
    if frozen {
        return Err(Error::FrozenAccount);
    }
    let balance = read_balance(e, id);
    if amount > u64::MAX - balance {
        return Err(Error::ArithmeticOverflow);
    }
    write_balance(e, id, balance + amount);
    Ok(())
}

/// Remove `amount` from an identity's balance.  Fails, changing nothing,
/// when the identity is frozen or holds less than `amount`.
pub fn spend_balance(e: &mut Env, id: &Identifier, amount: u64) -> (r: Result<(), Error>)
    requires
        old(e).wf(),
    ensures
        final(e).wf(),
        r is Ok <==> !frozen_of(old(e)@, *id) && balance_of(old(e)@, *id) >= amount,
        r is Ok ==> {
            &&& final(e)@.store == old(e)@.store.insert(
                DataKey::Balance(*id),
                StoredVal::Amount((balance_of(old(e)@, *id) - amount) as u64),
            )
            &&& final(e)@.invoker == old(e)@.invoker
            &&& final(e)@.accounts == old(e)@.accounts
        },
        frozen_of(old(e)@, *id) ==> r == Err::<(), Error>(Error::FrozenAccount),
        !frozen_of(old(e)@, *id) && balance_of(old(e)@, *id) < amount ==> r == Err::<(), Error>(
            Error::InsufficientBalance,
        ),
        r is Err ==> final(e)@ == old(e)@,
{
    let frozen = read_state(e, id);
    if frozen {
        return Err(Error::FrozenAccount);
    }
    let balance = read_balance(e, id);
    if balance < amount {
        return Err(Error::InsufficientBalance);
    }
    write_balance(e, id, balance - amount);
    Ok(())
}

/// Read an identity's frozen flag; never fails.
pub fn read_state(e: &Env, id: &Identifier) -> (r: bool)
    requires
        e.wf(),
    ensures
        r == frozen_of(e@, *id),
{
    match e.get_flag(&DataKey::State(*id)) {
        Some(f) => f,
        None => false,
    }
}

/// Overwrite an identity's frozen flag.
pub fn write_state(e: &mut Env, id: &Identifier, is_frozen: bool)
    requires
        old(e).wf(),
    ensures
        final(e).wf(),
        final(e)@.store == old(e)@.store.insert(DataKey::State(*id), StoredVal::Flag(is_frozen)),
        final(e)@.invoker == old(e)@.invoker,
        final(e)@.accounts == old(e)@.accounts,
{
    e.set_flag(DataKey::State(*id), is_frozen);
}

} // verus!
