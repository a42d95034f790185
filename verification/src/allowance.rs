//! Spending allowances granted by one identity to another.

use vstd::prelude::*;

use crate::errors::Error;
use crate::host::{Env, EnvView};
use crate::public_types::Identifier;
use crate::storage_types::{AllowanceDataKey, DataKey, StoredVal};

verus! {

/// The allowance key for a grantor/spender pair.
pub open spec fn allowance_key(from: Identifier, spender: Identifier) -> DataKey {
    DataKey::Allowance(AllowanceDataKey { from, spender })
}

/// The allowance `spender` may move out of `from`: the stored amount, or 0
/// when absent.
pub open spec fn allowance_of(s: EnvView, from: Identifier, spender: Identifier) -> u64 {
    if s.store.contains_key(allowance_key(from, spender)) {
        match s.store[allowance_key(from, spender)] {
            StoredVal::Amount(a) => a,
            _ => 0,
        }
    } else {
        0
    }
}

/// Read an allowance; never fails.
pub fn read_allowance(e: &Env, from: &Identifier, spender: &Identifier) -> (r: u64)
    requires
        e.wf(),
    ensures
        r == allowance_of(e@, *from, *spender),
{
    let key = DataKey::Allowance(AllowanceDataKey { from: *from, spender: *spender });
    match e.get_amount(&key) {
        Some(a) => a,
        None => 0,
    }
}

/// Overwrite an allowance.
pub fn write_allowance(e: &mut Env, from: &Identifier, spender: &Identifier, amount: u64)
    requires
        old(e).wf(),
    ensures
        final(e).wf(),
        final(e)@.store == old(e)@.store.insert(
            allowance_key(*from, *spender),
            StoredVal::Amount(amount),
        ),
        final(e)@.invoker == old(e)@.invoker,
        final(e)@.accounts == old(e)@.accounts,
{
    let key = DataKey::Allowance(AllowanceDataKey { from: *from, spender: *spender });
    e.set_amount(key, amount);
}

/// Reduce an allowance by the spent amount.  Fails, changing nothing, when
/// the allowance is smaller than `amount`.
pub fn spend_allowance(e: &mut Env, from: &Identifier, spender: &Identifier, amount: u64) -> (r:
    Result<(), Error>)
    requires
        old(e).wf(),
    ensures
        final(e).wf(),
        r is Ok <==> allowance_of(old(e)@, *from, *spender) >= amount,
        r is Ok ==> {
            &&& final(e)@.store == old(e)@.store.insert(
                allowance_key(*from, *spender),
                StoredVal::Amount((allowance_of(old(e)@, *from, *spender) - amount) as u64),
            )
            &&& final(e)@.invoker == old(e)@.invoker
            &&& final(e)@.accounts == old(e)@.accounts
        },
        r is Err ==> r == Err::<(), Error>(Error::InsufficientAllowance) && final(e)@ == old(e)@,
{
    let allowance = read_allowance(e, from, spender);
    if allowance < amount {
        return Err(Error::InsufficientAllowance);
    }
    write_allowance(e, from, spender, allowance - amount);
    Ok(())
}

} // verus!
