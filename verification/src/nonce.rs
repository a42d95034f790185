//! Per-identity monotonic counters for replay protection.

use vstd::prelude::*;

use crate::errors::Error;
use crate::host::{Env, EnvView};
use crate::public_types::Identifier;
use crate::storage_types::{DataKey, StoredVal};

verus! {

/// The nonce of an identity: the stored counter, or 0 when absent.
pub open spec fn nonce_of(s: EnvView, id: Identifier) -> u64 {
    if s.store.contains_key(DataKey::Nonce(id)) {
        match s.store[DataKey::Nonce(id)] {
            StoredVal::Amount(a) => a,
            _ => 0,
        }
    } else {
        0
    }
}

/// Read an identity's nonce without consuming it; never fails.
pub fn read_nonce(e: &Env, id: &Identifier) -> (r: u64)
    requires
        e.wf(),
    ensures
        r == nonce_of(e@, *id),
{
    match e.get_amount(&DataKey::Nonce(*id)) {
        Some(a) => a,
        None => 0,
    }
}

/// Return the pre-increment nonce (the value the caller must have signed)
/// and persist its successor.  Fails closed with `ArithmeticOverflow`, and
/// changes nothing, when the counter is at its maximum.
pub fn read_and_increment_nonce(e: &mut Env, id: &Identifier) -> (r: Result<u64, Error>)
    requires
        old(e).wf(),
    ensures
        final(e).wf(),
        r is Ok <==> nonce_of(old(e)@, *id) < u64::MAX,
        r matches Ok(n) ==> {
            &&& n == nonce_of(old(e)@, *id)
            &&& final(e)@.store == old(e)@.store.insert(
                DataKey::Nonce(*id),
                StoredVal::Amount((n + 1) as u64),
            )
            &&& final(e)@.invoker == old(e)@.invoker
            &&& final(e)@.accounts == old(e)@.accounts
        },
        r is Err ==> r == Err::<u64, Error>(Error::ArithmeticOverflow) && final(e)@ == old(e)@,
{
    let n = read_nonce(e, id);
    if n == u64::MAX {
        Err(Error::ArithmeticOverflow)
    } else {
        e.set_amount(DataKey::Nonce(*id), n + 1);
        Ok(n)
    }
}

} // verus!
