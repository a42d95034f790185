//! Token metadata: decimals, name, and symbol.

use vstd::prelude::*;

use crate::host::{Env, EnvView};
use crate::storage_types::{DataKey, StoredVal};

verus! {

/// The stored decimal count, if set.
pub open spec fn decimals_of(s: EnvView) -> Option<u32> {
    if s.store.contains_key(DataKey::Decimals) {
        match s.store[DataKey::Decimals] {
            StoredVal::Word(w) => Some(w),
            _ => None,
        }
    } else {
        None
    }
}

/// The stored token name, if set.
pub open spec fn name_of(s: EnvView) -> Option<Seq<u8>> {
    if s.store.contains_key(DataKey::Name) {
        match s.store[DataKey::Name] {
            StoredVal::Bytes(b) => Some(b),
            _ => None,
        }
    } else {
        None
    }
}

/// The stored token symbol, if set.
pub open spec fn symbol_of(s: EnvView) -> Option<Seq<u8>> {
    if s.store.contains_key(DataKey::Symbol) {
        match s.store[DataKey::Symbol] {
            StoredVal::Bytes(b) => Some(b),
            _ => None,
        }
    } else {
        None
    }
}

/// Read the decimal count of an initialized ledger.
pub fn read_decimal(e: &Env) -> (r: u32)
    requires
        e.wf(),
        decimals_of(e@) is Some,
    ensures
        Some(r) == decimals_of(e@),
{
    match e.get_word(&DataKey::Decimals) {
        Some(w) => w,
        None => 0,
    }
}

/// Store the decimal count; callers have already checked it fits in eight
/// bits.
pub fn write_decimal(e: &mut Env, d: u8)
    requires
        old(e).wf(),
    ensures
        final(e).wf(),
        final(e)@.store == old(e)@.store.insert(DataKey::Decimals, StoredVal::Word(d as u32)),
        final(e)@.invoker == old(e)@.invoker,
        final(e)@.accounts == old(e)@.accounts,
{
    e.set_word(DataKey::Decimals, d as u32);
}

/// Read the name of an initialized ledger.
pub fn read_name(e: &Env) -> (r: Vec<u8>)
    requires
        e.wf(),
        name_of(e@) is Some,
    ensures
        Some(r@) == name_of(e@),
{
    match e.get_bytes(&DataKey::Name) {
        Some(b) => b,
        None => Vec::new(),
    }
}

/// Store the token name.
pub fn write_name(e: &mut Env, d: Vec<u8>)
    requires
        old(e).wf(),
    ensures
        final(e).wf(),
        final(e)@.store == old(e)@.store.insert(DataKey::Name, StoredVal::Bytes(d@)),
        final(e)@.invoker == old(e)@.invoker,
        final(e)@.accounts == old(e)@.accounts,
{
    e.set_bytes(DataKey::Name, d);
}

/// Read the symbol of an initialized ledger.
pub fn read_symbol(e: &Env) -> (r: Vec<u8>)
    requires
        e.wf(),
        symbol_of(e@) is Some,
    ensures
        Some(r@) == symbol_of(e@),
{
    match e.get_bytes(&DataKey::Symbol) {
        Some(b) => b,
        None => Vec::new(),
    }
}

/// Store the token symbol.
pub fn write_symbol(e: &mut Env, d: Vec<u8>)
    requires
        old(e).wf(),
    ensures
        final(e).wf(),
        final(e)@.store == old(e)@.store.insert(DataKey::Symbol, StoredVal::Bytes(d@)),
        final(e)@.invoker == old(e)@.invoker,
        final(e)@.accounts == old(e)@.accounts,
{
    e.set_bytes(DataKey::Symbol, d);
}

} // verus!
