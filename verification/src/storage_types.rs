//! Keys and values of the ledger's key-value store.

use vstd::prelude::*;

use crate::public_types::{bytes32_eq, identifier_eq, Identifier};

verus! {

/// Key of an allowance entry: who granted it and who may spend it.
#[derive(Clone, Copy, Debug)]
pub struct AllowanceDataKey {
    pub from: Identifier,
    pub spender: Identifier,
}

/// The tagged key space of the ledger store.
#[derive(Clone, Copy, Debug)]
pub enum DataKey {
    /// Remaining amount `spender` may move out of `from`.
    Allowance(AllowanceDataKey),
    /// Token balance of an identity.
    Balance(Identifier),
    /// Replay-protection counter of an identity.
    Nonce(Identifier),
    /// Whether an identity is frozen.
    State(Identifier),
    /// The administrator identity.
    Admin,
    /// Number of decimal places of the token.
    Decimals,
    /// Display name of the token.
    Name,
    /// Display symbol of the token.
    Symbol,
}

/// A stored value, as executable data.
#[derive(Clone, Debug)]
pub enum DataVal {
    Id(Identifier),
    Amount(u64),
    Flag(bool),
    Word(u32),
    Bytes(Vec<u8>),
}

/// A stored value, as mathematical data (byte strings become sequences).
pub enum StoredVal {
    Id(Identifier),
    Amount(u64),
    Flag(bool),
    Word(u32),
    Bytes(Seq<u8>),
}

/// The mathematical reading of a stored value.
pub open spec fn val_view(v: DataVal) -> StoredVal {
    match v {
        DataVal::Id(id) => StoredVal::Id(id),
        DataVal::Amount(a) => StoredVal::Amount(a),
        DataVal::Flag(f) => StoredVal::Flag(f),
        DataVal::Word(w) => StoredVal::Word(w),
        DataVal::Bytes(b) => StoredVal::Bytes(b@),
    }
}

/// Equality of two store keys (variant, identities, and embedded bytes).
pub fn data_key_eq(a: &DataKey, b: &DataKey) -> (r: bool)
    ensures
        r == (*a == *b),
{
    match (a, b) {
        (DataKey::Allowance(x), DataKey::Allowance(y)) => {
            let from_eq = identifier_eq(&x.from, &y.from);
            let spender_eq = identifier_eq(&x.spender, &y.spender);
            from_eq && spender_eq
        },
        (DataKey::Balance(x), DataKey::Balance(y)) => identifier_eq(x, y),
        (DataKey::Nonce(x), DataKey::Nonce(y)) => identifier_eq(x, y),
        (DataKey::State(x), DataKey::State(y)) => identifier_eq(x, y),
        (DataKey::Admin, DataKey::Admin) => true,
        (DataKey::Decimals, DataKey::Decimals) => true,
        (DataKey::Name, DataKey::Name) => true,
        (DataKey::Symbol, DataKey::Symbol) => true,
        _ => false,
    }
}

} // verus!
