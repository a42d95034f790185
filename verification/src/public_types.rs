//! Identities, authorization proofs, and the signed-message structure.

use vstd::prelude::*;

use crate::cryptography::Domain;
use crate::errors::Error;
use crate::host::Env;

verus! {

broadcast use vstd::array::group_array_axioms;

/// A 32-byte value: a public key or a contract address.
pub type U256 = [u8; 32];

/// A 64-byte value: an Ed25519 signature.
pub type U512 = [u8; 64];

/// Byte-wise equality of two 32-byte values.
pub fn bytes32_eq(a: &U256, b: &U256) -> (r: bool)
    ensures
        r == (*a == *b),
{
    let mut i: usize = 0;
    while i < 32
        invariant
            i <= 32,
            forall|j: int| 0 <= j < i ==> a[j] == b[j],
        decreases 32 - i,
    {
        if a[i] != b[i] {
            assert(a@[i as int] != b@[i as int]);
            return false;
        }
        i = i + 1;
    }
    proof {
        assert(*a =~= *b);
    }
    true
}

/// Strict lexicographic order on byte strings; on equal-length strings this
/// is the numeric order of their big-endian values.
pub open spec fn lex_lt(a: Seq<u8>, b: Seq<u8>) -> bool
    decreases a.len(),
{
    if a.len() == 0 || b.len() == 0 {
        false
    } else if a.first() < b.first() {
        true
    } else if a.first() > b.first() {
        false
    } else {
        lex_lt(a.drop_first(), b.drop_first())
    }
}

/// Byte-wise strict order of two 32-byte values.
pub fn bytes32_lt(a: &U256, b: &U256) -> (r: bool)
    ensures
        r == lex_lt(a@, b@),
{
    let mut i: usize = 0;
    proof {
        assert(a@.skip(0) =~= a@);
        assert(b@.skip(0) =~= b@);
    }
    while i < 32
        invariant
            i <= 32,
            lex_lt(a@, b@) == lex_lt(a@.skip(i as int), b@.skip(i as int)),
        decreases 32 - i,
    {
        if a[i] < b[i] {
            return true;
        }
        if a[i] > b[i] {
            return false;
        }
        proof {
            assert(a@.skip(i as int).drop_first() =~= a@.skip(i + 1));
            assert(b@.skip(i as int).drop_first() =~= b@.skip(i + 1));
        }
        i = i + 1;
    }
    proof {
        assert(a@.skip(32) =~= Seq::<u8>::empty());
    }
    false
}

/// A party that can own balance, allowance, or administrator rights.
/// Compared by structural equality; immutable once constructed.
#[derive(Clone, Copy, Debug)]
pub enum Identifier {
    /// A contract, identified by its address.
    Contract(U256),
    /// A single keyholder, identified by an Ed25519 public key.
    Ed25519(U256),
    /// A multi-signer account, identified by its account key.
    Account(U256),
}

/// Equality of two identifiers (variant and embedded bytes).
pub fn identifier_eq(a: &Identifier, b: &Identifier) -> (r: bool)
    ensures
        r == (*a == *b),
{
    match (a, b) {
        (Identifier::Contract(x), Identifier::Contract(y)) => bytes32_eq(x, y),
        (Identifier::Ed25519(x), Identifier::Ed25519(y)) => bytes32_eq(x, y),
        (Identifier::Account(x), Identifier::Account(y)) => bytes32_eq(x, y),
        _ => false,
    }
}

/// One entry of a multi-signer proof: a public key and its signature.
#[derive(Clone, Copy, Debug)]
pub struct KeyedEd25519Signature {
    pub public_key: U256,
    pub signature: U512,
}

/// A single-key proof bundled with the public key it proves.
#[derive(Clone, Copy, Debug)]
pub struct KeyedEd25519Authorization {
    pub public_key: U256,
    pub signature: U512,
}

/// A multi-signer proof: signatures ordered by strictly ascending public key.
#[derive(Clone, Debug)]
pub struct AccountAuthorization {
    pub signatures: Vec<KeyedEd25519Signature>,
}

/// A multi-signer proof bundled with the account key it proves.
#[derive(Clone, Debug)]
pub struct KeyedAccountAuthorization {
    pub public_key: U256,
    pub auth: AccountAuthorization,
}

/// Proof of intent without a stated identity; used where the identity is
/// supplied separately (administrator actions).
#[derive(Clone, Debug)]
pub enum Authorization {
    /// The caller is a contract; its identity comes from the call context.
    Contract,
    /// A bare Ed25519 signature by the expected keyholder.
    Ed25519(U512),
    /// A weighted multi-signer proof for the expected account.
    Account(AccountAuthorization),
}

/// Proof of intent bundled with the identity it proves; used where the
/// identity is the subject of the call itself (e.g. the sender of a
/// transfer).
#[derive(Clone, Debug)]
pub enum KeyedAuthorization {
    /// The currently invoking contract authorizes as itself.
    Contract,
    /// A keyholder authorizes with a single signature.
    Ed25519(KeyedEd25519Authorization),
    /// A multi-signer account authorizes with a weighted proof.
    Account(KeyedAccountAuthorization),
}

/// The identity a keyed proof claims: for `Contract` the currently invoking
/// contract (an error when there is none), otherwise the embedded key.
pub open spec fn spec_get_identifier(auth: KeyedAuthorization, invoker: Option<U256>) -> Result<
    Identifier,
    Error,
> {
    match auth {
        KeyedAuthorization::Contract => match invoker {
            Some(addr) => Ok(Identifier::Contract(addr)),
            None => Err(Error::NotAuthorized),
        },
        KeyedAuthorization::Ed25519(kea) => Ok(Identifier::Ed25519(kea.public_key)),
        KeyedAuthorization::Account(kaa) => Ok(Identifier::Account(kaa.public_key)),
    }
}

impl KeyedAuthorization {
    /// The identity this proof claims.  For the `Contract` variant it is the
    /// live invoking contract's address, not a stored value; the call fails
    /// with `NotAuthorized` outside a cross-contract invocation frame.
    pub fn get_identifier(&self, e: &Env) -> (r: Result<Identifier, Error>)
        ensures
            r == spec_get_identifier(*self, e@.invoker),
    {
        match self {
            KeyedAuthorization::Contract => match e.invoking_contract() {
                Some(addr) => Ok(Identifier::Contract(addr)),
                None => Err(Error::NotAuthorized),
            },
            KeyedAuthorization::Ed25519(kea) => Ok(Identifier::Ed25519(kea.public_key)),
            KeyedAuthorization::Account(kaa) => Ok(Identifier::Account(kaa.public_key)),
        }
    }
}

/// One argument of an operation, as bound into the signed message.
#[derive(Clone, Copy, Debug)]
pub enum Parameter {
    /// An identity argument (a counterparty, a freeze target, a new admin).
    Id(Identifier),
    /// An amount argument.
    Amount(u64),
}

/// The body of a version-0 signed message: the signer's current nonce, the
/// operation's domain tag, and the operation's argument tuple in call order.
#[derive(Clone, Debug)]
pub struct MessageV0 {
    pub nonce: u64,
    pub domain: Domain,
    pub parameters: Vec<Parameter>,
}

/// The versioned signed-message structure.  A future format would add a
/// variant, and verifiers of this version reject it by construction.
#[derive(Clone, Debug)]
pub enum Message {
    V0(MessageV0),
}

} // verus!
