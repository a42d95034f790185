//! Domain tags and the authorization verifier.
//!
//! `check_auth` resolves the claimed identity, recomputes the canonical
//! message for the identity's current nonce, verifies the single signature
//! or the weighted multi-signer proof, and consumes the nonce — exactly one
//! nonce per successful check, and nothing on failure.

use vstd::prelude::*;

use crate::codec::{payload_bytes, payload_to_bytes};
use crate::errors::Error;
use crate::hashing::{sha256, sha256_of};
use crate::host::{Env, EnvView, spec_find_account, spec_signer_weight};
use crate::nonce::{nonce_of, read_and_increment_nonce, read_nonce};
use crate::public_types::{
    bytes32_lt, lex_lt, Identifier, KeyedAccountAuthorization, KeyedAuthorization,
    KeyedEd25519Authorization, KeyedEd25519Signature, Parameter, U256,
};
use crate::signing::{ed25519_verifies, verify_ed25519};
use crate::storage_types::{DataKey, StoredVal};

verus! {

/// One tag per operation kind, mixed into every signed message so that a
/// signature authorizing one operation cannot be replayed as authorization
/// for another.
#[derive(Clone, Copy, Debug, PartialEq, Eq, Structural)]
pub enum Domain {
    Approve,
    Transfer,
    TransferFrom,
    Burn,
    Freeze,
    Mint,
    SetAdministrator,
    Unfreeze,
}

/// The state after consuming one nonce for `id`.
pub open spec fn consume_nonce(s: EnvView, id: Identifier) -> EnvView {
    EnvView {
        store: s.store.insert(
            DataKey::Nonce(id),
            StoredVal::Amount((nonce_of(s, id) + 1) as u64),
        ),
        invoker: s.invoker,
        accounts: s.accounts,
    }
}

/// The digest an authorization for `(id, domain, params)` must have signed
/// in state `s`: SHA-256 of the canonical payload bound to `id`'s current
/// nonce.
pub open spec fn expected_digest(
    s: EnvView,
    id: Identifier,
    domain: Domain,
    params: Seq<Parameter>,
) -> Seq<u8> {
    sha256_of(payload_bytes(nonce_of(s, id), domain, params))
}

/// One pass over a multi-signer proof: enforce strictly ascending keys,
/// verify each signature against `digest`, and accumulate signer weights
/// with overflow checking.  Returns the total weight, or the first failure
/// in iteration order.
pub open spec fn account_scan(
    signers: Seq<(U256, u32)>,
    digest: Seq<u8>,
    sigs: Seq<KeyedEd25519Signature>,
    prev: Option<U256>,
    acc: u32,
) -> Result<u32, Error>
    decreases sigs.len(),
{
    if sigs.len() == 0 {
        Ok(acc)
    } else {
        let entry = sigs.first();
        if (prev matches Some(p) && !lex_lt(p@, entry.public_key@)) {
            Err(Error::SignaturesOutOfOrder)
        } else if !ed25519_verifies(entry.public_key@, digest, entry.signature@) {
            Err(Error::InvalidSignature)
        } else if acc + spec_signer_weight(signers, entry.public_key) > u32::MAX {
            Err(Error::WeightOverflow)
        } else {
            account_scan(
                signers,
                digest,
                sigs.drop_first(),
                Some(entry.public_key),
                (acc + spec_signer_weight(signers, entry.public_key)) as u32,
            )
        }
    }
}

/// The outcome of checking a multi-signer proof in state `s`, before the
/// nonce is consumed: resolve the account, scan the signatures against the
/// expected digest, then compare the total weight with the account's medium
/// threshold.
pub open spec fn account_auth_outcome(
    s: EnvView,
    kaa: KeyedAccountAuthorization,
    domain: Domain,
    params: Seq<Parameter>,
) -> Result<(), Error> {
    match spec_find_account(s.accounts, kaa.public_key) {
        None => Err(Error::NotAuthorized),
        Some(acct) => {
            let digest = expected_digest(s, Identifier::Account(kaa.public_key), domain, params);
            match account_scan(acct.signers@, digest, kaa.auth.signatures@, None, 0) {
                Err(err) => Err(err),
                Ok(weight) => if weight < acct.medium_threshold {
                    Err(Error::InsufficientWeight)
                } else {
                    Ok(())
                },
            }
        },
    }
}

/// The full transition of `check_auth`: the state after the call and its
/// result.  On success of a signature-based variant exactly one nonce is
/// consumed; on failure, and for the `Contract` variant, the state is
/// unchanged.
pub open spec fn spec_check_auth(
    s: EnvView,
    auth: KeyedAuthorization,
    domain: Domain,
    params: Seq<Parameter>,
) -> (EnvView, Result<(), Error>) {
    match auth {
        KeyedAuthorization::Contract => match s.invoker {
            Some(_) => (s, Ok(())),
            None => (s, Err(Error::NotAuthorized)),
        },
        KeyedAuthorization::Ed25519(kea) => {
            let id = Identifier::Ed25519(kea.public_key);
            if !ed25519_verifies(
                kea.public_key@,
                expected_digest(s, id, domain, params),
                kea.signature@,
            ) {
                (s, Err(Error::InvalidSignature))
            } else if nonce_of(s, id) == u64::MAX {
                (s, Err(Error::ArithmeticOverflow))
            } else {
                (consume_nonce(s, id), Ok(()))
            }
        },
        KeyedAuthorization::Account(kaa) => {
            let id = Identifier::Account(kaa.public_key);
            match account_auth_outcome(s, kaa, domain, params) {
                Err(err) => (s, Err(err)),
                Ok(_) => if nonce_of(s, id) == u64::MAX {
                    (s, Err(Error::ArithmeticOverflow))
                } else {
                    (consume_nonce(s, id), Ok(()))
                },
            }
        },
    }
}

/// Verify a single-signature proof against the keyholder's current nonce,
/// without consuming it.
fn check_ed25519_auth(
    e: &Env,
    auth: &KeyedEd25519Authorization,
    domain: Domain,
    parameters: &Vec<Parameter>,
) -> (r: Result<(), Error>)
    requires
        e.wf(),
    ensures
        r == spec_check_auth(e@, KeyedAuthorization::Ed25519(*auth), domain, parameters@).1,
{
    let id = Identifier::Ed25519(auth.public_key);
    let n = read_nonce(e, &id);
    let msg_bytes = payload_to_bytes(n, &domain, parameters);
    let digest = sha256(&msg_bytes);
    if !verify_ed25519(&auth.public_key, &digest, &auth.signature) {
        return Err(Error::InvalidSignature);
    }
    if n == u64::MAX {
        return Err(Error::ArithmeticOverflow);
    }
    Ok(())
}

/// Verify a weighted multi-signer proof against the account's current
/// nonce, without consuming it.
#[verifier::loop_isolation(false)]
fn check_account_auth(
    e: &Env,
    auth: &KeyedAccountAuthorization,
    domain: Domain,
    parameters: &Vec<Parameter>,
) -> (r: Result<(), Error>)
    requires
        e.wf(),
    ensures
        r == spec_check_auth(e@, KeyedAuthorization::Account(*auth), domain, parameters@).1,
{
    let threshold = match e.medium_threshold(&auth.public_key) {
        Some(t) => t,
        None => {
            return Err(Error::NotAuthorized);
        },
    };
    let ghost acct = match spec_find_account(e@.accounts, auth.public_key) {
        Some(a) => a,
        None => arbitrary(),
    };
    let id = Identifier::Account(auth.public_key);
    let n = read_nonce(e, &id);
    let msg_bytes = payload_to_bytes(n, &domain, parameters);
    let digest = sha256(&msg_bytes);

    let sigs = &auth.auth.signatures;
    let mut prev: Option<U256> = None;
    let mut weight: u32 = 0;
    let mut i: usize = 0;
    let count: usize = sigs.len();
    proof {
        assert(sigs@.skip(0) =~= sigs@);
    }
    while i < count
        invariant
            i <= count,
            account_scan(acct.signers@, digest@, sigs@, None, 0) == account_scan(
                acct.signers@,
                digest@,
                sigs@.skip(i as int),
                prev,
                weight,
            ),
        decreases count - i,
    {
        let entry = &sigs[i];
        proof {
            assert(sigs@.skip(i as int).first() == sigs@[i as int]);
            assert(sigs@.skip(i as int).drop_first() =~= sigs@.skip(i + 1));
        }
        match prev {
            Some(p) => {
                if !bytes32_lt(&p, &entry.public_key) {
                    return Err(Error::SignaturesOutOfOrder);
                }
            },
            None => {},
        }
        if !verify_ed25519(&entry.public_key, &digest, &entry.signature) {
            return Err(Error::InvalidSignature);
        }
        let w = match e.signer_weight(&auth.public_key, &entry.public_key) {
            Some(w) => w,
            None => 0,
        };
        if w > u32::MAX - weight {
            return Err(Error::WeightOverflow);
        }
        weight = weight + w;
        prev = Some(entry.public_key);
        i = i + 1;
    }
    proof {
        assert(sigs@.skip(count as int) =~= Seq::<KeyedEd25519Signature>::empty());
    }
    if weight < threshold {
        return Err(Error::InsufficientWeight);
    }
    if n == u64::MAX {
        return Err(Error::ArithmeticOverflow);
    }
    Ok(())
}

/// The outcome `check_auth` would produce in the current state, without
/// touching it: operations use this to validate the proof before making any
/// persistent change.
pub fn auth_outcome(
    e: &Env,
    auth: &KeyedAuthorization,
    domain: Domain,
    parameters: &Vec<Parameter>,
) -> (r: Result<(), Error>)
    requires
        e.wf(),
    ensures
        r == spec_check_auth(e@, *auth, domain, parameters@).1,
{
    match auth {
        KeyedAuthorization::Contract => match e.invoking_contract() {
            Some(_) => Ok(()),
            None => Err(Error::NotAuthorized),
        },
        KeyedAuthorization::Ed25519(kea) => check_ed25519_auth(e, kea, domain, parameters),
        KeyedAuthorization::Account(kaa) => check_account_auth(e, kaa, domain, parameters),
    }
}

/// Consume the nonce of a proof that `auth_outcome` has already accepted;
/// the `Contract` variant consumes none.
pub fn consume_checked_auth(
    e: &mut Env,
    auth: &KeyedAuthorization,
    domain: Domain,
    parameters: &Vec<Parameter>,
)
    requires
        old(e).wf(),
        spec_check_auth(old(e)@, *auth, domain, parameters@).1 is Ok,
    ensures
        final(e).wf(),
        final(e)@ == spec_check_auth(old(e)@, *auth, domain, parameters@).0,
{
    match auth {
        KeyedAuthorization::Contract => {},
        KeyedAuthorization::Ed25519(kea) => {
            let _ = read_and_increment_nonce(e, &Identifier::Ed25519(kea.public_key));
        },
        KeyedAuthorization::Account(kaa) => {
            let _ = read_and_increment_nonce(e, &Identifier::Account(kaa.public_key));
        },
    }
}

/// Check a claimed authorization against the expected operation: resolve
/// the identity, verify the proof against the canonical message bound to
/// the identity's current nonce, and consume that nonce on success.  On
/// failure no persistent change is made.
pub fn check_auth(
    e: &mut Env,
    auth: &KeyedAuthorization,
    domain: Domain,
    parameters: &Vec<Parameter>,
) -> (r: Result<(), Error>)
    requires
        old(e).wf(),
    ensures
        final(e).wf(),
        final(e)@ == spec_check_auth(old(e)@, *auth, domain, parameters@).0,
        r == spec_check_auth(old(e)@, *auth, domain, parameters@).1,
{
    let outcome = auth_outcome(e, auth, domain, parameters);
    match outcome {
        Ok(_) => {
            consume_checked_auth(e, auth, domain, parameters);
            Ok(())
        },
        Err(err) => Err(err),
    }
}

} // verus!
