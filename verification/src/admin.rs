//! The stored administrator identity and admin-proof resolution.

use vstd::prelude::*;

use crate::errors::Error;
use crate::host::{Env, EnvView};
use crate::public_types::{
    bytes32_eq, identifier_eq, spec_get_identifier, Authorization, Identifier,
    KeyedAccountAuthorization, KeyedAuthorization, KeyedEd25519Authorization,
};
use crate::storage_types::{DataKey, StoredVal};

verus! {

/// The stored administrator identity, if one has been set.
pub open spec fn admin_of(s: EnvView) -> Option<Identifier> {
    if s.store.contains_key(DataKey::Admin) {
        match s.store[DataKey::Admin] {
            StoredVal::Id(id) => Some(id),
            _ => None,
        }
    } else {
        None
    }
}

/// Whether the ledger has been initialized with an administrator.
pub fn has_administrator(e: &Env) -> (r: bool)
    ensures
        r == e@.store.contains_key(DataKey::Admin),
{
    e.has(&DataKey::Admin)
}

/// Read the stored administrator identity.
fn read_administrator(e: &Env) -> (r: Option<Identifier>)
    requires
        e.wf(),
    ensures
        r == admin_of(e@),
{
    e.get_id(&DataKey::Admin)
}

/// Overwrite the stored administrator identity.
pub fn write_administrator(e: &mut Env, id: Identifier)
    requires
        old(e).wf(),
    ensures
        final(e).wf(),
        final(e)@.store == old(e)@.store.insert(DataKey::Admin, StoredVal::Id(id)),
        final(e)@.invoker == old(e)@.invoker,
        final(e)@.accounts == old(e)@.accounts,
{
    e.set_id(DataKey::Admin, id);
}

/// Whether a keyed proof claims exactly the stored administrator identity.
pub open spec fn spec_check_admin(s: EnvView, auth: KeyedAuthorization) -> Result<(), Error> {
    match spec_get_identifier(auth, s.invoker) {
        Err(err) => Err(err),
        Ok(id) => match admin_of(s) {
            Some(admin) => if id == admin {
                Ok(())
            } else {
                Err(Error::NotAuthorized)
            },
            None => Err(Error::NotAuthorized),
        },
    }
}

/// Check that a keyed proof claims the stored administrator identity; this
/// does not verify any signature, only the claimed identity.
pub fn check_admin(e: &Env, auth: &KeyedAuthorization) -> (r: Result<(), Error>)
    requires
        e.wf(),
    ensures
        r == spec_check_admin(e@, *auth),
{
    let auth_id = match auth.get_identifier(e) {
        Ok(id) => id,
        Err(err) => {
            return Err(err);
        },
    };
    match read_administrator(e) {
        Some(admin) => {
            if identifier_eq(&auth_id, &admin) {
                Ok(())
            } else {
                Err(Error::NotAuthorized)
            }
        },
        None => Err(Error::NotAuthorized),
    }
}

/// The keyed proof obtained by pairing a generic proof with the stored
/// administrator identity.  The variants must match exactly
/// (`IdentityMismatch` otherwise); a `Contract` administrator must moreover
/// be the live invoking contract (`NotAuthorized` otherwise).
pub open spec fn spec_to_administrator_authorization(s: EnvView, auth: Authorization) -> Result<
    KeyedAuthorization,
    Error,
> {
    match admin_of(s) {
        None => Err(Error::NotAuthorized),
        Some(admin) => match (admin, auth) {
            (Identifier::Contract(addr), Authorization::Contract) => if s.invoker == Some(addr) {
                Ok(KeyedAuthorization::Contract)
            } else {
                Err(Error::NotAuthorized)
            },
            (Identifier::Ed25519(pk), Authorization::Ed25519(sig)) => Ok(
                KeyedAuthorization::Ed25519(
                    KeyedEd25519Authorization { public_key: pk, signature: sig },
                ),
            ),
            (Identifier::Account(ak), Authorization::Account(aa)) => Ok(
                KeyedAuthorization::Account(
                    KeyedAccountAuthorization { public_key: ak, auth: aa },
                ),
            ),
            _ => Err(Error::IdentityMismatch),
        },
    }
}

/// Pair a generic proof with the stored administrator identity, so that
/// admin-gated operations reuse the same verification path as user ones.
pub fn to_administrator_authorization(e: &Env, auth: Authorization) -> (r: Result<
    KeyedAuthorization,
    Error,
>)
    requires
        e.wf(),
    ensures
        r == spec_to_administrator_authorization(e@, auth),
{
    let admin = match read_administrator(e) {
        Some(admin) => admin,
        None => {
            return Err(Error::NotAuthorized);
        },
    };
    match (admin, auth) {
        (Identifier::Contract(addr), Authorization::Contract) => {
            match e.invoking_contract() {
                Some(inv) => {
                    if bytes32_eq(&inv, &addr) {
                        Ok(KeyedAuthorization::Contract)
                    } else {
                        Err(Error::NotAuthorized)
                    }
                },
                None => Err(Error::NotAuthorized),
            }
        },
        (Identifier::Ed25519(pk), Authorization::Ed25519(sig)) => Ok(
            KeyedAuthorization::Ed25519(
                KeyedEd25519Authorization { public_key: pk, signature: sig },
            ),
        ),
        (Identifier::Account(ak), Authorization::Account(aa)) => Ok(
            KeyedAuthorization::Account(KeyedAccountAuthorization { public_key: ak, auth: aa }),
        ),
        _ => Err(Error::IdentityMismatch),
    }
}

} // verus!
