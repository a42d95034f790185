//! Conveniences for driving the contract from tests: derive an identity
//! from a keypair, and a client that signs canonical messages with a
//! keypair and submits them.

use vstd::prelude::*;

use ed25519_dalek::Keypair;

use crate::contract::Token as Contract;
use crate::contract::TokenTrait;
use crate::cryptography::Domain;
use crate::errors::Error;
use crate::hashing::sha256;
use crate::host::Env;
use crate::codec::payload_to_bytes;
use crate::public_types::{
    Authorization, Identifier, KeyedAuthorization, KeyedEd25519Authorization, Parameter, U256,
    U512,
};
use crate::signing::sign_message;

verus! {

/// Relies on `ed25519_dalek::Keypair`: the `public` half identifies the
/// keypair, so its bytes form the keypair's `Ed25519` identity.
#[verifier::external_body]
pub fn to_ed25519(kp: &Keypair) -> (r: Identifier)
{
    Identifier::Ed25519(kp.public.to_bytes())
}

/// Sign the canonical payload for `(nonce, domain, params)` with `kp` and
/// return the keyed single-signature proof.
fn sign_payload(kp: &Keypair, nonce: u64, domain: Domain, params: &Vec<Parameter>) -> (r:
    KeyedEd25519Authorization)
{
    let bytes = payload_to_bytes(nonce, &domain, params);
    let digest = sha256(&bytes);
    let (public_key, signature) = sign_message(kp, &digest);
    KeyedEd25519Authorization { public_key, signature }
}

/// A single-parameter argument tuple.
fn args1(a: Parameter) -> (v: Vec<Parameter>) {
    let mut v: Vec<Parameter> = Vec::new();
    v.push(a);
    v
}

/// A two-parameter argument tuple.
fn args2(a: Parameter, b: Parameter) -> (v: Vec<Parameter>) {
    let mut v: Vec<Parameter> = Vec::new();
    v.push(a);
    v.push(b);
    v
}

/// A three-parameter argument tuple.
fn args3(a: Parameter, b: Parameter, c: Parameter) -> (v: Vec<Parameter>) {
    let mut v: Vec<Parameter> = Vec::new();
    v.push(a);
    v.push(b);
    v.push(c);
    v
}

/// A client of one deployed token contract: it derives the signer's
/// identity and current nonce, signs the canonical message for each
/// operation, and submits the call.  Each method behaves as the
/// corresponding `Token` operation under the freshly signed proof.
pub struct Token {
    pub contract_id: U256,
}

impl Token {
    /// A client for the contract at `contract_id`.
    pub fn new(contract_id: &U256) -> Token {
        Token { contract_id: *contract_id }
    }

    /// Initialize the ledger.
    pub fn initialize(
        &self,
        e: &mut Env,
        admin: &Identifier,
        decimals: u32,
        name: Vec<u8>,
        symbol: Vec<u8>,
    ) -> (r: Result<(), Error>)
        requires
            old(e).wf(),
        ensures
            final(e).wf(),
            final(e)@ == crate::contract::spec_initialize(old(e)@, *admin, decimals, name@, symbol@).0,
            r == crate::contract::spec_initialize(old(e)@, *admin, decimals, name@, symbol@).1,
    {
        Contract::initialize(e, *admin, decimals, name, symbol)
    }

    /// The current nonce of `id`.
    pub fn nonce(&self, e: &Env, id: &Identifier) -> (r: u64)
        requires
            e.wf(),
        ensures
            r == crate::nonce::nonce_of(e@, *id),
    {
        Contract::nonce(e, id)
    }

    /// The current allowance of `(from, spender)`.
    pub fn allowance(&self, e: &Env, from: &Identifier, spender: &Identifier) -> (r: u64)
        requires
            e.wf(),
        ensures
            r == crate::allowance::allowance_of(e@, *from, *spender),
    {
        Contract::allowance(e, from, spender)
    }

    /// The current balance of `id`.
    pub fn balance(&self, e: &Env, id: &Identifier) -> (r: u64)
        requires
            e.wf(),
        ensures
            r == crate::balance::balance_of(e@, *id),
    {
        Contract::balance(e, id)
    }

    /// Whether `id` is frozen.
    pub fn is_frozen(&self, e: &Env, id: &Identifier) -> (r: bool)
        requires
            e.wf(),
        ensures
            r == crate::balance::frozen_of(e@, *id),
    {
        Contract::is_frozen(e, id)
    }

    /// Approve `spender` for `amount`, signed by `from`.
    pub fn approve(
        &self,
        e: &mut Env,
        from: &Keypair,
        spender: &Identifier,
        amount: u64,
    ) -> (r: Result<(), Error>)
        requires
            old(e).wf(),
        ensures
            final(e).wf(),
            exists|kea: KeyedEd25519Authorization|
                #![auto]
                r == crate::contract::spec_approve(
                    old(e)@,
                    KeyedAuthorization::Ed25519(kea),
                    *spender,
                    amount,
                ).1 && final(e)@ == crate::contract::spec_approve(
                    old(e)@,
                    KeyedAuthorization::Ed25519(kea),
                    *spender,
                    amount,
                ).0,
    {
        let from_id = to_ed25519(from);
        let n = Contract::nonce(e, &from_id);
        let params = args2(Parameter::Id(*spender), Parameter::Amount(amount));
        let auth = sign_payload(from, n, Domain::Approve, &params);
        let r = Contract::approve(e, KeyedAuthorization::Ed25519(auth), *spender, amount);
        r
    }

    /// Transfer `amount` to `to`, signed by `from`.
    pub fn xfer(&self, e: &mut Env, from: &Keypair, to: &Identifier, amount: u64) -> (r: Result<
        (),
        Error,
    >)
        requires
            old(e).wf(),
        ensures
            final(e).wf(),
            exists|kea: KeyedEd25519Authorization|
                #![auto]
                r == crate::contract::spec_xfer(
                    old(e)@,
                    KeyedAuthorization::Ed25519(kea),
                    *to,
                    amount,
                ).1 && final(e)@ == crate::contract::spec_xfer(
                    old(e)@,
                    KeyedAuthorization::Ed25519(kea),
                    *to,
                    amount,
                ).0,
    {
        let from_id = to_ed25519(from);
        let n = Contract::nonce(e, &from_id);
        let params = args2(Parameter::Id(*to), Parameter::Amount(amount));
        let auth = sign_payload(from, n, Domain::Transfer, &params);
        let r = Contract::xfer(e, KeyedAuthorization::Ed25519(auth), *to, amount);
        r
    }

    /// Transfer `amount` from `from` to `to` out of the spender's
    /// allowance, signed by `spender`.
    pub fn xfer_from(
        &self,
        e: &mut Env,
        spender: &Keypair,
        from: &Identifier,
        to: &Identifier,
        amount: u64,
    ) -> (r: Result<(), Error>)
        requires
            old(e).wf(),
        ensures
            final(e).wf(),
            exists|kea: KeyedEd25519Authorization|
                #![auto]
                r == crate::contract::spec_xfer_from(
                    old(e)@,
                    KeyedAuthorization::Ed25519(kea),
                    *from,
                    *to,
                    amount,
                ).1 && final(e)@ == crate::contract::spec_xfer_from(
                    old(e)@,
                    KeyedAuthorization::Ed25519(kea),
                    *from,
                    *to,
                    amount,
                ).0,
    {
        let spender_id = to_ed25519(spender);
        let n = Contract::nonce(e, &spender_id);
        let params = args3(Parameter::Id(*from), Parameter::Id(*to), Parameter::Amount(amount));
        let auth = sign_payload(spender, n, Domain::TransferFrom, &params);
        let r = Contract::xfer_from(e, KeyedAuthorization::Ed25519(auth), *from, *to, amount);
        r
    }

    /// Burn `amount` from `from`, signed by the administrator.
    pub fn burn(&self, e: &mut Env, admin: &Keypair, from: &Identifier, amount: u64) -> (r: Result<
        (),
        Error,
    >)
        requires
            old(e).wf(),
        ensures
            final(e).wf(),
            exists|sig: U512|
                #![auto]
                r == crate::contract::spec_burn(old(e)@, Authorization::Ed25519(sig), *from, amount).1
                    && final(e)@ == crate::contract::spec_burn(
                    old(e)@,
                    Authorization::Ed25519(sig),
                    *from,
                    amount,
                ).0,
    {
        let admin_id = to_ed25519(admin);
        let n = Contract::nonce(e, &admin_id);
        let params = args2(Parameter::Id(*from), Parameter::Amount(amount));
        let auth = sign_payload(admin, n, Domain::Burn, &params);
        let r = Contract::burn(e, Authorization::Ed25519(auth.signature), *from, amount);
        r
    }

    /// Freeze `id`, signed by the administrator.
    pub fn freeze(&self, e: &mut Env, admin: &Keypair, id: &Identifier) -> (r: Result<(), Error>)
        requires
            old(e).wf(),
        ensures
            final(e).wf(),
            exists|sig: U512|
                #![auto]
                r == crate::contract::spec_freeze(old(e)@, Authorization::Ed25519(sig), *id).1
                    && final(e)@ == crate::contract::spec_freeze(
                    old(e)@,
                    Authorization::Ed25519(sig),
                    *id,
                ).0,
    {
        let admin_id = to_ed25519(admin);
        let n = Contract::nonce(e, &admin_id);
        let params = args1(Parameter::Id(*id));
        let auth = sign_payload(admin, n, Domain::Freeze, &params);
        let r = Contract::freeze(e, Authorization::Ed25519(auth.signature), *id);
        r
    }

    /// Mint `amount` to `to`, signed by the administrator.
    pub fn mint(&self, e: &mut Env, admin: &Keypair, to: &Identifier, amount: u64) -> (r: Result<
        (),
        Error,
    >)
        requires
            old(e).wf(),
        ensures
            final(e).wf(),
            exists|sig: U512|
                #![auto]
                r == crate::contract::spec_mint(old(e)@, Authorization::Ed25519(sig), *to, amount).1
                    && final(e)@ == crate::contract::spec_mint(
                    old(e)@,
                    Authorization::Ed25519(sig),
                    *to,
                    amount,
                ).0,
    {
        let admin_id = to_ed25519(admin);
        let n = Contract::nonce(e, &admin_id);
        let params = args2(Parameter::Id(*to), Parameter::Amount(amount));
        let auth = sign_payload(admin, n, Domain::Mint, &params);
        let r = Contract::mint(e, Authorization::Ed25519(auth.signature), *to, amount);
        r
    }

    /// Hand the administrator role to `new_admin`, signed by the current
    /// administrator.
    pub fn set_admin(&self, e: &mut Env, admin: &Keypair, new_admin: &Identifier) -> (r: Result<
        (),
        Error,
    >)
        requires
            old(e).wf(),
        ensures
            final(e).wf(),
            exists|sig: U512|
                #![auto]
                r == crate::contract::spec_set_admin(
                    old(e)@,
                    Authorization::Ed25519(sig),
                    *new_admin,
                ).1 && final(e)@ == crate::contract::spec_set_admin(
                    old(e)@,
                    Authorization::Ed25519(sig),
                    *new_admin,
                ).0,
    {
        let admin_id = to_ed25519(admin);
        let n = Contract::nonce(e, &admin_id);
        let params = args1(Parameter::Id(*new_admin));
        let auth = sign_payload(admin, n, Domain::SetAdministrator, &params);
        let r = Contract::set_admin(e, Authorization::Ed25519(auth.signature), *new_admin);
        r
    }

    /// Unfreeze `id`, signed by the administrator.
    pub fn unfreeze(&self, e: &mut Env, admin: &Keypair, id: &Identifier) -> (r: Result<(), Error>)
        requires
            old(e).wf(),
        ensures
            final(e).wf(),
            exists|sig: U512|
                #![auto]
                r == crate::contract::spec_unfreeze(old(e)@, Authorization::Ed25519(sig), *id).1
                    && final(e)@ == crate::contract::spec_unfreeze(
                    old(e)@,
                    Authorization::Ed25519(sig),
                    *id,
                ).0,
    {
        let admin_id = to_ed25519(admin);
        let n = Contract::nonce(e, &admin_id);
        let params = args1(Parameter::Id(*id));
        let auth = sign_payload(admin, n, Domain::Unfreeze, &params);
        let r = Contract::unfreeze(e, Authorization::Ed25519(auth.signature), *id);
        r
    }

    /// The decimal count of an initialized ledger.
    pub fn decimals(&self, e: &Env) -> (r: u32)
        requires
            e.wf(),
            crate::metadata::decimals_of(e@) is Some,
        ensures
            Some(r) == crate::metadata::decimals_of(e@),
    {
        Contract::decimals(e)
    }

    /// The name of an initialized ledger.
    pub fn name(&self, e: &Env) -> (r: Vec<u8>)
        requires
            e.wf(),
            crate::metadata::name_of(e@) is Some,
        ensures
            Some(r@) == crate::metadata::name_of(e@),
    {
        Contract::name(e)
    }

    /// The symbol of an initialized ledger.
    pub fn symbol(&self, e: &Env) -> (r: Vec<u8>)
        requires
            e.wf(),
            crate::metadata::symbol_of(e@) is Some,
        ensures
            Some(r@) == crate::metadata::symbol_of(e@),
    {
        Contract::symbol(e)
    }
}

} // verus!
