//! The token contract: its public operations and their full transition
//! specifications.
//!
//! Every state-changing operation is atomic: either the authorization
//! check, the nonce consumption, and the ledger mutation all take effect,
//! or the call returns an error and the state is unchanged.  The
//! executable code achieves this by validating the proof and the ledger
//! preconditions before the first write.

use vstd::prelude::*;

use crate::admin::{
    has_administrator, spec_to_administrator_authorization, to_administrator_authorization,
    write_administrator,
};
use crate::allowance::{allowance_key, allowance_of, read_allowance, spend_allowance, write_allowance};
use crate::balance::{
    balance_of, frozen_of, read_balance, read_state, receive_balance, spend_balance, write_state,
};
use crate::cryptography::{auth_outcome, consume_checked_auth, spec_check_auth, Domain};
use crate::errors::Error;
use crate::host::{Env, EnvView};
use crate::metadata::{
    decimals_of, name_of, read_decimal, read_name, read_symbol, symbol_of, write_decimal,
    write_name, write_symbol,
};
use crate::nonce::{nonce_of, read_nonce};
use crate::public_types::{
    identifier_eq, spec_get_identifier, Authorization, Identifier, KeyedAuthorization, Parameter,
};
use crate::storage_types::{DataKey, StoredVal};

verus! {

/// `s` with its store replaced.
pub open spec fn with_store(s: EnvView, store: Map<DataKey, StoredVal>) -> EnvView {
    EnvView { store, invoker: s.invoker, accounts: s.accounts }
}

/// `s` with `id`'s balance set to `a`.
pub open spec fn set_balance(s: EnvView, id: Identifier, a: u64) -> EnvView {
    with_store(s, s.store.insert(DataKey::Balance(id), StoredVal::Amount(a)))
}

/// `s` with the allowance of `(from, spender)` set to `a`.
pub open spec fn set_allowance(s: EnvView, from: Identifier, spender: Identifier, a: u64) -> EnvView {
    with_store(s, s.store.insert(allowance_key(from, spender), StoredVal::Amount(a)))
}

/// `s` with `id`'s frozen flag set to `f`.
pub open spec fn set_frozen(s: EnvView, id: Identifier, f: bool) -> EnvView {
    with_store(s, s.store.insert(DataKey::State(id), StoredVal::Flag(f)))
}

/// The transition of `initialize`.
pub open spec fn spec_initialize(
    s: EnvView,
    admin: Identifier,
    decimal: u32,
    name: Seq<u8>,
    symbol: Seq<u8>,
) -> (EnvView, Result<(), Error>) {
    if s.store.contains_key(DataKey::Admin) {
        (s, Err(Error::AlreadyInitialized))
    } else if decimal > 255 {
        (s, Err(Error::InvalidConfiguration))
    } else {
        (
            with_store(
                s,
                s.store.insert(DataKey::Admin, StoredVal::Id(admin)).insert(
                    DataKey::Decimals,
                    StoredVal::Word(decimal),
                ).insert(DataKey::Name, StoredVal::Bytes(name)).insert(
                    DataKey::Symbol,
                    StoredVal::Bytes(symbol),
                ),
            ),
            Ok(()),
        )
    }
}

/// The transition of `approve`: on authorized success the allowance of
/// `(signer, spender)` is overwritten with `amount`.
pub open spec fn spec_approve(
    s: EnvView,
    from_auth: KeyedAuthorization,
    spender: Identifier,
    amount: u64,
) -> (EnvView, Result<(), Error>) {
    let params = seq![Parameter::Id(spender), Parameter::Amount(amount)];
    match spec_get_identifier(from_auth, s.invoker) {
        Err(err) => (s, Err(err)),
        Ok(from_id) => {
            let auth = spec_check_auth(s, from_auth, Domain::Approve, params);
            match auth.1 {
                Err(err) => (s, Err(err)),
                Ok(_) => (set_allowance(auth.0, from_id, spender, amount), Ok(())),
            }
        },
    }
}

/// The spend-then-receive ledger movement shared by the transfer-shaped
/// operations, applied to the state `s1` after a successful authorization;
/// `orig` is returned unchanged on failure.
pub open spec fn spec_move_balance(
    orig: EnvView,
    s1: EnvView,
    from: Identifier,
    to: Identifier,
    amount: u64,
) -> (EnvView, Result<(), Error>) {
    if frozen_of(s1, from) {
        (orig, Err(Error::FrozenAccount))
    } else if balance_of(s1, from) < amount {
        (orig, Err(Error::InsufficientBalance))
    } else {
        let s2 = set_balance(s1, from, (balance_of(s1, from) - amount) as u64);
        if frozen_of(s2, to) {
            (orig, Err(Error::FrozenAccount))
        } else if balance_of(s2, to) + amount > u64::MAX {
            (orig, Err(Error::ArithmeticOverflow))
        } else {
            (set_balance(s2, to, (balance_of(s2, to) + amount) as u64), Ok(()))
        }
    }
}

/// The transition of `xfer`: on authorized success `amount` moves from the
/// signer to `to`.
pub open spec fn spec_xfer(
    s: EnvView,
    from_auth: KeyedAuthorization,
    to: Identifier,
    amount: u64,
) -> (EnvView, Result<(), Error>) {
    let params = seq![Parameter::Id(to), Parameter::Amount(amount)];
    match spec_get_identifier(from_auth, s.invoker) {
        Err(err) => (s, Err(err)),
        Ok(from_id) => {
            let auth = spec_check_auth(s, from_auth, Domain::Transfer, params);
            match auth.1 {
                Err(err) => (s, Err(err)),
                Ok(_) => spec_move_balance(s, auth.0, from_id, to, amount),
            }
        },
    }
}

/// The transition of `xfer_from`: on authorized success the signer spends
/// `amount` of its allowance from `from` and the amount moves to `to`.
pub open spec fn spec_xfer_from(
    s: EnvView,
    spender_auth: KeyedAuthorization,
    from: Identifier,
    to: Identifier,
    amount: u64,
) -> (EnvView, Result<(), Error>) {
    let params = seq![Parameter::Id(from), Parameter::Id(to), Parameter::Amount(amount)];
    match spec_get_identifier(spender_auth, s.invoker) {
        Err(err) => (s, Err(err)),
        Ok(spender_id) => {
            let auth = spec_check_auth(s, spender_auth, Domain::TransferFrom, params);
            match auth.1 {
                Err(err) => (s, Err(err)),
                Ok(_) => {
                    let s1 = auth.0;
                    if allowance_of(s1, from, spender_id) < amount {
                        (s, Err(Error::InsufficientAllowance))
                    } else {
                        let s2 = set_allowance(
                            s1,
                            from,
                            spender_id,
                            (allowance_of(s1, from, spender_id) - amount) as u64,
                        );
                        spec_move_balance(s, s2, from, to, amount)
                    }
                },
            }
        },
    }
}

/// The admin-authorization step shared by the admin-gated transitions: the
/// keyed proof for the stored administrator, then its check.
pub open spec fn spec_admin_auth(
    s: EnvView,
    admin_auth: Authorization,
    domain: Domain,
    params: Seq<Parameter>,
) -> (EnvView, Result<(), Error>) {
    match spec_to_administrator_authorization(s, admin_auth) {
        Err(err) => (s, Err(err)),
        Ok(ka) => {
            let auth = spec_check_auth(s, ka, domain, params);
            match auth.1 {
                Err(err) => (s, Err(err)),
                Ok(_) => (auth.0, Ok(())),
            }
        },
    }
}

/// The transition of `burn`: on admin-authorized success `amount` leaves
/// `from`'s balance.
pub open spec fn spec_burn(
    s: EnvView,
    admin_auth: Authorization,
    from: Identifier,
    amount: u64,
) -> (EnvView, Result<(), Error>) {
    let params = seq![Parameter::Id(from), Parameter::Amount(amount)];
    let auth = spec_admin_auth(s, admin_auth, Domain::Burn, params);
    match auth.1 {
        Err(err) => (s, Err(err)),
        Ok(_) => {
            let s1 = auth.0;
            if frozen_of(s1, from) {
                (s, Err(Error::FrozenAccount))
            } else if balance_of(s1, from) < amount {
                (s, Err(Error::InsufficientBalance))
            } else {
                (set_balance(s1, from, (balance_of(s1, from) - amount) as u64), Ok(()))
            }
        },
    }
}

/// The transition of `freeze`: on admin-authorized success `id` is frozen.
pub open spec fn spec_freeze(s: EnvView, admin_auth: Authorization, id: Identifier) -> (
    EnvView,
    Result<(), Error>,
) {
    let params = seq![Parameter::Id(id)];
    let auth = spec_admin_auth(s, admin_auth, Domain::Freeze, params);
    match auth.1 {
        Err(err) => (s, Err(err)),
        Ok(_) => (set_frozen(auth.0, id, true), Ok(())),
    }
}

/// The transition of `mint`: on admin-authorized success `amount` joins
/// `to`'s balance.
pub open spec fn spec_mint(
    s: EnvView,
    admin_auth: Authorization,
    to: Identifier,
    amount: u64,
) -> (EnvView, Result<(), Error>) {
    let params = seq![Parameter::Id(to), Parameter::Amount(amount)];
    let auth = spec_admin_auth(s, admin_auth, Domain::Mint, params);
    match auth.1 {
        Err(err) => (s, Err(err)),
        Ok(_) => {
            let s1 = auth.0;
            if frozen_of(s1, to) {
                (s, Err(Error::FrozenAccount))
            } else if balance_of(s1, to) + amount > u64::MAX {
                (s, Err(Error::ArithmeticOverflow))
            } else {
                (set_balance(s1, to, (balance_of(s1, to) + amount) as u64), Ok(()))
            }
        },
    }
}

/// The transition of `set_admin`: on admin-authorized success the stored
/// administrator becomes `new_admin`.
pub open spec fn spec_set_admin(s: EnvView, admin_auth: Authorization, new_admin: Identifier) -> (
    EnvView,
    Result<(), Error>,
) {
    let params = seq![Parameter::Id(new_admin)];
    let auth = spec_admin_auth(s, admin_auth, Domain::SetAdministrator, params);
    match auth.1 {
        Err(err) => (s, Err(err)),
        Ok(_) => (
            with_store(auth.0, auth.0.store.insert(DataKey::Admin, StoredVal::Id(new_admin))),
            Ok(()),
        ),
    }
}

/// The transition of `unfreeze`: on admin-authorized success `id` is
/// unfrozen.
pub open spec fn spec_unfreeze(s: EnvView, admin_auth: Authorization, id: Identifier) -> (
    EnvView,
    Result<(), Error>,
) {
    let params = seq![Parameter::Id(id)];
    let auth = spec_admin_auth(s, admin_auth, Domain::Unfreeze, params);
    match auth.1 {
        Err(err) => (s, Err(err)),
        Ok(_) => (set_frozen(auth.0, id, false), Ok(())),
    }
}

/// A one-parameter argument tuple.
fn params1(a: Parameter) -> (v: Vec<Parameter>)
    ensures
        v@ == seq![a],
{
    let mut v: Vec<Parameter> = Vec::new();
    v.push(a);
    proof {
        assert(v@ =~= seq![a]);
    }
    v
}

/// A two-parameter argument tuple.
fn params2(a: Parameter, b: Parameter) -> (v: Vec<Parameter>)
    ensures
        v@ == seq![a, b],
{
    let mut v: Vec<Parameter> = Vec::new();
    v.push(a);
    v.push(b);
    proof {
        assert(v@ =~= seq![a, b]);
    }
    v
}

/// A three-parameter argument tuple.
fn params3(a: Parameter, b: Parameter, c: Parameter) -> (v: Vec<Parameter>)
    ensures
        v@ == seq![a, b, c],
{
    let mut v: Vec<Parameter> = Vec::new();
    v.push(a);
    v.push(b);
    v.push(c);
    proof {
        assert(v@ =~= seq![a, b, c]);
    }
    v
}

/// The operations of the token contract, with their full transition
/// contracts.
pub trait TokenTrait {

    /// Set the administrator and the metadata of a fresh ledger.  Fails
    /// with `AlreadyInitialized` on a ledger that has an administrator and
    /// with `InvalidConfiguration` when `decimal` does not fit in eight
    /// bits; on failure nothing changes.
    fn initialize(
        e: &mut Env,
        admin: Identifier,
        decimal: u32,
        name: Vec<u8>,
        symbol: Vec<u8>,
    ) -> (r: Result<(), Error>)
        requires
            old(e).wf(),
        ensures
            final(e).wf(),
            final(e)@ == spec_initialize(old(e)@, admin, decimal, name@, symbol@).0,
            r == spec_initialize(old(e)@, admin, decimal, name@, symbol@).1,
    ;

    /// The current nonce of an identity.
    fn nonce(e: &Env, id: &Identifier) -> (r: u64)
        requires
            e.wf(),
        ensures
            r == nonce_of(e@, *id),
    ;

    /// The current allowance of a grantor/spender pair.
    fn allowance(e: &Env, from: &Identifier, spender: &Identifier) -> (r: u64)
        requires
            e.wf(),
        ensures
            r == allowance_of(e@, *from, *spender),
    ;

    /// The current balance of an identity.
    fn balance(e: &Env, id: &Identifier) -> (r: u64)
        requires
            e.wf(),
        ensures
            r == balance_of(e@, *id),
    ;

    /// Whether an identity is frozen.
    fn is_frozen(e: &Env, id: &Identifier) -> (r: bool)
        requires
            e.wf(),
        ensures
            r == frozen_of(e@, *id),
    ;

    /// The decimal count of an initialized ledger.
    fn decimals(e: &Env) -> (r: u32)
        requires
            e.wf(),
            decimals_of(e@) is Some,
        ensures
            Some(r) == decimals_of(e@),
    ;

    /// The name of an initialized ledger.
    fn name(e: &Env) -> (r: Vec<u8>)
        requires
            e.wf(),
            name_of(e@) is Some,
        ensures
            Some(r@) == name_of(e@),
    ;

    /// The symbol of an initialized ledger.
    fn symbol(e: &Env) -> (r: Vec<u8>)
        requires
            e.wf(),
            symbol_of(e@) is Some,
        ensures
            Some(r@) == symbol_of(e@),
    ;

    /// Set the allowance of `(signer, spender)` to `amount`, authorized by
    /// the signer's keyed proof over `(spender, amount)`.
    fn approve(
        e: &mut Env,
        from: KeyedAuthorization,
        spender: Identifier,
        amount: u64,
    ) -> (r: Result<(), Error>)
        requires
            old(e).wf(),
        ensures
            final(e).wf(),
            final(e)@ == spec_approve(old(e)@, from, spender, amount).0,
            r == spec_approve(old(e)@, from, spender, amount).1,
    ;

    /// Move `amount` from the signer to `to`, authorized by the signer's
    /// keyed proof over `(to, amount)`.
    fn xfer(e: &mut Env, from: KeyedAuthorization, to: Identifier, amount: u64) -> (r: Result<
        (),
        Error,
    >)
        requires
            old(e).wf(),
        ensures
            final(e).wf(),
            final(e)@ == spec_xfer(old(e)@, from, to, amount).0,
            r == spec_xfer(old(e)@, from, to, amount).1,
    ;

    /// Move `amount` from `from` to `to` out of the signer's allowance,
    /// authorized by the signer's keyed proof over `(from, to, amount)`.
    fn xfer_from(
        e: &mut Env,
        spender: KeyedAuthorization,
        from: Identifier,
        to: Identifier,
        amount: u64,
    ) -> (r: Result<(), Error>)
        requires
            old(e).wf(),
        ensures
            final(e).wf(),
            final(e)@ == spec_xfer_from(old(e)@, spender, from, to, amount).0,
            r == spec_xfer_from(old(e)@, spender, from, to, amount).1,
    ;

    /// Remove `amount` from `from`'s balance, authorized by the stored
    /// administrator's proof over `(from, amount)`.
    fn burn(e: &mut Env, admin: Authorization, from: Identifier, amount: u64) -> (r: Result<
        (),
        Error,
    >)
        requires
            old(e).wf(),
        ensures
            final(e).wf(),
            final(e)@ == spec_burn(old(e)@, admin, from, amount).0,
            r == spec_burn(old(e)@, admin, from, amount).1,
    ;

    /// Freeze `id`, authorized by the stored administrator's proof over
    /// `(id)`.
    fn freeze(e: &mut Env, admin: Authorization, id: Identifier) -> (r: Result<(), Error>)
        requires
            old(e).wf(),
        ensures
            final(e).wf(),
            final(e)@ == spec_freeze(old(e)@, admin, id).0,
            r == spec_freeze(old(e)@, admin, id).1,
    ;

    /// Add `amount` to `to`'s balance, authorized by the stored
    /// administrator's proof over `(to, amount)`.
    fn mint(e: &mut Env, admin: Authorization, to: Identifier, amount: u64) -> (r: Result<
        (),
        Error,
    >)
        requires
            old(e).wf(),
        ensures
            final(e).wf(),
            final(e)@ == spec_mint(old(e)@, admin, to, amount).0,
            r == spec_mint(old(e)@, admin, to, amount).1,
    ;

    /// Replace the stored administrator with `new_admin`, authorized by the
    /// current administrator's proof over `(new_admin)`.
    fn set_admin(e: &mut Env, admin: Authorization, new_admin: Identifier) -> (r: Result<
        (),
        Error,
    >)
        requires
            old(e).wf(),
        ensures
            final(e).wf(),
            final(e)@ == spec_set_admin(old(e)@, admin, new_admin).0,
            r == spec_set_admin(old(e)@, admin, new_admin).1,
    ;

    /// Unfreeze `id`, authorized by the stored administrator's proof over
    /// `(id)`.
    fn unfreeze(e: &mut Env, admin: Authorization, id: Identifier) -> (r: Result<(), Error>)
        requires
            old(e).wf(),
        ensures
            final(e).wf(),
            final(e)@ == spec_unfreeze(old(e)@, admin, id).0,
            r == spec_unfreeze(old(e)@, admin, id).1,
    ;
}

/// The token contract.
pub struct Token;

impl TokenTrait for Token {
    fn initialize(
        e: &mut Env,
        admin: Identifier,
        decimal: u32,
        name: Vec<u8>,
        symbol: Vec<u8>,
    ) -> (r: Result<(), Error>)
    {
        if has_administrator(e) {
            return Err(Error::AlreadyInitialized);
        }
        if decimal > 255 {
            return Err(Error::InvalidConfiguration);
        }
        write_administrator(e, admin);
        write_decimal(e, decimal as u8);
        write_name(e, name);
        write_symbol(e, symbol);
        Ok(())
    }

    fn nonce(e: &Env, id: &Identifier) -> (r: u64)
    {
        read_nonce(e, id)
    }

    fn allowance(e: &Env, from: &Identifier, spender: &Identifier) -> (r: u64)
    {
        read_allowance(e, from, spender)
    }

    fn balance(e: &Env, id: &Identifier) -> (r: u64)
    {
        read_balance(e, id)
    }

    fn is_frozen(e: &Env, id: &Identifier) -> (r: bool)
    {
        read_state(e, id)
    }

    fn decimals(e: &Env) -> (r: u32)
    {
        read_decimal(e)
    }

    fn name(e: &Env) -> (r: Vec<u8>)
    {
        read_name(e)
    }

    fn symbol(e: &Env) -> (r: Vec<u8>)
    {
        read_symbol(e)
    }

    fn approve(
        e: &mut Env,
        from: KeyedAuthorization,
        spender: Identifier,
        amount: u64,
    ) -> (r: Result<(), Error>)
    {
        let from_id = match from.get_identifier(e) {
            Ok(id) => id,
            Err(err) => {
                return Err(err);
            },
        };
        let params = params2(Parameter::Id(spender), Parameter::Amount(amount));
        match auth_outcome(e, &from, Domain::Approve, &params) {
            Ok(_) => {},
            Err(err) => {
                return Err(err);
            },
        }
        consume_checked_auth(e, &from, Domain::Approve, &params);
        write_allowance(e, &from_id, &spender, amount);
        Ok(())
    }

    fn xfer(e: &mut Env, from: KeyedAuthorization, to: Identifier, amount: u64) -> (r: Result<
        (),
        Error,
    >)
    {
        let from_id = match from.get_identifier(e) {
            Ok(id) => id,
            Err(err) => {
                return Err(err);
            },
        };
        let params = params2(Parameter::Id(to), Parameter::Amount(amount));
        match auth_outcome(e, &from, Domain::Transfer, &params) {
            Ok(_) => {},
            Err(err) => {
                return Err(err);
            },
        }
        if read_state(e, &from_id) {
            return Err(Error::FrozenAccount);
        }
        let bal_from = read_balance(e, &from_id);
        if bal_from < amount {
            return Err(Error::InsufficientBalance);
        }
        if read_state(e, &to) {
            return Err(Error::FrozenAccount);
        }
        let to_bal = if identifier_eq(&to, &from_id) {
            bal_from - amount
        } else {
            read_balance(e, &to)
        };
        if amount > u64::MAX - to_bal {
            return Err(Error::ArithmeticOverflow);
        }
        consume_checked_auth(e, &from, Domain::Transfer, &params);
        let spent = spend_balance(e, &from_id, amount);
        proof {
            assert(spent is Ok);
        }
        let received = receive_balance(e, &to, amount);
        proof {
            assert(received is Ok);
        }
        Ok(())
    }

    fn xfer_from(
        e: &mut Env,
        spender: KeyedAuthorization,
        from: Identifier,
        to: Identifier,
        amount: u64,
    ) -> (r: Result<(), Error>)
    {
        let spender_id = match spender.get_identifier(e) {
            Ok(id) => id,
            Err(err) => {
                return Err(err);
            },
        };
        let params = params3(Parameter::Id(from), Parameter::Id(to), Parameter::Amount(amount));
        match auth_outcome(e, &spender, Domain::TransferFrom, &params) {
            Ok(_) => {},
            Err(err) => {
                return Err(err);
            },
        }
        let allowance = read_allowance(e, &from, &spender_id);
        if allowance < amount {
            return Err(Error::InsufficientAllowance);
        }
        if read_state(e, &from) {
            return Err(Error::FrozenAccount);
        }
        let bal_from = read_balance(e, &from);
        if bal_from < amount {
            return Err(Error::InsufficientBalance);
        }
        if read_state(e, &to) {
            return Err(Error::FrozenAccount);
        }
        let to_bal = if identifier_eq(&to, &from) {
            bal_from - amount
        } else {
            read_balance(e, &to)
        };
        if amount > u64::MAX - to_bal {
            return Err(Error::ArithmeticOverflow);
        }
        consume_checked_auth(e, &spender, Domain::TransferFrom, &params);
        let spent_allowance = spend_allowance(e, &from, &spender_id, amount);
        proof {
            assert(spent_allowance is Ok);
        }
        let spent = spend_balance(e, &from, amount);
        proof {
            assert(spent is Ok);
        }
        let received = receive_balance(e, &to, amount);
        proof {
            assert(received is Ok);
        }
        Ok(())
    }

    fn burn(e: &mut Env, admin: Authorization, from: Identifier, amount: u64) -> (r: Result<
        (),
        Error,
    >)
    {
        let ka = match to_administrator_authorization(e, admin) {
            Ok(k) => k,
            Err(err) => {
                return Err(err);
            },
        };
        let params = params2(Parameter::Id(from), Parameter::Amount(amount));
        match auth_outcome(e, &ka, Domain::Burn, &params) {
            Ok(_) => {},
            Err(err) => {
                return Err(err);
            },
        }
        if read_state(e, &from) {
            return Err(Error::FrozenAccount);
        }
        let bal = read_balance(e, &from);
        if bal < amount {
            return Err(Error::InsufficientBalance);
        }
        consume_checked_auth(e, &ka, Domain::Burn, &params);
        let spent = spend_balance(e, &from, amount);
        proof {
            assert(spent is Ok);
        }
        Ok(())
    }

    fn freeze(e: &mut Env, admin: Authorization, id: Identifier) -> (r: Result<(), Error>)
    {
        let ka = match to_administrator_authorization(e, admin) {
            Ok(k) => k,
            Err(err) => {
                return Err(err);
            },
        };
        let params = params1(Parameter::Id(id));
        match auth_outcome(e, &ka, Domain::Freeze, &params) {
            Ok(_) => {},
            Err(err) => {
                return Err(err);
            },
        }
        consume_checked_auth(e, &ka, Domain::Freeze, &params);
        write_state(e, &id, true);
        Ok(())
    }

    fn mint(e: &mut Env, admin: Authorization, to: Identifier, amount: u64) -> (r: Result<
        (),
        Error,
    >)
    {
        let ka = match to_administrator_authorization(e, admin) {
            Ok(k) => k,
            Err(err) => {
                return Err(err);
            },
        };
        let params = params2(Parameter::Id(to), Parameter::Amount(amount));
        match auth_outcome(e, &ka, Domain::Mint, &params) {
            Ok(_) => {},
            Err(err) => {
                return Err(err);
            },
        }
        if read_state(e, &to) {
            return Err(Error::FrozenAccount);
        }
        let bal = read_balance(e, &to);
        if amount > u64::MAX - bal {
            return Err(Error::ArithmeticOverflow);
        }
        consume_checked_auth(e, &ka, Domain::Mint, &params);
        let received = receive_balance(e, &to, amount);
        proof {
            assert(received is Ok);
        }
        Ok(())
    }

    fn set_admin(e: &mut Env, admin: Authorization, new_admin: Identifier) -> (r: Result<
        (),
        Error,
    >)
    {
        let ka = match to_administrator_authorization(e, admin) {
            Ok(k) => k,
            Err(err) => {
                return Err(err);
            },
        };
        let params = params1(Parameter::Id(new_admin));
        match auth_outcome(e, &ka, Domain::SetAdministrator, &params) {
            Ok(_) => {},
            Err(err) => {
                return Err(err);
            },
        }
        consume_checked_auth(e, &ka, Domain::SetAdministrator, &params);
        write_administrator(e, new_admin);
        Ok(())
    }

    fn unfreeze(e: &mut Env, admin: Authorization, id: Identifier) -> (r: Result<(), Error>)
    {
        let ka = match to_administrator_authorization(e, admin) {
            Ok(k) => k,
            Err(err) => {
                return Err(err);
            },
        };
        let params = params1(Parameter::Id(id));
        match auth_outcome(e, &ka, Domain::Unfreeze, &params) {
            Ok(_) => {},
            Err(err) => {
                return Err(err);
            },
        }
        consume_checked_auth(e, &ka, Domain::Unfreeze, &params);
        write_state(e, &id, false);
        Ok(())
    }
}

} // verus!
