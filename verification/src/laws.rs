//! Laws of the authorization core, stated and proved over the transition
//! specifications that the executable operations are verified against.

use vstd::prelude::*;

use crate::admin::admin_of;
use crate::allowance::allowance_of;
use crate::balance::{balance_of, frozen_of};
use crate::codec::{lemma_payload_bytes_injective, payload_bytes};
use crate::contract::{
    spec_approve, spec_burn, spec_freeze, spec_initialize, spec_mint, spec_set_admin,
    spec_unfreeze, spec_xfer, spec_xfer_from,
};
use crate::cryptography::{
    account_auth_outcome, account_scan, expected_digest, spec_check_auth, Domain,
};
use crate::errors::Error;
use crate::hashing::sha256_of;
use crate::host::{spec_find_account, spec_signer_weight, EnvView};
use crate::metadata::{decimals_of, name_of, symbol_of};
use crate::nonce::nonce_of;
use crate::public_types::{
    lex_lt, spec_get_identifier, Authorization, Identifier, KeyedAccountAuthorization,
    KeyedAuthorization, KeyedEd25519Authorization, KeyedEd25519Signature, Parameter, U256,
};
use crate::signing::ed25519_verifies;

verus! {

/// The identity whose nonce a keyed proof consumes on success; the
/// `Contract` variant consumes none.
pub open spec fn consumed_identity(auth: KeyedAuthorization) -> Option<Identifier> {
    match auth {
        KeyedAuthorization::Contract => None,
        KeyedAuthorization::Ed25519(kea) => Some(Identifier::Ed25519(kea.public_key)),
        KeyedAuthorization::Account(kaa) => Some(Identifier::Account(kaa.public_key)),
    }
}

/// Law (nonce monotonicity): a successful signature-based authorization
/// advances the signer's nonce by exactly one; every other nonce, and every
/// nonce of a failed or contract-authorized check, is unchanged.  No nonce
/// ever decreases.
pub proof fn lemma_nonce_monotonic(
    s: EnvView,
    auth: KeyedAuthorization,
    domain: Domain,
    params: Seq<Parameter>,
)
    ensures
        spec_check_auth(s, auth, domain, params).1 is Err ==> spec_check_auth(
            s,
            auth,
            domain,
            params,
        ).0 == s,
        spec_check_auth(s, auth, domain, params).1 is Ok ==> (consumed_identity(auth)
            matches Some(id) ==> nonce_of(s, id) < u64::MAX && nonce_of(
            spec_check_auth(s, auth, domain, params).0,
            id,
        ) == nonce_of(s, id) + 1),
        forall|x: Identifier|
            consumed_identity(auth) != Some(x) ==> #[trigger] nonce_of(
                spec_check_auth(s, auth, domain, params).0,
                x,
            ) == nonce_of(s, x),
        forall|x: Identifier| #[trigger] nonce_of(spec_check_auth(s, auth, domain, params).0, x)
            >= nonce_of(s, x),
{
}

/// One authorization check, as data: its proof, its domain, and its
/// argument tuple.
pub struct AuthCall {
    pub auth: KeyedAuthorization,
    pub domain: Domain,
    pub params: Seq<Parameter>,
}

/// The state after running a sequence of authorization checks in order,
/// each against the state the previous one left.
pub open spec fn run_checks(s: EnvView, calls: Seq<AuthCall>) -> EnvView
    decreases calls.len(),
{
    if calls.len() == 0 {
        s
    } else {
        run_checks(
            spec_check_auth(s, calls.first().auth, calls.first().domain, calls.first().params).0,
            calls.drop_first(),
        )
    }
}

/// How many checks of the sequence succeed with `id` as the consuming
/// identity.
pub open spec fn successes_for(s: EnvView, calls: Seq<AuthCall>, id: Identifier) -> nat
    decreases calls.len(),
{
    if calls.len() == 0 {
        0
    } else {
        let step = spec_check_auth(s, calls.first().auth, calls.first().domain, calls.first().params);
        let rest = successes_for(step.0, calls.drop_first(), id);
        if step.1 is Ok && consumed_identity(calls.first().auth) == Some(id) {
            rest + 1
        } else {
            rest
        }
    }
}

/// Law (nonce counts calls): after any sequence of authorization checks,
/// an identity's nonce has advanced by exactly the number of successful
/// checks it authorized — so an identity that starts at nonce 0 stands at
/// nonce N after its Nth successful call.
pub proof fn lemma_nonce_counts_calls(s: EnvView, calls: Seq<AuthCall>, id: Identifier)
    ensures
        nonce_of(run_checks(s, calls), id) == nonce_of(s, id) + successes_for(s, calls, id),
    decreases calls.len(),
{
    if calls.len() > 0 {
        let first = calls.first();
        lemma_nonce_monotonic(s, first.auth, first.domain, first.params);
        let s1 = spec_check_auth(s, first.auth, first.domain, first.params).0;
        lemma_nonce_counts_calls(s1, calls.drop_first(), id);
    }
}

/// Law (the signed nonce): a successful single-key authorization verified
/// the signature against the message bound to the signer's nonce exactly as
/// it stood before the call.
pub proof fn lemma_signed_pre_nonce(
    s: EnvView,
    kea: KeyedEd25519Authorization,
    domain: Domain,
    params: Seq<Parameter>,
)
    requires
        spec_check_auth(s, KeyedAuthorization::Ed25519(kea), domain, params).1 is Ok,
    ensures
        ed25519_verifies(
            kea.public_key@,
            sha256_of(
                payload_bytes(nonce_of(s, Identifier::Ed25519(kea.public_key)), domain, params),
            ),
            kea.signature@,
        ),
{
}

/// Law (replay rejection): after a successful single-key authorization the
/// same `(domain, arguments)` bind a different canonical payload, because
/// the nonce has advanced; a re-submitted proof is therefore verified
/// against a different message, and unless its old signature also verifies
/// that new message — which only the collision resistance of SHA-256 and
/// the unforgeability of Ed25519 exclude — the replay fails with
/// `InvalidSignature` and changes nothing, the advanced nonce included.
pub proof fn lemma_replay_rejected(
    s: EnvView,
    kea: KeyedEd25519Authorization,
    domain: Domain,
    params: Seq<Parameter>,
)
    requires
        spec_check_auth(s, KeyedAuthorization::Ed25519(kea), domain, params).1 is Ok,
    ensures
        payload_bytes(
            nonce_of(
                spec_check_auth(s, KeyedAuthorization::Ed25519(kea), domain, params).0,
                Identifier::Ed25519(kea.public_key),
            ),
            domain,
            params,
        ) != payload_bytes(nonce_of(s, Identifier::Ed25519(kea.public_key)), domain, params),
        !ed25519_verifies(
            kea.public_key@,
            sha256_of(
                payload_bytes(
                    nonce_of(
                        spec_check_auth(s, KeyedAuthorization::Ed25519(kea), domain, params).0,
                        Identifier::Ed25519(kea.public_key),
                    ),
                    domain,
                    params,
                ),
            ),
            kea.signature@,
        ) ==> spec_check_auth(
            spec_check_auth(s, KeyedAuthorization::Ed25519(kea), domain, params).0,
            KeyedAuthorization::Ed25519(kea),
            domain,
            params,
        ) == (
            spec_check_auth(s, KeyedAuthorization::Ed25519(kea), domain, params).0,
            Err::<(), Error>(Error::InvalidSignature),
        ),
{
    let id = Identifier::Ed25519(kea.public_key);
    let s1 = spec_check_auth(s, KeyedAuthorization::Ed25519(kea), domain, params).0;
    if payload_bytes(nonce_of(s1, id), domain, params) == payload_bytes(
        nonce_of(s, id),
        domain,
        params,
    ) {
        lemma_payload_bytes_injective(
            nonce_of(s1, id),
            domain,
            params,
            nonce_of(s, id),
            domain,
            params,
        );
    }
}

/// Law (domain separation): payloads that differ only in their domain tag
/// are different byte sequences, so a signature bound to one operation kind
/// is never verified against the message of another.
pub proof fn lemma_domain_separation(
    nonce: u64,
    d1: Domain,
    d2: Domain,
    params: Seq<Parameter>,
)
    requires
        d1 != d2,
    ensures
        payload_bytes(nonce, d1, params) != payload_bytes(nonce, d2, params),
{
    if payload_bytes(nonce, d1, params) == payload_bytes(nonce, d2, params) {
        lemma_payload_bytes_injective(nonce, d1, params, nonce, d2, params);
    }
}

/// Law (rejection of an unverified signature): a single-key proof whose
/// signature does not verify the digest of the canonical message for the
/// presented domain — in particular a signature bound to a different
/// domain's message, which is a different byte sequence by
/// `lemma_domain_separation` — is rejected with `InvalidSignature`, and the
/// state, the signer's nonce included, is unchanged.
pub proof fn lemma_unverified_signature_rejected(
    s: EnvView,
    kea: KeyedEd25519Authorization,
    domain: Domain,
    params: Seq<Parameter>,
)
    requires
        !ed25519_verifies(
            kea.public_key@,
            expected_digest(s, Identifier::Ed25519(kea.public_key), domain, params),
            kea.signature@,
        ),
    ensures
        spec_check_auth(s, KeyedAuthorization::Ed25519(kea), domain, params) == (s, Err::<
            (),
            Error,
        >(Error::InvalidSignature)),
{
}

/// Whether the keys of a multi-signer proof are strictly ascending,
/// continuing from `prev`.
pub open spec fn keys_ascending_from(sigs: Seq<KeyedEd25519Signature>, prev: Option<U256>) -> bool
    decreases sigs.len(),
{
    if sigs.len() == 0 {
        true
    } else {
        (prev matches Some(p) ==> lex_lt(p@, sigs.first().public_key@)) && keys_ascending_from(
            sigs.drop_first(),
            Some(sigs.first().public_key),
        )
    }
}

/// Whether every signature of a multi-signer proof verifies `digest`.
pub open spec fn all_sigs_valid(digest: Seq<u8>, sigs: Seq<KeyedEd25519Signature>) -> bool {
    forall|i: int| 0 <= i < sigs.len() ==> #[trigger] ed25519_verifies(
        sigs[i].public_key@,
        digest,
        sigs[i].signature@,
    )
}

/// The mathematical sum of the configured weights of a proof's keys.
pub open spec fn sum_weights(signers: Seq<(U256, u32)>, sigs: Seq<KeyedEd25519Signature>) -> int
    decreases sigs.len(),
{
    if sigs.len() == 0 {
        0
    } else {
        spec_signer_weight(signers, sigs.first().public_key) + sum_weights(
            signers,
            sigs.drop_first(),
        )
    }
}

/// Weight sums are never negative.
proof fn lemma_sum_weights_nonneg(signers: Seq<(U256, u32)>, sigs: Seq<KeyedEd25519Signature>)
    ensures
        sum_weights(signers, sigs) >= 0,
    decreases sigs.len(),
{
    if sigs.len() > 0 {
        lemma_sum_weights_nonneg(signers, sigs.drop_first());
    }
}

/// The generalized scan outcome under valid signatures and a bounded total:
/// out-of-order keys fail with `SignaturesOutOfOrder`, ascending keys
/// return the accumulated total weight.
proof fn lemma_account_scan_outcome(
    signers: Seq<(U256, u32)>,
    digest: Seq<u8>,
    sigs: Seq<KeyedEd25519Signature>,
    prev: Option<U256>,
    acc: u32,
)
    requires
        all_sigs_valid(digest, sigs),
        acc + sum_weights(signers, sigs) <= u32::MAX,
    ensures
        !keys_ascending_from(sigs, prev) ==> account_scan(signers, digest, sigs, prev, acc)
            == Err::<u32, Error>(Error::SignaturesOutOfOrder),
        keys_ascending_from(sigs, prev) ==> account_scan(signers, digest, sigs, prev, acc) == Ok::<
            u32,
            Error,
        >((acc + sum_weights(signers, sigs)) as u32),
    decreases sigs.len(),
{
    if sigs.len() > 0 {
        let entry = sigs.first();
        assert(ed25519_verifies(entry.public_key@, digest, entry.signature@)) by {
            assert(sigs[0] == entry);
        }
        if (prev matches Some(p) && !lex_lt(p@, entry.public_key@)) {
        } else {
            let w = spec_signer_weight(signers, entry.public_key);
            lemma_sum_weights_nonneg(signers, sigs.drop_first());
            assert(all_sigs_valid(digest, sigs.drop_first())) by {
                assert(forall|i: int| 0 <= i < sigs.drop_first().len() ==> sigs.drop_first()[i]
                    == sigs[i + 1]);
            }
            lemma_account_scan_outcome(
                signers,
                digest,
                sigs.drop_first(),
                Some(entry.public_key),
                (acc + w) as u32,
            );
        }
    }
}

/// Law (multisig ordering): a weighted proof whose keys are not strictly
/// ascending fails with `SignaturesOutOfOrder`, even when every individual
/// signature is valid and the total weight is available.
pub proof fn lemma_multisig_order_rejected(
    signers: Seq<(U256, u32)>,
    digest: Seq<u8>,
    sigs: Seq<KeyedEd25519Signature>,
)
    requires
        all_sigs_valid(digest, sigs),
        sum_weights(signers, sigs) <= u32::MAX,
        !keys_ascending_from(sigs, None),
    ensures
        account_scan(signers, digest, sigs, None, 0) == Err::<u32, Error>(
            Error::SignaturesOutOfOrder,
        ),
{
    lemma_account_scan_outcome(signers, digest, sigs, None, 0);
}

/// Law (multisig ordering at the verifier): an authorization check with a
/// multi-signer proof whose keys are not strictly ascending fails with
/// `SignaturesOutOfOrder` and changes nothing — no nonce is consumed —
/// even when every signature verifies the expected digest and the total
/// weight is available.
pub proof fn lemma_multisig_order_rejected_check(
    s: EnvView,
    kaa: KeyedAccountAuthorization,
    domain: Domain,
    params: Seq<Parameter>,
)
    requires
        spec_find_account(s.accounts, kaa.public_key) matches Some(acct) && {
            &&& all_sigs_valid(
                expected_digest(s, Identifier::Account(kaa.public_key), domain, params),
                kaa.auth.signatures@,
            )
            &&& sum_weights(acct.signers@, kaa.auth.signatures@) <= u32::MAX
        },
        !keys_ascending_from(kaa.auth.signatures@, None),
    ensures
        spec_check_auth(s, KeyedAuthorization::Account(kaa), domain, params) == (s, Err::<
            (),
            Error,
        >(Error::SignaturesOutOfOrder)),
{
    let digest = expected_digest(s, Identifier::Account(kaa.public_key), domain, params);
    let acct = spec_find_account(s.accounts, kaa.public_key)->Some_0;
    lemma_sum_weights_nonneg(acct.signers@, kaa.auth.signatures@);
    lemma_account_scan_outcome(acct.signers@, digest, kaa.auth.signatures@, None, 0);
}

/// Law (threshold boundary): an ordered, fully valid weighted proof is
/// accepted exactly when its total weight reaches the account's medium
/// threshold.  In particular weight equal to the threshold succeeds, and
/// the check consumes exactly one nonce; weight one below it fails with
/// `InsufficientWeight`, and the state — the nonce included — is
/// unchanged.
pub proof fn lemma_threshold_boundary(
    s: EnvView,
    kaa: KeyedAccountAuthorization,
    domain: Domain,
    params: Seq<Parameter>,
)
    requires
        spec_find_account(s.accounts, kaa.public_key) matches Some(acct) && {
            &&& all_sigs_valid(
                expected_digest(
                    s,
                    Identifier::Account(kaa.public_key),
                    domain,
                    params,
                ),
                kaa.auth.signatures@,
            )
            &&& sum_weights(acct.signers@, kaa.auth.signatures@) <= u32::MAX
            &&& keys_ascending_from(kaa.auth.signatures@, None)
        },
    ensures
        spec_find_account(s.accounts, kaa.public_key) matches Some(acct) ==> account_auth_outcome(
            s,
            kaa,
            domain,
            params,
        ) == if sum_weights(acct.signers@, kaa.auth.signatures@) >= acct.medium_threshold {
            Ok::<(), Error>(())
        } else {
            Err::<(), Error>(Error::InsufficientWeight)
        },
        spec_find_account(s.accounts, kaa.public_key) matches Some(acct) ==> (sum_weights(
            acct.signers@,
            kaa.auth.signatures@,
        ) >= acct.medium_threshold && nonce_of(s, Identifier::Account(kaa.public_key)) < u64::MAX
            ==> spec_check_auth(s, KeyedAuthorization::Account(kaa), domain, params).1 is Ok
            && nonce_of(
            spec_check_auth(s, KeyedAuthorization::Account(kaa), domain, params).0,
            Identifier::Account(kaa.public_key),
        ) == nonce_of(s, Identifier::Account(kaa.public_key)) + 1),
        spec_find_account(s.accounts, kaa.public_key) matches Some(acct) ==> (sum_weights(
            acct.signers@,
            kaa.auth.signatures@,
        ) < acct.medium_threshold ==> spec_check_auth(
            s,
            KeyedAuthorization::Account(kaa),
            domain,
            params,
        ) == (s, Err::<(), Error>(Error::InsufficientWeight))),
{
    let digest = expected_digest(
        s,
        Identifier::Account(kaa.public_key),
        domain,
        params,
    );
    let acct = spec_find_account(s.accounts, kaa.public_key)->Some_0;
    lemma_sum_weights_nonneg(acct.signers@, kaa.auth.signatures@);
    lemma_account_scan_outcome(acct.signers@, digest, kaa.auth.signatures@, None, 0);
}

/// Ledger values other than nonces are untouched by an authorization
/// check: balances, frozen flags, allowances, the administrator, and the
/// metadata all carry over.
pub proof fn lemma_check_auth_preserves_ledger(
    s: EnvView,
    auth: KeyedAuthorization,
    domain: Domain,
    params: Seq<Parameter>,
)
    ensures
        forall|x: Identifier| #[trigger] balance_of(spec_check_auth(s, auth, domain, params).0, x)
            == balance_of(s, x),
        forall|x: Identifier| #[trigger] frozen_of(spec_check_auth(s, auth, domain, params).0, x)
            == frozen_of(s, x),
        forall|f: Identifier, p: Identifier| #[trigger] allowance_of(
            spec_check_auth(s, auth, domain, params).0,
            f,
            p,
        ) == allowance_of(s, f, p),
        admin_of(spec_check_auth(s, auth, domain, params).0) == admin_of(s),
        decimals_of(spec_check_auth(s, auth, domain, params).0) == decimals_of(s),
        name_of(spec_check_auth(s, auth, domain, params).0) == name_of(s),
        symbol_of(spec_check_auth(s, auth, domain, params).0) == symbol_of(s),
{
}

/// Law (frozen invariant, blocking half): a transfer whose authorization
/// succeeds and whose sender could pay still fails with `FrozenAccount`,
/// changing nothing, when the receiver is frozen.
pub proof fn lemma_frozen_blocks_transfer(
    s: EnvView,
    from_auth: KeyedAuthorization,
    to: Identifier,
    amount: u64,
)
    requires
        spec_get_identifier(from_auth, s.invoker) matches Ok(from_id) && {
            &&& !frozen_of(s, from_id)
            &&& balance_of(s, from_id) >= amount
        },
        frozen_of(s, to),
    ensures
        spec_xfer(s, from_auth, to, amount).1 is Err,
        spec_check_auth(
            s,
            from_auth,
            Domain::Transfer,
            seq![Parameter::Id(to), Parameter::Amount(amount)],
        ).1 is Ok ==> spec_xfer(s, from_auth, to, amount) == (s, Err::<(), Error>(
            Error::FrozenAccount,
        )),
{
    lemma_check_auth_preserves_ledger(
        s,
        from_auth,
        Domain::Transfer,
        seq![Parameter::Id(to), Parameter::Amount(amount)],
    );
}

/// Law (frozen invariant, unfrozen half): a transfer whose authorization
/// succeeds, whose sender can pay, and whose unfrozen receiver's balance
/// does not overflow, succeeds: the amount leaves the sender, reaches the
/// receiver, and exactly one nonce of the signing identity is consumed.
/// With the blocking half this says that unfreezing restores
/// transferability exactly.
pub proof fn lemma_unfrozen_transfer_succeeds(
    s: EnvView,
    from_auth: KeyedAuthorization,
    to: Identifier,
    amount: u64,
)
    requires
        spec_get_identifier(from_auth, s.invoker) matches Ok(from_id) && {
            &&& !frozen_of(s, from_id)
            &&& balance_of(s, from_id) >= amount
            &&& from_id != to
        },
        !frozen_of(s, to),
        balance_of(s, to) + amount <= u64::MAX,
        spec_check_auth(
            s,
            from_auth,
            Domain::Transfer,
            seq![Parameter::Id(to), Parameter::Amount(amount)],
        ).1 is Ok,
    ensures
        spec_xfer(s, from_auth, to, amount).1 is Ok,
        balance_of(spec_xfer(s, from_auth, to, amount).0, to) == balance_of(s, to) + amount,
        spec_get_identifier(from_auth, s.invoker) matches Ok(from_id) ==> balance_of(
            spec_xfer(s, from_auth, to, amount).0,
            from_id,
        ) == balance_of(s, from_id) - amount,
        consumed_identity(from_auth) matches Some(cid) ==> nonce_of(
            spec_xfer(s, from_auth, to, amount).0,
            cid,
        ) == nonce_of(s, cid) + 1,
{
    lemma_check_auth_preserves_ledger(
        s,
        from_auth,
        Domain::Transfer,
        seq![Parameter::Id(to), Parameter::Amount(amount)],
    );
    lemma_nonce_monotonic(
        s,
        from_auth,
        Domain::Transfer,
        seq![Parameter::Id(to), Parameter::Amount(amount)],
    );
}

/// Law (atomicity): every operation that fails leaves the ledger exactly
/// as it was — either all of authorization, nonce consumption, and ledger
/// mutation take effect, or none do.
pub proof fn lemma_operations_atomic(
    s: EnvView,
    keyed: KeyedAuthorization,
    admin_auth: Authorization,
    a: Identifier,
    b: Identifier,
    amount: u64,
    decimal: u32,
    name: Seq<u8>,
    symbol: Seq<u8>,
)
    ensures
        spec_initialize(s, a, decimal, name, symbol).1 is Err ==> spec_initialize(
            s,
            a,
            decimal,
            name,
            symbol,
        ).0 == s,
        spec_approve(s, keyed, b, amount).1 is Err ==> spec_approve(s, keyed, b, amount).0 == s,
        spec_xfer(s, keyed, b, amount).1 is Err ==> spec_xfer(s, keyed, b, amount).0 == s,
        spec_xfer_from(s, keyed, a, b, amount).1 is Err ==> spec_xfer_from(
            s,
            keyed,
            a,
            b,
            amount,
        ).0 == s,
        spec_burn(s, admin_auth, a, amount).1 is Err ==> spec_burn(s, admin_auth, a, amount).0
            == s,
        spec_freeze(s, admin_auth, a).1 is Err ==> spec_freeze(s, admin_auth, a).0 == s,
        spec_mint(s, admin_auth, b, amount).1 is Err ==> spec_mint(s, admin_auth, b, amount).0
            == s,
        spec_set_admin(s, admin_auth, b).1 is Err ==> spec_set_admin(s, admin_auth, b).0 == s,
        spec_unfreeze(s, admin_auth, a).1 is Err ==> spec_unfreeze(s, admin_auth, a).0 == s,
{
}

/// Law (idempotent initialization): initializing twice fails with
/// `AlreadyInitialized` and leaves the administrator, decimals, name, and
/// symbol exactly as the first call set them.
pub proof fn lemma_initialize_idempotent(
    s: EnvView,
    admin1: Identifier,
    decimal1: u32,
    name1: Seq<u8>,
    symbol1: Seq<u8>,
    admin2: Identifier,
    decimal2: u32,
    name2: Seq<u8>,
    symbol2: Seq<u8>,
)
    requires
        spec_initialize(s, admin1, decimal1, name1, symbol1).1 is Ok,
    ensures
        spec_initialize(
            spec_initialize(s, admin1, decimal1, name1, symbol1).0,
            admin2,
            decimal2,
            name2,
            symbol2,
        ) == (spec_initialize(s, admin1, decimal1, name1, symbol1).0, Err::<(), Error>(
            Error::AlreadyInitialized,
        )),
        admin_of(spec_initialize(s, admin1, decimal1, name1, symbol1).0) == Some(admin1),
        decimals_of(spec_initialize(s, admin1, decimal1, name1, symbol1).0) == Some(decimal1),
        name_of(spec_initialize(s, admin1, decimal1, name1, symbol1).0) == Some(name1),
        symbol_of(spec_initialize(s, admin1, decimal1, name1, symbol1).0) == Some(symbol1),
{
}

} // verus!
