use ed25519_dalek::Keypair;
use ed25519_dalek::Signer;
use rand::thread_rng;
use sha2::Digest;
use sha2::Sha256;

use stellar_token_contract::contract::Token;
use stellar_token_contract::contract::TokenTrait;
use stellar_token_contract::cryptography::Domain;
use stellar_token_contract::errors::Error;
use stellar_token_contract::host::{AccountEntry, Env};
use stellar_token_contract::public_types::{
    AccountAuthorization, Authorization, Identifier, KeyedAccountAuthorization,
    KeyedAuthorization, KeyedEd25519Authorization, KeyedEd25519Signature, Message, MessageV0,
    Parameter,
};
use stellar_token_contract::signing::verify_ed25519;
use stellar_token_contract::testutils::to_ed25519;
use stellar_token_contract::testutils::Token as TokenClient;

fn keypair() -> Keypair {
    Keypair::generate(&mut thread_rng())
}

fn sign_msg(kp: &Keypair, nonce: u64, domain: Domain, parameters: Vec<Parameter>) -> [u8; 64] {
    let msg = Message::V0(MessageV0 { nonce, domain, parameters });
    let bytes = msg.to_bytes();
    let digest = Sha256::digest(&bytes);
    kp.sign(digest.as_slice()).to_bytes()
}

fn initialized_env(admin_id: &Identifier) -> Env {
    let mut e = Env::new();
    Token::initialize(&mut e, *admin_id, 7, b"name".to_vec(), b"symbol".to_vec()).unwrap();
    e
}

#[test]
fn replay_is_rejected() {
    let admin = keypair();
    let user = keypair();
    let user_id = to_ed25519(&user);
    let spender = keypair();
    let spender_id = to_ed25519(&spender);
    let mut e = initialized_env(&to_ed25519(&admin));

    let signature = sign_msg(
        &user,
        0,
        Domain::Approve,
        vec![Parameter::Id(spender_id), Parameter::Amount(100)],
    );
    let auth = KeyedAuthorization::Ed25519(KeyedEd25519Authorization {
        public_key: user.public.to_bytes(),
        signature,
    });

    assert_eq!(Token::approve(&mut e, auth.clone(), spender_id, 100), Ok(()));
    assert_eq!(Token::nonce(&e, &user_id), 1);

    // The identical (nonce, domain, arguments, signature) tuple again: the
    // recomputed message now binds nonce 1, so the old signature fails.
    assert_eq!(Token::approve(&mut e, auth, spender_id, 100), Err(Error::InvalidSignature));
    assert_eq!(Token::nonce(&e, &user_id), 1);
}

#[test]
fn domain_separation_is_enforced() {
    let admin = keypair();
    let user = keypair();
    let other = keypair();
    let other_id = to_ed25519(&other);
    let mut e = initialized_env(&to_ed25519(&admin));

    // A signature over the Transfer domain with the same nonce and the same
    // argument tuple must not authorize an Approve.
    let signature = sign_msg(
        &user,
        0,
        Domain::Transfer,
        vec![Parameter::Id(other_id), Parameter::Amount(100)],
    );
    let auth = KeyedAuthorization::Ed25519(KeyedEd25519Authorization {
        public_key: user.public.to_bytes(),
        signature,
    });
    assert_eq!(Token::approve(&mut e, auth, other_id, 100), Err(Error::InvalidSignature));
    assert_eq!(Token::nonce(&e, &to_ed25519(&user)), 0);
}

/// Two fresh keypairs ordered by their public-key bytes.
fn ordered_pair() -> (Keypair, Keypair) {
    let a = keypair();
    let b = keypair();
    if a.public.to_bytes() < b.public.to_bytes() {
        (a, b)
    } else {
        (b, a)
    }
}

fn account_env(
    admin_id: &Identifier,
    acct_key: [u8; 32],
    threshold: u32,
    signers: Vec<([u8; 32], u32)>,
) -> Env {
    let mut e = initialized_env(admin_id);
    e.register_account(AccountEntry {
        public_key: acct_key,
        medium_threshold: threshold,
        signers,
    });
    e
}

fn account_approval(
    signer_kps: &[&Keypair],
    acct_key: [u8; 32],
    spender_id: &Identifier,
    amount: u64,
) -> KeyedAuthorization {
    let mut signatures: Vec<KeyedEd25519Signature> = Vec::new();
    for kp in signer_kps {
        let signature = sign_msg(
            kp,
            0,
            Domain::Approve,
            vec![Parameter::Id(*spender_id), Parameter::Amount(amount)],
        );
        signatures.push(KeyedEd25519Signature {
            public_key: kp.public.to_bytes(),
            signature,
        });
    }
    KeyedAuthorization::Account(KeyedAccountAuthorization {
        public_key: acct_key,
        auth: AccountAuthorization { signatures },
    })
}

#[test]
fn multisig_weight_at_threshold_succeeds() {
    let admin = keypair();
    let (lo, hi) = ordered_pair();
    let spender = keypair();
    let spender_id = to_ed25519(&spender);
    let acct_key = [9u8; 32];
    let acct_id = Identifier::Account(acct_key);
    let mut e = account_env(
        &to_ed25519(&admin),
        acct_key,
        5,
        vec![(lo.public.to_bytes(), 3), (hi.public.to_bytes(), 2)],
    );

    let auth = account_approval(&[&lo, &hi], acct_key, &spender_id, 250);
    assert_eq!(Token::approve(&mut e, auth, spender_id, 250), Ok(()));
    assert_eq!(Token::allowance(&e, &acct_id, &spender_id), 250);
    assert_eq!(Token::nonce(&e, &acct_id), 1);
}

#[test]
fn multisig_weight_below_threshold_fails() {
    let admin = keypair();
    let (lo, hi) = ordered_pair();
    let spender = keypair();
    let spender_id = to_ed25519(&spender);
    let acct_key = [9u8; 32];
    let acct_id = Identifier::Account(acct_key);
    // Total weight 5 is one below the threshold 6.
    let mut e = account_env(
        &to_ed25519(&admin),
        acct_key,
        6,
        vec![(lo.public.to_bytes(), 3), (hi.public.to_bytes(), 2)],
    );

    let auth = account_approval(&[&lo, &hi], acct_key, &spender_id, 250);
    assert_eq!(Token::approve(&mut e, auth, spender_id, 250), Err(Error::InsufficientWeight));
    assert_eq!(Token::allowance(&e, &acct_id, &spender_id), 0);
    assert_eq!(Token::nonce(&e, &acct_id), 0);
}

#[test]
fn multisig_out_of_order_fails() {
    let admin = keypair();
    let (lo, hi) = ordered_pair();
    let spender = keypair();
    let spender_id = to_ed25519(&spender);
    let acct_key = [9u8; 32];
    let acct_id = Identifier::Account(acct_key);
    let mut e = account_env(
        &to_ed25519(&admin),
        acct_key,
        5,
        vec![(lo.public.to_bytes(), 3), (hi.public.to_bytes(), 2)],
    );

    // Both signatures are valid and the weight would meet the threshold,
    // but the keys are out of ascending order.
    let auth = account_approval(&[&hi, &lo], acct_key, &spender_id, 250);
    assert_eq!(Token::approve(&mut e, auth, spender_id, 250), Err(Error::SignaturesOutOfOrder));
    assert_eq!(Token::nonce(&e, &acct_id), 0);
}

#[test]
fn multisig_duplicate_key_fails() {
    let admin = keypair();
    let (lo, _) = ordered_pair();
    let spender = keypair();
    let spender_id = to_ed25519(&spender);
    let acct_key = [9u8; 32];
    let mut e = account_env(
        &to_ed25519(&admin),
        acct_key,
        4,
        vec![(lo.public.to_bytes(), 3)],
    );

    // The same physical key must not contribute weight twice.
    let auth = account_approval(&[&lo, &lo], acct_key, &spender_id, 250);
    assert_eq!(Token::approve(&mut e, auth, spender_id, 250), Err(Error::SignaturesOutOfOrder));
}

#[test]
fn multisig_unknown_account_fails() {
    let admin = keypair();
    let lo = keypair();
    let spender = keypair();
    let spender_id = to_ed25519(&spender);
    let acct_key = [9u8; 32];
    let mut e = initialized_env(&to_ed25519(&admin));

    let auth = account_approval(&[&lo], acct_key, &spender_id, 250);
    assert_eq!(Token::approve(&mut e, auth, spender_id, 250), Err(Error::NotAuthorized));
}

#[test]
fn multisig_weight_overflow_fails() {
    let admin = keypair();
    let (lo, hi) = ordered_pair();
    let spender = keypair();
    let spender_id = to_ed25519(&spender);
    let acct_key = [9u8; 32];
    let mut e = account_env(
        &to_ed25519(&admin),
        acct_key,
        1,
        vec![(lo.public.to_bytes(), u32::MAX), (hi.public.to_bytes(), 1)],
    );

    let auth = account_approval(&[&lo, &hi], acct_key, &spender_id, 250);
    assert_eq!(Token::approve(&mut e, auth, spender_id, 250), Err(Error::WeightOverflow));
}

#[test]
fn contract_identity_uses_invocation_context() {
    let admin = keypair();
    let spender = keypair();
    let spender_id = to_ed25519(&spender);
    let addr = [3u8; 32];
    let mut e = initialized_env(&to_ed25519(&admin));

    // Without an invocation frame the contract variant fails closed.
    assert_eq!(
        Token::approve(&mut e, KeyedAuthorization::Contract, spender_id, 40),
        Err(Error::NotAuthorized)
    );

    // Inside a frame the caller is pre-authorized as itself; no nonce is
    // consumed because there is no replayable signature.
    e.set_invoking_contract(Some(addr));
    assert_eq!(Token::approve(&mut e, KeyedAuthorization::Contract, spender_id, 40), Ok(()));
    assert_eq!(Token::allowance(&e, &Identifier::Contract(addr), &spender_id), 40);
    assert_eq!(Token::nonce(&e, &Identifier::Contract(addr)), 0);
}

#[test]
fn admin_proof_variant_must_match() {
    let admin = keypair();
    let user = keypair();
    let user_id = to_ed25519(&user);
    let mut e = initialized_env(&to_ed25519(&admin));
    e.set_invoking_contract(Some([3u8; 32]));

    // The stored administrator is an Ed25519 identity, so a contract proof
    // is the wrong variant.
    assert_eq!(
        Token::freeze(&mut e, Authorization::Contract, user_id),
        Err(Error::IdentityMismatch)
    );
}

#[test]
fn mint_overflow_is_rejected() {
    let admin = keypair();
    let admin_id = to_ed25519(&admin);
    let user = keypair();
    let user_id = to_ed25519(&user);
    let mut e = initialized_env(&admin_id);
    let client = TokenClient::new(&[1u8; 32]);

    client.mint(&mut e, &admin, &user_id, u64::MAX).unwrap();
    assert_eq!(Token::balance(&e, &user_id), u64::MAX);
    assert_eq!(Token::nonce(&e, &admin_id), 1);

    assert_eq!(client.mint(&mut e, &admin, &user_id, 1), Err(Error::ArithmeticOverflow));
    assert_eq!(Token::balance(&e, &user_id), u64::MAX);
    assert_eq!(Token::nonce(&e, &admin_id), 1);
}

#[test]
fn frozen_invariant() {
    let admin = keypair();
    let admin_id = to_ed25519(&admin);
    let a = keypair();
    let a_id = to_ed25519(&a);
    let b = keypair();
    let b_id = to_ed25519(&b);
    let mut e = initialized_env(&admin_id);
    let client = TokenClient::new(&[1u8; 32]);

    client.mint(&mut e, &admin, &a_id, 10).unwrap();
    client.freeze(&mut e, &admin, &b_id).unwrap();
    assert_eq!(client.xfer(&mut e, &a, &b_id, 1), Err(Error::FrozenAccount));
    client.unfreeze(&mut e, &admin, &b_id).unwrap();
    assert_eq!(client.xfer(&mut e, &a, &b_id, 1), Ok(()));
    assert_eq!(Token::balance(&e, &b_id), 1);
    assert_eq!(Token::balance(&e, &a_id), 9);
}

#[test]
fn initialization_is_idempotent() {
    let admin = keypair();
    let admin_id = to_ed25519(&admin);
    let other = keypair();
    let other_id = to_ed25519(&other);
    let user_id = to_ed25519(&keypair());
    let mut e = initialized_env(&admin_id);
    let client = TokenClient::new(&[1u8; 32]);

    assert_eq!(
        Token::initialize(&mut e, other_id, 3, b"x".to_vec(), b"y".to_vec()),
        Err(Error::AlreadyInitialized)
    );
    assert_eq!(Token::decimals(&e), 7);
    assert_eq!(Token::name(&e), b"name".to_vec());
    assert_eq!(Token::symbol(&e), b"symbol".to_vec());
    // The administrator is still the first one: it can still mint.
    assert_eq!(client.mint(&mut e, &admin, &user_id, 5), Ok(()));
}

#[test]
fn scenario_mint_approve_transfer() {
    let admin = keypair();
    let admin_id = to_ed25519(&admin);
    let a = keypair();
    let a_id = to_ed25519(&a);
    let b_id = to_ed25519(&keypair());
    let c = keypair();
    let c_id = to_ed25519(&c);
    let mut e = initialized_env(&admin_id);
    let client = TokenClient::new(&[1u8; 32]);

    client.mint(&mut e, &admin, &a_id, 1000).unwrap();
    assert_eq!(Token::balance(&e, &a_id), 1000);
    assert_eq!(Token::nonce(&e, &admin_id), 1);

    client.approve(&mut e, &a, &c_id, 500).unwrap();
    assert_eq!(Token::allowance(&e, &a_id, &c_id), 500);
    assert_eq!(Token::nonce(&e, &a_id), 1);

    client.xfer(&mut e, &a, &b_id, 600).unwrap();
    assert_eq!(Token::balance(&e, &a_id), 400);
    assert_eq!(Token::balance(&e, &b_id), 600);
    assert_eq!(Token::nonce(&e, &a_id), 2);

    client.xfer_from(&mut e, &c, &a_id, &b_id, 300).unwrap();
    assert_eq!(Token::allowance(&e, &a_id, &c_id), 200);
    assert_eq!(Token::balance(&e, &a_id), 100);
    assert_eq!(Token::balance(&e, &b_id), 900);
    assert_eq!(Token::nonce(&e, &c_id), 1);
}

#[test]
fn codec_layout_is_exact() {
    let key = [7u8; 32];
    let msg = Message::V0(MessageV0 {
        nonce: 1,
        domain: Domain::Transfer,
        parameters: vec![
            Parameter::Id(Identifier::Ed25519(key)),
            Parameter::Amount(300),
        ],
    });
    let bytes = msg.to_bytes();

    let mut expected: Vec<u8> = Vec::new();
    expected.push(0); // version
    expected.extend_from_slice(&1u64.to_le_bytes()); // nonce
    expected.push(1); // Transfer domain tag
    expected.push(1); // identifier parameter
    expected.push(1); // Ed25519 identifier tag
    expected.extend_from_slice(&key);
    expected.push(0); // amount parameter
    expected.extend_from_slice(&300u64.to_le_bytes());
    expected.extend_from_slice(&[0u8; 25]);
    assert_eq!(bytes, expected);
}

#[test]
fn sha256_wrapper_matches_known_vector() {
    let digest = stellar_token_contract::hashing::sha256(&b"abc".to_vec());
    let expected: [u8; 32] = [
        0xba, 0x78, 0x16, 0xbf, 0x8f, 0x01, 0xcf, 0xea, 0x41, 0x41, 0x40, 0xde, 0x5d, 0xae,
        0x22, 0x23, 0xb0, 0x03, 0x61, 0xa3, 0x96, 0x17, 0x7a, 0x9c, 0xb4, 0x10, 0xff, 0x61,
        0xf2, 0x00, 0x15, 0xad,
    ];
    assert_eq!(digest, expected.to_vec());
}

#[test]
fn ed25519_wrapper_verifies_and_rejects() {
    let kp = keypair();
    let msg = b"message".to_vec();
    let signature = kp.sign(&msg).to_bytes();
    let pk = kp.public.to_bytes();
    assert!(verify_ed25519(&pk, &msg, &signature));

    let mut tampered = msg.clone();
    tampered[0] ^= 1;
    assert!(!verify_ed25519(&pk, &tampered, &signature));

    let mut bad_sig = signature;
    bad_sig[5] ^= 1;
    assert!(!verify_ed25519(&pk, &msg, &bad_sig));
}

#[test]
fn check_admin_accepts_only_the_stored_identity() {
    let admin = keypair();
    let admin_id = to_ed25519(&admin);
    let other = keypair();
    let e = initialized_env(&admin_id);

    let claimed_by_admin = KeyedAuthorization::Ed25519(KeyedEd25519Authorization {
        public_key: admin.public.to_bytes(),
        signature: [0u8; 64],
    });
    assert_eq!(stellar_token_contract::admin::check_admin(&e, &claimed_by_admin), Ok(()));

    let claimed_by_other = KeyedAuthorization::Ed25519(KeyedEd25519Authorization {
        public_key: other.public.to_bytes(),
        signature: [0u8; 64],
    });
    assert_eq!(
        stellar_token_contract::admin::check_admin(&e, &claimed_by_other),
        Err(Error::NotAuthorized)
    );
}
