use ed25519_dalek::Keypair;
use ed25519_dalek::Signer;
use rand::thread_rng;
use sha2::Digest;
use sha2::Sha256;

use stellar_token_contract::contract::Token;
use stellar_token_contract::contract::TokenTrait;
use stellar_token_contract::cryptography::Domain;
use stellar_token_contract::host::Env;
use stellar_token_contract::public_types::{
    Authorization, Identifier, KeyedAuthorization, KeyedEd25519Authorization, Message, MessageV0,
    Parameter,
};

fn generate_keypair() -> Keypair {
    Keypair::generate(&mut thread_rng())
}

fn keypair_id(kp: &Keypair) -> Identifier {
    Identifier::Ed25519(kp.public.to_bytes())
}

fn sign(kp: &Keypair, nonce: u64, domain: Domain, parameters: Vec<Parameter>) -> [u8; 64] {
    let msg = Message::V0(MessageV0 { nonce, domain, parameters });
    let bytes = msg.to_bytes();
    let digest = Sha256::digest(&bytes);
    kp.sign(digest.as_slice()).to_bytes()
}

fn do_initialize(e: &mut Env, admin: &Identifier) {
    Token::initialize(e, *admin, 10, b"name".to_vec(), b"symbol".to_vec()).unwrap();
}

fn do_nonce(e: &Env, id: &Identifier) -> u64 {
    Token::nonce(e, id)
}

fn do_allowance(e: &Env, from: &Identifier, spender: &Identifier) -> u64 {
    Token::allowance(e, from, spender)
}

fn do_balance(e: &Env, id: &Identifier) -> u64 {
    Token::balance(e, id)
}

fn do_approve(e: &mut Env, kp: &Keypair, spender: &Identifier, amount: u64) {
    let from_id = keypair_id(kp);
    let nonce = do_nonce(e, &from_id);
    let params = vec![Parameter::Id(*spender), Parameter::Amount(amount)];
    let signature = sign(kp, nonce, Domain::Approve, params);
    let auth = KeyedAuthorization::Ed25519(KeyedEd25519Authorization {
        public_key: kp.public.to_bytes(),
        signature,
    });
    Token::approve(e, auth, *spender, amount).unwrap();
}

fn do_transfer(e: &mut Env, kp: &Keypair, to: &Identifier, amount: u64) {
    let nonce = do_nonce(e, &keypair_id(kp));
    let params = vec![Parameter::Id(*to), Parameter::Amount(amount)];
    let signature = sign(kp, nonce, Domain::Transfer, params);
    let auth = KeyedAuthorization::Ed25519(KeyedEd25519Authorization {
        public_key: kp.public.to_bytes(),
        signature,
    });
    Token::xfer(e, auth, *to, amount).unwrap();
}

fn do_transfer_from(
    e: &mut Env,
    kp: &Keypair,
    from: &Identifier,
    to: &Identifier,
    amount: u64,
) {
    let nonce = do_nonce(e, &keypair_id(kp));
    let params = vec![Parameter::Id(*from), Parameter::Id(*to), Parameter::Amount(amount)];
    let signature = sign(kp, nonce, Domain::TransferFrom, params);
    let auth = KeyedAuthorization::Ed25519(KeyedEd25519Authorization {
        public_key: kp.public.to_bytes(),
        signature,
    });
    Token::xfer_from(e, auth, *from, *to, amount).unwrap();
}

fn do_burn(e: &mut Env, kp: &Keypair, from: &Identifier, amount: u64) {
    let nonce = do_nonce(e, &keypair_id(kp));
    let params = vec![Parameter::Id(*from), Parameter::Amount(amount)];
    let signature = sign(kp, nonce, Domain::Burn, params);
    Token::burn(e, Authorization::Ed25519(signature), *from, amount).unwrap();
}

fn do_freeze(e: &mut Env, kp: &Keypair, id: &Identifier) {
    let nonce = do_nonce(e, &keypair_id(kp));
    let params = vec![Parameter::Id(*id)];
    let signature = sign(kp, nonce, Domain::Freeze, params);
    Token::freeze(e, Authorization::Ed25519(signature), *id).unwrap();
}

fn do_mint(e: &mut Env, kp: &Keypair, to: &Identifier, amount: u64) {
    let nonce = do_nonce(e, &keypair_id(kp));
    let params = vec![Parameter::Id(*to), Parameter::Amount(amount)];
    let signature = sign(kp, nonce, Domain::Mint, params);
    Token::mint(e, Authorization::Ed25519(signature), *to, amount).unwrap();
}

fn do_set_admin(e: &mut Env, kp: &Keypair, new_admin: &Identifier) {
    let nonce = do_nonce(e, &keypair_id(kp));
    let params = vec![Parameter::Id(*new_admin)];
    let signature = sign(kp, nonce, Domain::SetAdministrator, params);
    Token::set_admin(e, Authorization::Ed25519(signature), *new_admin).unwrap();
}

fn do_unfreeze(e: &mut Env, kp: &Keypair, id: &Identifier) {
    let nonce = do_nonce(e, &keypair_id(kp));
    let params = vec![Parameter::Id(*id)];
    let signature = sign(kp, nonce, Domain::Unfreeze, params);
    Token::unfreeze(e, Authorization::Ed25519(signature), *id).unwrap();
}

#[test]
fn test_every_function() {
    let mut e = Env::new();

    let admin_kp1 = generate_keypair();
    let admin_id1 = keypair_id(&admin_kp1);
    let admin_kp2 = generate_keypair();
    let admin_id2 = keypair_id(&admin_kp2);

    let kp1 = generate_keypair();
    let id1 = keypair_id(&kp1);
    let kp2 = generate_keypair();
    let id2 = keypair_id(&kp2);
    let kp3 = generate_keypair();
    let id3 = keypair_id(&kp3);

    do_initialize(&mut e, &admin_id1);

    do_mint(&mut e, &admin_kp1, &id1, 1000);
    assert_eq!(do_balance(&e, &id1), 1000);
    assert_eq!(do_nonce(&e, &admin_id1), 1);

    do_approve(&mut e, &kp2, &id3, 500);
    assert_eq!(do_allowance(&e, &id2, &id3), 500);
    assert_eq!(do_nonce(&e, &id2), 1);

    do_transfer(&mut e, &kp1, &id2, 600);
    assert_eq!(do_balance(&e, &id1), 400);
    assert_eq!(do_balance(&e, &id2), 600);
    assert_eq!(do_nonce(&e, &id1), 1);

    do_transfer_from(&mut e, &kp3, &id2, &id1, 400);
    assert_eq!(do_allowance(&e, &id2, &id3), 100);
    assert_eq!(do_balance(&e, &id1), 800);
    assert_eq!(do_balance(&e, &id2), 200);
    assert_eq!(do_nonce(&e, &id3), 1);

    do_transfer(&mut e, &kp1, &id3, 300);
    assert_eq!(do_balance(&e, &id1), 500);
    assert_eq!(do_balance(&e, &id3), 300);
    assert_eq!(do_nonce(&e, &id1), 2);

    do_set_admin(&mut e, &admin_kp1, &admin_id2);
    assert_eq!(do_nonce(&e, &admin_id1), 2);

    do_freeze(&mut e, &admin_kp2, &id2);
    assert_eq!(Token::is_frozen(&e, &id2), true);
    assert_eq!(do_nonce(&e, &admin_id2), 1);

    do_unfreeze(&mut e, &admin_kp2, &id3);
    assert_eq!(Token::is_frozen(&e, &id3), false);
    assert_eq!(do_nonce(&e, &admin_id2), 2);

    do_burn(&mut e, &admin_kp2, &id3, 100);
    assert_eq!(do_balance(&e, &id3), 200);
    assert_eq!(do_nonce(&e, &admin_id2), 3);
}
