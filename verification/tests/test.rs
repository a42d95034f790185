use ed25519_dalek::Keypair;
use rand::thread_rng;
use rand::RngCore;

use stellar_token_contract::errors::Error;
use stellar_token_contract::host::Env;
use stellar_token_contract::public_types::{Authorization, Identifier};
use stellar_token_contract::testutils::to_ed25519;
use stellar_token_contract::testutils::Token as TokenClient;

fn generate_contract_id() -> [u8; 32] {
    let mut id: [u8; 32] = [0u8; 32];
    thread_rng().fill_bytes(&mut id);
    id
}

fn generate_keypair() -> Keypair {
    Keypair::generate(&mut thread_rng())
}

struct Token {
    e: Env,
    client: TokenClient,
}

impl Token {
    fn new() -> Token {
        Token { e: Env::new(), client: TokenClient::new(&generate_contract_id()) }
    }

    fn initialize(&mut self, admin: &Identifier, decimal: u32, name: &str, symbol: &str) {
        self.client
            .initialize(
                &mut self.e,
                admin,
                decimal,
                name.as_bytes().to_vec(),
                symbol.as_bytes().to_vec(),
            )
            .unwrap();
    }

    fn try_initialize(
        &mut self,
        admin: &Identifier,
        decimal: u32,
        name: &str,
        symbol: &str,
    ) -> Result<(), Error> {
        self.client.initialize(
            &mut self.e,
            admin,
            decimal,
            name.as_bytes().to_vec(),
            symbol.as_bytes().to_vec(),
        )
    }

    fn nonce(&mut self, id: &Identifier) -> u64 {
        self.client.nonce(&self.e, id)
    }

    fn allowance(&mut self, from: &Identifier, spender: &Identifier) -> u64 {
        self.client.allowance(&self.e, from, spender)
    }

    fn approve(&mut self, from: &Keypair, spender: &Identifier, amount: u64) {
        self.client.approve(&mut self.e, from, spender, amount).unwrap();
    }

    fn balance(&mut self, id: &Identifier) -> u64 {
        self.client.balance(&self.e, id)
    }

    fn is_frozen(&mut self, id: &Identifier) -> bool {
        self.client.is_frozen(&self.e, id)
    }

    fn xfer(&mut self, from: &Keypair, to: &Identifier, amount: u64) {
        self.client.xfer(&mut self.e, from, to, amount).unwrap();
    }

    fn try_xfer(&mut self, from: &Keypair, to: &Identifier, amount: u64) -> Result<(), Error> {
        self.client.xfer(&mut self.e, from, to, amount)
    }

    fn xfer_from(&mut self, spender: &Keypair, from: &Identifier, to: &Identifier, amount: u64) {
        self.client.xfer_from(&mut self.e, spender, from, to, amount).unwrap();
    }

    fn try_xfer_from(
        &mut self,
        spender: &Keypair,
        from: &Identifier,
        to: &Identifier,
        amount: u64,
    ) -> Result<(), Error> {
        self.client.xfer_from(&mut self.e, spender, from, to, amount)
    }

    fn burn(&mut self, admin: &Keypair, from: &Identifier, amount: u64) {
        self.client.burn(&mut self.e, admin, from, amount).unwrap();
    }

    fn freeze(&mut self, admin: &Keypair, id: &Identifier) {
        self.client.freeze(&mut self.e, admin, id).unwrap();
    }

    fn mint(&mut self, admin: &Keypair, to: &Identifier, amount: u64) {
        self.client.mint(&mut self.e, admin, to, amount).unwrap();
    }

    fn set_admin(&mut self, admin: &Keypair, new_admin: &Identifier) {
        self.client.set_admin(&mut self.e, admin, new_admin).unwrap();
    }

    fn unfreeze(&mut self, admin: &Keypair, id: &Identifier) {
        self.client.unfreeze(&mut self.e, admin, id).unwrap();
    }

    fn decimals(&mut self) -> u32 {
        self.client.decimals(&self.e)
    }

    fn name(&mut self) -> Vec<u8> {
        self.client.name(&self.e)
    }

    fn symbol(&mut self) -> Vec<u8> {
        self.client.symbol(&self.e)
    }
}

#[test]
fn test() {
    let name = "name";
    let symbol = "symbol";
    let name_vec: Vec<u8> = name.as_bytes().to_vec();
    let symbol_vec: Vec<u8> = symbol.as_bytes().to_vec();

    let mut token = Token::new();

    let admin1 = generate_keypair();
    let admin2 = generate_keypair();
    let user1 = generate_keypair();
    let user2 = generate_keypair();
    let user3 = generate_keypair();
    let admin1_id = to_ed25519(&admin1);
    let admin2_id = to_ed25519(&admin2);
    let user1_id = to_ed25519(&user1);
    let user2_id = to_ed25519(&user2);
    let user3_id = to_ed25519(&user3);

    token.initialize(&admin1_id, 10, name, symbol);

    assert_eq!(token.decimals(), 10);
    assert_eq!(token.name(), name_vec);
    assert_eq!(token.symbol(), symbol_vec);

    token.mint(&admin1, &user1_id, 1000);
    assert_eq!(token.balance(&user1_id), 1000);
    assert_eq!(token.nonce(&admin1_id), 1);

    token.approve(&user2, &user3_id, 500);
    assert_eq!(token.allowance(&user2_id, &user3_id), 500);
    assert_eq!(token.nonce(&user2_id), 1);

    token.xfer(&user1, &user2_id, 600);
    assert_eq!(token.balance(&user1_id), 400);
    assert_eq!(token.balance(&user2_id), 600);
    assert_eq!(token.nonce(&user1_id), 1);

    token.xfer_from(&user3, &user2_id, &user1_id, 400);
    assert_eq!(token.balance(&user1_id), 800);
    assert_eq!(token.balance(&user2_id), 200);
    assert_eq!(token.nonce(&user3_id), 1);

    token.xfer(&user1, &user3_id, 300);
    assert_eq!(token.balance(&user1_id), 500);
    assert_eq!(token.balance(&user3_id), 300);
    assert_eq!(token.nonce(&user1_id), 2);

    token.set_admin(&admin1, &admin2_id);
    assert_eq!(token.nonce(&admin1_id), 2);

    token.freeze(&admin2, &user2_id);
    assert_eq!(token.is_frozen(&user2_id), true);
    assert_eq!(token.nonce(&admin2_id), 1);

    token.unfreeze(&admin2, &user3_id);
    assert_eq!(token.is_frozen(&user3_id), false);
    assert_eq!(token.nonce(&admin2_id), 2);

    token.burn(&admin2, &user3_id, 100);
    assert_eq!(token.balance(&user3_id), 200);
    assert_eq!(token.nonce(&admin2_id), 3);
}

#[test]
fn xfer_insufficient_balance() {
    let mut token = Token::new();

    let admin1 = generate_keypair();
    let user1 = generate_keypair();
    let user2 = generate_keypair();
    let admin1_id = to_ed25519(&admin1);
    let user1_id = to_ed25519(&user1);
    let user2_id = to_ed25519(&user2);

    token.initialize(&admin1_id, 10, "name", "symbol");

    token.mint(&admin1, &user1_id, 1000);
    assert_eq!(token.balance(&user1_id), 1000);
    assert_eq!(token.nonce(&admin1_id), 1);

    assert_eq!(token.try_xfer(&user1, &user2_id, 1001), Err(Error::InsufficientBalance));
    assert_eq!(token.balance(&user1_id), 1000);
    assert_eq!(token.nonce(&user1_id), 0);
}

#[test]
fn xfer_receive_frozen() {
    let mut token = Token::new();

    let admin1 = generate_keypair();
    let user1 = generate_keypair();
    let user2 = generate_keypair();
    let admin1_id = to_ed25519(&admin1);
    let user1_id = to_ed25519(&user1);
    let user2_id = to_ed25519(&user2);

    token.initialize(&admin1_id, 10, "name", "symbol");

    token.mint(&admin1, &user1_id, 1000);
    assert_eq!(token.balance(&user1_id), 1000);
    assert_eq!(token.nonce(&admin1_id), 1);

    token.freeze(&admin1, &user2_id);
    assert_eq!(token.try_xfer(&user1, &user2_id, 1), Err(Error::FrozenAccount));
    assert_eq!(token.balance(&user1_id), 1000);
}

#[test]
fn xfer_spend_frozen() {
    let mut token = Token::new();

    let admin1 = generate_keypair();
    let user1 = generate_keypair();
    let user2 = generate_keypair();
    let admin1_id = to_ed25519(&admin1);
    let user1_id = to_ed25519(&user1);
    let user2_id = to_ed25519(&user2);

    token.initialize(&admin1_id, 10, "name", "symbol");

    token.mint(&admin1, &user1_id, 1000);
    assert_eq!(token.balance(&user1_id), 1000);
    assert_eq!(token.nonce(&admin1_id), 1);

    token.freeze(&admin1, &user1_id);
    assert_eq!(token.try_xfer(&user1, &user2_id, 1), Err(Error::FrozenAccount));
    assert_eq!(token.balance(&user1_id), 1000);
}

#[test]
fn xfer_from_insufficient_allowance() {
    let mut token = Token::new();

    let admin1 = generate_keypair();
    let user1 = generate_keypair();
    let user2 = generate_keypair();
    let user3 = generate_keypair();
    let admin1_id = to_ed25519(&admin1);
    let user1_id = to_ed25519(&user1);
    let user2_id = to_ed25519(&user2);
    let user3_id = to_ed25519(&user3);

    token.initialize(&admin1_id, 10, "name", "symbol");

    token.mint(&admin1, &user1_id, 1000);
    assert_eq!(token.balance(&user1_id), 1000);
    assert_eq!(token.nonce(&admin1_id), 1);

    token.approve(&user1, &user3_id, 100);
    assert_eq!(token.allowance(&user1_id, &user3_id), 100);
    assert_eq!(token.nonce(&user1_id), 1);

    assert_eq!(
        token.try_xfer_from(&user3, &user1_id, &user2_id, 101),
        Err(Error::InsufficientAllowance)
    );
    assert_eq!(token.allowance(&user1_id, &user3_id), 100);
    assert_eq!(token.balance(&user1_id), 1000);
}

#[test]
fn initialize_already_initialized() {
    let mut token = Token::new();

    let admin1 = generate_keypair();
    let admin1_id = to_ed25519(&admin1);

    token.initialize(&admin1_id, 10, "name", "symbol");
    assert_eq!(
        token.try_initialize(&admin1_id, 10, "name", "symbol"),
        Err(Error::AlreadyInitialized)
    );
}

#[test]
fn set_admin_bad_signature() {
    let mut token = Token::new();

    let admin1 = generate_keypair();
    let admin2 = generate_keypair();
    let admin1_id = to_ed25519(&admin1);
    let admin2_id = to_ed25519(&admin2);

    token.initialize(&admin1_id, 10, "name", "symbol");

    let mut signature: [u8; 64] = [0u8; 64];
    thread_rng().fill_bytes(&mut signature);
    let auth = Authorization::Ed25519(signature);
    let r = <stellar_token_contract::contract::Token as stellar_token_contract::contract::TokenTrait>::set_admin(&mut token.e, auth, admin2_id);
    assert_eq!(r, Err(Error::InvalidSignature));
}

#[test]
fn decimal_is_over_max() {
    let mut token = Token::new();

    let admin1 = generate_keypair();
    let admin1_id = to_ed25519(&admin1);

    assert_eq!(
        token.try_initialize(&admin1_id, u32::from(u8::MAX) + 1, "name", "symbol"),
        Err(Error::InvalidConfiguration)
    );
}
