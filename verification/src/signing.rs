//! The single-signature primitive: Ed25519 verification and, for clients
//! that drive the contract in tests, signing.

use vstd::prelude::*;

use core::convert::TryFrom;

use ed25519_dalek::{Keypair, PublicKey, Signature, Signer, Verifier};

use crate::public_types::{U256, U512};

verus! {

/// Whether `sig` is a valid Ed25519 signature by the public key `pk` over
/// `msg`.  Verification is a fixed function of the three byte strings.
pub uninterp spec fn ed25519_verifies(pk: Seq<u8>, msg: Seq<u8>, sig: Seq<u8>) -> bool;

#[verifier::external_type_specification]
#[verifier::external_body]
pub struct ExKeypair(Keypair);

/// Relies on `ed25519_dalek::PublicKey::verify` (with
/// `PublicKey::from_bytes` and `Signature::try_from`): deterministic
/// verification of one Ed25519 signature; a malformed public key or
/// signature simply fails to verify.
#[verifier::external_body]
pub fn verify_ed25519(pk: &U256, msg: &Vec<u8>, sig: &U512) -> (r: bool)
    ensures
        r == ed25519_verifies(pk@, msg@, sig@),
{
    let pk = match PublicKey::from_bytes(pk) {
        Ok(p) => p,
        Err(_) => return false,
    };
    let sig = match Signature::try_from(&sig[..]) {
        Ok(s) => s,
        Err(_) => return false,
    };
    pk.verify(msg.as_slice(), &sig).is_ok()
}

/// Relies on `ed25519_dalek::Keypair::sign` and `PublicKey::to_bytes`:
/// sign the message with the keypair's secret half and return the public
/// half's bytes beside the signature.  Nothing is promised of the result:
/// dalek accepts keypairs whose halves do not correspond (its
/// `Keypair::from_bytes` performs no validation), and a signature made
/// with such a pair does not verify against the returned public key.
#[verifier::external_body]
pub(crate) fn sign_message(kp: &Keypair, msg: &Vec<u8>) -> (r: (U256, U512))
{
    let sig = kp.sign(msg.as_slice());
    (kp.public.to_bytes(), sig.to_bytes())
}

} // verus!
