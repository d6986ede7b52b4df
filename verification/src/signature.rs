//! Ed25519 signatures, as the `ed25519-dalek` crate makes and checks them.

use vstd::prelude::*;

verus! {

/// Whether `ed25519-dalek` accepts `signature` for `message` under
/// `public_key`. The library does not define it: it names what the crate
/// answers.
pub uninterp spec fn ed25519_accepts(
    public_key: Seq<u8>,
    message: Seq<u8>,
    signature: Seq<u8>,
) -> bool;

/// The signature that `ed25519-dalek` makes for `message` with the key pair
/// whose 64 bytes are `keypair`, the secret half first; `None` where it
/// rejects the bytes as a key pair. The library does not define it: it names
/// what the crate returns.
pub uninterp spec fn ed25519_signature(keypair: Seq<u8>, message: Seq<u8>) -> Option<Seq<u8>>;

/// Trusted: `PublicKey::from_bytes`, `Signature::from_bytes` and
/// `Verifier::verify` of `ed25519-dalek`, one after the other. A key or a
/// signature that the crate cannot read counts as a signature that it does
/// not accept. The contract gives the answer its name, and says which
/// lengths the crate reads at all: 32 bytes of key, 64 bytes of signature.
#[verifier::external_body]
pub(crate) fn accepts(public_key: &[u8], message: &[u8], signature: &[u8]) -> (ok: bool)
    ensures
        ok == ed25519_accepts(public_key@, message@, signature@),
        ok ==> public_key@.len() == 32 && signature@.len() == 64,
{
    match ed25519_dalek::PublicKey::from_bytes(public_key) {
        Ok(key) => match ed25519_dalek::Signature::from_bytes(signature) {
            Ok(sig) => ed25519_dalek::Verifier::verify(&key, message, &sig).is_ok(),
            Err(_) => false,
        },
        Err(_) => false,
    }
}

/// Trusted: `Keypair::from_bytes` and `Signer::try_sign` of `ed25519-dalek`,
/// with the signature's 64 bytes copied out. The contract gives the
/// outcome its name, and says that the crate reads a key pair from 64 bytes
/// only.
#[verifier::external_body]
pub(crate) fn sign(keypair: &[u8], message: &[u8]) -> (signature: Option<Vec<u8>>)
    ensures
        match signature {
            Some(bytes) => {
                &&& ed25519_signature(keypair@, message@) == Some(bytes@)
                &&& bytes@.len() == 64
                &&& keypair@.len() == 64
            },
            None => ed25519_signature(keypair@, message@) is None,
        },
{
    match ed25519_dalek::Keypair::from_bytes(keypair) {
        Ok(pair) => match ed25519_dalek::Signer::try_sign(&pair, message) {
            Ok(sig) => Some(sig.to_bytes().to_vec()),
            Err(_) => None,
        },
        Err(_) => None,
    }
}

} // verus!
