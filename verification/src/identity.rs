//! The node's identity: an Ed25519 signing key and the name derived from it.
//!
//! The key itself is kept by `ed25519_dalek`; the name is the lower-case
//! hexadecimal spelling of the public key, made by `hex`.

use vstd::prelude::*;
use ed25519_dalek::{Signature, Signer, SigningKey, Verifier, VerifyingKey};
use rand::rngs::OsRng;
use zeroize::Zeroize;

verus! {

/// The length of a secret key, in bytes.
pub const SECRET_KEY_LENGTH: usize = 32;

/// `ed25519_dalek::SigningKey`, a secret key with its public half.
#[verifier::external_type_specification]
#[verifier::external_body]
pub struct ExSigningKey(SigningKey);

/// `ed25519_dalek::VerifyingKey`, a public key.
#[verifier::external_type_specification]
#[verifier::external_body]
pub struct ExVerifyingKey(VerifyingKey);

/// `ed25519_dalek::Signature`, a signature of 64 bytes.
#[verifier::external_type_specification]
#[verifier::external_body]
pub struct ExSignature(Signature);

/// The 32 secret bytes that a signing key was made from.
pub uninterp spec fn key_seed(k: SigningKey) -> Seq<u8>;

/// The 32 bytes of a public key.
pub uninterp spec fn public_key_bytes(v: VerifyingKey) -> Seq<u8>;

/// The 64 bytes of a signature.
pub uninterp spec fn signature_bytes(s: Signature) -> Seq<u8>;

/// The Ed25519 public key that belongs to a secret seed.
pub uninterp spec fn ed25519_public_key(seed: Seq<u8>) -> Seq<u8>;

/// The Ed25519 signature of `message` under a secret seed. Ed25519 signs
/// without chance: one seed and one message give one signature.
pub uninterp spec fn ed25519_signature(seed: Seq<u8>, message: Seq<u8>) -> Seq<u8>;

/// Whether Ed25519 verification accepts `signature` for `message` under
/// the public key `public`.
pub uninterp spec fn ed25519_accepts(public: Seq<u8>, message: Seq<u8>, signature: Seq<u8>) -> bool;

/// `SigningKey::from_bytes` makes the key of the given secret bytes.
#[verifier::external_body]
fn key_from_bytes(secret_key: &[u8; 32]) -> (k: SigningKey)
    ensures
        key_seed(k) == secret_key@,
{
    SigningKey::from_bytes(secret_key)
}

/// `SigningKey::to_bytes` gives the secret bytes back.
#[verifier::external_body]
fn key_to_bytes(k: &SigningKey) -> (seed: [u8; 32])
    ensures
        seed@ == key_seed(*k),
    opens_invariants none
    no_unwind
{
    k.to_bytes()
}

/// `SigningKey::verifying_key` is the public key of the secret one.
pub assume_specification[ SigningKey::verifying_key ](k: &SigningKey) -> (v: VerifyingKey)
    ensures
        public_key_bytes(v) == ed25519_public_key(key_seed(*k)),
;

/// `VerifyingKey::to_bytes` gives the bytes of the public key.
#[verifier::external_body]
fn public_key_to_bytes(v: &VerifyingKey) -> (bytes: [u8; 32])
    ensures
        bytes@ == public_key_bytes(*v),
{
    v.to_bytes()
}

/// `Signature::to_bytes` gives the bytes of the signature.
#[verifier::external_body]
fn signature_to_bytes(s: &Signature) -> (bytes: [u8; 64])
    ensures
        bytes@ == signature_bytes(*s),
{
    s.to_bytes()
}

/// `SigningKey::generate` draws 32 secret bytes from the operating
/// system's random numbers and makes their key. Chance decides which
/// bytes; that they are 32 holds of every draw.
#[verifier::external_body]
fn random_signing_key() -> (k: SigningKey)
    ensures
        key_seed(k).len() == 32,
{
    SigningKey::generate(&mut OsRng)
}

/// `Signer::sign` on a `SigningKey` signs the message with the key's
/// secret; the signature is one that verification under the key's own
/// public key accepts.
#[verifier::external_body]
fn sign_message(k: &SigningKey, message: &[u8]) -> (s: Signature)
    ensures
        signature_bytes(s) == ed25519_signature(key_seed(*k), message@),
        ed25519_accepts(ed25519_public_key(key_seed(*k)), message@, signature_bytes(s)),
{
    k.sign(message)
}

/// `Verifier::verify` on a `VerifyingKey` checks a signature; its error
/// carries nothing but the refusal.
#[verifier::external_body]
fn key_accepts(v: &VerifyingKey, message: &[u8], signature: &Signature) -> (accepted: bool)
    ensures
        accepted == ed25519_accepts(public_key_bytes(*v), message@, signature_bytes(*signature)),
{
    v.verify(message, signature).is_ok()
}

/// The character of a hexadecimal digit, in lower case.
pub open spec fn hex_digit(d: int) -> char {
    if d == 0 {
        '0'
    } else if d == 1 {
        '1'
    } else if d == 2 {
        '2'
    } else if d == 3 {
        '3'
    } else if d == 4 {
        '4'
    } else if d == 5 {
        '5'
    } else if d == 6 {
        '6'
    } else if d == 7 {
        '7'
    } else if d == 8 {
        '8'
    } else if d == 9 {
        '9'
    } else if d == 10 {
        'a'
    } else if d == 11 {
        'b'
    } else if d == 12 {
        'c'
    } else if d == 13 {
        'd'
    } else if d == 14 {
        'e'
    } else {
        'f'
    }
}

/// Bytes in hexadecimal: two digits for each byte, the high one first.
pub open spec fn hex_text(data: Seq<u8>) -> Seq<char> {
    Seq::new(
        2 * data.len(),
        |i: int|
            if i % 2 == 0 {
                hex_digit(data[i / 2] as int / 16)
            } else {
                hex_digit(data[i / 2] as int % 16)
            },
    )
}

/// `hex::encode` spells the bytes in lower-case hexadecimal.
#[verifier::external_body]
fn hex_encode(data: &[u8]) -> (text: String)
    ensures
        text@ == hex_text(data@),
{
    hex::encode(data)
}

/// `Zeroize::zeroize` on an array overwrites every byte with zero.
#[verifier::external_body]
fn wipe(bytes: &mut [u8; 32])
    ensures
        forall|i: int| 0 <= i < 32 ==> final(bytes)@[i] == 0,
    opens_invariants none
    no_unwind
{
    bytes.zeroize()
}

/// Why a stored key cannot be used.
#[derive(Debug, Clone, Copy, PartialEq, Eq, Structural)]
pub enum IdentityError {
    /// The stored key has `found` bytes where `expected` are needed.
    InvalidKeyLength { expected: usize, found: usize },
}

/// The name that a node with the secret `seed` goes by.
pub open spec fn node_id_of(seed: Seq<u8>) -> Seq<char> {
    hex_text(ed25519_public_key(seed))
}

/// The name is a matter of the key alone: identities with the same secret
/// bytes, such as two loads of one key file, bear the same name.
pub proof fn lemma_same_key_same_name(first: NodeIdentity, second: NodeIdentity)
    requires
        first.seed() == second.seed(),
    ensures
        node_id_of(first.seed()) == node_id_of(second.seed()),
{
}

/// A node's identity. It owns the secret key; the name derived from the
/// public key is the same for as long as the key is.
#[derive(Debug)]
pub struct NodeIdentity {
    signing_key: SigningKey,
}

impl Drop for NodeIdentity {
    fn drop(&mut self)
        opens_invariants none
        no_unwind
    {
        let mut key_bytes = key_to_bytes(&self.signing_key);
        wipe(&mut key_bytes);
    }
}

impl NodeIdentity {
    /// The secret bytes of the identity's key.
    pub closed spec fn seed(&self) -> Seq<u8> {
        key_seed(self.signing_key)
    }

    /// A new identity with a random key. Which key it is, chance decides;
    /// like every key it has 32 secret bytes, so that what
    /// [`NodeIdentity::key_bytes`] gives of it can be loaded again.
    pub fn generate() -> (identity: Self)
        ensures
            identity.seed().len() == SECRET_KEY_LENGTH,
    {
        let signing_key = random_signing_key();
        Self { signing_key }
    }

    /// The identity whose key is stored as `bytes`, if they are a key:
    /// exactly 32 bytes. Anything else is an error, whatever it holds.
    pub fn from_key_bytes(bytes: &[u8]) -> (r: Result<Self, IdentityError>)
        ensures
            match r {
                Ok(identity) => bytes@.len() == SECRET_KEY_LENGTH && identity.seed() == bytes@,
                Err(e) => bytes@.len() != SECRET_KEY_LENGTH && e == (IdentityError::InvalidKeyLength {
                    expected: SECRET_KEY_LENGTH,
                    found: bytes@.len() as usize,
                }),
            },
    {
        if bytes.len() != SECRET_KEY_LENGTH {
            return Err(
                IdentityError::InvalidKeyLength { expected: SECRET_KEY_LENGTH, found: bytes.len() },
            );
        }
        let mut array: [u8; 32] = [0u8; 32];
        let mut i: usize = 0;
        while i < 32
            invariant
                0 <= i <= 32,
                bytes@.len() == 32,
                forall|j: int| 0 <= j < i ==> array@[j] == bytes@[j],
            decreases 32 - i,
        {
            array[i] = bytes[i];
            i += 1;
        }
        assert(array@ =~= bytes@);
        let signing_key = key_from_bytes(&array);
        Ok(Self { signing_key })
    }

    /// The identity for what a key file holds, if there is one.
    ///
    /// With no file, or an empty one, a new identity is generated, and the
    /// second part of the result tells the caller to store its key. With
    /// a file of exactly 32 bytes the stored identity is loaded. A file of
    /// any other length is an error: a key that is there but unusable is
    /// never replaced by a new one.
    pub fn load_or_generate(stored: Option<&[u8]>) -> (r: Result<(Self, bool), IdentityError>)
        ensures
            match stored {
                Some(bytes) if bytes@.len() > 0 => match r {
                    Ok((identity, must_store)) => bytes@.len() == SECRET_KEY_LENGTH
                        && identity.seed() == bytes@ && !must_store,
                    Err(e) => bytes@.len() != SECRET_KEY_LENGTH && e
                        == (IdentityError::InvalidKeyLength {
                        expected: SECRET_KEY_LENGTH,
                        found: bytes@.len() as usize,
                    }),
                },
                _ => r is Ok && r->Ok_0.1,
            },
            r matches Ok((identity, _)) ==> identity.seed().len() == SECRET_KEY_LENGTH,
    {
        match stored {
            Some(bytes) if bytes.len() > 0 => {
                match Self::from_key_bytes(bytes) {
                    Ok(identity) => Ok((identity, false)),
                    Err(e) => Err(e),
                }
            },
            _ => Ok((Self::generate(), true)),
        }
    }

    /// The bytes to store so that the identity can be loaded again.
    pub fn key_bytes(&self) -> (bytes: [u8; 32])
        ensures
            bytes@ == self.seed(),
    {
        key_to_bytes(&self.signing_key)
    }

    /// The node's name: the public key in lower-case hexadecimal.
    pub fn node_id(&self) -> (id: String)
        ensures
            id@ == node_id_of(self.seed()),
            id@.len() == 64,
    {
        let public = public_key_to_bytes(&self.signing_key.verifying_key());
        hex_encode(public.as_slice())
    }

    /// The 32 bytes of the node's public key.
    pub fn public_bytes(&self) -> (bytes: [u8; 32])
        ensures
            bytes@ == ed25519_public_key(self.seed()),
    {
        public_key_to_bytes(&self.signing_key.verifying_key())
    }

    pub fn public_key(&self) -> (v: VerifyingKey)
        ensures
            public_key_bytes(v) == ed25519_public_key(self.seed()),
    {
        self.signing_key.verifying_key()
    }

    /// Signs `message` with the node's key.
    pub fn sign(&self, message: &[u8]) -> (s: Signature)
        ensures
            signature_bytes(s) == ed25519_signature(self.seed(), message@),
            ed25519_accepts(ed25519_public_key(self.seed()), message@, signature_bytes(s)),
    {
        sign_message(&self.signing_key, message)
    }

    /// Whether `signature` is a signature of `message` by this node.
    pub fn verify(&self, message: &[u8], signature: &Signature) -> (accepted: bool)
        ensures
            accepted == ed25519_accepts(
                ed25519_public_key(self.seed()),
                message@,
                signature_bytes(*signature),
            ),
    {
        let public = self.signing_key.verifying_key();
        key_accepts(&public, message, signature)
    }

    /// The signature of `message` as bytes.
    pub fn sign_detached(&self, message: &[u8]) -> (bytes: [u8; 64])
        ensures
            bytes@ == ed25519_signature(self.seed(), message@),
    {
        signature_to_bytes(&self.sign(message))
    }
}

} // verus!
