//! Keys and peer identities.
//!
//! A key is 32 bytes. A peer is named by its public encryption key; the
//! signing key that the transport layer's addressing scheme also asks for is
//! not used by this workflow and is always [`UNUSED_SIGN_KEY`].

use vstd::prelude::*;

verus! {

/// Number of bytes in every key.
pub const KEY_LEN: usize = 32;

/// The signing key of every [`PeerIdentity`]: a fixed placeholder. It names
/// nobody and authenticates nothing.
pub const UNUSED_SIGN_KEY: [u8; 32] = [
    0, 0, 0, 0, 0, 0, 0, 0, 0, 0, 0, 0, 0, 0, 0, 0,
    0, 0, 0, 0, 0, 0, 0, 0, 0, 0, 0, 0, 0, 0, 0, 0,
];

/// What [`UNUSED_SIGN_KEY`] holds: 32 zero bytes.
pub open spec fn unused_sign_key() -> Seq<u8> {
    Seq::new(32, |i: int| 0u8)
}

/// A secret encryption key. It stays in memory for the lifetime of one
/// session and is never sent.
#[derive(Clone, Copy, Debug, PartialEq, Eq)]
pub struct SecretKey {
    pub bytes: [u8; 32],
}

/// A public encryption key: the durable name of a peer.
#[derive(Clone, Copy, Debug, PartialEq, Eq)]
pub struct PublicKey {
    pub bytes: [u8; 32],
}

impl View for SecretKey {
    type V = Seq<u8>;

    open spec fn view(&self) -> Seq<u8> {
        self.bytes@
    }
}

impl View for PublicKey {
    type V = Seq<u8>;

    open spec fn view(&self) -> Seq<u8> {
        self.bytes@
    }
}

impl SecretKey {
    /// The key made of `bytes`.
    pub fn from_bytes(bytes: [u8; 32]) -> (key: Self)
        ensures
            key.bytes == bytes,
            key@ == bytes@,
    {
        SecretKey { bytes }
    }

    /// The bytes of the key.
    pub fn into_bytes(self) -> (bytes: [u8; 32])
        ensures
            bytes == self.bytes,
            bytes@ == self@,
    {
        self.bytes
    }
}

impl PublicKey {
    /// The key made of `bytes`.
    pub fn from_bytes(bytes: [u8; 32]) -> (key: Self)
        ensures
            key.bytes == bytes,
            key@ == bytes@,
    {
        PublicKey { bytes }
    }

    /// The bytes of the key.
    pub fn into_bytes(self) -> (bytes: [u8; 32])
        ensures
            bytes == self.bytes,
            bytes@ == self@,
    {
        self.bytes
    }
}

/// A secret key with the public key that belongs to it.
#[derive(Clone, Copy, Debug, PartialEq, Eq)]
pub struct Keypair {
    pub public: PublicKey,
    pub secret: SecretKey,
}

/// The name of one endpoint in the transport layer's addressing scheme.
#[derive(Clone, Copy, Debug, PartialEq, Eq)]
pub struct PeerIdentity {
    /// Always [`UNUSED_SIGN_KEY`] in a well-formed identity.
    pub pub_sign_key: [u8; 32],
    pub pub_enc_key: PublicKey,
}

impl PeerIdentity {
    /// The signing key is the placeholder.
    pub open spec fn wf(&self) -> bool {
        self.pub_sign_key@ == unused_sign_key()
    }

    /// The identity of the peer whose public key is `key`.
    pub open spec fn of(key: PublicKey) -> PeerIdentity {
        PeerIdentity { pub_sign_key: UNUSED_SIGN_KEY, pub_enc_key: key }
    }

    /// Builds the identity of the peer whose public key is `pub_enc_key`.
    pub fn new(pub_enc_key: PublicKey) -> (id: Self)
        ensures
            id == Self::of(pub_enc_key),
            id.wf(),
            id.pub_enc_key == pub_enc_key,
    {
        let id = PeerIdentity { pub_sign_key: UNUSED_SIGN_KEY, pub_enc_key };
        proof {
            lemma_unused_sign_key();
        }
        id
    }
}

/// [`UNUSED_SIGN_KEY`] is 32 zero bytes, and so is the signing key of every
/// identity that [`PeerIdentity::of`] gives.
pub proof fn lemma_unused_sign_key()
    ensures
        UNUSED_SIGN_KEY@ == unused_sign_key(),
        forall|key: PublicKey| #[trigger] PeerIdentity::of(key).wf(),
{
    assert(UNUSED_SIGN_KEY@ =~= unused_sign_key());
}

/// A key is its bytes, and an identity names one public key: keys with
/// the same bytes are the same key, and only the identities of the same key
/// are the same identity.
pub proof fn lemma_identity_names_one_key(a: PublicKey, b: PublicKey)
    ensures
        a@ == b@ <==> a == b,
        PeerIdentity::of(a) == PeerIdentity::of(b) <==> a == b,
{
    if a@ == b@ {
        assert(a.bytes =~= b.bytes);
    }
}

} // verus!
