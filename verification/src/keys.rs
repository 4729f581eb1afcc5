//! Keys, signatures and the identity of a signer.
use vstd::prelude::*;
#[allow(unused_imports)]
use vstd::std_specs::cmp::PartialEqSpec;

use crate::curve::{derive_public_key, ecdsa_sign, ecdsa_verify, p2pkh, parse_secret, Network};
#[allow(unused_imports)]
use crate::curve::{
    ecdsa_signature, ecdsa_verifies, p2pkh_text, public_point, signable, valid_point, valid_secret,
};

verus! {

/// A public key: a point of the curve by its affine coordinates, most significant byte first, and
/// the choice between its compressed and its uncompressed encoding.
#[derive(Clone, Copy, Debug)]
pub struct PublicKey {
    pub compressed: bool,
    pub x: [u8; 32],
    pub y: [u8; 32],
}

/// A signer is known by its public key.
#[derive(Clone, Copy, Debug)]
pub struct SignerID {
    pub pubkey: PublicKey,
}

/// An ECDSA signature in its 64-byte compact form.
#[derive(Clone, Copy, Debug)]
pub struct Signature {
    pub compact: [u8; 64],
}

fn same_bytes(a: &[u8; 32], b: &[u8; 32]) -> (same: bool)
    ensures
        same == (*a == *b),
{
    let mut i: usize = 0;
    while i < 32
        invariant
            i <= 32,
            forall|j: int| 0 <= j < i ==> a@[j] == b@[j],
        decreases 32 - i,
    {
        if a[i] != b[i] {
            return false;
        }
        i = i + 1;
    }
    assert(*a =~= *b);
    true
}

impl PartialEq for PublicKey {
    fn eq(&self, other: &Self) -> (same: bool) {
        self.compressed == other.compressed && same_bytes(&self.x, &other.x) && same_bytes(
            &self.y,
            &other.y,
        )
    }
}

impl vstd::std_specs::cmp::PartialEqSpecImpl for PublicKey {
    open spec fn obeys_eq_spec() -> bool {
        true
    }

    open spec fn eq_spec(&self, other: &Self) -> bool {
        *self == *other
    }
}

impl PartialEq for SignerID {
    fn eq(&self, other: &Self) -> (same: bool) {
        self.pubkey == other.pubkey
    }
}

impl vstd::std_specs::cmp::PartialEqSpecImpl for SignerID {
    open spec fn obeys_eq_spec() -> bool {
        true
    }

    open spec fn eq_spec(&self, other: &Self) -> bool {
        *self == *other
    }
}

impl PartialEq for Signature {
    fn eq(&self, other: &Self) -> (same: bool) {
        let mut i: usize = 0;
        while i < 64
            invariant
                i <= 64,
                forall|j: int| 0 <= j < i ==> self.compact@[j] == other.compact@[j],
            decreases 64 - i,
        {
            if self.compact[i] != other.compact[i] {
                return false;
            }
            i = i + 1;
        }
        assert(self.compact =~= other.compact);
        true
    }
}

impl vstd::std_specs::cmp::PartialEqSpecImpl for Signature {
    open spec fn obeys_eq_spec() -> bool {
        true
    }

    open spec fn eq_spec(&self, other: &Self) -> bool {
        *self == *other
    }
}

impl PublicKey {
    /// The text of the P2PKH address of the key on `network`.
    pub open spec fn p2pkh_address(self, network: Network) -> Seq<char> {
        p2pkh_text(self.compressed, self.x, self.y, network)
    }

    /// The signature verifies on `digest` under this key.
    pub open spec fn accepts(self, digest: [u8; 32], signature: Signature) -> bool {
        ecdsa_verifies(digest, signature.compact, self.x, self.y)
    }

    /// Whether `signature` verifies on `digest` under this key.
    pub fn verify(&self, digest: &[u8; 32], signature: &Signature) -> (verified: bool)
        requires
            signable(*digest),
        ensures
            verified == self.accepts(*digest, *signature),
            verified == ecdsa_verifies(*digest, signature.compact, self.x, self.y),
    {
        ecdsa_verify(digest, &signature.compact, &self.x, &self.y).is_ok()
    }
}

/// A private key: a secret in the range of the curve, the encoding that its public key is to
/// have, and the network that it is used on.
#[derive(Clone, Copy)]
pub struct PrivateKey {
    secret: [u8; 32],
    compressed: bool,
    network: Network,
}

impl PrivateKey {
    pub closed spec fn secret(self) -> [u8; 32] {
        self.secret
    }

    pub closed spec fn compressed(self) -> bool {
        self.compressed
    }

    pub closed spec fn network(self) -> Network {
        self.network
    }

    #[verifier::type_invariant]
    closed spec fn secret_in_range(self) -> bool {
        valid_secret(self.secret)
    }

    /// The public key that belongs to the private key.
    pub open spec fn public(self) -> PublicKey {
        let (x, y) = public_point(self.secret());
        PublicKey { compressed: self.compressed(), x, y }
    }

    /// The signature that the private key puts on `digest`.
    pub open spec fn signature_on(self, digest: [u8; 32]) -> Signature {
        Signature { compact: ecdsa_signature(self.secret(), digest) }
    }

    /// The private key with this secret, if the secret is in range.
    pub fn new(secret: [u8; 32], compressed: bool, network: Network) -> (key: Option<PrivateKey>)
        ensures
            key is Some <==> valid_secret(secret),
            key matches Some(k) ==> k.secret() == secret && k.compressed() == compressed
                && k.network() == network,
    {
        match parse_secret(&secret) {
            Ok(_) => Some(PrivateKey { secret, compressed, network }),
            Err(_) => None,
        }
    }

    /// The public key that belongs to the private key: a point of the curve.
    pub fn public_key(&self) -> (key: PublicKey)
        ensures
            key == self.public(),
            key.compressed == self.compressed(),
            (key.x, key.y) == public_point(self.secret()),
            valid_point(key.x, key.y),
    {
        proof {
            use_type_invariant(&*self);
        }
        let (compressed, x, y) = derive_public_key(&self.secret, self.compressed);
        PublicKey { compressed, x, y }
    }

    /// The text of the P2PKH address of the public key, on the network of the private key.
    pub fn address(&self) -> (address: String)
        ensures
            address@ == self.public().p2pkh_address(self.network()),
            address@ == p2pkh_text(
                self.compressed(),
                public_point(self.secret()).0,
                public_point(self.secret()).1,
                self.network(),
            ),
    {
        let key = self.public_key();
        p2pkh(key.compressed, &key.x, &key.y, self.network)
    }
}

/// Signs `digest` with `private_key`. The signature verifies under the key's public key.
pub fn sign(private_key: &PrivateKey, digest: &[u8; 32]) -> (signature: Signature)
    requires
        signable(*digest),
    ensures
        signature == private_key.signature_on(*digest),
        signature.compact == ecdsa_signature(private_key.secret(), *digest),
        private_key.public().accepts(*digest, signature),
{
    proof {
        use_type_invariant(private_key);
    }
    Signature { compact: ecdsa_sign(&private_key.secret, digest) }
}

/// Keys are the same if they have the same encoding and coordinates, signers if they have the same
/// key, signatures if they have the same 64 bytes.
pub proof fn law_equality_is_of_all_bytes(a: SignerID, b: SignerID, s: Signature, t: Signature)
    ensures
        PublicKey::obeys_eq_spec() && SignerID::obeys_eq_spec() && Signature::obeys_eq_spec(),
        a.pubkey.eq_spec(&b.pubkey) <==> a.pubkey.compressed == b.pubkey.compressed
            && a.pubkey.x@ == b.pubkey.x@ && a.pubkey.y@ == b.pubkey.y@,
        a.eq_spec(&b) <==> a.pubkey == b.pubkey,
        s.eq_spec(&t) <==> forall|i: int|
            0 <= i < 64 ==> #[trigger] s.compact@[i] == t.compact@[i],
{
    if a.pubkey.x@ == b.pubkey.x@ {
        assert(a.pubkey.x =~= b.pubkey.x);
    }
    if a.pubkey.y@ == b.pubkey.y@ {
        assert(a.pubkey.y =~= b.pubkey.y);
    }
    if forall|i: int| 0 <= i < 64 ==> #[trigger] s.compact@[i] == t.compact@[i] {
        assert(s.compact =~= t.compact);
    }
}

} // verus!
