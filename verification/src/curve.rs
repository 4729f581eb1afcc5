//! The numbers behind keys and signatures on the curve secp256k1, and the calls into
//! `secp256k1` and `bitcoin` that work on them.
//!
//! Everything here is in plain bytes: a secret and a coordinate are 32 bytes, a digest is 32
//! bytes, a signature is its 64-byte compact form.
use vstd::prelude::*;

verus! {

/// The network that a private key belongs to.
#[derive(Clone, Copy, Debug, PartialEq, Eq, Structural)]
pub enum Network {
    Bitcoin,
    Testnet,
    Regtest,
}

/// The number that `bytes` spells, most significant byte first.
pub open spec fn big_endian(bytes: Seq<u8>) -> nat
    decreases bytes.len(),
{
    if bytes.len() == 0 {
        0
    } else {
        256 * big_endian(bytes.drop_last()) + bytes.last() as nat
    }
}

/// The prime of the field over which secp256k1 is defined.
pub open spec fn field_prime() -> int {
    0xFFFFFFFFFFFFFFFFFFFFFFFFFFFFFFFFFFFFFFFFFFFFFFFFFFFFFFFEFFFFFC2Fint
}

/// The order of the group of secp256k1.
pub open spec fn group_order() -> int {
    0xFFFFFFFFFFFFFFFFFFFFFFFFFFFFFFFEBAAEDCE6AF48A03BBFD25E8CD0364141int
}

/// A secret is a number above zero and below the group order.
pub open spec fn valid_secret(secret: [u8; 32]) -> bool {
    0 < big_endian(secret@) < group_order()
}

/// The coordinates are those of a point of the curve `y^2 = x^3 + 7`.
pub open spec fn valid_point(x: [u8; 32], y: [u8; 32]) -> bool {
    let a = big_endian(x@) as int;
    let b = big_endian(y@) as int;
    &&& a < field_prime()
    &&& b < field_prime()
    &&& (b * b - a * a * a - 7) % field_prime() == 0
}

/// A digest that can be signed: `secp256k1` refuses the one that is all zeros.
pub open spec fn signable(digest: [u8; 32]) -> bool {
    exists|i: int| 0 <= i < 32 && #[trigger] digest@[i] != 0
}

/// The affine coordinates, most significant byte first, of the public key of `secret`.
pub uninterp spec fn public_point(secret: [u8; 32]) -> ([u8; 32], [u8; 32]);

/// The text of the P2PKH address of a public key.
pub uninterp spec fn p2pkh_text(
    compressed: bool,
    x: [u8; 32],
    y: [u8; 32],
    network: Network,
) -> Seq<char>;

/// The deterministic ECDSA signature on `digest` under `secret`.
pub uninterp spec fn ecdsa_signature(secret: [u8; 32], digest: [u8; 32]) -> [u8; 64];

/// The signature verifies on `digest` under the public key with these coordinates.
pub uninterp spec fn ecdsa_verifies(
    digest: [u8; 32],
    signature: [u8; 64],
    x: [u8; 32],
    y: [u8; 32],
) -> bool;

/// The errors of `secp256k1`.
#[verifier::external_type_specification]
#[verifier::external_body]
pub struct ExSecpError(secp256k1::Error);

/// `secp256k1::SecretKey::from_slice`: it takes 32 bytes for a secret key when the number they
/// spell is neither zero nor the group order or above.
#[verifier::external_body]
pub(crate) fn parse_secret(secret: &[u8; 32]) -> (parsed: Result<(), secp256k1::Error>)
    ensures
        parsed is Ok <==> valid_secret(*secret),
{
    secp256k1::SecretKey::from_slice(secret).map(|_key| ())
}

/// `secp256k1::Message::from_slice`: it takes every 32 bytes for a message to sign but those that
/// are all zeros.
#[verifier::external_body]
pub(crate) fn parse_digest(digest: &[u8; 32]) -> (parsed: Result<(), secp256k1::Error>)
    ensures
        parsed is Ok <==> signable(*digest),
{
    secp256k1::Message::from_slice(digest).map(|_message| ())
}

/// `bitcoin::PrivateKey::public_key`: the public key of a secret depends on the secret alone, is
/// a point of the curve, and takes over the private key's choice of a compressed encoding.
#[verifier::external_body]
pub(crate) fn derive_public_key(secret: &[u8; 32], compressed: bool) -> (key: (
    bool,
    [u8; 32],
    [u8; 32],
))
    requires
        valid_secret(*secret),
    ensures
        key.0 == compressed,
        (key.1, key.2) == public_point(*secret),
        valid_point(key.1, key.2),
{
    let key = secp256k1::SecretKey::from_slice(secret).unwrap();
    let network = bitcoin::Network::Bitcoin;
    let private_key = bitcoin::PrivateKey { compressed, network, key };
    let public_key = private_key.public_key(&secp256k1::Secp256k1::new());
    let sec1 = public_key.key.serialize_uncompressed();
    (public_key.compressed, sec1[1..33].try_into().unwrap(), sec1[33..65].try_into().unwrap())
}

/// `bitcoin::Address::p2pkh`, written out as text: the address is a function of the public key,
/// of its choice of encoding and of the network.
#[verifier::external_body]
pub(crate) fn p2pkh(compressed: bool, x: &[u8; 32], y: &[u8; 32], network: Network) -> (address:
    String)
    requires
        valid_point(*x, *y),
    ensures
        address@ == p2pkh_text(compressed, *x, *y, network),
{
    let mut sec1 = [4u8; 65];
    sec1[1..33].copy_from_slice(x);
    sec1[33..65].copy_from_slice(y);
    let key = secp256k1::PublicKey::from_slice(&sec1).unwrap();
    let network = match network {
        Network::Bitcoin => bitcoin::Network::Bitcoin,
        Network::Testnet => bitcoin::Network::Testnet,
        Network::Regtest => bitcoin::Network::Regtest,
    };
    bitcoin::Address::p2pkh(&bitcoin::PublicKey { compressed, key }, network).to_string()
}

/// `secp256k1::Secp256k1::sign`: the nonce is the one of RFC 6979, so the signature is a function
/// of the secret and the digest, and it verifies under the public key of the secret.
#[verifier::external_body]
pub(crate) fn ecdsa_sign(secret: &[u8; 32], digest: &[u8; 32]) -> (signature: [u8; 64])
    requires
        valid_secret(*secret),
        signable(*digest),
    ensures
        signature == ecdsa_signature(*secret, *digest),
        ecdsa_verifies(*digest, signature, public_point(*secret).0, public_point(*secret).1),
{
    let message = secp256k1::Message::from_slice(digest).unwrap();
    let key = secp256k1::SecretKey::from_slice(secret).unwrap();
    secp256k1::Secp256k1::signing_only().sign(&message, &key).serialize_compact()
}

/// `secp256k1::Secp256k1::verify`: whether a signature is accepted is a function of the digest,
/// the signature and the public key. Bytes that spell no signature, or no point of the curve, are
/// not accepted either. Which error comes back is left open.
#[verifier::external_body]
pub(crate) fn ecdsa_verify(
    digest: &[u8; 32],
    signature: &[u8; 64],
    x: &[u8; 32],
    y: &[u8; 32],
) -> (verified: Result<(), secp256k1::Error>)
    requires
        signable(*digest),
    ensures
        verified is Ok <==> ecdsa_verifies(*digest, *signature, *x, *y),
{
    let mut sec1 = [4u8; 65];
    sec1[1..33].copy_from_slice(x);
    sec1[33..65].copy_from_slice(y);
    let key = secp256k1::PublicKey::from_slice(&sec1)?;
    let signature = secp256k1::Signature::from_compact(signature)?;
    let message = secp256k1::Message::from_slice(digest)?;
    secp256k1::Secp256k1::verification_only().verify(&message, &signature, &key)
}

} // verus!
