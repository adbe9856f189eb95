//! Public keys and operator identifiers.

use vstd::prelude::*;

verus! {

/// The compressed form of the point that a byte string encodes, where it encodes one.
pub uninterp spec fn parsed_public_key(data: Seq<u8>) -> Option<Seq<u8>>;

/// The uncompressed form of the point whose compressed form is given.
pub uninterp spec fn uncompressed_public_key(compressed: Seq<u8>) -> Seq<u8>;

/// The compressed public key of a secret key, where the byte string is a secret key.
pub uninterp spec fn secret_public_key(secret: Seq<u8>) -> Option<Seq<u8>>;

/// `secp256k1::PublicKey::from_slice`, and `serialize` of the key that it gives: the result is
/// named by `parsed_public_key`, and parsing it again gives it back.
#[verifier::external_body]
fn parse_point(data: &[u8]) -> (point: Option<[u8; 33]>)
    ensures
        match point {
            Some(bytes) => parsed_public_key(data@) == Some(bytes@) && parsed_public_key(bytes@)
                == Some(bytes@),
            None => parsed_public_key(data@) is None,
        },
{
    bitcoin::secp256k1::PublicKey::from_slice(data).ok().map(|key| key.serialize())
}

/// `secp256k1::PublicKey::serialize_uncompressed` of the key whose compressed form is given,
/// named by `uncompressed_public_key`: 65 bytes that parse to the same key.
#[verifier::external_body]
fn uncompressed_point(compressed: &[u8; 33]) -> (uncompressed: Vec<u8>)
    requires
        parsed_public_key(compressed@) == Some(compressed@),
    ensures
        uncompressed@ == uncompressed_public_key(compressed@),
        uncompressed@.len() == 65,
        parsed_public_key(uncompressed@) == Some(compressed@),
{
    let key = bitcoin::secp256k1::PublicKey::from_slice(compressed).unwrap();
    key.serialize_uncompressed().to_vec()
}

/// `secp256k1::SecretKey::from_slice`, and the `public_key` of the secret key that it gives: the
/// compressed key is named by `secret_public_key`, and it parses to itself.
#[verifier::external_body]
fn point_of_secret(secret: &[u8]) -> (point: Option<[u8; 33]>)
    ensures
        match point {
            Some(bytes) => secret_public_key(secret@) == Some(bytes@) && parsed_public_key(bytes@)
                == Some(bytes@),
            None => secret_public_key(secret@) is None,
        },
{
    let secp = bitcoin::secp256k1::Secp256k1::signing_only();
    let key = bitcoin::secp256k1::SecretKey::from_slice(secret).ok();
    key.map(|secret| secret.public_key(&secp).serialize())
}

/// A point of the curve, held in its compressed form.
#[derive(Debug, PartialEq, Eq, Clone, Copy)]
pub struct PublicKey {
    bytes: [u8; 33],
}

impl View for PublicKey {
    type V = Seq<u8>;

    closed spec fn view(&self) -> Seq<u8> {
        self.bytes@
    }
}

impl PublicKey {
    #[verifier::type_invariant]
    closed spec fn is_point(self) -> bool {
        parsed_public_key(self.bytes@) == Some(self.bytes@)
    }

    /// The key that a byte string encodes, in any of the forms of a public key.
    pub fn from_slice(data: &[u8]) -> (key: Option<PublicKey>)
        ensures
            crate::model::view_option(key) == parsed_public_key(data@),
    {
        match parse_point(data) {
            Some(bytes) => Some(PublicKey { bytes }),
            None => None,
        }
    }

    /// The public key of a secret key.
    pub fn from_secret(secret: &[u8]) -> (key: Option<PublicKey>)
        ensures
            crate::model::view_option(key) == secret_public_key(secret@),
    {
        match point_of_secret(secret) {
            Some(bytes) => Some(PublicKey { bytes }),
            None => None,
        }
    }

    /// The compressed form.
    pub fn serialize(&self) -> (bytes: Vec<u8>)
        ensures
            bytes@ == self@,
            bytes@.len() == 33,
            parsed_public_key(bytes@) == Some(bytes@),
    {
        proof {
            use_type_invariant(self);
        }
        let bytes = vstd::slice::slice_to_vec(self.bytes.as_slice());
        assert(bytes@ =~= self.bytes@);
        bytes
    }

    /// The uncompressed form.
    pub fn serialize_uncompressed(&self) -> (bytes: Vec<u8>)
        ensures
            bytes@ == uncompressed_public_key(self@),
            bytes@.len() == 65,
            parsed_public_key(bytes@) == Some(self@),
    {
        proof {
            use_type_invariant(self);
        }
        uncompressed_point(&self.bytes)
    }

    /// Whether two keys are the same point.
    pub fn same(&self, other: &PublicKey) -> (same: bool)
        ensures
            same == (self@ == other@),
    {
        crate::model::same_bytes(self.bytes.as_slice(), other.bytes.as_slice())
    }
}

/// The serialised identifier of an operator in the signing group.
#[derive(Debug, PartialEq, Eq, Clone, Copy)]
pub struct Identifier {
    pub bytes: [u8; 32],
}

impl View for Identifier {
    type V = Seq<u8>;

    open spec fn view(&self) -> Seq<u8> {
        self.bytes@
    }
}

impl Identifier {
    /// Whether two identifiers are the same.
    pub fn same(&self, other: &Identifier) -> (same: bool)
        ensures
            same == (self@ == other@),
    {
        crate::model::same_bytes(self.bytes.as_slice(), other.bytes.as_slice())
    }

    /// The identifier in lower case hexadecimal.
    pub fn to_hex(&self) -> (text: String)
        ensures
            text@ == crate::text::hex_text(self@),
    {
        crate::text::encode_hex(self.bytes.as_slice())
    }
}

} // verus!
