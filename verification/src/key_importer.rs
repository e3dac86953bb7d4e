//! The decisions of the key import tool: its command line, which key a PKCS#8 document
//! asks to import, and the identity document that is written for an imported key.

use vstd::prelude::*;

use crate::backend::{p256_order, p256_private_key, p256_scalar_bytes, parameters_view, pkcs8_decode, pkcs8_fields};
use crate::ecdsa_der::be_value;
use crate::ecdsa_der::MAX_DER_LENGTH;
use crate::identity::{
    bit_string_fits, check_bit_string_fits, identity_content, identity_der, identity_pem,
    oid_local_key_id, pem_private_key_text, tlv,
};
use crate::agent_setup::uncompressed_point;
use crate::key_provider::{arcs_equal, id_ec_public_key, id_prime256v1, PrivateKeyDer};

verus! {

/// The ECDSA schemes that keys can be imported for.
#[allow(non_camel_case_types)]
#[derive(Debug, Clone, Copy, PartialEq, Eq, Structural)]
pub enum EcdsaSignatureScheme {
    /// ECDSA backed by the NIST P256 curve. Currently the only NIST curve supported by libcrux
    ECDSA_NISTP256_SHA256,
}

/// The PKCS#8 errors that the import reports.
#[derive(Debug, Clone, Copy, PartialEq, Eq, Structural)]
pub enum KeyImportError {
    /// The key is not a supported kind, or its data is malformed.
    KeyMalformed,
    /// The algorithm parameters are missing or are not an object identifier.
    ParametersMalformed,
}

/// A command line of the tool that does not have its two paths.
#[derive(Debug, Clone, Copy, PartialEq, Eq, Structural)]
pub enum ArgumentError {
    /// The number of arguments, the program's name included.
    WrongArgumentCount(usize),
}

/// The two paths of the command line `args` (the program's name first): the key file
/// and the identity file. Any other number of arguments is refused with that number.
pub fn importer_arguments(args: Vec<String>) -> (res: Result<(String, String), ArgumentError>)
    ensures
        args@.len() == 3 ==> (res matches Ok((key, id)) && key@ == args@[1]@ && id@ == args@[2]@),
        args@.len() != 3 ==> res == Err::<(String, String), ArgumentError>(ArgumentError::WrongArgumentCount(args@.len() as usize)),
{
    if args.len() != 3 {
        return Err(ArgumentError::WrongArgumentCount(args.len()));
    }
    Ok((args[1].clone(), args[2].clone()))
}

/// What a PKCS#8 document asks to import: the scheme and the private key octets, where
/// the key is an EC key on P-256; `ParametersMalformed` where its parameters are missing
/// or are not an object identifier, and `KeyMalformed` for every other refusal.
pub open spec fn import_request_of(key: PrivateKeyDer) -> Result<(EcdsaSignatureScheme, Seq<u8>), KeyImportError> {
    match key {
        PrivateKeyDer::Pkcs8(der) => match pkcs8_fields(der@) {
            None => Err(KeyImportError::KeyMalformed),
            Some((algorithm, parameters, private_key)) => if algorithm != id_ec_public_key() {
                Err(KeyImportError::KeyMalformed)
            } else {
                match parameters {
                    Some(Some(curve)) => if curve == id_prime256v1() {
                        Ok((EcdsaSignatureScheme::ECDSA_NISTP256_SHA256, private_key))
                    } else {
                        Err(KeyImportError::KeyMalformed)
                    },
                    _ => Err(KeyImportError::ParametersMalformed),
                }
            },
        },
        _ => Err(KeyImportError::KeyMalformed),
    }
}

/// Reads what the key document `key` asks to import.
pub fn import_request(key: PrivateKeyDer) -> (res: Result<(EcdsaSignatureScheme, Vec<u8>), KeyImportError>)
    ensures
        match import_request_of(key) {
            Ok((scheme, private_key)) => (res matches Ok((s, k)) && s == scheme && k@ == private_key),
            Err(e) => res == Err::<(EcdsaSignatureScheme, Vec<u8>), KeyImportError>(e),
        },
{
    let der = match key {
        PrivateKeyDer::Pkcs8(der) => der,
        _ => return Err(KeyImportError::KeyMalformed),
    };
    let (algorithm, parameters, private_key) = match pkcs8_decode(der.as_slice()) {
        Ok(fields) => fields,
        Err(_) => return Err(KeyImportError::KeyMalformed),
    };
    let ec_public_key = [1u32, 2u32, 840u32, 10045u32, 2u32, 1u32];
    assert(ec_public_key@ =~= id_ec_public_key());
    if !arcs_equal(algorithm.as_slice(), ec_public_key.as_slice()) {
        return Err(KeyImportError::KeyMalformed);
    }
    let curve = match parameters {
        Some(Some(arcs)) => arcs,
        _ => return Err(KeyImportError::ParametersMalformed),
    };
    let prime256v1 = [1u32, 2u32, 840u32, 10045u32, 3u32, 1u32, 7u32];
    assert(prime256v1@ =~= id_prime256v1());
    if !arcs_equal(curve.as_slice(), prime256v1.as_slice()) {
        return Err(KeyImportError::KeyMalformed);
    }
    Ok((EcdsaSignatureScheme::ECDSA_NISTP256_SHA256, private_key))
}

/// The P-256 private key that the octets `private_key` of an import request carry: the
/// 32-byte scalar that libcrux reads from them, where it is a valid private key;
/// `KeyMalformed` otherwise.
pub fn import_scalar(private_key: &[u8]) -> (res: Result<[u8; 32], KeyImportError>)
    ensures
        res is Ok <==> (private_key@.len() > 0 && 0 < be_value(p256_scalar_bytes(private_key@)) < p256_order()),
        res matches Ok(k) ==> k@ == p256_scalar_bytes(private_key@),
        res matches Err(e) ==> e == KeyImportError::KeyMalformed,
{
    match p256_private_key(private_key) {
        Ok(k) => Ok(k),
        Err(_) => Err(KeyImportError::KeyMalformed),
    }
}

/// The `localKeyID` attribute that carries the identifier `id` as its value.
pub open spec fn importer_attribute(id: Seq<u8>) -> Seq<u8> {
    tlv(0x30, oid_local_key_id() + tlv(0x04, id))
}

/// Whether the parts of the identity document can be made: the public key bits and the
/// identifier value.
pub open spec fn identity_parts_fit(id: Seq<u8>, pk: Seq<u8>) -> bool {
    bit_string_fits(pk.len() + 1) && id.len() <= MAX_DER_LENGTH
}

/// The identity document of the key imported under the identifier `id`, with the raw
/// public key `pk`, in PEM; `KeyMalformed` where its parts cannot be made or the
/// document cannot be encoded. The document holds an empty private key, for the key
/// itself stays with the agent.
pub fn importer_identity(id: &[u8], pk: &[u8]) -> (res: Result<String, KeyImportError>)
    ensures
        !identity_parts_fit(id@, pk@) ==> res == Err::<String, KeyImportError>(KeyImportError::KeyMalformed),
        identity_content(Seq::empty(), importer_attribute(id@), uncompressed_point(pk@)).len() > MAX_DER_LENGTH
            ==> res == Err::<String, KeyImportError>(KeyImportError::KeyMalformed),
        res matches Ok(pem) ==> pem@ == pem_private_key_text(
            identity_der(Seq::empty(), importer_attribute(id@), uncompressed_point(pk@)),
        ),
        res matches Err(e) ==> e == KeyImportError::KeyMalformed,
        (identity_parts_fit(id@, pk@) && identity_content(Seq::empty(), importer_attribute(id@), uncompressed_point(pk@)).len()
            <= MAX_DER_LENGTH && identity_der(Seq::empty(), importer_attribute(id@), uncompressed_point(pk@)).len()
            <= 0x1000_0000) ==> res is Ok,
{
    if pk.len() == usize::MAX || !check_bit_string_fits(pk.len() + 1) {
        return Err(KeyImportError::KeyMalformed);
    }
    let id_value = match crate::identity::encode_tlv(0x04, id) {
        Some(v) => v,
        None => return Err(KeyImportError::KeyMalformed),
    };
    let mut attribute_content = vec![0x06u8, 0x09u8, 0x2Au8, 0x86u8, 0x48u8, 0x86u8, 0xF7u8, 0x0Du8, 0x01u8, 0x09u8, 0x15u8];
    assert(attribute_content@ =~= oid_local_key_id());
    let mut id_value = id_value;
    attribute_content.append(&mut id_value);
    let attribute = match crate::identity::encode_tlv(0x30, attribute_content.as_slice()) {
        Some(v) => v,
        None => return Err(KeyImportError::KeyMalformed),
    };
    assert(attribute@ =~= importer_attribute(id@));
    let mut point = vec![0x04u8];
    let mut raw = vstd::slice::slice_to_vec(pk);
    point.append(&mut raw);
    assert(point@ =~= uncompressed_point(pk@));
    let empty: Vec<u8> = Vec::new();
    assert(empty@ =~= Seq::<u8>::empty());
    match identity_pem(empty.as_slice(), attribute.as_slice(), point.as_slice()) {
        Some(pem) => Ok(pem),
        None => Err(KeyImportError::KeyMalformed),
    }
}

} // verus!
