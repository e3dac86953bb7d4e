//! The decisions of the agent setup tool: which command a command line asks for, which
//! P-256 key a PKCS#8 document holds, and the identity document that is written for a
//! key once the key agent has taken it.

use vstd::prelude::*;

use crate::backend::{p256_order, p256_private_key, p256_scalar_bytes, pkcs8_decode, pkcs8_fields, sec1_decode_private_key, sec1_private_key};
use crate::ecdsa_der::be_value;
use crate::hex::{encode_hex, hex_encoding};
use crate::ecdsa_der::MAX_DER_LENGTH;
use crate::identity::{
    bit_string_fits, check_bit_string_fits, identity_content, identity_der, identity_pem,
    oid_local_key_id, pem_private_key_text, tlv,
};
use crate::key_provider::{arcs_equal, id_ec_public_key, id_prime256v1, PrivateKeyDer};

verus! {

/// The ECDSA schemes that the key agent holds keys for.
#[allow(non_camel_case_types)]
#[derive(Debug, Clone, Copy, PartialEq, Eq, Structural)]
pub enum EcdsaSignatureScheme {
    /// ECDSA backed by the NIST P256 curve. Currently the only NIST curve supported by libcrux
    ECDSA_NISTP256_SHA256,
}

/// Why the agent setup tool failed.
#[derive(Debug, Clone, Copy, PartialEq, Eq, Structural)]
pub enum AgentError {
    Agent,
    Encoding,
    IO,
    Pkcs8,
    UnknownCommand,
    WrongArgumentCount,
}

/// A command of the agent setup tool.
#[derive(Debug)]
pub enum AgentCommand {
    /// Set up a new key agent.
    InitAgent,
    /// Hand the key in the PEM file `key_file_path` to the agent, and write its identity
    /// document into the directory `id_file_path`.
    AddKey { key_file_path: String, id_file_path: String },
}

/// The command that the arguments `args` (the program's name first) ask for.
pub open spec fn command_of(args: Seq<String>) -> Result<(u8, Seq<char>, Seq<char>), AgentError> {
    if args.len() < 2 {
        Err(AgentError::WrongArgumentCount)
    } else if args[1]@ == "init_agent"@ {
        Ok((0u8, Seq::empty(), Seq::empty()))
    } else if args[1]@ == "add_key"@ {
        if args.len() == 4 {
            Ok((1u8, args[2]@, args[3]@))
        } else {
            Err(AgentError::WrongArgumentCount)
        }
    } else {
        Err(AgentError::UnknownCommand)
    }
}

/// The spec form of a command: its kind (`0` for `init_agent`, `1` for `add_key`) and
/// the paths it carries.
pub open spec fn command_view(c: AgentCommand) -> (u8, Seq<char>, Seq<char>) {
    match c {
        AgentCommand::InitAgent => (0u8, Seq::empty(), Seq::empty()),
        AgentCommand::AddKey { key_file_path, id_file_path } => (1u8, key_file_path@, id_file_path@),
    }
}

/// Reads the command from the arguments `args`, the program's name first: `init_agent`,
/// or `add_key` with exactly two paths.
pub fn call_resolver(args: Vec<String>) -> (res: Result<AgentCommand, AgentError>)
    ensures
        match command_of(args@) {
            Ok(c) => (res matches Ok(cmd) && command_view(cmd) == c),
            Err(e) => res == Err::<AgentCommand, AgentError>(e),
        },
{
    if args.len() < 2 {
        return Err(AgentError::WrongArgumentCount);
    }
    let init = "init_agent".to_owned();
    let add = "add_key".to_owned();
    if args[1] == init {
        Ok(AgentCommand::InitAgent)
    } else if args[1] == add {
        if args.len() != 4 {
            return Err(AgentError::WrongArgumentCount);
        }
        Ok(AgentCommand::AddKey { key_file_path: args[2].clone(), id_file_path: args[3].clone() })
    } else {
        Err(AgentError::UnknownCommand)
    }
}

/// The fields of a PKCS#8 document that the tool reads, as `pkcs8_fields` names them.
#[derive(Debug)]
pub struct Pkcs8Fields {
    pub algorithm: Vec<u32>,
    pub parameters: Option<Option<Vec<u32>>>,
    pub private_key: Vec<u8>,
}

/// Decodes the PKCS#8 document that the tool was given; any other kind of key, or a
/// document that does not decode, is `Pkcs8`.
pub fn read_key_document(key: PrivateKeyDer) -> (res: Result<Pkcs8Fields, AgentError>)
    ensures
        match key {
            PrivateKeyDer::Pkcs8(der) => match pkcs8_fields(der@) {
                Some((algorithm, parameters, private_key)) => (res matches Ok(f)
                    && f.algorithm@ == algorithm
                    && crate::backend::parameters_view(f.parameters) == parameters
                    && f.private_key@ == private_key),
                None => res == Err::<Pkcs8Fields, AgentError>(AgentError::Pkcs8),
            },
            _ => res == Err::<Pkcs8Fields, AgentError>(AgentError::Pkcs8),
        },
{
    match key {
        PrivateKeyDer::Pkcs8(der) => match pkcs8_decode(der.as_slice()) {
            Ok((algorithm, parameters, private_key)) => Ok(Pkcs8Fields { algorithm, parameters, private_key }),
            Err(_) => Err(AgentError::Pkcs8),
        },
        _ => Err(AgentError::Pkcs8),
    }
}

/// The P-256 secret scalar that the decoded fields hold: the key must be an EC key whose
/// parameters name an object identifier, its private key a SEC1 `ECPrivateKey`, its
/// curve P-256 and its scalar a valid P-256 private key.
pub open spec fn p256_secret_of(
    algorithm: Seq<u32>,
    parameters: Option<Option<Seq<u32>>>,
    private_key: Seq<u8>,
) -> Option<Seq<u8>> {
    if algorithm != id_ec_public_key() {
        None
    } else {
        match parameters {
            Some(Some(curve)) => match sec1_private_key(private_key) {
                Some(k) => if curve == id_prime256v1() && k.len() > 0
                    && 0 < be_value(p256_scalar_bytes(k)) < p256_order() {
                    Some(p256_scalar_bytes(k))
                } else {
                    None
                },
                None => None,
            },
            _ => None,
        }
    }
}

/// The P-256 secret scalar of a decoded key document; any other key is `Pkcs8`.
pub fn p256_secret(fields: &Pkcs8Fields) -> (res: Result<[u8; 32], AgentError>)
    ensures
        match p256_secret_of(fields.algorithm@, crate::backend::parameters_view(fields.parameters), fields.private_key@) {
            Some(k) => (res matches Ok(s) && s@ == k),
            None => res == Err::<[u8; 32], AgentError>(AgentError::Pkcs8),
        },
{
    let ec_public_key = [1u32, 2u32, 840u32, 10045u32, 2u32, 1u32];
    assert(ec_public_key@ =~= id_ec_public_key());
    if !arcs_equal(fields.algorithm.as_slice(), ec_public_key.as_slice()) {
        return Err(AgentError::Pkcs8);
    }
    let curve = match &fields.parameters {
        Some(Some(arcs)) => arcs,
        _ => return Err(AgentError::Pkcs8),
    };
    let key = match sec1_decode_private_key(fields.private_key.as_slice()) {
        Ok(k) => k,
        Err(_) => return Err(AgentError::Pkcs8),
    };
    let prime256v1 = [1u32, 2u32, 840u32, 10045u32, 3u32, 1u32, 7u32];
    assert(prime256v1@ =~= id_prime256v1());
    if !arcs_equal(curve.as_slice(), prime256v1.as_slice()) {
        return Err(AgentError::Pkcs8);
    }
    match p256_private_key(key.as_slice()) {
        Ok(s) => Ok(s),
        Err(_) => Err(AgentError::Pkcs8),
    }
}

/// The private key field of the identity document: a SEC1 `ECPrivateKey` holding the
/// placeholder scalar one, for the key itself stays with the agent.
pub open spec fn placeholder_private_key() -> Seq<u8> {
    tlv(0x30, seq![0x02u8, 0x01u8, 0x01u8] + tlv(0x04, Seq::new(31, |i: int| 0u8).push(1u8)))
}

/// The `localKeyID` attribute that carries the identifier `id`, with its one value in a set.
pub open spec fn agent_attribute(id: Seq<u8>) -> Seq<u8> {
    tlv(0x30, oid_local_key_id() + tlv(0x31, tlv(0x04, id)))
}

/// The public key bits of the identity document: the uncompressed point `04 || pk`.
pub open spec fn uncompressed_point(pk: Seq<u8>) -> Seq<u8> {
    seq![0x04u8] + pk
}

/// The identity document of the key that the agent holds under the identifier `id`, with
/// the raw public key `pk`, in PEM, together with the identifier in lowercase hex; the
/// document is `Encoding` where it cannot be encoded.
pub fn agent_identity(id: &[u8], pk: &[u8]) -> (res: Result<(String, String), AgentError>)
    ensures
        !bit_string_fits(pk@.len() + 1) ==> res == Err::<(String, String), AgentError>(AgentError::Encoding),
        identity_content(placeholder_private_key(), agent_attribute(id@), uncompressed_point(pk@)).len()
            > MAX_DER_LENGTH ==> res == Err::<(String, String), AgentError>(AgentError::Encoding),
        res matches Ok((pem, hex_id)) ==> {
            &&& pem@ == pem_private_key_text(
                identity_der(placeholder_private_key(), agent_attribute(id@), uncompressed_point(pk@)),
            )
            &&& hex_id@ == hex_encoding(id@)
        },
        res matches Err(e) ==> e == AgentError::Encoding,
        (bit_string_fits(pk@.len() + 1) && identity_content(placeholder_private_key(), agent_attribute(id@), uncompressed_point(pk@)).len()
            <= MAX_DER_LENGTH && identity_der(placeholder_private_key(), agent_attribute(id@), uncompressed_point(pk@)).len()
            <= 0x1000_0000) ==> res is Ok,
{
    if pk.len() == usize::MAX || !check_bit_string_fits(pk.len() + 1) {
        return Err(AgentError::Encoding);
    }
    let id_value = match crate::identity::encode_tlv(0x04, id) {
        Some(v) => v,
        None => return Err(AgentError::Encoding),
    };
    let id_set = match crate::identity::encode_tlv(0x31, id_value.as_slice()) {
        Some(v) => v,
        None => return Err(AgentError::Encoding),
    };
    let mut attribute_content = vec![0x06u8, 0x09u8, 0x2Au8, 0x86u8, 0x48u8, 0x86u8, 0xF7u8, 0x0Du8, 0x01u8, 0x09u8, 0x15u8];
    assert(attribute_content@ =~= oid_local_key_id());
    let mut id_set = id_set;
    attribute_content.append(&mut id_set);
    let attribute = match crate::identity::encode_tlv(0x30, attribute_content.as_slice()) {
        Some(v) => v,
        None => return Err(AgentError::Encoding),
    };
    assert(attribute@ =~= agent_attribute(id@));
    let mut point = vec![0x04u8];
    let mut raw = vstd::slice::slice_to_vec(pk);
    point.append(&mut raw);
    assert(point@ =~= uncompressed_point(pk@));
    let private_key: Vec<u8> = vec![
        0x30u8, 0x25u8, 0x02u8, 0x01u8, 0x01u8, 0x04u8, 0x20u8,
        0u8, 0u8, 0u8, 0u8, 0u8, 0u8, 0u8, 0u8, 0u8, 0u8, 0u8, 0u8, 0u8, 0u8, 0u8, 0u8,
        0u8, 0u8, 0u8, 0u8, 0u8, 0u8, 0u8, 0u8, 0u8, 0u8, 0u8, 0u8, 0u8, 0u8, 0u8, 1u8,
    ];
    assert(private_key@ =~= placeholder_private_key());
    let pem = match identity_pem(private_key.as_slice(), attribute.as_slice(), point.as_slice()) {
        Some(p) => p,
        None => return Err(AgentError::Encoding),
    };
    Ok((pem, encode_hex(id)))
}

} // verus!
