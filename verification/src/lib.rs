//! A libcrux-backed cryptography provider for rustls, with its record protection,
//! key exchange, signature and key handling logic specified and proved with Verus.

mod std_wrappers;

pub mod hex;
pub mod backend;
pub mod error;
pub mod record;
pub mod random;
pub mod kx;
pub mod pq;
pub mod ecdsa_der;
pub mod sign;
pub mod verify;
pub mod concat;
pub mod hash;
pub mod hkdf;
pub mod hmac;
pub mod key_provider;
pub mod hpke;
pub mod identity;
pub mod agent_setup;
pub mod key_importer;
pub mod demo_server;
