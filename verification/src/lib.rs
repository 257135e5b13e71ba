//! Derivation of Kaspa key pairs and addresses from a BIP39 mnemonic phrase.
//!
//! A phrase is validated or freshly drawn ([`mnemonic`]), stretched into a
//! seed and expanded into a master extended key, from which the private key
//! of each address index is derived along the path `m/44'/111111'/0'/0/i`
//! ([`path`], [`keys`]). Each private key gives one address per network
//! ([`address`]). The pipeline assembles the records of the indices `0..=n`
//! ([`derive`]) and lays them out as a report ([`report`]).
//!
//! The cryptography is done by `kaspa_bip32`, `kaspa_addresses`,
//! `kaspa_wallet_keys` and `secp256k1`. What these crates compute is named by
//! functions without a body, and each call into them is a small function
//! whose contract is trusted, not proved. Everything else is verified against
//! those contracts.

pub mod address;
pub mod args;
pub mod derive;
pub mod error;
pub mod keys;
pub mod mnemonic;
pub mod path;
pub mod report;
pub mod text;
