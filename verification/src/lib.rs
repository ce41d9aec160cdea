//! MIDDS (Music Industry Decentralized Data Structures) — verified core.
//!
//! The payload definitions and their on-chain structural validation, the
//! tolerant identifier parsers, the warning-only check-digit verifiers, the
//! parser-tolerant builders and the test fixtures, all with contracts
//! checked by Verus.
#![allow(unused_imports)]

pub mod bounded;
pub mod format_error;
pub mod identifier;
pub mod scan;
pub mod shared;
pub mod language;
pub mod country;
pub mod midds;
pub mod musical_work;
pub mod lists;
pub mod recording;
pub mod release;
pub mod canonical;
pub mod checksum;
pub mod text;
pub mod error;
pub mod parse;
pub mod builder;
pub mod fixtures;
pub mod runtime_api;
pub mod rpc;

pub use bounded::{Bounded, MiddsString};
pub use format_error::MiddsFormatError;
pub use identifier::{
    validate_ipi_format, validate_ipn_format, validate_isni_format, validate_isrc_format,
    validate_iswc_format, validate_offchain_hash, validate_upc_format, Ipi, Ipn, Isni, Isrc,
    Iswc, MiddsId, OffchainHash, Upc,
};
pub use runtime_api::{BondLayerOf, DepositInfoOf};
