//! Attestation-provider core for confidential-computing guests: choosing the
//! report channel, the tamper-checked report protocol of the unified
//! interface, and locating the PCK routing data (FMSPC and issuer CA class)
//! inside a DCAP quote.

pub mod error;

// Quote parsing: DER, PEM and X.509, the quote layout, collateral keys.
pub mod cert;
pub mod der;
pub mod encoding;
pub mod pck;
pub mod quote;
pub mod pccs;
pub mod quote_input;

// Platform discovery and the report backends.
pub mod platform;
pub mod coco;
pub mod configfs;
pub mod device;

pub mod random;
pub mod text;
