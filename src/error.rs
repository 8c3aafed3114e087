//! Error kinds of the library.

use vstd::prelude::*;

verus! {

/// Failures of the provider layer (discovery, backends).
#[derive(Debug, Clone, PartialEq, Eq)]
pub enum CocoError {
    Firmware(String),
    IO(String),
    Permission(String),
    Tpm(String),
    /// A request option that the selected backend cannot honour.
    ConfigOptions(String),
    Unknown,
}

/// Failures of the attestation front end.
#[derive(Debug, Clone, PartialEq, Eq)]
pub enum TdxError {
    Anyhow(String),
    ConfigOptions(String),
    Cpu(String),
    Dcap(String),
    Firmware(String),
    Http(String),
    IO(String),
    SSL(String),
    Tpm(String),
    X509(String),
    Unknown,
}

/// Why a quote could not be routed to its collateral.
#[derive(Debug, Clone, Copy, PartialEq, Eq, Structural)]
pub enum QuoteError {
    /// The buffer ends before a field that the layout places in it.
    Truncated,
    /// The header names a quote version that has no known layout.
    UnsupportedVersion,
    /// The header names a TEE type that has no known layout.
    UnsupportedTeeType,
    /// The certification data does not start with a PEM certificate header.
    MissingPemHeader,
    /// The PEM text could not be decoded.
    MalformedPem,
    /// The PEM text holds no certificate.
    EmptyChain,
    /// A certificate of the chain is not valid X.509.
    MalformedCertificate,
    /// The leaf's issuer has no readable common name.
    MissingIssuer,
    /// The leaf's issuer is neither PCK CA.
    UnknownPckIssuer,
    /// The leaf has no single SGX extensions container.
    MissingSgxExtension,
    /// The SGX extensions container is not of the expected DER shape.
    MalformedExtension,
    /// The SGX extensions container holds no FMSPC entry.
    MissingFmspc,
    /// Hex text that is not an even number of hex digits.
    InvalidHex,
}

} // verus!
