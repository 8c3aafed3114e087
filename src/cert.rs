//! PEM and X.509 decoding, through the x509-parser crate.

use vstd::prelude::*;

use x509_parser::error::PEMError;

verus! {

/// The contents of the PEM blocks of `text`, in order; `None` where a block is
/// present but invalid.
pub uninterp spec fn pem_blocks_of(text: Seq<u8>) -> Option<Seq<Seq<u8>>>;

/// Whether `der` parses as an X.509 certificate.
pub uninterp spec fn is_x509_certificate(der: Seq<u8>) -> bool;

/// The first common name of the issuer of the certificate `der`, where the
/// certificate parses and that name is a readable string.
pub uninterp spec fn issuer_cn_of(der: Seq<u8>) -> Option<Seq<char>>;

/// The value of the one extension of the certificate `der` whose OID has the
/// DER content `oid`; `None` where there is none, or more than one, or where
/// the certificate does not parse.
pub uninterp spec fn extension_of(der: Seq<u8>, oid: Seq<u8>) -> Option<Seq<u8>>;

#[verifier::external_type_specification]
#[verifier::external_body]
pub struct ExPemError(PEMError);

/// Relies on x509_parser::pem::Pem::iter_from_buffer: the decoded contents of
/// each PEM block, in order, or the error of the first invalid block.
#[verifier::external_body]
pub(crate) fn pem_blocks(text: &[u8]) -> (r: Result<Vec<Vec<u8>>, PEMError>)
    ensures
        match r {
            Ok(v) => pem_blocks_of(text@) == Some(v@.map_values(|b: Vec<u8>| b@)),
            Err(_) => pem_blocks_of(text@) is None,
        },
{
    x509_parser::pem::Pem::iter_from_buffer(text).map(|p| p.map(|pem| pem.contents)).collect()
}

/// Relies on x509_parser::parse_x509_certificate: whether `der` parses.
#[verifier::external_body]
pub(crate) fn certificate_parses(der: &[u8]) -> (r: bool)
    ensures
        r == is_x509_certificate(der@),
{
    x509_parser::parse_x509_certificate(der).is_ok()
}

/// Relies on x509_parser: parse the certificate, take the first common name
/// of its issuer (`X509Name::iter_common_name`) and read it as a string
/// (`AttributeTypeAndValue::as_str`).
#[verifier::external_body]
pub(crate) fn issuer_common_name(der: &[u8]) -> (r: Option<String>)
    ensures
        match r {
            Some(s) => issuer_cn_of(der@) == Some(s@),
            None => issuer_cn_of(der@) is None,
        },
{
    let (_, cert) = x509_parser::parse_x509_certificate(der).ok()?;
    let cn = cert.issuer().iter_common_name().next()?;
    cn.as_str().ok().map(|s| s.to_string())
}

/// Relies on x509_parser: parse the certificate and look up the extension
/// with `X509Certificate::get_extension_unique`, which fails on duplicates.
#[verifier::external_body]
pub(crate) fn extension_value(der: &[u8], oid: &[u8]) -> (r: Option<Vec<u8>>)
    ensures
        match r {
            Some(v) => extension_of(der@, oid@) == Some(v@),
            None => extension_of(der@, oid@) is None,
        },
{
    let (_, cert) = x509_parser::parse_x509_certificate(der).ok()?;
    let oid = x509_parser::oid_registry::Oid::new(std::borrow::Cow::Borrowed(oid));
    cert.get_extension_unique(&oid).ok()?.map(|e| e.value.to_vec())
}

} // verus!
