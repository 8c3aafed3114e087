//! DCAP quote layout: the header, the certification data of the quoting
//! enclave, and the routing data of its PCK certificate.

use vstd::prelude::*;

use crate::cert::{
    certificate_parses, extension_of, extension_value, is_x509_certificate, issuer_cn_of,
    issuer_common_name, pem_blocks, pem_blocks_of,
};
use crate::encoding::{hex_encode, hex_lower};
use crate::error::QuoteError;
use crate::pck::{bytes_equal, fmspc_from_sgx_extensions, fmspc_of_container};

verus! {

/// TEE type of an SGX enclave quote.
pub const SGX_TEE_TYPE: u32 = 0;

/// TEE type of a TDX trust-domain quote.
pub const TDX_TEE_TYPE: u32 = 0x81;

/// Offset of the QE auth-data size in a version 3 quote:
/// 48 + 384 + 4 + 64 + 64 + 384 + 64.
pub const V3_SGX_QE_AUTH_DATA_SIZE_OFFSET: usize = 1012;

/// Offset of the QE auth-data size in a version 4 SGX quote:
/// 48 + 384 + 4 + 64 + 64 + 2 + 4 + 384 + 64.
pub const V4_SGX_QE_AUTH_DATA_SIZE_OFFSET: usize = 1018;

/// Offset of the QE auth-data size in a version 4 TDX quote:
/// 48 + 584 + 4 + 64 + 64 + 2 + 4 + 384 + 64.
pub const V4_TDX_QE_AUTH_DATA_SIZE_OFFSET: usize = 1218;

/// DER content of OID 1.2.840.113741.1.13.1 (the SGX extensions container).
pub const SGX_EXTENSIONS_OID: [u8; 9] = [0x2a, 0x86, 0x48, 0x86, 0xf8, 0x4d, 0x01, 0x0d, 0x01];

/// `-----BEGIN CERTIFICATE-----`, the header line of a PEM certificate.
pub const PEM_BEGIN: [u8; 27] = [0x2d, 0x2d, 0x2d, 0x2d, 0x2d, 0x42, 0x45, 0x47, 0x49, 0x4e, 0x20, 0x43, 0x45, 0x52, 0x54, 0x49, 0x46, 0x49, 0x43, 0x41, 0x54, 0x45, 0x2d, 0x2d, 0x2d, 0x2d, 0x2d];

pub open spec fn sgx_extensions_oid() -> Seq<u8> {
    seq![0x2au8, 0x86, 0x48, 0x86, 0xf8, 0x4d, 0x01, 0x0d, 0x01]
}

pub open spec fn pem_begin() -> Seq<u8> {
    seq![0x2du8, 0x2d, 0x2d, 0x2d, 0x2d, 0x42, 0x45, 0x47, 0x49, 0x4e, 0x20, 0x43, 0x45, 0x52, 0x54, 0x49, 0x46, 0x49, 0x43, 0x41, 0x54, 0x45, 0x2d, 0x2d, 0x2d, 0x2d, 0x2d]
}

/// The two fields of the quote header that select a layout.
#[derive(Debug, Clone, Copy, PartialEq, Eq, Structural)]
pub struct QuoteHeader {
    pub version: u16,
    pub tee_type: u32,
}

/// The CA that issued a PCK certificate.
#[derive(Debug, Clone, Copy, PartialEq, Eq, Structural)]
pub enum IssuerCaClass {
    Platform,
    Processor,
}

/// What the collateral of a quote is looked up by.
#[derive(Debug, Clone, PartialEq, Eq)]
pub struct PckRouting {
    pub fmspc: [u8; 6],
    pub issuer: IssuerCaClass,
    /// The issuer common name, as it stands in the certificate.
    pub issuer_cn: String,
}

pub open spec fn le_u16(b0: u8, b1: u8) -> nat {
    b0 as nat + 256 * b1 as nat
}

pub open spec fn le_u32(b0: u8, b1: u8, b2: u8, b3: u8) -> nat {
    b0 as nat + 256 * b1 as nat + 65536 * b2 as nat + 16777216 * b3 as nat
}

/// Version (little-endian u16 at 0) and TEE type (little-endian u32 at 4).
pub open spec fn header_of(q: Seq<u8>) -> Option<QuoteHeader> {
    if q.len() < 8 {
        None
    } else {
        Some(QuoteHeader {
            version: le_u16(q[0], q[1]) as u16,
            tee_type: le_u32(q[4], q[5], q[6], q[7]) as u32,
        })
    }
}

/// Offset of the QE auth-data size field for a layout.
pub open spec fn auth_data_size_offset_of(version: u16, tee_type: u32) -> Result<nat, QuoteError> {
    if version != 3 && version != 4 {
        Err(QuoteError::UnsupportedVersion)
    } else if tee_type != SGX_TEE_TYPE && tee_type != TDX_TEE_TYPE {
        Err(QuoteError::UnsupportedTeeType)
    } else if version == 3 {
        Ok(V3_SGX_QE_AUTH_DATA_SIZE_OFFSET as nat)
    } else if tee_type == SGX_TEE_TYPE {
        Ok(V4_SGX_QE_AUTH_DATA_SIZE_OFFSET as nat)
    } else {
        Ok(V4_TDX_QE_AUTH_DATA_SIZE_OFFSET as nat)
    }
}

/// Where the certification data starts, for the size field at `off`: past the
/// size field, the auth data, and the 2 + 4 bytes of type and size that follow.
pub open spec fn cert_data_start(q: Seq<u8>, off: nat) -> nat {
    off + 2 + le_u16(q[off as int], q[off + 1 as int]) + 2 + 4
}

/// The certificate chain (DER of each block) embedded in a quote.
pub open spec fn cert_chain_of(q: Seq<u8>, version: u16, tee_type: u32) -> Result<Seq<Seq<u8>>, QuoteError> {
    match auth_data_size_offset_of(version, tee_type) {
        Err(e) => Err(e),
        Ok(off) => if off + 2 > q.len() {
            Err(QuoteError::Truncated)
        } else if cert_data_start(q, off) + 27 > q.len() {
            Err(QuoteError::Truncated)
        } else {
            let text = q.skip(cert_data_start(q, off) as int);
            if text.take(27) != pem_begin() {
                Err(QuoteError::MissingPemHeader)
            } else {
                match pem_blocks_of(text) {
                    None => Err(QuoteError::MalformedPem),
                    Some(blocks) => if blocks.len() == 0 {
                        Err(QuoteError::EmptyChain)
                    } else if exists|i: int| 0 <= i < blocks.len() && !is_x509_certificate(#[trigger] blocks[i]) {
                        Err(QuoteError::MalformedCertificate)
                    } else {
                        Ok(blocks)
                    },
                }
            }
        },
    }
}

/// The CA class named by an issuer common name.
pub open spec fn issuer_class_of(cn: Seq<char>) -> Result<IssuerCaClass, QuoteError> {
    if cn == "Intel SGX PCK Platform CA"@ {
        Ok(IssuerCaClass::Platform)
    } else if cn == "Intel SGX PCK Processor CA"@ {
        Ok(IssuerCaClass::Processor)
    } else {
        Err(QuoteError::UnknownPckIssuer)
    }
}

/// The FMSPC of a PCK certificate.
pub open spec fn fmspc_of_certificate(der: Seq<u8>) -> Result<Seq<u8>, QuoteError> {
    match extension_of(der, sgx_extensions_oid()) {
        None => Err(QuoteError::MissingSgxExtension),
        Some(ext) => fmspc_of_container(ext),
    }
}

/// Routing data of a chain, read from its leaf: the issuer first, then the
/// FMSPC. `(fmspc, class, issuer common name)`.
pub open spec fn routing_of(chain: Seq<Seq<u8>>) -> Result<(Seq<u8>, IssuerCaClass, Seq<char>), QuoteError> {
    if chain.len() == 0 {
        Err(QuoteError::EmptyChain)
    } else {
        match issuer_cn_of(chain[0]) {
            None => Err(QuoteError::MissingIssuer),
            Some(cn) => match issuer_class_of(cn) {
                Err(e) => Err(e),
                Ok(class) => match fmspc_of_certificate(chain[0]) {
                    Err(e) => Err(e),
                    Ok(f) => Ok((f, class, cn)),
                },
            },
        }
    }
}

/// Reads the quote header.
pub fn read_quote_header(quote: &[u8]) -> (r: Result<QuoteHeader, QuoteError>)
    ensures
        match header_of(quote@) {
            Some(h) => r == Ok::<QuoteHeader, QuoteError>(h),
            None => r == Err::<QuoteHeader, QuoteError>(QuoteError::Truncated),
        },
{
    if quote.len() < 8 {
        return Err(QuoteError::Truncated);
    }
    let version = quote[0] as u16 + 256 * quote[1] as u16;
    let tee_type = quote[4] as u32 + 256 * quote[5] as u32 + 65536 * quote[6] as u32 + 16777216
        * quote[7] as u32;
    Ok(QuoteHeader { version, tee_type })
}

/// Offset of the QE auth-data size field for a quote version and TEE type.
pub fn auth_data_size_offset(version: u16, tee_type: u32) -> (r: Result<usize, QuoteError>)
    ensures
        match auth_data_size_offset_of(version, tee_type) {
            Ok(o) => r == Ok::<usize, QuoteError>(o as usize),
            Err(e) => r == Err::<usize, QuoteError>(e),
        },
{
    if version != 3 && version != 4 {
        Err(QuoteError::UnsupportedVersion)
    } else if tee_type != SGX_TEE_TYPE && tee_type != TDX_TEE_TYPE {
        Err(QuoteError::UnsupportedTeeType)
    } else if version == 3 {
        Ok(V3_SGX_QE_AUTH_DATA_SIZE_OFFSET)
    } else if tee_type == SGX_TEE_TYPE {
        Ok(V4_SGX_QE_AUTH_DATA_SIZE_OFFSET)
    } else {
        Ok(V4_TDX_QE_AUTH_DATA_SIZE_OFFSET)
    }
}

/// Where the certification data starts, for the size field at `offset`;
/// `Truncated` where the field or the data it points to lies past the end.
pub fn get_cert_data_offset(quote: &[u8], offset: usize) -> (r: Result<usize, QuoteError>)
    ensures
        offset + 2 > quote@.len() ==> r == Err::<usize, QuoteError>(QuoteError::Truncated),
        offset + 2 <= quote@.len() ==> {
            let start = cert_data_start(quote@, offset as nat);
            &&& start > quote@.len() ==> r == Err::<usize, QuoteError>(QuoteError::Truncated)
            &&& start <= quote@.len() ==> r == Ok::<usize, QuoteError>(start as usize)
        },
{
    if offset > quote.len() || quote.len() - offset < 2 {
        return Err(QuoteError::Truncated);
    }
    let size = quote[offset] as usize + 256 * quote[offset + 1] as usize;
    let rest = quote.len() - offset - 2;
    if size > rest || rest - size < 6 {
        return Err(QuoteError::Truncated);
    }
    Ok(offset + 2 + size + 6)
}

/// Whether every block is an X.509 certificate.
fn all_certificates_parse(blocks: &Vec<Vec<u8>>) -> (r: bool)
    ensures
        r == forall|j: int| 0 <= j < blocks@.len() ==> is_x509_certificate(#[trigger] blocks@[j]@),
{
    let mut i: usize = 0;
    while i < blocks.len()
        invariant
            i <= blocks@.len(),
            forall|j: int| 0 <= j < i ==> is_x509_certificate(#[trigger] blocks@[j]@),
        decreases blocks@.len() - i,
    {
        if !certificate_parses(&blocks[i]) {
            return false;
        }
        i = i + 1;
    }
    true
}

/// Locates the PEM certificate chain in a quote and decodes it: the DER of
/// each certificate, leaf first. The data must start with the line
/// `-----BEGIN CERTIFICATE-----` at the offset that the layout gives, and
/// every block must be a certificate.
pub fn locate_cert_chain(quote: &[u8], version: u16, tee_type: u32) -> (r: Result<Vec<Vec<u8>>, QuoteError>)
    ensures
        match cert_chain_of(quote@, version, tee_type) {
            Ok(c) => r matches Ok(v) && v@.map_values(|b: Vec<u8>| b@) == c,
            Err(e) => r matches Err(x) && x == e,
        },
{
    let offset = auth_data_size_offset(version, tee_type)?;
    let start = get_cert_data_offset(quote, offset)?;
    if quote.len() - start < 27 {
        return Err(QuoteError::Truncated);
    }
    let text = &quote[start..quote.len()];
    assert(text@ =~= quote@.skip(start as int));
    if !bytes_equal(&text[0..27], &PEM_BEGIN) {
        assert(PEM_BEGIN@ =~= pem_begin());
        assert(text@.subrange(0, 27) =~= text@.take(27));
        return Err(QuoteError::MissingPemHeader);
    }
    assert(PEM_BEGIN@ =~= pem_begin());
    assert(text@.subrange(0, 27) =~= text@.take(27));
    let blocks = match pem_blocks(text) {
        Ok(b) => b,
        Err(_) => return Err(QuoteError::MalformedPem),
    };
    let ghost c = blocks@.map_values(|b: Vec<u8>| b@);
    if blocks.len() == 0 {
        return Err(QuoteError::EmptyChain);
    }
    if !all_certificates_parse(&blocks) {
        proof {
            let j = choose|j: int| 0 <= j < blocks@.len() && !is_x509_certificate(#[trigger] blocks@[j]@);
            assert(!is_x509_certificate(c[j]));
        }
        return Err(QuoteError::MalformedCertificate);
    }
    assert forall|j: int| 0 <= j < c.len() implies is_x509_certificate(#[trigger] c[j]) by {
        assert(c[j] == blocks@[j]@);
    }
    Ok(blocks)
}

/// Whether two strings hold the same characters.
pub fn str_equal(a: &str, b: &str) -> (r: bool)
    ensures
        r == (a@ == b@),
{
    let n = a.unicode_len();
    if n != b.unicode_len() {
        return false;
    }
    let mut i: usize = 0;
    while i < n
        invariant
            n == a@.len(),
            n == b@.len(),
            i <= n,
            forall|j: int| 0 <= j < i ==> a@[j] == b@[j],
        decreases n - i,
    {
        if a.get_char(i) != b.get_char(i) {
            return false;
        }
        i = i + 1;
    }
    assert(a@ =~= b@);
    true
}

/// The CA class that an issuer common name stands for; any name but the two
/// PCK CAs' is `UnknownPckIssuer`.
pub fn classify_issuer(cn: &str) -> (r: Result<IssuerCaClass, QuoteError>)
    ensures
        r == issuer_class_of(cn@),
{
    if str_equal(cn, "Intel SGX PCK Platform CA") {
        Ok(IssuerCaClass::Platform)
    } else if str_equal(cn, "Intel SGX PCK Processor CA") {
        Ok(IssuerCaClass::Processor)
    } else {
        Err(QuoteError::UnknownPckIssuer)
    }
}

/// The FMSPC of a PCK certificate (DER), from its SGX extensions container.
pub fn extract_fmspc_from_extension(cert: &[u8]) -> (r: Result<[u8; 6], QuoteError>)
    ensures
        match fmspc_of_certificate(cert@) {
            Ok(f) => r matches Ok(a) && a@ == f,
            Err(e) => r matches Err(x) && x == e,
        },
{
    assert(SGX_EXTENSIONS_OID@ =~= sgx_extensions_oid());
    match extension_value(cert, &SGX_EXTENSIONS_OID) {
        None => Err(QuoteError::MissingSgxExtension),
        Some(ext) => fmspc_from_sgx_extensions(&ext),
    }
}

/// The routing data of a certificate chain, read from its leaf (index 0).
pub fn extract_routing(chain: &Vec<Vec<u8>>) -> (r: Result<PckRouting, QuoteError>)
    ensures
        match routing_of(chain@.map_values(|b: Vec<u8>| b@)) {
            Ok((f, class, cn)) => r matches Ok(p) && p.fmspc@ == f && p.issuer == class && p.issuer_cn@ == cn,
            Err(e) => r matches Err(x) && x == e,
        },
{
    let ghost c = chain@.map_values(|b: Vec<u8>| b@);
    if chain.len() == 0 {
        return Err(QuoteError::EmptyChain);
    }
    let leaf = &chain[0];
    assert(c[0] == leaf@);
    let cn = match issuer_common_name(leaf) {
        Some(s) => s,
        None => return Err(QuoteError::MissingIssuer),
    };
    let issuer = classify_issuer(cn.as_str())?;
    let fmspc = extract_fmspc_from_extension(leaf)?;
    Ok(PckRouting { fmspc, issuer, issuer_cn: cn })
}

/// The FMSPC (lower-case hex), the issuer CA class and the issuer common name
/// of the PCK certificate embedded in a quote.
pub fn get_pck_fmspc_and_issuer(quote: &[u8], version: u16, tee_type: u32) -> (r: Result<(String, IssuerCaClass, String), QuoteError>)
    ensures
        match cert_chain_of(quote@, version, tee_type) {
            Err(e) => r matches Err(x) && x == e,
            Ok(c) => match routing_of(c) {
                Ok((f, class, cn)) => r matches Ok(t) && t.0@ == hex_lower(f) && t.1 == class && t.2@ == cn,
                Err(e) => r matches Err(x) && x == e,
            },
        },
{
    let chain = locate_cert_chain(quote, version, tee_type)?;
    let routing = extract_routing(&chain)?;
    let fmspc = hex_encode(&routing.fmspc);
    Ok((fmspc, routing.issuer, routing.issuer_cn))
}

/// For each supported (version, TEE type) pair the auth-data size field sits
/// at the offset of the layout table; a chain is located only where the
/// line `-----BEGIN CERTIFICATE-----` starts exactly at the computed
/// certification-data offset; and a
/// size field that points past the end of the quote is refused as
/// truncated, never read beyond.
pub proof fn lemma_cert_chain_offset(quote: Seq<u8>, version: u16, tee_type: u32)
    requires
        version == 3 || version == 4,
        tee_type == SGX_TEE_TYPE || tee_type == TDX_TEE_TYPE,
    ensures
        ({
            let off: nat = if version == 3 {
                1012
            } else if tee_type == SGX_TEE_TYPE {
                1018
            } else {
                1218
            };
            &&& auth_data_size_offset_of(version, tee_type) == Ok::<nat, QuoteError>(off)
            &&& cert_chain_of(quote, version, tee_type) is Ok ==> {
                let start = cert_data_start(quote, off);
                &&& start + 27 <= quote.len()
                &&& quote.subrange(start as int, start + 27int) == pem_begin()
            }
            &&& off + 2 <= quote.len() && cert_data_start(quote, off) + 27 > quote.len() ==> cert_chain_of(
                quote,
                version,
                tee_type,
            ) == Err::<Seq<Seq<u8>>, QuoteError>(QuoteError::Truncated)
        }),
{
    let off: nat = if version == 3 {
        1012
    } else if tee_type == SGX_TEE_TYPE {
        1018
    } else {
        1218
    };
    if cert_chain_of(quote, version, tee_type) is Ok {
        let start = cert_data_start(quote, off);
        assert(quote.skip(start as int).take(27) =~= quote.subrange(start as int, start + 27int));
    }
}

} // verus!
