use coco_attest::quote_input::{check_quote_header, decode_quote_hex, generate_input, remove_prefix_if_found};
use coco_attest::error::QuoteError;
use coco_attest::pccs::{collateral_keys, enclave_identity_json, tcb_info_json, EnclaveIdType};
use coco_attest::pck::fmspc_from_sgx_extensions;
use coco_attest::quote::{
    auth_data_size_offset, classify_issuer, extract_fmspc_from_extension, extract_routing,
    get_cert_data_offset, get_pck_fmspc_and_issuer, locate_cert_chain, read_quote_header,
    IssuerCaClass, QuoteHeader, SGX_TEE_TYPE, TDX_TEE_TYPE,
};

const FMSPC_OID: [u8; 10] = [0x2a, 0x86, 0x48, 0x86, 0xf8, 0x4d, 0x01, 0x0d, 0x01, 0x04];
const PCEID_OID: [u8; 10] = [0x2a, 0x86, 0x48, 0x86, 0xf8, 0x4d, 0x01, 0x0d, 0x01, 0x03];
const SGX_OID: [u8; 9] = [0x2a, 0x86, 0x48, 0x86, 0xf8, 0x4d, 0x01, 0x0d, 0x01];

fn tlv(tag: u8, content: &[u8]) -> Vec<u8> {
    let mut out = vec![tag];
    let n = content.len();
    if n < 128 {
        out.push(n as u8);
    } else if n < 256 {
        out.push(0x81);
        out.push(n as u8);
    } else if n < 65536 {
        out.push(0x82);
        out.push((n / 256) as u8);
        out.push((n % 256) as u8);
    } else {
        out.push(0x83);
        out.push((n / 65536) as u8);
        out.push((n / 256 % 256) as u8);
        out.push((n % 256) as u8);
    }
    out.extend_from_slice(content);
    out
}

fn cat(parts: &[Vec<u8>]) -> Vec<u8> {
    parts.iter().flat_map(|p| p.iter().copied()).collect()
}

fn entry(oid: &[u8], value: Vec<u8>) -> Vec<u8> {
    tlv(0x30, &cat(&[tlv(0x06, oid), value]))
}

fn sgx_extensions(fmspc: Option<&[u8]>) -> Vec<u8> {
    let mut entries = vec![entry(&PCEID_OID, tlv(0x04, &[0x00, 0x00]))];
    if let Some(f) = fmspc {
        entries.push(entry(&FMSPC_OID, tlv(0x04, f)));
    }
    tlv(0x30, &cat(&entries))
}

fn name(cn: &str) -> Vec<u8> {
    let atv = tlv(0x30, &cat(&[tlv(0x06, &[0x55, 0x04, 0x03]), tlv(0x0c, cn.as_bytes())]));
    tlv(0x30, &tlv(0x31, &atv))
}

fn certificate(issuer_cn: &str, sgx_ext: Option<Vec<u8>>) -> Vec<u8> {
    let ecdsa_sha256 = tlv(0x30, &tlv(0x06, &[0x2a, 0x86, 0x48, 0xce, 0x3d, 0x04, 0x03, 0x02]));
    let validity = tlv(0x30, &cat(&[tlv(0x17, b"230101000000Z"), tlv(0x17, b"330101000000Z")]));
    let mut key = vec![0x00, 0x04];
    key.extend_from_slice(&[7u8; 64]);
    let spki = tlv(
        0x30,
        &cat(&[
            tlv(0x30, &cat(&[
                tlv(0x06, &[0x2a, 0x86, 0x48, 0xce, 0x3d, 0x02, 0x01]),
                tlv(0x06, &[0x2a, 0x86, 0x48, 0xce, 0x3d, 0x03, 0x01, 0x07]),
            ])),
            tlv(0x03, &key),
        ]),
    );
    let mut tbs_parts = vec![
        tlv(0xa0, &tlv(0x02, &[0x02])),
        tlv(0x02, &[0x01]),
        ecdsa_sha256.clone(),
        name(issuer_cn),
        validity,
        name("Intel SGX PCK Certificate"),
        spki,
    ];
    if let Some(ext) = sgx_ext {
        let extension = tlv(0x30, &cat(&[tlv(0x06, &SGX_OID), tlv(0x04, &ext)]));
        tbs_parts.push(tlv(0xa3, &tlv(0x30, &extension)));
    }
    let tbs = tlv(0x30, &cat(&tbs_parts));
    let signature = tlv(0x03, &cat(&[vec![0x00], tlv(0x30, &[0x02, 0x01, 0x01, 0x02, 0x01, 0x01])]));
    tlv(0x30, &cat(&[tbs, ecdsa_sha256, signature]))
}

fn base64(data: &[u8]) -> String {
    const ALPHABET: &[u8; 64] = b"ABCDEFGHIJKLMNOPQRSTUVWXYZabcdefghijklmnopqrstuvwxyz0123456789+/";
    let mut out = String::new();
    for chunk in data.chunks(3) {
        let b = [chunk[0], *chunk.get(1).unwrap_or(&0), *chunk.get(2).unwrap_or(&0)];
        let n = ((b[0] as u32) << 16) | ((b[1] as u32) << 8) | b[2] as u32;
        for i in 0..4 {
            if i <= chunk.len() {
                out.push(ALPHABET[((n >> (18 - 6 * i)) & 63) as usize] as char);
            } else {
                out.push('=');
            }
        }
    }
    out
}

fn pem(der: &[u8]) -> String {
    let text = base64(der);
    let mut out = String::from("-----BEGIN CERTIFICATE-----\n");
    for line in text.as_bytes().chunks(64) {
        out.push_str(std::str::from_utf8(line).unwrap());
        out.push('\n');
    }
    out.push_str("-----END CERTIFICATE-----\n");
    out
}

/// A version 4 TDX quote: header, zeroed body up to the auth-data size
/// field, three bytes of auth data, type and size, then the PEM chain.
fn tdx_quote(chain_pem: &str) -> Vec<u8> {
    let mut q = vec![0u8; 1218];
    q[0] = 4;
    q[4] = 0x81;
    q.extend_from_slice(&[3, 0]);
    q.extend_from_slice(&[9, 9, 9]);
    q.extend_from_slice(&[5, 0]);
    q.extend_from_slice(&(chain_pem.len() as u32).to_le_bytes());
    q.extend_from_slice(chain_pem.as_bytes());
    q
}

fn processor_chain() -> String {
    let leaf = certificate("Intel SGX PCK Processor CA", Some(sgx_extensions(Some(&[0x00, 0x90, 0x6e, 0xa1, 0x00, 0x00]))));
    let ca = certificate("Intel SGX Root CA", None);
    format!("{}{}", pem(&leaf), pem(&ca))
}

#[test]
fn v4_tdx_quote_routes_to_processor_ca() {
    let quote = tdx_quote(&processor_chain());
    let (fmspc, class, cn) = get_pck_fmspc_and_issuer(&quote, 4, TDX_TEE_TYPE).unwrap();
    assert_eq!(fmspc, "00906ea10000");
    assert_eq!(class, IssuerCaClass::Processor);
    assert_eq!(cn, "Intel SGX PCK Processor CA");
}

#[test]
fn chain_is_located_leaf_first() {
    let quote = tdx_quote(&processor_chain());
    let chain = locate_cert_chain(&quote, 4, TDX_TEE_TYPE).unwrap();
    assert_eq!(chain.len(), 2);
    assert_eq!(chain[0][0], 0x30);
    let routing = extract_routing(&chain).unwrap();
    assert_eq!(routing.fmspc, [0x00, 0x90, 0x6e, 0xa1, 0x00, 0x00]);
    assert_eq!(routing.issuer, IssuerCaClass::Processor);
}

#[test]
fn platform_ca_is_recognised() {
    let leaf = certificate("Intel SGX PCK Platform CA", Some(sgx_extensions(Some(&[1, 2, 3, 4, 5, 6]))));
    let quote = tdx_quote(&pem(&leaf));
    let (fmspc, class, _) = get_pck_fmspc_and_issuer(&quote, 4, TDX_TEE_TYPE).unwrap();
    assert_eq!(fmspc, "010203040506");
    assert_eq!(class, IssuerCaClass::Platform);
}

#[test]
fn unknown_issuer_is_refused() {
    let leaf = certificate("Some Other CA", Some(sgx_extensions(Some(&[1, 2, 3, 4, 5, 6]))));
    let quote = tdx_quote(&pem(&leaf));
    assert_eq!(get_pck_fmspc_and_issuer(&quote, 4, TDX_TEE_TYPE), Err(QuoteError::UnknownPckIssuer));
}

#[test]
fn missing_fmspc_entry_fails() {
    let leaf = certificate("Intel SGX PCK Processor CA", Some(sgx_extensions(None)));
    let quote = tdx_quote(&pem(&leaf));
    assert_eq!(get_pck_fmspc_and_issuer(&quote, 4, TDX_TEE_TYPE), Err(QuoteError::MissingFmspc));
}

#[test]
fn missing_sgx_extension_fails() {
    let leaf = certificate("Intel SGX PCK Processor CA", None);
    assert_eq!(extract_fmspc_from_extension(&leaf), Err(QuoteError::MissingSgxExtension));
}

#[test]
fn fmspc_is_read_from_certificate() {
    let leaf = certificate("Intel SGX PCK Processor CA", Some(sgx_extensions(Some(&[9, 8, 7, 6, 5, 4]))));
    assert_eq!(extract_fmspc_from_extension(&leaf), Ok([9, 8, 7, 6, 5, 4]));
}

#[test]
fn fmspc_after_other_entries() {
    let ext = sgx_extensions(Some(&[0x00, 0x90, 0x6e, 0xa1, 0x00, 0x00]));
    assert_eq!(fmspc_from_sgx_extensions(&ext), Ok([0x00, 0x90, 0x6e, 0xa1, 0x00, 0x00]));
}

#[test]
fn fmspc_of_wrong_length_fails() {
    let ext = sgx_extensions(Some(&[1, 2, 3, 4, 5]));
    assert_eq!(fmspc_from_sgx_extensions(&ext), Err(QuoteError::MalformedExtension));
}

#[test]
fn fmspc_missing_gives_no_zeros() {
    let ext = sgx_extensions(None);
    assert_eq!(fmspc_from_sgx_extensions(&ext), Err(QuoteError::MissingFmspc));
}

#[test]
fn fmspc_container_not_a_sequence() {
    assert_eq!(fmspc_from_sgx_extensions(&[0x04, 0x00]), Err(QuoteError::MalformedExtension));
    assert_eq!(fmspc_from_sgx_extensions(&[]), Err(QuoteError::MalformedExtension));
}

#[test]
fn fmspc_with_trailing_bytes_in_entry_fails() {
    let bad = entry(&FMSPC_OID, cat(&[tlv(0x04, &[1, 2, 3, 4, 5, 6]), vec![0x05, 0x00]]));
    assert_eq!(fmspc_from_sgx_extensions(&tlv(0x30, &bad)), Err(QuoteError::MalformedExtension));
}

#[test]
fn fmspc_long_form_lengths() {
    let padding = entry(&PCEID_OID, tlv(0x04, &[0u8; 200]));
    let ext = tlv(0x30, &cat(&[padding, entry(&FMSPC_OID, tlv(0x04, &[6, 5, 4, 3, 2, 1]))]));
    assert_eq!(ext[1], 0x81);
    assert_eq!(fmspc_from_sgx_extensions(&ext), Ok([6, 5, 4, 3, 2, 1]));
}

#[test]
fn corrupted_auth_data_length_is_truncated() {
    let mut quote = tdx_quote(&processor_chain());
    quote[1218] = 0xff;
    quote[1219] = 0xff;
    assert_eq!(get_pck_fmspc_and_issuer(&quote, 4, TDX_TEE_TYPE), Err(QuoteError::Truncated));
    assert_eq!(locate_cert_chain(&quote[..1219], 4, TDX_TEE_TYPE), Err(QuoteError::Truncated));
}

#[test]
fn wrong_offset_misses_pem_header() {
    let mut quote = tdx_quote(&processor_chain());
    quote[1218] = 2;
    assert_eq!(locate_cert_chain(&quote, 4, TDX_TEE_TYPE), Err(QuoteError::MissingPemHeader));
}

#[test]
fn malformed_pem_and_certificate() {
    let quote = tdx_quote("-----BEGIN CERTIFICATE-----\n@@@@\n-----END CERTIFICATE-----\n");
    assert_eq!(locate_cert_chain(&quote, 4, TDX_TEE_TYPE), Err(QuoteError::MalformedPem));
    let quote = tdx_quote(&pem(&[0x30, 0x00]));
    assert_eq!(locate_cert_chain(&quote, 4, TDX_TEE_TYPE), Err(QuoteError::MalformedCertificate));
}

#[test]
fn cert_data_offset_formula() {
    let mut q = vec![0u8; 1100];
    q[1012] = 0x10;
    q[1013] = 0x00;
    assert_eq!(get_cert_data_offset(&q, 1012), Ok(1012 + 2 + 16 + 6));
    assert_eq!(get_cert_data_offset(&q, 1099), Err(QuoteError::Truncated));
    q[1013] = 0x01;
    assert_eq!(get_cert_data_offset(&q, 1012), Err(QuoteError::Truncated));
}

#[test]
fn layout_offsets() {
    assert_eq!(auth_data_size_offset(3, SGX_TEE_TYPE), Ok(1012));
    assert_eq!(auth_data_size_offset(4, SGX_TEE_TYPE), Ok(1018));
    assert_eq!(auth_data_size_offset(4, TDX_TEE_TYPE), Ok(1218));
    assert_eq!(auth_data_size_offset(5, TDX_TEE_TYPE), Err(QuoteError::UnsupportedVersion));
    assert_eq!(auth_data_size_offset(4, 7), Err(QuoteError::UnsupportedTeeType));
}

#[test]
fn quote_header_fields() {
    let q = [4, 0, 2, 0, 0x81, 0, 0, 0, 9];
    assert_eq!(read_quote_header(&q), Ok(QuoteHeader { version: 4, tee_type: 0x81 }));
    assert_eq!(read_quote_header(&q[..7]), Err(QuoteError::Truncated));
    let q = [3, 1, 0, 0, 1, 2, 3, 4];
    assert_eq!(read_quote_header(&q), Ok(QuoteHeader { version: 259, tee_type: 0x04030201 }));
}

#[test]
fn quote_header_checks() {
    assert_eq!(check_quote_header(&QuoteHeader { version: 4, tee_type: TDX_TEE_TYPE }), Ok(()));
    assert_eq!(check_quote_header(&QuoteHeader { version: 3, tee_type: SGX_TEE_TYPE }), Ok(()));
    assert_eq!(check_quote_header(&QuoteHeader { version: 2, tee_type: SGX_TEE_TYPE }), Err(QuoteError::UnsupportedVersion));
    assert_eq!(check_quote_header(&QuoteHeader { version: 4, tee_type: 3 }), Err(QuoteError::UnsupportedTeeType));
}

#[test]
fn issuer_classes() {
    assert_eq!(classify_issuer("Intel SGX PCK Platform CA"), Ok(IssuerCaClass::Platform));
    assert_eq!(classify_issuer("Intel SGX PCK Processor CA"), Ok(IssuerCaClass::Processor));
    assert_eq!(classify_issuer("Intel SGX PCK Processor CA "), Err(QuoteError::UnknownPckIssuer));
    assert_eq!(classify_issuer(""), Err(QuoteError::UnknownPckIssuer));
}

#[test]
fn collateral_keys_for_tdx_and_sgx() {
    let k = collateral_keys(&QuoteHeader { version: 4, tee_type: TDX_TEE_TYPE });
    assert_eq!((k.tcb_type, k.tcb_version, k.qe_id_type, k.qe_version), (1, 3, EnclaveIdType::TDQE, 4));
    let k = collateral_keys(&QuoteHeader { version: 3, tee_type: SGX_TEE_TYPE });
    assert_eq!((k.tcb_type, k.tcb_version, k.qe_id_type, k.qe_version), (0, 2, EnclaveIdType::QE, 3));
    assert_eq!(EnclaveIdType::QVE.id(), 1);
    assert_eq!(EnclaveIdType::TDQE.id(), 2);
}

#[test]
fn quote_hex_decoding() {
    assert_eq!(decode_quote_hex("0a0B"), Ok(vec![0x0a, 0x0b]));
    assert_eq!(decode_quote_hex(""), Ok(vec![]));
    assert_eq!(decode_quote_hex("abc"), Err(QuoteError::InvalidHex));
    assert_eq!(decode_quote_hex("zz"), Err(QuoteError::InvalidHex));
    assert_eq!(decode_quote_hex(remove_prefix_if_found("0x0401")), Ok(vec![4, 1]));
}

#[test]
fn hex_prefixes() {
    assert_eq!(remove_prefix_if_found("0x0xab"), "ab");
    assert_eq!(remove_prefix_if_found("ab0x"), "ab0x");
    assert_eq!(remove_prefix_if_found("0"), "0");
    assert_eq!(coco_attest::pccs::remove_prefix_if_found("0x0xab"), "0xab");
    assert_eq!(coco_attest::pccs::remove_prefix_if_found("abcd"), "abcd");
}

#[test]
fn program_input_framing() {
    let input = generate_input(&[1, 2, 3], &[9, 8], 0x0102030405060708);
    assert_eq!(
        input,
        vec![8, 7, 6, 5, 4, 3, 2, 1, 3, 0, 0, 0, 2, 0, 0, 0, 1, 2, 3, 9, 8]
    );
    assert_eq!(generate_input(&[], &[], 0), vec![0u8; 16]);
}

#[test]
fn collateral_documents() {
    assert_eq!(
        tcb_info_json("{\"id\":\"TDX\"}", "0xabcd"),
        Some("{\"tcbInfo\": {\"id\":\"TDX\"}, \"signature\": \"abcd\"}".to_string())
    );
    assert_eq!(
        enclave_identity_json("{}", "0x01"),
        Some("{\"enclaveIdentity\": {}, \"signature\": \"01\"}".to_string())
    );
    assert_eq!(tcb_info_json("", "0xabcd"), None);
    assert_eq!(enclave_identity_json("{}", "0x"), None);
}

#[test]
fn fmspc_three_byte_lengths() {
    let padding = entry(&PCEID_OID, tlv(0x04, &vec![0u8; 70000]));
    let ext = tlv(0x30, &cat(&[padding, entry(&FMSPC_OID, tlv(0x04, &[6, 5, 4, 3, 2, 1]))]));
    assert_eq!(ext[1], 0x83);
    assert_eq!(fmspc_from_sgx_extensions(&ext), Ok([6, 5, 4, 3, 2, 1]));
}

#[test]
fn non_minimal_length_is_refused() {
    let ext = vec![0x30, 0x81, 0x05, 0, 0, 0, 0, 0];
    assert_eq!(fmspc_from_sgx_extensions(&ext), Err(QuoteError::MalformedExtension));
}

#[test]
fn pem_block_must_be_a_certificate() {
    let leaf = certificate("Intel SGX PCK Processor CA", Some(sgx_extensions(Some(&[1, 2, 3, 4, 5, 6]))));
    let text = pem(&leaf).replace("CERTIFICATE", "PUBLIC KEY");
    let quote = tdx_quote(&text);
    assert_eq!(locate_cert_chain(&quote, 4, TDX_TEE_TYPE), Err(QuoteError::MissingPemHeader));
}
