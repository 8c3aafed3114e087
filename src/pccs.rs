//! Keys under which the on-chain collateral store (PCCS) holds the
//! collateral of a quote.

use vstd::prelude::*;

use crate::quote::{QuoteHeader, TDX_TEE_TYPE};

verus! {

/// The enclave whose identity is looked up.
#[derive(Debug, Clone, Copy, PartialEq, Eq, Structural)]
pub enum EnclaveIdType {
    QE,
    QVE,
    TDQE,
}

impl EnclaveIdType {
    /// The identifier that the collateral store uses.
    pub fn id(&self) -> (r: u8)
        ensures
            *self == EnclaveIdType::QE ==> r == 0,
            *self == EnclaveIdType::QVE ==> r == 1,
            *self == EnclaveIdType::TDQE ==> r == 2,
    {
        match self {
            EnclaveIdType::QE => 0,
            EnclaveIdType::QVE => 1,
            EnclaveIdType::TDQE => 2,
        }
    }
}

/// What to fetch the TCB info and the QE identity of a quote by.
#[derive(Debug, Clone, Copy, PartialEq, Eq, Structural)]
pub struct CollateralKeys {
    /// 0 for SGX, 1 for TDX.
    pub tcb_type: u8,
    /// TCB info version: 2 for version 3 quotes, 3 after.
    pub tcb_version: u32,
    pub qe_id_type: EnclaveIdType,
    /// QE identity version: the quote version.
    pub qe_version: u32,
}

/// The collateral keys of a quote with this header.
pub fn collateral_keys(header: &QuoteHeader) -> (r: CollateralKeys)
    ensures
        r.tcb_type == (if header.tee_type == TDX_TEE_TYPE { 1u8 } else { 0u8 }),
        r.tcb_version == (if header.version < 4 { 2u32 } else { 3u32 }),
        r.qe_id_type == (if header.tee_type == TDX_TEE_TYPE { EnclaveIdType::TDQE } else { EnclaveIdType::QE }),
        r.qe_version == header.version as u32,
{
    let tdx = header.tee_type == TDX_TEE_TYPE;
    CollateralKeys {
        tcb_type: if tdx { 1 } else { 0 },
        tcb_version: if header.version < 4 { 2 } else { 3 },
        qe_id_type: if tdx { EnclaveIdType::TDQE } else { EnclaveIdType::QE },
        qe_version: header.version as u32,
    }
}

/// `s` without one leading `0x`, where it has one.
pub open spec fn without_hex_prefix(s: Seq<char>) -> Seq<char> {
    if s.len() >= 2 && s[0] == '0' && s[1] == 'x' {
        s.skip(2)
    } else {
        s
    }
}

/// Removes one leading `0x`.
pub fn remove_prefix_if_found(h: &str) -> (r: &str)
    ensures
        r@ == without_hex_prefix(h@),
{
    let n = h.unicode_len();
    if n >= 2 && h.get_char(0) == '0' && h.get_char(1) == 'x' {
        h.substring_char(2, n)
    } else {
        h
    }
}

/// A collateral document as the verifier reads it: `{"<field>": <json>,
/// "signature": "<hex>"}`, the signature without its `0x`.
pub open spec fn collateral_json_of(field: Seq<char>, json: Seq<char>, signature: Seq<char>) -> Seq<char> {
    "{\""@ + field + "\": "@ + json + ", \"signature\": \""@ + without_hex_prefix(signature) + "\"}"@
}

fn collateral_json(field: &str, json: &str, signature: &str) -> (r: Option<String>)
    ensures
        json@.len() == 0 || without_hex_prefix(signature@).len() == 0 ==> r is None,
        json@.len() != 0 && without_hex_prefix(signature@).len() != 0 ==> (r matches Some(s) && s@
            == collateral_json_of(field@, json@, signature@)),
{
    let sig = remove_prefix_if_found(signature);
    if json.unicode_len() == 0 || sig.unicode_len() == 0 {
        return None;
    }
    let out = "{\"".to_string().concat(field).concat("\": ").concat(json).concat(", \"signature\": \"").concat(
        sig,
    ).concat("\"}");
    Some(out)
}

/// The TCB-info collateral from the collateral store's answer (the JSON
/// text and the signature as `0x` hex); none where either is missing.
pub fn tcb_info_json(tcb_info: &str, signature: &str) -> (r: Option<String>)
    ensures
        tcb_info@.len() == 0 || without_hex_prefix(signature@).len() == 0 ==> r is None,
        tcb_info@.len() != 0 && without_hex_prefix(signature@).len() != 0 ==> (r matches Some(s) && s@
            == collateral_json_of("tcbInfo"@, tcb_info@, signature@)),
{
    collateral_json("tcbInfo", tcb_info, signature)
}

/// The QE-identity collateral from the collateral store's answer; none
/// where either part is missing.
pub fn enclave_identity_json(identity: &str, signature: &str) -> (r: Option<String>)
    ensures
        identity@.len() == 0 || without_hex_prefix(signature@).len() == 0 ==> r is None,
        identity@.len() != 0 && without_hex_prefix(signature@).len() != 0 ==> (r matches Some(s) && s@
            == collateral_json_of("enclaveIdentity"@, identity@, signature@)),
{
    collateral_json("enclaveIdentity", identity, signature)
}

} // verus!
