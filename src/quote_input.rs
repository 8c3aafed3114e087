//! Reading a quote given as hex text, and framing the input of the DCAP
//! verification program.

use vstd::prelude::*;

use crate::encoding::{hex_decode, hex_decoded};
use crate::error::QuoteError;
use crate::quote::{QuoteHeader, SGX_TEE_TYPE, TDX_TEE_TYPE};
use vstd::bytes::{spec_u32_to_le_bytes, spec_u64_to_le_bytes, u32_to_le_bytes, u64_to_le_bytes};
use vstd::string::StringSliceAdditionalSpecFns;

verus! {

/// `s` without all its leading `0x`s.
pub open spec fn without_hex_prefixes(s: Seq<char>) -> Seq<char>
    decreases s.len(),
{
    if s.len() >= 2 && s[0] == '0' && s[1] == 'x' {
        without_hex_prefixes(s.skip(2))
    } else {
        s
    }
}

/// Removes every leading `0x`.
pub fn remove_prefix_if_found(h: &str) -> (r: &str)
    ensures
        r@ == without_hex_prefixes(h@),
{
    let n = h.unicode_len();
    let mut i: usize = 0;
    assert(h@.skip(0) =~= h@);
    while n - i >= 2 && h.get_char(i) == '0' && h.get_char(i + 1) == 'x'
        invariant
            n == h@.len(),
            i <= n,
            without_hex_prefixes(h@.skip(i as int)) == without_hex_prefixes(h@),
        decreases n - i,
    {
        assert(h@.skip(i as int)[0] == h@[i as int] && h@.skip(i as int)[1] == h@[i + 1]);
        assert(h@.skip(i as int).skip(2) =~= h@.skip(i + 2));
        i = i + 2;
    }
    let r = h.substring_char(i, n);
    assert(r@ =~= h@.skip(i as int));
    r
}

/// Decodes a quote written as hex text.
pub fn decode_quote_hex(text: &str) -> (r: Result<Vec<u8>, QuoteError>)
    ensures
        match hex_decoded(text.spec_bytes()) {
            Some(b) => r matches Ok(v) && v@ == b,
            None => r == Err::<Vec<u8>, QuoteError>(QuoteError::InvalidHex),
        },
{
    match hex_decode(text.as_bytes()) {
        Ok(v) => Ok(v),
        Err(_) => Err(QuoteError::InvalidHex),
    }
}

/// Accepts the quote versions and TEE types that have a known layout.
pub fn check_quote_header(header: &QuoteHeader) -> (r: Result<(), QuoteError>)
    ensures
        header.version != 3 && header.version != 4 ==> r == Err::<(), QuoteError>(QuoteError::UnsupportedVersion),
        (header.version == 3 || header.version == 4) && header.tee_type != SGX_TEE_TYPE && header.tee_type
            != TDX_TEE_TYPE ==> r == Err::<(), QuoteError>(QuoteError::UnsupportedTeeType),
        (header.version == 3 || header.version == 4) && (header.tee_type == SGX_TEE_TYPE || header.tee_type
            == TDX_TEE_TYPE) ==> r is Ok,
{
    if header.version != 3 && header.version != 4 {
        return Err(QuoteError::UnsupportedVersion);
    }
    if header.tee_type != SGX_TEE_TYPE && header.tee_type != TDX_TEE_TYPE {
        return Err(QuoteError::UnsupportedTeeType);
    }
    Ok(())
}

/// The input of the verification program: the time (u64), the quote length
/// and the collateral length (u32 each), little-endian, then the quote and
/// the collateral.
pub open spec fn program_input_of(quote: Seq<u8>, collaterals: Seq<u8>, current_time: u64) -> Seq<u8> {
    spec_u64_to_le_bytes(current_time) + spec_u32_to_le_bytes(quote.len() as u32) + spec_u32_to_le_bytes(
        collaterals.len() as u32,
    ) + quote + collaterals
}

/// Frames the input of the verification program.
pub fn generate_input(quote: &[u8], collaterals: &[u8], current_time: u64) -> (r: Vec<u8>)
    requires
        16 + quote@.len() + collaterals@.len() <= u32::MAX,
    ensures
        r@ == program_input_of(quote@, collaterals@, current_time),
{
    let mut input = u64_to_le_bytes(current_time);
    let mut quote_len = u32_to_le_bytes(quote.len() as u32);
    let mut collaterals_len = u32_to_le_bytes(collaterals.len() as u32);
    let mut quote_bytes = vstd::slice::slice_to_vec(quote);
    let mut collateral_bytes = vstd::slice::slice_to_vec(collaterals);
    input.append(&mut quote_len);
    input.append(&mut collaterals_len);
    input.append(&mut quote_bytes);
    input.append(&mut collateral_bytes);
    input
}

} // verus!
