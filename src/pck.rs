//! The SGX extensions container of a PCK certificate, and the FMSPC in it.

use vstd::prelude::*;

use crate::der::{be_value, der_length, der_header, read_der_header, TAG_OCTET_STRING, TAG_OID, TAG_SEQUENCE};
use crate::error::QuoteError;

verus! {

/// DER content of OID 1.2.840.113741.1.13.1.4 (FMSPC).
pub const FMSPC_OID: [u8; 10] = [0x2a, 0x86, 0x48, 0x86, 0xf8, 0x4d, 0x01, 0x0d, 0x01, 0x04];

/// Length of an FMSPC in bytes.
pub const FMSPC_LEN: usize = 6;

pub open spec fn fmspc_oid() -> Seq<u8> {
    seq![0x2au8, 0x86, 0x48, 0x86, 0xf8, 0x4d, 0x01, 0x0d, 0x01, 0x04]
}

/// The value part of an entry (what follows its OID) when it is exactly one
/// OCTET STRING of six bytes.
pub open spec fn fmspc_value(v: Seq<u8>) -> Result<Seq<u8>, QuoteError> {
    match der_header(v, TAG_OCTET_STRING) {
        Some((h, l)) => if h + l == v.len() && l == FMSPC_LEN {
            Ok(v.subrange(h as int, (h + l) as int))
        } else {
            Err(QuoteError::MalformedExtension)
        },
        None => Err(QuoteError::MalformedExtension),
    }
}

/// Scans the top-level entries `SEQUENCE { OID, value }` of the container's
/// content, in order, up to the first whose OID is the FMSPC OID.
pub open spec fn fmspc_in_entries(entries: Seq<u8>) -> Result<Seq<u8>, QuoteError>
    decreases entries.len(),
{
    if entries.len() == 0 {
        Err(QuoteError::MissingFmspc)
    } else {
        match der_header(entries, TAG_SEQUENCE) {
            None => Err(QuoteError::MalformedExtension),
            Some((h, l)) => {
                let entry = entries.subrange(h as int, (h + l) as int);
                match der_header(entry, TAG_OID) {
                    None => Err(QuoteError::MalformedExtension),
                    Some((oh, ol)) => if entry.subrange(oh as int, (oh + ol) as int) == fmspc_oid() {
                        fmspc_value(entry.skip((oh + ol) as int))
                    } else {
                        fmspc_in_entries(entries.skip((h + l) as int))
                    },
                }
            },
        }
    }
}

/// The FMSPC held in the DER value of the SGX extensions container.
pub open spec fn fmspc_of_container(ext: Seq<u8>) -> Result<Seq<u8>, QuoteError> {
    match der_header(ext, TAG_SEQUENCE) {
        Some((h, l)) => fmspc_in_entries(ext.subrange(h as int, (h + l) as int)),
        None => Err(QuoteError::MalformedExtension),
    }
}

/// Whether two byte strings are equal.
pub fn bytes_equal(a: &[u8], b: &[u8]) -> (r: bool)
    ensures
        r == (a@ == b@),
{
    if a.len() != b.len() {
        return false;
    }
    let mut i: usize = 0;
    while i < a.len()
        invariant
            a@.len() == b@.len(),
            i <= a@.len(),
            a@.subrange(0, i as int) == b@.subrange(0, i as int),
        decreases a@.len() - i,
    {
        if a[i] != b[i] {
            assert(a@[i as int] == a@.subrange(0, i + 1)[i as int]);
            return false;
        }
        assert(a@.subrange(0, i + 1) =~= a@.subrange(0, i as int).push(a@[i as int]));
        assert(b@.subrange(0, i + 1) =~= b@.subrange(0, i as int).push(b@[i as int]));
        i = i + 1;
    }
    assert(a@ =~= a@.subrange(0, i as int));
    assert(b@ =~= b@.subrange(0, i as int));
    true
}

/// Finds the FMSPC in the DER value of the SGX extensions container: the
/// six bytes of the OCTET STRING of the first entry whose OID is
/// 1.2.840.113741.1.13.1.4. No entry with that OID, or a value of another
/// shape, is an error: no FMSPC is made up. DER lengths are read in short
/// form or in minimal long form of up to four bytes.
#[verifier::rlimit(60)]
pub fn fmspc_from_sgx_extensions(ext: &[u8]) -> (r: Result<[u8; 6], QuoteError>)
    ensures
        match fmspc_of_container(ext@) {
            Ok(f) => r matches Ok(a) && a@ == f,
            Err(e) => r == Err::<[u8; 6], QuoteError>(e),
        },
{
    let (h, l) = match read_der_header(ext, 0, TAG_SEQUENCE) {
        Some(hl) => hl,
        None => {
            assert(ext@.skip(0) =~= ext@);
            return Err(QuoteError::MalformedExtension);
        },
    };
    assert(ext@.skip(0) =~= ext@);
    assert(der_header(ext@, TAG_SEQUENCE) == Some((h as nat, l as nat)));
    let total = ext.len();
    assert(h + l <= total);
    let end = h + l;
    let content = &ext[h..end];
    assert(content@ =~= ext@.subrange(h as int, (h + l) as int));
    let mut pos: usize = 0;
    assert(content@.skip(0) =~= content@);
    while pos < content.len()
        invariant
            pos <= content@.len(),
            fmspc_in_entries(content@.skip(pos as int)) == fmspc_of_container(ext@),
        decreases content@.len() - pos,
    {
        let ghost entries = content@.skip(pos as int);
        let (eh, el) = match read_der_header(content, pos, TAG_SEQUENCE) {
            Some(x) => x,
            None => return Err(QuoteError::MalformedExtension),
        };
        let entry = &content[pos + eh..pos + eh + el];
        assert(entry@ =~= entries.subrange(eh as int, (eh + el) as int));
        assert(entry@.skip(0) =~= entry@);
        let (oh, ol) = match read_der_header(entry, 0, TAG_OID) {
            Some(x) => x,
            None => return Err(QuoteError::MalformedExtension),
        };
        let oid = &entry[oh..oh + ol];
        if bytes_equal(oid, &FMSPC_OID) {
            assert(FMSPC_OID@ =~= fmspc_oid());
            let vstart = oh + ol;
            let ghost value = entry@.skip(vstart as int);
            let (vh, vl) = match read_der_header(entry, vstart, TAG_OCTET_STRING) {
                Some(x) => x,
                None => return Err(QuoteError::MalformedExtension),
            };
            if vstart + vh + vl != entry.len() || vl != FMSPC_LEN {
                return Err(QuoteError::MalformedExtension);
            }
            let s = vstart + vh;
            let out: [u8; 6] = [entry[s], entry[s + 1], entry[s + 2], entry[s + 3], entry[s + 4], entry[s + 5]];
            assert(out@ =~= value.subrange(vh as int, (vh + vl) as int));
            return Ok(out);
        }
        proof {
            assert(FMSPC_OID@ =~= fmspc_oid());
            assert(entries.skip((eh + el) as int) =~= content@.skip(pos + eh + el));
        }
        pos = pos + eh + el;
    }
    Err(QuoteError::MissingFmspc)
}

/// The minimal DER length field of `n`, for `n` below 2^32.
pub open spec fn der_length_bytes(n: nat) -> Seq<u8> {
    let b1 = n / 256;
    let b2 = b1 / 256;
    let b3 = b2 / 256;
    if n < 128 {
        seq![n as u8]
    } else if n < 0x100 {
        seq![0x81u8, n as u8]
    } else if n < 0x1_0000 {
        seq![0x82u8, b1 as u8, (n % 256) as u8]
    } else if n < 0x100_0000 {
        seq![0x83u8, b2 as u8, (b1 % 256) as u8, (n % 256) as u8]
    } else {
        seq![0x84u8, b3 as u8, (b2 % 256) as u8, (b1 % 256) as u8, (n % 256) as u8]
    }
}

/// The DER element with tag `tag` and content `content`.
pub open spec fn der_tlv(tag: u8, content: Seq<u8>) -> Seq<u8> {
    seq![tag] + der_length_bytes(content.len()) + content
}

/// An entry of the SGX extensions container: `SEQUENCE { OID, value }`.
pub open spec fn sgx_entry(oid: Seq<u8>, value: Seq<u8>) -> Seq<u8> {
    der_tlv(TAG_SEQUENCE, der_tlv(TAG_OID, oid) + value)
}

/// Entries `(OID content, value)` one after another.
pub open spec fn sgx_entries(entries: Seq<(Seq<u8>, Seq<u8>)>) -> Seq<u8>
    decreases entries.len(),
{
    if entries.len() == 0 {
        seq![]
    } else {
        sgx_entry(entries[0].0, entries[0].1) + sgx_entries(entries.drop_first())
    }
}

/// Entries whose OIDs are all other than the FMSPC's, each part below
/// 2^28 bytes.
pub open spec fn other_entries(entries: Seq<(Seq<u8>, Seq<u8>)>) -> bool {
    forall|i: int|
        0 <= i < entries.len() ==> (#[trigger] entries[i]).0 != fmspc_oid() && entries[i].0.len() < 0x1000_0000
            && entries[i].1.len() < 0x1000_0000
}

proof fn lemma_der_length_bytes(n: nat)
    requires
        n < 0x1_0000_0000,
    ensures
        der_length(der_length_bytes(n)) == Some((n, der_length_bytes(n).len())),
        1 <= der_length_bytes(n).len() <= 5,
{
    let b1 = n / 256;
    let b2 = b1 / 256;
    let b3 = b2 / 256;
    vstd::arithmetic::div_mod::lemma_fundamental_div_mod(n as int, 256);
    vstd::arithmetic::div_mod::lemma_fundamental_div_mod(b1 as int, 256);
    vstd::arithmetic::div_mod::lemma_fundamental_div_mod(b2 as int, 256);
    let lb = der_length_bytes(n);
    reveal_with_fuel(be_value, 5);
    assert(n >= 128 ==> be_value(lb.subrange(1, lb.len() as int)) == n) by {
        let t = lb.subrange(1, lb.len() as int);
        if n < 128 {
        } else if n < 0x100 {
            assert(t =~= seq![n as u8]);
        } else if n < 0x1_0000 {
            assert(t =~= seq![b1 as u8, (n % 256) as u8]);
            assert(t.drop_last() =~= seq![b1 as u8]);
        } else if n < 0x100_0000 {
            assert(t =~= seq![b2 as u8, (b1 % 256) as u8, (n % 256) as u8]);
            assert(t.drop_last() =~= seq![b2 as u8, (b1 % 256) as u8]);
            assert(t.drop_last().drop_last() =~= seq![b2 as u8]);
        } else {
            assert(t =~= seq![b3 as u8, (b2 % 256) as u8, (b1 % 256) as u8, (n % 256) as u8]);
            assert(t.drop_last() =~= seq![b3 as u8, (b2 % 256) as u8, (b1 % 256) as u8]);
            assert(t.drop_last().drop_last() =~= seq![b3 as u8, (b2 % 256) as u8]);
            assert(t.drop_last().drop_last().drop_last() =~= seq![b3 as u8]);
        }
    }
}

proof fn lemma_der_header_of_tlv(tag: u8, content: Seq<u8>, rest: Seq<u8>)
    requires
        content.len() < 0x1_0000_0000,
    ensures
        ({
            let s = der_tlv(tag, content) + rest;
            let h: int = 1 + der_length_bytes(content.len()).len() as int;
            &&& der_header(s, tag) == Some((h as nat, content.len()))
            &&& s.subrange(h, h + content.len()) == content
            &&& s.skip(h + content.len()) == rest
            &&& h <= 6
        }),
{
    let s = der_tlv(tag, content) + rest;
    let n = content.len();
    let lb = der_length_bytes(n);
    let h: int = 1 + lb.len() as int;
    lemma_der_length_bytes(n);
    assert(s.drop_first() =~= lb + (content + rest));
    assert((lb + (content + rest)).subrange(1, lb.len() as int) =~= lb.subrange(1, lb.len() as int));
    assert(s.subrange(h, h + n) =~= content);
    assert(s.skip(h + n) =~= rest);
}

/// An entry with another OID is passed over.
proof fn lemma_skip_entry(oid: Seq<u8>, value: Seq<u8>, rest: Seq<u8>)
    requires
        oid != fmspc_oid(),
        oid.len() < 0x1000_0000,
        value.len() < 0x1000_0000,
    ensures
        fmspc_in_entries(sgx_entry(oid, value) + rest) == fmspc_in_entries(rest),
{
    let inner = der_tlv(TAG_OID, oid) + value;
    let e = sgx_entry(oid, value) + rest;
    lemma_der_header_of_tlv(TAG_SEQUENCE, inner, rest);
    lemma_der_header_of_tlv(TAG_OID, oid, value);
    assert(e.len() > 0);
}

/// An FMSPC entry yields its six bytes.
proof fn lemma_fmspc_entry(f: Seq<u8>, rest: Seq<u8>)
    requires
        f.len() == FMSPC_LEN,
    ensures
        fmspc_in_entries(sgx_entry(fmspc_oid(), der_tlv(TAG_OCTET_STRING, f)) + rest) == Ok::<Seq<u8>, QuoteError>(f),
{
    let value = der_tlv(TAG_OCTET_STRING, f);
    let inner = der_tlv(TAG_OID, fmspc_oid()) + value;
    let e = sgx_entry(fmspc_oid(), value) + rest;
    lemma_der_header_of_tlv(TAG_SEQUENCE, inner, rest);
    lemma_der_header_of_tlv(TAG_OID, fmspc_oid(), value);
    lemma_der_header_of_tlv(TAG_OCTET_STRING, f, seq![]);
    assert(value + seq![] =~= value);
    assert(e.len() > 0);
}

proof fn lemma_other_entries_passed(others: Seq<(Seq<u8>, Seq<u8>)>, suffix: Seq<u8>)
    requires
        other_entries(others),
    ensures
        fmspc_in_entries(sgx_entries(others) + suffix) == fmspc_in_entries(suffix),
    decreases others.len(),
{
    if others.len() == 0 {
        assert(sgx_entries(others) + suffix =~= suffix);
    } else {
        let rest = others.drop_first();
        assert(other_entries(rest)) by {
            assert forall|i: int| 0 <= i < rest.len() implies (#[trigger] rest[i]).0 != fmspc_oid()
                && rest[i].0.len() < 0x1000_0000 && rest[i].1.len() < 0x1000_0000 by {
                assert(rest[i] == others[i + 1]);
            }
        }
        let first = others[0];
        assert(first == others[0]);
        lemma_other_entries_passed(rest, suffix);
        assert(sgx_entries(others) + suffix =~= sgx_entry(first.0, first.1) + (sgx_entries(rest) + suffix));
        lemma_skip_entry(first.0, first.1, sgx_entries(rest) + suffix);
    }
}

/// For a container whose entries before the FMSPC entry all carry other
/// OIDs, the FMSPC found is exactly the six bytes of the FMSPC entry's
/// OCTET STRING, whatever follows that entry.
pub proof fn lemma_fmspc_found(others: Seq<(Seq<u8>, Seq<u8>)>, fmspc: Seq<u8>, tail: Seq<u8>)
    requires
        other_entries(others),
        fmspc.len() == FMSPC_LEN,
        sgx_entries(others).len() + 22 + tail.len() < 0x1_0000_0000,
    ensures
        fmspc_of_container(
            der_tlv(
                TAG_SEQUENCE,
                sgx_entries(others) + sgx_entry(fmspc_oid(), der_tlv(TAG_OCTET_STRING, fmspc)) + tail,
            ),
        ) == Ok::<Seq<u8>, QuoteError>(fmspc),
{
    let entry = sgx_entry(fmspc_oid(), der_tlv(TAG_OCTET_STRING, fmspc));
    let content = sgx_entries(others) + entry + tail;
    assert(der_tlv(TAG_OCTET_STRING, fmspc).len() == 8);
    assert(der_tlv(TAG_OID, fmspc_oid()).len() == 12);
    assert(entry.len() == 22);
    lemma_der_header_of_tlv(TAG_SEQUENCE, content, seq![]);
    assert(der_tlv(TAG_SEQUENCE, content) + seq![] =~= der_tlv(TAG_SEQUENCE, content));
    assert(content =~= sgx_entries(others) + (entry + tail));
    lemma_other_entries_passed(others, entry + tail);
    lemma_fmspc_entry(fmspc, tail);
}

/// A container none of whose entries carries the FMSPC OID yields no
/// FMSPC: the result is `MissingFmspc`, never a made-up value.
pub proof fn lemma_fmspc_missing(others: Seq<(Seq<u8>, Seq<u8>)>)
    requires
        other_entries(others),
        sgx_entries(others).len() < 0x1_0000_0000,
    ensures
        fmspc_of_container(der_tlv(TAG_SEQUENCE, sgx_entries(others))) == Err::<Seq<u8>, QuoteError>(
            QuoteError::MissingFmspc,
        ),
{
    let content = sgx_entries(others);
    lemma_der_header_of_tlv(TAG_SEQUENCE, content, seq![]);
    assert(der_tlv(TAG_SEQUENCE, content) + seq![] =~= der_tlv(TAG_SEQUENCE, content));
    assert(content + seq![] =~= content);
    lemma_other_entries_passed(others, seq![]);
}

} // verus!
