//! Minimal DER reader: the tag-length-value header of one element.

use vstd::prelude::*;

verus! {

/// Tag of a DER SEQUENCE (universal 16, constructed).
pub const TAG_SEQUENCE: u8 = 0x30;

/// Tag of a DER OBJECT IDENTIFIER.
pub const TAG_OID: u8 = 0x06;

/// Tag of a DER OCTET STRING (primitive).
pub const TAG_OCTET_STRING: u8 = 0x04;

/// The big-endian value of `b`.
pub open spec fn be_value(b: Seq<u8>) -> nat
    decreases b.len(),
{
    if b.len() == 0 {
        0
    } else {
        be_value(b.drop_last()) * 256 + b.last() as nat
    }
}

/// Whether a long-form length field of `k` bytes starting with `first` is
/// minimal: no leading zero byte, and one byte only for values of 128 on.
pub open spec fn minimal_long_form(k: nat, first: u8) -> bool {
    first != 0 && (k > 1 || first >= 0x80)
}

/// The length field that starts at the front of `s`: `(value, bytes used)`.
/// Short form, or long form with one to four bytes in minimal encoding.
pub open spec fn der_length(s: Seq<u8>) -> Option<(nat, nat)> {
    if s.len() == 0 {
        None
    } else if s[0] < 0x80 {
        Some((s[0] as nat, 1))
    } else if 0x81 <= s[0] <= 0x84 {
        let k = (s[0] - 0x80) as nat;
        if s.len() >= 1 + k && minimal_long_form(k, s[1]) {
            Some((be_value(s.subrange(1, 1 + k as int)), 1 + k))
        } else {
            None
        }
    } else {
        None
    }
}

/// The header of an element with tag `tag` at the front of `s`, whose content
/// fits in `s`: `(header length, content length)`.
pub open spec fn der_header(s: Seq<u8>, tag: u8) -> Option<(nat, nat)> {
    if s.len() == 0 || s[0] != tag {
        None
    } else {
        match der_length(s.drop_first()) {
            Some((len, used)) => if 1 + used + len <= s.len() {
                Some(((1 + used) as nat, len))
            } else {
                None
            },
            None => None,
        }
    }
}

proof fn lemma_be_value_bound(b: Seq<u8>)
    ensures
        be_value(b) < pow256(b.len()),
    decreases b.len(),
{
    if b.len() > 0 {
        lemma_be_value_bound(b.drop_last());
        let v = be_value(b.drop_last());
        let p = pow256((b.len() - 1) as nat);
        assert(v * 256 + b.last() < p * 256) by (nonlinear_arith)
            requires
                v < p,
                b.last() < 256,
        ;
    }
}

/// 256 to the power `k`.
pub open spec fn pow256(k: nat) -> nat
    decreases k,
{
    if k == 0 {
        1
    } else {
        pow256((k - 1) as nat) * 256
    }
}

/// Reads the big-endian value of the `k` bytes at `s[start..]`.
fn read_be(s: &[u8], start: usize, k: usize) -> (r: u64)
    requires
        k <= 4,
        start + k <= s@.len(),
        start + k <= usize::MAX,
    ensures
        r == be_value(s@.subrange(start as int, start + k)),
        r < 0x1_0000_0000,
{
    let mut v: u64 = 0;
    let mut j: usize = 0;
    while j < k
        invariant
            j <= k <= 4,
            start + k <= s@.len(),
            start + k <= usize::MAX,
            v == be_value(s@.subrange(start as int, start + j)),
            v < pow256(j as nat),
        decreases k - j,
    {
        assert(s@.subrange(start as int, start + j + 1).drop_last() =~= s@.subrange(start as int, start + j));
        proof {
            lemma_be_value_bound(s@.subrange(start as int, start + j + 1));
            reveal_with_fuel(pow256, 5);
        }
        v = v * 256 + s[start + j] as u64;
        j = j + 1;
    }
    proof {
        reveal_with_fuel(pow256, 5);
    }
    v
}

/// Reads the header of the element with tag `tag` at `s[start..]`.
pub fn read_der_header(s: &[u8], start: usize, tag: u8) -> (r: Option<(usize, usize)>)
    requires
        start <= s@.len(),
    ensures
        match der_header(s@.skip(start as int), tag) {
            Some((h, l)) => r matches Some((rh, rl)) && rh == h && rl == l,
            None => r is None,
        },
        r matches Some((h, l)) ==> start + h + l <= s@.len(),
{
    let ghost t = s@.skip(start as int);
    let n = s.len() - start;
    if n == 0 || s[start] != tag {
        return None;
    }
    assert(t.drop_first() =~= s@.skip(start + 1));
    if n < 2 {
        return None;
    }
    let b0 = s[start + 1];
    if b0 < 0x80 {
        let len = b0 as usize;
        if 2 + len <= n {
            return Some((2, len));
        }
        return None;
    }
    if b0 < 0x81 || b0 > 0x84 {
        return None;
    }
    let k = (b0 - 0x80) as usize;
    if n < 2 + k {
        return None;
    }
    let first = s[start + 2];
    if first == 0 || (k == 1 && first < 0x80) {
        return None;
    }
    let len = read_be(s, start + 2, k);
    assert(t.drop_first().subrange(1, 1 + k as int) =~= s@.subrange(start + 2, start + 2 + k));
    if len > (n - 2 - k) as u64 {
        return None;
    }
    Some((2 + k, len as usize))
}

} // verus!
