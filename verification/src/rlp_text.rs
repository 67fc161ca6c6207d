//! The short forms of the RLP value encoding that identity records use for
//! their content entries: byte strings of fewer than 56 bytes, and ports as
//! minimal big-endian integers.
use vstd::prelude::*;

verus! {

/// The RLP encoding of a short byte string (payload shorter than 56 bytes):
/// a lone byte below 128 stands for itself, anything else gets a one-byte
/// length prefix.
pub open spec fn rlp_str(v: Seq<u8>) -> Seq<u8>
    recommends
        v.len() < 56,
{
    if v.len() == 1 && v[0] < 128 {
        v
    } else {
        seq![(128 + v.len()) as u8] + v
    }
}

/// The minimal big-endian byte form of a 16-bit integer: no leading zero,
/// empty for zero.
pub open spec fn be_min_u16(n: u16) -> Seq<u8> {
    if n == 0 {
        Seq::empty()
    } else if n < 256 {
        seq![n as u8]
    } else {
        seq![(n / 256) as u8, (n % 256) as u8]
    }
}

/// The RLP encoding of a 16-bit integer: its minimal big-endian bytes as a
/// short byte string.
pub open spec fn rlp_u16(n: u16) -> Seq<u8> {
    rlp_str(be_min_u16(n))
}

/// What a short RLP item decodes to: the payload bytes, if the item is a
/// well-formed short byte string; nothing otherwise.
pub open spec fn rlp_str_parse(v: Seq<u8>) -> Option<Seq<u8>> {
    if v.len() == 1 && v[0] < 128 {
        Some(v)
    } else if v.len() >= 1 && 128 <= v[0] < 184 && v.len() == 1 + (v[0] - 128)
        && !(v.len() == 2 && v[1] < 128) {
        Some(v.skip(1))
    } else {
        None
    }
}

/// What a short RLP item decodes to as a 16-bit integer: the value, if the
/// payload is the minimal big-endian form of one; nothing otherwise.
pub open spec fn rlp_u16_parse(v: Seq<u8>) -> Option<u16> {
    match rlp_str_parse(v) {
        Some(p) => if p.len() == 0 {
            Some(0u16)
        } else if p.len() == 1 && p[0] != 0 {
            Some(p[0] as u16)
        } else if p.len() == 2 && p[0] != 0 {
            Some((p[0] * 256 + p[1]) as u16)
        } else {
            None
        },
        None => None,
    }
}

/// Encode a short byte string as an RLP item.
pub fn rlp_encode_bytes(v: &Vec<u8>) -> (r: Vec<u8>)
    requires
        v@.len() < 56,
    ensures
        r@ == rlp_str(v@),
{
    if v.len() == 1 && v[0] < 128 {
        let mut r: Vec<u8> = Vec::new();
        r.push(v[0]);
        proof {
            assert(r@ =~= rlp_str(v@));
        }
        r
    } else {
        let mut r: Vec<u8> = Vec::new();
        r.push(128 + v.len() as u8);
        let mut i: usize = 0;
        while i < v.len()
            invariant
                i <= v@.len(),
                v@.len() < 56,
                r@.len() == 1 + i,
                r@[0] == (128 + v@.len()) as u8,
                forall|j: int| 0 <= j < i ==> r@[j + 1] == v@[j],
            decreases v@.len() - i,
        {
            r.push(v[i]);
            i += 1;
        }
        proof {
            assert(r@ =~= rlp_str(v@));
        }
        r
    }
}

/// Encode a 16-bit integer as an RLP item.
pub fn rlp_encode_u16(n: u16) -> (r: Vec<u8>)
    ensures
        r@ == rlp_u16(n),
{
    let mut payload: Vec<u8> = Vec::new();
    if n == 0 {
    } else if n < 256 {
        payload.push(n as u8);
    } else {
        payload.push((n / 256) as u8);
        payload.push((n % 256) as u8);
    }
    proof {
        assert(payload@ =~= be_min_u16(n));
    }
    rlp_encode_bytes(&payload)
}

/// Decode a short RLP item to its payload bytes.
pub fn rlp_decode_bytes(v: &Vec<u8>) -> (r: Option<Vec<u8>>)
    ensures
        r is Some <==> rlp_str_parse(v@) is Some,
        r matches Some(p) ==> Some(p@) == rlp_str_parse(v@),
{
    if v.len() == 1 && v[0] < 128 {
        let mut p: Vec<u8> = Vec::new();
        p.push(v[0]);
        proof {
            assert(p@ =~= v@);
        }
        Some(p)
    } else if v.len() >= 1 && 128 <= v[0] && v[0] < 184 && v.len() == 1 + (v[0] - 128) as usize
        && !(v.len() == 2 && v[1] < 128) {
        let mut p: Vec<u8> = Vec::new();
        let mut i: usize = 1;
        while i < v.len()
            invariant
                1 <= i <= v@.len(),
                p@.len() == i - 1,
                forall|j: int| 0 <= j < p@.len() ==> p@[j] == v@[j + 1],
            decreases v@.len() - i,
        {
            p.push(v[i]);
            i += 1;
        }
        proof {
            assert(p@ =~= v@.skip(1));
        }
        Some(p)
    } else {
        None
    }
}

/// Decode a short RLP item to a 16-bit integer.
pub fn rlp_decode_u16(v: &Vec<u8>) -> (r: Option<u16>)
    ensures
        r == rlp_u16_parse(v@),
{
    match rlp_decode_bytes(v) {
        Some(p) => {
            if p.len() == 0 {
                Some(0)
            } else if p.len() == 1 && p[0] != 0 {
                Some(p[0] as u16)
            } else if p.len() == 2 && p[0] != 0 {
                Some(p[0] as u16 * 256 + p[1] as u16)
            } else {
                None
            }
        },
        None => None,
    }
}

/// Law: a short byte string decodes back from its RLP item.
pub proof fn lemma_rlp_str_round_trip(v: Seq<u8>)
    requires
        v.len() < 56,
    ensures
        rlp_str_parse(rlp_str(v)) == Some(v),
{
    if v.len() == 1 && v[0] < 128 {
    } else {
        let e = rlp_str(v);
        assert(e[0] == (128 + v.len()) as u8);
        assert(e.skip(1) =~= v);
    }
}

/// Law: a 16-bit integer decodes back from its RLP item.
pub proof fn lemma_rlp_u16_round_trip(n: u16)
    ensures
        rlp_u16_parse(rlp_u16(n)) == Some(n),
{
    lemma_rlp_str_round_trip(be_min_u16(n));
    if n >= 256 {
        assert(be_min_u16(n)[0] == (n / 256) as u8);
        assert((n / 256) as u8 != 0);
        assert((n / 256) * 256 + n % 256 == n) by (nonlinear_arith);
    }
}

} // verus!
