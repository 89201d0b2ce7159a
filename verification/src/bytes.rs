//! Big-endian integer fields of the wire protocol, and the byte-order
//! normalization applied to program images.

use vstd::prelude::*;

verus! {

/// The big-endian value of the first two bytes of `b`.
pub open spec fn be_u16(b: Seq<u8>) -> int
    recommends
        b.len() >= 2,
{
    b[0] * 0x100 + b[1]
}

/// The big-endian value of the first four bytes of `b`.
pub open spec fn be_u32(b: Seq<u8>) -> int
    recommends
        b.len() >= 4,
{
    ((b[0] * 0x100 + b[1]) * 0x100 + b[2]) * 0x100 + b[3]
}

/// Reads a big-endian 16-bit field from the start of a reply payload.
pub fn u16_from_vec(data: &[u8]) -> (r: Option<u16>)
    ensures
        match r {
            Some(v) => data@.len() >= 2 && v == be_u16(data@),
            None => data@.len() < 2,
        },
{
    if data.len() < 2 {
        return None;
    }
    let v: u16 = (data[0] as u16) * 0x100 + (data[1] as u16);
    Some(v)
}

/// Reads a big-endian 32-bit field from the start of a reply payload.
pub fn u32_from_vec(data: &[u8]) -> (r: Option<u32>)
    ensures
        match r {
            Some(v) => data@.len() >= 4 && v == be_u32(data@),
            None => data@.len() < 4,
        },
{
    if data.len() < 4 {
        return None;
    }
    let hi: u32 = (data[0] as u32) * 0x100 + (data[1] as u32);
    let lo: u32 = (data[2] as u32) * 0x100 + (data[3] as u32);
    let v: u32 = hi * 0x1_0000 + lo;
    proof {
        assert(v == be_u32(data@)) by (nonlinear_arith)
            requires
                hi == data@[0] * 0x100 + data@[1],
                lo == data@[2] * 0x100 + data@[3],
                v == hi * 0x1_0000 + lo,
        ;
    }
    Some(v)
}

/// Packs the first eight bytes of `data` into the two big-endian 32-bit
/// command arguments.
pub fn args_from_vec(data: &[u8]) -> (r: Option<[u32; 2]>)
    ensures
        match r {
            Some(a) => data@.len() >= 8 && a[0] == be_u32(data@) && a[1] == be_u32(
                data@.skip(4),
            ),
            None => data@.len() < 8,
        },
{
    if data.len() < 8 {
        return None;
    }
    let first = u32_from_vec(data);
    let rest = vstd::slice::slice_subrange(data, 4, data.len());
    let second = u32_from_vec(rest);
    match (first, second) {
        (Some(a0), Some(a1)) => {
            proof {
                assert(rest@ == data@.skip(4));
            }
            Some([a0, a1])
        },
        _ => None,
    }
}

/// Writes `v` as four big-endian bytes.
pub fn u32_to_vec(v: u32) -> (r: Vec<u8>)
    ensures
        r@.len() == 4,
        be_u32(r@) == v,
{
    let b0: u8 = (v / 0x100_0000) as u8;
    let b1: u8 = (v / 0x1_0000 % 0x100) as u8;
    let b2: u8 = (v / 0x100 % 0x100) as u8;
    let b3: u8 = (v % 0x100) as u8;
    let mut r: Vec<u8> = Vec::new();
    r.push(b0);
    r.push(b1);
    r.push(b2);
    r.push(b3);
    proof {
        assert(be_u32(r@) == v) by (nonlinear_arith)
            requires
                r@.len() == 4,
                r@[0] == v as int / 0x100_0000,
                r@[1] == v as int / 0x1_0000 % 0x100,
                r@[2] == v as int / 0x100 % 0x100,
                r@[3] == v as int % 0x100,
                v <= 0xFFFF_FFFF,
        ;
    }
    r
}

/// How the bytes of a program image are permuted relative to canonical
/// order, detected from a magic word in its first four bytes.
#[derive(Debug, Clone, Copy, PartialEq, Eq, Structural)]
pub enum SwapKind {
    /// Already canonical; bytes pass through unchanged.
    Canonical,
    /// Every aligned pair of bytes is exchanged.
    Swap16,
    /// Every aligned group of four bytes is reversed.
    Swap32,
}

/// Where the byte at index `i` of a swapped sequence of length `len` comes
/// from. Bytes past the last complete pair or group stay in place.
pub open spec fn spec_swap_source(k: SwapKind, len: int, i: int) -> int {
    match k {
        SwapKind::Canonical => i,
        SwapKind::Swap16 => if i % 2 == 0 {
            if i + 1 < len {
                i + 1
            } else {
                i
            }
        } else {
            i - 1
        },
        SwapKind::Swap32 => {
            let base = 4 * (i / 4);
            if base + 3 < len {
                base + 3 - (i % 4)
            } else {
                i
            }
        },
    }
}

/// The byte-order normalization of `s` under `k`.
pub open spec fn spec_swap(k: SwapKind, s: Seq<u8>) -> Seq<u8> {
    Seq::new(s.len(), |i: int| s[spec_swap_source(k, s.len() as int, i)])
}

proof fn lemma_swap_source_involution(k: SwapKind, len: int, i: int)
    requires
        0 <= i < len,
    ensures
        0 <= spec_swap_source(k, len, i) < len,
        spec_swap_source(k, len, spec_swap_source(k, len, i)) == i,
{
    match k {
        SwapKind::Canonical => {},
        SwapKind::Swap16 => {},
        SwapKind::Swap32 => {
            let j = spec_swap_source(k, len, i);
            assert(4 * (i / 4) + 3 < len ==> j / 4 == i / 4) by (nonlinear_arith)
                requires
                    0 <= i < len,
                    j == if 4 * (i / 4) + 3 < len {
                        4 * (i / 4) + 3 - (i % 4)
                    } else {
                        i
                    },
            ;
        },
    }
}

/// Applying the same swap twice returns the original bytes.
pub proof fn lemma_swap_involution(k: SwapKind, s: Seq<u8>)
    ensures
        spec_swap(k, spec_swap(k, s)) == s,
{
    let t = spec_swap(k, s);
    assert forall|i: int| 0 <= i < s.len() implies spec_swap(k, t)[i] == s[i] by {
        lemma_swap_source_involution(k, s.len() as int, i);
        lemma_swap_source_involution(k, s.len() as int, spec_swap_source(k, s.len() as int, i));
    }
    assert(spec_swap(k, t) =~= s);
}

/// The first magic pattern: the image is stored with its 16-bit halves
/// exchanged.
pub open spec fn spec_is_swap16_magic(s: Seq<u8>) -> bool {
    s.len() >= 4 && s[0] == 0x37 && s[1] == 0x80 && s[2] == 0x40 && s[3] == 0x12
}

/// The second magic pattern: the image is stored with its 32-bit words
/// byte-reversed.
pub open spec fn spec_is_swap32_magic(s: Seq<u8>) -> bool {
    s.len() >= 4 && s[0] == 0x40 && s[1] == 0x12 && s[2] == 0x37 && s[3] == 0x80
}

/// Which normalization an image needs, judged by its first four bytes;
/// anything but the two magic patterns is taken as canonical.
pub open spec fn spec_detect_swap(s: Seq<u8>) -> SwapKind {
    if spec_is_swap16_magic(s) {
        SwapKind::Swap16
    } else if spec_is_swap32_magic(s) {
        SwapKind::Swap32
    } else {
        SwapKind::Canonical
    }
}

pub fn detect_swap(data: &[u8]) -> (r: SwapKind)
    ensures
        r == spec_detect_swap(data@),
{
    if data.len() < 4 {
        return SwapKind::Canonical;
    }
    if data[0] == 0x37 && data[1] == 0x80 && data[2] == 0x40 && data[3] == 0x12 {
        SwapKind::Swap16
    } else if data[0] == 0x40 && data[1] == 0x12 && data[2] == 0x37 && data[3] == 0x80 {
        SwapKind::Swap32
    } else {
        SwapKind::Canonical
    }
}

/// Applies `k` to `data` in place.
pub fn apply_swap(k: SwapKind, data: &mut Vec<u8>)
    ensures
        final(data)@ == spec_swap(k, old(data)@),
{
    let ghost orig = data@;
    let len = data.len();
    match k {
        SwapKind::Canonical => {
            proof {
                assert(spec_swap(k, orig) =~= orig);
            }
        },
        SwapKind::Swap16 => {
            let mut i: usize = 0;
            while i + 1 < len
                invariant
                    len == data@.len(),
                    data@.len() == orig.len(),
                    i % 2 == 0,
                    forall|j: int|
                        0 <= j < i ==> data@[j] == orig[spec_swap_source(
                            SwapKind::Swap16,
                            orig.len() as int,
                            j,
                        )],
                    forall|j: int| i <= j < orig.len() ==> data@[j] == orig[j],
                decreases len - i,
            {
                let a = data[i];
                let b = data[i + 1];
                data[i] = b;
                data[i + 1] = a;
                i = i + 2;
            }
            proof {
                assert(data@ =~= spec_swap(k, orig));
            }
        },
        SwapKind::Swap32 => {
            let mut i: usize = 0;
            while i + 3 < len
                invariant
                    len == data@.len(),
                    data@.len() == orig.len(),
                    i % 4 == 0,
                    forall|j: int|
                        0 <= j < i ==> data@[j] == orig[spec_swap_source(
                            SwapKind::Swap32,
                            orig.len() as int,
                            j,
                        )],
                    forall|j: int| i <= j < orig.len() ==> data@[j] == orig[j],
                decreases len - i,
            {
                let b0 = data[i];
                let b1 = data[i + 1];
                let b2 = data[i + 2];
                let b3 = data[i + 3];
                data[i] = b3;
                data[i + 1] = b2;
                data[i + 2] = b1;
                data[i + 3] = b0;
                proof {
                    assert forall|j: int| 0 <= j < i + 4 implies data@[j] == orig[spec_swap_source(
                        SwapKind::Swap32,
                        orig.len() as int,
                        j,
                    )] by {
                        if i <= j < i + 4 {
                            assert(4 * (j / 4) == i) by (nonlinear_arith)
                                requires
                                    i <= j < i + 4,
                                    i % 4 == 0,
                                    i >= 0,
                            ;
                        }
                    }
                }
                i = i + 4;
            }
            proof {
                assert forall|j: int| 0 <= j < orig.len() implies data@[j] == spec_swap(
                    k,
                    orig,
                )[j] by {
                    if j >= i {
                        assert(4 * (j / 4) + 3 >= orig.len()) by (nonlinear_arith)
                            requires
                                i <= j < orig.len(),
                                i % 4 == 0,
                                i >= 0,
                                orig.len() < i + 4,
                        ;
                    }
                }
                assert(data@ =~= spec_swap(k, orig));
            }
        },
    }
}

} // verus!
