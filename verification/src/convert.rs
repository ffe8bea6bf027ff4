//! Host tensor storage and its little-endian byte image.

use vstd::prelude::*;
use crate::dtype::DType;
use crate::half_bits::{bf16_from_le_bytes, bf16_to_le_bytes};

verus! {

/// Host-side tensor data. Floating-point elements are held as their bit
/// patterns: `F32` as `u32`, `F64` as `u64`, `BF16` and `F16` as `u16`.
#[derive(Clone, Debug)]
pub enum CpuStorage {
    U8(Vec<u8>),
    U32(Vec<u32>),
    I64(Vec<i64>),
    BF16(Vec<u16>),
    F16(Vec<u16>),
    F32(Vec<u32>),
    F64(Vec<u64>),
}

/// The contents of a `CpuStorage`.
pub enum CpuStorageView {
    U8(Seq<u8>),
    U32(Seq<u32>),
    I64(Seq<i64>),
    BF16(Seq<u16>),
    F16(Seq<u16>),
    F32(Seq<u32>),
    F64(Seq<u64>),
}

impl View for CpuStorage {
    type V = CpuStorageView;

    open spec fn view(&self) -> CpuStorageView {
        match self {
            CpuStorage::U8(v) => CpuStorageView::U8(v@),
            CpuStorage::U32(v) => CpuStorageView::U32(v@),
            CpuStorage::I64(v) => CpuStorageView::I64(v@),
            CpuStorage::BF16(v) => CpuStorageView::BF16(v@),
            CpuStorage::F16(v) => CpuStorageView::F16(v@),
            CpuStorage::F32(v) => CpuStorageView::F32(v@),
            CpuStorage::F64(v) => CpuStorageView::F64(v@),
        }
    }
}

impl CpuStorageView {
    pub open spec fn dtype(self) -> DType {
        match self {
            CpuStorageView::U8(_) => DType::U8,
            CpuStorageView::U32(_) => DType::U32,
            CpuStorageView::I64(_) => DType::I64,
            CpuStorageView::BF16(_) => DType::BF16,
            CpuStorageView::F16(_) => DType::F16,
            CpuStorageView::F32(_) => DType::F32,
            CpuStorageView::F64(_) => DType::F64,
        }
    }

    pub open spec fn len(self) -> nat {
        match self {
            CpuStorageView::U8(v) => v.len(),
            CpuStorageView::U32(v) => v.len(),
            CpuStorageView::I64(v) => v.len(),
            CpuStorageView::BF16(v) => v.len(),
            CpuStorageView::F16(v) => v.len(),
            CpuStorageView::F32(v) => v.len(),
            CpuStorageView::F64(v) => v.len(),
        }
    }
}

impl CpuStorage {
    /// Element type of the storage.
    pub fn dtype(&self) -> (r: DType)
        ensures
            r == self@.dtype(),
    {
        match self {
            CpuStorage::U8(_) => DType::U8,
            CpuStorage::U32(_) => DType::U32,
            CpuStorage::I64(_) => DType::I64,
            CpuStorage::BF16(_) => DType::BF16,
            CpuStorage::F16(_) => DType::F16,
            CpuStorage::F32(_) => DType::F32,
            CpuStorage::F64(_) => DType::F64,
        }
    }
}

/// 256 to the power `j`, for the byte positions of a 64-bit word.
pub open spec fn pow256(j: int) -> int {
    if j == 0 {
        1
    } else if j == 1 {
        0x100
    } else if j == 2 {
        0x1_0000
    } else if j == 3 {
        0x100_0000
    } else if j == 4 {
        0x1_0000_0000
    } else if j == 5 {
        0x100_0000_0000
    } else if j == 6 {
        0x1_0000_0000_0000
    } else {
        0x100_0000_0000_0000
    }
}

/// Byte `j` (from the least significant) of the non-negative number `x`.
pub open spec fn byte_at(x: int, j: int) -> u8 {
    ((x / pow256(j)) % 256) as u8
}

/// The little-endian images of the numbers of `v`, each `w` bytes wide, one after another.
#[verifier::opaque]
pub open spec fn le_bytes(v: Seq<int>, w: int) -> Seq<u8> {
    Seq::new((v.len() * w) as nat, |p: int| byte_at(v[p / w], p % w))
}

/// The number whose little-endian image is the `w` bytes of `b` from `s` on.
pub open spec fn le_value(b: Seq<u8>, s: int, w: int) -> int {
    if w == 2 {
        b[s] + 0x100 * b[s + 1]
    } else if w == 4 {
        b[s] + 0x100 * b[s + 1] + 0x1_0000 * b[s + 2] + 0x100_0000 * b[s + 3]
    } else {
        b[s] + 0x100 * b[s + 1] + 0x1_0000 * b[s + 2] + 0x100_0000 * b[s + 3]
            + 0x1_0000_0000 * b[s + 4] + 0x100_0000_0000 * b[s + 5]
            + 0x1_0000_0000_0000 * b[s + 6] + 0x100_0000_0000_0000 * b[s + 7]
    }
}

/// The numbers of the complete `w`-byte chunks of `b`; a shorter tail is dropped.
#[verifier::opaque]
pub open spec fn le_values(b: Seq<u8>, w: int) -> Seq<int> {
    Seq::new((b.len() as int / w) as nat, |i: int| le_value(b, i * w, w))
}

/// The two's-complement pattern of a 64-bit signed number, as a non-negative number.
pub open spec fn twos64(x: i64) -> int {
    if x >= 0 { x as int } else { x + 0x1_0000_0000_0000_0000 }
}

/// The signed number with the 64-bit two's-complement pattern `u`.
pub open spec fn signed64(u: int) -> i64 {
    if u < 0x8000_0000_0000_0000 { u as i64 } else { (u - 0x1_0000_0000_0000_0000) as i64 }
}

pub open spec fn ints_u16(v: Seq<u16>) -> Seq<int> {
    v.map_values(|x: u16| x as int)
}

pub open spec fn ints_u32(v: Seq<u32>) -> Seq<int> {
    v.map_values(|x: u32| x as int)
}

pub open spec fn ints_u64(v: Seq<u64>) -> Seq<int> {
    v.map_values(|x: u64| x as int)
}

pub open spec fn ints_i64(v: Seq<i64>) -> Seq<int> {
    v.map_values(|x: i64| twos64(x))
}

/// The byte image of host storage: each element in little-endian order, one after another.
pub open spec fn storage_bytes(s: CpuStorageView) -> Seq<u8> {
    match s {
        CpuStorageView::U8(v) => v,
        CpuStorageView::U32(v) => le_bytes(ints_u32(v), 4),
        CpuStorageView::I64(v) => le_bytes(ints_i64(v), 8),
        CpuStorageView::BF16(v) => le_bytes(ints_u16(v), 2),
        CpuStorageView::F16(v) => le_bytes(ints_u16(v), 2),
        CpuStorageView::F32(v) => le_bytes(ints_u32(v), 4),
        CpuStorageView::F64(v) => le_bytes(ints_u64(v), 8),
    }
}

/// Host storage of type `dtype` read from a byte image, chunk by chunk.
pub open spec fn storage_from_bytes(b: Seq<u8>, dtype: DType) -> CpuStorageView {
    match dtype {
        DType::U8 => CpuStorageView::U8(b),
        DType::U32 => CpuStorageView::U32(le_values(b, 4).map_values(|x: int| x as u32)),
        DType::I64 => CpuStorageView::I64(le_values(b, 8).map_values(|x: int| signed64(x))),
        DType::BF16 => CpuStorageView::BF16(le_values(b, 2).map_values(|x: int| x as u16)),
        DType::F16 => CpuStorageView::F16(le_values(b, 2).map_values(|x: int| x as u16)),
        DType::F32 => CpuStorageView::F32(le_values(b, 4).map_values(|x: int| x as u32)),
        DType::F64 => CpuStorageView::F64(le_values(b, 8).map_values(|x: int| x as u64)),
    }
}

fn push_u32_le(out: &mut Vec<u8>, x: u32)
    ensures
        final(out)@ == old(out)@ + seq![byte_at(x as int, 0), byte_at(x as int, 1), byte_at(x as int, 2), byte_at(x as int, 3)],
{
    out.push((x % 256) as u8);
    out.push(((x / 0x100) % 256) as u8);
    out.push(((x / 0x1_0000) % 256) as u8);
    out.push(((x / 0x100_0000) % 256) as u8);
}

fn push_u64_le(out: &mut Vec<u8>, x: u64)
    ensures
        final(out)@ == old(out)@ + seq![
            byte_at(x as int, 0), byte_at(x as int, 1), byte_at(x as int, 2), byte_at(x as int, 3),
            byte_at(x as int, 4), byte_at(x as int, 5), byte_at(x as int, 6), byte_at(x as int, 7),
        ],
{
    out.push((x % 256) as u8);
    out.push(((x / 0x100) % 256) as u8);
    out.push(((x / 0x1_0000) % 256) as u8);
    out.push(((x / 0x100_0000) % 256) as u8);
    out.push(((x / 0x1_0000_0000) % 256) as u8);
    out.push(((x / 0x100_0000_0000) % 256) as u8);
    out.push(((x / 0x1_0000_0000_0000) % 256) as u8);
    out.push(((x / 0x100_0000_0000_0000) % 256) as u8);
}

pub(crate) fn encode_u32s(v: &Vec<u32>) -> (r: Vec<u8>)
    requires
        v.len() * 4 <= usize::MAX,
    ensures
        r@ == le_bytes(ints_u32(v@), 4),
{
    let mut out: Vec<u8> = Vec::new();
    let mut i: usize = 0;
    while i < v.len()
        invariant
            i <= v.len(),
            out.len() == 4 * i,
            forall|p: int| 0 <= p < 4 * i ==> #[trigger] out@[p] == byte_at(v@[p / 4] as int, p % 4),
        decreases v.len() - i,
    {
        let ghost old_out = out@;
        push_u32_le(&mut out, v[i]);
        assert forall|p: int| 0 <= p < 4 * (i + 1) implies #[trigger] out@[p] == byte_at(v@[p / 4] as int, p % 4) by {
            if p >= 4 * i {
                assert(p / 4 == i as int);
            } else {
                assert(out@[p] == old_out[p]);
            }
        }
        i = i + 1;
    }
    reveal(le_bytes);
    reveal(le_values);
    assert(out@ =~= le_bytes(ints_u32(v@), 4));
    out
}

fn encode_u64s(v: &Vec<u64>) -> (r: Vec<u8>)
    requires
        v.len() * 8 <= usize::MAX,
    ensures
        r@ == le_bytes(ints_u64(v@), 8),
{
    let mut out: Vec<u8> = Vec::new();
    let mut i: usize = 0;
    while i < v.len()
        invariant
            i <= v.len(),
            out.len() == 8 * i,
            forall|p: int| 0 <= p < 8 * i ==> #[trigger] out@[p] == byte_at(v@[p / 8] as int, p % 8),
        decreases v.len() - i,
    {
        let ghost old_out = out@;
        push_u64_le(&mut out, v[i]);
        assert forall|p: int| 0 <= p < 8 * (i + 1) implies #[trigger] out@[p] == byte_at(v@[p / 8] as int, p % 8) by {
            if p >= 8 * i {
                assert(p / 8 == i as int);
            } else {
                assert(out@[p] == old_out[p]);
            }
        }
        i = i + 1;
    }
    reveal(le_bytes);
    reveal(le_values);
    assert(out@ =~= le_bytes(ints_u64(v@), 8));
    out
}

fn twos_of(x: i64) -> (r: u64)
    ensures
        r as int == twos64(x),
{
    if x >= 0 {
        x as u64
    } else {
        ((x - i64::MIN) as u64) + 0x8000_0000_0000_0000u64
    }
}

fn encode_i64s(v: &Vec<i64>) -> (r: Vec<u8>)
    requires
        v.len() * 8 <= usize::MAX,
    ensures
        r@ == le_bytes(ints_i64(v@), 8),
{
    let mut out: Vec<u8> = Vec::new();
    let mut i: usize = 0;
    while i < v.len()
        invariant
            i <= v.len(),
            out.len() == 8 * i,
            forall|p: int| 0 <= p < 8 * i ==> #[trigger] out@[p] == byte_at(twos64(v@[p / 8]), p % 8),
        decreases v.len() - i,
    {
        let ghost old_out = out@;
        let u = twos_of(v[i]);
        push_u64_le(&mut out, u);
        assert forall|p: int| 0 <= p < 8 * (i + 1) implies #[trigger] out@[p] == byte_at(twos64(v@[p / 8]), p % 8) by {
            if p >= 8 * i {
                assert(p / 8 == i as int);
            } else {
                assert(out@[p] == old_out[p]);
            }
        }
        i = i + 1;
    }
    reveal(le_bytes);
    reveal(le_values);
    assert(out@ =~= le_bytes(ints_i64(v@), 8));
    out
}

fn encode_half(v: &Vec<u16>, brain: bool) -> (r: Vec<u8>)
    requires
        v.len() * 2 <= usize::MAX,
    ensures
        r@ == le_bytes(ints_u16(v@), 2),
{
    let mut out: Vec<u8> = Vec::new();
    let mut i: usize = 0;
    while i < v.len()
        invariant
            i <= v.len(),
            out.len() == 2 * i,
            forall|p: int| 0 <= p < 2 * i ==> #[trigger] out@[p] == byte_at(v@[p / 2] as int, p % 2),
        decreases v.len() - i,
    {
        let ghost old_out = out@;
        let x = v[i];
        if brain {
            let b = bf16_to_le_bytes(x);
            out.push(b[0]);
            out.push(b[1]);
        } else {
            out.push((x % 256) as u8);
            out.push((x / 256) as u8);
        }
        assert forall|p: int| 0 <= p < 2 * (i + 1) implies #[trigger] out@[p] == byte_at(v@[p / 2] as int, p % 2) by {
            if p >= 2 * i {
                assert(p / 2 == i as int);
            } else {
                assert(out@[p] == old_out[p]);
            }
        }
        i = i + 1;
    }
    reveal(le_bytes);
    reveal(le_values);
    assert(out@ =~= le_bytes(ints_u16(v@), 2));
    out
}

/// Byte image of host storage, with its element type: every element is
/// written in little-endian order; `bf16` elements go through the `half`
/// crate's codec.
pub fn cpu_storage_to_bytes(storage: CpuStorage) -> (r: (Vec<u8>, DType))
    requires
        storage@.len() * storage@.dtype().spec_size() <= usize::MAX,
    ensures
        r.0@ == storage_bytes(storage@),
        r.1 == storage@.dtype(),
{
    match storage {
        CpuStorage::U8(v) => (v, DType::U8),
        CpuStorage::U32(v) => (encode_u32s(&v), DType::U32),
        CpuStorage::I64(v) => (encode_i64s(&v), DType::I64),
        CpuStorage::BF16(v) => (encode_half(&v, true), DType::BF16),
        CpuStorage::F16(v) => (encode_half(&v, false), DType::F16),
        CpuStorage::F32(v) => (encode_u32s(&v), DType::F32),
        CpuStorage::F64(v) => (encode_u64s(&v), DType::F64),
    }
}

fn decode_u32s(b: &[u8]) -> (r: Vec<u32>)
    ensures
        r@ == le_values(b@, 4).map_values(|x: int| x as u32),
{
    let n = b.len() / 4;
    let mut out: Vec<u32> = Vec::new();
    let mut i: usize = 0;
    while i < n
        invariant
            i <= n,
            n == b.len() / 4,
            out.len() == i,
            forall|k: int| 0 <= k < i ==> #[trigger] out@[k] == le_value(b@, k * 4, 4) as u32,
        decreases n - i,
    {
        let s = 4 * i;
        let x: u32 = b[s] as u32 + 0x100 * (b[s + 1] as u32) + 0x1_0000 * (b[s + 2] as u32)
            + 0x100_0000 * (b[s + 3] as u32);
        out.push(x);
        i = i + 1;
    }
    reveal(le_bytes);
    reveal(le_values);
    assert(out@ =~= le_values(b@, 4).map_values(|x: int| x as u32));
    out
}

fn le_u64_at(b: &[u8], s: usize) -> (r: u64)
    requires
        s + 8 <= b.len(),
    ensures
        r as int == le_value(b@, s as int, 8),
{
    b[s] as u64 + 0x100 * (b[s + 1] as u64) + 0x1_0000 * (b[s + 2] as u64)
        + 0x100_0000 * (b[s + 3] as u64) + 0x1_0000_0000 * (b[s + 4] as u64)
        + 0x100_0000_0000 * (b[s + 5] as u64) + 0x1_0000_0000_0000 * (b[s + 6] as u64)
        + 0x100_0000_0000_0000 * (b[s + 7] as u64)
}

fn decode_u64s(b: &[u8]) -> (r: Vec<u64>)
    ensures
        r@ == le_values(b@, 8).map_values(|x: int| x as u64),
{
    let n = b.len() / 8;
    let mut out: Vec<u64> = Vec::new();
    let mut i: usize = 0;
    while i < n
        invariant
            i <= n,
            n == b.len() / 8,
            out.len() == i,
            forall|k: int| 0 <= k < i ==> #[trigger] out@[k] == le_value(b@, k * 8, 8) as u64,
        decreases n - i,
    {
        let x = le_u64_at(b, 8 * i);
        out.push(x);
        i = i + 1;
    }
    reveal(le_bytes);
    reveal(le_values);
    assert(out@ =~= le_values(b@, 8).map_values(|x: int| x as u64));
    out
}

fn signed_of(u: u64) -> (r: i64)
    ensures
        r == signed64(u as int),
{
    if u < 0x8000_0000_0000_0000u64 {
        u as i64
    } else {
        ((u - 0x8000_0000_0000_0000u64) as i64) + i64::MIN
    }
}

fn decode_i64s(b: &[u8]) -> (r: Vec<i64>)
    ensures
        r@ == le_values(b@, 8).map_values(|x: int| signed64(x)),
{
    let n = b.len() / 8;
    let mut out: Vec<i64> = Vec::new();
    let mut i: usize = 0;
    while i < n
        invariant
            i <= n,
            n == b.len() / 8,
            out.len() == i,
            forall|k: int| 0 <= k < i ==> #[trigger] out@[k] == signed64(le_value(b@, k * 8, 8)),
        decreases n - i,
    {
        let x = le_u64_at(b, 8 * i);
        out.push(signed_of(x));
        i = i + 1;
    }
    reveal(le_bytes);
    reveal(le_values);
    assert(out@ =~= le_values(b@, 8).map_values(|x: int| signed64(x)));
    out
}

fn decode_half(b: &[u8], brain: bool) -> (r: Vec<u16>)
    ensures
        r@ == le_values(b@, 2).map_values(|x: int| x as u16),
{
    let n = b.len() / 2;
    let mut out: Vec<u16> = Vec::new();
    let mut i: usize = 0;
    while i < n
        invariant
            i <= n,
            n == b.len() / 2,
            out.len() == i,
            forall|k: int| 0 <= k < i ==> #[trigger] out@[k] == le_value(b@, k * 2, 2) as u16,
        decreases n - i,
    {
        let pair: [u8; 2] = [b[2 * i], b[2 * i + 1]];
        let x = if brain { bf16_from_le_bytes(pair) } else { b[2 * i] as u16 + 256 * (b[2 * i + 1] as u16) };
        out.push(x);
        i = i + 1;
    }
    reveal(le_bytes);
    reveal(le_values);
    assert(out@ =~= le_values(b@, 2).map_values(|x: int| x as u16));
    out
}

/// Host storage of element type `dtype` read from a byte image: each complete
/// chunk of the type's width is one little-endian element, and a shorter tail
/// is dropped; `bf16` elements go through the `half` crate's codec.
pub fn bytes_to_cpu_storage(bytes: &[u8], dtype: DType) -> (r: CpuStorage)
    ensures
        r@ == storage_from_bytes(bytes@, dtype),
{
    match dtype {
        DType::U8 => {
            let mut v: Vec<u8> = Vec::new();
            let mut i: usize = 0;
            while i < bytes.len()
                invariant
                    i <= bytes.len(),
                    v@ == bytes@.take(i as int),
                decreases bytes.len() - i,
            {
                v.push(bytes[i]);
                proof {
                    assert(bytes@.take(i + 1) =~= bytes@.take(i as int).push(bytes@[i as int]));
                }
                i = i + 1;
            }
            assert(bytes@.take(bytes.len() as int) =~= bytes@);
            CpuStorage::U8(v)
        },
        DType::U32 => CpuStorage::U32(decode_u32s(bytes)),
        DType::I64 => CpuStorage::I64(decode_i64s(bytes)),
        DType::BF16 => CpuStorage::BF16(decode_half(bytes, true)),
        DType::F16 => CpuStorage::F16(decode_half(bytes, false)),
        DType::F32 => CpuStorage::F32(decode_u32s(bytes)),
        DType::F64 => CpuStorage::F64(decode_u64s(bytes)),
    }
}

proof fn lemma_u16_bytes(x: u16)
    ensures
        x as int == byte_at(x as int, 0) + 0x100 * byte_at(x as int, 1),
{
    assert(x == (x % 256) + 0x100 * ((x / 0x100) % 256)) by (bit_vector);
}

proof fn lemma_u32_bytes(x: u32)
    ensures
        x as int == byte_at(x as int, 0) + 0x100 * byte_at(x as int, 1) + 0x1_0000 * byte_at(x as int, 2)
            + 0x100_0000 * byte_at(x as int, 3),
{
    assert(x == (x % 256) + 0x100 * ((x / 0x100) % 256) + 0x1_0000 * ((x / 0x1_0000) % 256)
        + 0x100_0000 * ((x / 0x100_0000) % 256)) by (bit_vector);
}

proof fn lemma_u64_bytes(x: u64)
    ensures
        x as int == byte_at(x as int, 0) + 0x100 * byte_at(x as int, 1) + 0x1_0000 * byte_at(x as int, 2)
            + 0x100_0000 * byte_at(x as int, 3) + 0x1_0000_0000 * byte_at(x as int, 4)
            + 0x100_0000_0000 * byte_at(x as int, 5) + 0x1_0000_0000_0000 * byte_at(x as int, 6)
            + 0x100_0000_0000_0000 * byte_at(x as int, 7),
{
    assert(x == (x % 256) + 0x100 * ((x / 0x100) % 256) + 0x1_0000 * ((x / 0x1_0000) % 256)
        + 0x100_0000 * ((x / 0x100_0000) % 256) + 0x1_0000_0000 * ((x / 0x1_0000_0000) % 256)
        + 0x100_0000_0000 * ((x / 0x100_0000_0000) % 256) + 0x1_0000_0000_0000 * ((x / 0x1_0000_0000_0000) % 256)
        + 0x100_0000_0000_0000 * ((x / 0x100_0000_0000_0000) % 256)) by (bit_vector);
}

proof fn lemma_chunk(i: int, w: int, j: int)
    requires
        0 <= j < w,
    ensures
        (i * w + j) / w == i,
        (i * w + j) % w == j,
{
    assert((i * w + j) / w == i && (i * w + j) % w == j) by (nonlinear_arith)
        requires 0 <= j < w;
}

proof fn lemma_decode_encode(v: Seq<int>, w: int)
    requires
        w == 2 || w == 4 || w == 8,
        forall|i: int| 0 <= i < v.len() ==> 0 <= #[trigger] v[i] < pow256(w - 1) * 256,
    ensures
        le_values(le_bytes(v, w), w) =~= v,
{
    reveal(le_bytes);
    reveal(le_values);
    let b = le_bytes(v, w);
    assert(b.len() as int / w == v.len() as int) by (nonlinear_arith)
        requires b.len() == v.len() * w, w > 0;
    assert forall|i: int| 0 <= i < v.len() implies #[trigger] le_value(b, i * w, w) == v[i] by {
        assert forall|j: int| 0 <= j < w implies #[trigger] b[i * w + j] == byte_at(v[i], j) by {
            lemma_chunk(i, w, j);
            assert(i * w + w <= v.len() * w) by (nonlinear_arith)
                requires 0 <= i < v.len(), w > 0;
        }
        assert(i * w + w <= v.len() * w) by (nonlinear_arith)
            requires 0 <= i < v.len(), w > 0;
        assert(b[i * w + 0] == byte_at(v[i], 0));
        assert(b[i * w + 1] == byte_at(v[i], 1));
        if w == 2 {
            lemma_u16_bytes(v[i] as u16);
        } else if w == 4 {
            assert(b[i * w + 2] == byte_at(v[i], 2));
            assert(b[i * w + 3] == byte_at(v[i], 3));
            lemma_u32_bytes(v[i] as u32);
        } else {
            assert(b[i * w + 2] == byte_at(v[i], 2));
            assert(b[i * w + 3] == byte_at(v[i], 3));
            assert(b[i * w + 4] == byte_at(v[i], 4));
            assert(b[i * w + 5] == byte_at(v[i], 5));
            assert(b[i * w + 6] == byte_at(v[i], 6));
            assert(b[i * w + 7] == byte_at(v[i], 7));
            lemma_u64_bytes(v[i] as u64);
        }
    }
}

/// Reading the byte image of host storage back as the same element type
/// gives the same storage.
pub proof fn law_bytes_round_trip(s: CpuStorageView)
    ensures
        storage_from_bytes(storage_bytes(s), s.dtype()) == s,
{
    match s {
        CpuStorageView::U8(v) => {},
        CpuStorageView::U32(v) => {
            lemma_decode_encode(ints_u32(v), 4);
            assert(le_values(le_bytes(ints_u32(v), 4), 4).map_values(|x: int| x as u32) =~= v);
        },
        CpuStorageView::F32(v) => {
            lemma_decode_encode(ints_u32(v), 4);
            assert(le_values(le_bytes(ints_u32(v), 4), 4).map_values(|x: int| x as u32) =~= v);
        },
        CpuStorageView::BF16(v) => {
            lemma_decode_encode(ints_u16(v), 2);
            assert(le_values(le_bytes(ints_u16(v), 2), 2).map_values(|x: int| x as u16) =~= v);
        },
        CpuStorageView::F16(v) => {
            lemma_decode_encode(ints_u16(v), 2);
            assert(le_values(le_bytes(ints_u16(v), 2), 2).map_values(|x: int| x as u16) =~= v);
        },
        CpuStorageView::F64(v) => {
            lemma_decode_encode(ints_u64(v), 8);
            assert(le_values(le_bytes(ints_u64(v), 8), 8).map_values(|x: int| x as u64) =~= v);
        },
        CpuStorageView::I64(v) => {
            lemma_decode_encode(ints_i64(v), 8);
            assert(le_values(le_bytes(ints_i64(v), 8), 8).map_values(|x: int| signed64(x)) =~= v);
        },
    }
}

/// The byte image holds each element's width in bytes for every element.
pub proof fn law_image_length(s: CpuStorageView)
    ensures
        storage_bytes(s).len() == s.len() * s.dtype().spec_size(),
{
    reveal(le_bytes);
}

/// Reading a byte image gives storage of the requested element type with one
/// element per complete chunk of the type's width; a shorter tail is dropped.
pub proof fn law_decoded_length(b: Seq<u8>, dtype: DType)
    ensures
        storage_from_bytes(b, dtype).dtype() == dtype,
        storage_from_bytes(b, dtype).len() == b.len() / dtype.spec_size(),
{
    reveal(le_values);
}

proof fn lemma_bytes_of_value2(b0: u8, b1: u8)
    ensures
        byte_at(b0 + 0x100 * b1, 0) == b0,
        byte_at(b0 + 0x100 * b1, 1) == b1,
{
    assert(((b0 as u32 + 0x100 * (b1 as u32)) % 256) == b0) by (bit_vector);
    assert((((b0 as u32 + 0x100 * (b1 as u32)) / 0x100) % 256) == b1) by (bit_vector);
}

proof fn lemma_bytes_of_value4(b0: u8, b1: u8, b2: u8, b3: u8)
    ensures
        ({
            let x = b0 + 0x100 * b1 + 0x1_0000 * b2 + 0x100_0000 * b3;
            &&& byte_at(x, 0) == b0
            &&& byte_at(x, 1) == b1
            &&& byte_at(x, 2) == b2
            &&& byte_at(x, 3) == b3
        }),
{
    assert(((b0 as u64 + 0x100 * (b1 as u64) + 0x1_0000 * (b2 as u64) + 0x100_0000 * (b3 as u64)) % 256) == b0) by (bit_vector);
    assert((((b0 as u64 + 0x100 * (b1 as u64) + 0x1_0000 * (b2 as u64) + 0x100_0000 * (b3 as u64)) / 0x100) % 256) == b1) by (bit_vector);
    assert((((b0 as u64 + 0x100 * (b1 as u64) + 0x1_0000 * (b2 as u64) + 0x100_0000 * (b3 as u64)) / 0x1_0000) % 256) == b2) by (bit_vector);
    assert((((b0 as u64 + 0x100 * (b1 as u64) + 0x1_0000 * (b2 as u64) + 0x100_0000 * (b3 as u64)) / 0x100_0000) % 256) == b3) by (bit_vector);
}

proof fn lemma_bytes_of_value8_parts(b0: u8, b1: u8, b2: u8, b3: u8, b4: u8, b5: u8, b6: u8, b7: u8)
    ensures
        ({
            let x = b0 + 0x100 * b1 + 0x1_0000 * b2 + 0x100_0000 * b3 + 0x1_0000_0000 * b4
                + 0x100_0000_0000 * b5 + 0x1_0000_0000_0000 * b6 + 0x100_0000_0000_0000 * b7;
            &&& byte_at(x, 0) == b0
            &&& byte_at(x, 1) == b1
            &&& byte_at(x, 2) == b2
            &&& byte_at(x, 3) == b3
            &&& byte_at(x, 4) == b4
            &&& byte_at(x, 5) == b5
            &&& byte_at(x, 6) == b6
            &&& byte_at(x, 7) == b7
        }),
{
    assert((((b0 as u64) + 0x100 * (b1 as u64) + 0x10000 * (b2 as u64) + 0x1000000 * (b3 as u64) + 0x100000000 * (b4 as u64) + 0x10000000000 * (b5 as u64) + 0x1000000000000 * (b6 as u64) + 0x100000000000000 * (b7 as u64)) / 0x1) % 256 == b0) by (bit_vector);
    assert((((b0 as u64) + 0x100 * (b1 as u64) + 0x10000 * (b2 as u64) + 0x1000000 * (b3 as u64) + 0x100000000 * (b4 as u64) + 0x10000000000 * (b5 as u64) + 0x1000000000000 * (b6 as u64) + 0x100000000000000 * (b7 as u64)) / 0x100) % 256 == b1) by (bit_vector);
    assert((((b0 as u64) + 0x100 * (b1 as u64) + 0x10000 * (b2 as u64) + 0x1000000 * (b3 as u64) + 0x100000000 * (b4 as u64) + 0x10000000000 * (b5 as u64) + 0x1000000000000 * (b6 as u64) + 0x100000000000000 * (b7 as u64)) / 0x10000) % 256 == b2) by (bit_vector);
    assert((((b0 as u64) + 0x100 * (b1 as u64) + 0x10000 * (b2 as u64) + 0x1000000 * (b3 as u64) + 0x100000000 * (b4 as u64) + 0x10000000000 * (b5 as u64) + 0x1000000000000 * (b6 as u64) + 0x100000000000000 * (b7 as u64)) / 0x1000000) % 256 == b3) by (bit_vector);
    assert((((b0 as u64) + 0x100 * (b1 as u64) + 0x10000 * (b2 as u64) + 0x1000000 * (b3 as u64) + 0x100000000 * (b4 as u64) + 0x10000000000 * (b5 as u64) + 0x1000000000000 * (b6 as u64) + 0x100000000000000 * (b7 as u64)) / 0x100000000) % 256 == b4) by (bit_vector);
    assert((((b0 as u64) + 0x100 * (b1 as u64) + 0x10000 * (b2 as u64) + 0x1000000 * (b3 as u64) + 0x100000000 * (b4 as u64) + 0x10000000000 * (b5 as u64) + 0x1000000000000 * (b6 as u64) + 0x100000000000000 * (b7 as u64)) / 0x10000000000) % 256 == b5) by (bit_vector);
    assert((((b0 as u64) + 0x100 * (b1 as u64) + 0x10000 * (b2 as u64) + 0x1000000 * (b3 as u64) + 0x100000000 * (b4 as u64) + 0x10000000000 * (b5 as u64) + 0x1000000000000 * (b6 as u64) + 0x100000000000000 * (b7 as u64)) / 0x1000000000000) % 256 == b6) by (bit_vector);
    assert((((b0 as u64) + 0x100 * (b1 as u64) + 0x10000 * (b2 as u64) + 0x1000000 * (b3 as u64) + 0x100000000 * (b4 as u64) + 0x10000000000 * (b5 as u64) + 0x1000000000000 * (b6 as u64) + 0x100000000000000 * (b7 as u64)) / 0x100000000000000) % 256 == b7) by (bit_vector);
}

proof fn lemma_bytes_of_value8(b: Seq<u8>, s: int)
    requires
        0 <= s,
        s + 8 <= b.len(),
    ensures
        forall|j: int| 0 <= j < 8 ==> #[trigger] byte_at(le_value(b, s, 8), j) == b[s + j],
        0 <= le_value(b, s, 8) < 0x1_0000_0000_0000_0000,
{
    lemma_bytes_of_value8_parts(b[s], b[s + 1], b[s + 2], b[s + 3], b[s + 4], b[s + 5], b[s + 6], b[s + 7]);
}

proof fn lemma_encode_decode(b: Seq<u8>, w: int)
    requires
        w == 2 || w == 4 || w == 8,
        b.len() as int % w == 0,
    ensures
        le_bytes(le_values(b, w), w) =~= b,
        forall|i: int| 0 <= i < le_values(b, w).len() ==> 0 <= #[trigger] le_values(b, w)[i] < pow256(w - 1) * 256,
{
    reveal(le_bytes);
    reveal(le_values);
    let v = le_values(b, w);
    assert(v.len() * w == b.len()) by (nonlinear_arith)
        requires v.len() == b.len() as int / w, b.len() as int % w == 0, w > 0;
    assert forall|p: int| 0 <= p < b.len() implies #[trigger] le_bytes(v, w)[p] == b[p] by {
        let i = p / w;
        let j = p % w;
        assert(0 <= i < v.len() && 0 <= j < w && p == i * w + j && i * w + w <= b.len()) by (nonlinear_arith)
            requires 0 <= p < b.len(), b.len() == v.len() * w, w > 0, i == p / w, j == p % w;
        if w == 2 {
            lemma_bytes_of_value2(b[i * w], b[i * w + 1]);
        } else if w == 4 {
            lemma_bytes_of_value4(b[i * w], b[i * w + 1], b[i * w + 2], b[i * w + 3]);
        } else {
            lemma_bytes_of_value8(b, i * w);
        }
    }
    assert forall|i: int| 0 <= i < v.len() implies 0 <= #[trigger] v[i] < pow256(w - 1) * 256 by {
        assert(i * w + w <= b.len()) by (nonlinear_arith)
            requires 0 <= i < v.len(), b.len() == v.len() * w, w > 0;
        if w == 8 {
            lemma_bytes_of_value8(b, i * w);
        }
    }
}

proof fn lemma_image_u32(b: Seq<u8>)
    requires
        b.len() as int % 4 == 0,
    ensures
        le_bytes(ints_u32(le_values(b, 4).map_values(|x: int| x as u32)), 4) == b,
{
    let v = le_values(b, 4);
    let m = v.map_values(|x: int| x as u32);
    assert(ints_u32(m) == v) by {
        lemma_encode_decode(b, 4);
        assert forall|i: int| 0 <= i < v.len() implies #[trigger] ints_u32(m)[i] == v[i] by {
            assert(0 <= v[i] < pow256(3) * 256);
        }
        assert(ints_u32(m) =~= v);
    }
    assert(le_bytes(v, 4) == b) by {
        lemma_encode_decode(b, 4);
    }
}

proof fn lemma_image_u16(b: Seq<u8>)
    requires
        b.len() as int % 2 == 0,
    ensures
        le_bytes(ints_u16(le_values(b, 2).map_values(|x: int| x as u16)), 2) == b,
{
    let v = le_values(b, 2);
    let m = v.map_values(|x: int| x as u16);
    assert(ints_u16(m) == v) by {
        lemma_encode_decode(b, 2);
        assert forall|i: int| 0 <= i < v.len() implies #[trigger] ints_u16(m)[i] == v[i] by {
            assert(0 <= v[i] < pow256(1) * 256);
        }
        assert(ints_u16(m) =~= v);
    }
    assert(le_bytes(v, 2) == b) by {
        lemma_encode_decode(b, 2);
    }
}

proof fn lemma_image_u64(b: Seq<u8>)
    requires
        b.len() as int % 8 == 0,
    ensures
        le_bytes(ints_u64(le_values(b, 8).map_values(|x: int| x as u64)), 8) == b,
{
    let v = le_values(b, 8);
    let m = v.map_values(|x: int| x as u64);
    assert(ints_u64(m) == v) by {
        lemma_encode_decode(b, 8);
        assert forall|i: int| 0 <= i < v.len() implies #[trigger] ints_u64(m)[i] == v[i] by {
            assert(0 <= v[i] < pow256(7) * 256);
        }
        assert(ints_u64(m) =~= v);
    }
    assert(le_bytes(v, 8) == b) by {
        lemma_encode_decode(b, 8);
    }
}

proof fn lemma_image_i64(b: Seq<u8>)
    requires
        b.len() as int % 8 == 0,
    ensures
        le_bytes(ints_i64(le_values(b, 8).map_values(|x: int| signed64(x))), 8) == b,
{
    let v = le_values(b, 8);
    let m = v.map_values(|x: int| signed64(x));
    assert(ints_i64(m) == v) by {
        lemma_encode_decode(b, 8);
        assert forall|i: int| 0 <= i < v.len() implies #[trigger] ints_i64(m)[i] == v[i] by {
            assert(0 <= v[i] < pow256(7) * 256);
        }
        assert(ints_i64(m) =~= v);
    }
    assert(le_bytes(v, 8) == b) by {
        lemma_encode_decode(b, 8);
    }
}

/// Writing out the storage read from a byte image gives the image back,
/// when the image holds a whole number of elements.
pub proof fn law_image_round_trip(b: Seq<u8>, dtype: DType)
    requires
        b.len() % dtype.spec_size() == 0,
    ensures
        storage_bytes(storage_from_bytes(b, dtype)) == b,
{
    match dtype {
        DType::U8 => {},
        DType::U32 => lemma_image_u32(b),
        DType::F32 => lemma_image_u32(b),
        DType::BF16 => lemma_image_u16(b),
        DType::F16 => lemma_image_u16(b),
        DType::F64 => lemma_image_u64(b),
        DType::I64 => lemma_image_i64(b),
    }
}

} // verus!
