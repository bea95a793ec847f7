//! Bounds-checked access to the sandbox's linear memory. The bridge reads
//! and writes sandbox memory through these functions only.
use vstd::prelude::*;

verus! {

/// Whether `count` items of `item_size` bytes at `offset` lie inside a
/// memory of `len` bytes. Items of size zero are never accepted.
pub open spec fn in_bounds(len: int, offset: u32, item_size: int, count: int) -> bool {
    &&& item_size > 0
    &&& count >= 0
    &&& offset + item_size * count <= len
}

/// The `u32` stored little-endian in four bytes.
pub open spec fn le_u32(b0: u8, b1: u8, b2: u8, b3: u8) -> u32 {
    (b0 + 256 * b1 + 65536 * b2 + 16777216 * b3) as u32
}

/// The `u32` stored little-endian at `offset` of `mem`.
pub open spec fn u32_at(mem: Seq<u8>, offset: int) -> u32 {
    le_u32(mem[offset], mem[offset + 1], mem[offset + 2], mem[offset + 3])
}

/// `mem` with the four bytes at `offset` holding `v` little-endian.
pub open spec fn with_u32_at(mem: Seq<u8>, offset: int, v: u32) -> Seq<u8> {
    mem.update(offset, (v % 256) as u8).update(offset + 1, ((v / 256) % 256) as u8).update(
        offset + 2,
        ((v / 65536) % 256) as u8,
    ).update(offset + 3, (v / 16777216) as u8)
}

/// Checks that `count` items of `item_size` bytes at `offset` lie inside
/// `mem`.
pub fn check(mem: &[u8], offset: u32, item_size: u32, count: u32) -> (r: bool)
    ensures
        r == in_bounds(mem@.len() as int, offset, item_size as int, count as int),
{
    if item_size == 0 {
        return false;
    }
    proof {
        assert((item_size as int) * (count as int) <= 0xffff_ffff * 0xffff_ffff) by (nonlinear_arith)
            requires
                item_size <= 0xffff_ffffu32,
                count <= 0xffff_ffffu32,
        ;
    }
    let bytes: u64 = (item_size as u64) * (count as u64);
    (offset as u64) + bytes <= mem.len() as u64
}

/// Checks `count` items of `item_size` bytes at `offset`, where the count
/// comes as a signed number from sandboxed code: a negative count is never
/// in bounds.
pub fn check_signed(mem: &[u8], offset: u32, item_size: u32, count: i64) -> (r: bool)
    ensures
        r == in_bounds(mem@.len() as int, offset, item_size as int, count as int),
{
    if item_size == 0 || count < 0 {
        return false;
    }
    proof {
        assert((item_size as int) * (count as int) <= 0xffff_ffff * 0x7fff_ffff_ffff_ffff) by (nonlinear_arith)
            requires
                item_size <= 0xffff_ffffu32,
                0 <= count <= 0x7fff_ffff_ffff_ffffi64,
        ;
    }
    let bytes: u128 = (item_size as u128) * (count as u128);
    (offset as u128) + bytes <= mem.len() as u128
}

/// Reads the `i32` stored little-endian at `offset`, if the four bytes lie
/// inside `mem`.
pub fn read_i32(mem: &[u8], offset: u32) -> (r: Option<i32>)
    ensures
        match r {
            Some(v) => in_bounds(mem@.len() as int, offset, 4, 1) && v == u32_at(
                mem@,
                offset as int,
            ) as i32,
            None => !in_bounds(mem@.len() as int, offset, 4, 1),
        },
{
    if !check(mem, offset, 4, 1) {
        return None;
    }
    let i = offset as usize;
    let v: u32 = (mem[i] as u32) + 256 * (mem[i + 1] as u32) + 65536 * (mem[i + 2] as u32)
        + 16777216 * (mem[i + 3] as u32);
    Some(v as i32)
}

proof fn lemma_le_round_trip(v: u32)
    ensures
        le_u32(
            (v % 256) as u8,
            ((v / 256) % 256) as u8,
            ((v / 65536) % 256) as u8,
            (v / 16777216) as u8,
        ) == v,
{
    let x = v as int;
    assert(x == x % 256 + 256 * ((x / 256) % 256) + 65536 * ((x / 65536) % 256) + 16777216 * (x
        / 16777216)) by (nonlinear_arith)
        requires
            0 <= x < 0x1_0000_0000,
    ;
    assert(x / 16777216 < 256) by (nonlinear_arith)
        requires
            0 <= x < 0x1_0000_0000,
    ;
}

/// Writes `v` little-endian at `offset`, if the four bytes lie inside
/// `mem`; a value written this way reads back unchanged.
pub fn write_i32(mem: &mut [u8], offset: u32, v: i32) -> (r: bool)
    ensures
        r == in_bounds(old(mem)@.len() as int, offset, 4, 1),
        r ==> final(mem)@ == with_u32_at(old(mem)@, offset as int, v as u32),
        r ==> u32_at(final(mem)@, offset as int) as i32 == v,
        !r ==> final(mem)@ == old(mem)@,
{
    if !check(mem, offset, 4, 1) {
        return false;
    }
    let i = offset as usize;
    let u = v as u32;
    proof {
        assert(u / 16777216 < 256) by (nonlinear_arith)
            requires
                u <= 0xffff_ffffu32,
        ;
    }
    mem[i] = (u % 256) as u8;
    mem[i + 1] = ((u / 256) % 256) as u8;
    mem[i + 2] = ((u / 65536) % 256) as u8;
    mem[i + 3] = (u / 16777216) as u8;
    proof {
        lemma_le_round_trip(u);
        assert(v as u32 as i32 == v) by (bit_vector);
    }
    true
}

/// Copies `bytes` to `offset`, if they lie inside `mem`.
pub fn write_bytes(mem: &mut [u8], offset: u32, bytes: &[u8]) -> (r: bool)
    ensures
        r == (bytes@.len() <= u32::MAX && in_bounds(
            old(mem)@.len() as int,
            offset,
            1,
            bytes@.len() as int,
        )),
        r ==> final(mem)@ == old(mem)@.subrange(0, offset as int) + bytes@ + old(mem)@.subrange(
            offset + bytes@.len(),
            old(mem)@.len() as int,
        ),
        !r ==> final(mem)@ == old(mem)@,
{
    if bytes.len() > 0xffff_ffffusize || !check(mem, offset, 1, bytes.len() as u32) {
        return false;
    }
    let ghost before = mem@;
    let mlen = mem.len();
    let start = offset as usize;
    let mut i: usize = 0;
    while i < bytes.len()
        invariant
            i <= bytes@.len(),
            start + bytes@.len() <= mem@.len(),
            mem@.len() == mlen,
            start == offset,
            mem@.len() == before.len(),
            forall|k: int| 0 <= k < start ==> mem@[k] == before[k],
            forall|k: int| start <= k < start + i ==> mem@[k] == bytes@[k - start],
            forall|k: int| start + bytes@.len() <= k < mem@.len() ==> mem@[k] == before[k],
            forall|k: int| start + i <= k < start + bytes@.len() ==> mem@[k] == before[k],
        decreases bytes@.len() - i,
    {
        mem[start + i] = bytes[i];
        i = i + 1;
    }
    assert(mem@ =~= before.subrange(0, offset as int) + bytes@ + before.subrange(
        offset + bytes@.len(),
        before.len() as int,
    ));
    true
}

} // verus!
