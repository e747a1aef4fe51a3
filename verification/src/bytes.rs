//! Little-endian fields at fixed offsets of an account's raw bytes.
use vstd::prelude::*;

use crate::key::Key;

verus! {

/// The `u16` stored little-endian at `off`.
pub open spec fn u16_at(d: Seq<u8>, off: int) -> u16 {
    vstd::bytes::spec_u16_from_le_bytes(d.subrange(off, off + 2))
}

/// The `i16` stored little-endian (two's complement) at `off`.
pub open spec fn i16_at(d: Seq<u8>, off: int) -> i16 {
    u16_at(d, off) as i16
}

/// The `u32` stored little-endian at `off`.
pub open spec fn u32_at(d: Seq<u8>, off: int) -> u32 {
    vstd::bytes::spec_u32_from_le_bytes(d.subrange(off, off + 4))
}

/// The `u64` stored little-endian at `off`.
pub open spec fn u64_at(d: Seq<u8>, off: int) -> u64 {
    vstd::bytes::spec_u64_from_le_bytes(d.subrange(off, off + 8))
}

/// The `i64` stored little-endian (two's complement) at `off`.
pub open spec fn i64_at(d: Seq<u8>, off: int) -> i64 {
    u64_at(d, off) as i64
}

/// `d` with the bytes from `off` on replaced by `b`.
pub open spec fn put_bytes(d: Seq<u8>, off: int, b: Seq<u8>) -> Seq<u8> {
    d.subrange(0, off) + b + d.subrange(off + b.len(), d.len() as int)
}

/// `d` with the byte at `off` replaced by `v`.
pub open spec fn put_u8(d: Seq<u8>, off: int, v: u8) -> Seq<u8> {
    d.update(off, v)
}

/// `d` with the `u16` at `off` replaced by `v`.
pub open spec fn put_u16(d: Seq<u8>, off: int, v: u16) -> Seq<u8> {
    put_bytes(d, off, vstd::bytes::spec_u16_to_le_bytes(v))
}

/// `d` with the `u32` at `off` replaced by `v`.
pub open spec fn put_u32(d: Seq<u8>, off: int, v: u32) -> Seq<u8> {
    put_bytes(d, off, vstd::bytes::spec_u32_to_le_bytes(v))
}

/// `d` with the `u64` at `off` replaced by `v`.
pub open spec fn put_u64(d: Seq<u8>, off: int, v: u64) -> Seq<u8> {
    put_bytes(d, off, vstd::bytes::spec_u64_to_le_bytes(v))
}

/// `d` with the `i64` at `off` replaced by `v`.
pub open spec fn put_i64(d: Seq<u8>, off: int, v: i64) -> Seq<u8> {
    put_u64(d, off, v as u64)
}

/// Reads the byte at `offset`.
pub fn read_u8_at(data: &[u8], offset: usize) -> (v: u8)
    requires
        offset < data.len(),
    ensures
        v == data@[offset as int],
{
    data[offset]
}

/// Reads the `u16` at `offset`.
pub fn read_u16_at(data: &[u8], offset: usize) -> (v: u16)
    requires
        offset + 2 <= data.len(),
    ensures
        v == u16_at(data@, offset as int),
{
    vstd::bytes::u16_from_le_bytes(vstd::slice::slice_subrange(data, offset, offset + 2))
}

/// Reads the `i16` at `offset`.
pub fn read_i16_at(data: &[u8], offset: usize) -> (v: i16)
    requires
        offset + 2 <= data.len(),
    ensures
        v == i16_at(data@, offset as int),
{
    read_u16_at(data, offset) as i16
}

/// Reads the `u32` at `offset`.
pub fn read_u32_at(data: &[u8], offset: usize) -> (v: u32)
    requires
        offset + 4 <= data.len(),
    ensures
        v == u32_at(data@, offset as int),
{
    vstd::bytes::u32_from_le_bytes(vstd::slice::slice_subrange(data, offset, offset + 4))
}

/// Reads the `u64` at `offset`.
pub fn read_u64_at(data: &[u8], offset: usize) -> (v: u64)
    requires
        offset + 8 <= data.len(),
    ensures
        v == u64_at(data@, offset as int),
{
    vstd::bytes::u64_from_le_bytes(vstd::slice::slice_subrange(data, offset, offset + 8))
}

/// Reads the `i64` at `offset`.
pub fn read_i64_at(data: &[u8], offset: usize) -> (v: i64)
    requires
        offset + 8 <= data.len(),
    ensures
        v == i64_at(data@, offset as int),
{
    read_u64_at(data, offset) as i64
}

/// Reads the 32-byte key at `offset`.
pub fn read_key_at(data: &[u8], offset: usize) -> (k: Key)
    requires
        offset + 32 <= data.len(),
    ensures
        k@ == data@.subrange(offset as int, offset + 32),
{
    let mut bytes = [0u8; 32];
    let mut i: usize = 0;
    while i < 32
        invariant
            i <= 32,
            offset + 32 <= data.len(),
            forall|j: int| 0 <= j < i ==> bytes@[j] == data@[offset + j],
        decreases 32 - i,
    {
        bytes[i] = data[offset + i];
        i = i + 1;
    }
    let k = Key { bytes };
    assert(k@ =~= data@.subrange(offset as int, offset + 32));
    k
}

/// Overwrites the bytes from `offset` on with `b`.
fn write_bytes_at(data: &mut Vec<u8>, offset: usize, b: &Vec<u8>)
    requires
        offset + b@.len() <= old(data)@.len(),
    ensures
        final(data)@ == put_bytes(old(data)@, offset as int, b@),
        final(data)@.len() == old(data)@.len(),
{
    let ghost d0 = data@;
    let mut j: usize = 0;
    while j < b.len()
        invariant
            j <= b@.len(),
            offset + b@.len() <= d0.len(),
            data.len() == d0.len(),
            data@ == d0.subrange(0, offset as int) + b@.subrange(0, j as int) + d0.subrange(
                offset + j,
                d0.len() as int,
            ),
        decreases b@.len() - j,
    {
        data.set(offset + j, b[j]);
        j = j + 1;
        assert(data@ =~= d0.subrange(0, offset as int) + b@.subrange(0, j as int) + d0.subrange(
            offset + j,
            d0.len() as int,
        ));
    }
    assert(b@.subrange(0, b@.len() as int) =~= b@);
}

/// Writes the byte `value` at `offset`.
pub fn write_u8_at(data: &mut Vec<u8>, offset: usize, value: u8)
    requires
        offset < old(data)@.len(),
    ensures
        final(data)@ == put_u8(old(data)@, offset as int, value),
        final(data)@.len() == old(data)@.len(),
{
    data.set(offset, value);
}

/// Writes the `u16` `value` at `offset`.
pub fn write_u16_at(data: &mut Vec<u8>, offset: usize, value: u16)
    requires
        offset + 2 <= old(data)@.len(),
    ensures
        final(data)@ == put_u16(old(data)@, offset as int, value),
        final(data)@.len() == old(data)@.len(),
{
    let b = vstd::bytes::u16_to_le_bytes(value);
    proof {
        vstd::bytes::lemma_auto_spec_u16_to_from_le_bytes();
    }
    write_bytes_at(data, offset, &b);
}

/// Writes the `u32` `value` at `offset`.
pub fn write_u32_at(data: &mut Vec<u8>, offset: usize, value: u32)
    requires
        offset + 4 <= old(data)@.len(),
    ensures
        final(data)@ == put_u32(old(data)@, offset as int, value),
        final(data)@.len() == old(data)@.len(),
{
    let b = vstd::bytes::u32_to_le_bytes(value);
    proof {
        vstd::bytes::lemma_auto_spec_u32_to_from_le_bytes();
    }
    write_bytes_at(data, offset, &b);
}

/// Writes the `u64` `value` at `offset`.
pub fn write_u64_at(data: &mut Vec<u8>, offset: usize, value: u64)
    requires
        offset + 8 <= old(data)@.len(),
    ensures
        final(data)@ == put_u64(old(data)@, offset as int, value),
        final(data)@.len() == old(data)@.len(),
{
    let b = vstd::bytes::u64_to_le_bytes(value);
    proof {
        vstd::bytes::lemma_auto_spec_u64_to_from_le_bytes();
    }
    write_bytes_at(data, offset, &b);
}

/// Writes the `i64` `value` at `offset`.
pub fn write_i64_at(data: &mut Vec<u8>, offset: usize, value: i64)
    requires
        offset + 8 <= old(data)@.len(),
    ensures
        final(data)@ == put_i64(old(data)@, offset as int, value),
        final(data)@.len() == old(data)@.len(),
{
    write_u64_at(data, offset, value as u64);
}

/// Reading back a `u64` gives the value written.
pub proof fn lemma_read_put_u64(d: Seq<u8>, off: int, v: u64)
    requires
        0 <= off && off + 8 <= d.len(),
    ensures
        u64_at(put_u64(d, off, v), off) == v,
{
    vstd::bytes::lemma_auto_spec_u64_to_from_le_bytes();
    assert(put_u64(d, off, v).subrange(off, off + 8) =~= vstd::bytes::spec_u64_to_le_bytes(v));
}

/// Writing bytes at `off` leaves every range that does not overlap them as it was.
pub proof fn lemma_put_bytes_frame(d: Seq<u8>, off: int, b: Seq<u8>, o2: int, n: int)
    requires
        0 <= off && off + b.len() <= d.len(),
        0 <= o2 && 0 <= n && o2 + n <= d.len(),
        o2 + n <= off || off + b.len() <= o2,
    ensures
        put_bytes(d, off, b).len() == d.len(),
        put_bytes(d, off, b).subrange(o2, o2 + n) =~= d.subrange(o2, o2 + n),
{
    let r = put_bytes(d, off, b);
    assert forall|i: int| 0 <= i < n implies #[trigger] r.subrange(o2, o2 + n)[i] == d.subrange(o2, o2 + n)[i] by {
        if o2 + i < off {
            assert(r[o2 + i] == d[o2 + i]);
        } else {
            assert(r[o2 + i] == d.subrange(off + b.len(), d.len() as int)[o2 + i - off - b.len()]);
        }
    }
}

/// Writing a `u64` at `off` leaves the `u64` at any offset eight or more bytes away as it was.
pub proof fn lemma_put_u64_frame(d: Seq<u8>, off: int, v: u64, o2: int, n: int)
    requires
        0 <= off && off + 8 <= d.len(),
        0 <= o2 && 0 <= n && o2 + n <= d.len(),
        o2 + n <= off || off + 8 <= o2,
    ensures
        put_u64(d, off, v).len() == d.len(),
        put_u64(d, off, v).subrange(o2, o2 + n) =~= d.subrange(o2, o2 + n),
{
    vstd::bytes::lemma_auto_spec_u64_to_from_le_bytes();
    lemma_put_bytes_frame(d, off, vstd::bytes::spec_u64_to_le_bytes(v), o2, n);
}

/// Reading back an `i64` gives the value written.
pub proof fn lemma_read_put_i64(d: Seq<u8>, off: int, v: i64)
    requires
        0 <= off && off + 8 <= d.len(),
    ensures
        i64_at(put_i64(d, off, v), off) == v,
{
    lemma_read_put_u64(d, off, v as u64);
    assert((v as u64) as i64 == v) by (bit_vector);
}

/// Writing bytes keeps the length of the data.
pub broadcast proof fn lemma_put_bytes_len(d: Seq<u8>, off: int, b: Seq<u8>)
    requires
        0 <= off && off + b.len() <= d.len(),
    ensures
        #[trigger] put_bytes(d, off, b).len() == d.len(),
{
}

/// Reading back the range just written gives the bytes written.
pub broadcast proof fn lemma_put_bytes_same(d: Seq<u8>, off: int, b: Seq<u8>, end: int)
    requires
        0 <= off && off + b.len() <= d.len(),
        end == off + b.len(),
    ensures
        #[trigger] put_bytes(d, off, b).subrange(off, end) == b,
{
    assert(put_bytes(d, off, b).subrange(off, end) =~= b);
}

/// Reading a range apart from the one written gives what was there before.
pub broadcast proof fn lemma_put_bytes_other(d: Seq<u8>, off: int, b: Seq<u8>, o2: int, e2: int)
    requires
        0 <= off && off + b.len() <= d.len(),
        0 <= o2 <= e2 <= d.len(),
        e2 <= off || off + b.len() <= o2,
    ensures
        #[trigger] put_bytes(d, off, b).subrange(o2, e2) == d.subrange(o2, e2),
{
    lemma_put_bytes_frame(d, off, b, o2, e2 - o2);
}

/// Reading a byte apart from the range written gives what was there before.
pub broadcast proof fn lemma_put_bytes_byte(d: Seq<u8>, off: int, b: Seq<u8>, i: int)
    requires
        0 <= off && off + b.len() <= d.len(),
        0 <= i < d.len(),
        i < off || off + b.len() <= i,
    ensures
        #[trigger] put_bytes(d, off, b)[i] == d[i],
{
    if i < off {
        assert(put_bytes(d, off, b)[i] == d.subrange(0, off)[i]);
    } else {
        assert(put_bytes(d, off, b)[i] == d.subrange(off + b.len(), d.len() as int)[i - off - b.len()]);
    }
}

/// Reading a range that does not hold the byte replaced gives what was there before.
pub broadcast proof fn lemma_update_other(d: Seq<u8>, off: int, v: u8, o2: int, e2: int)
    requires
        0 <= off < d.len(),
        0 <= o2 <= e2 <= d.len(),
        off < o2 || e2 <= off,
    ensures
        #[trigger] d.update(off, v).subrange(o2, e2) == d.subrange(o2, e2),
{
    assert(d.update(off, v).subrange(o2, e2) =~= d.subrange(o2, e2));
}

/// The facts that let field reads see through a sequence of writes.
pub broadcast group group_put_reads {
    lemma_put_bytes_len,
    lemma_put_bytes_same,
    lemma_put_bytes_other,
    lemma_put_bytes_byte,
    lemma_update_other,
}

} // verus!
