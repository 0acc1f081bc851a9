//! Bitfield primitives and the packed descriptor words of the HIPC wire
//! format.
//!
//! Every descriptor is a little bundle of 32-bit words; a constructor packs
//! the logical fields into exact bit positions (truncating over-range fields
//! to their encoded widths) and accessors recover them. Serialization encodes
//! each word little-endian, in order.

use vstd::prelude::*;

use crate::IntoBytes;
use crate::seq_bytes;

verus! {

/// The mask with the bits of the half-open range `[lsb, msb)` set.
pub open spec fn spec_bitmask(lsb: u64, msb: u64) -> u64
    decreases msb,
{
    if msb <= lsb {
        0
    } else {
        spec_bitmask(lsb, (msb - 1) as u64) | (1u64 << ((msb - 1) as u64))
    }
}

/// The bits `[lsb, msb)` of `value`, right-aligned.
pub open spec fn spec_extract(value: u64, lsb: u64, msb: u64) -> u64
    recommends
        lsb < 64,
        msb <= 64,
{
    (value & spec_bitmask(lsb, msb)) >> lsb
}

/// `dst` with its bits `[dst_lsb, dst_lsb + len)` replaced by the bits
/// `[src_lsb, src_lsb + len)` of `src`; all other bits of `dst` are kept.
pub open spec fn spec_set(src: u64, dst: u64, src_lsb: u64, dst_lsb: u64, len: u64) -> u64
    recommends
        src_lsb < 64,
        dst_lsb < 64,
        src_lsb + len <= 64,
        dst_lsb + len <= 64,
{
    let value = spec_extract(src, src_lsb, (src_lsb + len) as u64);
    (dst & !spec_bitmask(dst_lsb, (dst_lsb + len) as u64)) | (value << dst_lsb)
}

/// Bit `i` of the mask is set exactly when `i` lies in `[lsb, msb)`.
pub proof fn lemma_bitmask_bits(lsb: u64, msb: u64, i: u64)
    requires
        msb <= 64,
        i < 64,
    ensures
        ((spec_bitmask(lsb, msb) >> i) & 1 == 1) <==> (lsb <= i < msb),
    decreases msb,
{
    if msb <= lsb {
        assert((0u64 >> i) & 1 == 0) by (bit_vector);
    } else {
        lemma_bitmask_bits(lsb, (msb - 1) as u64, i);
        let m = spec_bitmask(lsb, (msb - 1) as u64);
        let k: u64 = (msb - 1) as u64;
        assert((((m | (1u64 << k)) >> i) & 1 == 1) <==> ((m >> i) & 1 == 1 || i == k))
            by (bit_vector)
            requires
                k < 64,
                i < 64,
        ;
    }
}

/// Produces a mask with the bits of the half-open range `[lsb, msb)` set
/// to 1 and every other bit clear.
pub fn bitmask(lsb: u64, msb: u64) -> (r: u64)
    requires
        msb <= 64,
    ensures
        r == spec_bitmask(lsb, msb),
        forall|i: u64| i < 64 ==> ((#[trigger] (r >> i)) & 1 == 1 <==> lsb <= i < msb),
{
    proof {
        assert forall|i: u64| i < 64 implies ((#[trigger] (spec_bitmask(lsb, msb) >> i)) & 1 == 1
            <==> lsb <= i < msb) by {
            lemma_bitmask_bits(lsb, msb, i);
        }
    }
    let mut mask: u64 = 0;
    let mut current: u64 = lsb;
    while current < msb
        invariant
            msb <= 64,
            lsb <= current,
            lsb < msb ==> current <= msb,
            lsb >= msb ==> current == lsb,
            mask == spec_bitmask(lsb, current),
        decreases msb - current,
    {
        mask = mask | (1u64 << current);
        current = current + 1;
    }
    mask
}

/// Returns the bits `[lsb, msb)` of `value`, right-aligned.
pub fn extract(value: u64, lsb: u64, msb: u64) -> (r: u64)
    requires
        lsb < 64,
        msb <= 64,
    ensures
        r == spec_extract(value, lsb, msb),
{
    (value & bitmask(lsb, msb)) >> lsb
}

/// Takes `len` bits from `src` starting at `src_lsb`, clears the bits at
/// `[dst_lsb, dst_lsb + len)` of `dst`, and writes the taken bits there; all
/// other bits of `dst` are preserved.
pub fn set(src: u64, dst: u64, src_lsb: u64, dst_lsb: u64, len: u64) -> (r: u64)
    requires
        src_lsb < 64,
        dst_lsb < 64,
        src_lsb + len <= 64,
        dst_lsb + len <= 64,
    ensures
        r == spec_set(src, dst, src_lsb, dst_lsb, len),
{
    let value: u64 = extract(src, src_lsb, src_lsb + len);
    let cleared: u64 = dst & !bitmask(dst_lsb, dst_lsb + len);
    cleared | (value << dst_lsb)
}

/// The little-endian byte encoding of a 32-bit word.
pub open spec fn spec_u32_le(w: u32) -> Seq<u8> {
    seq![
        (w & 0xff) as u8,
        ((w >> 8) & 0xff) as u8,
        ((w >> 16) & 0xff) as u8,
        ((w >> 24) & 0xff) as u8,
    ]
}

/// The little-endian byte encoding of a 64-bit word.
pub open spec fn spec_u64_le(w: u64) -> Seq<u8> {
    seq![
        (w & 0xff) as u8,
        ((w >> 8) & 0xff) as u8,
        ((w >> 16) & 0xff) as u8,
        ((w >> 24) & 0xff) as u8,
        ((w >> 32) & 0xff) as u8,
        ((w >> 40) & 0xff) as u8,
        ((w >> 48) & 0xff) as u8,
        ((w >> 56) & 0xff) as u8,
    ]
}

/// Endianness law: byte `i` of the little-endian encoding of a 32-bit word
/// `w` equals `(w >> (8 * i)) & 0xff`.
pub proof fn lemma_u32_le_byte(w: u32, i: int)
    requires
        0 <= i < 4,
    ensures
        spec_u32_le(w)[i] == ((w >> ((8 * i) as u32)) & 0xff) as u8,
{
    if i == 0 {
        assert((w >> 0u32) & 0xff == w & 0xff) by (bit_vector);
    }
}

/// Appends the little-endian bytes of `w` to `out`.
pub(crate) fn push_u32_le(out: &mut Vec<u8>, w: u32)
    ensures
        final(out)@ == old(out)@ + spec_u32_le(w),
{
    out.push((w & 0xff) as u8);
    out.push(((w >> 8) & 0xff) as u8);
    out.push(((w >> 16) & 0xff) as u8);
    out.push(((w >> 24) & 0xff) as u8);
    proof {
        assert(out@ =~= old(out)@ + spec_u32_le(w));
    }
}

/// Appends the little-endian bytes of `w` to `out`.
pub(crate) fn push_u64_le(out: &mut Vec<u8>, w: u64)
    ensures
        final(out)@ == old(out)@ + spec_u64_le(w),
{
    out.push((w & 0xff) as u8);
    out.push(((w >> 8) & 0xff) as u8);
    out.push(((w >> 16) & 0xff) as u8);
    out.push(((w >> 24) & 0xff) as u8);
    out.push(((w >> 32) & 0xff) as u8);
    out.push(((w >> 40) & 0xff) as u8);
    out.push(((w >> 48) & 0xff) as u8);
    out.push(((w >> 56) & 0xff) as u8);
    proof {
        assert(out@ =~= old(out)@ + spec_u64_le(w));
    }
}

impl IntoBytes for u32 {
    open spec fn byte_view(&self) -> Seq<u8> {
        spec_u32_le(*self)
    }

    fn into_bytes(self) -> (r: Vec<u8>) {
        let mut out: Vec<u8> = Vec::new();
        push_u32_le(&mut out, self);
        proof {
            assert(out@ =~= spec_u32_le(self));
        }
        out
    }
}

impl IntoBytes for u64 {
    open spec fn byte_view(&self) -> Seq<u8> {
        spec_u64_le(*self)
    }

    fn into_bytes(self) -> (r: Vec<u8>) {
        let mut out: Vec<u8> = Vec::new();
        push_u64_le(&mut out, self);
        proof {
            assert(out@ =~= spec_u64_le(self));
        }
        out
    }
}

/// A send-static ("in pointer") descriptor: two packed 32-bit words, 8 bytes
/// serialized.
///
/// Word 0 bits: `[0..6]` index, `[6..12]` address bits `36..42`, `[12..16]`
/// address bits `32..36`, `[16..32]` size. Word 1 bits: `[0..32]` address
/// bits `0..32`.
#[derive(Clone, Copy, Debug, PartialEq, Eq, Structural)]
pub struct StaticDescriptor {
    /// Packed word 0.
    pub w0: u32,
    /// Packed word 1.
    pub w1: u32,
}

/// The packed words of a static descriptor built from the given fields.
pub open spec fn spec_static_new(index: u64, size: u64, address: u64) -> StaticDescriptor {
    StaticDescriptor {
        w0: ((index & 0x3f) | (((address >> 36) & 0x3f) << 6) | (((address >> 32) & 0xf) << 12) | (
        (size & 0xffff) << 16)) as u32,
        w1: address as u32,
    }
}

impl StaticDescriptor {
    /// The 6-bit index field.
    pub open spec fn spec_index(self) -> u64 {
        (self.w0 & 0x3f) as u64
    }

    /// The 16-bit size field.
    pub open spec fn spec_size(self) -> u64 {
        ((self.w0 >> 16) & 0xffff) as u64
    }

    /// The 42-bit address field, reassembled from its three subranges.
    pub open spec fn spec_address(self) -> u64 {
        (self.w1 as u64) | ((((self.w0 >> 12) & 0xf) as u64) << 32) | ((((self.w0 >> 6) & 0x3f)
            as u64) << 36)
    }

    /// Returns the 6-bit index field.
    pub fn index(self) -> (r: usize)
        ensures
            r as u64 == self.spec_index(),
    {
        (self.w0 & 0x3f) as usize
    }

    /// Returns the 16-bit size field.
    pub fn size(self) -> (r: usize)
        ensures
            r as u64 == self.spec_size(),
    {
        ((self.w0 >> 16) & 0xffff) as usize
    }

    /// Returns the 42-bit address field.
    pub fn address(self) -> (r: u64)
        ensures
            r == self.spec_address(),
    {
        (self.w1 as u64) | ((((self.w0 >> 12) & 0xf) as u64) << 32) | ((((self.w0 >> 6) & 0x3f)
            as u64) << 36)
    }

    /// Packs the fields into their exact bit positions; fields wider than
    /// their encoding are silently truncated.
    pub fn new(index: usize, size: usize, address: u64) -> (r: StaticDescriptor)
        ensures
            r == spec_static_new(index as u64, size as u64, address),
    {
        let index64: u64 = index as u64;
        let size64: u64 = size as u64;
        let w0: u32 = ((index64 & 0x3f) | (((address >> 36) & 0x3f) << 6) | (((address >> 32)
            & 0xf) << 12) | ((size64 & 0xffff) << 16)) as u32;
        let w1: u32 = address as u32;
        StaticDescriptor { w0, w1 }
    }
}

impl Default for StaticDescriptor {
    /// An all-zero descriptor.
    fn default() -> (r: Self)
        ensures
            r.w0 == 0,
            r.w1 == 0,
    {
        StaticDescriptor { w0: 0, w1: 0 }
    }
}

impl IntoBytes for StaticDescriptor {
    open spec fn byte_view(&self) -> Seq<u8> {
        spec_u32_le(self.w0) + spec_u32_le(self.w1)
    }

    fn into_bytes(self) -> (r: Vec<u8>) {
        let mut out: Vec<u8> = Vec::new();
        push_u32_le(&mut out, self.w0);
        push_u32_le(&mut out, self.w1);
        proof {
            assert(out@ =~= self.byte_view());
        }
        out
    }
}

/// Round-trip law: reading the fields of a freshly packed static descriptor
/// returns the inputs reduced modulo their encoded widths (6-bit index,
/// 16-bit size, 42-bit address).
pub proof fn lemma_static_descriptor_round_trip(index: u64, size: u64, address: u64)
    ensures
        spec_static_new(index, size, address).spec_index() == index % 0x40,
        spec_static_new(index, size, address).spec_size() == size % 0x1_0000,
        spec_static_new(index, size, address).spec_address() == address % 0x400_0000_0000,
{
    let w0: u32 = ((index & 0x3f) | (((address >> 36) & 0x3f) << 6) | (((address >> 32) & 0xf)
        << 12) | ((size & 0xffff) << 16)) as u32;
    let w1: u32 = address as u32;
    assert({
        &&& (w0 & 0x3f) as u64 == index % 0x40
        &&& ((w0 >> 16) & 0xffff) as u64 == size % 0x1_0000
        &&& ((w1 as u64) | ((((w0 >> 12) & 0xf) as u64) << 32) | ((((w0 >> 6) & 0x3f) as u64)
            << 36)) == address % 0x400_0000_0000
    }) by (bit_vector)
        requires
            w0 == ((index & 0x3f) | (((address >> 36) & 0x3f) << 6) | (((address >> 32) & 0xf)
                << 12) | ((size & 0xffff) << 16)) as u32,
            w1 == address as u32,
    ;
}

/// A buffer descriptor (send, receive or exchange map alias): three packed
/// 32-bit words, 12 bytes serialized.
///
/// Word 0 bits: `[0..32]` size bits `0..32`. Word 1 bits: `[0..32]` address
/// bits `0..32`. Word 2 bits: `[0..2]` mode, `[2..24]` address bits `36..58`,
/// `[24..28]` size bits `32..36`, `[28..32]` address bits `32..36`.
#[derive(Clone, Copy, Debug, PartialEq, Eq, Structural)]
pub struct BufferDescriptor {
    /// Packed word 0.
    pub w0: u32,
    /// Packed word 1.
    pub w1: u32,
    /// Packed word 2.
    pub w2: u32,
}

/// The packed words of a buffer descriptor built from the given fields.
pub open spec fn spec_buffer_new(address: u64, size: u64, mode: u8) -> BufferDescriptor {
    BufferDescriptor {
        w0: size as u32,
        w1: address as u32,
        w2: (((mode as u64) & 0x3) | (((address >> 36) & 0x3f_ffff) << 2) | (((size >> 32) & 0xf)
            << 24) | (((address >> 32) & 0xf) << 28)) as u32,
    }
}

impl BufferDescriptor {
    /// The 36-bit size field, reassembled from its two subranges.
    pub open spec fn spec_size(self) -> u64 {
        (self.w0 as u64) | ((((self.w2 >> 24) & 0xf) as u64) << 32)
    }

    /// The 58-bit address field, reassembled from its three subranges.
    pub open spec fn spec_address(self) -> u64 {
        (self.w1 as u64) | ((((self.w2 >> 28) & 0xf) as u64) << 32) | ((((self.w2 >> 2) & 0x3f_ffff)
            as u64) << 36)
    }

    /// The 2-bit mode field.
    pub open spec fn spec_mode(self) -> u8 {
        (self.w2 & 0x3) as u8
    }

    /// Returns the 36-bit size field (truncated to `usize` width).
    pub fn size(self) -> (r: usize)
        ensures
            r == self.spec_size() as usize,
    {
        let s: u64 = (self.w0 as u64) | ((((self.w2 >> 24) & 0xf) as u64) << 32);
        s as usize
    }

    /// Returns the 58-bit address field.
    pub fn address(self) -> (r: u64)
        ensures
            r == self.spec_address(),
    {
        (self.w1 as u64) | ((((self.w2 >> 28) & 0xf) as u64) << 32) | ((((self.w2 >> 2) & 0x3f_ffff)
            as u64) << 36)
    }

    /// Returns the 2-bit mode field.
    pub fn mode(self) -> (r: u8)
        ensures
            r == self.spec_mode(),
    {
        (self.w2 & 0x3) as u8
    }

    /// Packs the fields into their exact bit positions; fields wider than
    /// their encoding are silently truncated.
    pub fn new(address: u64, size: usize, mode: u8) -> (r: BufferDescriptor)
        ensures
            r == spec_buffer_new(address, size as u64, mode),
    {
        let size64: u64 = size as u64;
        let w0: u32 = size64 as u32;
        let w1: u32 = address as u32;
        let w2: u32 = (((mode as u64) & 0x3) | (((address >> 36) & 0x3f_ffff) << 2) | (((size64
            >> 32) & 0xf) << 24) | (((address >> 32) & 0xf) << 28)) as u32;
        BufferDescriptor { w0, w1, w2 }
    }
}

impl Default for BufferDescriptor {
    /// An all-zero descriptor.
    fn default() -> (r: Self)
        ensures
            r.w0 == 0,
            r.w1 == 0,
            r.w2 == 0,
    {
        BufferDescriptor { w0: 0, w1: 0, w2: 0 }
    }
}

impl IntoBytes for BufferDescriptor {
    open spec fn byte_view(&self) -> Seq<u8> {
        spec_u32_le(self.w0) + spec_u32_le(self.w1) + spec_u32_le(self.w2)
    }

    fn into_bytes(self) -> (r: Vec<u8>) {
        let mut out: Vec<u8> = Vec::new();
        push_u32_le(&mut out, self.w0);
        push_u32_le(&mut out, self.w1);
        push_u32_le(&mut out, self.w2);
        proof {
            assert(out@ =~= self.byte_view());
        }
        out
    }
}

/// Round-trip law: reading the fields of a freshly packed buffer descriptor
/// returns the inputs reduced modulo their encoded widths (58-bit address,
/// 36-bit size, 2-bit mode).
pub proof fn lemma_buffer_descriptor_round_trip(address: u64, size: u64, mode: u8)
    ensures
        spec_buffer_new(address, size, mode).spec_address() == address % 0x400_0000_0000_0000,
        spec_buffer_new(address, size, mode).spec_size() == size % 0x10_0000_0000,
        spec_buffer_new(address, size, mode).spec_mode() == mode % 4,
{
    let w0: u32 = size as u32;
    let w1: u32 = address as u32;
    let w2: u32 = (((mode as u64) & 0x3) | (((address >> 36) & 0x3f_ffff) << 2) | (((size >> 32)
        & 0xf) << 24) | (((address >> 32) & 0xf) << 28)) as u32;
    assert({
        &&& ((w1 as u64) | ((((w2 >> 28) & 0xf) as u64) << 32) | ((((w2 >> 2) & 0x3f_ffff) as u64)
            << 36)) == address % 0x400_0000_0000_0000
        &&& ((w0 as u64) | ((((w2 >> 24) & 0xf) as u64) << 32)) == size % 0x10_0000_0000
        &&& (w2 & 0x3) as u8 == mode % 4
    }) by (bit_vector)
        requires
            w0 == size as u32,
            w1 == address as u32,
            w2 == (((mode as u64) & 0x3) | (((address >> 36) & 0x3f_ffff) << 2) | (((size >> 32)
                & 0xf) << 24) | (((address >> 32) & 0xf) << 28)) as u32,
    ;
}

/// A receive-list entry ("out pointer"): two packed 32-bit words, 8 bytes
/// serialized.
///
/// Word 0 bits: `[0..32]` address bits `0..32`. Word 1 bits: `[0..16]`
/// address bits `32..48`, `[16..32]` size.
#[derive(Clone, Copy, Debug, PartialEq, Eq, Structural)]
pub struct ReceiveListEntry {
    /// Packed word 0.
    pub w0: u32,
    /// Packed word 1.
    pub w1: u32,
}

/// The packed words of a receive-list entry built from the given fields.
pub open spec fn spec_receive_list_new(address: u64, size: u64) -> ReceiveListEntry {
    ReceiveListEntry {
        w0: address as u32,
        w1: (((address >> 32) & 0xffff) | ((size & 0xffff) << 16)) as u32,
    }
}

impl ReceiveListEntry {
    /// The 16-bit size field.
    pub open spec fn spec_size(self) -> u64 {
        ((self.w1 >> 16) & 0xffff) as u64
    }

    /// The 48-bit address field, reassembled from its two subranges.
    pub open spec fn spec_address(self) -> u64 {
        (self.w0 as u64) | (((self.w1 & 0xffff) as u64) << 32)
    }

    /// Returns the 16-bit size field.
    pub fn size(self) -> (r: usize)
        ensures
            r as u64 == self.spec_size(),
    {
        ((self.w1 >> 16) & 0xffff) as usize
    }

    /// Returns the 48-bit address field.
    pub fn address(self) -> (r: u64)
        ensures
            r == self.spec_address(),
    {
        (self.w0 as u64) | (((self.w1 & 0xffff) as u64) << 32)
    }

    /// Packs the fields into their exact bit positions; fields wider than
    /// their encoding are silently truncated.
    pub fn new(address: u64, size: usize) -> (r: ReceiveListEntry)
        ensures
            r == spec_receive_list_new(address, size as u64),
    {
        let size64: u64 = size as u64;
        let w0: u32 = address as u32;
        let w1: u32 = (((address >> 32) & 0xffff) | ((size64 & 0xffff) << 16)) as u32;
        ReceiveListEntry { w0, w1 }
    }
}

impl Default for ReceiveListEntry {
    /// An all-zero entry.
    fn default() -> (r: Self)
        ensures
            r.w0 == 0,
            r.w1 == 0,
    {
        ReceiveListEntry { w0: 0, w1: 0 }
    }
}

impl IntoBytes for ReceiveListEntry {
    open spec fn byte_view(&self) -> Seq<u8> {
        spec_u32_le(self.w0) + spec_u32_le(self.w1)
    }

    fn into_bytes(self) -> (r: Vec<u8>) {
        let mut out: Vec<u8> = Vec::new();
        push_u32_le(&mut out, self.w0);
        push_u32_le(&mut out, self.w1);
        proof {
            assert(out@ =~= self.byte_view());
        }
        out
    }
}

/// Round-trip law: reading the fields of a freshly packed receive-list entry
/// returns the inputs reduced modulo their encoded widths (48-bit address,
/// 16-bit size).
pub proof fn lemma_receive_list_entry_round_trip(address: u64, size: u64)
    ensures
        spec_receive_list_new(address, size).spec_address() == address % 0x1_0000_0000_0000,
        spec_receive_list_new(address, size).spec_size() == size % 0x1_0000,
{
    let w0: u32 = address as u32;
    let w1: u32 = (((address >> 32) & 0xffff) | ((size & 0xffff) << 16)) as u32;
    assert({
        &&& ((w0 as u64) | (((w1 & 0xffff) as u64) << 32)) == address % 0x1_0000_0000_0000
        &&& ((w1 >> 16) & 0xffff) as u64 == size % 0x1_0000
    }) by (bit_vector)
        requires
            w0 == address as u32,
            w1 == (((address >> 32) & 0xffff) | ((size & 0xffff) << 16)) as u32,
    ;
}

/// The special-header word: one packed 32-bit word, 4 bytes serialized.
///
/// Bits: `[0..1]` send-PID flag, `[1..5]` copy-handle count, `[5..9]`
/// move-handle count.
#[derive(Clone, Copy, Debug, PartialEq, Eq, Structural)]
pub struct SpecialHeader {
    /// The packed word.
    pub w0: u32,
}

/// The packed word of a special header built from the given fields.
pub open spec fn spec_special_new(send_pid: bool, num_copy: u64, num_move: u64) -> SpecialHeader {
    SpecialHeader {
        w0: ((if send_pid {
            1u64
        } else {
            0u64
        }) | ((num_copy & 0xf) << 1) | ((num_move & 0xf) << 5)) as u32,
    }
}

impl SpecialHeader {
    /// The 1-bit send-PID flag.
    pub open spec fn spec_send_pid(self) -> bool {
        self.w0 & 1 == 1
    }

    /// The 4-bit copy-handle count.
    pub open spec fn spec_num_copy_handles(self) -> u64 {
        ((self.w0 >> 1) & 0xf) as u64
    }

    /// The 4-bit move-handle count.
    pub open spec fn spec_num_move_handles(self) -> u64 {
        ((self.w0 >> 5) & 0xf) as u64
    }

    /// Returns the send-PID flag.
    pub fn send_pid(self) -> (r: bool)
        ensures
            r == self.spec_send_pid(),
    {
        proof {
            let w: u32 = self.w0;
            assert(w & 1 == 0 || w & 1 == 1) by (bit_vector);
        }
        (self.w0 & 1) != 0
    }

    /// Returns the 4-bit copy-handle count.
    pub fn num_copy_handles(self) -> (r: usize)
        ensures
            r as u64 == self.spec_num_copy_handles(),
    {
        ((self.w0 >> 1) & 0xf) as usize
    }

    /// Returns the 4-bit move-handle count.
    pub fn num_move_handles(self) -> (r: usize)
        ensures
            r as u64 == self.spec_num_move_handles(),
    {
        ((self.w0 >> 5) & 0xf) as usize
    }

    /// Packs the fields into their exact bit positions; counts wider than
    /// 4 bits are silently truncated.
    pub fn new(send_pid: bool, num_copy_handles: usize, num_move_handles: usize) -> (r:
        SpecialHeader)
        ensures
            r == spec_special_new(send_pid, num_copy_handles as u64, num_move_handles as u64),
    {
        let pid_bit: u64 = if send_pid {
            1
        } else {
            0
        };
        let copy64: u64 = num_copy_handles as u64;
        let move64: u64 = num_move_handles as u64;
        let w0: u32 = (pid_bit | ((copy64 & 0xf) << 1) | ((move64 & 0xf) << 5)) as u32;
        SpecialHeader { w0 }
    }
}

impl Default for SpecialHeader {
    /// An all-zero special header: no PID, no handles.
    fn default() -> (r: Self)
        ensures
            r.w0 == 0,
    {
        SpecialHeader { w0: 0 }
    }
}

impl IntoBytes for SpecialHeader {
    open spec fn byte_view(&self) -> Seq<u8> {
        spec_u32_le(self.w0)
    }

    fn into_bytes(self) -> (r: Vec<u8>) {
        let mut out: Vec<u8> = Vec::new();
        push_u32_le(&mut out, self.w0);
        proof {
            assert(out@ =~= self.byte_view());
        }
        out
    }
}

/// Round-trip law: reading the fields of a freshly packed special header
/// returns the flag exactly and the counts reduced modulo 16.
pub proof fn lemma_special_header_round_trip(send_pid: bool, num_copy: u64, num_move: u64)
    ensures
        spec_special_new(send_pid, num_copy, num_move).spec_send_pid() == send_pid,
        spec_special_new(send_pid, num_copy, num_move).spec_num_copy_handles() == num_copy % 16,
        spec_special_new(send_pid, num_copy, num_move).spec_num_move_handles() == num_move % 16,
{
    let pid_bit: u64 = if send_pid {
        1
    } else {
        0
    };
    let w0: u32 = (pid_bit | ((num_copy & 0xf) << 1) | ((num_move & 0xf) << 5)) as u32;
    assert({
        &&& w0 & 1 == pid_bit
        &&& ((w0 >> 1) & 0xf) as u64 == num_copy % 16
        &&& ((w0 >> 5) & 0xf) as u64 == num_move % 16
    }) by (bit_vector)
        requires
            pid_bit == 0 || pid_bit == 1,
            w0 == (pid_bit | ((num_copy & 0xf) << 1) | ((num_move & 0xf) << 5)) as u32,
    ;
}

/// The command header: two packed 32-bit words, 8 bytes serialized.
///
/// Word 0 bits: `[0..16]` command kind, `[16..20]` send-statics count,
/// `[20..24]` send-buffers count, `[24..28]` receive-buffers count,
/// `[28..32]` exchange-buffers count.
///
/// Word 1 bits: `[0..10]` raw-data length in 32-bit words, `[10..14]`
/// receive-static mode, `[14..20]` reserved zero, `[20..31]` receive-list
/// offset in words, `[31..32]` special-header-present flag.
#[derive(Clone, Copy, Debug, PartialEq, Eq, Structural)]
pub struct Header {
    /// Packed word 0.
    pub w0: u32,
    /// Packed word 1.
    pub w1: u32,
}

/// The packed words of a command header built from the given fields.
pub open spec fn spec_header_new(
    ty: u16,
    num_statics: u64,
    num_send_bufs: u64,
    num_recv_bufs: u64,
    num_exch_bufs: u64,
    raw_data_len: u64,
    recv_static_mode: u8,
    recv_list_offset: u64,
    has_special_header: bool,
) -> Header {
    Header {
        w0: ((ty as u64) | ((num_statics & 0xf) << 16) | ((num_send_bufs & 0xf) << 20) | ((
        num_recv_bufs & 0xf) << 24) | ((num_exch_bufs & 0xf) << 28)) as u32,
        w1: ((raw_data_len & 0x3ff) | (((recv_static_mode as u64) & 0xf) << 10) | ((
        recv_list_offset & 0x7ff) << 20) | ((if has_special_header {
            1u64
        } else {
            0u64
        }) << 31)) as u32,
    }
}

impl Header {
    /// The 16-bit command kind tag.
    pub open spec fn spec_ty(self) -> u16 {
        (self.w0 & 0xffff) as u16
    }

    /// The 4-bit send-statics count.
    pub open spec fn spec_num_send_statics(self) -> u64 {
        ((self.w0 >> 16) & 0xf) as u64
    }

    /// The 4-bit send-buffers count.
    pub open spec fn spec_num_send_buffers(self) -> u64 {
        ((self.w0 >> 20) & 0xf) as u64
    }

    /// The 4-bit receive-buffers count.
    pub open spec fn spec_num_receive_buffers(self) -> u64 {
        ((self.w0 >> 24) & 0xf) as u64
    }

    /// The 4-bit exchange-buffers count.
    pub open spec fn spec_num_exchange_buffers(self) -> u64 {
        ((self.w0 >> 28) & 0xf) as u64
    }

    /// The 10-bit raw-data length, in 32-bit words.
    pub open spec fn spec_raw_data_len(self) -> u64 {
        (self.w1 & 0x3ff) as u64
    }

    /// The 4-bit receive-static mode.
    pub open spec fn spec_receive_static_mode(self) -> u8 {
        ((self.w1 >> 10) & 0xf) as u8
    }

    /// The 11-bit receive-list offset, in 32-bit words.
    pub open spec fn spec_receive_list_offset(self) -> u64 {
        ((self.w1 >> 20) & 0x7ff) as u64
    }

    /// The 1-bit special-header-present flag.
    pub open spec fn spec_has_special_header(self) -> bool {
        (self.w1 >> 31) & 1 == 1
    }

    /// Returns the 16-bit command kind tag.
    pub fn ty(self) -> (r: u16)
        ensures
            r == self.spec_ty(),
    {
        (self.w0 & 0xffff) as u16
    }

    /// Returns the 4-bit send-statics count.
    pub fn num_send_statics(self) -> (r: usize)
        ensures
            r as u64 == self.spec_num_send_statics(),
    {
        ((self.w0 >> 16) & 0xf) as usize
    }

    /// Returns the 4-bit send-buffers count.
    pub fn num_send_buffers(self) -> (r: usize)
        ensures
            r as u64 == self.spec_num_send_buffers(),
    {
        ((self.w0 >> 20) & 0xf) as usize
    }

    /// Returns the 4-bit receive-buffers count.
    pub fn num_receive_buffers(self) -> (r: usize)
        ensures
            r as u64 == self.spec_num_receive_buffers(),
    {
        ((self.w0 >> 24) & 0xf) as usize
    }

    /// Returns the 4-bit exchange-buffers count.
    pub fn num_exchange_buffers(self) -> (r: usize)
        ensures
            r as u64 == self.spec_num_exchange_buffers(),
    {
        ((self.w0 >> 28) & 0xf) as usize
    }

    /// Returns the 10-bit raw-data length, in 32-bit words.
    pub fn raw_data_len(self) -> (r: usize)
        ensures
            r as u64 == self.spec_raw_data_len(),
    {
        (self.w1 & 0x3ff) as usize
    }

    /// Returns the 4-bit receive-static mode.
    pub fn receive_static_mode(self) -> (r: u8)
        ensures
            r == self.spec_receive_static_mode(),
    {
        ((self.w1 >> 10) & 0xf) as u8
    }

    /// Returns the 11-bit receive-list offset, in 32-bit words.
    pub fn receive_list_offset(self) -> (r: usize)
        ensures
            r as u64 == self.spec_receive_list_offset(),
    {
        ((self.w1 >> 20) & 0x7ff) as usize
    }

    /// Returns the special-header-present flag.
    pub fn has_special_header(self) -> (r: bool)
        ensures
            r == self.spec_has_special_header(),
    {
        proof {
            let w: u32 = self.w1;
            assert((w >> 31) & 1 == 0 || (w >> 31) & 1 == 1) by (bit_vector);
        }
        ((self.w1 >> 31) & 1) != 0
    }

    /// Packs the fields into their exact bit positions; fields wider than
    /// their encoding are silently truncated.
    pub fn new(
        ty: u16,
        num_statics: usize,
        num_send_bufs: usize,
        num_recv_bufs: usize,
        num_exch_bufs: usize,
        raw_data_len: usize,
        recv_static_mode: u8,
        recv_list_offset: usize,
        has_special_header: bool,
    ) -> (r: Header)
        ensures
            r == spec_header_new(
                ty,
                num_statics as u64,
                num_send_bufs as u64,
                num_recv_bufs as u64,
                num_exch_bufs as u64,
                raw_data_len as u64,
                recv_static_mode,
                recv_list_offset as u64,
                has_special_header,
            ),
    {
        let ss64: u64 = num_statics as u64;
        let sb64: u64 = num_send_bufs as u64;
        let rb64: u64 = num_recv_bufs as u64;
        let eb64: u64 = num_exch_bufs as u64;
        let raw64: u64 = raw_data_len as u64;
        let off64: u64 = recv_list_offset as u64;
        let sh_bit: u64 = if has_special_header {
            1
        } else {
            0
        };
        let w0: u32 = ((ty as u64) | ((ss64 & 0xf) << 16) | ((sb64 & 0xf) << 20) | ((rb64 & 0xf)
            << 24) | ((eb64 & 0xf) << 28)) as u32;
        let w1: u32 = ((raw64 & 0x3ff) | (((recv_static_mode as u64) & 0xf) << 10) | ((off64
            & 0x7ff) << 20) | (sh_bit << 31)) as u32;
        Header { w0, w1 }
    }
}

impl Default for Header {
    /// An all-zero header.
    fn default() -> (r: Self)
        ensures
            r.w0 == 0,
            r.w1 == 0,
    {
        Header { w0: 0, w1: 0 }
    }
}

impl IntoBytes for Header {
    open spec fn byte_view(&self) -> Seq<u8> {
        spec_u32_le(self.w0) + spec_u32_le(self.w1)
    }

    fn into_bytes(self) -> (r: Vec<u8>) {
        let mut out: Vec<u8> = Vec::new();
        push_u32_le(&mut out, self.w0);
        push_u32_le(&mut out, self.w1);
        proof {
            assert(out@ =~= self.byte_view());
        }
        out
    }
}

/// A sequence of 32-bit words serializes to 4 bytes per word.
pub proof fn lemma_seq_bytes_len_u32(s: Seq<u32>)
    ensures
        seq_bytes(s).len() == 4 * s.len(),
    decreases s.len(),
{
    if s.len() > 0 {
        lemma_seq_bytes_len_u32(s.drop_last());
    }
}

/// A sequence of static descriptors serializes to 8 bytes per descriptor.
pub proof fn lemma_seq_bytes_len_static(s: Seq<StaticDescriptor>)
    ensures
        seq_bytes(s).len() == 8 * s.len(),
    decreases s.len(),
{
    if s.len() > 0 {
        lemma_seq_bytes_len_static(s.drop_last());
    }
}

/// A sequence of buffer descriptors serializes to 12 bytes per descriptor.
pub proof fn lemma_seq_bytes_len_buffer(s: Seq<BufferDescriptor>)
    ensures
        seq_bytes(s).len() == 12 * s.len(),
    decreases s.len(),
{
    if s.len() > 0 {
        lemma_seq_bytes_len_buffer(s.drop_last());
    }
}

/// A sequence of receive-list entries serializes to 8 bytes per entry.
pub proof fn lemma_seq_bytes_len_receive_list(s: Seq<ReceiveListEntry>)
    ensures
        seq_bytes(s).len() == 8 * s.len(),
    decreases s.len(),
{
    if s.len() > 0 {
        lemma_seq_bytes_len_receive_list(s.drop_last());
    }
}

/// Round-trip law: reading the fields of a freshly packed command header
/// returns the inputs reduced modulo their encoded widths (the 16-bit kind,
/// the flag and the 4-bit mode fit their encodings and round-trip exactly up
/// to those widths).
pub proof fn lemma_header_round_trip(
    ty: u16,
    num_statics: u64,
    num_send_bufs: u64,
    num_recv_bufs: u64,
    num_exch_bufs: u64,
    raw_data_len: u64,
    recv_static_mode: u8,
    recv_list_offset: u64,
    has_special_header: bool,
)
    ensures
        spec_header_new(
            ty,
            num_statics,
            num_send_bufs,
            num_recv_bufs,
            num_exch_bufs,
            raw_data_len,
            recv_static_mode,
            recv_list_offset,
            has_special_header,
        ).spec_ty() == ty,
        spec_header_new(
            ty,
            num_statics,
            num_send_bufs,
            num_recv_bufs,
            num_exch_bufs,
            raw_data_len,
            recv_static_mode,
            recv_list_offset,
            has_special_header,
        ).spec_num_send_statics() == num_statics % 16,
        spec_header_new(
            ty,
            num_statics,
            num_send_bufs,
            num_recv_bufs,
            num_exch_bufs,
            raw_data_len,
            recv_static_mode,
            recv_list_offset,
            has_special_header,
        ).spec_num_send_buffers() == num_send_bufs % 16,
        spec_header_new(
            ty,
            num_statics,
            num_send_bufs,
            num_recv_bufs,
            num_exch_bufs,
            raw_data_len,
            recv_static_mode,
            recv_list_offset,
            has_special_header,
        ).spec_num_receive_buffers() == num_recv_bufs % 16,
        spec_header_new(
            ty,
            num_statics,
            num_send_bufs,
            num_recv_bufs,
            num_exch_bufs,
            raw_data_len,
            recv_static_mode,
            recv_list_offset,
            has_special_header,
        ).spec_num_exchange_buffers() == num_exch_bufs % 16,
        spec_header_new(
            ty,
            num_statics,
            num_send_bufs,
            num_recv_bufs,
            num_exch_bufs,
            raw_data_len,
            recv_static_mode,
            recv_list_offset,
            has_special_header,
        ).spec_raw_data_len() == raw_data_len % 0x400,
        spec_header_new(
            ty,
            num_statics,
            num_send_bufs,
            num_recv_bufs,
            num_exch_bufs,
            raw_data_len,
            recv_static_mode,
            recv_list_offset,
            has_special_header,
        ).spec_receive_static_mode() == recv_static_mode % 16,
        spec_header_new(
            ty,
            num_statics,
            num_send_bufs,
            num_recv_bufs,
            num_exch_bufs,
            raw_data_len,
            recv_static_mode,
            recv_list_offset,
            has_special_header,
        ).spec_receive_list_offset() == recv_list_offset % 0x800,
        spec_header_new(
            ty,
            num_statics,
            num_send_bufs,
            num_recv_bufs,
            num_exch_bufs,
            raw_data_len,
            recv_static_mode,
            recv_list_offset,
            has_special_header,
        ).spec_has_special_header() == has_special_header,
{
    let sh_bit: u64 = if has_special_header {
        1
    } else {
        0
    };
    let w0: u32 = ((ty as u64) | ((num_statics & 0xf) << 16) | ((num_send_bufs & 0xf) << 20) | ((
    num_recv_bufs & 0xf) << 24) | ((num_exch_bufs & 0xf) << 28)) as u32;
    let w1: u32 = ((raw_data_len & 0x3ff) | (((recv_static_mode as u64) & 0xf) << 10) | ((
    recv_list_offset & 0x7ff) << 20) | (sh_bit << 31)) as u32;
    assert({
        &&& (w0 & 0xffff) as u16 == ty
        &&& ((w0 >> 16) & 0xf) as u64 == num_statics % 16
        &&& ((w0 >> 20) & 0xf) as u64 == num_send_bufs % 16
        &&& ((w0 >> 24) & 0xf) as u64 == num_recv_bufs % 16
        &&& ((w0 >> 28) & 0xf) as u64 == num_exch_bufs % 16
        &&& (w1 & 0x3ff) as u64 == raw_data_len % 0x400
        &&& ((w1 >> 10) & 0xf) as u8 == recv_static_mode % 16
        &&& ((w1 >> 20) & 0x7ff) as u64 == recv_list_offset % 0x800
        &&& (w1 >> 31) & 1 == sh_bit
    }) by (bit_vector)
        requires
            sh_bit == 0 || sh_bit == 1,
            w0 == ((ty as u64) | ((num_statics & 0xf) << 16) | ((num_send_bufs & 0xf) << 20) | ((
            num_recv_bufs & 0xf) << 24) | ((num_exch_bufs & 0xf) << 28)) as u32,
            w1 == ((raw_data_len & 0x3ff) | (((recv_static_mode as u64) & 0xf) << 10) | ((
            recv_list_offset & 0x7ff) << 20) | (sh_bit << 31)) as u32,
    ;
}

} // verus!
