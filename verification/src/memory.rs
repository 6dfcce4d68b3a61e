//! The foreign address space as this layer sees it: a region, and an image of
//! the bytes that lie in it.
//!
//! Every access to foreign bytes goes through [`MemoryImage`]. An image holds
//! the bytes of one contiguous range of absolute addresses; whatever lies
//! outside the range is unreadable, and a read or write that would leave it is
//! refused rather than performed.

use crate::bytes::{
    decode_le,
    encode_le,
    le_bytes,
    le_value,
    lemma_le_bytes_len,
    lemma_le_value_bound,
    lemma_le_value_of_bytes,
    lemma_pow256_monotonic,
    lemma_pow256_positive,
    lemma_pow256_values,
    pow256,
};
use vstd::prelude::*;

verus! {

/// The number of bytes in a pointer of the attached process.
pub const POINTER_WIDTH: usize = 8;

/// The extent `(base_address, size)` of an attached module.
#[derive(Clone, Copy, Debug)]
pub struct MemoryRegion {
    pub base_address: usize,
    pub size: usize,
}

impl MemoryRegion {
    /// Whether the `len` bytes at `addr` all lie inside the region.
    pub open spec fn spec_contains(self, addr: int, len: int) -> bool {
        0 <= len && self.base_address <= addr && addr + len <= self.base_address + self.size
    }

    pub fn contains(&self, addr: usize, len: usize) -> (inside: bool)
        ensures
            inside == self.spec_contains(addr as int, len as int),
    {
        addr >= self.base_address && len <= self.size && addr - self.base_address <= self.size
            - len
    }
}

/// What an image holds: the bytes found at `base`, `base + 1`, ...
pub struct ImageView {
    pub base: nat,
    pub bytes: Seq<u8>,
}

impl ImageView {
    /// Whether the `len` bytes at `addr` all lie inside the image, and so
    /// inside the address space.
    pub open spec fn covers(self, addr: int, len: int) -> bool {
        &&& 0 <= len
        &&& self.base <= addr
        &&& addr + len <= self.base + self.bytes.len()
        &&& addr + len <= usize::MAX
    }

    /// The `len` bytes at `addr`.
    pub open spec fn slice(self, addr: int, len: int) -> Seq<u8>
        recommends
            self.covers(addr, len),
    {
        self.bytes.subrange(addr - self.base, addr - self.base + len)
    }

    /// The image with `data` stored at `addr`, every other byte as before.
    pub open spec fn store(self, addr: int, data: Seq<u8>) -> ImageView
        recommends
            self.covers(addr, data.len() as int),
    {
        ImageView {
            base: self.base,
            bytes: Seq::new(
                self.bytes.len(),
                |i: int|
                    if addr - self.base <= i < addr - self.base + data.len() {
                        data[i - (addr - self.base)]
                    } else {
                        self.bytes[i]
                    },
            ),
        }
    }

    /// The little-endian integer of `width` bytes at `addr`, where it can be read.
    pub open spec fn uint(self, addr: int, width: int) -> Option<nat> {
        if width <= 8 && self.covers(addr, width) {
            Some(le_value(self.slice(addr, width)))
        } else {
            None
        }
    }

    /// The image after an integer store of `width` bytes at `addr`.
    pub open spec fn store_uint(self, addr: int, width: nat, value: nat) -> ImageView {
        self.store(addr, le_bytes(value, width))
    }

    /// The byte at `addr`.
    pub open spec fn u8_at(self, addr: int) -> u8
        recommends
            self.covers(addr, 1),
    {
        self.bytes[addr - self.base]
    }

    /// The 32-bit little-endian integer at `addr`.
    pub open spec fn u32_at(self, addr: int) -> u32
        recommends
            self.covers(addr, 4),
    {
        le_value(self.slice(addr, 4)) as u32
    }

    /// The 128-bit little-endian integer at `addr`.
    pub open spec fn u128_at(self, addr: int) -> u128
        recommends
            self.covers(addr, 16),
    {
        le_value(self.slice(addr, 16)) as u128
    }

    /// The pointer stored at `addr`, where it can be read and names an
    /// address that this machine can hold.
    pub open spec fn pointer(self, addr: int) -> Option<usize> {
        match self.uint(addr, POINTER_WIDTH as int) {
            Some(value) => if value <= usize::MAX {
                Some(value as usize)
            } else {
                None
            },
            None => None,
        }
    }
}

/// Whether `after` differs from `before` at most in the bytes at the
/// addresses from `lo` up to, not including, `hi`.
pub open spec fn frames(before: ImageView, after: ImageView, lo: int, hi: int) -> bool {
    &&& after.base == before.base
    &&& after.bytes.len() == before.bytes.len()
    &&& forall|i: int|
        0 <= i < before.bytes.len() && !(lo <= before.base + i < hi) ==> #[trigger] after.bytes[i]
            == before.bytes[i]
}

/// Whether `after` differs from `before` at most at the addresses from `lo`
/// up to `hi`, spelled out for what is read: every run of bytes outside them
/// reads as before, and the image holds the same addresses.
pub open spec fn changes_only(before: ImageView, after: ImageView, lo: int, hi: int) -> bool {
    &&& frames(before, after, lo, hi)
    &&& forall|other: int, len: int|
        before.covers(other, len) && (other + len <= lo || hi <= other) ==> #[trigger] after.slice(
            other,
            len,
        ) == before.slice(other, len)
    &&& forall|other: int|
        before.covers(other, 1) && (other < lo || hi <= other) ==> #[trigger] after.u8_at(other)
            == before.u8_at(other)
    &&& forall|other: int, len: int| #[trigger]
        after.covers(other, len) == before.covers(other, len)
}

/// What lies outside the changed addresses reads as before.
pub proof fn lemma_changes_only(before: ImageView, after: ImageView, lo: int, hi: int)
    requires
        frames(before, after, lo, hi),
    ensures
        changes_only(before, after, lo, hi),
{
    assert forall|other: int, len: int|
        before.covers(other, len) && (other + len <= lo || hi
            <= other) implies #[trigger] after.slice(other, len) == before.slice(other, len) by {
        assert(after.slice(other, len) =~= before.slice(other, len));
    }
}

/// A change inside a range is a change inside any range that holds it.
pub proof fn lemma_frames_widen(
    before: ImageView,
    after: ImageView,
    lo: int,
    hi: int,
    wide_lo: int,
    wide_hi: int,
)
    requires
        frames(before, after, lo, hi),
        wide_lo <= lo,
        hi <= wide_hi,
    ensures
        frames(before, after, wide_lo, wide_hi),
{
}

/// Two changes inside one range, one after the other, are a change inside it.
pub proof fn lemma_frames_chain(
    before: ImageView,
    between: ImageView,
    after: ImageView,
    lo: int,
    hi: int,
)
    requires
        frames(before, between, lo, hi),
        frames(between, after, lo, hi),
    ensures
        frames(before, after, lo, hi),
{
    assert forall|i: int|
        0 <= i < before.bytes.len() && !(lo <= before.base + i < hi) implies #[trigger] after.bytes[i]
        == before.bytes[i] by {
        assert(between.bytes[i] == before.bytes[i]);
    }
}

/// A store changes exactly the bytes it names: they read as the data stored,
/// all others as before.
pub proof fn lemma_store_frames(view: ImageView, addr: int, data: Seq<u8>)
    requires
        view.covers(addr, data.len() as int),
    ensures
        frames(view, view.store(addr, data), addr, addr + data.len()),
        view.store(addr, data).slice(addr, data.len() as int) == data,
{
    assert(view.store(addr, data).slice(addr, data.len() as int) =~= data);
}

/// An integer stored in `width` bytes is the integer read back from them, and
/// nothing but those bytes has changed.
pub proof fn lemma_uint_stored(view: ImageView, addr: int, width: nat, value: nat)
    requires
        view.covers(addr, width as int),
        value < pow256(width),
    ensures
        le_value(view.store_uint(addr, width, value).slice(addr, width as int)) == value,
        changes_only(view, view.store_uint(addr, width, value), addr, addr + width),
{
    let data = le_bytes(value, width);
    lemma_le_bytes_len(value, width);
    lemma_store_frames(view, addr, data);
    lemma_changes_only(view, view.store(addr, data), addr, addr + width);
    lemma_le_value_of_bytes(value, width);
    lemma_pow256_positive(width);
    vstd::arithmetic::div_mod::lemma_small_mod(value, pow256(width));
}

/// A byte stored at `addr` is the byte read back, and no other has changed.
pub proof fn lemma_u8_stored(view: ImageView, addr: int, value: u8)
    requires
        view.covers(addr, 1),
    ensures
        view.store(addr, seq![value]).u8_at(addr) == value,
        changes_only(view, view.store(addr, seq![value]), addr, addr + 1),
{
    lemma_store_frames(view, addr, seq![value]);
    lemma_changes_only(view, view.store(addr, seq![value]), addr, addr + 1);
}

/// The bytes of one contiguous range of foreign addresses.
pub struct MemoryImage {
    base: usize,
    bytes: Vec<u8>,
}

impl View for MemoryImage {
    type V = ImageView;

    closed spec fn view(&self) -> ImageView {
        ImageView { base: self.base as nat, bytes: self.bytes@ }
    }
}

impl MemoryImage {
    #[verifier::type_invariant]
    spec fn fits(self) -> bool {
        self.base + self.bytes@.len() <= usize::MAX
    }

    /// The image of `bytes` found at address `base`; `None` where the range
    /// would run past the last address.
    pub fn new(base: usize, bytes: Vec<u8>) -> (image: Option<MemoryImage>)
        ensures
            image.is_some() == (base + bytes@.len() <= usize::MAX),
            image.is_some() ==> image.unwrap()@ == (ImageView { base: base as nat, bytes: bytes@ }),
    {
        if bytes.len() <= usize::MAX - base {
            Some(MemoryImage { base, bytes })
        } else {
            None
        }
    }

    /// The extent of the image.
    pub fn region(&self) -> (region: MemoryRegion)
        ensures
            region.base_address == self@.base,
            region.size == self@.bytes.len(),
            region.base_address + region.size <= usize::MAX,
    {
        proof {
            use_type_invariant(self);
        }
        MemoryRegion { base_address: self.base, size: self.bytes.len() }
    }

    /// Whether the `len` bytes at `addr` can be read and written.
    pub fn covers(&self, addr: usize, len: usize) -> (inside: bool)
        ensures
            inside == self@.covers(addr as int, len as int),
    {
        proof {
            use_type_invariant(self);
        }
        let n: usize = self.bytes.len();
        addr >= self.base && len <= n && addr - self.base <= n - len
    }

    /// The whole image, first byte first.
    pub fn as_bytes(&self) -> (bytes: &[u8])
        ensures
            bytes@ == self@.bytes,
            self@.base + bytes@.len() <= usize::MAX,
    {
        proof {
            use_type_invariant(self);
        }
        self.bytes.as_slice()
    }

    /// Copies `len` bytes out of the image; `None` where they are not all in it.
    pub fn read_bytes(&self, addr: usize, len: usize) -> (data: Option<Vec<u8>>)
        ensures
            data.is_some() == self@.covers(addr as int, len as int),
            data.is_some() ==> data.unwrap()@ == self@.slice(addr as int, len as int),
    {
        if !self.covers(addr, len) {
            return None;
        }
        let start: usize = addr - self.base;
        let mut data: Vec<u8> = Vec::new();
        let mut i: usize = 0;
        while i < len
            invariant
                i <= len,
                start + len <= self.bytes.len(),
                data@ == self.bytes@.subrange(start as int, start + i),
            decreases len - i,
        {
            data.push(self.bytes[start + i]);
            i = i + 1;
            proof {
                assert(data@ =~= self.bytes@.subrange(start as int, start + i));
            }
        }
        Some(data)
    }

    /// Stores `data` at `addr`. Where the bytes are not all in the image
    /// nothing is written and `false` is returned.
    pub fn write_bytes(&mut self, addr: usize, data: &[u8]) -> (written: bool)
        ensures
            written == old(self)@.covers(addr as int, data@.len() as int),
            written ==> final(self)@ == old(self)@.store(addr as int, data@),
            !written ==> final(self)@ == old(self)@,
    {
        let len: usize = data.len();
        if !self.covers(addr, len) {
            return false;
        }
        proof {
            use_type_invariant(&*self);
        }
        let start: usize = addr - self.base;
        let ghost before = self.bytes@;
        let mut bytes: Vec<u8> = Vec::new();
        core::mem::swap(&mut bytes, &mut self.bytes);
        let mut i: usize = 0;
        while i < len
            invariant
                i <= len,
                len == data@.len(),
                bytes.len() == before.len(),
                start + len <= before.len(),
                forall|k: int|
                    0 <= k < before.len() ==> bytes@[k] == if start <= k < start + i {
                        data@[k - start]
                    } else {
                        before[k]
                    },
            decreases len - i,
        {
            bytes.set(start + i, data[i]);
            i = i + 1;
        }
        proof {
            assert(bytes@ =~= old(self)@.store(addr as int, data@).bytes);
        }
        self.bytes = bytes;
        true
    }

    /// Reads the little-endian integer of `width` bytes at `addr`; `None`
    /// where `width` exceeds eight or the bytes are not all in the image.
    pub fn read_uint(&self, addr: usize, width: usize) -> (value: Option<u64>)
        ensures
            value.is_some() == self@.uint(addr as int, width as int).is_some(),
            value.is_some() ==> value.unwrap() == self@.uint(addr as int, width as int).unwrap(),
    {
        if width > 8 || !self.covers(addr, width) {
            return None;
        }
        let start: usize = addr - self.base;
        assert(start + width <= self.bytes.len());
        let run = vstd::slice::slice_subrange(self.bytes.as_slice(), start, start + width);
        proof {
            lemma_le_value_bound(run@);
            lemma_pow256_monotonic(width as nat, 8);
            lemma_pow256_values();
        }
        Some(decode_le(run) as u64)
    }

    /// Stores the low `width` bytes of `value` at `addr`, least significant
    /// first. Where the bytes are not all in the image nothing is written and
    /// `false` is returned.
    pub fn write_uint(&mut self, addr: usize, width: usize, value: u64) -> (written: bool)
        ensures
            written == old(self)@.covers(addr as int, width as int),
            written ==> final(self)@ == old(self)@.store_uint(
                addr as int,
                width as nat,
                value as nat,
            ),
            !written ==> final(self)@ == old(self)@,
    {
        let data = encode_le(value as u128, width);
        proof {
            lemma_le_bytes_len(value as nat, width as nat);
        }
        self.write_bytes(addr, data.as_slice())
    }

    /// The byte at an address that the image holds.
    pub fn load_u8(&self, addr: usize) -> (value: u8)
        requires
            self@.covers(addr as int, 1),
        ensures
            value == self@.u8_at(addr as int),
    {
        self.bytes[addr - self.base]
    }

    /// The 32-bit integer at an address that the image holds.
    pub fn load_u32(&self, addr: usize) -> (value: u32)
        requires
            self@.covers(addr as int, 4),
        ensures
            value == self@.u32_at(addr as int),
    {
        let start: usize = addr - self.base;
        assert(start + 4 <= self.bytes.len());
        let run = vstd::slice::slice_subrange(self.bytes.as_slice(), start, start + 4);
        proof {
            lemma_le_value_bound(run@);
            lemma_pow256_values();
        }
        decode_le(run) as u32
    }

    /// The 128-bit integer at an address that the image holds.
    pub fn load_u128(&self, addr: usize) -> (value: u128)
        requires
            self@.covers(addr as int, 16),
        ensures
            value == self@.u128_at(addr as int),
    {
        let start: usize = addr - self.base;
        assert(start + 16 <= self.bytes.len());
        let run = vstd::slice::slice_subrange(self.bytes.as_slice(), start, start + 16);
        proof {
            lemma_le_value_bound(run@);
            lemma_pow256_values();
        }
        decode_le(run)
    }

    /// Stores a byte at an address that the image holds.
    pub fn store_u8(&mut self, addr: usize, value: u8)
        requires
            old(self)@.covers(addr as int, 1),
        ensures
            final(self)@ == old(self)@.store(addr as int, seq![value]),
    {
        let data: [u8; 1] = [value];
        self.write_bytes(addr, data.as_slice());
        proof {
            assert(data@ =~= seq![value]);
        }
    }

    /// Stores a 32-bit integer at an address that the image holds.
    pub fn store_u32(&mut self, addr: usize, value: u32)
        requires
            old(self)@.covers(addr as int, 4),
        ensures
            final(self)@ == old(self)@.store_uint(addr as int, 4, value as nat),
    {
        self.write_uint(addr, 4, value as u64);
    }

    /// Stores a 128-bit integer at an address that the image holds.
    pub fn store_u128(&mut self, addr: usize, value: u128)
        requires
            old(self)@.covers(addr as int, 16),
        ensures
            final(self)@ == old(self)@.store_uint(addr as int, 16, value as nat),
    {
        let data = encode_le(value, 16);
        proof {
            lemma_le_bytes_len(value as nat, 16);
        }
        self.write_bytes(addr, data.as_slice());
    }

    /// Stores a pointer at an address that the image holds.
    pub fn store_pointer(&mut self, addr: usize, target: usize)
        requires
            old(self)@.covers(addr as int, POINTER_WIDTH as int),
        ensures
            final(self)@ == old(self)@.store_uint(addr as int, POINTER_WIDTH as nat, target as nat),
    {
        self.write_pointer(addr, target);
    }

    /// Reads the pointer stored at `addr`.
    pub fn read_pointer(&self, addr: usize) -> (target: Option<usize>)
        ensures
            target == self@.pointer(addr as int),
    {
        match self.read_uint(addr, POINTER_WIDTH) {
            Some(value) => if value <= usize::MAX as u64 {
                Some(value as usize)
            } else {
                None
            },
            None => None,
        }
    }

    /// Stores the pointer `target` at `addr`.
    pub fn write_pointer(&mut self, addr: usize, target: usize) -> (written: bool)
        ensures
            written == old(self)@.covers(addr as int, POINTER_WIDTH as int),
            written ==> final(self)@ == old(self)@.store_uint(
                addr as int,
                POINTER_WIDTH as nat,
                target as nat,
            ),
            !written ==> final(self)@ == old(self)@,
    {
        self.write_uint(addr, POINTER_WIDTH, target as u64)
    }
}

} // verus!
