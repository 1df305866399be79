use vstd::prelude::*;
use vstd::slice::slice_subrange;

verus! {

/// Why a memory access failed.
#[derive(Debug, Clone, Copy, PartialEq, Eq, Structural)]
pub enum MemoryError {
    /// The block holding the address was never written.
    Uninit,
    /// The address is not a multiple of the access width.
    Unaligned,
    /// The address lies outside a fixed-size region.
    OutOfBounds,
}

pub type MemoryResult<T> = Result<T, MemoryError>;

/// The memory a program image runs in.
pub type MainMemory = crate::splitmem::SplitMemory;

/// The little-endian halfword made of two bytes.
pub open spec fn le16(b0: u8, b1: u8) -> u16 {
    ((b0 as u16) | ((b1 as u16) << 8u16)) as u16
}

/// The little-endian word made of four bytes.
pub open spec fn le32(b0: u8, b1: u8, b2: u8, b3: u8) -> u32 {
    ((b0 as u32) | ((b1 as u32) << 8u32) | ((b2 as u32) << 16u32) | ((b3 as u32) << 24u32)) as u32
}

/// Byte `k` (0 is the least significant) of a word.
pub open spec fn byte_of(v: u32, k: u32) -> u8 {
    ((v >> (8 * k) as u32) & 0xff) as u8
}

/// The bytes of `v` in little-endian order.
pub open spec fn bytes32(v: u32) -> Seq<u8> {
    seq![byte_of(v, 0), byte_of(v, 1), byte_of(v, 2), byte_of(v, 3)]
}

/// The bytes of `v` in little-endian order.
pub open spec fn bytes16(v: u16) -> Seq<u8> {
    seq![byte_of(v as u32, 0), byte_of(v as u32, 1)]
}

/// The bytes of `v`.
pub open spec fn bytes8(v: u8) -> Seq<u8> {
    seq![v]
}

/// What a memory holds as far as accesses can tell: what a byte read of each
/// address returns, and whether a write can land there.
pub struct MemView {
    pub cell: spec_fn(u32) -> MemoryResult<u8>,
    pub writable: spec_fn(u32) -> bool,
}

impl MemView {
    /// The failure of a byte read of `addr`, if it fails.
    pub open spec fn err_at(self, addr: int) -> Option<MemoryError> {
        match (self.cell)(addr as u32) {
            Err(e) => Some(e),
            Ok(_) => None,
        }
    }

    /// The first failure among the byte reads of `addr` and `addr + 1`.
    pub open spec fn first_err2(self, addr: u32) -> Option<MemoryError> {
        if self.err_at(addr as int) is Some {
            self.err_at(addr as int)
        } else {
            self.err_at(addr + 1)
        }
    }

    /// The first failure among the byte reads of `addr .. addr + 4`.
    pub open spec fn first_err4(self, addr: u32) -> Option<MemoryError> {
        if self.first_err2(addr) is Some {
            self.first_err2(addr)
        } else if self.err_at(addr + 2) is Some {
            self.err_at(addr + 2)
        } else {
            self.err_at(addr + 3)
        }
    }

    /// The byte at `addr`, where it reads.
    pub open spec fn byte(self, addr: int) -> u8 {
        (self.cell)(addr as u32)->Ok_0
    }

    /// What a halfword read of `addr` returns.
    pub open spec fn read_u16(self, addr: u32) -> MemoryResult<u16> {
        if addr % 2 != 0 {
            Err(MemoryError::Unaligned)
        } else {
            match self.first_err2(addr) {
                Some(e) => Err(e),
                None => Ok(le16(self.byte(addr as int), self.byte(addr + 1))),
            }
        }
    }

    /// What a word read of `addr` returns.
    pub open spec fn read_u32(self, addr: u32) -> MemoryResult<u32> {
        if addr % 4 != 0 {
            Err(MemoryError::Unaligned)
        } else {
            match self.first_err4(addr) {
                Some(e) => Err(e),
                None => Ok(
                    le32(
                        self.byte(addr as int),
                        self.byte(addr + 1),
                        self.byte(addr + 2),
                        self.byte(addr + 3),
                    ),
                ),
            }
        }
    }

    /// Whether a write of `width` bytes at `addr` succeeds, and if not, why.
    pub open spec fn write_check(self, addr: u32, width: nat) -> MemoryResult<()> {
        if width > 0 && (addr as int) % (width as int) != 0 {
            Err(MemoryError::Unaligned)
        } else if forall|k: nat| k < width ==> #[trigger] (self.writable)((addr + k) as u32) {
            Ok(())
        } else {
            Err(MemoryError::OutOfBounds)
        }
    }

    /// `s` is what a slice read of `len` bytes at `addr` may return: a prefix of
    /// the requested range, not empty unless nothing was asked for.
    pub open spec fn slice_matches(self, addr: u32, len: u32, s: Seq<u8>) -> bool {
        &&& s.len() <= len
        &&& len > 0 ==> s.len() > 0
        &&& addr + s.len() <= 0x1_0000_0000
        &&& forall|k: int|
            0 <= k < s.len() ==> (self.cell)(#[trigger] ((addr + k) as u32)) == Ok::<u8, MemoryError>(s[k])
    }

    /// `self` is `old` after `bytes` were written from `addr` on: those bytes
    /// read back; every other byte reads as before, but for a byte never
    /// written, which may now read as zero; and what can be written stays the same.
    pub open spec fn stored(self, old: MemView, addr: u32, bytes: Seq<u8>) -> bool {
        &&& forall|k: int|
            0 <= k < bytes.len() ==> (self.cell)(#[trigger] ((addr + k) as u32)) == Ok::<u8, MemoryError>(
                bytes[k],
            )
        &&& forall|a: u32|
            !(addr <= a < addr + bytes.len()) ==> ((self.cell)(a) == #[trigger] (old.cell)(a) || ((
            old.cell)(a) == Err::<u8, MemoryError>(MemoryError::Uninit) && (self.cell)(a) == Ok::<
                u8,
                MemoryError,
            >(0u8)))
        &&& forall|a: u32| #[trigger] (self.writable)(a) == (old.writable)(a)
    }
}

/// A byte-addressed, little-endian store over a 32-bit address space.
pub trait Memory: Sized {
    spec fn mem(&self) -> MemView;

    fn read_u32(&self, addr: u32) -> (r: MemoryResult<u32>)
        ensures
            r == self.mem().read_u32(addr),
    ;

    fn read_u16(&self, addr: u32) -> (r: MemoryResult<u16>)
        ensures
            r == self.mem().read_u16(addr),
    ;

    fn read_u8(&self, addr: u32) -> (r: MemoryResult<u8>)
        ensures
            r == (self.mem().cell)(addr),
    ;

    /// Reads up to `len` bytes from `addr`; the result may be shorter than
    /// asked, as a backend may not hold the range in one piece.
    fn read_slice(&self, addr: u32, len: u32) -> (r: MemoryResult<&[u8]>)
        ensures
            r is Err <==> (self.mem().cell)(addr) is Err,
            r is Err ==> r->Err_0 == (self.mem().cell)(addr)->Err_0,
            r is Ok ==> self.mem().slice_matches(addr, len, r->Ok_0@),
    ;

    fn write_u32(&mut self, addr: u32, v: u32) -> (r: MemoryResult<()>)
        ensures
            r == old(self).mem().write_check(addr, 4),
            r is Err ==> *final(self) == *old(self),
            r is Ok ==> final(self).mem().stored(old(self).mem(), addr, bytes32(v)),
    ;

    fn write_u16(&mut self, addr: u32, v: u16) -> (r: MemoryResult<()>)
        ensures
            r == old(self).mem().write_check(addr, 2),
            r is Err ==> *final(self) == *old(self),
            r is Ok ==> final(self).mem().stored(old(self).mem(), addr, bytes16(v)),
    ;

    fn write_u8(&mut self, addr: u32, v: u8) -> (r: MemoryResult<()>)
        ensures
            r == old(self).mem().write_check(addr, 1),
            r is Err ==> *final(self) == *old(self),
            r is Ok ==> final(self).mem().stored(old(self).mem(), addr, bytes8(v)),
    ;
}

/// The little-endian halfword made of two bytes.
pub fn le_u16(b0: u8, b1: u8) -> (r: u16)
    ensures
        r == le16(b0, b1),
{
    (b0 as u16) | ((b1 as u16) << 8u16)
}

/// The little-endian word made of four bytes.
pub fn le_u32(b0: u8, b1: u8, b2: u8, b3: u8) -> (r: u32)
    ensures
        r == le32(b0, b1, b2, b3),
{
    (b0 as u32) | ((b1 as u32) << 8u32) | ((b2 as u32) << 16u32) | ((b3 as u32) << 24u32)
}

/// Byte `k` of `v`, counted from the least significant.
pub fn byte_at(v: u32, k: u32) -> (r: u8)
    requires
        k < 4,
    ensures
        r == byte_of(v, k),
{
    ((v >> (8 * k)) & 0xff) as u8
}

/// The view of a flat region of bytes: in-range addresses read their byte,
/// the others fail `OutOfBounds`.
pub open spec fn flat_view(s: Seq<u8>) -> MemView {
    MemView {
        cell: |a: u32|
            if (a as int) < s.len() {
                Ok(s[a as int])
            } else {
                Err(MemoryError::OutOfBounds)
            },
        writable: |a: u32| (a as int) < s.len(),
    }
}

/// A flat region: one contiguous run of bytes from address zero.
impl Memory for Vec<u8> {
    open spec fn mem(&self) -> MemView {
        flat_view(self@)
    }

    fn read_u32(&self, addr: u32) -> (r: MemoryResult<u32>) {
        if addr % 4 != 0 {
            return Err(MemoryError::Unaligned);
        }
        let a = addr as usize;
        if a >= self.len() || self.len() - a < 4 {
            return Err(MemoryError::OutOfBounds);
        }
        Ok(le_u32(self[a], self[a + 1], self[a + 2], self[a + 3]))
    }

    fn read_u16(&self, addr: u32) -> (r: MemoryResult<u16>) {
        if addr % 2 != 0 {
            return Err(MemoryError::Unaligned);
        }
        let a = addr as usize;
        if a >= self.len() || self.len() - a < 2 {
            return Err(MemoryError::OutOfBounds);
        }
        Ok(le_u16(self[a], self[a + 1]))
    }

    fn read_u8(&self, addr: u32) -> (r: MemoryResult<u8>) {
        let a = addr as usize;
        if a >= self.len() {
            return Err(MemoryError::OutOfBounds);
        }
        Ok(self[a])
    }

    fn read_slice(&self, addr: u32, len: u32) -> (r: MemoryResult<&[u8]>)
        ensures
            r is Ok ==> r->Ok_0@ == self@.subrange(
                addr as int,
                addr + vstd::math::min(
                    len as int,
                    vstd::math::min(self@.len() - addr, 0x1_0000_0000 - addr),
                ),
            ),
    {
        let a = addr as usize;
        if a >= self.len() {
            return Err(MemoryError::OutOfBounds);
        }
        let mut n = len as usize;
        if n > self.len() - a {
            n = self.len() - a;
        }
        let room: u64 = 0x1_0000_0000u64 - addr as u64;
        if n as u64 > room {
            n = room as usize;
        }
        let sl = self.as_slice();
        assert(sl@ == self@);
        let end = a + n;
        let out = slice_subrange(sl, a, end);
        assert forall|k: int| 0 <= k < out@.len() implies (self.mem().cell)(
            #[trigger] ((addr + k) as u32),
        ) == Ok::<u8, MemoryError>(out@[k]) by {
            assert(out@[k] == self@[a + k]);
        }
        Ok(out)
    }

    fn write_u32(&mut self, addr: u32, v: u32) -> (r: MemoryResult<()>)
        ensures
            final(self)@.len() == old(self)@.len(),
    {
        if addr % 4 != 0 {
            return Err(MemoryError::Unaligned);
        }
        let a = addr as usize;
        if a >= self.len() || self.len() - a < 4 {
            proof {
                let k: nat = if a >= self.len() { 0 } else { (self.len() - a) as nat };
                assert(!(old(self).mem().writable)((addr + k) as u32));
            }
            return Err(MemoryError::OutOfBounds);
        }
        self.set(a, byte_at(v, 0));
        self.set(a + 1, byte_at(v, 1));
        self.set(a + 2, byte_at(v, 2));
        self.set(a + 3, byte_at(v, 3));
        Ok(())
    }

    fn write_u16(&mut self, addr: u32, v: u16) -> (r: MemoryResult<()>)
        ensures
            final(self)@.len() == old(self)@.len(),
    {
        if addr % 2 != 0 {
            return Err(MemoryError::Unaligned);
        }
        let a = addr as usize;
        if a >= self.len() || self.len() - a < 2 {
            proof {
                let k: nat = if a >= self.len() { 0 } else { (self.len() - a) as nat };
                assert(!(old(self).mem().writable)((addr + k) as u32));
            }
            return Err(MemoryError::OutOfBounds);
        }
        self.set(a, byte_at(v as u32, 0));
        self.set(a + 1, byte_at(v as u32, 1));
        Ok(())
    }

    fn write_u8(&mut self, addr: u32, v: u8) -> (r: MemoryResult<()>)
        ensures
            final(self)@.len() == old(self)@.len(),
    {
        let a = addr as usize;
        if a >= self.len() {
            assert(!(old(self).mem().writable)((addr + 0nat) as u32));
            return Err(MemoryError::OutOfBounds);
        }
        self.set(a, v);
        Ok(())
    }
}

/// A word's four bytes put back together give the word.
pub proof fn lemma_le32_bytes(v: u32)
    ensures
        le32(byte_of(v, 0), byte_of(v, 1), byte_of(v, 2), byte_of(v, 3)) == v,
{
    assert(((((v >> 0u32) & 0xff) as u8 as u32) | ((((v >> 8u32) & 0xff) as u8 as u32) << 8u32) | ((((
    v >> 16u32) & 0xff) as u8 as u32) << 16u32) | ((((v >> 24u32) & 0xff) as u8 as u32) << 24u32))
        == v) by (bit_vector);
}

/// A halfword's two bytes put back together give the halfword.
pub proof fn lemma_le16_bytes(v: u16)
    ensures
        le16(byte_of(v as u32, 0), byte_of(v as u32, 1)) == v,
{
    assert((((((v as u32) >> 0u32) & 0xff) as u8 as u16) | (((((v as u32) >> 8u32) & 0xff) as u8
        as u16) << 8u16)) == v) by (bit_vector);
}

/// After a successful word write at `addr`, a word read of `addr` returns
/// the word written.
pub proof fn lemma_write_read_u32(old: MemView, new: MemView, addr: u32, v: u32)
    requires
        old.write_check(addr, 4) is Ok,
        new.stored(old, addr, bytes32(v)),
    ensures
        new.read_u32(addr) == Ok::<u32, MemoryError>(v),
{
    assert((new.cell)((addr + 0int) as u32) == Ok::<u8, MemoryError>(bytes32(v)[0]));
    assert((new.cell)((addr + 1int) as u32) == Ok::<u8, MemoryError>(bytes32(v)[1]));
    assert((new.cell)((addr + 2int) as u32) == Ok::<u8, MemoryError>(bytes32(v)[2]));
    assert((new.cell)((addr + 3int) as u32) == Ok::<u8, MemoryError>(bytes32(v)[3]));
    lemma_le32_bytes(v);
}

/// After a successful halfword write at `addr`, a halfword read of `addr`
/// returns the halfword written.
pub proof fn lemma_write_read_u16(old: MemView, new: MemView, addr: u32, v: u16)
    requires
        old.write_check(addr, 2) is Ok,
        new.stored(old, addr, bytes16(v)),
    ensures
        new.read_u16(addr) == Ok::<u16, MemoryError>(v),
{
    assert((new.cell)((addr + 0int) as u32) == Ok::<u8, MemoryError>(bytes16(v)[0]));
    assert((new.cell)((addr + 1int) as u32) == Ok::<u8, MemoryError>(bytes16(v)[1]));
    lemma_le16_bytes(v);
}

/// After a successful byte write at `addr`, a byte read of `addr` returns the
/// byte written.
pub proof fn lemma_write_read_u8(old: MemView, new: MemView, addr: u32, v: u8)
    requires
        old.write_check(addr, 1) is Ok,
        new.stored(old, addr, bytes8(v)),
    ensures
        (new.cell)(addr) == Ok::<u8, MemoryError>(v),
{
    assert((new.cell)((addr + 0int) as u32) == Ok::<u8, MemoryError>(bytes8(v)[0]));
}

/// An access whose address is not a multiple of its width fails `Unaligned`,
/// whatever the memory holds.
pub proof fn lemma_unaligned(m: MemView, addr: u32)
    ensures
        addr % 4 != 0 ==> m.read_u32(addr) == Err::<u32, MemoryError>(MemoryError::Unaligned)
            && m.write_check(addr, 4) == Err::<(), MemoryError>(MemoryError::Unaligned),
        addr % 2 != 0 ==> m.read_u16(addr) == Err::<u16, MemoryError>(MemoryError::Unaligned)
            && m.write_check(addr, 2) == Err::<(), MemoryError>(MemoryError::Unaligned),
{
}

/// Flat memory never fails `Uninit`: an address in range reads its byte, and
/// any access beyond the region fails `OutOfBounds`.
pub proof fn lemma_flat_bounds(s: Seq<u8>, addr: u32)
    ensures
        (addr as int) < s.len() ==> (flat_view(s).cell)(addr) == Ok::<u8, MemoryError>(
            s[addr as int],
        ),
        (addr as int) >= s.len() ==> (flat_view(s).cell)(addr) == Err::<u8, MemoryError>(
            MemoryError::OutOfBounds,
        ),
        (flat_view(s).cell)(addr) != Err::<u8, MemoryError>(MemoryError::Uninit),
        addr % 4 == 0 && addr + 4 <= s.len() ==> flat_view(s).read_u32(addr) is Ok,
        addr % 4 == 0 && (addr as int) >= s.len() ==> flat_view(s).read_u32(addr) == Err::<
            u32,
            MemoryError,
        >(MemoryError::OutOfBounds),
        (addr as int) >= s.len() ==> flat_view(s).write_check(addr, 1) == Err::<(), MemoryError>(
            MemoryError::OutOfBounds,
        ),
{
    if (addr as int) >= s.len() {
        assert(!(flat_view(s).writable)((addr + 0nat) as u32));
    }
}

} // verus!
