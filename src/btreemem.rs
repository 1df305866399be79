use std::collections::BTreeMap;
use vstd::prelude::*;
use vstd::slice::slice_subrange;

use crate::memory::{
    byte_at, bytes16, bytes32, bytes8, le_u16, le_u32, MemView, Memory, MemoryError, MemoryResult,
};

verus! {

/// Bytes in one block of sparse memory.
pub const BLOCK_SIZE: usize = 4096;

const BLOCK_SIZE_LOG_2: u32 = 12;

/// The view of sparse memory whose written blocks are `blocks`: an address
/// reads its byte in block `addr / BLOCK_SIZE`, or fails `Uninit` where that
/// block was never written; every address is writable.
pub open spec fn sparse_view(blocks: Map<u32, Seq<u8>>) -> MemView {
    MemView {
        cell: |a: u32|
            if blocks.contains_key((a / 4096) as u32) {
                Ok(blocks[(a / 4096) as u32][(a % 4096) as int])
            } else {
                Err(MemoryError::Uninit)
            },
        writable: |a: u32| true,
    }
}

/// The block `b` of `blocks` after `bytes` were written at offset `off`; a
/// block never written starts as zeros.
pub open spec fn patched_block(blocks: Map<u32, Seq<u8>>, b: u32, off: int, bytes: Seq<u8>) -> Seq<
    u8,
> {
    let base = if blocks.contains_key(b) {
        blocks[b]
    } else {
        Seq::new(BLOCK_SIZE as nat, |i: int| 0u8)
    };
    Seq::new(
        BLOCK_SIZE as nat,
        |i: int|
            if off <= i < off + bytes.len() {
                bytes[i - off]
            } else {
                base[i]
            },
    )
}

/// Every block written so far holds `BLOCK_SIZE` bytes.
pub open spec fn blocks_full(blocks: Map<u32, Seq<u8>>) -> bool {
    forall|b: u32| #[trigger] blocks.contains_key(b) ==> blocks[b].len() == BLOCK_SIZE
}

/// Sparse memory: the address space in blocks of `BLOCK_SIZE` bytes, of
/// which only those written so far exist.
pub struct BTreeMemory {
    blocks: BTreeMap<u32, [u8; BLOCK_SIZE]>,
}

impl View for BTreeMemory {
    type V = Map<u32, Seq<u8>>;

    /// The blocks written so far, by block number.
    closed spec fn view(&self) -> Map<u32, Seq<u8>> {
        Map::new(|k: u32| self.blocks@.contains_key(k), |k: u32| self.blocks@[k]@)
    }
}

impl BTreeMemory {
    /// Empty sparse memory: no block exists.
    pub fn new() -> (r: Self)
        ensures
            r@ == Map::<u32, Seq<u8>>::empty(),
            blocks_full(r@),
    {
        let r = BTreeMemory { blocks: BTreeMap::new() };
        assert(r@ =~= Map::<u32, Seq<u8>>::empty());
        r
    }

    /// The block number of `a` and its offset inside the block.
    fn split_addr(a: u32) -> (r: (u32, usize))
        ensures
            r.0 == a / 4096,
            r.1 == a % 4096,
    {
        let block = a >> BLOCK_SIZE_LOG_2;
        let word = a & 0xfff;
        assert(a >> 12u32 == a / 4096) by (bit_vector);
        assert(a & 0xfff == a % 4096) by (bit_vector);
        (block, word as usize)
    }

    /// Takes block `b` out of the map, or a zeroed block where none exists.
    fn take_block(&mut self, b: u32) -> (r: [u8; BLOCK_SIZE])
        ensures
            r@ == (if old(self)@.contains_key(b) {
                old(self)@[b]
            } else {
                Seq::new(BLOCK_SIZE as nat, |i: int| 0u8)
            }),
            final(self)@ == old(self)@.remove(b),
    {
        let r = match self.blocks.remove(&b) {
            Some(block) => block,
            None => {
                let z = [0u8; BLOCK_SIZE];
                assert(z@ =~= Seq::new(BLOCK_SIZE as nat, |i: int| 0u8));
                z
            },
        };
        assert(self@ =~= old(self)@.remove(b));
        r
    }

    /// Puts block `b` back into the map.
    fn put_block(&mut self, b: u32, block: [u8; BLOCK_SIZE])
        ensures
            final(self)@ == old(self)@.insert(b, block@),
    {
        self.blocks.insert(b, block);
        assert(self@ =~= old(self)@.insert(b, block@));
    }
}

/// An aligned access of `width` bytes stays inside one block.
proof fn lemma_in_block(a: u32, width: u32, k: u32)
    requires
        width == 1 || width == 2 || width == 4,
        a % width == 0,
        k < width,
    ensures
        ((a + k) as u32) / 4096 == a / 4096,
        ((a + k) as u32) % 4096 == a % 4096 + k,
        a % 4096 + width <= 4096,
{
    assert(a % 4 == 0 && k < 4 ==> ((a + k) as u32) / 4096 == a / 4096 && ((a + k) as u32) % 4096
        == a % 4096 + k && a % 4096 + 4 <= 4096) by (bit_vector);
    assert(a % 2 == 0 && k < 2 ==> ((a + k) as u32) / 4096 == a / 4096 && ((a + k) as u32) % 4096
        == a % 4096 + k && a % 4096 + 2 <= 4096) by (bit_vector);
}

impl Memory for BTreeMemory {
    open spec fn mem(&self) -> MemView {
        sparse_view(self@)
    }

    fn read_u32(&self, addr: u32) -> (r: MemoryResult<u32>) {
        if addr % 4 != 0 {
            return Err(MemoryError::Unaligned);
        }
        let (b, off) = Self::split_addr(addr);
        proof {
            lemma_in_block(addr, 4, 1);
            lemma_in_block(addr, 4, 2);
            lemma_in_block(addr, 4, 3);
        }
        match self.blocks.get(&b) {
            None => Err(MemoryError::Uninit),
            Some(block) => Ok(le_u32(block[off], block[off + 1], block[off + 2], block[off + 3])),
        }
    }

    fn read_u16(&self, addr: u32) -> (r: MemoryResult<u16>) {
        if addr % 2 != 0 {
            return Err(MemoryError::Unaligned);
        }
        let (b, off) = Self::split_addr(addr);
        proof {
            lemma_in_block(addr, 2, 1);
        }
        match self.blocks.get(&b) {
            None => Err(MemoryError::Uninit),
            Some(block) => Ok(le_u16(block[off], block[off + 1])),
        }
    }

    fn read_u8(&self, addr: u32) -> (r: MemoryResult<u8>) {
        let (b, off) = Self::split_addr(addr);
        match self.blocks.get(&b) {
            None => Err(MemoryError::Uninit),
            Some(block) => Ok(block[off]),
        }
    }

    fn read_slice(&self, addr: u32, len: u32) -> (r: MemoryResult<&[u8]>)
        ensures
            blocks_full(self@),
            r is Ok ==> r->Ok_0@ == self@[addr / 4096].subrange(
                (addr % 4096) as int,
                addr % 4096 + vstd::math::min(len as int, 4096 - addr % 4096),
            ),
    {
        let (b, off) = Self::split_addr(addr);
        match self.blocks.get(&b) {
            None => Err(MemoryError::Uninit),
            Some(block) => {
                let end = if BLOCK_SIZE - off < len as usize {
                    BLOCK_SIZE
                } else {
                    off + len as usize
                };
                let sl = block.as_slice();
                let out = slice_subrange(sl, off, end);
                assert(addr + (end - off) <= 0x1_0000_0000) by (bit_vector)
                    requires
                        off == addr % 4096,
                        end <= 4096,
                        off <= end,
                ;
                assert forall|k: int| 0 <= k < out@.len() implies (self.mem().cell)(
                    #[trigger] ((addr + k) as u32),
                ) == Ok::<u8, MemoryError>(out@[k]) by {
                    let kk = k as u32;
                    assert(((addr + kk) as u32) / 4096 == addr / 4096 && ((addr + kk) as u32) % 4096
                        == addr % 4096 + kk) by (bit_vector)
                        requires
                            addr % 4096 + kk < 4096,
                    ;
                }
                Ok(out)
            },
        }
    }

    fn write_u32(&mut self, addr: u32, v: u32) -> (r: MemoryResult<()>)
        ensures
            blocks_full(final(self)@),
            r is Ok ==> final(self)@ == old(self)@.insert(
                (addr / 4096) as u32,
                patched_block(old(self)@, (addr / 4096) as u32, (addr % 4096) as int, bytes32(v)),
            ),
    {
        if addr % 4 != 0 {
            return Err(MemoryError::Unaligned);
        }
        let (b, off) = Self::split_addr(addr);
        proof {
            lemma_in_block(addr, 4, 1);
            lemma_in_block(addr, 4, 2);
            lemma_in_block(addr, 4, 3);
        }
        let ghost pre = self@;
        let mut block = self.take_block(b);
        block[off] = byte_at(v, 0);
        block[off + 1] = byte_at(v, 1);
        block[off + 2] = byte_at(v, 2);
        block[off + 3] = byte_at(v, 3);
        assert(block@ =~= patched_block(pre, b, off as int, bytes32(v)));
        self.put_block(b, block);
        proof {
            assert(self@ == pre.insert(b, block@));
        }
        Ok(())
    }

    fn write_u16(&mut self, addr: u32, v: u16) -> (r: MemoryResult<()>)
        ensures
            blocks_full(final(self)@),
            r is Ok ==> final(self)@ == old(self)@.insert(
                (addr / 4096) as u32,
                patched_block(old(self)@, (addr / 4096) as u32, (addr % 4096) as int, bytes16(v)),
            ),
    {
        if addr % 2 != 0 {
            return Err(MemoryError::Unaligned);
        }
        let (b, off) = Self::split_addr(addr);
        proof {
            lemma_in_block(addr, 2, 1);
        }
        let ghost pre = self@;
        let mut block = self.take_block(b);
        block[off] = byte_at(v as u32, 0);
        block[off + 1] = byte_at(v as u32, 1);
        assert(block@ =~= patched_block(pre, b, off as int, bytes16(v)));
        self.put_block(b, block);
        Ok(())
    }

    fn write_u8(&mut self, addr: u32, v: u8) -> (r: MemoryResult<()>)
        ensures
            blocks_full(final(self)@),
            r is Ok ==> final(self)@ == old(self)@.insert(
                (addr / 4096) as u32,
                patched_block(old(self)@, (addr / 4096) as u32, (addr % 4096) as int, bytes8(v)),
            ),
    {
        let (b, off) = Self::split_addr(addr);
        let ghost pre = self@;
        let mut block = self.take_block(b);
        block[off] = v;
        assert(block@ =~= patched_block(pre, b, off as int, bytes8(v)));
        self.put_block(b, block);
        Ok(())
    }
}

/// In sparse memory, an address whose block was never written fails
/// `Uninit`, for a read of any width; every address can be written.
pub proof fn lemma_unwritten_uninit(blocks: Map<u32, Seq<u8>>, addr: u32)
    requires
        !blocks.contains_key((addr / 4096) as u32),
    ensures
        (sparse_view(blocks).cell)(addr) == Err::<u8, MemoryError>(MemoryError::Uninit),
        addr % 4 == 0 ==> sparse_view(blocks).read_u32(addr) == Err::<u32, MemoryError>(
            MemoryError::Uninit,
        ),
        addr % 2 == 0 ==> sparse_view(blocks).read_u16(addr) == Err::<u16, MemoryError>(
            MemoryError::Uninit,
        ),
        (sparse_view(blocks).writable)(addr),
{
}

} // verus!
