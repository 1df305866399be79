use vstd::prelude::*;

use crate::btreemem::{sparse_view, BTreeMemory};
use crate::memory::{bytes16, bytes32, bytes8, flat_view, MemView, Memory, MemoryError, MemoryResult};

verus! {

/// The view of split memory: addresses below the image's length read the
/// image, the others the sparse region.
pub open spec fn split_view(image: Seq<u8>, data: Map<u32, Seq<u8>>) -> MemView {
    MemView {
        cell: |a: u32|
            if (a as int) < image.len() {
                Ok(image[a as int])
            } else {
                (sparse_view(data).cell)(a)
            },
        writable: |a: u32| true,
    }
}

/// A write that lands in the image leaves the sparse region alone.
proof fn lemma_image_write(
    old_img: Seq<u8>,
    new_img: Seq<u8>,
    data: Map<u32, Seq<u8>>,
    addr: u32,
    bytes: Seq<u8>,
)
    requires
        flat_view(new_img).stored(flat_view(old_img), addr, bytes),
        new_img.len() == old_img.len(),
    ensures
        split_view(new_img, data).stored(split_view(old_img, data), addr, bytes),
{
    let o = split_view(old_img, data);
    let n = split_view(new_img, data);
    assert forall|k: int| 0 <= k < bytes.len() implies (n.cell)(#[trigger] ((addr + k) as u32))
        == Ok::<u8, MemoryError>(bytes[k]) by {
        assert((flat_view(new_img).cell)((addr + k) as u32) == Ok::<u8, MemoryError>(bytes[k]));
    }
    assert forall|a: u32| !(addr <= a < addr + bytes.len()) implies ((n.cell)(a) == #[trigger] (
    o.cell)(a) || ((o.cell)(a) == Err::<u8, MemoryError>(MemoryError::Uninit) && (n.cell)(a) == Ok::<
        u8,
        MemoryError,
    >(0u8))) by {
        assert((flat_view(new_img).cell)(a) == (flat_view(old_img).cell)(a) || (
        flat_view(old_img).cell)(a) == Err::<u8, MemoryError>(MemoryError::Uninit));
    }
}

/// A write above the image leaves the image alone.
proof fn lemma_data_write(
    img: Seq<u8>,
    old_d: Map<u32, Seq<u8>>,
    new_d: Map<u32, Seq<u8>>,
    addr: u32,
    bytes: Seq<u8>,
)
    requires
        sparse_view(new_d).stored(sparse_view(old_d), addr, bytes),
        img.len() <= addr,
        addr + bytes.len() <= 0x1_0000_0000,
    ensures
        split_view(img, new_d).stored(split_view(img, old_d), addr, bytes),
{
    let o = split_view(img, old_d);
    let n = split_view(img, new_d);
    assert forall|k: int| 0 <= k < bytes.len() implies (n.cell)(#[trigger] ((addr + k) as u32))
        == Ok::<u8, MemoryError>(bytes[k]) by {
        assert((sparse_view(new_d).cell)((addr + k) as u32) == Ok::<u8, MemoryError>(bytes[k]));
    }
    assert forall|a: u32| !(addr <= a < addr + bytes.len()) implies ((n.cell)(a) == #[trigger] (
    o.cell)(a) || ((o.cell)(a) == Err::<u8, MemoryError>(MemoryError::Uninit) && (n.cell)(a) == Ok::<
        u8,
        MemoryError,
    >(0u8))) by {
        assert((sparse_view(new_d).cell)(a) == (sparse_view(old_d).cell)(a) || ((sparse_view(
            old_d,
        ).cell)(a) == Err::<u8, MemoryError>(MemoryError::Uninit) && (sparse_view(new_d).cell)(a)
            == Ok::<u8, MemoryError>(0u8)));
    }
}

/// A loaded image at the bottom of the address space, with sparse memory
/// above it for everything else.
pub struct SplitMemory {
    object: Vec<u8>,
    data: BTreeMemory,
}

impl View for SplitMemory {
    type V = (Seq<u8>, Map<u32, Seq<u8>>);

    /// The image, and the blocks of the region above it written so far.
    closed spec fn view(&self) -> (Seq<u8>, Map<u32, Seq<u8>>) {
        (self.object@, self.data@)
    }
}

impl SplitMemory {
    #[verifier::type_invariant]
    spec fn inv(&self) -> bool {
        self.object@.len() % 4 == 0
    }

    /// Split memory over `object`; fails `Unaligned` unless its length is a
    /// multiple of four.
    pub fn new(object: Vec<u8>) -> (r: MemoryResult<Self>)
        ensures
            r is Ok <==> object@.len() % 4 == 0,
            r is Err ==> r == Err::<Self, MemoryError>(MemoryError::Unaligned),
            r is Ok ==> r->Ok_0@ == (object@, Map::<u32, Seq<u8>>::empty()),
    {
        if object.len() % 4 != 0 {
            Err(MemoryError::Unaligned)
        } else {
            Ok(SplitMemory { object, data: BTreeMemory::new() })
        }
    }
}

impl Memory for SplitMemory {
    open spec fn mem(&self) -> MemView {
        split_view(self@.0, self@.1)
    }

    fn read_u32(&self, addr: u32) -> (r: MemoryResult<u32>) {
        proof {
            use_type_invariant(self);
        }
        if (addr as usize) < self.object.len() {
            self.object.read_u32(addr)
        } else {
            self.data.read_u32(addr)
        }
    }

    fn read_u16(&self, addr: u32) -> (r: MemoryResult<u16>) {
        proof {
            use_type_invariant(self);
        }
        if (addr as usize) < self.object.len() {
            self.object.read_u16(addr)
        } else {
            self.data.read_u16(addr)
        }
    }

    fn read_u8(&self, addr: u32) -> (r: MemoryResult<u8>) {
        if (addr as usize) < self.object.len() {
            Ok(self.object[addr as usize])
        } else {
            self.data.read_u8(addr)
        }
    }

    fn read_slice(&self, addr: u32, len: u32) -> (r: MemoryResult<&[u8]>)
        ensures
            r is Ok && (addr as int) < self@.0.len() ==> r->Ok_0@ == self@.0.subrange(
                addr as int,
                addr + vstd::math::min(
                    len as int,
                    vstd::math::min(self@.0.len() - addr, 0x1_0000_0000 - addr),
                ),
            ),
            r is Ok && (addr as int) >= self@.0.len() ==> r->Ok_0@ == self@.1[addr / 4096].subrange(
                (addr % 4096) as int,
                addr % 4096 + vstd::math::min(len as int, 4096 - addr % 4096),
            ),
    {
        if (addr as usize) < self.object.len() {
            self.object.read_slice(addr, len)
        } else {
            self.data.read_slice(addr, len)
        }
    }

    fn write_u32(&mut self, addr: u32, v: u32) -> (r: MemoryResult<()>) {
        proof {
            use_type_invariant(&*self);
        }
        if (addr as usize) < self.object.len() {
            let mut image = Vec::new();
            std::mem::swap(&mut self.object, &mut image);
            let r = image.write_u32(addr, v);
            proof {
                if r is Ok {
                    lemma_image_write(old(self)@.0, image@, self@.1, addr, bytes32(v));
                }
            }
            std::mem::swap(&mut self.object, &mut image);
            r
        } else {
            let mut data = BTreeMemory::new();
            std::mem::swap(&mut self.data, &mut data);
            let r = data.write_u32(addr, v);
            proof {
                if r is Ok {
                    lemma_data_write(self@.0, old(self)@.1, data@, addr, bytes32(v));
                }
            }
            std::mem::swap(&mut self.data, &mut data);
            r
        }
    }

    fn write_u16(&mut self, addr: u32, v: u16) -> (r: MemoryResult<()>) {
        proof {
            use_type_invariant(&*self);
        }
        if (addr as usize) < self.object.len() {
            let mut image = Vec::new();
            std::mem::swap(&mut self.object, &mut image);
            let r = image.write_u16(addr, v);
            proof {
                if r is Ok {
                    lemma_image_write(old(self)@.0, image@, self@.1, addr, bytes16(v));
                }
            }
            std::mem::swap(&mut self.object, &mut image);
            r
        } else {
            let mut data = BTreeMemory::new();
            std::mem::swap(&mut self.data, &mut data);
            let r = data.write_u16(addr, v);
            proof {
                if r is Ok {
                    lemma_data_write(self@.0, old(self)@.1, data@, addr, bytes16(v));
                }
            }
            std::mem::swap(&mut self.data, &mut data);
            r
        }
    }

    fn write_u8(&mut self, addr: u32, v: u8) -> (r: MemoryResult<()>) {
        proof {
            use_type_invariant(&*self);
        }
        if (addr as usize) < self.object.len() {
            let mut image = Vec::new();
            std::mem::swap(&mut self.object, &mut image);
            let r = image.write_u8(addr, v);
            proof {
                if r is Ok {
                    lemma_image_write(old(self)@.0, image@, self@.1, addr, bytes8(v));
                }
            }
            std::mem::swap(&mut self.object, &mut image);
            r
        } else {
            let mut data = BTreeMemory::new();
            std::mem::swap(&mut self.data, &mut data);
            let r = data.write_u8(addr, v);
            proof {
                if r is Ok {
                    lemma_data_write(self@.0, old(self)@.1, data@, addr, bytes8(v));
                }
            }
            std::mem::swap(&mut self.data, &mut data);
            r
        }
    }
}

/// With an image of length `L`, address `L - 1` reads the image and address
/// `L` reads the sparse region above it.
pub proof fn lemma_split_boundary(image: Seq<u8>, data: Map<u32, Seq<u8>>)
    requires
        0 < image.len() < 0x1_0000_0000,
    ensures
        (split_view(image, data).cell)((image.len() - 1) as u32) == Ok::<u8, MemoryError>(
            image[image.len() - 1],
        ),
        (split_view(image, data).cell)(image.len() as u32) == (sparse_view(data).cell)(
            image.len() as u32,
        ),
{
}

/// With an image of length `L`, a byte written at `L` lands in the sparse
/// region: it reads back there, and every byte of the image reads as before.
pub proof fn lemma_write_above_image(image: Seq<u8>, data: Map<u32, Seq<u8>>, new: MemView, v: u8)
    requires
        image.len() < 0x1_0000_0000,
        new.stored(split_view(image, data), image.len() as u32, bytes8(v)),
    ensures
        (new.cell)(image.len() as u32) == Ok::<u8, MemoryError>(v),
        forall|a: u32|
            (a as int) < image.len() ==> #[trigger] (new.cell)(a) == Ok::<u8, MemoryError>(
                image[a as int],
            ),
{
    let l = image.len() as u32;
    assert((new.cell)((l + 0int) as u32) == Ok::<u8, MemoryError>(bytes8(v)[0]));
    assert forall|a: u32| (a as int) < image.len() implies #[trigger] (new.cell)(a) == Ok::<
        u8,
        MemoryError,
    >(image[a as int]) by {
        assert((split_view(image, data).cell)(a) == Ok::<u8, MemoryError>(image[a as int]));
    }
}

} // verus!
