//! Virtio block driver support: DMA regions and device registers.
use vstd::prelude::*;

verus! {

/// Size of a page, in bytes.
pub const PAGE_SIZE: usize = 0x1000;

/// Errors of the virtio driver's DMA support.
#[derive(Clone, Copy, Debug, PartialEq, Eq, Structural)]
pub enum Error {
    /// No DMA memory could be had.
    DmaError,
}

/// A region of physically contiguous memory for DMA: its physical address
/// and its size in pages.
pub struct DMA {
    paddr: u32,
    pages: u32,
}

impl DMA {
    /// The physical address, as kept (32 bits).
    pub closed spec fn spec_paddr(&self) -> u32 {
        self.paddr
    }

    /// The size in pages, as kept (32 bits).
    pub closed spec fn spec_pages(&self) -> u32 {
        self.pages
    }

    /// The region the allocator gave for `pages` pages at physical address
    /// `paddr`: refused when the allocator gave address 0. Address and page
    /// count are kept in 32 bits.
    pub fn new(paddr: usize, pages: usize) -> (r: Result<Self, Error>)
        ensures
            paddr == 0 ==> r is Err,
            paddr != 0 ==> (r matches Ok(d) && d.spec_paddr() == paddr as u32 && d.spec_pages() == pages as u32),
    {
        if paddr == 0 {
            return Err(Error::DmaError);
        }
        Ok(DMA { paddr: paddr as u32, pages: pages as u32 })
    }

    /// The physical address.
    pub fn paddr(&self) -> (r: usize)
        ensures
            r == self.spec_paddr(),
    {
        self.paddr as usize
    }

    /// The page frame number: the physical address over the page size.
    pub fn pfn(&self) -> (r: u32)
        ensures
            r == self.spec_paddr() >> 12,
            r == self.spec_paddr() / 4096,
    {
        let p = self.paddr;
        assert(p >> 12 == p / 4096) by (bit_vector);
        p >> 12
    }
}

/// Give a DMA region back. The kernel takes all of the driver's memory back
/// when it ends, so nothing is freed and the result is always success.
pub fn virtio_dma_dealloc(_paddr: usize, _pages: usize) -> (r: i32)
    ensures
        r == 0,
{
    0
}

/// A device register holding a `T`.
#[derive(Clone, Copy)]
pub struct Volatile<T: Copy>(pub T);

impl<T: Copy> Volatile<T> {
    pub fn new(value: T) -> (r: Volatile<T>)
        ensures
            r.0 == value,
    {
        Volatile(value)
    }

    /// The register's value.
    pub fn read(&self) -> (r: T)
        ensures
            r == self.0,
    {
        self.0
    }

    /// Set the register's value.
    pub fn write(&mut self, value: T)
        ensures
            final(self).0 == value,
    {
        self.0 = value;
    }
}

/// A register that is only read.
#[derive(Clone, Copy)]
pub struct ReadOnly<T: Copy>(pub Volatile<T>);

impl<T: Copy> ReadOnly<T> {
    pub fn read(&self) -> (r: T)
        ensures
            r == self.0.0,
    {
        self.0.read()
    }
}

/// A register that is only written.
#[derive(Clone, Copy)]
pub struct WriteOnly<T: Copy>(pub Volatile<T>);

impl<T: Copy> WriteOnly<T> {
    pub fn write(&mut self, value: T)
        ensures
            final(self).0.0 == value,
    {
        self.0.write(value);
    }
}

} // verus!
