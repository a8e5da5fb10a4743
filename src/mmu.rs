//! The page table: 256 slots of 256-byte pages, each read-only,
//! write-only or read-write, looked up by the high byte of an address.
use vstd::prelude::*;

verus! {

/// A memory page of 256 bytes handed to the emulator by the host,
/// tagged with what the processor may do with it.
pub enum Memory {
    ReadOnly(Vec<u8>),
    WriteOnly(Vec<u8>),
    ReadWrite(Vec<u8>),
}

/// Maximum number of memory pages.
pub const PAGE_COUNT: usize = 256;

/// Number of bytes in one page.
pub const PAGE_SIZE: usize = 256;

/// Value read from an address whose page is absent or cannot be read.
pub const OPEN_BUS: u8 = 0xff;

/// Array of memory page slots, indexed by the high byte of an address.
pub type PageArray = [Option<Memory>; PAGE_COUNT];

/// Why a page could not be attached.
#[derive(Copy, Clone, Debug, PartialEq, Eq, Structural)]
pub enum ConfigError {
    /// The page index is not below the number of pages.
    PageIndexOutOfRange,
    /// The byte range handed over is not exactly one page long.
    WrongPageSize,
}

impl Memory {
    /// The bytes behind the page, whatever its access tag.
    pub open spec fn bytes(&self) -> Seq<u8> {
        match self {
            Memory::ReadOnly(v) => v@,
            Memory::WriteOnly(v) => v@,
            Memory::ReadWrite(v) => v@,
        }
    }

    pub open spec fn readable(&self) -> bool {
        !(self is WriteOnly)
    }

    pub open spec fn writable(&self) -> bool {
        !(self is ReadOnly)
    }

    /// The page with byte `off` replaced by `v`, tag kept.
    pub open spec fn with_byte(&self, off: int, v: u8) -> Seq<u8> {
        self.bytes().update(off, v)
    }

    /// Length of the page's byte range.
    pub fn len(&self) -> (n: usize)
        ensures
            n == self.bytes().len(),
    {
        match self {
            Memory::ReadOnly(v) => v.len(),
            Memory::WriteOnly(v) => v.len(),
            Memory::ReadWrite(v) => v.len(),
        }
    }
}

/// Page index of an address.
pub open spec fn page_of(addr: u16) -> int {
    addr as int / 256
}

/// Offset of an address within its page.
pub open spec fn offset_of(addr: u16) -> int {
    addr as int % 256
}

/// What a read of `addr` yields from the page slots `pages`.
pub open spec fn read_spec(pages: Seq<Option<Memory>>, addr: u16) -> u8 {
    match pages[page_of(addr)] {
        Some(m) => if m.readable() && m.bytes().len() == PAGE_SIZE {
            m.bytes()[offset_of(addr)]
        } else {
            OPEN_BUS
        },
        None => OPEN_BUS,
    }
}

/// Whether a write of `addr` reaches a page.
pub open spec fn write_lands(pages: Seq<Option<Memory>>, addr: u16) -> bool {
    match pages[page_of(addr)] {
        Some(m) => m.writable() && m.bytes().len() == PAGE_SIZE,
        None => false,
    }
}

/// Whether `addr` lies in a page that can be both written and read.
pub open spec fn rw_at(pages: Seq<Option<Memory>>, addr: u16) -> bool {
    write_lands(pages, addr) && pages[page_of(addr)]->0.readable()
}

/// Relies on array_init::array_init: the array's slot `i` is what the
/// initializer returns for `i`, here always an empty slot.
#[verifier::external_body]
fn empty_slots() -> (r: PageArray)
    ensures
        forall|i: int| 0 <= i < PAGE_COUNT ==> (#[trigger] r@[i]) is None,
{
    array_init::array_init(|_| None)
}

/// The page table: one slot per page of the 16-bit address space.
pub struct PageTable {
    pub pages: PageArray,
}

impl PageTable {
    pub open spec fn view(&self) -> Seq<Option<Memory>> {
        self.pages@
    }

    /// A page table with every page unmapped.
    pub fn new() -> (t: PageTable)
        ensures
            forall|p: int| 0 <= p < PAGE_COUNT ==> (#[trigger] t.view()[p]) is None,
            forall|a: u16| #[trigger] read_spec(t.view(), a) == OPEN_BUS,
    {
        let t = PageTable { pages: empty_slots() };
        assert forall|a: u16| #[trigger] read_spec(t.view(), a) == OPEN_BUS by {
            assert(t.view()[page_of(a)] is None);
        }
        t
    }

    /// Reads the byte at `addr`: the mapped byte when its page is
    /// present and readable, else the open-bus value.
    pub fn read(&self, addr: u16) -> (v: u8)
        ensures
            v == read_spec(self.view(), addr),
    {
        let p: usize = (addr / 256) as usize;
        let off: usize = (addr % 256) as usize;
        match &self.pages[p] {
            Some(m) => {
                if m.len() != PAGE_SIZE {
                    OPEN_BUS
                } else {
                    match m {
                        Memory::ReadOnly(b) => b[off],
                        Memory::ReadWrite(b) => b[off],
                        Memory::WriteOnly(_) => OPEN_BUS,
                    }
                }
            },
            None => OPEN_BUS,
        }
    }

    /// Writes `v` at `addr`; a write to an absent or read-only page is
    /// dropped.
    pub fn write(&mut self, addr: u16, v: u8)
        ensures
            forall|p: int|
                0 <= p < PAGE_COUNT && p != page_of(addr) ==> #[trigger] final(self).view()[p]
                    == old(self).view()[p],
            write_lands(old(self).view(), addr) ==> (final(self).view()[page_of(addr)] matches Some(
                m,
            ) && m.bytes() == old(self).view()[page_of(addr)]->0.with_byte(offset_of(addr), v)
                && m.readable() == old(self).view()[page_of(addr)]->0.readable() && m.writable()),
            !write_lands(old(self).view(), addr) ==> final(self).view() == old(self).view(),
            forall|a: u16| a != addr ==> #[trigger] read_spec(final(self).view(), a) == read_spec(
                old(self).view(),
                a,
            ),
            rw_at(old(self).view(), addr) ==> read_spec(final(self).view(), addr) == v,
            forall|a: u16| rw_at(old(self).view(), a) ==> #[trigger] rw_at(final(self).view(), a),
    {
        let p: usize = (addr / 256) as usize;
        let off: usize = (addr % 256) as usize;
        let mut slot: Option<Memory> = None;
        core::mem::swap(&mut self.pages[p], &mut slot);
        let slot = match slot {
            Some(Memory::WriteOnly(mut b)) => {
                if b.len() == PAGE_SIZE {
                    b.set(off, v);
                }
                Some(Memory::WriteOnly(b))
            },
            Some(Memory::ReadWrite(mut b)) => {
                if b.len() == PAGE_SIZE {
                    b.set(off, v);
                }
                Some(Memory::ReadWrite(b))
            },
            other => other,
        };
        self.pages[p] = slot;
        assert forall|a: u16| a != addr implies #[trigger] read_spec(self.view(), a) == read_spec(
            old(self).view(),
            a,
        ) by {
            if page_of(a) == page_of(addr) {
                assert(offset_of(a) != offset_of(addr));
            }
        }
        assert forall|a: u16| rw_at(old(self).view(), a) implies #[trigger] rw_at(self.view(), a) by {
            if page_of(a) == page_of(addr) {
                assert(write_lands(old(self).view(), addr));
            }
        }
    }

    /// Attaches `page` at slot `index`, handing back what that slot held.
    pub fn attach(&mut self, index: usize, page: Memory) -> (r: Result<Option<Memory>, ConfigError>)
        ensures
            index >= PAGE_COUNT ==> r == Err::<Option<Memory>, ConfigError>(
                ConfigError::PageIndexOutOfRange,
            ) && final(self).view() == old(self).view(),
            index < PAGE_COUNT && page.bytes().len() != PAGE_SIZE ==> r == Err::<
                Option<Memory>,
                ConfigError,
            >(ConfigError::WrongPageSize) && final(self).view() == old(self).view(),
            index < PAGE_COUNT && page.bytes().len() == PAGE_SIZE ==> (r matches Ok(prev) && prev
                == old(self).view()[index as int] && final(self).view() == old(self).view().update(
                index as int,
                Some(page),
            )),
    {
        if index >= PAGE_COUNT {
            return Err(ConfigError::PageIndexOutOfRange);
        }
        if page.len() != PAGE_SIZE {
            return Err(ConfigError::WrongPageSize);
        }
        let mut slot: Option<Memory> = Some(page);
        core::mem::swap(&mut self.pages[index], &mut slot);
        Ok(slot)
    }

    /// Empties slot `index`, handing its page back to the host.
    pub fn detach(&mut self, index: usize) -> (r: Result<Option<Memory>, ConfigError>)
        ensures
            index >= PAGE_COUNT ==> r == Err::<Option<Memory>, ConfigError>(
                ConfigError::PageIndexOutOfRange,
            ) && final(self).view() == old(self).view(),
            index < PAGE_COUNT ==> (r matches Ok(prev) && prev == old(self).view()[index as int]
                && final(self).view() == old(self).view().update(index as int, None)),
    {
        if index >= PAGE_COUNT {
            return Err(ConfigError::PageIndexOutOfRange);
        }
        let mut slot: Option<Memory> = None;
        core::mem::swap(&mut self.pages[index], &mut slot);
        Ok(slot)
    }
}

/// After a readable page of 256 bytes is attached, every address in it
/// reads as the byte at its offset.
pub proof fn lemma_read_after_attach(pages: Seq<Option<Memory>>, m: Memory, addr: u16)
    requires
        pages.len() == PAGE_COUNT,
        m.readable(),
        m.bytes().len() == PAGE_SIZE,
    ensures
        read_spec(pages.update(page_of(addr), Some(m)), addr) == m.bytes()[offset_of(addr)],
{
}

/// An address whose page is absent reads as the open-bus value, the
/// same on every read.
pub proof fn lemma_unmapped_reads_open_bus(pages: Seq<Option<Memory>>, addr: u16)
    requires
        pages.len() == PAGE_COUNT,
        pages[page_of(addr)] is None,
    ensures
        read_spec(pages, addr) == OPEN_BUS,
{
}

} // verus!
