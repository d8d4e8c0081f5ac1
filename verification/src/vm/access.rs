//! Loads, stores, and the handlers that make and free memory or push an
//! address.

use crate::error::Error;
use crate::vm::mem::{
    read_word, words_for, write_word, zeros, Block, Place, Region, Width, BLOCK_SPAN,
    GLOBAL_START, HEAP_START, MAX_BLOCKS, MAX_BLOCK_BYTES, REGION_SPAN, STACK_START,
};
use crate::vm::{blocks_view, MemBlock, R0Vm};
use vstd::prelude::*;

verus! {

/// The region that an access falls into, as the machine holds it.
#[derive(Clone, Copy)]
pub enum Area {
    Stack,
    Heap(usize),
    Global(usize),
}

impl View for Area {
    type V = Region;

    open spec fn view(&self) -> Region {
        match self {
            Area::Stack => Region::Stack,
            Area::Heap(id) => Region::Heap(*id as int),
            Area::Global(id) => Region::Global(*id as int),
        }
    }
}

/// A place in memory, as the machine holds it.
#[derive(Clone, Copy)]
pub struct Spot {
    pub area: Area,
    pub word: usize,
    pub shift: u64,
}

impl View for Spot {
    type V = Place;

    open spec fn view(&self) -> Place {
        Place { region: self.area@, word: self.word as int, shift: self.shift }
    }
}

impl<'src> R0Vm<'src> {
    /// The region that an access of `width` at `addr` falls into, if it lies
    /// within live memory that may be accessed so, and its offset there.
    fn region_of(&self, addr: u64, width: Width, write: bool) -> (r: Option<(Area, u64)>)
        requires
            self.wf(),
        ensures
            match self@.region_of(addr, width, write) {
                Some((region, off)) => r matches Some((a, o)) && a@ == region && o == off,
                None => r is None,
            },
    {
        let tag = addr / REGION_SPAN;
        let rest = addr % REGION_SPAN;
        let id = (rest / BLOCK_SPAN) as usize;
        let off = rest % BLOCK_SPAN;
        if tag == 1 {
            if rest / 8 < self.stack.len() as u64 && rest + width.bytes() <= 8
                * self.stack.len() as u64 {
                Some((Area::Stack, rest))
            } else {
                None
            }
        } else if tag == 2 {
            if id < self.heap.len() && self.heap[id].live && off + width.bytes()
                <= self.heap[id].len as u64 {
                Some((Area::Heap(id), off))
            } else {
                None
            }
        } else if tag == 3 {
            if id < self.globals.len() && (self.globals[id].writable || !write) && off
                + width.bytes() <= self.globals[id].len as u64 {
                Some((Area::Global(id), off))
            } else {
                None
            }
        } else {
            None
        }
    }

    /// Grants or refuses an access of `width` at `addr`.
    fn locate(&self, addr: u64, width: Width, write: bool) -> (r: Result<Spot, Error>)
        requires
            self.wf(),
        ensures
            match self@.locate(addr, width, write) {
                Ok(place) => r matches Ok(spot) && spot@ == place && 0 <= place.word
                    < self@.words(place.region).len() && place.shift < 64,
                Err(e) => r == Err::<Spot, Error>(e),
            },
    {
        match self.region_of(addr, width, write) {
            None => Err(Error::InvalidAddress(addr)),
            Some((area, off)) => {
                if off % width.bytes() != 0 {
                    Err(Error::UnalignedAccess(addr))
                } else {
                    Ok(Spot { area, word: (off / 8) as usize, shift: 8 * (off % 8) })
                }
            },
        }
    }

    /// Reads `width` bits at `addr`, zero-extended. An address outside live
    /// memory is refused as `InvalidAddress`, an unaligned one within it as
    /// `UnalignedAccess`.
    pub fn access_mem_get(&self, addr: u64, width: Width) -> (r: Result<u64, Error>)
        requires
            self.wf(),
        ensures
            r == self@.read(addr, width),
    {
        let spot = self.locate(addr, width, false)?;
        let word = match spot.area {
            Area::Stack => self.stack[spot.word],
            Area::Heap(id) => self.heap[id].words[spot.word],
            Area::Global(id) => self.globals[id].words[spot.word],
        };
        Ok(read_word(word, spot.shift, width))
    }

    /// Writes the low `width` bits of `val` at `addr`. Besides what a load
    /// refuses, a store to a global that is constant is refused as
    /// `InvalidAddress`.
    pub fn access_mem_set(&mut self, addr: u64, width: Width, val: u64) -> (r: Result<(), Error>)
        requires
            old(self).wf(),
        ensures
            final(self).wf(),
            final(self)@ == old(self)@.write(addr, width, val).0,
            r == old(self)@.write(addr, width, val).1,
    {
        let spot = self.locate(addr, width, true)?;
        match spot.area {
            Area::Stack => {
                let word = write_word(self.stack[spot.word], spot.shift, width, val);
                self.stack[spot.word] = word;
            },
            Area::Heap(id) => {
                let word = write_word(self.heap[id].words[spot.word], spot.shift, width, val);
                self.heap[id].words[spot.word] = word;
                assert(blocks_view(self.heap@) =~= blocks_view(old(self).heap@).update(
                    id as int,
                    Block {
                        words: old(self).heap@[id as int].words@.update(spot.word as int, word),
                        ..old(self).heap@[id as int]@
                    },
                ));
            },
            Area::Global(id) => {
                let word = write_word(self.globals[id].words[spot.word], spot.shift, width, val);
                self.globals[id].words[spot.word] = word;
                assert(blocks_view(self.globals@) =~= blocks_view(old(self).globals@).update(
                    id as int,
                    Block {
                        words: old(self).globals@[id as int].words@.update(
                            spot.word as int,
                            word,
                        ),
                        ..old(self).globals@[id as int]@
                    },
                ));
            },
        }
        Ok(())
    }

    /// Pops an address and pushes what a load of `width` reads there.
    pub fn load_t(&mut self, width: Width) -> (r: Result<(), Error>)
        requires
            old(self).wf(),
        ensures
            final(self).wf(),
            final(self)@ == old(self)@.load(width).0,
            r == old(self)@.load(width).1,
    {
        let addr = self.pop()?;
        let res = self.access_mem_get(addr, width)?;
        self.push(res)
    }

    /// Pops an address and pushes the byte there.
    pub fn load8(&mut self) -> (r: Result<(), Error>)
        requires
            old(self).wf(),
        ensures
            final(self).wf(),
            final(self)@ == old(self)@.load(Width::W8).0,
            r == old(self)@.load(Width::W8).1,
    {
        self.load_t(Width::W8)
    }

    /// Pops an address and pushes the 16 bits there.
    pub fn load16(&mut self) -> (r: Result<(), Error>)
        requires
            old(self).wf(),
        ensures
            final(self).wf(),
            final(self)@ == old(self)@.load(Width::W16).0,
            r == old(self)@.load(Width::W16).1,
    {
        self.load_t(Width::W16)
    }

    /// Pops an address and pushes the 32 bits there.
    pub fn load32(&mut self) -> (r: Result<(), Error>)
        requires
            old(self).wf(),
        ensures
            final(self).wf(),
            final(self)@ == old(self)@.load(Width::W32).0,
            r == old(self)@.load(Width::W32).1,
    {
        self.load_t(Width::W32)
    }

    /// Pops an address and pushes the slot there.
    pub fn load64(&mut self) -> (r: Result<(), Error>)
        requires
            old(self).wf(),
        ensures
            final(self).wf(),
            final(self)@ == old(self)@.load(Width::W64).0,
            r == old(self)@.load(Width::W64).1,
    {
        self.load_t(Width::W64)
    }

    /// Pops a value, then an address, and stores the low `width` bits of the
    /// value there.
    pub fn store_t(&mut self, width: Width) -> (r: Result<(), Error>)
        requires
            old(self).wf(),
        ensures
            final(self).wf(),
            final(self)@ == old(self)@.store(width).0,
            r == old(self)@.store(width).1,
    {
        let t = self.pop()?;
        let addr = self.pop()?;
        self.access_mem_set(addr, width, t)
    }

    /// Pops a value, then an address, and stores the low byte of the value.
    pub fn store8(&mut self) -> (r: Result<(), Error>)
        requires
            old(self).wf(),
        ensures
            final(self).wf(),
            final(self)@ == old(self)@.store(Width::W8).0,
            r == old(self)@.store(Width::W8).1,
    {
        self.store_t(Width::W8)
    }

    /// Pops a value, then an address, and stores the low 16 bits of the
    /// value.
    pub fn store16(&mut self) -> (r: Result<(), Error>)
        requires
            old(self).wf(),
        ensures
            final(self).wf(),
            final(self)@ == old(self)@.store(Width::W16).0,
            r == old(self)@.store(Width::W16).1,
    {
        self.store_t(Width::W16)
    }

    /// Pops a value, then an address, and stores the low 32 bits of the
    /// value.
    pub fn store32(&mut self) -> (r: Result<(), Error>)
        requires
            old(self).wf(),
        ensures
            final(self).wf(),
            final(self)@ == old(self)@.store(Width::W32).0,
            r == old(self)@.store(Width::W32).1,
    {
        self.store_t(Width::W32)
    }

    /// Pops a value, then an address, and stores the value.
    pub fn store64(&mut self) -> (r: Result<(), Error>)
        requires
            old(self).wf(),
        ensures
            final(self).wf(),
            final(self)@ == old(self)@.store(Width::W64).0,
            r == old(self)@.store(Width::W64).1,
    {
        self.store_t(Width::W64)
    }

    /// Pops a size in bytes and pushes the address of a fresh block of that
    /// size, aligned to eight bytes and filled with zeros. A size beyond
    /// what a block can hold, or a heap that has used up its ids, gives
    /// `OutOfMemory`.
    pub fn allocate(&mut self) -> (r: Result<(), Error>)
        requires
            old(self).wf(),
        ensures
            final(self).wf(),
            final(self)@ == old(self)@.allocate().0,
            r == old(self)@.allocate().1,
    {
        let len = self.pop()?;
        if len > MAX_BLOCK_BYTES as u64 || self.heap.len() >= MAX_BLOCKS {
            return Err(Error::OutOfMemory);
        }
        let ghost mid = self@;
        let id = self.heap.len();
        let len = len as usize;
        let words = vec![0u64; (len + 7) / 8];
        assert(words@ =~= zeros(words_for(len as nat)));
        self.heap.push(MemBlock { words, len, live: true, writable: true });
        assert(blocks_view(self.heap@) =~= mid.heap.push(
            Block { words: zeros(words_for(len as nat)), len: len as nat, live: true, writable: true },
        ));
        self.push(HEAP_START + id as u64 * BLOCK_SPAN)
    }

    /// Pops an address and frees the heap block that starts there. Any other
    /// address, that of a block already freed among them, is refused as
    /// `InvalidAddress`.
    pub fn free(&mut self) -> (r: Result<(), Error>)
        requires
            old(self).wf(),
        ensures
            final(self).wf(),
            final(self)@ == old(self)@.free().0,
            r == old(self)@.free().1,
    {
        let addr = self.pop()?;
        let id = ((addr % REGION_SPAN) / BLOCK_SPAN) as usize;
        if addr / REGION_SPAN == 2 && addr % BLOCK_SPAN == 0 && id < self.heap.len()
            && self.heap[id].live {
            let ghost mid = self@;
            self.heap[id].live = false;
            self.heap[id].words = Vec::new();
            assert(blocks_view(self.heap@) =~= mid.heap.update(
                id as int,
                Block { words: Seq::empty(), live: false, ..mid.heap[id as int] },
            ));
            Ok(())
        } else {
            Err(Error::InvalidAddress(addr))
        }
    }

    /// Pushes the address of local `a` of the running function.
    pub fn loc_a(&mut self, a: u32) -> (r: Result<(), Error>)
        requires
            old(self).wf(),
        ensures
            final(self).wf(),
            final(self)@ == old(self)@.loc_a(a).0,
            r == old(self)@.loc_a(a).1,
    {
        let total_loc = self.fn_info.loc_slots;
        if a >= total_loc {
            return Err(Error::InvalidLocalIndex(a));
        }
        let slot = self.bp - total_loc as usize + a as usize;
        self.push(STACK_START + 8 * slot as u64)
    }

    /// Pushes the address of argument `a` of the running function.
    pub fn arg_a(&mut self, a: u32) -> (r: Result<(), Error>)
        requires
            old(self).wf(),
        ensures
            final(self).wf(),
            final(self)@ == old(self)@.arg_a(a).0,
            r == old(self)@.arg_a(a).1,
    {
        let total_loc = self.fn_info.loc_slots;
        let total_arg = self.fn_info.param_slots;
        if a >= total_arg {
            return Err(Error::InvalidLocalIndex(a));
        }
        let slot = self.bp - total_loc as usize - total_arg as usize + a as usize;
        self.push(STACK_START + 8 * slot as u64)
    }

    /// Pushes the address of global `a`.
    pub fn glob_a(&mut self, a: u32) -> (r: Result<(), Error>)
        requires
            old(self).wf(),
        ensures
            final(self).wf(),
            final(self)@ == old(self)@.glob_a(a).0,
            r == old(self)@.glob_a(a).1,
    {
        if a as usize >= self.globals.len() {
            return Err(Error::InvalidGlobalIndex(a));
        }
        self.push(GLOBAL_START + a as u64 * BLOCK_SPAN)
    }
}

} // verus!
