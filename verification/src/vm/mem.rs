//! The address space. A 64-bit address names a byte in one of three regions,
//! told apart by its two high bits: the stack, the heap and the globals. The
//! fourth part, which starts at address 0, is never mapped. Memory is kept in
//! 64-bit words; the bytes of a word count from its low end.

use vstd::prelude::*;

verus! {

/// The size of each of the four parts of the address space.
pub const REGION_SPAN: u64 = 0x4000_0000_0000_0000;

/// The address of byte 0 of stack slot 0.
pub const STACK_START: u64 = 0x4000_0000_0000_0000;

/// The address of byte 0 of heap block 0.
pub const HEAP_START: u64 = 0x8000_0000_0000_0000;

/// The address of byte 0 of global 0.
pub const GLOBAL_START: u64 = 0xc000_0000_0000_0000;

/// The distance between the first bytes of two neighbouring blocks.
pub const BLOCK_SPAN: u64 = 0x1_0000_0000;

/// The most blocks that a region of blocks can name.
pub const MAX_BLOCKS: usize = 0x4000_0000;

/// The most bytes that one block can hold.
pub const MAX_BLOCK_BYTES: usize = 0x4000_0000;

/// The most slots that a stack can be allowed.
pub const MAX_STACK_SLOTS: usize = 0x1000_0000;

/// How many bits an access reads or writes.
#[derive(Debug, PartialEq, Eq, Clone, Copy, Structural)]
pub enum Width {
    W8,
    W16,
    W32,
    W64,
}

impl Width {
    /// The number of bytes of the access.
    pub open spec fn spec_bytes(self) -> u64 {
        match self {
            Width::W8 => 1,
            Width::W16 => 2,
            Width::W32 => 4,
            Width::W64 => 8,
        }
    }

    /// The bits of a value that the access keeps.
    pub open spec fn spec_mask(self) -> u64 {
        match self {
            Width::W8 => 0xff,
            Width::W16 => 0xffff,
            Width::W32 => 0xffff_ffff,
            Width::W64 => 0xffff_ffff_ffff_ffff,
        }
    }

    /// The number of bytes of the access.
    pub fn bytes(self) -> (r: u64)
        ensures
            r == self.spec_bytes(),
    {
        match self {
            Width::W8 => 1,
            Width::W16 => 2,
            Width::W32 => 4,
            Width::W64 => 8,
        }
    }

    /// The bits of a value that the access keeps.
    pub fn mask(self) -> (r: u64)
        ensures
            r == self.spec_mask(),
    {
        match self {
            Width::W8 => 0xff,
            Width::W16 => 0xffff,
            Width::W32 => 0xffff_ffff,
            Width::W64 => 0xffff_ffff_ffff_ffff,
        }
    }
}

/// A block of memory as the contracts see it: a heap allocation or a global.
pub struct Block {
    /// The words that back the block; a freed block has none.
    pub words: Seq<u64>,
    /// The size in bytes that the block was made with.
    pub len: nat,
    /// Whether the block can be accessed. A freed block never is again.
    pub live: bool,
    /// Whether stores to the block are accepted.
    pub writable: bool,
}

impl Block {
    /// A live block has a word for each of its bytes.
    pub open spec fn wf(self) -> bool {
        &&& self.len <= MAX_BLOCK_BYTES
        &&& self.live ==> self.len <= 8 * self.words.len()
    }
}

/// The region that an address falls into, with the block it names there.
pub enum Region {
    Stack,
    Heap(int),
    Global(int),
}

/// A place in memory that an access has been granted: the word, and the
/// number of bits by which the accessed bytes lie above its low end.
pub struct Place {
    pub region: Region,
    pub word: int,
    pub shift: u64,
}

/// The number of words that hold `len` bytes.
pub open spec fn words_for(len: nat) -> nat {
    ((len + 7) / 8) as nat
}

/// `n` slots of zero.
pub open spec fn zeros(n: nat) -> Seq<u64> {
    Seq::new(n, |i: int| 0u64)
}

/// The bits of `word` that an access of the given mask reads at `shift`.
pub open spec fn word_get(word: u64, shift: u64, mask: u64) -> u64 {
    (word >> shift) & mask
}

/// `word` after an access of the given mask has written `val` at `shift`:
/// the bits under the mask are those of `val`, the others stay.
pub open spec fn word_set(word: u64, shift: u64, mask: u64, val: u64) -> u64 {
    (word & !(mask << shift)) | ((val & mask) << shift)
}

/// The place of the byte at `off` in a run of words, for an access that is
/// known to be aligned.
pub open spec fn place_at(region: Region, off: u64) -> Place {
    Place { region, word: (off / 8) as int, shift: (8 * (off % 8)) as u64 }
}

/// The address of byte 0 of a stack slot.
pub open spec fn stack_addr(slot: int) -> u64 {
    (STACK_START + 8 * slot) as u64
}

/// The address of byte 0 of a heap block.
pub open spec fn heap_addr(id: int) -> u64 {
    (HEAP_START + id * BLOCK_SPAN) as u64
}

/// The address of byte 0 of a global.
pub open spec fn global_addr(index: int) -> u64 {
    (GLOBAL_START + index * BLOCK_SPAN) as u64
}

/// Reads the bits of a word that an access names.
pub fn read_word(word: u64, shift: u64, width: Width) -> (r: u64)
    requires
        shift < 64,
    ensures
        r == word_get(word, shift, width.spec_mask()),
{
    (word >> shift) & width.mask()
}

/// Writes the low bits of `val` into the bits of a word that an access names.
pub fn write_word(word: u64, shift: u64, width: Width, val: u64) -> (r: u64)
    requires
        shift < 64,
    ensures
        r == word_set(word, shift, width.spec_mask(), val),
{
    let mask = width.mask();
    (word & !(mask << shift)) | ((val & mask) << shift)
}

/// What a store writes, a load at the same place reads back, cut to the
/// width of the access.
pub proof fn lemma_word_set_get(word: u64, shift: u64, width: Width, val: u64)
    requires
        shift % 8 == 0,
        shift + 8 * width.spec_bytes() <= 64,
    ensures
        word_get(word_set(word, shift, width.spec_mask(), val), shift, width.spec_mask()) == val
            & width.spec_mask(),
{
    let mask = width.spec_mask();
    assert(shift + 8 <= 64 && mask == 0xff || shift + 16 <= 64 && mask == 0xffff || shift + 32
        <= 64 && mask == 0xffff_ffff || shift == 0 && mask == 0xffff_ffff_ffff_ffff);
    assert((((word & !(mask << shift)) | ((val & mask) << shift)) >> shift) & mask == val & mask)
        by (bit_vector)
        requires
            shift + 8 <= 64 && mask == 0xff || shift + 16 <= 64 && mask == 0xffff || shift + 32
                <= 64 && mask == 0xffff_ffff || shift == 0 && mask == 0xffff_ffff_ffff_ffff,
    ;
}

/// A store leaves the bytes of the word that it does not name as they were:
/// a load of one byte elsewhere in the word reads what it read before.
pub proof fn lemma_word_set_keeps(word: u64, shift: u64, width: Width, val: u64, other: u64)
    requires
        shift % 8 == 0,
        shift + 8 * width.spec_bytes() <= 64,
        other % 8 == 0,
        other < 64,
        other < shift || other >= shift + 8 * width.spec_bytes(),
    ensures
        word_get(word_set(word, shift, width.spec_mask(), val), other, 0xff) == word_get(
            word,
            other,
            0xff,
        ),
{
    let mask = width.spec_mask();
    let bits = (8 * width.spec_bytes()) as u64;
    assert(bits == 8 && mask == 0xff || bits == 16 && mask == 0xffff || bits == 32 && mask
        == 0xffff_ffff || bits == 64 && mask == 0xffff_ffff_ffff_ffff);
    assert((((word & !(mask << shift)) | ((val & mask) << shift)) >> other) & 0xff == (word
        >> other) & 0xff) by (bit_vector)
        requires
            bits == 8 && mask == 0xff || bits == 16 && mask == 0xffff || bits == 32 && mask
                == 0xffff_ffff || bits == 64 && mask == 0xffff_ffff_ffff_ffff,
            shift % 8 == 0,
            other % 8 == 0,
            shift + bits <= 64,
            other < 64,
            other < shift || other >= shift + bits,
    ;
}

} // verus!
