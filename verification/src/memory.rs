//! Banked working memory: eight fixed-size storage banks behind an 8 KiB
//! address window. The first half of the window always resolves to bank 0;
//! the second half resolves to the bank chosen through the bank-select
//! control register, which is never bank 0.

use vstd::prelude::*;

verus! {

/// Number of physical storage banks.
pub const BANK_COUNT: usize = 8;

/// Size of one storage bank in bytes.
pub const BANK_SIZE: usize = 0x1000;

/// First address of the working-memory window (inclusive).
pub const WINDOW_START: u16 = 0xc000;

/// First address of the switchable half of the window; everything below it
/// (and at or above `WINDOW_START`) resolves to bank 0.
pub const WINDOW_MID: u16 = 0xd000;

/// First address past the working-memory window (exclusive).
pub const WINDOW_END: u16 = 0xe000;

/// Mask selecting the bank-index bits of the control register.
pub const BANK_SELECT_MASK: u8 = 0x07;

/// The reserved bits of the control register, which always read as 1.
pub const RESERVED_BITS: u8 = 0xf8;

/// Whether `addr` lies inside the working-memory window.
pub open spec fn in_window(addr: u16) -> bool {
    WINDOW_START <= addr && addr < WINDOW_END
}

/// Position, in the flat sequence of all bank bytes (bank 0 first), of the
/// byte that `addr` resolves to when bank `sel` is selected.
pub open spec fn byte_index(sel: int, addr: int) -> int {
    if addr < WINDOW_MID {
        addr - WINDOW_START
    } else {
        sel * (BANK_SIZE as int) + (addr - WINDOW_MID)
    }
}

/// The bank index that a value written to the control register selects:
/// only the low three bits count, and the hardware coerces a selection of
/// bank 0 to bank 1.
pub open spec fn coerce_bank_index(value: u8) -> int {
    if value & BANK_SELECT_MASK == 0 {
        1
    } else {
        (value & BANK_SELECT_MASK) as int
    }
}

/// Working ram: eight banks of `BANK_SIZE` bytes and the selected-bank
/// index, kept in the range 1..=7. The banks are stored back to back, bank
/// 0 first, so bank `b` occupies positions `b * BANK_SIZE` up to
/// `(b + 1) * BANK_SIZE` of `mem()`.
pub struct Wram {
    ram: Vec<u8>,
    selected_bank: usize,
}

impl Wram {
    /// Every bank byte, bank 0 first.
    pub closed spec fn mem(self) -> Seq<u8> {
        self.ram@
    }

    /// The currently selected switchable bank.
    pub closed spec fn sel(self) -> int {
        self.selected_bank as int
    }

    /// Well-formedness: full backing storage, and a selected bank that is
    /// never bank 0 and never past the last bank.
    pub open spec fn wf(self) -> bool {
        &&& self.mem().len() == BANK_COUNT * BANK_SIZE
        &&& 1 <= self.sel() < BANK_COUNT
    }

    /// Create a new working ram: all banks zero-filled, bank 1 selected.
    pub fn new() -> (r: Self)
        ensures
            r.wf(),
            r.sel() == 1,
            forall|i: int| 0 <= i < r.mem().len() ==> r.mem()[i] == 0,
    {
        let total: usize = BANK_COUNT * BANK_SIZE;
        let mut ram: Vec<u8> = Vec::new();
        let mut i: usize = 0;
        while i < total
            invariant
                i <= total,
                ram@.len() == i,
                forall|j: int| 0 <= j < i ==> ram@[j] == 0,
            decreases total - i,
        {
            ram.push(0);
            i = i + 1;
        }
        Wram { ram, selected_bank: 1 }
    }

    /// Read a byte from working ram. `addr` must lie in the window; the
    /// first half of the window reads bank 0, the second half reads the
    /// selected bank.
    pub fn rb(&self, addr: u16) -> (r: u8)
        requires
            self.wf(),
            in_window(addr),
        ensures
            r == self.mem()[byte_index(self.sel(), addr as int)],
    {
        if addr < WINDOW_MID {
            let i: usize = (addr - WINDOW_START) as usize;
            self.ram[i]
        } else {
            let i: usize = self.selected_bank * BANK_SIZE + (addr - WINDOW_MID) as usize;
            self.ram[i]
        }
    }

    /// Write a byte into working ram. `addr` has the same restriction as
    /// `rb`, and resolves to the same byte as a read would: exactly that
    /// byte changes, and the bank selection is untouched.
    pub fn wb(&mut self, addr: u16, value: u8)
        requires
            old(self).wf(),
            in_window(addr),
        ensures
            final(self).wf(),
            final(self).sel() == old(self).sel(),
            final(self).mem() == old(self).mem().update(
                byte_index(old(self).sel(), addr as int),
                value,
            ),
    {
        if addr < WINDOW_MID {
            let i: usize = (addr - WINDOW_START) as usize;
            self.ram.set(i, value);
        } else {
            let i: usize = self.selected_bank * BANK_SIZE + (addr - WINDOW_MID) as usize;
            self.ram.set(i, value);
        }
    }

    /// Read the bank-select (SVBK) control register: the selected bank in
    /// the low three bits, and the reserved bits reading as all 1.
    pub fn read_svbk(&self) -> (r: u8)
        requires
            self.wf(),
        ensures
            r == (self.sel() as u8) | RESERVED_BITS,
    {
        let s: u8 = self.selected_bank as u8;
        proof {
            assert((s & 0x07) == s) by (bit_vector)
                requires
                    s < 8,
            ;
        }
        (s & BANK_SELECT_MASK) | RESERVED_BITS
    }

    /// Write the bank-select (SVBK) control register: only the low three
    /// bits of `value` count, and a selection of bank 0 is coerced to bank
    /// 1. The stored bytes are untouched.
    pub fn write_svbk(&mut self, value: u8)
        requires
            old(self).wf(),
        ensures
            final(self).wf(),
            final(self).mem() == old(self).mem(),
            final(self).sel() == coerce_bank_index(value),
    {
        proof {
            assert(value & 0x07 < 8) by (bit_vector);
        }
        self.selected_bank = (value & BANK_SELECT_MASK) as usize;
        if self.selected_bank == 0 {
            self.selected_bank = 1;
        }
    }
}

/// Every address the window admits resolves, for every selectable bank, to a
/// position inside the backing storage.
pub proof fn lemma_byte_index_in_bounds(sel: int, addr: int)
    requires
        1 <= sel < BANK_COUNT,
        WINDOW_START <= addr < WINDOW_END,
    ensures
        0 <= byte_index(sel, addr) < BANK_COUNT * BANK_SIZE,
{
}

/// Bank read/write round-trip: for every address in the window and every
/// selectable bank, a write followed by a read of the same address yields
/// the written byte.
pub proof fn lemma_bank_round_trip(m: Wram, addr: u16, x: u8)
    requires
        m.wf(),
        in_window(addr),
    ensures
        m.mem().update(byte_index(m.sel(), addr as int), x)[byte_index(
            m.sel(),
            addr as int,
        )] == x,
{
    lemma_byte_index_in_bounds(m.sel(), addr as int);
}

/// Fixed-region bank independence: an address in the first half of the
/// window resolves to the same byte whatever bank is selected, so a byte
/// written there is still read back unchanged after any write to the
/// control register.
pub proof fn lemma_fixed_region_bank_independence(m: Wram, addr: u16, x: u8, ctrl: u8)
    requires
        m.wf(),
        WINDOW_START <= addr < WINDOW_MID,
    ensures
        byte_index(coerce_bank_index(ctrl), addr as int) == byte_index(m.sel(), addr as int),
        m.mem().update(byte_index(m.sel(), addr as int), x)[byte_index(
            coerce_bank_index(ctrl),
            addr as int,
        )] == x,
{
}

/// Bank isolation: two different selected banks never resolve any two
/// switchable-half addresses to the same byte — the banks are independent
/// storage.
pub proof fn lemma_bank_isolation(sel1: int, sel2: int, addr1: int, addr2: int)
    requires
        1 <= sel1 < BANK_COUNT,
        1 <= sel2 < BANK_COUNT,
        sel1 != sel2,
        WINDOW_MID <= addr1 < WINDOW_END,
        WINDOW_MID <= addr2 < WINDOW_END,
    ensures
        byte_index(sel1, addr1) != byte_index(sel2, addr2),
{
}

} // verus!
