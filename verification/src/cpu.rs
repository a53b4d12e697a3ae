//! The CPU register file: four dual-view 8/16-bit register pairs, the stack
//! pointer and program counter, and the four condition flags living in the
//! low lane of the `af` pair.

use vstd::prelude::*;

verus! {

/// Bits 15..8 of a 16-bit word.
pub open spec fn hi_byte(w: u16) -> u8 {
    (w >> 8) as u8
}

/// Bits 7..0 of a 16-bit word.
pub open spec fn lo_byte(w: u16) -> u8 {
    (w & 0xff) as u8
}

/// The 16-bit word whose bits 15..8 are `hi` and whose bits 7..0 are `lo`.
pub open spec fn word(hi: u8, lo: u8) -> u16 {
    (((hi as u16) << 8) | (lo as u16)) as u16
}

proof fn lemma_word_parts(w: u16, h: u8, l: u8)
    by (bit_vector)
    ensures
        word(hi_byte(w), lo_byte(w)) == w,
        hi_byte(word(h, l)) == h,
        lo_byte(word(h, l)) == l,
        (((h as u16) << 8) | (w & 0x00ff)) as u16 == word(h, lo_byte(w)),
        ((w & 0xff00) | (l as u16)) as u16 == word(hi_byte(w), l),
{
}

/// One dual-view register pair: a single 16-bit storage cell whose high and
/// low lanes are read and written by shift-and-mask, so that the byte views
/// and the word view always alias the same logical value, independent of the
/// host platform's byte order.
struct RegPair {
    whole: u16,
}

impl RegPair {
    fn from_u16(value: u16) -> (r: Self)
        ensures
            r.whole == value,
    {
        RegPair { whole: value }
    }

    fn get(&self) -> (r: u16)
        ensures
            r == self.whole,
    {
        self.whole
    }

    fn set(&mut self, value: u16)
        ensures
            final(self).whole == value,
    {
        self.whole = value;
    }

    fn hi(&self) -> (r: u8)
        ensures
            r == hi_byte(self.whole),
    {
        (self.whole >> 8) as u8
    }

    fn lo(&self) -> (r: u8)
        ensures
            r == lo_byte(self.whole),
    {
        (self.whole & 0xff) as u8
    }

    fn set_hi(&mut self, value: u8)
        ensures
            final(self).whole == word(value, lo_byte(old(self).whole)),
    {
        let ghost w0 = self.whole;
        self.whole = ((value as u16) << 8) | (self.whole & 0x00ff);
        proof {
            lemma_word_parts(w0, value, 0);
        }
    }

    fn set_lo(&mut self, value: u8)
        ensures
            final(self).whole == word(hi_byte(old(self).whole), value),
    {
        let ghost w0 = self.whole;
        self.whole = (self.whole & 0xff00) | (value as u16);
        proof {
            lemma_word_parts(w0, 0, value);
        }
    }
}

/// Alias consistency of the dual-view split: the high and low lanes of a word
/// are its two bytes, recombining the lanes of a word is the identity, and
/// writing the two lanes of a pair in either order leaves the pair holding
/// exactly the word built from the two written bytes.
pub proof fn lemma_alias_consistency(v: u16, h: u8, l: u8)
    ensures
        hi_byte(v) as u16 == v >> 8,
        lo_byte(v) as u16 == v & 0xff,
        word(hi_byte(v), lo_byte(v)) == v,
        hi_byte(word(h, l)) == h,
        lo_byte(word(h, l)) == l,
        word(h, lo_byte(word(hi_byte(v), l))) == word(h, l),
        word(hi_byte(word(h, lo_byte(v))), l) == word(h, l),
{
    lemma_word_parts(v, h, l);
    lemma_word_parts(v, hi_byte(v), l);
    lemma_word_parts(v, h, lo_byte(v));
    assert(hi_byte(v) as u16 == v >> 8) by (bit_vector);
    assert(lo_byte(v) as u16 == v & 0xff) by (bit_vector);
}

/// The four condition flags, each one bit of the flag sub-register: Zero at
/// bit 7, Subtract at bit 6, Half-carry at bit 5, Carry at bit 4. Bits 3..0
/// of the flag sub-register are unused.
#[derive(Clone, Copy)]
pub enum Flag {
    Z,
    N,
    H,
    C,
}

impl Flag {
    /// The flag's bit within the flag sub-register.
    pub open spec fn spec_mask(self) -> u8 {
        match self {
            Flag::Z => 0x80,
            Flag::N => 0x40,
            Flag::H => 0x20,
            Flag::C => 0x10,
        }
    }

    /// The flag's bit within the flag sub-register.
    pub fn mask(self) -> (m: u8)
        ensures
            m == self.spec_mask(),
    {
        match self {
            Flag::Z => 0x80,
            Flag::N => 0x40,
            Flag::H => 0x20,
            Flag::C => 0x10,
        }
    }
}

/// Whether the bits of `m` are all set in `f`.
pub open spec fn flag_test(f: u8, m: u8) -> bool {
    f & m == m
}

/// `f` with the bits of `m` set if `value`, else cleared.
pub open spec fn flag_update(f: u8, m: u8, value: bool) -> u8 {
    if value {
        f | m
    } else {
        f & !m
    }
}

proof fn lemma_single_bit_update(f: u8, m: u8, n: u8, value: bool)
    by (bit_vector)
    requires
        m == 0x80 || m == 0x40 || m == 0x20 || m == 0x10,
        n == 0x80 || n == 0x40 || n == 0x20 || n == 0x10,
    ensures
        flag_test(flag_update(f, m, value), m) == value,
        m != n ==> flag_test(flag_update(f, m, value), n) == flag_test(f, n),
{
}

/// The register file: four dual-view register pairs, the stack pointer and
/// the program counter. The low lane of `af` is the flag sub-register.
pub struct Registers {
    af: RegPair,
    bc: RegPair,
    de: RegPair,
    hl: RegPair,
    sp: u16,
    pc: u16,
}

impl Registers {
    /// The 16-bit value of the `af` pair.
    pub closed spec fn af_value(self) -> u16 {
        self.af.whole
    }

    /// The 16-bit value of the `bc` pair.
    pub closed spec fn bc_value(self) -> u16 {
        self.bc.whole
    }

    /// The 16-bit value of the `de` pair.
    pub closed spec fn de_value(self) -> u16 {
        self.de.whole
    }

    /// The 16-bit value of the `hl` pair.
    pub closed spec fn hl_value(self) -> u16 {
        self.hl.whole
    }

    /// The stack pointer.
    pub closed spec fn sp_value(self) -> u16 {
        self.sp
    }

    /// The program counter.
    pub closed spec fn pc_value(self) -> u16 {
        self.pc
    }

    /// What a flag currently reads as: whether its bit is set in the flag
    /// sub-register, the low lane of `af`.
    pub open spec fn flag_value(self, flag: Flag) -> bool {
        flag_test(lo_byte(self.af_value()), flag.spec_mask())
    }

    /// Every register but the `af` pair holds the same value as in `pre`.
    pub open spec fn unchanged_except_af(self, pre: Registers) -> bool {
        &&& self.bc_value() == pre.bc_value()
        &&& self.de_value() == pre.de_value()
        &&& self.hl_value() == pre.hl_value()
        &&& self.sp_value() == pre.sp_value()
        &&& self.pc_value() == pre.pc_value()
    }

    /// Every register but the `bc` pair holds the same value as in `pre`.
    pub open spec fn unchanged_except_bc(self, pre: Registers) -> bool {
        &&& self.af_value() == pre.af_value()
        &&& self.de_value() == pre.de_value()
        &&& self.hl_value() == pre.hl_value()
        &&& self.sp_value() == pre.sp_value()
        &&& self.pc_value() == pre.pc_value()
    }

    /// Every register but the `de` pair holds the same value as in `pre`.
    pub open spec fn unchanged_except_de(self, pre: Registers) -> bool {
        &&& self.af_value() == pre.af_value()
        &&& self.bc_value() == pre.bc_value()
        &&& self.hl_value() == pre.hl_value()
        &&& self.sp_value() == pre.sp_value()
        &&& self.pc_value() == pre.pc_value()
    }

    /// Every register but the `hl` pair holds the same value as in `pre`.
    pub open spec fn unchanged_except_hl(self, pre: Registers) -> bool {
        &&& self.af_value() == pre.af_value()
        &&& self.bc_value() == pre.bc_value()
        &&& self.de_value() == pre.de_value()
        &&& self.sp_value() == pre.sp_value()
        &&& self.pc_value() == pre.pc_value()
    }

    /// Every register but the stack pointer holds the same value as in `pre`.
    pub open spec fn unchanged_except_sp(self, pre: Registers) -> bool {
        &&& self.af_value() == pre.af_value()
        &&& self.bc_value() == pre.bc_value()
        &&& self.de_value() == pre.de_value()
        &&& self.hl_value() == pre.hl_value()
        &&& self.pc_value() == pre.pc_value()
    }

    /// Every register but the program counter holds the same value as in `pre`.
    pub open spec fn unchanged_except_pc(self, pre: Registers) -> bool {
        &&& self.af_value() == pre.af_value()
        &&& self.bc_value() == pre.bc_value()
        &&& self.de_value() == pre.de_value()
        &&& self.hl_value() == pre.hl_value()
        &&& self.sp_value() == pre.sp_value()
    }

    /// The register file at machine reset: every register zero.
    pub fn new() -> (r: Self)
        ensures
            r.af_value() == 0,
            r.bc_value() == 0,
            r.de_value() == 0,
            r.hl_value() == 0,
            r.sp_value() == 0,
            r.pc_value() == 0,
    {
        Registers {
            af: RegPair::from_u16(0),
            bc: RegPair::from_u16(0),
            de: RegPair::from_u16(0),
            hl: RegPair::from_u16(0),
            sp: 0,
            pc: 0,
        }
    }

    /// The `a` register, high lane of the `af` pair.
    pub fn a(&self) -> (r: u8)
        ensures
            r == hi_byte(self.af_value()),
    {
        self.af.hi()
    }

    /// Set the `a` register, leaving the flag sub-register and every other
    /// register untouched.
    pub fn set_a(&mut self, value: u8)
        ensures
            final(self).af_value() == word(value, lo_byte(old(self).af_value())),
            final(self).unchanged_except_af(*old(self)),
    {
        self.af.set_hi(value);
    }

    /// The `b` register, high lane of the `bc` pair.
    pub fn b(&self) -> (r: u8)
        ensures
            r == hi_byte(self.bc_value()),
    {
        self.bc.hi()
    }

    /// Set the `b` register, leaving the `c` lane and every other register
    /// untouched.
    pub fn set_b(&mut self, value: u8)
        ensures
            final(self).bc_value() == word(value, lo_byte(old(self).bc_value())),
            final(self).unchanged_except_bc(*old(self)),
    {
        self.bc.set_hi(value);
    }

    /// The `c` register, low lane of the `bc` pair.
    pub fn c(&self) -> (r: u8)
        ensures
            r == lo_byte(self.bc_value()),
    {
        self.bc.lo()
    }

    /// Set the `c` register, leaving the `b` lane and every other register
    /// untouched.
    pub fn set_c(&mut self, value: u8)
        ensures
            final(self).bc_value() == word(hi_byte(old(self).bc_value()), value),
            final(self).unchanged_except_bc(*old(self)),
    {
        self.bc.set_lo(value);
    }

    /// The `d` register, high lane of the `de` pair.
    pub fn d(&self) -> (r: u8)
        ensures
            r == hi_byte(self.de_value()),
    {
        self.de.hi()
    }

    /// Set the `d` register, leaving the `e` lane and every other register
    /// untouched.
    pub fn set_d(&mut self, value: u8)
        ensures
            final(self).de_value() == word(value, lo_byte(old(self).de_value())),
            final(self).unchanged_except_de(*old(self)),
    {
        self.de.set_hi(value);
    }

    /// The `e` register, low lane of the `de` pair.
    pub fn e(&self) -> (r: u8)
        ensures
            r == lo_byte(self.de_value()),
    {
        self.de.lo()
    }

    /// Set the `e` register, leaving the `d` lane and every other register
    /// untouched.
    pub fn set_e(&mut self, value: u8)
        ensures
            final(self).de_value() == word(hi_byte(old(self).de_value()), value),
            final(self).unchanged_except_de(*old(self)),
    {
        self.de.set_lo(value);
    }

    /// The `h` register, high lane of the `hl` pair.
    pub fn h(&self) -> (r: u8)
        ensures
            r == hi_byte(self.hl_value()),
    {
        self.hl.hi()
    }

    /// Set the `h` register, leaving the `l` lane and every other register
    /// untouched.
    pub fn set_h(&mut self, value: u8)
        ensures
            final(self).hl_value() == word(value, lo_byte(old(self).hl_value())),
            final(self).unchanged_except_hl(*old(self)),
    {
        self.hl.set_hi(value);
    }

    /// The `l` register, low lane of the `hl` pair.
    pub fn l(&self) -> (r: u8)
        ensures
            r == lo_byte(self.hl_value()),
    {
        self.hl.lo()
    }

    /// Set the `l` register, leaving the `h` lane and every other register
    /// untouched.
    pub fn set_l(&mut self, value: u8)
        ensures
            final(self).hl_value() == word(hi_byte(old(self).hl_value()), value),
            final(self).unchanged_except_hl(*old(self)),
    {
        self.hl.set_lo(value);
    }

    /// The whole `bc` pair: `b` in the high lane, `c` in the low lane.
    pub fn bc(&self) -> (r: u16)
        ensures
            r == self.bc_value(),
    {
        self.bc.get()
    }

    /// Set the whole `bc` pair; the `b` and `c` lanes then read as the two
    /// bytes of `value`.
    pub fn set_bc(&mut self, value: u16)
        ensures
            final(self).bc_value() == value,
            final(self).unchanged_except_bc(*old(self)),
    {
        self.bc.set(value);
    }

    /// The whole `de` pair: `d` in the high lane, `e` in the low lane.
    pub fn de(&self) -> (r: u16)
        ensures
            r == self.de_value(),
    {
        self.de.get()
    }

    /// Set the whole `de` pair; the `d` and `e` lanes then read as the two
    /// bytes of `value`.
    pub fn set_de(&mut self, value: u16)
        ensures
            final(self).de_value() == value,
            final(self).unchanged_except_de(*old(self)),
    {
        self.de.set(value);
    }

    /// The whole `hl` pair: `h` in the high lane, `l` in the low lane.
    pub fn hl(&self) -> (r: u16)
        ensures
            r == self.hl_value(),
    {
        self.hl.get()
    }

    /// Set the whole `hl` pair; the `h` and `l` lanes then read as the two
    /// bytes of `value`.
    pub fn set_hl(&mut self, value: u16)
        ensures
            final(self).hl_value() == value,
            final(self).unchanged_except_hl(*old(self)),
    {
        self.hl.set(value);
    }

    /// The stack pointer.
    pub fn sp(&self) -> (r: u16)
        ensures
            r == self.sp_value(),
    {
        self.sp
    }

    /// Set the stack pointer.
    pub fn set_sp(&mut self, value: u16)
        ensures
            final(self).sp_value() == value,
            final(self).unchanged_except_sp(*old(self)),
    {
        self.sp = value;
    }

    /// The program counter.
    pub fn pc(&self) -> (r: u16)
        ensures
            r == self.pc_value(),
    {
        self.pc
    }

    /// Set the program counter.
    pub fn set_pc(&mut self, value: u16)
        ensures
            final(self).pc_value() == value,
            final(self).unchanged_except_pc(*old(self)),
    {
        self.pc = value;
    }

    /// Set the corresponding flag in the flag sub-register to the given
    /// value: that flag then reads as `value`, the other three flags and
    /// the high lane of `af` are untouched, and so is every other register.
    /// The unused low four bits of the flag sub-register are deliberately
    /// left as they are, never forced to zero.
    pub fn set_flag(&mut self, flag: Flag, value: bool)
        ensures
            final(self).af_value() == word(
                hi_byte(old(self).af_value()),
                flag_update(lo_byte(old(self).af_value()), flag.spec_mask(), value),
            ),
            final(self).flag_value(flag) == value,
            forall|other: Flag|
                other != flag ==> final(self).flag_value(other) == old(self).flag_value(other),
            hi_byte(final(self).af_value()) == hi_byte(old(self).af_value()),
            final(self).unchanged_except_af(*old(self)),
    {
        let m = flag.mask();
        let f = self.af.lo();
        if value {
            self.af.set_lo(f | m);
        } else {
            self.af.set_lo(f & !m);
        }
        proof {
            let f0 = lo_byte(old(self).af_value());
            lemma_word_parts(
                old(self).af_value(),
                hi_byte(old(self).af_value()),
                flag_update(f0, flag.spec_mask(), value),
            );
            assert forall|other: Flag| other != flag implies final(self).flag_value(other)
                == old(self).flag_value(other) by {
                lemma_flag_independence(f0, flag, other, value);
            }
            lemma_flag_independence(f0, flag, flag, value);
        }
    }

    /// Get the corresponding flag from the flag sub-register.
    pub fn get_flag(&self, flag: Flag) -> (r: bool)
        ensures
            r == self.flag_value(flag),
    {
        let m = flag.mask();
        let f = self.af.lo();
        f & m == m
    }
}

/// Flag independence: setting or clearing a flag makes exactly that flag
/// read back as the written value, and leaves what every other flag reads
/// as untouched, whatever the flag sub-register held before.
pub proof fn lemma_flag_independence(f: u8, flag: Flag, other: Flag, value: bool)
    ensures
        flag_test(flag_update(f, flag.spec_mask(), value), flag.spec_mask()) == value,
        flag != other ==> flag_test(flag_update(f, flag.spec_mask(), value), other.spec_mask())
            == flag_test(f, other.spec_mask()),
{
    lemma_single_bit_update(f, flag.spec_mask(), other.spec_mask(), value);
}

} // verus!
