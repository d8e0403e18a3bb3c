//! The register file: sixteen general registers of 64 bits, the instruction
//! pointer, the flags and sixteen vector registers.
//!
//! Each general register is read and written at four widths, under four
//! names, such as `rax`, `eax`, `ax` and `al`. The four names are one
//! register. Reading a narrow name gives the low bits of the register. Writing
//! any name replaces the whole register: a narrow value is extended with
//! zeros to 64 bits, so the bits above it become zero.
use vstd::prelude::*;
use crate::x86_64::simd::AVX512Register;
use crate::x86_64::simd::XmmView;
use crate::x86_64::simd::XmmViewMut;
use crate::x86_64::simd::YmmView;
use crate::x86_64::simd::YmmViewMut;
use crate::x86_64::simd::ZmmView;
use crate::x86_64::simd::ZmmViewMut;

pub mod general;

verus! {

/// The flags register, as a set of bits. A flag is named by its mask, and
/// masks are combined with `|`.
#[derive(Debug, Clone, Copy, PartialEq, Eq, Structural)]
pub struct Flags {
    bits: u64,
}

impl Flags {
    /// Carry.
    pub const CARRY: u64 = 0x1;

    /// Parity.
    pub const PARITY: u64 = 0x4;

    /// Adjust, the carry out of the low four bits.
    pub const ADJUST: u64 = 0x10;

    /// Zero.
    pub const ZERO: u64 = 0x40;

    /// Sign.
    pub const SIGN: u64 = 0x80;

    /// Trap, for single steps.
    pub const TRAP: u64 = 0x100;

    /// Interrupts are enabled.
    pub const INTERRUPT: u64 = 0x200;

    /// Direction of string operations.
    pub const DIRECTION: u64 = 0x400;

    /// Overflow.
    pub const OVERFLOW: u64 = 0x800;

    /// The low bit of the I/O privilege level.
    pub const IOPL0: u64 = 0x1000;

    /// The high bit of the I/O privilege level.
    pub const IOPL1: u64 = 0x2000;

    /// Nested task.
    pub const NESTED: u64 = 0x4000;

    /// Resume.
    pub const RESUME: u64 = 0x1_0000;

    /// Virtual 8086 mode.
    pub const VIRTUAL8086: u64 = 0x2_0000;

    /// Alignment check.
    pub const ALIGNMENT: u64 = 0x4_0000;

    /// Virtual interrupt.
    pub const VIRTUALINTERRUPT: u64 = 0x8_0000;

    /// A virtual interrupt is pending.
    pub const VIRTUALINTERRUPTPENDING: u64 = 0x10_0000;

    /// The CPUID instruction is present.
    pub const ID: u64 = 0x20_0000;

    /// The AES instructions are present.
    pub const AES: u64 = 0x4000_0000;

    /// The alternate instruction set is in use.
    pub const ALTERNATEINSTRUCTIONSET: u64 = 0x8000_0000;

    /// Every named flag.
    pub const ALL: u64 = 0xC03F_7FD5;

    /// The bits that are set.
    pub closed spec fn spec_bits(&self) -> u64 {
        self.bits
    }

    /// [`Flags::ALL`] is the named flags together, and no two of them share a
    /// bit.
    pub proof fn lemma_all()
        ensures
            Flags::ALL == Flags::CARRY | Flags::PARITY | Flags::ADJUST | Flags::ZERO | Flags::SIGN
                | Flags::TRAP | Flags::INTERRUPT | Flags::DIRECTION | Flags::OVERFLOW
                | Flags::IOPL0 | Flags::IOPL1 | Flags::NESTED | Flags::RESUME | Flags::VIRTUAL8086
                | Flags::ALIGNMENT | Flags::VIRTUALINTERRUPT | Flags::VIRTUALINTERRUPTPENDING
                | Flags::ID | Flags::AES | Flags::ALTERNATEINSTRUCTIONSET,
            Flags::ALL == Flags::CARRY + Flags::PARITY + Flags::ADJUST + Flags::ZERO + Flags::SIGN
                + Flags::TRAP + Flags::INTERRUPT + Flags::DIRECTION + Flags::OVERFLOW
                + Flags::IOPL0 + Flags::IOPL1 + Flags::NESTED + Flags::RESUME + Flags::VIRTUAL8086
                + Flags::ALIGNMENT + Flags::VIRTUALINTERRUPT + Flags::VIRTUALINTERRUPTPENDING
                + Flags::ID + Flags::AES + Flags::ALTERNATEINSTRUCTIONSET,
    {
        assert(0xC03F_7FD5u64 == 0x1u64 | 0x4u64 | 0x10u64 | 0x40u64 | 0x80u64 | 0x100u64 | 0x200u64
            | 0x400u64 | 0x800u64 | 0x1000u64 | 0x2000u64 | 0x4000u64 | 0x1_0000u64 | 0x2_0000u64
            | 0x4_0000u64 | 0x8_0000u64 | 0x10_0000u64 | 0x20_0000u64 | 0x4000_0000u64
            | 0x8000_0000u64) by (bit_vector);
    }

    /// No flag.
    pub fn empty() -> (flags: Flags)
        ensures
            flags.bits() == 0,
    {
        Flags { bits: 0 }
    }

    /// Every named flag.
    pub fn all() -> (flags: Flags)
        ensures
            flags.bits() == Flags::ALL,
    {
        Flags { bits: Flags::ALL }
    }

    /// Returns the bits that are set.
    #[verifier::when_used_as_spec(spec_bits)]
    pub fn bits(&self) -> (bits: u64)
        ensures
            bits == self.bits(),
    {
        self.bits
    }

    /// The flags whose set bits are `bits`, if each of them is a named flag.
    pub fn from_bits(bits: u64) -> (flags: Option<Flags>)
        ensures
            bits & !Flags::ALL == 0 ==> flags is Some && flags->Some_0.bits() == bits,
            bits & !Flags::ALL != 0 ==> flags is None,
    {
        if bits & !Flags::ALL == 0 {
            Some(Flags { bits })
        } else {
            None
        }
    }

    /// The flags whose set bits are those of `bits` that are named flags.
    pub fn from_bits_truncate(bits: u64) -> (flags: Flags)
        ensures
            flags.bits() == bits & Flags::ALL,
    {
        Flags { bits: bits & Flags::ALL }
    }

    /// The flags whose set bits are `bits`, named or not.
    pub fn from_bits_retain(bits: u64) -> (flags: Flags)
        ensures
            flags.bits() == bits,
    {
        Flags { bits }
    }

    /// Whether no bit is set.
    pub fn is_empty(&self) -> (empty: bool)
        ensures
            empty == (self.bits() == 0),
    {
        self.bits == 0
    }

    /// Whether every bit of `mask` is set.
    pub fn contains(&self, mask: u64) -> (all_set: bool)
        ensures
            all_set == (self.bits() & mask == mask),
    {
        self.bits & mask == mask
    }

    /// Whether some bit of `mask` is set.
    pub fn intersects(&self, mask: u64) -> (some_set: bool)
        ensures
            some_set == (self.bits() & mask != 0),
    {
        self.bits & mask != 0
    }

    /// Sets the bits of `mask`.
    pub fn insert(&mut self, mask: u64)
        ensures
            final(self).bits() == old(self).bits() | mask,
    {
        self.bits = self.bits | mask;
    }

    /// Clears the bits of `mask`.
    pub fn remove(&mut self, mask: u64)
        ensures
            final(self).bits() == old(self).bits() & !mask,
    {
        self.bits = self.bits & !mask;
    }

    /// Flips the bits of `mask`.
    pub fn toggle(&mut self, mask: u64)
        ensures
            final(self).bits() == old(self).bits() ^ mask,
    {
        self.bits = self.bits ^ mask;
    }

    /// Sets the bits of `mask` if `value` is true, and clears them if not.
    pub fn set(&mut self, mask: u64, value: bool)
        ensures
            final(self).bits() == if value {
                old(self).bits() | mask
            } else {
                old(self).bits() & !mask
            },
    {
        if value {
            self.insert(mask);
        } else {
            self.remove(mask);
        }
    }

    /// Bits that were set are found set, bits that were cleared are found
    /// clear, and neither touches a bit outside the mask.
    pub proof fn lemma_set_and_clear(bits: u64, mask: u64)
        ensures
            (bits | mask) & mask == mask,
            (bits & !mask) & mask == 0,
            (bits | mask) & !mask == bits & !mask,
            (bits & !mask) & !mask == bits & !mask,
    {
        assert((bits | mask) & mask == mask) by (bit_vector);
        assert((bits & !mask) & mask == 0) by (bit_vector);
        assert((bits | mask) & !mask == bits & !mask) by (bit_vector);
        assert((bits & !mask) & !mask == bits & !mask) by (bit_vector);
    }
}

/// The low 32 bits of `value`.
pub open spec fn low32(value: u64) -> u32 {
    (value % 0x1_0000_0000) as u32
}

/// The low 16 bits of `value`.
pub open spec fn low16(value: u64) -> u16 {
    (value % 0x1_0000) as u16
}

/// The low 8 bits of `value`.
pub open spec fn low8(value: u64) -> u8 {
    (value % 0x100) as u8
}

/// Returns the low 32 bits of `value`.
pub fn low_dword(value: u64) -> (low: u32)
    ensures
        low == low32(value),
{
    assert(value as u32 == value % 0x1_0000_0000) by (bit_vector);
    #[verifier::truncate]
    (value as u32)
}

/// Returns the low 16 bits of `value`.
pub fn low_word(value: u64) -> (low: u16)
    ensures
        low == low16(value),
{
    assert(value as u16 == value % 0x1_0000) by (bit_vector);
    #[verifier::truncate]
    (value as u16)
}

/// Returns the low 8 bits of `value`.
pub fn low_byte(value: u64) -> (low: u8)
    ensures
        low == low8(value),
{
    assert(value as u8 == value % 0x100) by (bit_vector);
    #[verifier::truncate]
    (value as u8)
}

/// What a register file holds.
#[verifier::ext_equal]
pub struct RegistersView {
    /// The sixteen general registers.
    pub gr: Seq<u64>,
    /// The instruction pointer.
    pub rip: u64,
    /// The flags.
    pub rflags: Flags,
    /// The bytes of the sixteen vector registers.
    pub simd: Seq<Seq<u8>>,
}

impl RegistersView {
    /// There are sixteen general registers and sixteen vector registers of
    /// 64 bytes.
    pub open spec fn wf(self) -> bool {
        &&& self.gr.len() == 16
        &&& self.simd.len() == 16
        &&& forall|index: int| 0 <= index < 16 ==> (#[trigger] self.simd[index]).len() == 64
    }

    /// General register `index` at its full width.
    pub open spec fn read64(self, index: int) -> u64 {
        self.gr[index]
    }

    /// The low 32 bits of general register `index`.
    pub open spec fn read32(self, index: int) -> u32 {
        low32(self.gr[index])
    }

    /// The low 16 bits of general register `index`.
    pub open spec fn read16(self, index: int) -> u16 {
        low16(self.gr[index])
    }

    /// The low 8 bits of general register `index`.
    pub open spec fn read8(self, index: int) -> u8 {
        low8(self.gr[index])
    }

    /// The register file after general register `index` is written: the
    /// register holds `value`, everything else is as it was.
    pub open spec fn write(self, index: int, value: u64) -> RegistersView {
        RegistersView { gr: self.gr.update(index, value), ..self }
    }

    /// The register file with the bytes of vector register `index` replaced.
    pub open spec fn with_simd(self, index: int, bytes: Seq<u8>) -> RegistersView {
        RegistersView { simd: self.simd.update(index, bytes), ..self }
    }

    /// What is written to a general register is what is read from it at the
    /// same width.
    pub proof fn lemma_write_then_read(self, index: int, wide: u64, dword: u32, word: u16, byte: u8)
        requires
            self.wf(),
            0 <= index < 16,
        ensures
            self.write(index, wide).read64(index) == wide,
            self.write(index, dword as u64).read32(index) == dword,
            self.write(index, word as u64).read16(index) == word,
            self.write(index, byte as u64).read8(index) == byte,
    {
    }

    /// After a general register is written at its full width, each narrower
    /// name of it reads the low bits of what was written.
    pub proof fn lemma_narrow_reads_give_low_bits(self, index: int, value: u64)
        requires
            self.wf(),
            0 <= index < 16,
        ensures
            self.write(index, value).read32(index) == value % 0x1_0000_0000,
            self.write(index, value).read16(index) == value % 0x1_0000,
            self.write(index, value).read8(index) == value % 0x100,
            self.write(index, value).read32(index) == value & 0xffff_ffff,
            self.write(index, value).read16(index) == value & 0xffff,
            self.write(index, value).read8(index) == value & 0xff,
    {
        assert(value % 0x1_0000_0000 == value & 0xffff_ffff) by (bit_vector);
        assert(value % 0x1_0000 == value & 0xffff) by (bit_vector);
        assert(value % 0x100 == value & 0xff) by (bit_vector);
    }

    /// Writing a general register at a narrow width clears the bits above
    /// that width.
    pub proof fn lemma_narrow_write_clears_high_bits(self, index: int, dword: u32, word: u16, byte: u8)
        requires
            self.wf(),
            0 <= index < 16,
        ensures
            self.write(index, dword as u64).read64(index) == dword,
            self.write(index, word as u64).read64(index) == word,
            self.write(index, byte as u64).read64(index) == byte,
    {
    }

    /// Writing a general register leaves every other register as it was.
    pub proof fn lemma_write_leaves_others(self, index: int, value: u64, other: int)
        requires
            self.wf(),
            0 <= index < 16,
            0 <= other < 16,
            other != index,
        ensures
            self.write(index, value).wf(),
            self.write(index, value).read64(other) == self.read64(other),
            self.write(index, value).rip == self.rip,
            self.write(index, value).rflags == self.rflags,
            self.write(index, value).simd == self.simd,
    {
    }
}

/// The register file of the processor.
#[derive(Debug, Clone, Copy, PartialEq, Eq)]
pub struct Registers {
    gr: [u64; 16],
    rip: u64,
    rflags: Flags,
    simd: [AVX512Register; 16],
}

impl View for Registers {
    type V = RegistersView;

    closed spec fn view(&self) -> RegistersView {
        RegistersView {
            gr: self.gr@,
            rip: self.rip,
            rflags: self.rflags,
            simd: Seq::new(16, |index: int| self.simd@[index]@),
        }
    }
}

impl Registers {
    /// Every register file has sixteen general registers and sixteen vector
    /// registers of 64 bytes.
    pub proof fn lemma_wf(&self)
        ensures
            self@.wf(),
    {
        assert forall|index: int| 0 <= index < 16 implies (#[trigger] self@.simd[index]).len()
            == 64 by {
            self.simd@[index].lemma_len();
        }
    }

    /// A register file in which every bit is zero.
    pub fn new() -> (registers: Registers)
        ensures
            registers@.wf(),
            registers@ == (RegistersView {
                gr: Seq::new(16, |index: int| 0u64),
                rip: 0,
                rflags: registers@.rflags,
                simd: Seq::new(16, |index: int| Seq::new(64, |i: int| 0u8)),
            }),
            registers@.rflags.bits() == 0,
    {
        let registers = Registers {
            gr: [0;16],
            rip: 0,
            rflags: Flags::empty(),
            simd: [AVX512Register::new();16],
        };
        proof {
            registers.lemma_wf();
            assert(registers@.gr =~= Seq::new(16, |index: int| 0u64));
            assert(registers@.simd =~= Seq::new(16, |index: int| Seq::new(64, |i: int| 0u8)));
        }
        registers
    }

    /// Returns the instruction pointer.
    pub fn rip(&self) -> (value: u64)
        ensures
            value == self@.rip,
    {
        self.rip
    }

    /// Sets the instruction pointer.
    pub fn write_rip(&mut self, value: u64)
        ensures
            final(self)@ == (RegistersView { rip: value, ..old(self)@ }),
    {
        self.rip = value;
    }

    /// Borrows the flags, to read.
    pub fn rflags(&self) -> (flags: &Flags)
        ensures
            *flags == self@.rflags,
    {
        &self.rflags
    }

    /// Borrows the flags, to read and to write. When the borrow is given up,
    /// the register file holds the flags as they were left.
    pub fn rflags_mut(&mut self) -> (flags: &mut Flags)
        ensures
            *flags == old(self)@.rflags,
            final(self)@ == (RegistersView { rflags: *final(flags), ..old(self)@ }),
    {
        &mut self.rflags
    }

    /// Returns general register `index`, of sixteen.
    pub fn general(&self, index: usize) -> (value: u64)
        requires
            index < 16,
        ensures
            value == self@.read64(index as int),
    {
        self.gr[index]
    }

    /// Sets general register `index`, of sixteen.
    pub fn write_general(&mut self, index: usize, value: u64)
        requires
            index < 16,
        ensures
            final(self)@ == old(self)@.write(index as int, value),
    {
        self.gr[index] = value;
        assert(self@.simd =~= old(self)@.simd);
    }

    /// Borrows the first 16 bytes of vector register `index`, of sixteen, to
    /// read.
    pub fn xmm(&self, index: usize) -> (view: XmmView<'_>)
        requires
            index < 16,
        ensures
            view@ == self@.simd[index as int].take(16),
    {
        self.simd[index].xmm()
    }

    /// Borrows the first 32 bytes of vector register `index`, of sixteen, to
    /// read.
    pub fn ymm(&self, index: usize) -> (view: YmmView<'_>)
        requires
            index < 16,
        ensures
            view@ == self@.simd[index as int].take(32),
    {
        self.simd[index].ymm()
    }

    /// Borrows the 64 bytes of vector register `index`, of sixteen, to read.
    pub fn zmm(&self, index: usize) -> (view: ZmmView<'_>)
        requires
            index < 16,
        ensures
            view@ == self@.simd[index as int],
    {
        self.simd[index].zmm()
    }

    /// Borrows the first 16 bytes of vector register `index`, of sixteen, to
    /// read and to write. When the view is given up, the register holds what
    /// the view held last.
    pub fn xmm_mut(&mut self, index: usize) -> (view: XmmViewMut<'_>)
        requires
            index < 16,
        ensures
            view@ == old(self)@.simd[index as int].take(16),
            final(self)@ == old(self)@.with_simd(
                index as int,
                final(view.bytes)@ + old(self)@.simd[index as int].skip(16),
            ),
    {
        self.simd[index].xmm_mut()
    }

    /// Borrows the first 32 bytes of vector register `index`, of sixteen, to
    /// read and to write. When the view is given up, the register holds what
    /// the view held last.
    pub fn ymm_mut(&mut self, index: usize) -> (view: YmmViewMut<'_>)
        requires
            index < 16,
        ensures
            view@ == old(self)@.simd[index as int].take(32),
            final(self)@ == old(self)@.with_simd(
                index as int,
                final(view.bytes)@ + old(self)@.simd[index as int].skip(32),
            ),
    {
        self.simd[index].ymm_mut()
    }

    /// Borrows the 64 bytes of vector register `index`, of sixteen, to
    /// read and to write. When the view is given up, the register holds what
    /// the view held last.
    pub fn zmm_mut(&mut self, index: usize) -> (view: ZmmViewMut<'_>)
        requires
            index < 16,
        ensures
            view@ == old(self)@.simd[index as int],
            final(self)@ == old(self)@.with_simd(index as int, final(view.bytes)@),
    {
        self.simd[index].zmm_mut()
    }
}

} // verus!
