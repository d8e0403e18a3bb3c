//! The general registers under their names: for each of the sixteen, a
//! reader and a writer at 64, 32, 16 and 8 bits.
use vstd::prelude::*;
use crate::x86_64::register::low_byte;
use crate::x86_64::register::low_dword;
use crate::x86_64::register::low_word;
use crate::x86_64::register::Registers;

verus! {

impl Registers {
    /// Reads `rax`, the 64 bits of general register 0.
    pub fn rax(&self) -> (value: u64)
        ensures
            value == self@.read64(0),
    {
        self.general(0)
    }

    /// Writes `rax`: general register 0 holds `value`.
    pub fn write_rax(&mut self, value: u64)
        ensures
            final(self)@ == old(self)@.write(0, value),
    {
        self.write_general(0, value);
    }

    /// Reads `rcx`, the 64 bits of general register 1.
    pub fn rcx(&self) -> (value: u64)
        ensures
            value == self@.read64(1),
    {
        self.general(1)
    }

    /// Writes `rcx`: general register 1 holds `value`.
    pub fn write_rcx(&mut self, value: u64)
        ensures
            final(self)@ == old(self)@.write(1, value),
    {
        self.write_general(1, value);
    }

    /// Reads `rdx`, the 64 bits of general register 2.
    pub fn rdx(&self) -> (value: u64)
        ensures
            value == self@.read64(2),
    {
        self.general(2)
    }

    /// Writes `rdx`: general register 2 holds `value`.
    pub fn write_rdx(&mut self, value: u64)
        ensures
            final(self)@ == old(self)@.write(2, value),
    {
        self.write_general(2, value);
    }

    /// Reads `rbx`, the 64 bits of general register 3.
    pub fn rbx(&self) -> (value: u64)
        ensures
            value == self@.read64(3),
    {
        self.general(3)
    }

    /// Writes `rbx`: general register 3 holds `value`.
    pub fn write_rbx(&mut self, value: u64)
        ensures
            final(self)@ == old(self)@.write(3, value),
    {
        self.write_general(3, value);
    }

    /// Reads `rsp`, the 64 bits of general register 4.
    pub fn rsp(&self) -> (value: u64)
        ensures
            value == self@.read64(4),
    {
        self.general(4)
    }

    /// Writes `rsp`: general register 4 holds `value`.
    pub fn write_rsp(&mut self, value: u64)
        ensures
            final(self)@ == old(self)@.write(4, value),
    {
        self.write_general(4, value);
    }

    /// Reads `rbp`, the 64 bits of general register 5.
    pub fn rbp(&self) -> (value: u64)
        ensures
            value == self@.read64(5),
    {
        self.general(5)
    }

    /// Writes `rbp`: general register 5 holds `value`.
    pub fn write_rbp(&mut self, value: u64)
        ensures
            final(self)@ == old(self)@.write(5, value),
    {
        self.write_general(5, value);
    }

    /// Reads `rsi`, the 64 bits of general register 6.
    pub fn rsi(&self) -> (value: u64)
        ensures
            value == self@.read64(6),
    {
        self.general(6)
    }

    /// Writes `rsi`: general register 6 holds `value`.
    pub fn write_rsi(&mut self, value: u64)
        ensures
            final(self)@ == old(self)@.write(6, value),
    {
        self.write_general(6, value);
    }

    /// Reads `rdi`, the 64 bits of general register 7.
    pub fn rdi(&self) -> (value: u64)
        ensures
            value == self@.read64(7),
    {
        self.general(7)
    }

    /// Writes `rdi`: general register 7 holds `value`.
    pub fn write_rdi(&mut self, value: u64)
        ensures
            final(self)@ == old(self)@.write(7, value),
    {
        self.write_general(7, value);
    }

    /// Reads `r8`, the 64 bits of general register 8.
    pub fn r8(&self) -> (value: u64)
        ensures
            value == self@.read64(8),
    {
        self.general(8)
    }

    /// Writes `r8`: general register 8 holds `value`.
    pub fn write_r8(&mut self, value: u64)
        ensures
            final(self)@ == old(self)@.write(8, value),
    {
        self.write_general(8, value);
    }

    /// Reads `r9`, the 64 bits of general register 9.
    pub fn r9(&self) -> (value: u64)
        ensures
            value == self@.read64(9),
    {
        self.general(9)
    }

    /// Writes `r9`: general register 9 holds `value`.
    pub fn write_r9(&mut self, value: u64)
        ensures
            final(self)@ == old(self)@.write(9, value),
    {
        self.write_general(9, value);
    }

    /// Reads `r10`, the 64 bits of general register 10.
    pub fn r10(&self) -> (value: u64)
        ensures
            value == self@.read64(10),
    {
        self.general(10)
    }

    /// Writes `r10`: general register 10 holds `value`.
    pub fn write_r10(&mut self, value: u64)
        ensures
            final(self)@ == old(self)@.write(10, value),
    {
        self.write_general(10, value);
    }

    /// Reads `r11`, the 64 bits of general register 11.
    pub fn r11(&self) -> (value: u64)
        ensures
            value == self@.read64(11),
    {
        self.general(11)
    }

    /// Writes `r11`: general register 11 holds `value`.
    pub fn write_r11(&mut self, value: u64)
        ensures
            final(self)@ == old(self)@.write(11, value),
    {
        self.write_general(11, value);
    }

    /// Reads `r12`, the 64 bits of general register 12.
    pub fn r12(&self) -> (value: u64)
        ensures
            value == self@.read64(12),
    {
        self.general(12)
    }

    /// Writes `r12`: general register 12 holds `value`.
    pub fn write_r12(&mut self, value: u64)
        ensures
            final(self)@ == old(self)@.write(12, value),
    {
        self.write_general(12, value);
    }

    /// Reads `r13`, the 64 bits of general register 13.
    pub fn r13(&self) -> (value: u64)
        ensures
            value == self@.read64(13),
    {
        self.general(13)
    }

    /// Writes `r13`: general register 13 holds `value`.
    pub fn write_r13(&mut self, value: u64)
        ensures
            final(self)@ == old(self)@.write(13, value),
    {
        self.write_general(13, value);
    }

    /// Reads `r14`, the 64 bits of general register 14.
    pub fn r14(&self) -> (value: u64)
        ensures
            value == self@.read64(14),
    {
        self.general(14)
    }

    /// Writes `r14`: general register 14 holds `value`.
    pub fn write_r14(&mut self, value: u64)
        ensures
            final(self)@ == old(self)@.write(14, value),
    {
        self.write_general(14, value);
    }

    /// Reads `r15`, the 64 bits of general register 15.
    pub fn r15(&self) -> (value: u64)
        ensures
            value == self@.read64(15),
    {
        self.general(15)
    }

    /// Writes `r15`: general register 15 holds `value`.
    pub fn write_r15(&mut self, value: u64)
        ensures
            final(self)@ == old(self)@.write(15, value),
    {
        self.write_general(15, value);
    }

    /// Reads `eax`, the low 32 bits of `rax`.
    pub fn eax(&self) -> (value: u32)
        ensures
            value == self@.read32(0),
    {
        low_dword(self.general(0))
    }

    /// Writes `eax`: `rax` holds `value`, extended with zeros.
    pub fn write_eax(&mut self, value: u32)
        ensures
            final(self)@ == old(self)@.write(0, value as u64),
    {
        self.write_general(0, value as u64);
    }

    /// Reads `ecx`, the low 32 bits of `rcx`.
    pub fn ecx(&self) -> (value: u32)
        ensures
            value == self@.read32(1),
    {
        low_dword(self.general(1))
    }

    /// Writes `ecx`: `rcx` holds `value`, extended with zeros.
    pub fn write_ecx(&mut self, value: u32)
        ensures
            final(self)@ == old(self)@.write(1, value as u64),
    {
        self.write_general(1, value as u64);
    }

    /// Reads `edx`, the low 32 bits of `rdx`.
    pub fn edx(&self) -> (value: u32)
        ensures
            value == self@.read32(2),
    {
        low_dword(self.general(2))
    }

    /// Writes `edx`: `rdx` holds `value`, extended with zeros.
    pub fn write_edx(&mut self, value: u32)
        ensures
            final(self)@ == old(self)@.write(2, value as u64),
    {
        self.write_general(2, value as u64);
    }

    /// Reads `ebx`, the low 32 bits of `rbx`.
    pub fn ebx(&self) -> (value: u32)
        ensures
            value == self@.read32(3),
    {
        low_dword(self.general(3))
    }

    /// Writes `ebx`: `rbx` holds `value`, extended with zeros.
    pub fn write_ebx(&mut self, value: u32)
        ensures
            final(self)@ == old(self)@.write(3, value as u64),
    {
        self.write_general(3, value as u64);
    }

    /// Reads `esp`, the low 32 bits of `rsp`.
    pub fn esp(&self) -> (value: u32)
        ensures
            value == self@.read32(4),
    {
        low_dword(self.general(4))
    }

    /// Writes `esp`: `rsp` holds `value`, extended with zeros.
    pub fn write_esp(&mut self, value: u32)
        ensures
            final(self)@ == old(self)@.write(4, value as u64),
    {
        self.write_general(4, value as u64);
    }

    /// Reads `ebp`, the low 32 bits of `rbp`.
    pub fn ebp(&self) -> (value: u32)
        ensures
            value == self@.read32(5),
    {
        low_dword(self.general(5))
    }

    /// Writes `ebp`: `rbp` holds `value`, extended with zeros.
    pub fn write_ebp(&mut self, value: u32)
        ensures
            final(self)@ == old(self)@.write(5, value as u64),
    {
        self.write_general(5, value as u64);
    }

    /// Reads `esi`, the low 32 bits of `rsi`.
    pub fn esi(&self) -> (value: u32)
        ensures
            value == self@.read32(6),
    {
        low_dword(self.general(6))
    }

    /// Writes `esi`: `rsi` holds `value`, extended with zeros.
    pub fn write_esi(&mut self, value: u32)
        ensures
            final(self)@ == old(self)@.write(6, value as u64),
    {
        self.write_general(6, value as u64);
    }

    /// Reads `edi`, the low 32 bits of `rdi`.
    pub fn edi(&self) -> (value: u32)
        ensures
            value == self@.read32(7),
    {
        low_dword(self.general(7))
    }

    /// Writes `edi`: `rdi` holds `value`, extended with zeros.
    pub fn write_edi(&mut self, value: u32)
        ensures
            final(self)@ == old(self)@.write(7, value as u64),
    {
        self.write_general(7, value as u64);
    }

    /// Reads `r8d`, the low 32 bits of `r8`.
    pub fn r8d(&self) -> (value: u32)
        ensures
            value == self@.read32(8),
    {
        low_dword(self.general(8))
    }

    /// Writes `r8d`: `r8` holds `value`, extended with zeros.
    pub fn write_r8d(&mut self, value: u32)
        ensures
            final(self)@ == old(self)@.write(8, value as u64),
    {
        self.write_general(8, value as u64);
    }

    /// Reads `r9d`, the low 32 bits of `r9`.
    pub fn r9d(&self) -> (value: u32)
        ensures
            value == self@.read32(9),
    {
        low_dword(self.general(9))
    }

    /// Writes `r9d`: `r9` holds `value`, extended with zeros.
    pub fn write_r9d(&mut self, value: u32)
        ensures
            final(self)@ == old(self)@.write(9, value as u64),
    {
        self.write_general(9, value as u64);
    }

    /// Reads `r10d`, the low 32 bits of `r10`.
    pub fn r10d(&self) -> (value: u32)
        ensures
            value == self@.read32(10),
    {
        low_dword(self.general(10))
    }

    /// Writes `r10d`: `r10` holds `value`, extended with zeros.
    pub fn write_r10d(&mut self, value: u32)
        ensures
            final(self)@ == old(self)@.write(10, value as u64),
    {
        self.write_general(10, value as u64);
    }

    /// Reads `r11d`, the low 32 bits of `r11`.
    pub fn r11d(&self) -> (value: u32)
        ensures
            value == self@.read32(11),
    {
        low_dword(self.general(11))
    }

    /// Writes `r11d`: `r11` holds `value`, extended with zeros.
    pub fn write_r11d(&mut self, value: u32)
        ensures
            final(self)@ == old(self)@.write(11, value as u64),
    {
        self.write_general(11, value as u64);
    }

    /// Reads `r12d`, the low 32 bits of `r12`.
    pub fn r12d(&self) -> (value: u32)
        ensures
            value == self@.read32(12),
    {
        low_dword(self.general(12))
    }

    /// Writes `r12d`: `r12` holds `value`, extended with zeros.
    pub fn write_r12d(&mut self, value: u32)
        ensures
            final(self)@ == old(self)@.write(12, value as u64),
    {
        self.write_general(12, value as u64);
    }

    /// Reads `r13d`, the low 32 bits of `r13`.
    pub fn r13d(&self) -> (value: u32)
        ensures
            value == self@.read32(13),
    {
        low_dword(self.general(13))
    }

    /// Writes `r13d`: `r13` holds `value`, extended with zeros.
    pub fn write_r13d(&mut self, value: u32)
        ensures
            final(self)@ == old(self)@.write(13, value as u64),
    {
        self.write_general(13, value as u64);
    }

    /// Reads `r14d`, the low 32 bits of `r14`.
    pub fn r14d(&self) -> (value: u32)
        ensures
            value == self@.read32(14),
    {
        low_dword(self.general(14))
    }

    /// Writes `r14d`: `r14` holds `value`, extended with zeros.
    pub fn write_r14d(&mut self, value: u32)
        ensures
            final(self)@ == old(self)@.write(14, value as u64),
    {
        self.write_general(14, value as u64);
    }

    /// Reads `r15d`, the low 32 bits of `r15`.
    pub fn r15d(&self) -> (value: u32)
        ensures
            value == self@.read32(15),
    {
        low_dword(self.general(15))
    }

    /// Writes `r15d`: `r15` holds `value`, extended with zeros.
    pub fn write_r15d(&mut self, value: u32)
        ensures
            final(self)@ == old(self)@.write(15, value as u64),
    {
        self.write_general(15, value as u64);
    }

    /// Reads `ax`, the low 16 bits of `rax`.
    pub fn ax(&self) -> (value: u16)
        ensures
            value == self@.read16(0),
    {
        low_word(self.general(0))
    }

    /// Writes `ax`: `rax` holds `value`, extended with zeros.
    pub fn write_ax(&mut self, value: u16)
        ensures
            final(self)@ == old(self)@.write(0, value as u64),
    {
        self.write_general(0, value as u64);
    }

    /// Reads `cx`, the low 16 bits of `rcx`.
    pub fn cx(&self) -> (value: u16)
        ensures
            value == self@.read16(1),
    {
        low_word(self.general(1))
    }

    /// Writes `cx`: `rcx` holds `value`, extended with zeros.
    pub fn write_cx(&mut self, value: u16)
        ensures
            final(self)@ == old(self)@.write(1, value as u64),
    {
        self.write_general(1, value as u64);
    }

    /// Reads `dx`, the low 16 bits of `rdx`.
    pub fn dx(&self) -> (value: u16)
        ensures
            value == self@.read16(2),
    {
        low_word(self.general(2))
    }

    /// Writes `dx`: `rdx` holds `value`, extended with zeros.
    pub fn write_dx(&mut self, value: u16)
        ensures
            final(self)@ == old(self)@.write(2, value as u64),
    {
        self.write_general(2, value as u64);
    }

    /// Reads `bx`, the low 16 bits of `rbx`.
    pub fn bx(&self) -> (value: u16)
        ensures
            value == self@.read16(3),
    {
        low_word(self.general(3))
    }

    /// Writes `bx`: `rbx` holds `value`, extended with zeros.
    pub fn write_bx(&mut self, value: u16)
        ensures
            final(self)@ == old(self)@.write(3, value as u64),
    {
        self.write_general(3, value as u64);
    }

    /// Reads `sp`, the low 16 bits of `rsp`.
    pub fn sp(&self) -> (value: u16)
        ensures
            value == self@.read16(4),
    {
        low_word(self.general(4))
    }

    /// Writes `sp`: `rsp` holds `value`, extended with zeros.
    pub fn write_sp(&mut self, value: u16)
        ensures
            final(self)@ == old(self)@.write(4, value as u64),
    {
        self.write_general(4, value as u64);
    }

    /// Reads `bp`, the low 16 bits of `rbp`.
    pub fn bp(&self) -> (value: u16)
        ensures
            value == self@.read16(5),
    {
        low_word(self.general(5))
    }

    /// Writes `bp`: `rbp` holds `value`, extended with zeros.
    pub fn write_bp(&mut self, value: u16)
        ensures
            final(self)@ == old(self)@.write(5, value as u64),
    {
        self.write_general(5, value as u64);
    }

    /// Reads `si`, the low 16 bits of `rsi`.
    pub fn si(&self) -> (value: u16)
        ensures
            value == self@.read16(6),
    {
        low_word(self.general(6))
    }

    /// Writes `si`: `rsi` holds `value`, extended with zeros.
    pub fn write_si(&mut self, value: u16)
        ensures
            final(self)@ == old(self)@.write(6, value as u64),
    {
        self.write_general(6, value as u64);
    }

    /// Reads `di`, the low 16 bits of `rdi`.
    pub fn di(&self) -> (value: u16)
        ensures
            value == self@.read16(7),
    {
        low_word(self.general(7))
    }

    /// Writes `di`: `rdi` holds `value`, extended with zeros.
    pub fn write_di(&mut self, value: u16)
        ensures
            final(self)@ == old(self)@.write(7, value as u64),
    {
        self.write_general(7, value as u64);
    }

    /// Reads `r8w`, the low 16 bits of `r8`.
    pub fn r8w(&self) -> (value: u16)
        ensures
            value == self@.read16(8),
    {
        low_word(self.general(8))
    }

    /// Writes `r8w`: `r8` holds `value`, extended with zeros.
    pub fn write_r8w(&mut self, value: u16)
        ensures
            final(self)@ == old(self)@.write(8, value as u64),
    {
        self.write_general(8, value as u64);
    }

    /// Reads `r9w`, the low 16 bits of `r9`.
    pub fn r9w(&self) -> (value: u16)
        ensures
            value == self@.read16(9),
    {
        low_word(self.general(9))
    }

    /// Writes `r9w`: `r9` holds `value`, extended with zeros.
    pub fn write_r9w(&mut self, value: u16)
        ensures
            final(self)@ == old(self)@.write(9, value as u64),
    {
        self.write_general(9, value as u64);
    }

    /// Reads `r10w`, the low 16 bits of `r10`.
    pub fn r10w(&self) -> (value: u16)
        ensures
            value == self@.read16(10),
    {
        low_word(self.general(10))
    }

    /// Writes `r10w`: `r10` holds `value`, extended with zeros.
    pub fn write_r10w(&mut self, value: u16)
        ensures
            final(self)@ == old(self)@.write(10, value as u64),
    {
        self.write_general(10, value as u64);
    }

    /// Reads `r11w`, the low 16 bits of `r11`.
    pub fn r11w(&self) -> (value: u16)
        ensures
            value == self@.read16(11),
    {
        low_word(self.general(11))
    }

    /// Writes `r11w`: `r11` holds `value`, extended with zeros.
    pub fn write_r11w(&mut self, value: u16)
        ensures
            final(self)@ == old(self)@.write(11, value as u64),
    {
        self.write_general(11, value as u64);
    }

    /// Reads `r12w`, the low 16 bits of `r12`.
    pub fn r12w(&self) -> (value: u16)
        ensures
            value == self@.read16(12),
    {
        low_word(self.general(12))
    }

    /// Writes `r12w`: `r12` holds `value`, extended with zeros.
    pub fn write_r12w(&mut self, value: u16)
        ensures
            final(self)@ == old(self)@.write(12, value as u64),
    {
        self.write_general(12, value as u64);
    }

    /// Reads `r13w`, the low 16 bits of `r13`.
    pub fn r13w(&self) -> (value: u16)
        ensures
            value == self@.read16(13),
    {
        low_word(self.general(13))
    }

    /// Writes `r13w`: `r13` holds `value`, extended with zeros.
    pub fn write_r13w(&mut self, value: u16)
        ensures
            final(self)@ == old(self)@.write(13, value as u64),
    {
        self.write_general(13, value as u64);
    }

    /// Reads `r14w`, the low 16 bits of `r14`.
    pub fn r14w(&self) -> (value: u16)
        ensures
            value == self@.read16(14),
    {
        low_word(self.general(14))
    }

    /// Writes `r14w`: `r14` holds `value`, extended with zeros.
    pub fn write_r14w(&mut self, value: u16)
        ensures
            final(self)@ == old(self)@.write(14, value as u64),
    {
        self.write_general(14, value as u64);
    }

    /// Reads `r15w`, the low 16 bits of `r15`.
    pub fn r15w(&self) -> (value: u16)
        ensures
            value == self@.read16(15),
    {
        low_word(self.general(15))
    }

    /// Writes `r15w`: `r15` holds `value`, extended with zeros.
    pub fn write_r15w(&mut self, value: u16)
        ensures
            final(self)@ == old(self)@.write(15, value as u64),
    {
        self.write_general(15, value as u64);
    }

    /// Reads `al`, the low 8 bits of `rax`.
    pub fn al(&self) -> (value: u8)
        ensures
            value == self@.read8(0),
    {
        low_byte(self.general(0))
    }

    /// Writes `al`: `rax` holds `value`, extended with zeros.
    pub fn write_al(&mut self, value: u8)
        ensures
            final(self)@ == old(self)@.write(0, value as u64),
    {
        self.write_general(0, value as u64);
    }

    /// Reads `cl`, the low 8 bits of `rcx`.
    pub fn cl(&self) -> (value: u8)
        ensures
            value == self@.read8(1),
    {
        low_byte(self.general(1))
    }

    /// Writes `cl`: `rcx` holds `value`, extended with zeros.
    pub fn write_cl(&mut self, value: u8)
        ensures
            final(self)@ == old(self)@.write(1, value as u64),
    {
        self.write_general(1, value as u64);
    }

    /// Reads `dl`, the low 8 bits of `rdx`.
    pub fn dl(&self) -> (value: u8)
        ensures
            value == self@.read8(2),
    {
        low_byte(self.general(2))
    }

    /// Writes `dl`: `rdx` holds `value`, extended with zeros.
    pub fn write_dl(&mut self, value: u8)
        ensures
            final(self)@ == old(self)@.write(2, value as u64),
    {
        self.write_general(2, value as u64);
    }

    /// Reads `bl`, the low 8 bits of `rbx`.
    pub fn bl(&self) -> (value: u8)
        ensures
            value == self@.read8(3),
    {
        low_byte(self.general(3))
    }

    /// Writes `bl`: `rbx` holds `value`, extended with zeros.
    pub fn write_bl(&mut self, value: u8)
        ensures
            final(self)@ == old(self)@.write(3, value as u64),
    {
        self.write_general(3, value as u64);
    }

    /// Reads `spl`, the low 8 bits of `rsp`.
    pub fn spl(&self) -> (value: u8)
        ensures
            value == self@.read8(4),
    {
        low_byte(self.general(4))
    }

    /// Writes `spl`: `rsp` holds `value`, extended with zeros.
    pub fn write_spl(&mut self, value: u8)
        ensures
            final(self)@ == old(self)@.write(4, value as u64),
    {
        self.write_general(4, value as u64);
    }

    /// Reads `bpl`, the low 8 bits of `rbp`.
    pub fn bpl(&self) -> (value: u8)
        ensures
            value == self@.read8(5),
    {
        low_byte(self.general(5))
    }

    /// Writes `bpl`: `rbp` holds `value`, extended with zeros.
    pub fn write_bpl(&mut self, value: u8)
        ensures
            final(self)@ == old(self)@.write(5, value as u64),
    {
        self.write_general(5, value as u64);
    }

    /// Reads `sil`, the low 8 bits of `rsi`.
    pub fn sil(&self) -> (value: u8)
        ensures
            value == self@.read8(6),
    {
        low_byte(self.general(6))
    }

    /// Writes `sil`: `rsi` holds `value`, extended with zeros.
    pub fn write_sil(&mut self, value: u8)
        ensures
            final(self)@ == old(self)@.write(6, value as u64),
    {
        self.write_general(6, value as u64);
    }

    /// Reads `dil`, the low 8 bits of `rdi`.
    pub fn dil(&self) -> (value: u8)
        ensures
            value == self@.read8(7),
    {
        low_byte(self.general(7))
    }

    /// Writes `dil`: `rdi` holds `value`, extended with zeros.
    pub fn write_dil(&mut self, value: u8)
        ensures
            final(self)@ == old(self)@.write(7, value as u64),
    {
        self.write_general(7, value as u64);
    }

    /// Reads `r8b`, the low 8 bits of `r8`.
    pub fn r8b(&self) -> (value: u8)
        ensures
            value == self@.read8(8),
    {
        low_byte(self.general(8))
    }

    /// Writes `r8b`: `r8` holds `value`, extended with zeros.
    pub fn write_r8b(&mut self, value: u8)
        ensures
            final(self)@ == old(self)@.write(8, value as u64),
    {
        self.write_general(8, value as u64);
    }

    /// Reads `r9b`, the low 8 bits of `r9`.
    pub fn r9b(&self) -> (value: u8)
        ensures
            value == self@.read8(9),
    {
        low_byte(self.general(9))
    }

    /// Writes `r9b`: `r9` holds `value`, extended with zeros.
    pub fn write_r9b(&mut self, value: u8)
        ensures
            final(self)@ == old(self)@.write(9, value as u64),
    {
        self.write_general(9, value as u64);
    }

    /// Reads `r10b`, the low 8 bits of `r10`.
    pub fn r10b(&self) -> (value: u8)
        ensures
            value == self@.read8(10),
    {
        low_byte(self.general(10))
    }

    /// Writes `r10b`: `r10` holds `value`, extended with zeros.
    pub fn write_r10b(&mut self, value: u8)
        ensures
            final(self)@ == old(self)@.write(10, value as u64),
    {
        self.write_general(10, value as u64);
    }

    /// Reads `r11b`, the low 8 bits of `r11`.
    pub fn r11b(&self) -> (value: u8)
        ensures
            value == self@.read8(11),
    {
        low_byte(self.general(11))
    }

    /// Writes `r11b`: `r11` holds `value`, extended with zeros.
    pub fn write_r11b(&mut self, value: u8)
        ensures
            final(self)@ == old(self)@.write(11, value as u64),
    {
        self.write_general(11, value as u64);
    }

    /// Reads `r12b`, the low 8 bits of `r12`.
    pub fn r12b(&self) -> (value: u8)
        ensures
            value == self@.read8(12),
    {
        low_byte(self.general(12))
    }

    /// Writes `r12b`: `r12` holds `value`, extended with zeros.
    pub fn write_r12b(&mut self, value: u8)
        ensures
            final(self)@ == old(self)@.write(12, value as u64),
    {
        self.write_general(12, value as u64);
    }

    /// Reads `r13b`, the low 8 bits of `r13`.
    pub fn r13b(&self) -> (value: u8)
        ensures
            value == self@.read8(13),
    {
        low_byte(self.general(13))
    }

    /// Writes `r13b`: `r13` holds `value`, extended with zeros.
    pub fn write_r13b(&mut self, value: u8)
        ensures
            final(self)@ == old(self)@.write(13, value as u64),
    {
        self.write_general(13, value as u64);
    }

    /// Reads `r14b`, the low 8 bits of `r14`.
    pub fn r14b(&self) -> (value: u8)
        ensures
            value == self@.read8(14),
    {
        low_byte(self.general(14))
    }

    /// Writes `r14b`: `r14` holds `value`, extended with zeros.
    pub fn write_r14b(&mut self, value: u8)
        ensures
            final(self)@ == old(self)@.write(14, value as u64),
    {
        self.write_general(14, value as u64);
    }

    /// Reads `r15b`, the low 8 bits of `r15`.
    pub fn r15b(&self) -> (value: u8)
        ensures
            value == self@.read8(15),
    {
        low_byte(self.general(15))
    }

    /// Writes `r15b`: `r15` holds `value`, extended with zeros.
    pub fn write_r15b(&mut self, value: u8)
        ensures
            final(self)@ == old(self)@.write(15, value as u64),
    {
        self.write_general(15, value as u64);
    }
}

} // verus!
