use cpu::x86_64::paging::PagingMode;
use cpu::x86_64::paging::MMU;
use cpu::x86_64::register::low_byte;
use cpu::x86_64::register::low_dword;
use cpu::x86_64::register::low_word;
use cpu::x86_64::register::Flags;
use cpu::x86_64::register::Registers;

#[test]
fn test_rw() {
    let mut reg = Registers::new();
    reg.write_rax(0x12_34_56_78_90_ab_cd_ef);
    assert_eq!(reg.rax(), 0x1234567890abcdef);
    assert_eq!(reg.eax(), 0x90abcdef);
    assert_eq!(reg.ax(), 0xcdef);
    assert_eq!(reg.al(), 0xef);
}

#[test]
fn new_registers_are_zero() {
    let reg = Registers::new();
    for index in 0..16 {
        assert_eq!(reg.general(index), 0);
        assert_eq!(reg.zmm(index).read_u8x64().to_array(), [0u8; 64]);
    }
    assert_eq!(reg.rip(), 0);
    assert_eq!(reg.rflags().bits(), 0);
    assert!(reg.rflags().is_empty());
}

#[test]
fn each_width_round_trips() {
    let mut reg = Registers::new();
    reg.write_rbx(u64::MAX);
    assert_eq!(reg.rbx(), u64::MAX);
    reg.write_ebx(0xdead_beef);
    assert_eq!(reg.ebx(), 0xdead_beef);
    reg.write_bx(0xbeef);
    assert_eq!(reg.bx(), 0xbeef);
    reg.write_bl(0xef);
    assert_eq!(reg.bl(), 0xef);
}

#[test]
fn narrow_write_clears_the_bits_above() {
    let mut reg = Registers::new();
    reg.write_rcx(0xffff_ffff_ffff_ffff);
    reg.write_ecx(0x1234_5678);
    assert_eq!(reg.rcx(), 0x1234_5678);
    reg.write_rcx(0xffff_ffff_ffff_ffff);
    reg.write_cx(0x1234);
    assert_eq!(reg.rcx(), 0x1234);
    assert_eq!(reg.ecx(), 0x1234);
    reg.write_rcx(0xffff_ffff_ffff_ffff);
    reg.write_cl(0x12);
    assert_eq!(reg.rcx(), 0x12);
    assert_eq!(reg.cx(), 0x12);
}

#[test]
fn low_bits_are_taken() {
    assert_eq!(low_dword(0x1234_5678_90ab_cdef), 0x90ab_cdef);
    assert_eq!(low_word(0x1234_5678_90ab_cdef), 0xcdef);
    assert_eq!(low_byte(0x1234_5678_90ab_cdef), 0xef);
    assert_eq!(low_dword(u64::MAX), u32::MAX);
    assert_eq!(low_word(0x1_0000), 0);
    assert_eq!(low_byte(0x100), 0);
}

#[test]
fn names_are_sixteen_registers() {
    let mut reg = Registers::new();
    reg.write_rax(100);
    reg.write_rcx(101);
    reg.write_rdx(102);
    reg.write_rbx(103);
    reg.write_rsp(104);
    reg.write_rbp(105);
    reg.write_rsi(106);
    reg.write_rdi(107);
    reg.write_r8(108);
    reg.write_r9(109);
    reg.write_r10(110);
    reg.write_r11(111);
    reg.write_r12(112);
    reg.write_r13(113);
    reg.write_r14(114);
    reg.write_r15(115);
    for index in 0..16 {
        assert_eq!(reg.general(index), 100 + index as u64);
    }
    let wide = [
        reg.rax(), reg.rcx(), reg.rdx(), reg.rbx(), reg.rsp(), reg.rbp(), reg.rsi(), reg.rdi(),
        reg.r8(), reg.r9(), reg.r10(), reg.r11(), reg.r12(), reg.r13(), reg.r14(), reg.r15(),
    ];
    let dwords = [
        reg.eax(), reg.ecx(), reg.edx(), reg.ebx(), reg.esp(), reg.ebp(), reg.esi(), reg.edi(),
        reg.r8d(), reg.r9d(), reg.r10d(), reg.r11d(), reg.r12d(), reg.r13d(), reg.r14d(),
        reg.r15d(),
    ];
    let words = [
        reg.ax(), reg.cx(), reg.dx(), reg.bx(), reg.sp(), reg.bp(), reg.si(), reg.di(),
        reg.r8w(), reg.r9w(), reg.r10w(), reg.r11w(), reg.r12w(), reg.r13w(), reg.r14w(),
        reg.r15w(),
    ];
    let bytes = [
        reg.al(), reg.cl(), reg.dl(), reg.bl(), reg.spl(), reg.bpl(), reg.sil(), reg.dil(),
        reg.r8b(), reg.r9b(), reg.r10b(), reg.r11b(), reg.r12b(), reg.r13b(), reg.r14b(),
        reg.r15b(),
    ];
    for index in 0..16 {
        assert_eq!(wide[index], 100 + index as u64);
        assert_eq!(dwords[index], 100 + index as u32);
        assert_eq!(words[index], 100 + index as u16);
        assert_eq!(bytes[index], 100 + index as u8);
    }
}

#[test]
fn narrow_writers_reach_their_register() {
    let mut reg = Registers::new();
    reg.write_esi(1);
    reg.write_r9d(2);
    reg.write_di(3);
    reg.write_r10w(4);
    reg.write_spl(5);
    reg.write_r15b(6);
    reg.write_general(12, 7);
    assert_eq!(reg.rsi(), 1);
    assert_eq!(reg.r9(), 2);
    assert_eq!(reg.rdi(), 3);
    assert_eq!(reg.r10(), 4);
    assert_eq!(reg.rsp(), 5);
    assert_eq!(reg.r15(), 6);
    assert_eq!(reg.r12(), 7);
    assert_eq!(reg.rax(), 0);
}

#[test]
fn instruction_pointer_is_kept() {
    let mut reg = Registers::new();
    reg.write_rip(0xffff_8000_0000_1000);
    assert_eq!(reg.rip(), 0xffff_8000_0000_1000);
    assert_eq!(reg.rax(), 0);
}

#[test]
fn flags_are_set_cleared_and_tested() {
    let mut reg = Registers::new();
    reg.rflags_mut().insert(Flags::CARRY | Flags::ZERO);
    assert_eq!(reg.rflags().bits(), 0x41);
    assert!(reg.rflags().contains(Flags::CARRY));
    assert!(reg.rflags().contains(Flags::CARRY | Flags::ZERO));
    assert!(!reg.rflags().contains(Flags::CARRY | Flags::SIGN));
    assert!(reg.rflags().intersects(Flags::CARRY | Flags::SIGN));
    assert!(!reg.rflags().intersects(Flags::SIGN));
    reg.rflags_mut().remove(Flags::CARRY);
    assert_eq!(reg.rflags().bits(), 0x40);
    reg.rflags_mut().toggle(Flags::ZERO | Flags::OVERFLOW);
    assert_eq!(reg.rflags().bits(), 0x800);
    reg.rflags_mut().set(Flags::DIRECTION, true);
    reg.rflags_mut().set(Flags::OVERFLOW, false);
    assert_eq!(reg.rflags().bits(), 0x400);
    assert_eq!(reg.rax(), 0);
}

#[test]
fn flag_masks_are_single_bits() {
    let masks = [
        (Flags::CARRY, 0),
        (Flags::PARITY, 2),
        (Flags::ADJUST, 4),
        (Flags::ZERO, 6),
        (Flags::SIGN, 7),
        (Flags::TRAP, 8),
        (Flags::INTERRUPT, 9),
        (Flags::DIRECTION, 10),
        (Flags::OVERFLOW, 11),
        (Flags::IOPL0, 12),
        (Flags::IOPL1, 13),
        (Flags::NESTED, 14),
        (Flags::RESUME, 16),
        (Flags::VIRTUAL8086, 17),
        (Flags::ALIGNMENT, 18),
        (Flags::VIRTUALINTERRUPT, 19),
        (Flags::VIRTUALINTERRUPTPENDING, 20),
        (Flags::ID, 21),
        (Flags::AES, 30),
        (Flags::ALTERNATEINSTRUCTIONSET, 31),
    ];
    let mut all = 0u64;
    for (mask, bit) in masks {
        assert_eq!(mask, 1u64 << bit);
        all |= mask;
    }
    assert_eq!(all, Flags::ALL);
    assert_eq!(Flags::all().bits(), Flags::ALL);
}

#[test]
fn flags_from_bits() {
    assert_eq!(Flags::from_bits(0x41).map(|flags| flags.bits()), Some(0x41));
    assert_eq!(Flags::from_bits(0x2), None);
    assert_eq!(Flags::from_bits(0), Some(Flags::empty()));
    assert_eq!(Flags::from_bits_truncate(0x43).bits(), 0x41);
    assert_eq!(Flags::from_bits_truncate(u64::MAX).bits(), Flags::ALL);
    assert_eq!(Flags::from_bits_retain(0x43).bits(), 0x43);
}

#[test]
fn processor_facts() {
    assert_eq!(cpu::x86_64::general_register_size(), 8);
    assert_eq!(cpu::x86_64::endianness(), cpu::Endianness::LittleEndian);
    let real = cpu::x86_64::features(&MMU::new(PagingMode::Real));
    assert!(real.simd);
    assert!(real.unaligned_memory_access);
    assert!(!real.paging);
    assert!(cpu::x86_64::features(&MMU::new(PagingMode::Protected)).paging);
    assert!(cpu::x86_64::features(&MMU::new(PagingMode::Long)).paging);
    assert!(cpu::x86_64::features(&MMU::new(PagingMode::LongLA57)).paging);
}

#[test]
fn paging_mode_is_kept() {
    assert_eq!(MMU::new(PagingMode::Long).paging_mode(), PagingMode::Long);
    assert_eq!(MMU::new(PagingMode::Real).paging_mode(), PagingMode::Real);
    assert!(MMU::new(PagingMode::LongLA57).paging_mode() != PagingMode::Protected);
}
