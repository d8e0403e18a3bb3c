use cpu::simd::i8x16;
use cpu::simd::u16x4;
use cpu::simd::u8x16;
use cpu::simd::Lane;
use cpu::simd::Simd;
use cpu::x86_64::register::Registers;
use cpu::x86_64::simd::AVX512Register;

#[test]
fn test() {
    let mut reg = AVX512Register::new();
    reg.xmm_mut()
        .write_i8x16_array([1, 2, 3, 4, 5, 6, 7, 8, 9, 10, -1, -2, -3, -4, -5, -6]);
    assert_eq!(
        reg.xmm().read_i8x16(),
        i8x16::from_array([1, 2, 3, 4, 5, 6, 7, 8, 9, 10, -1, -2, -3, -4, -5, -6])
    );
}

#[test]
fn new_register_is_zero() {
    let reg = AVX512Register::new();
    assert_eq!(reg.zmm().read_u8x64().to_array(), [0u8; 64]);
    assert_eq!(reg.ymm().read_i32x8().to_array(), [0i32; 8]);
    assert_eq!(reg.xmm().read_u64x2().to_array(), [0u64; 2]);
}

#[test]
fn vector_holds_its_lanes() {
    let vector = u16x4::from_array([10, 20, 30, 40]);
    assert_eq!(vector[0], 10);
    assert_eq!(vector[3], 40);
    assert_eq!(vector.to_array(), [10, 20, 30, 40]);
    assert_eq!(u16x4::new().to_array(), [0, 0, 0, 0]);
    assert_eq!(Simd::<i64, 2>::new(), Simd::from_array([0i64, 0]));
    assert!(u16x4::from_array([1, 2, 3, 4]) != u16x4::from_array([1, 2, 3, 5]));
}

#[test]
fn lane_is_kept_as_its_low_byte() {
    assert_eq!(<u8 as Lane>::slot(), 1);
    assert_eq!(<i16 as Lane>::slot(), 2);
    assert_eq!(<u32 as Lane>::slot(), 4);
    assert_eq!(<i64 as Lane>::slot(), 8);
    assert_eq!(<usize as Lane>::slot(), std::mem::size_of::<usize>());
    assert_eq!(0x1234u16.narrow(), 0x34);
    assert_eq!((-1i32).narrow(), 0xff);
    assert_eq!((-2i8).narrow(), 0xfe);
    assert_eq!(<i8 as Lane>::widen(0xfe), -2);
    assert_eq!(<i16 as Lane>::widen(0xfe), 0xfe);
    assert_eq!(<u64 as Lane>::widen(0xfe), 0xfe);
    assert_eq!(<u8 as Lane>::widen(7), 7);
    assert_eq!(<i64 as Lane>::zero(), 0);
}

#[test]
fn wide_lane_keeps_its_low_byte_and_leaves_the_slot() {
    let mut reg = AVX512Register::new();
    reg.xmm_mut().write_u8x16_array([0xaa; 16]);
    reg.xmm_mut().write_u16x8_array([0x1201, 0x1202, 0x1203, 0x1204, 5, 6, 7, 0xffff]);
    assert_eq!(
        reg.xmm().read_u8x16(),
        u8x16::from_array([
            1, 0xaa, 2, 0xaa, 3, 0xaa, 4, 0xaa, 5, 0xaa, 6, 0xaa, 7, 0xaa, 0xff, 0xaa
        ])
    );
    assert_eq!(reg.xmm().read_u16x8().to_array(), [1, 2, 3, 4, 5, 6, 7, 0xff]);
    assert_eq!(reg.xmm().read_i16x8().to_array(), [1, 2, 3, 4, 5, 6, 7, 0xff]);
    assert_eq!(reg.xmm().read_u32x4().to_array(), [1, 3, 5, 7]);
    assert_eq!(reg.xmm().read_u64x2().to_array(), [1, 5]);
    assert_eq!(reg.xmm().read_i8x4().to_array(), [1, -86, 2, -86]);
}

#[test]
fn signed_wide_lane_loses_its_sign() {
    let mut reg = AVX512Register::new();
    reg.ymm_mut().write_i32x4_array([-1, -256, 255, 256]);
    assert_eq!(reg.ymm().read_i32x4().to_array(), [255, 0, 255, 0]);
    reg.zmm_mut().write_i64x2(Simd::from_array([-2, i64::MIN]));
    assert_eq!(reg.zmm().read_i64x2().to_array(), [254, 0]);
}

#[test]
fn fewer_lanes_touch_fewer_slots() {
    let mut reg = AVX512Register::new();
    reg.zmm_mut().write_u8x64_array([9; 64]);
    reg.zmm_mut().write_u32x2_array([1, 2]);
    let bytes = reg.zmm().read_u8x64().to_array();
    assert_eq!(&bytes[0..12], &[1, 9, 9, 9, 2, 9, 9, 9, 9, 9, 9, 9]);
    assert_eq!(reg.zmm().read_u32x1().to_array(), [1]);
    assert_eq!(reg.zmm().read_u32x4().to_array(), [1, 2, 9, 9]);
}

#[test]
fn narrow_views_see_wide_writes() {
    let mut reg = AVX512Register::new();
    let mut bytes = [0u8; 64];
    for (i, byte) in bytes.iter_mut().enumerate() {
        *byte = i as u8 + 1;
    }
    reg.zmm_mut().write_u8x64_array(bytes);
    let mut low32 = [0u8; 32];
    low32.copy_from_slice(&bytes[0..32]);
    let mut low16 = [0u8; 16];
    low16.copy_from_slice(&bytes[0..16]);
    assert_eq!(reg.ymm().read_u8x32().to_array(), low32);
    assert_eq!(reg.xmm().read_u8x16().to_array(), low16);
    assert_eq!(reg.zmm().as_ymm().read_u8x32().to_array(), low32);
    assert_eq!(reg.zmm().as_xmm().read_u8x16().to_array(), low16);
    assert_eq!(reg.ymm().as_xmm().read_u8x16().to_array(), low16);
    assert_eq!(reg.zmm().as_ymm(), reg.ymm());
    assert_eq!(reg.zmm().as_xmm(), reg.xmm());
    assert_eq!(reg.zmm().read_u8x64().to_array(), bytes);
}

#[test]
fn narrow_write_leaves_the_rest_of_the_register() {
    let mut reg = AVX512Register::new();
    reg.zmm_mut().write_u8x64_array([7; 64]);
    reg.xmm_mut().write_u8x16_array([1; 16]);
    reg.ymm_mut().write_u8x2(Simd::from_array([2, 3]));
    let bytes = reg.zmm().read_u8x64().to_array();
    assert_eq!(&bytes[0..4], &[2, 3, 1, 1]);
    assert_eq!(&bytes[4..16], &[1; 12]);
    assert_eq!(&bytes[16..64], &[7; 48]);
}

#[test]
fn mutable_view_reads_what_it_wrote() {
    let mut reg = AVX512Register::new();
    let mut view = reg.ymm_mut();
    view.write_i8x32_array([-3; 32]);
    assert_eq!(view.read_i8x32().to_array(), [-3; 32]);
    assert_eq!(view.read_u8x1().to_array(), [0xfd]);
    let mut view = reg.zmm_mut();
    assert_eq!(view.read_u8x64().to_array()[31], 0xfd);
    assert_eq!(view.read_u8x64().to_array()[32], 0);
    view.write_u64x8_array([1, 2, 3, 4, 5, 6, 7, 8]);
    assert_eq!(view.read_u64x8().to_array(), [1, 2, 3, 4, 5, 6, 7, 8]);
    let view = reg.xmm_mut();
    assert_eq!(view.read_u64x2().to_array(), [1, 2]);
}

#[test]
fn generic_accessors_agree_with_named_ones() {
    let mut reg = AVX512Register::new();
    reg.xmm_mut().write_lanes::<u16, 8>(&[1, 2, 3, 4, 5, 6, 7, 8]);
    assert_eq!(reg.xmm().read_lanes::<u16, 8>(), reg.xmm().read_u16x8());
    assert_eq!(reg.zmm().read_lanes::<u16, 8>().to_array(), [1, 2, 3, 4, 5, 6, 7, 8]);
}

#[test]
fn register_file_has_sixteen_vector_registers() {
    let mut reg = Registers::new();
    for index in 0..16 {
        reg.zmm_mut(index).write_u8x64_array([index as u8 + 1; 64]);
    }
    reg.ymm_mut(3).write_u8x1_array([0x33]);
    reg.xmm_mut(15).write_u8x1_array([0xff]);
    for index in 0..16 {
        let first = match index {
            3 => 0x33,
            15 => 0xff,
            _ => index as u8 + 1,
        };
        assert_eq!(reg.xmm(index).read_u8x2().to_array(), [first, index as u8 + 1]);
        assert_eq!(reg.ymm(index).read_u8x32().to_array()[31], index as u8 + 1);
        assert_eq!(reg.zmm(index).read_u8x64().to_array()[63], index as u8 + 1);
    }
    assert_eq!(reg.rax(), 0);
}
