use cpu::device::DRAM;
use cpu::pow2::round_up_to_power_of_two;
use cpu::Addressable;
use cpu::Device;
use cpu::MemoryAccessError;

#[test]
fn test_dram_alloc() {
    let mut dram = DRAM::new(0, 4 * 1024 * 1024);
    let addr = dram.allocate(0, 1024).unwrap();
    assert_eq!(addr, 0);
    let addr = dram.allocate(0, 1024);
    assert!(addr.is_err());
    let addr = dram.read_byte(4097);
    assert!(addr.is_err());
    let addr = dram.allocate(16 * 1024, 1024).unwrap();
    assert_eq!(addr, 16 * 1024);
    dram.write_byte(16 * 1024 + 1, 0x42).unwrap();
    let res = dram.read_byte(16 * 1024 + 1).unwrap();
    assert_eq!(res, 0x42);
}

#[test]
fn repeated_allocation_names_the_segment() {
    let mut dram = DRAM::new(0, 4 * 1024 * 1024);
    assert_eq!(dram.allocate(0, 1024), Ok(0));
    assert_eq!(
        dram.allocate(0, 1024),
        Err(MemoryAccessError::AddressAlreadyMapped { address: 0 })
    );
    assert_eq!(
        dram.allocate(100, 16),
        Err(MemoryAccessError::AddressAlreadyMapped { address: 0 })
    );
}

#[test]
fn read_behind_first_block_is_not_mapped() {
    let mut dram = DRAM::new(0, 4 * 1024 * 1024);
    assert_eq!(dram.allocate(0, 1024), Ok(0));
    assert_eq!(dram.read_byte(4095), Ok(0));
    assert_eq!(dram.read_byte(4096), Err(MemoryAccessError::AddressNotMapped));
    assert_eq!(dram.read_byte(4097), Err(MemoryAccessError::AddressNotMapped));
}

#[test]
fn unbacked_address_is_not_mapped() {
    let dram = DRAM::new(0, 4096);
    assert_eq!(dram.read_byte(0), Err(MemoryAccessError::AddressNotMapped));
    assert_eq!(dram.read_byte(4095), Err(MemoryAccessError::AddressNotMapped));
    assert_eq!(
        dram.read_bytes(17, 0).map(|bytes| bytes.to_vec()),
        Err(MemoryAccessError::AddressNotMapped)
    );
    let mut dram = dram;
    assert_eq!(dram.write_byte(17, 1), Err(MemoryAccessError::AddressNotMapped));
    assert_eq!(dram.write_bytes(17, &[1, 2]), Err(MemoryAccessError::AddressNotMapped));
}

#[test]
fn access_outside_window_is_out_of_bounds() {
    let mut dram = DRAM::new(0x1000, 0x1000);
    assert_eq!(dram.allocate(0x1000, 16), Ok(0x1000));
    assert_eq!(
        dram.read_byte(0xfff),
        Err(MemoryAccessError::OutOfBounds { address: 0xfff, size: 1 })
    );
    assert_eq!(
        dram.read_byte(0x2000),
        Err(MemoryAccessError::OutOfBounds { address: 0x2000, size: 1 })
    );
    assert_eq!(
        dram.write_byte(0x2000, 9),
        Err(MemoryAccessError::OutOfBounds { address: 0x2000, size: 1 })
    );
    assert_eq!(
        dram.read_bytes(0x2000, 4).map(|bytes| bytes.to_vec()),
        Err(MemoryAccessError::OutOfBounds { address: 0x2000, size: 1 })
    );
    assert_eq!(
        dram.write_bytes(0, &[1, 2, 3]),
        Err(MemoryAccessError::OutOfBounds { address: 0, size: 1 })
    );
    assert_eq!(dram.read_byte(0x1000), Ok(0));
    assert_eq!(dram.read_byte(0x1fff), Ok(0));
}

#[test]
fn window_is_rounded_to_power_of_two() {
    let dram = DRAM::new(0, 5000);
    assert_eq!(dram.start_address(), 0);
    assert_eq!(dram.end_address(), 8192);
    let dram = DRAM::new(64, 0);
    assert_eq!(dram.start_address(), 64);
    assert_eq!(dram.end_address(), 65);
    let dram = DRAM::new(0x10_0000, 4 * 1024 * 1024);
    assert_eq!(dram.end_address(), 0x10_0000 + 4 * 1024 * 1024);
    assert_eq!(dram.name(), "DRAM");
}

#[test]
fn rounding_up_gives_least_power_of_two() {
    assert_eq!(round_up_to_power_of_two(0), 1);
    assert_eq!(round_up_to_power_of_two(1), 1);
    assert_eq!(round_up_to_power_of_two(2), 2);
    assert_eq!(round_up_to_power_of_two(3), 4);
    assert_eq!(round_up_to_power_of_two(4096), 4096);
    assert_eq!(round_up_to_power_of_two(4097), 8192);
    assert_eq!(round_up_to_power_of_two(5000), 8192);
}

#[test]
fn request_wider_than_window_is_out_of_bounds() {
    let mut dram = DRAM::new(0, 8192);
    assert_eq!(
        dram.allocate(12, 8193),
        Err(MemoryAccessError::OutOfBounds { address: 12, size: 8193 })
    );
    assert_eq!(dram.read_byte(0), Err(MemoryAccessError::AddressNotMapped));
    assert_eq!(dram.allocate(12, 8192), Ok(0));
}

#[test]
fn allocation_starts_at_block_and_backs_a_power_of_two() {
    let mut dram = DRAM::new(0, 4 * 1024 * 1024);
    assert_eq!(dram.allocate(4100, 10), Ok(4096));
    assert_eq!(dram.read_byte(4096), Ok(0));
    assert_eq!(dram.read_byte(8191), Ok(0));
    assert_eq!(dram.read_byte(8192), Err(MemoryAccessError::AddressNotMapped));
    assert_eq!(dram.read_byte(4095), Err(MemoryAccessError::AddressNotMapped));

    // 5000 bytes and the 4 bytes before the hint make 5004, which rounds to 8192.
    assert_eq!(dram.allocate(0x10_0004, 5000), Ok(0x10_0000));
    assert_eq!(dram.read_byte(0x10_0000 + 8191), Ok(0));
    assert_eq!(dram.read_byte(0x10_0000 + 8192), Err(MemoryAccessError::AddressNotMapped));
}

#[test]
fn allocation_of_exactly_one_block() {
    let mut dram = DRAM::new(0, 1024 * 1024);
    assert_eq!(dram.allocate(0x8000, 4096), Ok(0x8000));
    assert_eq!(dram.read_byte(0x8000 + 4095), Ok(0));
    assert_eq!(dram.read_byte(0x8000 + 4096), Err(MemoryAccessError::AddressNotMapped));
    assert_eq!(dram.allocate(0x2_0001, 4096), Ok(0x2_0000));
    assert_eq!(dram.read_byte(0x2_0000 + 8191), Ok(0));
    assert_eq!(dram.read_byte(0x2_0000 + 8192), Err(MemoryAccessError::AddressNotMapped));
}

#[test]
fn write_then_read_gives_the_byte() {
    let mut dram = DRAM::new(0, 4 * 1024 * 1024);
    let address = dram.allocate(16 * 1024, 1024).unwrap();
    assert_eq!(address, 16384);
    assert_eq!(dram.write_byte(address, 0x7f), Ok(()));
    assert_eq!(dram.read_byte(address), Ok(0x7f));
    assert_eq!(dram.write_byte(16385, 0x42), Ok(()));
    assert_eq!(dram.read_byte(16385), Ok(0x42));
    assert_eq!(dram.read_byte(address), Ok(0x7f));
    assert_eq!(dram.read_byte(16386), Ok(0));
}

#[test]
fn extension_keeps_start_and_bytes() {
    let mut dram = DRAM::new(0, 4 * 1024 * 1024);
    assert_eq!(dram.allocate(0, 10), Ok(0));
    assert_eq!(dram.write_byte(100, 0x11), Ok(()));
    assert_eq!(dram.write_byte(4095, 0x22), Ok(()));
    // The segment ends at 4096: the allocation there extends it and answers its key.
    assert_eq!(dram.allocate(4096, 5000), Ok(0));
    assert_eq!(dram.read_byte(0), Ok(0));
    assert_eq!(dram.read_byte(100), Ok(0x11));
    assert_eq!(dram.read_byte(4095), Ok(0x22));
    assert_eq!(dram.read_byte(4096), Ok(0));
    assert_eq!(dram.read_byte(4096 + 8191), Ok(0));
    assert_eq!(dram.read_byte(4096 + 8192), Err(MemoryAccessError::AddressNotMapped));
    assert_eq!(
        dram.allocate(4096, 5000),
        Err(MemoryAccessError::AddressAlreadyMapped { address: 0 })
    );
}

#[test]
fn segment_grows_backward_and_moves_its_start() {
    let mut dram = DRAM::new(0, 4 * 1024 * 1024);
    assert_eq!(dram.allocate(8192, 10), Ok(8192));
    assert_eq!(dram.write_byte(8192, 7), Ok(()));
    assert_eq!(dram.write_byte(12287, 9), Ok(()));
    // 4096 bytes from 4096 on reach the segment at 8192 exactly.
    assert_eq!(dram.allocate(4096, 10), Ok(4096));
    assert_eq!(dram.read_byte(4095), Err(MemoryAccessError::AddressNotMapped));
    assert_eq!(dram.read_byte(4096), Ok(0));
    assert_eq!(dram.read_byte(8191), Ok(0));
    assert_eq!(dram.read_byte(8192), Ok(7));
    assert_eq!(dram.read_byte(12287), Ok(9));
    assert_eq!(dram.read_byte(12288), Err(MemoryAccessError::AddressNotMapped));
    assert_eq!(
        dram.allocate(4096, 10),
        Err(MemoryAccessError::AddressAlreadyMapped { address: 4096 })
    );
    assert_eq!(
        dram.allocate(8192, 10),
        Err(MemoryAccessError::AddressAlreadyMapped { address: 4096 })
    );
}

#[test]
fn grown_segment_is_named_by_its_new_start() {
    let mut dram = DRAM::new(0, 4 * 1024 * 1024);
    assert_eq!(dram.allocate(16384, 1024), Ok(16384));
    assert_eq!(dram.write_byte(16384, 7), Ok(()));
    assert_eq!(dram.allocate(12288, 8192), Ok(12288));
    assert_eq!(dram.read_byte(16384), Ok(7));
    assert_eq!(dram.read_byte(12288), Ok(0));
    assert_eq!(dram.read_byte(20479), Ok(0));
    assert_eq!(dram.read_byte(12287), Err(MemoryAccessError::AddressNotMapped));
    assert_eq!(dram.read_byte(20480), Err(MemoryAccessError::AddressNotMapped));
    // An allocation inside the segment names its start.
    assert_eq!(
        dram.allocate(12288, 1),
        Err(MemoryAccessError::AddressAlreadyMapped { address: 12288 })
    );
    assert_eq!(
        dram.allocate(16385, 1),
        Err(MemoryAccessError::AddressAlreadyMapped { address: 12288 })
    );
    // An allocation at its exact end extends it and answers its start.
    assert_eq!(dram.allocate(20480, 1), Ok(12288));
    assert_eq!(dram.read_byte(16384), Ok(7));
    assert_eq!(dram.read_byte(20480), Ok(0));
    assert_eq!(dram.read_byte(24575), Ok(0));
    assert_eq!(dram.read_byte(24576), Err(MemoryAccessError::AddressNotMapped));
}

#[test]
fn moved_segment_still_comes_in_order_of_start() {
    let mut dram = DRAM::new(0, 4 * 1024 * 1024);
    assert_eq!(dram.allocate(0x8000, 10), Ok(0x8000));
    assert_eq!(dram.allocate(0x2000, 10), Ok(0x2000));
    // The segment at 0x8000 grows backward to 0x4000 and stays behind the one at 0x2000.
    assert_eq!(dram.allocate(0x4000, 0x4000), Ok(0x4000));
    assert_eq!(dram.allocate(0x3000, 10), Ok(0x2000));
    assert_eq!(dram.read_byte(0x3fff), Ok(0));
    assert_eq!(dram.write_byte(0x4000, 5), Ok(()));
    assert_eq!(dram.read_byte(0x4000), Ok(5));
    assert_eq!(
        dram.allocate(0x8000, 10),
        Err(MemoryAccessError::AddressAlreadyMapped { address: 0x4000 })
    );
}

#[test]
fn backward_growth_reaches_past_the_old_end() {
    let mut dram = DRAM::new(0, 4 * 1024 * 1024);
    assert_eq!(dram.allocate(8192, 10), Ok(8192));
    assert_eq!(dram.write_byte(8200, 5), Ok(()));
    // 16384 bytes from 0 on cover the segment and reach past its end.
    assert_eq!(dram.allocate(0, 16000), Ok(0));
    assert_eq!(dram.read_byte(0), Ok(0));
    assert_eq!(dram.read_byte(8200), Ok(5));
    assert_eq!(dram.read_byte(16383), Ok(0));
    assert_eq!(dram.read_byte(16384), Err(MemoryAccessError::AddressNotMapped));
}

#[test]
fn segment_grown_backward_grows_backward_again() {
    let mut dram = DRAM::new(0, 4 * 1024 * 1024);
    assert_eq!(dram.allocate(0x4000, 10), Ok(0x4000));
    assert_eq!(dram.write_byte(0x4001, 3), Ok(()));
    assert_eq!(dram.allocate(0x3000, 10), Ok(0x3000));
    assert_eq!(dram.write_byte(0x3001, 4), Ok(()));
    assert_eq!(dram.allocate(0x2000, 10), Ok(0x2000));
    assert_eq!(dram.read_byte(0x2000), Ok(0));
    assert_eq!(dram.read_byte(0x3001), Ok(4));
    assert_eq!(dram.read_byte(0x4001), Ok(3));
    assert_eq!(dram.read_byte(0x1fff), Err(MemoryAccessError::AddressNotMapped));
}

#[test]
fn access_is_checked_for_the_window() {
    let dram = DRAM::new(0x1000, 0x1000);
    assert_eq!(dram.check_access(0x1000, 1), Ok(()));
    assert_eq!(dram.check_access(0x1fff, 8), Ok(()));
    assert_eq!(
        dram.check_access(0xfff, 4),
        Err(MemoryAccessError::OutOfBounds { address: 0xfff, size: 4 })
    );
    assert_eq!(
        dram.check_access(0x2000, 0),
        Err(MemoryAccessError::OutOfBounds { address: 0x2000, size: 0 })
    );
}

#[test]
fn extension_covers_a_later_segment() {
    let mut dram = DRAM::new(0, 4 * 1024 * 1024);
    assert_eq!(dram.allocate(0x2000, 10), Ok(0x2000));
    assert_eq!(dram.write_byte(0x2000, 9), Ok(()));
    assert_eq!(dram.allocate(0, 10), Ok(0));
    // The segment at 0 ends at 0x1000 and is met first; its new bytes reach over 0x2000.
    assert_eq!(dram.allocate(0x1000, 0x2000), Ok(0));
    assert_eq!(dram.read_byte(0x2000), Ok(0));
    assert_eq!(dram.read_byte(0x2fff), Ok(0));
    assert_eq!(dram.read_byte(0x3000), Err(MemoryAccessError::AddressNotMapped));
}

#[test]
fn allocation_that_does_not_reach_makes_a_new_segment() {
    let mut dram = DRAM::new(0, 4 * 1024 * 1024);
    assert_eq!(dram.allocate(0x8000, 10), Ok(0x8000));
    assert_eq!(dram.allocate(0x2000, 10), Ok(0x2000));
    assert_eq!(dram.read_byte(0x2fff), Ok(0));
    assert_eq!(dram.read_byte(0x3000), Err(MemoryAccessError::AddressNotMapped));
    assert_eq!(dram.read_byte(0x7fff), Err(MemoryAccessError::AddressNotMapped));
    assert_eq!(dram.read_byte(0x8000), Ok(0));
}

#[test]
fn first_segment_by_start_decides() {
    let mut dram = DRAM::new(0, 4 * 1024 * 1024);
    assert_eq!(dram.allocate(0x8000, 10), Ok(0x8000));
    assert_eq!(dram.allocate(0, 10), Ok(0));
    // The segment at 0 ends at 0x1000 and comes first: it is extended.
    assert_eq!(dram.allocate(0x1000, 10), Ok(0));
    assert_eq!(dram.write_byte(0x1000, 1), Ok(()));
    assert_eq!(dram.read_byte(0x1000), Ok(1));
    assert_eq!(dram.read_byte(0x8000), Ok(0));
}

#[test]
fn allocation_outside_window_cannot_be_accessed() {
    let mut dram = DRAM::new(0x10000, 4096);
    assert_eq!(dram.allocate(0, 16), Ok(0));
    assert_eq!(
        dram.write_byte(0, 1),
        Err(MemoryAccessError::OutOfBounds { address: 0, size: 1 })
    );
    assert_eq!(
        dram.read_byte(0),
        Err(MemoryAccessError::OutOfBounds { address: 0, size: 1 })
    );
}

#[test]
fn bytes_are_written_and_read_in_one_piece() {
    let mut dram = DRAM::new(0, 1024 * 1024);
    assert_eq!(dram.allocate(0x4000, 64), Ok(0x4000));
    assert_eq!(dram.write_bytes(0x4010, &[1, 2, 3, 4, 5]), Ok(()));
    assert_eq!(dram.read_bytes(0x4010, 5).unwrap(), &[1, 2, 3, 4, 5]);
    assert_eq!(dram.read_bytes(0x400f, 7).unwrap(), &[0, 1, 2, 3, 4, 5, 0]);
    assert_eq!(dram.read_bytes(0x4012, 0).unwrap(), &[] as &[u8]);
    assert_eq!(dram.read_byte(0x4012), Ok(3));
    assert_eq!(dram.write_bytes(0x4012, &[]), Ok(()));
    assert_eq!(dram.read_byte(0x4012), Ok(3));
    // Up to the last byte of the segment.
    assert_eq!(dram.write_bytes(0x4ffe, &[8, 9]), Ok(()));
    assert_eq!(dram.read_bytes(0x4ffe, 2).unwrap(), &[8, 9]);
    assert_eq!(dram.read_bytes(0x4000, 4096).unwrap().len(), 4096);
}

#[test]
fn clone_is_independent() {
    let mut dram = DRAM::new(0, 1024 * 1024);
    assert_eq!(dram.allocate(0, 16), Ok(0));
    assert_eq!(dram.write_byte(1, 1), Ok(()));
    let mut copy = dram.clone();
    assert_eq!(copy.write_byte(1, 2), Ok(()));
    assert_eq!(dram.read_byte(1), Ok(1));
    assert_eq!(copy.read_byte(1), Ok(2));
}
