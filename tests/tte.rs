use aarch64_mmu::tte::{
    AccessPermission, Granule, Granule16KB, Granule4KB, Granule64KB, Shareability, TteError, OA,
    OA48, OA52, TTE64,
};

#[test]
fn test_address_extraction_4k_48bit() {
    // Test 4KB granule with 48-bit output address
    type TTE = TTE64<Granule4KB, OA48>;

    // Test table descriptor
    let table_addr = 0x1000_0000_1000; // 48-bit address aligned to 4KB
    let tte_table = TTE::new_table(table_addr).unwrap();
    assert_eq!(tte_table.address(), table_addr);

    // Test block descriptor
    let block = 2 * 1024 * 1024; // 2MB
    let block_addr = 0x2000_0000_1000 + block; // 48-bit address aligned to 4KB
    let tte_block = TTE::new_block(block_addr).unwrap();
    assert_eq!(
        tte_block.address_with_page_level(2).unwrap(),
        0x2000_0000_0000 + block
    );
}

#[test]
fn test_address_extraction_4k_52bit() {
    // Test 4KB granule with 52-bit output address
    type TTE = TTE64<Granule4KB, OA52>;

    let table_addr = (1 << 50) - 0x1000; // 52-bit address with high bits
    let tte_table = TTE::new_table(table_addr).unwrap();
    let read_addr = tte_table.address();
    assert_eq!(
        read_addr, table_addr,
        "want {:#x} != read {:#x} address mismatch",
        table_addr, read_addr
    );
}

#[test]
fn test_address_extraction_16k_48bit() {
    // Test 16KB granule with 48-bit output address
    type TTE = TTE64<Granule16KB, OA48>;

    // Test table descriptor - must be aligned to 16KB boundary
    let table_addr = (1 << 47) + 16 * 1024; // 48-bit address aligned to 16KB
    let tte_table = TTE::new_table(table_addr).unwrap();
    let read = tte_table.address();
    assert_eq!(
        table_addr, read,
        "want {:#x} != read {:#x} address mismatch",
        table_addr, read
    );

    // Test block descriptor
    let block_addr = 0x2000_0000_0000; // 48-bit address aligned to 16KB
    let tte_block = TTE::new_block(block_addr).unwrap();
    assert_eq!(tte_block.address(), block_addr);
}

#[test]
fn test_address_extraction_16k_52bit() {
    // Test 16KB granule with 52-bit output address
    type TTE = TTE64<Granule16KB, OA52>;

    // Test with high address bits
    let table_addr = (1 << 50) - 0x4000; // 52-bit address with high bits, aligned to 16KB
    let tte_table = TTE::new_table(table_addr).unwrap(); // Base address aligned to 16KB

    assert_eq!(tte_table.address(), table_addr);
}

#[test]
fn test_address_extraction_64k_48bit() {
    // Test 64KB granule with 48-bit output address
    type TTE = TTE64<Granule64KB, OA48>;

    // Test table descriptor - must be aligned to 64KB boundary
    let table_addr = 0x1000_0001_0000; // 48-bit address aligned to 64KB
    let tte_table = TTE::new_table(table_addr).unwrap();
    assert_eq!(tte_table.address(), table_addr);

    // Test block descriptor
    let block_addr = 0x2000_0002_0000; // 48-bit address aligned to 64KB
    let tte_block = TTE::new_block(block_addr).unwrap();
    assert_eq!(tte_block.address(), block_addr);
}

#[test]
fn test_address_extraction_64k_52bit() {
    // Test 64KB granule with 52-bit output address
    type TTE = TTE64<Granule64KB, OA52>;

    let table_addr = 0xf00_1001_0000u64; // 52-bit address with high bits, aligned to 64KB
    let tte_table = TTE::new_table(table_addr).unwrap(); // Base address aligned to 64KB

    assert_eq!(
        table_addr,
        tte_table.address(),
        "want {:#x} != read {:#x} address mismatch",
        table_addr,
        tte_table.address()
    );
}

#[test]
fn test_invalid_tte_address() {
    // Test that invalid TTEs return 0 address
    type TTE = TTE64<Granule4KB, OA48>;

    let tte_invalid = TTE::invalid();
    assert_eq!(tte_invalid.address(), 0);
    assert!(!tte_invalid.is_valid());
}

#[test]
fn test_granule_constants() {
    // Test that granule constants match expected values for m calculation
    assert_eq!(Granule4KB::M, 12); // log2(4096) = 12
    assert_eq!(Granule16KB::M, 14); // log2(16384) = 14
    assert_eq!(Granule64KB::M, 16); // log2(65536) = 16

    // Test that granule sizes are correct
    assert_eq!(Granule4KB::SIZE, 4096);
    assert_eq!(Granule16KB::SIZE, 16384);
    assert_eq!(Granule64KB::SIZE, 65536);

    // Test that masks are correct for alignment
    assert_eq!(Granule4KB::MASK, 0xFFF);
    assert_eq!(Granule16KB::MASK, 0x3FFF);
    assert_eq!(Granule64KB::MASK, 0xFFFF);
}

fn round_trip<G: Granule, O: OA>(addr: u64) {
    let table = TTE64::<G, O>::new_table(addr).unwrap();
    assert!(table.is_table() && !table.is_block());
    assert_eq!(table.address(), addr);
    let block = TTE64::<G, O>::new_block(addr).unwrap();
    assert!(block.is_block() && !block.is_table());
    assert_eq!(block.address(), addr);
}

#[test]
fn round_trip_highest_addresses_every_configuration() {
    round_trip::<Granule4KB, OA48>(0xFFFF_FFFF_F000);
    round_trip::<Granule16KB, OA48>(0xFFFF_FFFF_C000);
    round_trip::<Granule64KB, OA48>(0xFFFF_FFFF_0000);
    round_trip::<Granule4KB, OA52>(0xF_FFFF_FFFF_F000);
    round_trip::<Granule16KB, OA52>(0xF_FFFF_FFFF_C000);
    round_trip::<Granule64KB, OA52>(0xF_FFFF_FFFF_0000);
    round_trip::<Granule4KB, OA52>(0x8_0000_0000_0000);
    round_trip::<Granule64KB, OA52>(0x1_0000_0000_0000);
    round_trip::<Granule4KB, OA48>(0);
}

#[test]
fn high_address_bits_go_to_their_architectural_place() {
    // 4KB and 16KB granules: OA[51:50] in descriptor bits [9:8].
    let t = TTE64::<Granule4KB, OA52>::new_table(1 << 51).unwrap();
    assert_eq!(t.get(), 0x403 | (0b10 << 8));
    let t = TTE64::<Granule16KB, OA52>::new_block((1 << 50) | 0x4000).unwrap();
    assert_eq!(t.get(), 0x401 | (0b01 << 8) | 0x4000);
    // 64KB granule: OA[51:48] in descriptor bits [15:12].
    let t = TTE64::<Granule64KB, OA52>::new_table(0xA_0000_0001_0000).unwrap();
    assert_eq!(t.get(), 0x403 | (0xA << 12) | 0x1_0000);
    // 48-bit widths keep the address in place.
    let t = TTE64::<Granule4KB, OA48>::new_block(0x1234_5678_9000).unwrap();
    assert_eq!(t.get(), 0x401 | 0x1234_5678_9000);
}

#[test]
fn block_address_is_masked_per_level() {
    type TTE = TTE64<Granule4KB, OA48>;
    let b = TTE::new_block(0x0000_7FFF_FFFF_F000).unwrap();
    assert_eq!(b.address_with_page_level(0), Ok(0x0000_7F80_0000_0000));
    assert_eq!(b.address_with_page_level(1), Ok(0x0000_7FFF_C000_0000));
    assert_eq!(b.address_with_page_level(2), Ok(0x0000_7FFF_FFE0_0000));
    assert_eq!(
        b.address_with_page_level(3),
        Err(TteError::UnsupportedLevelGranule)
    );
    // A table entry reports its full address at any level.
    let t = TTE::new_table(0x0000_7FFF_FFFF_F000).unwrap();
    assert_eq!(t.address_with_page_level(1), Ok(0x0000_7FFF_FFFF_F000));
    assert_eq!(t.address_with_page_level(7), Ok(0x0000_7FFF_FFFF_F000));

    let b = TTE64::<Granule16KB, OA48>::new_block(0x0000_7FFF_FFFF_C000).unwrap();
    assert_eq!(b.address_with_page_level(1), Ok(0x0000_7FF0_0000_0000));
    assert_eq!(b.address_with_page_level(2), Ok(0x0000_7FFF_FE00_0000));
    assert_eq!(
        b.address_with_page_level(0),
        Err(TteError::UnsupportedLevelGranule)
    );

    let b = TTE64::<Granule64KB, OA52>::new_block(0xF_FFFF_FFFF_0000).unwrap();
    assert_eq!(b.address_with_page_level(1), Ok(0xF_FC00_0000_0000));
    assert_eq!(b.address_with_page_level(2), Ok(0xF_FFFF_E000_0000));
}

#[test]
fn index_table_for_every_granule_and_level() {
    let va: u64 = (5 << 39) | (7 << 30) | (9 << 21) | (11 << 12) | 0xABC;
    assert_eq!(TTE64::<Granule4KB, OA48>::calculate_index(va, 0), Ok(5));
    assert_eq!(TTE64::<Granule4KB, OA48>::calculate_index(va, 1), Ok(7));
    assert_eq!(TTE64::<Granule4KB, OA48>::calculate_index(va, 2), Ok(9));
    assert_eq!(TTE64::<Granule4KB, OA48>::calculate_index(va, 3), Ok(11));

    let va: u64 = (1 << 47) | (0x7FE << 36) | (3 << 25) | (0x400 << 14) | 0x3FFF;
    assert_eq!(TTE64::<Granule16KB, OA48>::calculate_index(va, 0), Ok(1));
    assert_eq!(TTE64::<Granule16KB, OA48>::calculate_index(va, 1), Ok(0x7FE));
    assert_eq!(TTE64::<Granule16KB, OA48>::calculate_index(va, 2), Ok(3));
    assert_eq!(TTE64::<Granule16KB, OA48>::calculate_index(va, 3), Ok(0x400));

    let va: u64 = (0x2A << 42) | (0x1234 << 29) | (0x1FFF << 16) | 0xFFFF;
    assert_eq!(TTE64::<Granule64KB, OA52>::calculate_index(va, 1), Ok(0x2A));
    assert_eq!(TTE64::<Granule64KB, OA52>::calculate_index(va, 2), Ok(0x1234));
    assert_eq!(TTE64::<Granule64KB, OA52>::calculate_index(va, 3), Ok(0x1FFF));

    let all = u64::MAX;
    assert_eq!(TTE64::<Granule4KB, OA48>::calculate_index(all, 0), Ok(0x1FF));
    assert_eq!(TTE64::<Granule16KB, OA48>::calculate_index(all, 0), Ok(1));
    assert_eq!(TTE64::<Granule64KB, OA48>::calculate_index(all, 1), Ok(0x3F));
}

#[test]
fn index_for_undefined_level_is_an_error() {
    assert_eq!(
        TTE64::<Granule64KB, OA48>::calculate_index(0x1234_0000, 0),
        Err(TteError::UnsupportedLevelGranule)
    );
    assert_eq!(
        TTE64::<Granule4KB, OA48>::calculate_index(0x1234_0000, 4),
        Err(TteError::UnsupportedLevelGranule)
    );
}

#[test]
fn entry_kinds() {
    type TTE = TTE64<Granule4KB, OA48>;
    let invalid = TTE::invalid();
    assert_eq!(invalid.get(), 0);
    assert!(!invalid.is_valid() && !invalid.is_table() && !invalid.is_block());
    // Type bit set but not valid: still neither.
    let stale = TTE::new(0x0000_1234_5678_9002);
    assert!(!stale.is_valid() && !stale.is_table() && !stale.is_block());
    assert_eq!(stale.address(), 0);
    let table = TTE::new(0b11);
    assert!(table.is_valid() && table.is_table() && !table.is_block());
    let block = TTE::new(0b01);
    assert!(block.is_valid() && !block.is_table() && block.is_block());
}

#[test]
fn set_is_valid_toggles_only_the_valid_bit() {
    type TTE = TTE64<Granule4KB, OA48>;
    let mut t = TTE::new_table(0x4000).unwrap();
    t.set_is_valid(false);
    assert_eq!(t.get(), 0x4402);
    assert_eq!(t.address(), 0);
    t.set_is_valid(true);
    assert_eq!(t.get(), 0x4403);
    assert_eq!(t.address(), 0x4000);
}

#[test]
fn misaligned_or_out_of_range_addresses_are_rejected() {
    assert_eq!(
        TTE64::<Granule4KB, OA48>::new_block(0x1000_0000_0800).err(),
        Some(TteError::AlignmentViolation)
    );
    assert_eq!(
        TTE64::<Granule16KB, OA48>::new_block(0x1000).err(),
        Some(TteError::AlignmentViolation)
    );
    assert_eq!(
        TTE64::<Granule64KB, OA52>::new_table(0x8000).err(),
        Some(TteError::AlignmentViolation)
    );
    assert_eq!(
        TTE64::<Granule4KB, OA48>::new_block(1 << 48).err(),
        Some(TteError::AddressRangeViolation)
    );
    assert_eq!(
        TTE64::<Granule64KB, OA52>::new_table(1 << 52).err(),
        Some(TteError::AddressRangeViolation)
    );
    // Alignment is checked first.
    assert_eq!(
        TTE64::<Granule4KB, OA48>::new_block((1 << 48) | 0x10).err(),
        Some(TteError::AlignmentViolation)
    );
    // The largest addresses below the bound are accepted.
    assert!(TTE64::<Granule4KB, OA52>::new_block((1 << 52) - 0x1000).is_ok());
}

#[test]
fn rejected_set_address_leaves_the_entry_unchanged() {
    let mut t = TTE64::<Granule4KB, OA48>::new_block(0x20_0000).unwrap();
    let before = t.get();
    assert_eq!(t.set_address(0x20_0001), Err(TteError::AlignmentViolation));
    assert_eq!(t.get(), before);
    assert_eq!(t.set_address(1 << 49), Err(TteError::AddressRangeViolation));
    assert_eq!(t.get(), before);
    assert_eq!(t.set_address(0x40_0000), Ok(()));
    assert_eq!(t.address(), 0x40_0000);
}

#[test]
fn flag_accessors() {
    type TTE = TTE64<Granule4KB, OA48>;
    let mut t = TTE::new_block(0x1000).unwrap();
    assert!(t.is_accessed());
    t.clear_access();
    assert!(!t.is_accessed());
    assert_eq!(t.get(), 0x1001);
    t.set_access();
    assert!(t.is_accessed());

    assert!(!t.is_contiguous());
    t.set_contiguous();
    assert!(t.is_contiguous());
    assert_eq!(t.get() >> 52 & 1, 1);
    t.clear_contiguous();
    assert!(!t.is_contiguous());

    assert!(t.is_global());
    t.set_not_global();
    assert!(!t.is_global());
    assert_eq!(t.get() >> 11 & 1, 1);
    t.set_global();
    assert!(t.is_global());

    assert!(!t.is_dirty_writable());
    t.set_dirty_writable(true);
    assert!(t.is_dirty_writable());
    assert_eq!(t.get() >> 51 & 1, 1);
    t.set_dirty_writable(false);
    assert!(!t.is_dirty_writable());

    assert!(t.is_executable() && t.is_privileged_executable());
    t.set_executable(false);
    assert!(!t.is_executable());
    assert_eq!(t.get() >> 54 & 1, 1);
    t.set_privileged_executable(false);
    assert!(!t.is_privileged_executable());
    assert_eq!(t.get() >> 53 & 1, 1);
    t.set_executable(true);
    t.set_privileged_executable(true);
    assert_eq!(t.get(), 0x1401);

    assert!(!t.is_non_secure());
    t.set_non_secure(true);
    assert!(t.is_non_secure());
    assert_eq!(t.get(), 0x1421);
    t.set_non_secure(false);
    assert_eq!(t.get(), 0x1401);
}

#[test]
fn value_field_accessors() {
    type TTE = TTE64<Granule4KB, OA48>;
    let mut t = TTE::new_block(0x1000).unwrap();
    t.set_attr_index(5);
    assert_eq!(t.attr_index(), 5);
    assert_eq!(t.get(), 0x1401 | (5 << 2));
    t.set_attr_index(0xF);
    assert_eq!(t.attr_index(), 7);

    t.set_sw_reserved(0x1A);
    assert_eq!(t.sw_reserved(), 0xA);
    assert_eq!(t.get() >> 55, 0xA);
    assert_eq!(t.address(), 0x1000);

    for ap in [
        AccessPermission::PrivilegedReadWrite,
        AccessPermission::ReadWrite,
        AccessPermission::PrivilegedReadOnly,
        AccessPermission::ReadOnly,
    ] {
        t.set_access_permission(ap);
        assert_eq!(t.access_permission(), ap);
        assert_eq!((t.get() >> 6) & 0b11, ap.as_bits() as u64);
    }

    for sh in [
        Shareability::NonShareable,
        Shareability::OuterShareable,
        Shareability::InnerShareable,
    ] {
        t.set_shareability(sh);
        assert_eq!(t.shareability(), sh);
    }
    t.set_shareability(Shareability::OuterShareable);
    assert_eq!((t.get() >> 8) & 0b11, 0b10);
    assert_eq!(t.address(), 0x1000);
}

#[test]
fn access_permission_bits() {
    assert_eq!(AccessPermission::PrivilegedReadWrite.as_bits(), 0b00);
    assert_eq!(AccessPermission::ReadWrite.as_bits(), 0b01);
    assert_eq!(AccessPermission::PrivilegedReadOnly.as_bits(), 0b10);
    assert_eq!(AccessPermission::ReadOnly.as_bits(), 0b11);
    assert_eq!(
        AccessPermission::from_bits(0b10),
        Some(AccessPermission::PrivilegedReadOnly)
    );
    // Only the two low bits are read.
    assert_eq!(
        AccessPermission::from_bits(0b1101),
        Some(AccessPermission::ReadWrite)
    );
    assert!(AccessPermission::ReadOnly.allows_unprivileged());
    assert!(!AccessPermission::PrivilegedReadOnly.allows_unprivileged());
    assert!(AccessPermission::PrivilegedReadWrite.allows_privileged_write());
    assert!(!AccessPermission::ReadOnly.allows_privileged_write());
    assert!(AccessPermission::ReadWrite.allows_unprivileged_write());
    assert!(!AccessPermission::PrivilegedReadWrite.allows_unprivileged_write());
}

#[test]
fn alignment_helpers() {
    type T4 = TTE64<Granule4KB, OA48>;
    type T64 = TTE64<Granule64KB, OA48>;
    assert!(T4::is_aligned(0x3000));
    assert!(!T4::is_aligned(0x3001));
    assert_eq!(T4::align_down(0x3FFF), 0x3000);
    assert_eq!(T4::align_up(0x3001), 0x4000);
    assert_eq!(T4::align_up(0x3000), 0x3000);
    assert_eq!(T64::align_down(0x1_FFFF), 0x1_0000);
    assert_eq!(T64::align_up(0x1_0001), 0x2_0000);
    assert!(!T64::is_aligned(0x8000));
}
