use aarch64_mmu::cache::{
    cache_line_size_from_ctr, dcache_all_levels, dcache_level_operands, dcache_range_lines,
    CacheGeometry, CacheOp, DcInstruction,
};

#[test]
fn line_size_from_dminline() {
    assert_eq!(cache_line_size_from_ctr(4 << 16), 64);
    assert_eq!(cache_line_size_from_ctr(0), 4);
    assert_eq!(cache_line_size_from_ctr(0xF << 16), 4 << 15);
    // Other CTR_EL0 fields do not matter.
    assert_eq!(cache_line_size_from_ctr(0x8444_C004), 64);
}

#[test]
fn range_touches_every_overlapping_line() {
    assert_eq!(dcache_range_lines(64, 0x1000, 100), vec![0x1000, 0x1040]);
    assert_eq!(dcache_range_lines(64, 0x1000, 64), vec![0x1000]);
    assert_eq!(dcache_range_lines(64, 0x1000, 65), vec![0x1000, 0x1040]);
    assert_eq!(dcache_range_lines(64, 0x1030, 0x20), vec![0x1000, 0x1040]);
    assert_eq!(
        dcache_range_lines(64, 0x103F, 0x82),
        vec![0x1000, 0x1040, 0x1080, 0x10C0]
    );
}

#[test]
fn empty_range_still_touches_its_line() {
    assert_eq!(dcache_range_lines(64, 0x1000, 0), vec![0x1000]);
    assert_eq!(dcache_range_lines(64, 0x1010, 0), vec![0x1000]);
    assert_eq!(dcache_range_lines(64, 0x1010, 1), vec![0x1000]);
}

#[test]
fn range_at_the_top_of_the_address_space() {
    let top = usize::MAX - 63;
    assert_eq!(dcache_range_lines(64, top, 63), vec![top]);
}

#[test]
fn geometry_from_ccsidr() {
    // LineSize 2 (64 bytes), Associativity 3 (4 ways), NumSets 127 (128 sets).
    let ccsidr: u64 = (127 << 32) | (3 << 3) | 2;
    let g = CacheGeometry::from_ccsidr(ccsidr);
    assert_eq!(g.line_size_log2, 6);
    assert_eq!(g.associativity, 4);
    assert_eq!(g.num_sets, 128);
    let g = CacheGeometry::from_ccsidr(u64::MAX);
    assert_eq!(g.line_size_log2, 11);
    assert_eq!(g.associativity, 0x20_0000);
    assert_eq!(g.num_sets, 0x100_0000);
}

#[test]
fn level_sweep_visits_each_set_and_way_once() {
    // 64-byte lines, 4 ways, 2 sets, level 1 (L2).
    let g = CacheGeometry::from_ccsidr((1 << 32) | (3 << 3) | 2);
    let ops = dcache_level_operands(1, &g);
    let expected: Vec<u64> = vec![
        0b10,
        (1 << 30) | 0b10,
        (2 << 30) | 0b10,
        (3 << 30) | 0b10,
        (1 << 6) | 0b10,
        (1 << 30) | (1 << 6) | 0b10,
        (2 << 30) | (1 << 6) | 0b10,
        (3 << 30) | (1 << 6) | 0b10,
    ];
    assert_eq!(ops, expected);
    let mut sorted = ops.clone();
    sorted.sort();
    sorted.dedup();
    assert_eq!(sorted.len(), 8);
    for op in &ops {
        assert_eq!(op & 0b1111, 1 << 1);
        assert_eq!(op >> 32, 0);
    }
}

#[test]
fn level_sweep_of_a_direct_mapped_cache() {
    // 16-byte lines, 1 way, 4 sets, level 7.
    let g = CacheGeometry {
        line_size_log2: 4,
        associativity: 1,
        num_sets: 4,
    };
    let ops = dcache_level_operands(7, &g);
    assert_eq!(ops, vec![14, 16 | 14, 32 | 14, 48 | 14]);
}

#[test]
fn level_sweep_with_three_ways() {
    // 3 ways need 2 way bits: way shift 30.
    let g = CacheGeometry {
        line_size_log2: 6,
        associativity: 3,
        num_sets: 1,
    };
    assert_eq!(dcache_level_operands(0, &g), vec![0, 1 << 30, 2 << 30]);
}

#[test]
fn all_levels_stop_at_the_first_missing_cache() {
    // L1 separate I+D, L2 instruction only, L3 unified, L4 none, L5 data only.
    let clidr: u64 = 0b011 | (0b001 << 3) | (0b100 << 6) | (0b000 << 9) | (0b010 << 12);
    assert_eq!(dcache_all_levels(clidr), vec![0, 2]);
    assert_eq!(dcache_all_levels(0), Vec::<u64>::new());
    assert_eq!(dcache_all_levels(0b000 | (0b100 << 3)), Vec::<u64>::new());
}

#[test]
fn all_levels_skip_instruction_only_and_reserved_types() {
    let clidr: u64 = 0b001 | (0b101 << 3) | (0b111 << 6) | (0b010 << 9);
    assert_eq!(dcache_all_levels(clidr), vec![3]);
    // Eight unified levels: all of them; the fields above level 7 are ignored.
    let mut clidr: u64 = 0;
    for level in 0..8 {
        clidr |= 0b100 << (3 * level);
    }
    clidr |= 0b111 << 24;
    assert_eq!(dcache_all_levels(clidr), vec![0, 1, 2, 3, 4, 5, 6, 7]);
}

#[test]
fn cache_op_instructions() {
    assert_eq!(CacheOp::Clean.line_instruction(), DcInstruction::CVAC);
    assert_eq!(CacheOp::Invalidate.line_instruction(), DcInstruction::IVAC);
    assert_eq!(
        CacheOp::CleanAndInvalidate.line_instruction(),
        DcInstruction::CIVAC
    );
    assert_eq!(CacheOp::Clean.set_way_instruction(), DcInstruction::CSW);
    assert_eq!(CacheOp::Invalidate.set_way_instruction(), DcInstruction::ISW);
    assert_eq!(
        CacheOp::CleanAndInvalidate.set_way_instruction(),
        DcInstruction::CISW
    );
}
