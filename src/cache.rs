//! Data-cache maintenance: which lines, set/way operands and cache levels a
//! sweep touches, decoded from the cache identification registers.
use vstd::arithmetic::div_mod::{lemma_fundamental_div_mod, lemma_fundamental_div_mod_converse};
use vstd::arithmetic::power2::{lemma2_to64, lemma_pow2_pos, lemma_pow2_strictly_increases, pow2};
use vstd::bits::lemma_u64_shl_is_mul;
use vstd::prelude::*;
use vstd::std_specs::bits::axiom_u32_leading_zeros;

use crate::bitfield::{field, read_field};

verus! {

/// A data-cache maintenance operation.
#[derive(Debug, Clone, Copy, PartialEq, Eq, Structural)]
pub enum CacheOp {
    /// Write back to memory.
    Clean,
    /// Invalidate cache.
    Invalidate,
    /// Clean and invalidate.
    CleanAndInvalidate,
}

/// The DC instructions that carry out a `CacheOp`.
#[derive(Debug, Clone, Copy, PartialEq, Eq, Structural)]
pub enum DcInstruction {
    /// Clean by virtual address to the point of coherency.
    CVAC,
    /// Invalidate by virtual address to the point of coherency.
    IVAC,
    /// Clean and invalidate by virtual address to the point of coherency.
    CIVAC,
    /// Clean by set/way.
    CSW,
    /// Invalidate by set/way.
    ISW,
    /// Clean and invalidate by set/way.
    CISW,
}

impl CacheOp {
    /// The instruction that applies this operation to the line holding a
    /// virtual address.
    pub fn line_instruction(self) -> (r: DcInstruction)
        ensures
            r == match self {
                CacheOp::Clean => DcInstruction::CVAC,
                CacheOp::Invalidate => DcInstruction::IVAC,
                CacheOp::CleanAndInvalidate => DcInstruction::CIVAC,
            },
    {
        match self {
            CacheOp::Clean => DcInstruction::CVAC,
            CacheOp::Invalidate => DcInstruction::IVAC,
            CacheOp::CleanAndInvalidate => DcInstruction::CIVAC,
        }
    }

    /// The instruction that applies this operation to one set/way of a cache
    /// level.
    pub fn set_way_instruction(self) -> (r: DcInstruction)
        ensures
            r == match self {
                CacheOp::Clean => DcInstruction::CSW,
                CacheOp::Invalidate => DcInstruction::ISW,
                CacheOp::CleanAndInvalidate => DcInstruction::CISW,
            },
    {
        match self {
            CacheOp::Clean => DcInstruction::CSW,
            CacheOp::Invalidate => DcInstruction::ISW,
            CacheOp::CleanAndInvalidate => DcInstruction::CISW,
        }
    }
}

/// CTR_EL0.DminLine: log2 of the number of 4-byte words in the smallest data
/// cache line.
pub const CTR_DMINLINE_SHIFT: u64 = 16;
pub const CTR_DMINLINE_MASK: u64 = 0xF;

/// The smallest data-cache line size in bytes, `4 << DminLine`, of the
/// CTR_EL0 value `ctr_el0`.
pub fn cache_line_size_from_ctr(ctr_el0: u64) -> (r: usize)
    ensures
        r as nat == 4 * pow2(field(ctr_el0, CTR_DMINLINE_MASK, CTR_DMINLINE_SHIFT) as nat),
        r >= 4,
{
    let log2_words = read_field(ctr_el0, CTR_DMINLINE_MASK, CTR_DMINLINE_SHIFT);
    assert(log2_words < 16) by (bit_vector)
        requires
            log2_words == field(ctr_el0, 0xF, 16),
    ;
    proof {
        lemma_pow2_strictly_increases(log2_words as nat, 16);
        lemma2_to64();
        lemma_u64_shl_is_mul(4, log2_words);
        lemma_pow2_pos(log2_words as nat);
    }
    (4u64 << log2_words) as usize
}

/// The start of the cache line of size `line_size` that holds `addr`.
pub open spec fn line_start(addr: nat, line_size: nat) -> nat {
    (addr - addr % line_size) as nat
}

/// The start addresses of the cache lines, of `line_size` bytes, that
/// overlap `[addr, addr + size)`, lowest first. The line holding `addr` is
/// always there, also when `size` is 0.
pub fn dcache_range_lines(line_size: usize, addr: usize, size: usize) -> (r: Vec<usize>)
    requires
        line_size > 0,
        addr + size <= usize::MAX,
    ensures
        r@.len() >= 1,
        forall|i: int|
            0 <= i < r@.len() ==> r@[i] == line_start(addr as nat, line_size as nat) + i
                * line_size,
        r@.len() == 1 || r@.last() < addr + size,
        line_start(addr as nat, line_size as nat) + r@.len() * line_size >= addr + size,
{
    let end = addr + size;
    assert(addr % line_size <= addr) by (nonlinear_arith)
        requires
            line_size > 0,
    ;
    let start = addr - addr % line_size;
    let mut line = start;
    let mut lines: Vec<usize> = Vec::new();
    lines.push(line);
    while end - line > line_size
        invariant
            line_size > 0,
            start == line_start(addr as nat, line_size as nat),
            start <= line <= end,
            lines@.len() >= 1,
            line == start + (lines@.len() - 1) * line_size,
            forall|i: int| 0 <= i < lines@.len() ==> lines@[i] == start + i * line_size,
            lines@.len() == 1 || lines@.last() < end,
        decreases end - line,
    {
        line = line + line_size;
        proof {
            assert(line == start + lines@.len() * line_size) by (nonlinear_arith)
                requires
                    line == start + (lines@.len() - 1) * line_size + line_size,
            ;
        }
        lines.push(line);
    }
    proof {
        assert(start + lines@.len() * line_size >= end) by (nonlinear_arith)
            requires
                line == start + (lines@.len() - 1) * line_size,
                end - line <= line_size,
        ;
    }
    lines
}

/// CCSIDR_EL1 fields (with FEAT_CCIDX): LineSize [2:0], Associativity
/// [23:3], NumSets [55:32], each stored as its value minus an offset.
pub const CCSIDR_LINE_SIZE_SHIFT: u64 = 0;
pub const CCSIDR_LINE_SIZE_MASK: u64 = 0b111;
pub const CCSIDR_ASSOCIATIVITY_SHIFT: u64 = 3;
pub const CCSIDR_ASSOCIATIVITY_MASK: u64 = 0x1F_FFFF;
pub const CCSIDR_NUM_SETS_SHIFT: u64 = 32;
pub const CCSIDR_NUM_SETS_MASK: u64 = 0xFF_FFFF;

/// The geometry of one cache level.
#[derive(Debug, Clone, Copy, PartialEq, Eq, Structural)]
pub struct CacheGeometry {
    /// log2 of the line length in bytes.
    pub line_size_log2: u32,
    /// The number of ways.
    pub associativity: u32,
    /// The number of sets.
    pub num_sets: u32,
}

impl CacheGeometry {
    /// The ranges that CCSIDR_EL1 can describe.
    pub open spec fn wf(self) -> bool {
        &&& 4 <= self.line_size_log2 <= 11
        &&& 1 <= self.associativity <= 0x20_0000
        &&& 1 <= self.num_sets <= 0x100_0000
    }

    /// Decode a CCSIDR_EL1 value: line size log2 is LineSize + 4, the
    /// associativity Associativity + 1 and the set count NumSets + 1.
    pub fn from_ccsidr(ccsidr: u64) -> (r: Self)
        ensures
            r.line_size_log2 == field(ccsidr, CCSIDR_LINE_SIZE_MASK, CCSIDR_LINE_SIZE_SHIFT) + 4,
            r.associativity == field(ccsidr, CCSIDR_ASSOCIATIVITY_MASK, CCSIDR_ASSOCIATIVITY_SHIFT)
                + 1,
            r.num_sets == field(ccsidr, CCSIDR_NUM_SETS_MASK, CCSIDR_NUM_SETS_SHIFT) + 1,
            r.wf(),
    {
        let line_size_raw = read_field(ccsidr, CCSIDR_LINE_SIZE_MASK, CCSIDR_LINE_SIZE_SHIFT);
        let associativity_raw = read_field(ccsidr, CCSIDR_ASSOCIATIVITY_MASK, CCSIDR_ASSOCIATIVITY_SHIFT);
        let num_sets_raw = read_field(ccsidr, CCSIDR_NUM_SETS_MASK, CCSIDR_NUM_SETS_SHIFT);
        assert(line_size_raw < 8 && associativity_raw < 0x20_0000 && num_sets_raw < 0x100_0000)
            by (bit_vector)
            requires
                line_size_raw == field(ccsidr, 0b111, 0),
                associativity_raw == field(ccsidr, 0x1F_FFFF, 3),
                num_sets_raw == field(ccsidr, 0xFF_FFFF, 32),
        ;
        CacheGeometry {
            line_size_log2: line_size_raw as u32 + 4,
            associativity: associativity_raw as u32 + 1,
            num_sets: num_sets_raw as u32 + 1,
        }
    }

    /// Where the way index sits in a set/way operand: the leading zeros of
    /// `associativity - 1`, so that the ways fill the topmost bits of
    /// [31:0].
    pub open spec fn way_shift(self) -> u32 {
        ((self.associativity - 1) as u32).leading_zeros()
    }

    /// The DC set/way operand for `set` and `way` of cache `level`
    /// (0-based): way in the top bits, set from bit log2(line size), level
    /// in bits [3:1].
    pub open spec fn set_way_operand(self, level: u64, set: u32, way: u32) -> u64 {
        ((way as u64) << self.way_shift()) | ((set as u64) << self.line_size_log2) | (level << 1)
    }
}

/// The set/way operands for every set and way of data or unified cache
/// `level` (0-based) with geometry `g`: set by set, and within a set way by
/// way, so that entry `set * associativity + way` is the operand of `set`
/// and `way`.
pub fn dcache_level_operands(level: u64, g: &CacheGeometry) -> (r: Vec<u64>)
    requires
        level < 8,
        g.wf(),
    ensures
        r@.len() == g.num_sets * g.associativity,
        forall|k: int|
            0 <= k < r@.len() ==> r@[k] == g.set_way_operand(
                level,
                (k / g.associativity as int) as u32,
                (k % g.associativity as int) as u32,
            ),
{
    let way_shift = (g.associativity - 1).leading_zeros();
    let set_shift = g.line_size_log2;
    let ghost a = g.associativity as int;
    let mut ops: Vec<u64> = Vec::new();
    let mut set: u32 = 0;
    while set < g.num_sets
        invariant
            g.wf(),
            a == g.associativity,
            way_shift == g.way_shift(),
            set_shift == g.line_size_log2,
            set <= g.num_sets,
            ops@.len() == set * a,
            forall|k: int|
                0 <= k < ops@.len() ==> ops@[k] == g.set_way_operand(
                    level,
                    (k / a) as u32,
                    (k % a) as u32,
                ),
        decreases g.num_sets - set,
    {
        let mut way: u32 = 0;
        while way < g.associativity
            invariant
                g.wf(),
                a == g.associativity,
                way_shift == g.way_shift(),
                set_shift == g.line_size_log2,
                set < g.num_sets,
                way <= g.associativity,
                ops@.len() == set * a + way,
                forall|k: int|
                    0 <= k < ops@.len() ==> ops@[k] == g.set_way_operand(
                        level,
                        (k / a) as u32,
                        (k % a) as u32,
                    ),
            decreases g.associativity - way,
        {
            let op = ((way as u64) << way_shift) | ((set as u64) << set_shift) | (level << 1);
            proof {
                lemma_fundamental_div_mod_converse(set * a + way, a, set as int, way as int);
            }
            ops.push(op);
            way = way + 1;
        }
        proof {
            assert((set + 1) * a == set * a + a) by (nonlinear_arith);
        }
        set = set + 1;
    }
    ops
}

/// A level sweep visits every set/way pair of the level exactly once: the
/// pair `(set, way)` is at index `set * associativity + way` and at no other
/// index below `num_sets * associativity`. Its operand carries the level in
/// bits [3:1] and leaves bit 0 clear.
pub proof fn lemma_set_way_sweep(g: CacheGeometry, level: u64, set: u32, way: u32)
    requires
        g.wf(),
        level < 8,
        set < g.num_sets,
        way < g.associativity,
    ensures
        0 <= set * g.associativity + way < g.num_sets * g.associativity,
        forall|k: int|
            0 <= k < g.num_sets * g.associativity && #[trigger] (k / g.associativity as int) == set
                && #[trigger] (k % g.associativity as int) == way ==> k == set * g.associativity
                + way,
        (set * g.associativity + way) / g.associativity as int == set,
        (set * g.associativity + way) % g.associativity as int == way,
        g.set_way_operand(level, set, way) & 0b1111 == level << 1,
{
    let a = g.associativity as int;
    let s = g.num_sets as int;
    lemma_fundamental_div_mod_converse(set * a + way, a, set as int, way as int);
    assert(set * a + way < s * a) by (nonlinear_arith)
        requires
            0 <= set < s,
            0 <= way < a,
    ;
    assert(0 <= set * a + way) by (nonlinear_arith)
        requires
            0 <= set,
            0 <= way,
            1 <= a,
    ;
    assert forall|k: int|
        0 <= k < s * a && #[trigger] (k / a) == set && #[trigger] (k % a) == way implies k == set
            * a + way by {
        lemma_fundamental_div_mod(k, a);
        assert(a * (k / a) == set * a) by (nonlinear_arith)
            requires
                k / a == set,
        ;
    }
    let i = (g.associativity - 1) as u32;
    let lz = g.way_shift();
    axiom_u32_leading_zeros(i);
    assert(lz >= 4) by (bit_vector)
        requires
            i < 0x20_0000,
            lz <= 32,
            lz < 32 ==> (i >> ((31 - lz) as u32)) & 1u32 != 0u32,
    ;
    let ss = g.line_size_log2;
    let w = way as u64;
    let st = set as u64;
    assert(((w << lz) | (st << ss) | (level << 1)) & 0b1111 == level << 1) by (bit_vector)
        requires
            4 <= lz <= 32,
            4 <= ss <= 11,
            w < 0x1_0000_0000,
            level < 8,
    ;
}

/// The cache type of `level` (0-based) in a CLIDR_EL1 value: 0b000 no
/// cache, 0b001 instruction only, 0b010 data only, 0b011 separate
/// instruction and data, 0b100 unified.
pub open spec fn cache_type(clidr: u64, level: u64) -> u64 {
    field(clidr, 0b111, (3 * level) as u64)
}

/// A cache type with a data or unified cache.
pub open spec fn has_data_cache(ty: u64) -> bool {
    0b010 <= ty <= 0b100
}

/// Every level up to and including `level` has some cache.
pub open spec fn caches_up_to(clidr: u64, level: u64) -> bool {
    forall|l: u64| l <= level ==> cache_type(clidr, l) != 0
}

/// The cache levels (0-based) that a whole-hierarchy sweep maintains, lowest
/// first: those with a data or unified cache, stopping at the first level
/// without a cache.
pub fn dcache_all_levels(clidr: u64) -> (r: Vec<u64>)
    ensures
        forall|i: int|
            0 <= i < r@.len() ==> r@[i] < 8 && has_data_cache(cache_type(clidr, r@[i]))
                && caches_up_to(clidr, r@[i]),
        forall|i: int, j: int| 0 <= i < j < r@.len() ==> r@[i] < r@[j],
        forall|l: u64|
            l < 8 && has_data_cache(cache_type(clidr, l)) && caches_up_to(clidr, l) ==> r@.contains(
                l,
            ),
{
    let mut levels: Vec<u64> = Vec::new();
    let mut level: u64 = 0;
    while level < 8
        invariant
            level <= 8,
            caches_up_to(clidr, (level - 1) as u64) || level == 0,
            forall|i: int|
                0 <= i < levels@.len() ==> levels@[i] < level && has_data_cache(
                    cache_type(clidr, levels@[i]),
                ) && caches_up_to(clidr, levels@[i]),
            forall|i: int, j: int| 0 <= i < j < levels@.len() ==> levels@[i] < levels@[j],
            forall|l: u64|
                l < level && has_data_cache(cache_type(clidr, l)) ==> levels@.contains(l),
        decreases 8 - level,
    {
        let ty = read_field(clidr, 0b111, level * 3);
        if ty == 0b000 {
            assert forall|l: u64| level <= l implies !caches_up_to(clidr, l) by {
                assert(cache_type(clidr, level) == 0);
            }
            return levels;
        }
        assert(caches_up_to(clidr, level)) by {
            assert forall|l: u64| l <= level implies cache_type(clidr, l) != 0 by {
                if l < level {
                    assert(caches_up_to(clidr, (level - 1) as u64));
                }
            }
        }
        if 0b010 <= ty && ty <= 0b100 {
            let ghost old_levels = levels@;
            levels.push(level);
            assert forall|l: u64|
                l < level + 1 && has_data_cache(cache_type(clidr, l)) implies levels@.contains(l) by {
                if l < level {
                    assert(old_levels.contains(l));
                    let i = choose|i: int| 0 <= i < old_levels.len() && old_levels[i] == l;
                    assert(levels@[i] == l);
                } else {
                    assert(levels@[levels@.len() - 1] == l);
                }
            }
        }
        level = level + 1;
    }
    levels
}

} // verus!
