//! Translation Table Entries: a 64-bit descriptor, parameterised by the page
//! granule and the output-address width.
use core::marker::PhantomData;
use vstd::arithmetic::power2::{lemma2_to64, lemma2_to64_rest, pow2};
use vstd::bits::{lemma_low_bits_mask_values, lemma_u64_low_bits_mask_is_mod};
use vstd::prelude::*;

use crate::bitfield::{field, modify_field, read_field, with_field};

verus! {

/// A translation granule: the base page size of a translation regime.
pub trait Granule: Copy {
    /// log2 of the page size.
    const M: u32;
    /// The page size in bytes.
    const SIZE: usize;
    /// The bits below the page size; an aligned address has none of them set.
    const MASK: u64;

    /// `M`, `SIZE` and `MASK` in specifications.
    spec fn spec_m() -> u32;

    spec fn spec_size() -> usize;

    spec fn spec_mask() -> u64;

    /// A granule is one of 4KB, 16KB or 64KB, and its size and mask agree
    /// with its shift.
    proof fn lemma_geometry()
        ensures
            Self::M == Self::spec_m() && Self::SIZE == Self::spec_size() && Self::MASK
                == Self::spec_mask(),
            (Self::spec_m() == 12 && Self::spec_size() == 4096 && Self::spec_mask() == 0xFFF) || (
            Self::spec_m() == 14 && Self::spec_size() == 16384 && Self::spec_mask() == 0x3FFF) || (
            Self::spec_m() == 16 && Self::spec_size() == 65536 && Self::spec_mask() == 0xFFFF),
    ;
}

#[derive(Clone, Copy)]
pub struct Granule4KB {}

impl Granule for Granule4KB {
    const M: u32 = 12;
    const SIZE: usize = 4096;
    const MASK: u64 = 0xFFF;

    open spec fn spec_m() -> u32 {
        12
    }

    open spec fn spec_size() -> usize {
        4096
    }

    open spec fn spec_mask() -> u64 {
        0xFFF
    }

    proof fn lemma_geometry() {
    }
}

#[derive(Clone, Copy)]
pub struct Granule16KB {}

impl Granule for Granule16KB {
    const M: u32 = 14;
    const SIZE: usize = 16384;
    const MASK: u64 = 0x3FFF;

    open spec fn spec_m() -> u32 {
        14
    }

    open spec fn spec_size() -> usize {
        16384
    }

    open spec fn spec_mask() -> u64 {
        0x3FFF
    }

    proof fn lemma_geometry() {
    }
}

#[derive(Clone, Copy)]
pub struct Granule64KB {}

impl Granule for Granule64KB {
    const M: u32 = 16;
    const SIZE: usize = 65536;
    const MASK: u64 = 0xFFFF;

    open spec fn spec_m() -> u32 {
        16
    }

    open spec fn spec_size() -> usize {
        65536
    }

    open spec fn spec_mask() -> u64 {
        0xFFFF
    }

    proof fn lemma_geometry() {
    }
}

/// An output-address width: physical addresses stored in an entry are below
/// `2^BITS`.
pub trait OA: Copy {
    const BITS: usize;

    /// `BITS` in specifications.
    spec fn spec_bits() -> usize;

    /// The width is 48 or 52 bits.
    proof fn lemma_width()
        ensures
            Self::BITS == Self::spec_bits(),
            Self::spec_bits() == 48 || Self::spec_bits() == 52,
    ;
}

#[derive(Clone, Copy)]
pub struct OA48 {}

impl OA for OA48 {
    const BITS: usize = 48;

    open spec fn spec_bits() -> usize {
        48
    }

    proof fn lemma_width() {
    }
}

#[derive(Clone, Copy)]
pub struct OA52 {}

impl OA for OA52 {
    const BITS: usize = 52;

    open spec fn spec_bits() -> usize {
        52
    }

    proof fn lemma_width() {
    }
}

/// Stage 1 access permissions under direct permissions: the AP[2:1] field.
#[derive(Debug, Clone, Copy, PartialEq, Eq, Hash, Structural)]
pub enum AccessPermission {
    /// AP = 0b00: read/write at the privileged level, no unprivileged access.
    PrivilegedReadWrite,
    /// AP = 0b01: read/write at both levels.
    ReadWrite,
    /// AP = 0b10: read-only at the privileged level, no unprivileged access.
    PrivilegedReadOnly,
    /// AP = 0b11: read-only at both levels.
    ReadOnly,
}

impl AccessPermission {
    /// The AP field value of this permission.
    pub open spec fn spec_bits(self) -> u8 {
        match self {
            AccessPermission::PrivilegedReadWrite => 0b00,
            AccessPermission::ReadWrite => 0b01,
            AccessPermission::PrivilegedReadOnly => 0b10,
            AccessPermission::ReadOnly => 0b11,
        }
    }

    /// The permission whose AP field value is `bits`, for `bits < 4`.
    pub open spec fn spec_from_bits(bits: u8) -> AccessPermission {
        if bits == 0b00 {
            AccessPermission::PrivilegedReadWrite
        } else if bits == 0b01 {
            AccessPermission::ReadWrite
        } else if bits == 0b10 {
            AccessPermission::PrivilegedReadOnly
        } else {
            AccessPermission::ReadOnly
        }
    }

    /// Get the AP field value for the TTE.
    pub fn as_bits(self) -> (r: u8)
        ensures
            r == self.spec_bits(),
            r < 4,
    {
        match self {
            AccessPermission::PrivilegedReadWrite => 0b00,
            AccessPermission::ReadWrite => 0b01,
            AccessPermission::PrivilegedReadOnly => 0b10,
            AccessPermission::ReadOnly => 0b11,
        }
    }

    /// Create from AP bits; only the two low bits are read.
    pub fn from_bits(bits: u8) -> (r: Option<Self>)
        ensures
            r == Some(Self::spec_from_bits(bits & 0b11)),
            r.unwrap().spec_bits() == bits & 0b11,
    {
        let b = bits & 0b11;
        assert(b < 4) by (bit_vector)
            requires
                b == bits & 0b11,
        ;
        if b == 0b00 {
            Some(AccessPermission::PrivilegedReadWrite)
        } else if b == 0b01 {
            Some(AccessPermission::ReadWrite)
        } else if b == 0b10 {
            Some(AccessPermission::PrivilegedReadOnly)
        } else {
            Some(AccessPermission::ReadOnly)
        }
    }

    /// Check if this permission allows unprivileged access.
    pub fn allows_unprivileged(self) -> (r: bool)
        ensures
            r == (self == AccessPermission::ReadWrite || self == AccessPermission::ReadOnly),
    {
        match self {
            AccessPermission::ReadWrite | AccessPermission::ReadOnly => true,
            _ => false,
        }
    }

    /// Check if this permission allows write access at the privileged level.
    pub fn allows_privileged_write(self) -> (r: bool)
        ensures
            r == (self == AccessPermission::PrivilegedReadWrite || self
                == AccessPermission::ReadWrite),
    {
        match self {
            AccessPermission::PrivilegedReadWrite | AccessPermission::ReadWrite => true,
            _ => false,
        }
    }

    /// Check if this permission allows write access at the unprivileged level.
    pub fn allows_unprivileged_write(self) -> (r: bool)
        ensures
            r == (self == AccessPermission::ReadWrite),
    {
        match self {
            AccessPermission::ReadWrite => true,
            _ => false,
        }
    }
}

/// Shareability of a mapping: the SH field.
#[derive(Debug, Clone, Copy, PartialEq, Eq, Hash, Structural)]
pub enum Shareability {
    /// SH = 0b00.
    NonShareable,
    /// SH = 0b10.
    OuterShareable,
    /// SH = 0b11.
    InnerShareable,
}

impl Shareability {
    /// The SH field value of this shareability.
    pub open spec fn spec_bits(self) -> u64 {
        match self {
            Shareability::NonShareable => 0b00,
            Shareability::OuterShareable => 0b10,
            Shareability::InnerShareable => 0b11,
        }
    }
}

/// Inputs that an entry refuses.
#[derive(Debug, Clone, Copy, PartialEq, Eq, Hash, Structural)]
pub enum TteError {
    /// The address has bits set below the granule size.
    AlignmentViolation,
    /// The address is not below `2^BITS` of the output-address width.
    AddressRangeViolation,
    /// The translation level is not defined for the granule.
    UnsupportedLevelGranule,
}

// Descriptor layout: each field is `MASK << SHIFT`; one-bit fields have mask 1.
pub const VALID_SHIFT: u64 = 0;
pub const TYPE_SHIFT: u64 = 1;
pub const ATTR_INDX_SHIFT: u64 = 2;
pub const ATTR_INDX_MASK: u64 = 0b111;
pub const NS_SHIFT: u64 = 5;
pub const AP_SHIFT: u64 = 6;
pub const AP_MASK: u64 = 0b11;
pub const SH_SHIFT: u64 = 8;
pub const SH_MASK: u64 = 0b11;
pub const AF_SHIFT: u64 = 10;
pub const NG_SHIFT: u64 = 11;
pub const ADDR_SHIFT: u64 = 12;
pub const ADDR_MASK: u64 = 0x3F_FFFF_FFFF;
pub const DBM_SHIFT: u64 = 51;
pub const CONTIG_SHIFT: u64 = 52;
pub const PXN_SHIFT: u64 = 53;
pub const XN_SHIFT: u64 = 54;
pub const SW_RESERVED_SHIFT: u64 = 55;
pub const SW_RESERVED_MASK: u64 = 0xF;

/// Bits [47:0] and [49:0].
pub const LOW48: u64 = 0xFFFF_FFFF_FFFF;
pub const LOW50: u64 = 0x3_FFFF_FFFF_FFFF;

/// VALID, TYPE = Table and AF: what a new table entry holds besides its address.
pub const TABLE_DESCRIPTOR: u64 = 0x403;
/// VALID, TYPE = Block and AF: what a new block entry holds besides its address.
pub const BLOCK_DESCRIPTOR: u64 = 0x401;

/// The flags of the two descriptor templates.
proof fn lemma_descriptor_flags()
    ensures
        flag(TABLE_DESCRIPTOR, VALID_SHIFT) && flag(TABLE_DESCRIPTOR, TYPE_SHIFT) && flag(
            TABLE_DESCRIPTOR,
            AF_SHIFT,
        ),
        flag(BLOCK_DESCRIPTOR, VALID_SHIFT) && !flag(BLOCK_DESCRIPTOR, TYPE_SHIFT) && flag(
            BLOCK_DESCRIPTOR,
            AF_SHIFT,
        ),
{
    assert(flag(0x403, 0) && flag(0x403, 1) && flag(0x403, 10) && flag(0x401, 0) && !flag(0x401, 1)
        && flag(0x401, 10)) by (bit_vector);
}

/// log2 of the block size that a block entry maps at `level` of a regime
/// with granule shift `m`, where the architecture defines block entries.
pub open spec fn block_shift(m: u32, level: usize) -> Option<u64> {
    if m == 12 && level == 0 {
        Some(39)
    } else if m == 12 && level == 1 {
        Some(30)
    } else if m == 12 && level == 2 {
        Some(21)
    } else if m == 14 && level == 1 {
        Some(36)
    } else if m == 14 && level == 2 {
        Some(25)
    } else if m == 16 && level == 1 {
        Some(42)
    } else if m == 16 && level == 2 {
        Some(29)
    } else {
        None
    }
}

/// The one-bit field at `shift` of `v` is set.
pub open spec fn flag(v: u64, shift: u64) -> bool {
    field(v, 1, shift) == 1
}

/// `v` with the one-bit field at `shift` set to `b`.
pub open spec fn with_flag(v: u64, shift: u64, b: bool) -> u64 {
    with_field(v, 1, shift, if b { 1 } else { 0 })
}

/// A 64-bit translation table entry for granule `G` and output-address width
/// `O`. Its view is the raw descriptor value.
pub struct TTE64<G: Granule, O: OA> {
    value: u64,
    _marker: PhantomData<(G, O)>,
}

impl<G: Granule, O: OA> Clone for TTE64<G, O> {
    fn clone(&self) -> Self {
        *self
    }
}

impl<G: Granule, O: OA> Copy for TTE64<G, O> {

}

impl<G: Granule, O: OA> View for TTE64<G, O> {
    type V = u64;

    closed spec fn view(&self) -> u64 {
        self.value
    }
}

impl<G: Granule, O: OA> TTE64<G, O> {
    pub open spec fn spec_is_valid(self) -> bool {
        flag(self@, VALID_SHIFT)
    }

    pub open spec fn spec_is_table(self) -> bool {
        self.spec_is_valid() && flag(self@, TYPE_SHIFT)
    }

    pub open spec fn spec_is_block(self) -> bool {
        self.spec_is_valid() && !flag(self@, TYPE_SHIFT)
    }

    /// Whether `addr` can be stored as an output address: aligned to the
    /// granule and below `2^BITS`; alignment is checked first.
    pub open spec fn spec_check_address(addr: u64) -> Result<(), TteError> {
        if addr & G::spec_mask() != 0 {
            Err(TteError::AlignmentViolation)
        } else if addr as nat >= pow2(O::spec_bits() as nat) {
            Err(TteError::AddressRangeViolation)
        } else {
            Ok(())
        }
    }

    /// `v` with the output address `addr` stored in it.
    ///
    /// Address bits [47:m] (and [49:m] for a 52-bit width with a 4KB or 16KB
    /// granule) sit in place in the ADDR field. For a 52-bit width the top
    /// bits go where the architecture puts them: with a 64KB granule
    /// OA[51:48] in descriptor bits [15:12], otherwise OA[51:50] in bits
    /// [9:8], which the SH field occupies under 48-bit widths.
    pub open spec fn spec_encode_address(v: u64, addr: u64) -> u64 {
        if O::spec_bits() == 52 && G::spec_m() == 16 {
            with_field(v, ADDR_MASK, ADDR_SHIFT, ((addr & LOW48) >> 12) | (addr >> 48))
        } else if O::spec_bits() == 52 {
            with_field(with_field(v, ADDR_MASK, ADDR_SHIFT, addr >> 12), SH_MASK, SH_SHIFT, addr >> 50)
        } else {
            with_field(v, ADDR_MASK, ADDR_SHIFT, addr >> 12)
        }
    }

    /// The output address held in the descriptor value `v`.
    pub open spec fn spec_decode_address(v: u64) -> u64 {
        if O::spec_bits() == 52 && G::spec_m() == 16 {
            (v & LOW48 & !G::spec_mask()) | (field(v, 0xF, ADDR_SHIFT) << 48)
        } else if O::spec_bits() == 52 {
            (v & LOW50 & !G::spec_mask()) | (field(v, SH_MASK, SH_SHIFT) << 50)
        } else {
            v & LOW48 & !G::spec_mask()
        }
    }

    /// The address an entry with descriptor value `v` reports: 0 when invalid.
    pub open spec fn spec_address_of(v: u64) -> u64 {
        if flag(v, VALID_SHIFT) {
            Self::spec_decode_address(v)
        } else {
            0
        }
    }

    pub open spec fn spec_address(self) -> u64 {
        Self::spec_address_of(self@)
    }

    /// Storing an address keeps VALID, TYPE and AF.
    proof fn lemma_encode_keeps_flags(v: u64, addr: u64)
        ensures
            flag(Self::spec_encode_address(v, addr), VALID_SHIFT) == flag(v, VALID_SHIFT),
            flag(Self::spec_encode_address(v, addr), TYPE_SHIFT) == flag(v, TYPE_SHIFT),
            flag(Self::spec_encode_address(v, addr), AF_SHIFT) == flag(v, AF_SHIFT),
    {
        if O::spec_bits() == 52 && G::spec_m() == 16 {
            assert(flag(with_field(v, ADDR_MASK, ADDR_SHIFT, ((addr & LOW48) >> 12) | (addr >> 48)), 0) == flag(v, 0)
                && flag(with_field(v, ADDR_MASK, ADDR_SHIFT, ((addr & LOW48) >> 12) | (addr >> 48)), 1) == flag(v, 1)
                && flag(with_field(v, ADDR_MASK, ADDR_SHIFT, ((addr & LOW48) >> 12) | (addr >> 48)), 10) == flag(v, 10))
                by (bit_vector);
        } else if O::spec_bits() == 52 {
            let w = with_field(v, ADDR_MASK, ADDR_SHIFT, addr >> 12);
            assert(flag(with_field(w, SH_MASK, SH_SHIFT, addr >> 50), 0) == flag(v, 0)
                && flag(with_field(w, SH_MASK, SH_SHIFT, addr >> 50), 1) == flag(v, 1)
                && flag(with_field(w, SH_MASK, SH_SHIFT, addr >> 50), 10) == flag(v, 10))
                by (bit_vector)
                requires
                    w == with_field(v, ADDR_MASK, ADDR_SHIFT, addr >> 12),
            ;
        } else {
            assert(flag(with_field(v, ADDR_MASK, ADDR_SHIFT, addr >> 12), 0) == flag(v, 0)
                && flag(with_field(v, ADDR_MASK, ADDR_SHIFT, addr >> 12), 1) == flag(v, 1)
                && flag(with_field(v, ADDR_MASK, ADDR_SHIFT, addr >> 12), 10) == flag(v, 10))
                by (bit_vector);
        }
    }

    /// An address that an entry accepts is read back unchanged, whatever the
    /// rest of the descriptor holds.
    pub proof fn lemma_address_round_trip(v: u64, addr: u64)
        requires
            Self::spec_check_address(addr) is Ok,
        ensures
            Self::spec_decode_address(Self::spec_encode_address(v, addr)) == addr,
    {
        G::lemma_geometry();
        O::lemma_width();
        lemma2_to64_rest();
        let gmask = G::spec_mask();
        if O::spec_bits() == 52 && G::spec_m() == 16 {
            assert(((with_field(v, ADDR_MASK, ADDR_SHIFT, ((addr & LOW48) >> 12) | (addr >> 48)) & LOW48 & !0xFFFFu64)
                | (field(with_field(v, ADDR_MASK, ADDR_SHIFT, ((addr & LOW48) >> 12) | (addr >> 48)), 0xF, ADDR_SHIFT) << 48)) == addr)
                by (bit_vector)
                requires
                    addr & 0xFFFF == 0,
                    addr < 0x10_0000_0000_0000,
            ;
        } else if O::spec_bits() == 52 {
            let w = with_field(with_field(v, ADDR_MASK, ADDR_SHIFT, addr >> 12), SH_MASK, SH_SHIFT, addr >> 50);
            assert((w & LOW50 & !gmask) | (field(w, SH_MASK, SH_SHIFT) << 50) == addr)
                by (bit_vector)
                requires
                    w == with_field(with_field(v, ADDR_MASK, ADDR_SHIFT, addr >> 12), SH_MASK, SH_SHIFT, addr >> 50),
                    gmask == 0xFFF || gmask == 0x3FFF,
                    addr & gmask == 0,
                    addr < 0x10_0000_0000_0000,
            ;
        } else {
            let w = with_field(v, ADDR_MASK, ADDR_SHIFT, addr >> 12);
            assert(w & LOW48 & !gmask == addr)
                by (bit_vector)
                requires
                    w == with_field(v, ADDR_MASK, ADDR_SHIFT, addr >> 12),
                    gmask == 0xFFF || gmask == 0x3FFF || gmask == 0xFFFF,
                    addr & gmask == 0,
                    addr < 0x1_0000_0000_0000,
            ;
        }
    }

    /// A table or block entry made from an accepted address reports that
    /// address: `address(new_table(a)) == a` and `address(new_block(a)) == a`.
    pub proof fn lemma_new_entry_round_trip(addr: u64)
        requires
            Self::spec_check_address(addr) is Ok,
        ensures
            Self::spec_address_of(Self::spec_encode_address(TABLE_DESCRIPTOR, addr)) == addr,
            Self::spec_address_of(Self::spec_encode_address(BLOCK_DESCRIPTOR, addr)) == addr,
    {
        lemma_descriptor_flags();
        Self::lemma_encode_keeps_flags(TABLE_DESCRIPTOR, addr);
        Self::lemma_encode_keeps_flags(BLOCK_DESCRIPTOR, addr);
        Self::lemma_address_round_trip(TABLE_DESCRIPTOR, addr);
        Self::lemma_address_round_trip(BLOCK_DESCRIPTOR, addr);
    }

    /// Create a new TTE from a raw u64 value.
    pub fn new(value: u64) -> (r: Self)
        ensures
            r@ == value,
    {
        TTE64 { value, _marker: PhantomData }
    }

    /// Create an invalid TTE (all zeros).
    pub fn invalid() -> (r: Self)
        ensures
            r@ == 0,
            !r.spec_is_valid(),
    {
        assert(field(0, 1, VALID_SHIFT) == 0) by (bit_vector);
        Self::new(0)
    }

    /// Get the raw u64 value.
    pub fn get(&self) -> (r: u64)
        ensures
            r == self@,
    {
        self.value
    }

    /// Check if this TTE is valid.
    pub fn is_valid(&self) -> (r: bool)
        ensures
            r == self.spec_is_valid(),
    {
        read_field(self.value, 1, VALID_SHIFT) == 1
    }

    /// Set or clear the valid bit.
    pub fn set_is_valid(&mut self, val: bool)
        ensures
            final(self)@ == with_flag(old(self)@, VALID_SHIFT, val),
    {
        self.value = modify_field(self.value, 1, VALID_SHIFT, if val { 1 } else { 0 });
    }

    /// Check if this TTE is a table entry (vs block entry).
    pub fn is_table(&self) -> (r: bool)
        ensures
            r == self.spec_is_table(),
    {
        self.is_valid() && read_field(self.value, 1, TYPE_SHIFT) == 1
    }

    /// Check if this TTE is a block entry (vs table entry).
    pub fn is_block(&self) -> (r: bool)
        ensures
            r == self.spec_is_block(),
    {
        self.is_valid() && read_field(self.value, 1, TYPE_SHIFT) != 1
    }

    /// Store the output address `addr`. Refused, with the entry unchanged,
    /// when `addr` is not aligned to the granule or not below `2^BITS`.
    pub fn set_address(&mut self, addr: u64) -> (r: Result<(), TteError>)
        ensures
            r == Self::spec_check_address(addr),
            r is Ok ==> final(self)@ == Self::spec_encode_address(old(self)@, addr),
            r is Err ==> final(self)@ == old(self)@,
    {
        proof {
            G::lemma_geometry();
            O::lemma_width();
            lemma2_to64_rest();
        }
        if addr & G::MASK != 0 {
            return Err(TteError::AlignmentViolation);
        }
        let bound: u64 = if O::BITS == 52 {
            0x10_0000_0000_0000
        } else {
            0x1_0000_0000_0000
        };
        if addr >= bound {
            return Err(TteError::AddressRangeViolation);
        }
        if O::BITS == 52 && G::M == 16 {
            self.value = modify_field(self.value, ADDR_MASK, ADDR_SHIFT, ((addr & LOW48) >> 12) | (addr >> 48));
        } else if O::BITS == 52 {
            let v = modify_field(self.value, ADDR_MASK, ADDR_SHIFT, addr >> 12);
            self.value = modify_field(v, SH_MASK, SH_SHIFT, addr >> 50);
        } else {
            self.value = modify_field(self.value, ADDR_MASK, ADDR_SHIFT, addr >> 12);
        }
        Ok(())
    }

    /// An entry with VALID, TYPE and AF taken from `descriptor` and the
    /// output address `addr`.
    fn new_with_address(descriptor: u64, addr: u64) -> (r: Result<Self, TteError>)
        requires
            descriptor == TABLE_DESCRIPTOR || descriptor == BLOCK_DESCRIPTOR,
        ensures
            match r {
                Ok(t) => Self::spec_check_address(addr) is Ok && t@ == Self::spec_encode_address(
                    descriptor,
                    addr,
                ),
                Err(e) => Self::spec_check_address(addr) == Err::<(), TteError>(e),
            },
    {
        let mut tte = Self::new(0);
        tte.value = modify_field(tte.value, 1, VALID_SHIFT, 1);
        tte.value = modify_field(tte.value, 1, TYPE_SHIFT, if descriptor == TABLE_DESCRIPTOR { 1 } else { 0 });
        tte.value = modify_field(tte.value, 1, AF_SHIFT, 1);
        assert(with_field(with_field(with_field(0, 1, 0, 1), 1, 1, 1), 1, 10, 1) == TABLE_DESCRIPTOR
            && with_field(with_field(with_field(0, 1, 0, 1), 1, 1, 0), 1, 10, 1) == BLOCK_DESCRIPTOR)
            by (bit_vector);
        match tte.set_address(addr) {
            Ok(()) => Ok(tte),
            Err(e) => Err(e),
        }
    }

    /// Create a table entry pointing at the next-level table `table_addr`.
    pub fn new_table(table_addr: u64) -> (r: Result<Self, TteError>)
        ensures
            match r {
                Ok(t) => Self::spec_check_address(table_addr) is Ok && t@ == Self::spec_encode_address(
                    TABLE_DESCRIPTOR,
                    table_addr,
                ) && t.spec_is_table() && t.spec_address() == table_addr,
                Err(e) => Self::spec_check_address(table_addr) == Err::<(), TteError>(e),
            },
    {
        let r = Self::new_with_address(TABLE_DESCRIPTOR, table_addr);
        proof {
            if Self::spec_check_address(table_addr) is Ok {
                Self::lemma_new_entry_round_trip(table_addr);
                Self::lemma_encode_keeps_flags(TABLE_DESCRIPTOR, table_addr);
                lemma_descriptor_flags();
            }
        }
        r
    }

    /// Create a block entry mapping the output address `block_addr`.
    pub fn new_block(block_addr: u64) -> (r: Result<Self, TteError>)
        ensures
            match r {
                Ok(t) => Self::spec_check_address(block_addr) is Ok && t@ == Self::spec_encode_address(
                    BLOCK_DESCRIPTOR,
                    block_addr,
                ) && t.spec_is_block() && t.spec_address() == block_addr,
                Err(e) => Self::spec_check_address(block_addr) == Err::<(), TteError>(e),
            },
    {
        let r = Self::new_with_address(BLOCK_DESCRIPTOR, block_addr);
        proof {
            if Self::spec_check_address(block_addr) is Ok {
                Self::lemma_new_entry_round_trip(block_addr);
                Self::lemma_encode_keeps_flags(BLOCK_DESCRIPTOR, block_addr);
                lemma_descriptor_flags();
            }
        }
        r
    }

    /// The output (physical) address of this entry; 0 for an invalid entry.
    pub fn address(&self) -> (r: u64)
        ensures
            r == self.spec_address(),
    {
        proof {
            G::lemma_geometry();
            O::lemma_width();
        }
        if !self.is_valid() {
            return 0;
        }
        let v = self.value;
        if O::BITS == 52 && G::M == 16 {
            (v & LOW48 & !G::MASK) | (read_field(v, 0xF, ADDR_SHIFT) << 48)
        } else if O::BITS == 52 {
            (v & LOW50 & !G::MASK) | (read_field(v, SH_MASK, SH_SHIFT) << 50)
        } else {
            v & LOW48 & !G::MASK
        }
    }

    /// The output address of an entry read as a block at `level`, with the
    /// bits below the level's block size cleared. A table entry reports its
    /// full address whatever the level.
    pub fn address_with_page_level(&self, level: usize) -> (r: Result<u64, TteError>)
        ensures
            self.spec_is_table() ==> r == Ok::<u64, TteError>(self.spec_address()),
            !self.spec_is_table() ==> r == match block_shift(G::spec_m(), level) {
                Some(n) => Ok(self.spec_address() >> n << n),
                None => Err(TteError::UnsupportedLevelGranule),
            },
    {
        proof {
            G::lemma_geometry();
        }
        if self.is_table() {
            return Ok(self.address());
        }
        let n: u64 = if G::M == 12 && level == 0 {
            39
        } else if G::M == 12 && level == 1 {
            30
        } else if G::M == 12 && level == 2 {
            21
        } else if G::M == 14 && level == 1 {
            36
        } else if G::M == 14 && level == 2 {
            25
        } else if G::M == 16 && level == 1 {
            42
        } else if G::M == 16 && level == 2 {
            29
        } else {
            return Err(TteError::UnsupportedLevelGranule);
        };
        Ok(self.address() >> n << n)
    }

}

impl<G: Granule, O: OA> TTE64<G, O> {
    /// An invalid entry reports address 0 and is neither a table nor a
    /// block; a valid entry is exactly one of the two.
    pub proof fn lemma_entry_kinds(t: Self)
        ensures
            !t.spec_is_valid() ==> t.spec_address() == 0 && !t.spec_is_table() && !t.spec_is_block(),
            t.spec_is_valid() ==> t.spec_is_table() != t.spec_is_block(),
    {
    }

    /// Check if this TTE has the access flag set.
    pub fn is_accessed(&self) -> (r: bool)
        ensures
            r == flag(self@, AF_SHIFT),
    {
        read_field(self.value, 1, AF_SHIFT) == 1
    }

    /// Set the access flag.
    pub fn set_access(&mut self)
        ensures
            final(self)@ == with_flag(old(self)@, AF_SHIFT, true),
    {
        self.value = modify_field(self.value, 1, AF_SHIFT, 1);
    }

    /// Clear the access flag.
    pub fn clear_access(&mut self)
        ensures
            final(self)@ == with_flag(old(self)@, AF_SHIFT, false),
    {
        self.value = modify_field(self.value, 1, AF_SHIFT, 0);
    }

    /// Check if the output address is in the Non-secure address space.
    pub fn is_non_secure(&self) -> (r: bool)
        ensures
            r == flag(self@, NS_SHIFT),
    {
        read_field(self.value, 1, NS_SHIFT) == 1
    }

    /// Set or clear the non-secure bit.
    pub fn set_non_secure(&mut self, non_secure: bool)
        ensures
            final(self)@ == with_flag(old(self)@, NS_SHIFT, non_secure),
    {
        self.value = modify_field(self.value, 1, NS_SHIFT, if non_secure { 1 } else { 0 });
    }

    /// Get the memory attribute index (into MAIR_ELx).
    pub fn attr_index(&self) -> (r: u64)
        ensures
            r == field(self@, ATTR_INDX_MASK, ATTR_INDX_SHIFT),
    {
        read_field(self.value, ATTR_INDX_MASK, ATTR_INDX_SHIFT)
    }

    /// Set the memory attribute index; only its three low bits are kept.
    pub fn set_attr_index(&mut self, index: u64)
        ensures
            final(self)@ == with_field(old(self)@, ATTR_INDX_MASK, ATTR_INDX_SHIFT, index),
    {
        self.value = modify_field(self.value, ATTR_INDX_MASK, ATTR_INDX_SHIFT, index);
    }

    /// Check if this TTE allows (unprivileged) execution: XN is clear.
    pub fn is_executable(&self) -> (r: bool)
        ensures
            r == !flag(self@, XN_SHIFT),
    {
        read_field(self.value, 1, XN_SHIFT) != 1
    }

    /// Allow or forbid (unprivileged) execution: XN is the opposite of
    /// `executable`.
    pub fn set_executable(&mut self, executable: bool)
        ensures
            final(self)@ == with_flag(old(self)@, XN_SHIFT, !executable),
    {
        self.value = modify_field(self.value, 1, XN_SHIFT, if executable { 0 } else { 1 });
    }

    /// Check if this TTE allows privileged execution: PXN is clear.
    pub fn is_privileged_executable(&self) -> (r: bool)
        ensures
            r == !flag(self@, PXN_SHIFT),
    {
        read_field(self.value, 1, PXN_SHIFT) != 1
    }

    /// Allow or forbid privileged execution: PXN is the opposite of
    /// `executable`.
    pub fn set_privileged_executable(&mut self, executable: bool)
        ensures
            final(self)@ == with_flag(old(self)@, PXN_SHIFT, !executable),
    {
        self.value = modify_field(self.value, 1, PXN_SHIFT, if executable { 0 } else { 1 });
    }

    /// Get access permissions.
    pub fn access_permission(&self) -> (r: AccessPermission)
        ensures
            r.spec_bits() == field(self@, AP_MASK, AP_SHIFT),
    {
        let v = self.value;
        let bits = read_field(v, AP_MASK, AP_SHIFT);
        assert(bits < 4) by (bit_vector)
            requires
                bits == field(v, AP_MASK, AP_SHIFT),
        ;
        let ap = AccessPermission::from_bits(bits as u8);
        assert((bits as u8) & 0b11 == bits) by (bit_vector)
            requires
                bits < 4,
        ;
        ap.unwrap()
    }

    /// Set the access permissions.
    pub fn set_access_permission(&mut self, ap: AccessPermission)
        ensures
            final(self)@ == with_field(old(self)@, AP_MASK, AP_SHIFT, ap.spec_bits() as u64),
    {
        self.value = modify_field(self.value, AP_MASK, AP_SHIFT, ap.as_bits() as u64);
    }

    /// Get shareability attributes. The SH value 0b01 is reserved and has no
    /// shareability. With a 52-bit output address and a 4KB or 16KB granule
    /// these bits hold OA[51:50] instead.
    pub fn shareability(&self) -> (r: Shareability)
        requires
            field(self@, SH_MASK, SH_SHIFT) != 0b01,
        ensures
            r.spec_bits() == field(self@, SH_MASK, SH_SHIFT),
    {
        let v = self.value;
        let bits = read_field(v, SH_MASK, SH_SHIFT);
        assert(bits < 4) by (bit_vector)
            requires
                bits == field(v, SH_MASK, SH_SHIFT),
        ;
        if bits == 0b00 {
            Shareability::NonShareable
        } else if bits == 0b10 {
            Shareability::OuterShareable
        } else {
            Shareability::InnerShareable
        }
    }

    /// Set the shareability attributes. With a 52-bit output address and a
    /// 4KB or 16KB granule these bits hold OA[51:50], which this overwrites.
    pub fn set_shareability(&mut self, shareability: Shareability)
        ensures
            final(self)@ == with_field(old(self)@, SH_MASK, SH_SHIFT, shareability.spec_bits()),
    {
        let bits: u64 = match shareability {
            Shareability::NonShareable => 0b00,
            Shareability::OuterShareable => 0b10,
            Shareability::InnerShareable => 0b11,
        };
        self.value = modify_field(self.value, SH_MASK, SH_SHIFT, bits);
    }

    /// Check if the contiguous bit is set.
    pub fn is_contiguous(&self) -> (r: bool)
        ensures
            r == flag(self@, CONTIG_SHIFT),
    {
        read_field(self.value, 1, CONTIG_SHIFT) == 1
    }

    /// Set the contiguous bit.
    pub fn set_contiguous(&mut self)
        ensures
            final(self)@ == with_flag(old(self)@, CONTIG_SHIFT, true),
    {
        self.value = modify_field(self.value, 1, CONTIG_SHIFT, 1);
    }

    /// Clear the contiguous bit.
    pub fn clear_contiguous(&mut self)
        ensures
            final(self)@ == with_flag(old(self)@, CONTIG_SHIFT, false),
    {
        self.value = modify_field(self.value, 1, CONTIG_SHIFT, 0);
    }

    /// Check if this is a global mapping: nG is clear.
    pub fn is_global(&self) -> (r: bool)
        ensures
            r == !flag(self@, NG_SHIFT),
    {
        read_field(self.value, 1, NG_SHIFT) != 1
    }

    /// Set the not-global bit (make the mapping process-specific).
    pub fn set_not_global(&mut self)
        ensures
            final(self)@ == with_flag(old(self)@, NG_SHIFT, true),
    {
        self.value = modify_field(self.value, 1, NG_SHIFT, 1);
    }

    /// Clear the not-global bit (make the mapping global).
    pub fn set_global(&mut self)
        ensures
            final(self)@ == with_flag(old(self)@, NG_SHIFT, false),
    {
        self.value = modify_field(self.value, 1, NG_SHIFT, 0);
    }

    /// Check if the dirty bit modifier is set (ARMv8.1+).
    pub fn is_dirty_writable(&self) -> (r: bool)
        ensures
            r == flag(self@, DBM_SHIFT),
    {
        read_field(self.value, 1, DBM_SHIFT) == 1
    }

    /// Set or clear the dirty bit modifier.
    pub fn set_dirty_writable(&mut self, writable: bool)
        ensures
            final(self)@ == with_flag(old(self)@, DBM_SHIFT, writable),
    {
        self.value = modify_field(self.value, 1, DBM_SHIFT, if writable { 1 } else { 0 });
    }

    /// Get the software reserved bits.
    pub fn sw_reserved(&self) -> (r: u64)
        ensures
            r == field(self@, SW_RESERVED_MASK, SW_RESERVED_SHIFT),
    {
        read_field(self.value, SW_RESERVED_MASK, SW_RESERVED_SHIFT)
    }

    /// Set the software reserved bits; only the four low bits of `value` are
    /// kept.
    pub fn set_sw_reserved(&mut self, value: u64)
        ensures
            final(self)@ == with_field(old(self)@, SW_RESERVED_MASK, SW_RESERVED_SHIFT, value),
    {
        self.value = modify_field(self.value, SW_RESERVED_MASK, SW_RESERVED_SHIFT, value);
    }
}

/// Where the table index for `level` sits in a virtual address under a
/// granule with shift `m`: its shift and its mask.
pub open spec fn index_field(m: u32, level: usize) -> Option<(u64, u64)> {
    if m == 12 && level <= 3 {
        Some(((39 - 9 * level) as u64, 0x1FF))
    } else if m == 14 && level == 0 {
        Some((47, 0x1))
    } else if m == 14 && 1 <= level <= 3 {
        Some(((36 - 11 * (level - 1)) as u64, 0x7FF))
    } else if m == 16 && level == 1 {
        Some((42, 0x3F))
    } else if m == 16 && 2 <= level <= 3 {
        Some(((29 - 13 * (level - 2)) as u64, 0x1FFF))
    } else {
        None
    }
}

/// Helper functions for address calculations.
impl<G: Granule, O: OA> TTE64<G, O> {
    /// The index into the table at `level` that translates `va`.
    pub fn calculate_index(va: u64, level: usize) -> (r: Result<usize, TteError>)
        ensures
            r == match index_field(G::spec_m(), level) {
                Some((shift, mask)) => Ok(((va >> shift) & mask) as usize),
                None => Err(TteError::UnsupportedLevelGranule),
            },
    {
        proof {
            G::lemma_geometry();
        }
        let (shift, mask): (u64, u64) = if G::M == 12 && level == 0 {
            (39, 0x1FF)
        } else if G::M == 12 && level == 1 {
            (30, 0x1FF)
        } else if G::M == 12 && level == 2 {
            (21, 0x1FF)
        } else if G::M == 12 && level == 3 {
            (12, 0x1FF)
        } else if G::M == 14 && level == 0 {
            (47, 0x1)
        } else if G::M == 14 && level == 1 {
            (36, 0x7FF)
        } else if G::M == 14 && level == 2 {
            (25, 0x7FF)
        } else if G::M == 14 && level == 3 {
            (14, 0x7FF)
        } else if G::M == 16 && level == 1 {
            (42, 0x3F)
        } else if G::M == 16 && level == 2 {
            (29, 0x1FFF)
        } else if G::M == 16 && level == 3 {
            (16, 0x1FFF)
        } else {
            return Err(TteError::UnsupportedLevelGranule);
        };
        Ok(((va >> shift) & mask) as usize)
    }

    /// Check if an address is aligned to the granule boundary.
    pub fn is_aligned(addr: u64) -> (r: bool)
        ensures
            r == (addr & G::spec_mask() == 0),
            r == (addr as nat % G::spec_size() as nat == 0),
    {
        proof {
            G::lemma_geometry();
            lemma_granule_mask::<G>(addr);
        }
        (addr & G::MASK) == 0
    }

    /// Align an address down to the granule boundary.
    pub fn align_down(addr: u64) -> (r: u64)
        ensures
            r == addr & !G::spec_mask(),
            r == addr - addr as nat % G::spec_size() as nat,
    {
        proof {
            G::lemma_geometry();
            lemma_granule_mask::<G>(addr);
        }
        addr & !G::MASK
    }

    /// Align an address up to the granule boundary.
    pub fn align_up(addr: u64) -> (r: u64)
        requires
            addr + G::spec_mask() <= u64::MAX,
        ensures
            r == ((addr + G::spec_mask()) as u64) & !G::spec_mask(),
            r as nat % G::spec_size() as nat == 0,
            addr <= r < addr + G::spec_size(),
    {
        proof {
            G::lemma_geometry();
        }
        let s = addr + G::MASK;
        proof {
            lemma_granule_mask::<G>(s);
        }
        s & !G::MASK
    }
}

/// Masking with a granule's mask is taking the remainder by its size.
proof fn lemma_granule_mask<G: Granule>(a: u64)
    ensures
        a & G::spec_mask() == a as nat % G::spec_size() as nat,
        a & !G::spec_mask() == a - a as nat % G::spec_size() as nat,
{
    G::lemma_geometry();
    let k = G::spec_mask();
    let n = G::spec_m() as nat;
    lemma2_to64();
    lemma_low_bits_mask_values();
    lemma_u64_low_bits_mask_is_mod(a, n);
    assert(a & !k == a - (a & k)) by (bit_vector);
}

} // verus!
