//! TLB invalidation: the operands of the TLBI instructions and the
//! instruction each operand stands for. Operands are built only through
//! their constructors, which pack the fields; issuing the instruction is left
//! to the caller of `Tlbi::instruction`.
use vstd::prelude::*;

use crate::bitfield::{modify_field, with_field};

verus! {

/// TLBI operand fields: VA[55:12] in bits [43:0], the translation-table-level
/// hint TTL in bits [47:44], ASID in bits [63:48].
pub const TLBI_VA_SHIFT: u64 = 0;
pub const TLBI_VA_MASK: u64 = 0xFFF_FFFF_FFFF;
pub const TLBI_TTL_SHIFT: u64 = 44;
pub const TLBI_TTL_MASK: u64 = 0xF;
pub const TLBI_ASID_SHIFT: u64 = 48;
pub const TLBI_ASID_MASK: u64 = 0xFFFF;

/// The VA field of a TLBI operand for `va`: its page-frame bits [55:12].
pub open spec fn tlbi_va(va: usize) -> u64 {
    ((va as u64) >> 12) & TLBI_VA_MASK
}

/// The operand of a by-VA invalidation: `asid` in bits [63:48], the VA field
/// of `va` in bits [43:0], no level hint.
pub open spec fn va_asid_operand(asid: usize, va: usize) -> u64 {
    ((asid as u64) << 48) | tlbi_va(va)
}

/// The operand of a by-ASID invalidation: `asid` in bits [63:48].
pub open spec fn asid_operand(asid: usize) -> u64 {
    (asid as u64) << 48
}

fn va_to_tlbi_va(va: usize) -> (r: u64)
    ensures
        r == tlbi_va(va),
{
    ((va as u64) >> 12) & TLBI_VA_MASK
}

/// The operand for `asid` and `va`, packed through the TLBI register fields.
fn pack_va_asid(asid: usize, va: usize) -> (r: u64)
    requires
        asid <= 0xFFFF,
    ensures
        r == va_asid_operand(asid, va),
{
    let v = modify_field(0, TLBI_VA_MASK, TLBI_VA_SHIFT, va_to_tlbi_va(va));
    let r = modify_field(v, TLBI_ASID_MASK, TLBI_ASID_SHIFT, asid as u64);
    let ghost a = asid as u64;
    let ghost x = va as u64;
    let ghost f = tlbi_va(va);
    assert(with_field(with_field(0, 0xFFF_FFFF_FFFF, 0, f), 0xFFFF, 48, a) == (a << 48) | f)
        by (bit_vector)
        requires
            a <= 0xFFFF,
            f == (x >> 12) & 0xFFF_FFFF_FFFF,
    ;
    r
}

/// The operand for `va` alone, packed through the TLBI register fields.
fn pack_va(va: usize) -> (r: u64)
    ensures
        r == tlbi_va(va),
{
    let r = modify_field(0, TLBI_VA_MASK, TLBI_VA_SHIFT, va_to_tlbi_va(va));
    let ghost x = va as u64;
    let ghost f = tlbi_va(va);
    assert(with_field(0, 0xFFF_FFFF_FFFF, 0, f) == f) by (bit_vector)
        requires
            f == (x >> 12) & 0xFFF_FFFF_FFFF,
    ;
    r
}

/// The operand for `asid` alone, packed through the TLBI register field.
fn pack_asid(asid: usize) -> (r: u64)
    requires
        asid <= 0xFFFF,
    ensures
        r == asid_operand(asid),
{
    let r = modify_field(0, TLBI_ASID_MASK, TLBI_ASID_SHIFT, asid as u64);
    let ghost a = asid as u64;
    assert(with_field(0, 0xFFFF, 48, a) == a << 48) by (bit_vector)
        requires
            a <= 0xFFFF,
    ;
    r
}

/// `operand` with its TTL hint replaced by `ttl`.
fn pack_ttl(operand: u64, ttl: u64) -> (r: u64)
    requires
        ttl <= TLBI_TTL_MASK,
    ensures
        r == with_field(operand, TLBI_TTL_MASK, TLBI_TTL_SHIFT, ttl),
{
    modify_field(operand, TLBI_TTL_MASK, TLBI_TTL_SHIFT, ttl)
}

/// The TLBI instructions.
#[derive(Debug, Clone, Copy, PartialEq, Eq, Structural)]
pub enum TlbiKind {
    /// All entries for EL1&0, on this core.
    ALLE1,
    /// All entries for EL2, on this core.
    ALLE2,
    /// All entries for EL3, on this core.
    ALLE3,
    /// All entries for EL1&0, Inner Shareable.
    ALLE1IS,
    /// All entries for EL2, Inner Shareable.
    ALLE2IS,
    /// All entries for EL3, Inner Shareable.
    ALLE3IS,
    /// All stage 1 entries of the current VMID at EL1&0, on this core.
    VMALLE1,
    /// All stage 1 entries of the current VMID at EL1&0, Inner Shareable.
    VMALLE1IS,
    /// By VA and ASID at EL1&0, on this core.
    VAE1,
    /// By VA at EL2, on this core.
    VAE2,
    /// By VA at EL3, on this core.
    VAE3,
    /// By VA and ASID at EL1&0, Inner Shareable.
    VAE1IS,
    /// By VA at EL2, Inner Shareable.
    VAE2IS,
    /// By VA at EL3, Inner Shareable.
    VAE3IS,
    /// By ASID at EL1&0, on this core.
    ASIDE1,
    /// By ASID at EL1&0, Inner Shareable.
    ASIDE1IS,
    /// By VA, all ASIDs, at EL1&0, on this core.
    VAAE1,
    /// By VA, all ASIDs, at EL1&0, Inner Shareable.
    VAAE1IS,
}

/// A TLBI instruction with its operand, ready to be issued. Only the
/// operands of this module make one.
pub struct TlbiInstruction {
    kind: TlbiKind,
    operand: Option<u64>,
}

impl View for TlbiInstruction {
    type V = (TlbiKind, Option<u64>);

    closed spec fn view(&self) -> (TlbiKind, Option<u64>) {
        (self.kind, self.operand)
    }
}

impl TlbiInstruction {
    /// Which instruction to issue.
    pub fn kind(&self) -> (r: TlbiKind)
        ensures
            r == self@.0,
    {
        self.kind
    }

    /// The register operand, for the instructions that take one.
    pub fn operand(&self) -> (r: Option<u64>)
        ensures
            r == self@.1,
    {
        self.operand
    }
}

/// An operand of a TLB invalidation.
pub trait Tlbi {
    /// The instruction and register operand this stands for.
    spec fn spec_instruction(&self) -> (TlbiKind, Option<u64>);

    fn instruction(&self) -> (r: TlbiInstruction)
        ensures
            r@ == self.spec_instruction(),
    ;
}

/// Invalidate all entries for EL1&0, on this core.
pub struct ALLE1;

impl Tlbi for ALLE1 {
    open spec fn spec_instruction(&self) -> (TlbiKind, Option<u64>) {
        (TlbiKind::ALLE1, None)
    }

    fn instruction(&self) -> (r: TlbiInstruction) {
        TlbiInstruction { kind: TlbiKind::ALLE1, operand: None }
    }
}

/// Invalidate all entries for EL2, on this core.
pub struct ALLE2;

impl Tlbi for ALLE2 {
    open spec fn spec_instruction(&self) -> (TlbiKind, Option<u64>) {
        (TlbiKind::ALLE2, None)
    }

    fn instruction(&self) -> (r: TlbiInstruction) {
        TlbiInstruction { kind: TlbiKind::ALLE2, operand: None }
    }
}

/// Invalidate all entries for EL3, on this core.
pub struct ALLE3;

impl Tlbi for ALLE3 {
    open spec fn spec_instruction(&self) -> (TlbiKind, Option<u64>) {
        (TlbiKind::ALLE3, None)
    }

    fn instruction(&self) -> (r: TlbiInstruction) {
        TlbiInstruction { kind: TlbiKind::ALLE3, operand: None }
    }
}

/// Invalidate all entries for EL1&0, Inner Shareable.
pub struct ALLE1IS;

impl Tlbi for ALLE1IS {
    open spec fn spec_instruction(&self) -> (TlbiKind, Option<u64>) {
        (TlbiKind::ALLE1IS, None)
    }

    fn instruction(&self) -> (r: TlbiInstruction) {
        TlbiInstruction { kind: TlbiKind::ALLE1IS, operand: None }
    }
}

/// Invalidate all entries for EL2, Inner Shareable.
pub struct ALLE2IS;

impl Tlbi for ALLE2IS {
    open spec fn spec_instruction(&self) -> (TlbiKind, Option<u64>) {
        (TlbiKind::ALLE2IS, None)
    }

    fn instruction(&self) -> (r: TlbiInstruction) {
        TlbiInstruction { kind: TlbiKind::ALLE2IS, operand: None }
    }
}

/// Invalidate all entries for EL3, Inner Shareable.
pub struct ALLE3IS;

impl Tlbi for ALLE3IS {
    open spec fn spec_instruction(&self) -> (TlbiKind, Option<u64>) {
        (TlbiKind::ALLE3IS, None)
    }

    fn instruction(&self) -> (r: TlbiInstruction) {
        TlbiInstruction { kind: TlbiKind::ALLE3IS, operand: None }
    }
}

/// Invalidate all stage 1 entries of the current VMID at EL1&0, on this core.
pub struct VMALLE1;

impl Tlbi for VMALLE1 {
    open spec fn spec_instruction(&self) -> (TlbiKind, Option<u64>) {
        (TlbiKind::VMALLE1, None)
    }

    fn instruction(&self) -> (r: TlbiInstruction) {
        TlbiInstruction { kind: TlbiKind::VMALLE1, operand: None }
    }
}

/// Invalidate all stage 1 entries of the current VMID at EL1&0, Inner Shareable.
pub struct VMALLE1IS;

impl Tlbi for VMALLE1IS {
    open spec fn spec_instruction(&self) -> (TlbiKind, Option<u64>) {
        (TlbiKind::VMALLE1IS, None)
    }

    fn instruction(&self) -> (r: TlbiInstruction) {
        TlbiInstruction { kind: TlbiKind::VMALLE1IS, operand: None }
    }
}

/// Invalidate by VA and ASID at EL1&0, on this core.
pub struct VAE1(u64);

impl View for VAE1 {
    type V = u64;

    closed spec fn view(&self) -> u64 {
        self.0
    }
}

impl VAE1 {
    pub fn new(asid: usize, va: usize) -> (r: Self)
        requires
            asid <= 0xFFFF,
        ensures
            r@ == va_asid_operand(asid, va),
    {
        VAE1(pack_va_asid(asid, va))
    }

    /// This operand with the translation-table-level hint `ttl` (TTL[3:2]
    /// the granule, TTL[1:0] the level of the leaf entry; 0 for no hint).
    pub fn with_ttl(self, ttl: u64) -> (r: Self)
        requires
            ttl <= TLBI_TTL_MASK,
        ensures
            r@ == with_field(self@, TLBI_TTL_MASK, TLBI_TTL_SHIFT, ttl),
    {
        VAE1(pack_ttl(self.0, ttl))
    }
}

impl Tlbi for VAE1 {
    open spec fn spec_instruction(&self) -> (TlbiKind, Option<u64>) {
        (TlbiKind::VAE1, Some(self@))
    }

    fn instruction(&self) -> (r: TlbiInstruction) {
        TlbiInstruction { kind: TlbiKind::VAE1, operand: Some(self.0) }
    }
}

/// Invalidate by VA at EL2, on this core.
pub struct VAE2(u64);

impl View for VAE2 {
    type V = u64;

    closed spec fn view(&self) -> u64 {
        self.0
    }
}

impl VAE2 {
    pub fn new(asid: usize, va: usize) -> (r: Self)
        requires
            asid <= 0xFFFF,
        ensures
            r@ == va_asid_operand(asid, va),
    {
        VAE2(pack_va_asid(asid, va))
    }

    /// This operand with the translation-table-level hint `ttl` (TTL[3:2]
    /// the granule, TTL[1:0] the level of the leaf entry; 0 for no hint).
    pub fn with_ttl(self, ttl: u64) -> (r: Self)
        requires
            ttl <= TLBI_TTL_MASK,
        ensures
            r@ == with_field(self@, TLBI_TTL_MASK, TLBI_TTL_SHIFT, ttl),
    {
        VAE2(pack_ttl(self.0, ttl))
    }
}

impl Tlbi for VAE2 {
    open spec fn spec_instruction(&self) -> (TlbiKind, Option<u64>) {
        (TlbiKind::VAE2, Some(self@))
    }

    fn instruction(&self) -> (r: TlbiInstruction) {
        TlbiInstruction { kind: TlbiKind::VAE2, operand: Some(self.0) }
    }
}

/// Invalidate by VA at EL3, on this core.
pub struct VAE3(u64);

impl View for VAE3 {
    type V = u64;

    closed spec fn view(&self) -> u64 {
        self.0
    }
}

impl VAE3 {
    pub fn new(asid: usize, va: usize) -> (r: Self)
        requires
            asid <= 0xFFFF,
        ensures
            r@ == va_asid_operand(asid, va),
    {
        VAE3(pack_va_asid(asid, va))
    }

    /// This operand with the translation-table-level hint `ttl` (TTL[3:2]
    /// the granule, TTL[1:0] the level of the leaf entry; 0 for no hint).
    pub fn with_ttl(self, ttl: u64) -> (r: Self)
        requires
            ttl <= TLBI_TTL_MASK,
        ensures
            r@ == with_field(self@, TLBI_TTL_MASK, TLBI_TTL_SHIFT, ttl),
    {
        VAE3(pack_ttl(self.0, ttl))
    }
}

impl Tlbi for VAE3 {
    open spec fn spec_instruction(&self) -> (TlbiKind, Option<u64>) {
        (TlbiKind::VAE3, Some(self@))
    }

    fn instruction(&self) -> (r: TlbiInstruction) {
        TlbiInstruction { kind: TlbiKind::VAE3, operand: Some(self.0) }
    }
}

/// Invalidate by VA and ASID at EL1&0, Inner Shareable.
pub struct VAE1IS(u64);

impl View for VAE1IS {
    type V = u64;

    closed spec fn view(&self) -> u64 {
        self.0
    }
}

impl VAE1IS {
    pub fn new(asid: usize, va: usize) -> (r: Self)
        requires
            asid <= 0xFFFF,
        ensures
            r@ == va_asid_operand(asid, va),
    {
        VAE1IS(pack_va_asid(asid, va))
    }

    /// This operand with the translation-table-level hint `ttl` (TTL[3:2]
    /// the granule, TTL[1:0] the level of the leaf entry; 0 for no hint).
    pub fn with_ttl(self, ttl: u64) -> (r: Self)
        requires
            ttl <= TLBI_TTL_MASK,
        ensures
            r@ == with_field(self@, TLBI_TTL_MASK, TLBI_TTL_SHIFT, ttl),
    {
        VAE1IS(pack_ttl(self.0, ttl))
    }
}

impl Tlbi for VAE1IS {
    open spec fn spec_instruction(&self) -> (TlbiKind, Option<u64>) {
        (TlbiKind::VAE1IS, Some(self@))
    }

    fn instruction(&self) -> (r: TlbiInstruction) {
        TlbiInstruction { kind: TlbiKind::VAE1IS, operand: Some(self.0) }
    }
}

/// Invalidate by VA at EL2, Inner Shareable.
pub struct VAE2IS(u64);

impl View for VAE2IS {
    type V = u64;

    closed spec fn view(&self) -> u64 {
        self.0
    }
}

impl VAE2IS {
    pub fn new(asid: usize, va: usize) -> (r: Self)
        requires
            asid <= 0xFFFF,
        ensures
            r@ == va_asid_operand(asid, va),
    {
        VAE2IS(pack_va_asid(asid, va))
    }

    /// This operand with the translation-table-level hint `ttl` (TTL[3:2]
    /// the granule, TTL[1:0] the level of the leaf entry; 0 for no hint).
    pub fn with_ttl(self, ttl: u64) -> (r: Self)
        requires
            ttl <= TLBI_TTL_MASK,
        ensures
            r@ == with_field(self@, TLBI_TTL_MASK, TLBI_TTL_SHIFT, ttl),
    {
        VAE2IS(pack_ttl(self.0, ttl))
    }
}

impl Tlbi for VAE2IS {
    open spec fn spec_instruction(&self) -> (TlbiKind, Option<u64>) {
        (TlbiKind::VAE2IS, Some(self@))
    }

    fn instruction(&self) -> (r: TlbiInstruction) {
        TlbiInstruction { kind: TlbiKind::VAE2IS, operand: Some(self.0) }
    }
}

/// Invalidate by VA at EL3, Inner Shareable.
pub struct VAE3IS(u64);

impl View for VAE3IS {
    type V = u64;

    closed spec fn view(&self) -> u64 {
        self.0
    }
}

impl VAE3IS {
    pub fn new(asid: usize, va: usize) -> (r: Self)
        requires
            asid <= 0xFFFF,
        ensures
            r@ == va_asid_operand(asid, va),
    {
        VAE3IS(pack_va_asid(asid, va))
    }

    /// This operand with the translation-table-level hint `ttl` (TTL[3:2]
    /// the granule, TTL[1:0] the level of the leaf entry; 0 for no hint).
    pub fn with_ttl(self, ttl: u64) -> (r: Self)
        requires
            ttl <= TLBI_TTL_MASK,
        ensures
            r@ == with_field(self@, TLBI_TTL_MASK, TLBI_TTL_SHIFT, ttl),
    {
        VAE3IS(pack_ttl(self.0, ttl))
    }
}

impl Tlbi for VAE3IS {
    open spec fn spec_instruction(&self) -> (TlbiKind, Option<u64>) {
        (TlbiKind::VAE3IS, Some(self@))
    }

    fn instruction(&self) -> (r: TlbiInstruction) {
        TlbiInstruction { kind: TlbiKind::VAE3IS, operand: Some(self.0) }
    }
}

/// Invalidate by ASID at EL1&0, on this core.
pub struct ASIDE1(u64);

impl View for ASIDE1 {
    type V = u64;

    closed spec fn view(&self) -> u64 {
        self.0
    }
}

impl ASIDE1 {
    pub fn new(asid: usize) -> (r: Self)
        requires
            asid <= 0xFFFF,
        ensures
            r@ == asid_operand(asid),
    {
        ASIDE1(pack_asid(asid))
    }
}

impl Tlbi for ASIDE1 {
    open spec fn spec_instruction(&self) -> (TlbiKind, Option<u64>) {
        (TlbiKind::ASIDE1, Some(self@))
    }

    fn instruction(&self) -> (r: TlbiInstruction) {
        TlbiInstruction { kind: TlbiKind::ASIDE1, operand: Some(self.0) }
    }
}

/// Invalidate by ASID at EL1&0, Inner Shareable.
pub struct ASIDE1IS(u64);

impl View for ASIDE1IS {
    type V = u64;

    closed spec fn view(&self) -> u64 {
        self.0
    }
}

impl ASIDE1IS {
    pub fn new(asid: usize) -> (r: Self)
        requires
            asid <= 0xFFFF,
        ensures
            r@ == asid_operand(asid),
    {
        ASIDE1IS(pack_asid(asid))
    }
}

impl Tlbi for ASIDE1IS {
    open spec fn spec_instruction(&self) -> (TlbiKind, Option<u64>) {
        (TlbiKind::ASIDE1IS, Some(self@))
    }

    fn instruction(&self) -> (r: TlbiInstruction) {
        TlbiInstruction { kind: TlbiKind::ASIDE1IS, operand: Some(self.0) }
    }
}

/// Invalidate by VA, all ASIDs, at EL1&0, on this core.
pub struct VAAE1(u64);

impl View for VAAE1 {
    type V = u64;

    closed spec fn view(&self) -> u64 {
        self.0
    }
}

impl VAAE1 {
    pub fn new(va: usize) -> (r: Self)
        ensures
            r@ == tlbi_va(va),
    {
        VAAE1(pack_va(va))
    }

    /// This operand with the translation-table-level hint `ttl` (TTL[3:2]
    /// the granule, TTL[1:0] the level of the leaf entry; 0 for no hint).
    pub fn with_ttl(self, ttl: u64) -> (r: Self)
        requires
            ttl <= TLBI_TTL_MASK,
        ensures
            r@ == with_field(self@, TLBI_TTL_MASK, TLBI_TTL_SHIFT, ttl),
    {
        VAAE1(pack_ttl(self.0, ttl))
    }
}

impl Tlbi for VAAE1 {
    open spec fn spec_instruction(&self) -> (TlbiKind, Option<u64>) {
        (TlbiKind::VAAE1, Some(self@))
    }

    fn instruction(&self) -> (r: TlbiInstruction) {
        TlbiInstruction { kind: TlbiKind::VAAE1, operand: Some(self.0) }
    }
}

/// Invalidate by VA, all ASIDs, at EL1&0, Inner Shareable.
pub struct VAAE1IS(u64);

impl View for VAAE1IS {
    type V = u64;

    closed spec fn view(&self) -> u64 {
        self.0
    }
}

impl VAAE1IS {
    pub fn new(va: usize) -> (r: Self)
        ensures
            r@ == tlbi_va(va),
    {
        VAAE1IS(pack_va(va))
    }

    /// This operand with the translation-table-level hint `ttl` (TTL[3:2]
    /// the granule, TTL[1:0] the level of the leaf entry; 0 for no hint).
    pub fn with_ttl(self, ttl: u64) -> (r: Self)
        requires
            ttl <= TLBI_TTL_MASK,
        ensures
            r@ == with_field(self@, TLBI_TTL_MASK, TLBI_TTL_SHIFT, ttl),
    {
        VAAE1IS(pack_ttl(self.0, ttl))
    }
}

impl Tlbi for VAAE1IS {
    open spec fn spec_instruction(&self) -> (TlbiKind, Option<u64>) {
        (TlbiKind::VAAE1IS, Some(self@))
    }

    fn instruction(&self) -> (r: TlbiInstruction) {
        TlbiInstruction { kind: TlbiKind::VAAE1IS, operand: Some(self.0) }
    }
}

} // verus!
