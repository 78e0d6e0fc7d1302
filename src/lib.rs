//! Verified building blocks for the AArch64 memory-management unit: the
//! translation-table-entry codec, TLB-invalidation operand encoding and the
//! arithmetic behind data-cache maintenance sweeps.
pub mod bitfield;
pub mod cache;
pub mod tlb;
pub mod tte;
