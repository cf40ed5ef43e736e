use vstd::prelude::*;

verus! {

/// Identifies a tenant.
#[derive(Debug, Clone, Copy, PartialEq, Eq, Structural, Hash)]
pub struct TenantId(pub u128);

/// Identifies a timeline within a tenant.
#[derive(Debug, Clone, Copy, PartialEq, Eq, Structural, Hash)]
pub struct TimelineId(pub u128);

/// Identifies a page server node.
#[derive(Debug, Clone, Copy, PartialEq, Eq, Structural, Hash)]
pub struct NodeId(pub u64);

/// Identifies a storage region.
#[derive(Debug, Clone, Copy, PartialEq, Eq, Structural, Hash)]
pub struct RegionId(pub u32);

} // verus!
