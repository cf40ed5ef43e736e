//! Records of the management API: plain data, identifiers and settings.
use vstd::prelude::*;

use crate::id::{NodeId, RegionId, TenantId, TimelineId};
use crate::lsn::Lsn;
use crate::models::TimelineState;
use crate::models::TenantState;

verus! {

pub struct TimelineCreateRequest {
    pub new_timeline_id: Option<TimelineId>,
    pub ancestor_timeline_id: Option<TimelineId>,
    pub ancestor_start_lsn: Option<Lsn>,
    pub pg_version: Option<u32>,
    pub region_id: Option<RegionId>,
}

/// Settings of a new tenant; a setting left out keeps its default.
pub struct TenantCreateRequest {
    pub new_tenant_id: Option<TenantId>,
    pub checkpoint_distance: Option<u64>,
    pub checkpoint_timeout: Option<String>,
    pub compaction_target_size: Option<u64>,
    pub compaction_period: Option<String>,
    pub compaction_threshold: Option<usize>,
    pub gc_horizon: Option<u64>,
    pub gc_period: Option<String>,
    pub image_creation_threshold: Option<usize>,
    pub pitr_interval: Option<String>,
    pub walreceiver_connect_timeout: Option<String>,
    pub lagging_wal_timeout: Option<String>,
    /// Never zero when given.
    pub max_lsn_wal_lag: Option<u64>,
    pub trace_read_requests: Option<bool>,
}

pub struct TenantCreateResponse(pub TenantId);

pub struct StatusResponse {
    pub id: NodeId,
}

impl TenantCreateRequest {
    /// A lag bound, when given, is not zero.
    pub open spec fn wf(&self) -> bool {
        self.max_lsn_wal_lag != Some(0u64)
    }

    /// No setting is given: every one of them keeps its default.
    pub open spec fn settings_unset(&self) -> bool {
        &&& self.checkpoint_distance is None
        &&& self.checkpoint_timeout is None
        &&& self.compaction_target_size is None
        &&& self.compaction_period is None
        &&& self.compaction_threshold is None
        &&& self.gc_horizon is None
        &&& self.gc_period is None
        &&& self.image_creation_threshold is None
        &&& self.pitr_interval is None
        &&& self.walreceiver_connect_timeout is None
        &&& self.lagging_wal_timeout is None
        &&& self.max_lsn_wal_lag is None
        &&& self.trace_read_requests is None
    }

    /// A request for a tenant with the given id and default settings.
    pub fn new(new_tenant_id: Option<TenantId>) -> (r: TenantCreateRequest)
        ensures
            r.new_tenant_id == new_tenant_id,
            r.settings_unset(),
            r.wf(),
    {
        TenantCreateRequest {
            new_tenant_id,
            checkpoint_distance: None,
            checkpoint_timeout: None,
            compaction_target_size: None,
            compaction_period: None,
            compaction_threshold: None,
            gc_horizon: None,
            gc_period: None,
            image_creation_threshold: None,
            pitr_interval: None,
            walreceiver_connect_timeout: None,
            lagging_wal_timeout: None,
            max_lsn_wal_lag: None,
            trace_read_requests: None,
        }
    }
}

/// New settings of an existing tenant; a setting left out is not changed.
pub struct TenantConfigRequest {
    pub tenant_id: TenantId,
    pub checkpoint_distance: Option<u64>,
    pub checkpoint_timeout: Option<String>,
    pub compaction_target_size: Option<u64>,
    pub compaction_period: Option<String>,
    pub compaction_threshold: Option<usize>,
    pub gc_horizon: Option<u64>,
    pub gc_period: Option<String>,
    pub image_creation_threshold: Option<usize>,
    pub pitr_interval: Option<String>,
    pub walreceiver_connect_timeout: Option<String>,
    pub lagging_wal_timeout: Option<String>,
    /// Never zero when given.
    pub max_lsn_wal_lag: Option<u64>,
    pub trace_read_requests: Option<bool>,
}

impl TenantConfigRequest {
    /// A lag bound, when given, is not zero.
    pub open spec fn wf(&self) -> bool {
        self.max_lsn_wal_lag != Some(0u64)
    }

    /// No setting is given: none of them changes.
    pub open spec fn settings_unset(&self) -> bool {
        &&& self.checkpoint_distance is None
        &&& self.checkpoint_timeout is None
        &&& self.compaction_target_size is None
        &&& self.compaction_period is None
        &&& self.compaction_threshold is None
        &&& self.gc_horizon is None
        &&& self.gc_period is None
        &&& self.image_creation_threshold is None
        &&& self.pitr_interval is None
        &&& self.walreceiver_connect_timeout is None
        &&& self.lagging_wal_timeout is None
        &&& self.max_lsn_wal_lag is None
        &&& self.trace_read_requests is None
    }

    /// A request for the given tenant that changes nothing yet.
    pub fn new(tenant_id: TenantId) -> (r: TenantConfigRequest)
        ensures
            r.tenant_id == tenant_id,
            r.settings_unset(),
            r.wf(),
    {
        TenantConfigRequest {
            tenant_id,
            checkpoint_distance: None,
            checkpoint_timeout: None,
            compaction_target_size: None,
            compaction_period: None,
            compaction_threshold: None,
            gc_horizon: None,
            gc_period: None,
            image_creation_threshold: None,
            pitr_interval: None,
            walreceiver_connect_timeout: None,
            lagging_wal_timeout: None,
            max_lsn_wal_lag: None,
            trace_read_requests: None,
        }
    }
}

pub struct TenantInfo {
    pub id: TenantId,
    pub state: TenantState,
    /// Only given by the tenant status call.
    pub current_physical_size: Option<u64>,
    pub has_in_progress_downloads: Option<bool>,
}

/// What the timeline detail and timeline list calls report of a timeline.
pub struct TimelineInfo {
    pub tenant_id: TenantId,
    pub timeline_id: TimelineId,
    pub ancestor_timeline_id: Option<TimelineId>,
    pub ancestor_lsn: Option<Lsn>,
    pub last_record_lsn: Lsn,
    pub prev_record_lsn: Option<Lsn>,
    pub latest_gc_cutoff_lsn: Lsn,
    pub disk_consistent_lsn: Lsn,
    pub remote_consistent_lsn: Lsn,
    /// None while the timeline is not loaded.
    pub current_logical_size: Option<u64>,
    /// None while the timeline is not loaded.
    pub current_physical_size: Option<u64>,
    pub current_logical_size_non_incremental: Option<u64>,
    pub current_physical_size_non_incremental: Option<u64>,
    pub wal_source_connstr: Option<String>,
    pub last_received_msg_lsn: Option<Lsn>,
    /// Time of the last message received, in microseconds.
    pub last_received_msg_ts: Option<u128>,
    pub pg_version: u32,
    pub state: TimelineState,
    /// Kept apart for older clients, though some fields repeat those above.
    pub local: LocalTimelineInfo,
    pub remote: RemoteTimelineInfo,
}

pub struct LocalTimelineInfo {
    pub ancestor_timeline_id: Option<TimelineId>,
    pub ancestor_lsn: Option<Lsn>,
    /// None while the timeline is not loaded.
    pub current_logical_size: Option<u64>,
    /// None while the timeline is not loaded.
    pub current_physical_size: Option<u64>,
}

pub struct RemoteTimelineInfo {
    pub remote_consistent_lsn: Option<Lsn>,
}

} // verus!
