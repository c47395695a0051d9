use vstd::prelude::*;

use crate::router::CacheStats;

verus! {

/// The overall verdict of the health report.
#[derive(Debug, Clone, Copy, PartialEq, Eq, Structural)]
pub enum OverallStatus {
    Healthy,
    Degraded,
}

impl OverallStatus {
    /// The verdict as reported: `healthy` or `degraded`.
    pub fn as_str(self) -> (r: &'static str)
        ensures
            self == OverallStatus::Healthy ==> r@ == seq!['h', 'e', 'a', 'l', 't', 'h', 'y'],
            self == OverallStatus::Degraded ==> r@ == seq!['d', 'e', 'g', 'r', 'a', 'd', 'e', 'd'],
    {
        proof {
            reveal_strlit("healthy");
            reveal_strlit("degraded");
        }
        match self {
            OverallStatus::Healthy => {
                assert("healthy"@ =~= seq!['h', 'e', 'a', 'l', 't', 'h', 'y']);
                "healthy"
            },
            OverallStatus::Degraded => {
                assert("degraded"@ =~= seq!['d', 'e', 'g', 'r', 'a', 'd', 'e', 'd']);
                "degraded"
            },
        }
    }
}

/// What the data store reports of its indexing progress.
#[derive(Debug, Clone, Copy, PartialEq, Eq, Structural)]
pub struct SyncStatus {
    pub connected: bool,
    pub latest_block_number: Option<u64>,
    pub latest_block_slot: Option<u64>,
    pub latest_block_time: Option<u64>,
    pub total_blocks: Option<u64>,
    pub latest_epoch: Option<u32>,
}

/// The sync section of the health report: the store's status, or the
/// failure to read it, reported inline.
#[derive(Debug, Clone, Copy, PartialEq, Eq, Structural)]
pub struct SyncReport {
    pub connected: bool,
    pub synced: bool,
    pub latest_block: Option<u64>,
    pub latest_block_slot: Option<u64>,
    pub latest_block_time: Option<u64>,
    pub total_blocks: Option<u64>,
    pub latest_epoch: Option<u32>,
    pub failed: bool,
}

/// The health report: the verdict, the sync section and the cache counters.
#[derive(Debug, Clone, Copy, PartialEq, Eq, Structural)]
pub struct HealthReport {
    pub status: OverallStatus,
    pub sync: SyncReport,
    pub cache: CacheStats,
}

/// The verdict from the router's health probe: healthy only when the probe
/// answered that the provider is healthy; a failed probe counts as unhealthy.
pub open spec fn status_of(probe: Option<bool>) -> OverallStatus {
    if probe == Some(true) {
        OverallStatus::Healthy
    } else {
        OverallStatus::Degraded
    }
}

/// The sync section for a status read from the store, or for a failed read.
pub open spec fn sync_report_of(sync: Option<SyncStatus>) -> SyncReport {
    match sync {
        Some(st) => SyncReport {
            connected: st.connected,
            synced: st.latest_block_number is Some,
            latest_block: st.latest_block_number,
            latest_block_slot: st.latest_block_slot,
            latest_block_time: st.latest_block_time,
            total_blocks: st.total_blocks,
            latest_epoch: st.latest_epoch,
            failed: false,
        },
        None => SyncReport {
            connected: false,
            synced: false,
            latest_block: None,
            latest_block_slot: None,
            latest_block_time: None,
            total_blocks: None,
            latest_epoch: None,
            failed: true,
        },
    }
}

/// Builds the health report from the router's probe (`None` where the probe
/// itself failed), the store's sync status (`None` where it could not be
/// read) and the cache counters. The verdict rests on the probe alone.
pub fn build_health_report(probe: Option<bool>, sync: Option<SyncStatus>, cache: CacheStats) -> (r:
    HealthReport)
    ensures
        r.status == status_of(probe),
        r.sync == sync_report_of(sync),
        r.cache == cache,
{
    let status = match probe {
        Some(true) => OverallStatus::Healthy,
        _ => OverallStatus::Degraded,
    };
    let sync_report = match sync {
        Some(st) => SyncReport {
            connected: st.connected,
            synced: st.latest_block_number.is_some(),
            latest_block: st.latest_block_number,
            latest_block_slot: st.latest_block_slot,
            latest_block_time: st.latest_block_time,
            total_blocks: st.total_blocks,
            latest_epoch: st.latest_epoch,
            failed: false,
        },
        None => SyncReport {
            connected: false,
            synced: false,
            latest_block: None,
            latest_block_slot: None,
            latest_block_time: None,
            total_blocks: None,
            latest_epoch: None,
            failed: true,
        },
    };
    HealthReport { status, sync: sync_report, cache }
}

/// A report whose probe did not answer healthy is degraded, whatever the
/// sync status says.
pub proof fn lemma_unhealthy_probe_degrades(
    probe: Option<bool>,
    sync: Option<SyncStatus>,
    cache: CacheStats,
    r: HealthReport,
)
    requires
        probe != Some(true),
        r.status == status_of(probe),
        r.sync == sync_report_of(sync),
        r.cache == cache,
    ensures
        r.status == OverallStatus::Degraded,
{
}

} // verus!
