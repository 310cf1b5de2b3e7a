//! The poll loop's decisions: what a tick does once the health check is in,
//! and what a fetch is worth.
//!
//! Ticks are the caller's: one after the other, each with a health check
//! first. A device that is healthy is asked for its track. One that is not
//! is left alone for the tick, and is given up once its retry budget is
//! spent. A fetch that fails is a miss, and no reason to stop.

use crate::device_manager::exhausted;
use crate::device_manager::health_step;
use crate::device_manager::rediscovery_step;
use crate::device_manager::step;
use crate::device_manager::DeviceManager;
use crate::device_manager::HealthStep;
use crate::device_manager::ManagerEvent;
use crate::device_manager::ManagerView;
use crate::device_manager::RediscoveryStep;
use crate::discovery::DeviceView;
use crate::sonos::get_current_track_info;
use crate::sonos::metadata_fields;
use crate::sonos::PlaybackState;
use crate::sonos::PositionInfo;
use crate::text::text_of;
use vstd::prelude::*;

verus! {

/// Seconds between two ticks.
pub const POLL_INTERVAL_SECS: u64 = 5;

/// Seconds after which a fetch that got no answer counts as failed.
pub const FETCH_TIMEOUT_SECS: u64 = 10;

/// What a tick does after its health check.
#[derive(Debug, Clone, Copy, PartialEq, Eq, Structural)]
pub enum TickPlan {
    /// Ask the device for its track.
    Fetch,
    /// Leave the device alone until the next tick.
    Skip,
    /// Stop monitoring: the device is lost.
    Stop,
}

/// Whether a health check counts as healthy, given what its probe led to
/// and, where that was a rediscovery, what the rediscovery led to.
pub open spec fn reported_healthy(health: HealthStep, rediscovery: Option<RediscoveryStep>) -> bool {
    match health {
        HealthStep::Healthy => true,
        HealthStep::GiveUp => false,
        HealthStep::Rediscover { .. } => rediscovery == Some(RediscoveryStep::Resume),
    }
}

/// What a tick does after a health check, given whether the retry budget
/// is spent.
pub open spec fn tick_plan(healthy: bool, budget_spent: bool) -> TickPlan {
    if healthy {
        TickPlan::Fetch
    } else if budget_spent {
        TickPlan::Stop
    } else {
        TickPlan::Skip
    }
}

/// What a tick does whose probe came back `reachable` and whose
/// rediscovery, where the manager asked for one, found `found`.
pub open spec fn tick_of(m: ManagerView, reachable: bool, found: Option<Seq<DeviceView>>) -> TickPlan {
    let health = health_step(m, reachable);
    let probed = step(m, ManagerEvent::Probe { reachable });
    if health is Rediscover {
        tick_plan(
            reported_healthy(health, Some(rediscovery_step(probed, found))),
            exhausted(step(probed, ManagerEvent::Rediscovery { found })),
        )
    } else {
        tick_plan(reported_healthy(health, None), exhausted(probed))
    }
}

/// A tick stops the monitoring exactly when its probe fails and takes the
/// retry count over the budget. It fetches when the device answered, and
/// when a rediscovery found the device; else it skips.
pub proof fn lemma_tick(m: ManagerView, reachable: bool, found: Option<Seq<DeviceView>>)
    ensures
        tick_of(m, reachable, found) is Stop <==> !reachable && m.retry_count + 1 > m.max_retries,
        tick_of(m, reachable, found) is Fetch <==> reachable || (m.retry_count + 1
            <= m.max_retries && rediscovery_step(
            step(m, ManagerEvent::Probe { reachable }),
            found,
        ) is Resume),
{
}

/// Whether a health check counts as healthy.
pub fn health_report(health: HealthStep, rediscovery: Option<RediscoveryStep>) -> (healthy: bool)
    ensures
        healthy == reported_healthy(health, rediscovery),
{
    match health {
        HealthStep::Healthy => true,
        HealthStep::GiveUp => false,
        HealthStep::Rediscover { .. } => match rediscovery {
            Some(RediscoveryStep::Resume) => true,
            _ => false,
        },
    }
}

/// What the tick does, after a health check that came out `healthy`.
pub fn plan_tick(manager: &DeviceManager, healthy: bool) -> (plan: TickPlan)
    ensures
        plan == tick_plan(healthy, exhausted(manager@)),
{
    if healthy {
        TickPlan::Fetch
    } else if manager.budget_exhausted() {
        TickPlan::Stop
    } else {
        TickPlan::Skip
    }
}

/// The snapshot that a fetch brought, if it brought one. A fetch that
/// failed is a miss for this tick.
pub fn snapshot_of(fetched: Result<PositionInfo, String>) -> (snapshot: Option<PlaybackState>)
    ensures
        match (fetched, snapshot) {
            (Ok(info), Some(state)) => {
                &&& (text_of(state.title), text_of(state.artist), text_of(state.album))
                    == metadata_fields(info.track_meta_data@)
                &&& text_of(state.position) == Some(info.rel_time@)
                &&& text_of(state.duration) == Some(info.track_duration@)
            },
            (Err(_), None) => true,
            _ => false,
        },
{
    match fetched {
        Ok(info) => Some(get_current_track_info(info)),
        Err(_) => None,
    }
}

} // verus!
