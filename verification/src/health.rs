use vstd::prelude::*;
use crate::detector::SinkEvent;
use crate::types::{L1BatchNumber, MiniblockNumber};

verus! {

/// The coarse state published on the process-wide health channel.
#[derive(Clone, Copy, Debug, PartialEq, Eq, Structural)]
pub enum HealthStatus {
    /// The detector runs and has found no divergence.
    Ready,
    /// Divergence was found; the node is affected and will roll back.
    Affected,
    /// The run loop exited cleanly.
    ShuttingDown,
}

/// Structured details attached to a health update.
#[derive(Clone, Copy, Debug, PartialEq, Eq, Structural)]
pub enum HealthDetails {
    /// The heights checked last and found correct.
    CorrectBlock {
        last_correct_miniblock: MiniblockNumber,
        last_correct_l1_batch: L1BatchNumber,
    },
    /// The batch at which divergence was found.
    Divergence { diverged_l1_batch: L1BatchNumber },
}

/// One health update: a status, with details where there is anything to
/// say beyond the status itself.
#[derive(Clone, Copy, Debug, PartialEq, Eq)]
pub struct Health {
    pub status: HealthStatus,
    pub details: Option<HealthDetails>,
}

/// How each sink notification surfaces on the health channel.
pub open spec fn spec_health_for_event(event: SinkEvent) -> Health {
    match event {
        SinkEvent::Initialized => Health { status: HealthStatus::Ready, details: None },
        SinkEvent::UpdateCorrectBlock(block, batch) => Health {
            status: HealthStatus::Ready,
            details: Some(
                HealthDetails::CorrectBlock {
                    last_correct_miniblock: block,
                    last_correct_l1_batch: batch,
                },
            ),
        },
        SinkEvent::ReportDivergence(batch) => Health {
            status: HealthStatus::Affected,
            details: Some(HealthDetails::Divergence { diverged_l1_batch: batch }),
        },
        SinkEvent::StartShuttingDown => Health {
            status: HealthStatus::ShuttingDown,
            details: None,
        },
    }
}

pub fn health_for_event(event: &SinkEvent) -> (health: Health)
    ensures
        health == spec_health_for_event(*event),
{
    match *event {
        SinkEvent::Initialized => Health { status: HealthStatus::Ready, details: None },
        SinkEvent::UpdateCorrectBlock(block, batch) => Health {
            status: HealthStatus::Ready,
            details: Some(
                HealthDetails::CorrectBlock {
                    last_correct_miniblock: block,
                    last_correct_l1_batch: batch,
                },
            ),
        },
        SinkEvent::ReportDivergence(batch) => Health {
            status: HealthStatus::Affected,
            details: Some(HealthDetails::Divergence { diverged_l1_batch: batch }),
        },
        SinkEvent::StartShuttingDown => Health {
            status: HealthStatus::ShuttingDown,
            details: None,
        },
    }
}

} // verus!
