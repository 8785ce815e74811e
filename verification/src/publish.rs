//! The battery publisher's arithmetic and decisions: the single 0-100
//! percentage derived from the two earbud readings, the deduplication of
//! battery snapshots, and the choice between adding, updating and removing
//! the published battery entry. Talking to the platform's battery registry
//! is the caller's business.

use vstd::prelude::*;

use crate::status::PodsBattery;

verus! {

/// The mean of the two earbud levels, rounded down.
pub open spec fn spec_mean_percent(l: u8, r: u8) -> u8 {
    (((l + r) / 2) as u8)
}

/// The single percentage to publish: the mean of the left and right levels
/// when both are powered, nothing otherwise.
pub open spec fn spec_percentage(b: PodsBattery) -> Option<u8> {
    match (b.left.spec_as_percent(), b.right.spec_as_percent()) {
        (Some(l), Some(r)) => Some(spec_mean_percent(l, r)),
        _ => None,
    }
}

/// Derive the one published percentage from a battery record.
pub fn calculate_percentage(data: PodsBattery) -> (r: Option<u8>)
    ensures
        r == spec_percentage(data),
{
    match (data.left.as_percent(), data.right.as_percent()) {
        (Some(l), Some(r)) => Some(((l as u16 + r as u16) / 2) as u8),
        _ => None,
    }
}

/// What to do with the published battery entry, given whether one is
/// currently registered and whether a percentage is available.
#[derive(Debug, Clone, Copy, PartialEq, Eq, Structural)]
pub enum PublishAction {
    /// An entry is registered and a percentage is known: update it.
    Update(u8),
    /// An entry is registered but no percentage is known any more: remove
    /// it.
    Remove,
    /// No entry is registered and a percentage just became known: add one.
    Add(u8),
    /// Nothing registered, nothing known: leave it be.
    Keep,
}

/// Choose the publish action.
pub fn publish_action(registered: bool, percent: Option<u8>) -> (a: PublishAction)
    ensures
        a == match percent {
            Some(p) => if registered {
                PublishAction::Update(p)
            } else {
                PublishAction::Add(p)
            },
            None => if registered {
                PublishAction::Remove
            } else {
                PublishAction::Keep
            },
        },
{
    match (registered, percent) {
        (true, Some(p)) => PublishAction::Update(p),
        (true, None) => PublishAction::Remove,
        (false, Some(p)) => PublishAction::Add(p),
        (false, None) => PublishAction::Keep,
    }
}

/// What observing a battery snapshot does to the publisher's memory and
/// whether the platform entry must be touched at all: repeats of the same
/// snapshot are skipped.
pub open spec fn spec_observe_battery(
    last: Option<Option<PodsBattery>>,
    b: Option<PodsBattery>,
) -> (Option<Option<PodsBattery>>, bool) {
    if last == Some(b) {
        (last, false)
    } else {
        (Some(b), true)
    }
}

/// Remembers the battery part of the last status snapshot the publisher
/// acted on, so that wakes that did not change the battery are ignored.
pub struct BatteryTracker {
    pub last: Option<Option<PodsBattery>>,
}

impl BatteryTracker {
    /// A fresh tracker: the first snapshot is always acted on.
    pub fn new() -> (r: Self)
        ensures
            r.last == Option::<Option<PodsBattery>>::None,
    {
        BatteryTracker { last: None }
    }

    /// Record the battery part of a snapshot; the result says whether the
    /// publisher must act on it.
    pub fn observe(&mut self, b: &Option<PodsBattery>) -> (changed: bool)
        ensures
            (final(self).last, changed) == spec_observe_battery(old(self).last, *b),
    {
        let same = match &self.last {
            Some(prev) => match (prev, b) {
                (None, None) => true,
                (Some(x), Some(y)) => *x == *y,
                _ => false,
            },
            None => false,
        };
        if same {
            false
        } else {
            self.last = Some(*b);
            true
        }
    }
}

} // verus!
