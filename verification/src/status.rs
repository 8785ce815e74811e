//! The shared device status: three independently observed fields, each
//! absent until its first real observation, plus the logic that applies a
//! decoded event to the status and decides whether the result is worth a
//! notification. Consumers are woken only for a write that actually changed
//! the whole status value.

use vstd::prelude::*;

use crate::packet::Battery;
use crate::packet::BatteryComponent;
use crate::packet::BatteryStatus;
use crate::packet::EarDetectionStatus;
use crate::packet::NoiseControlStatus;
use crate::packet::SpecPacket;

verus! {

/// The three battery readings of the accessory.
#[derive(Debug, Clone, Copy, PartialEq, Eq, Structural)]
pub struct PodsBattery {
    pub case: BatteryStatus,
    pub left: BatteryStatus,
    pub right: BatteryStatus,
}

/// The two in-ear readings of the accessory.
#[derive(Debug, Clone, Copy, PartialEq, Eq, Structural)]
pub struct PodsInEar {
    pub primary: EarDetectionStatus,
    pub secondary: EarDetectionStatus,
}

/// Everything known about the device. Each field is `None` until the first
/// event of its kind arrives, and falls back to `None` only when the device
/// is confirmed gone.
#[derive(Debug, Clone, Copy)]
pub struct PodsStatus {
    pub battery: Option<PodsBattery>,
    pub noise: Option<NoiseControlStatus>,
    pub ear: Option<PodsInEar>,
}

impl PartialEq for PodsStatus {
    fn eq(&self, other: &Self) -> (r: bool) {
        let battery_eq = match (self.battery, other.battery) {
            (None, None) => true,
            (Some(a), Some(b)) => a == b,
            _ => false,
        };
        let noise_eq = match (self.noise, other.noise) {
            (None, None) => true,
            (Some(a), Some(b)) => a == b,
            _ => false,
        };
        let ear_eq = match (self.ear, other.ear) {
            (None, None) => true,
            (Some(a), Some(b)) => a == b,
            _ => false,
        };
        battery_eq && noise_eq && ear_eq
    }
}

impl vstd::std_specs::cmp::PartialEqSpecImpl for PodsStatus {
    open spec fn obeys_eq_spec() -> bool {
        true
    }

    open spec fn eq_spec(&self, other: &Self) -> bool {
        *self == *other
    }
}

impl PodsStatus {
    /// The status with nothing observed yet.
    pub open spec fn spec_unknown() -> PodsStatus {
        PodsStatus { battery: None, noise: None, ear: None }
    }

    /// The status with nothing observed yet.
    pub fn unknown() -> (r: Self)
        ensures
            r == Self::spec_unknown(),
    {
        PodsStatus { battery: None, noise: None, ear: None }
    }

    /// Forget every observation, as when the device is confirmed gone.
    pub fn reset(&mut self)
        ensures
            *final(self) == Self::spec_unknown(),
    {
        self.battery = None;
        self.noise = None;
        self.ear = None;
    }
}

/// The battery record a report starts from when none was observed yet.
pub open spec fn spec_unknown_battery() -> PodsBattery {
    PodsBattery {
        case: BatteryStatus::Unknown,
        left: BatteryStatus::Unknown,
        right: BatteryStatus::Unknown,
    }
}

/// The reading a battery record holds for one component.
pub open spec fn component_value(b: PodsBattery, c: BatteryComponent) -> BatteryStatus {
    match c {
        BatteryComponent::Case => b.case,
        BatteryComponent::Left => b.left,
        BatteryComponent::Right => b.right,
    }
}

/// One battery entry overwrites exactly the component it names.
pub open spec fn spec_apply_entry(b: PodsBattery, e: Battery) -> PodsBattery {
    match e.component {
        BatteryComponent::Case => PodsBattery { case: e.status, left: b.left, right: b.right },
        BatteryComponent::Left => PodsBattery { case: b.case, left: e.status, right: b.right },
        BatteryComponent::Right => PodsBattery { case: b.case, left: b.left, right: e.status },
    }
}

/// A battery report's entries applied in order.
pub open spec fn spec_apply_entries(b: PodsBattery, es: Seq<Battery>) -> PodsBattery
    decreases es.len(),
{
    if es.len() == 0 {
        b
    } else {
        spec_apply_entries(spec_apply_entry(b, es[0]), es.drop_first())
    }
}

/// Applying one more entry after a list applies the list first.
pub proof fn lemma_apply_entries_push(b: PodsBattery, es: Seq<Battery>, e: Battery)
    ensures
        spec_apply_entries(b, es.push(e)) == spec_apply_entry(spec_apply_entries(b, es), e),
    decreases es.len(),
{
    let s1 = es.push(e);
    if es.len() == 0 {
        assert(s1[0] == e);
        assert(s1.drop_first() =~= Seq::<Battery>::empty());
        assert(spec_apply_entries(b, s1) == spec_apply_entries(
            spec_apply_entry(b, e),
            Seq::<Battery>::empty(),
        ));
        assert(spec_apply_entries(spec_apply_entry(b, e), Seq::<Battery>::empty())
            == spec_apply_entry(b, e));
    } else {
        assert(s1[0] == es[0]);
        assert(s1.drop_first() =~= es.drop_first().push(e));
        assert(spec_apply_entries(b, s1) == spec_apply_entries(
            spec_apply_entry(b, es[0]),
            es.drop_first().push(e),
        ));
        lemma_apply_entries_push(spec_apply_entry(b, es[0]), es.drop_first(), e);
        assert(spec_apply_entries(b, es) == spec_apply_entries(
            spec_apply_entry(b, es[0]),
            es.drop_first(),
        ));
    }
}

/// A component that no entry of the list names keeps its prior reading.
pub proof fn lemma_unnamed_component_unchanged(b: PodsBattery, es: Seq<Battery>, c: BatteryComponent)
    requires
        forall|i: int| 0 <= i < es.len() ==> (#[trigger] es[i]).component != c,
    ensures
        component_value(spec_apply_entries(b, es), c) == component_value(b, c),
    decreases es.len(),
{
    if es.len() > 0 {
        assert(es[0].component != c);
        lemma_unnamed_component_unchanged(spec_apply_entry(b, es[0]), es.drop_first(), c);
    }
}

/// A battery report that names only the left component leaves the case and
/// right readings at their prior values.
pub proof fn lemma_left_only_report_preserves_case_and_right(b: PodsBattery, es: Seq<Battery>)
    requires
        forall|i: int| 0 <= i < es.len() ==> (#[trigger] es[i]).component is Left,
    ensures
        spec_apply_entries(b, es).case == b.case,
        spec_apply_entries(b, es).right == b.right,
{
    lemma_unnamed_component_unchanged(b, es, BatteryComponent::Case);
    lemma_unnamed_component_unchanged(b, es, BatteryComponent::Right);
}

/// What one decoded event turns the status into: a battery report rewrites
/// only the components it names in the (lazily created) battery record, a
/// noise-control report replaces the noise field, an ear-detection report
/// replaces both ear readings together.
pub open spec fn spec_apply(s: PodsStatus, p: SpecPacket) -> PodsStatus {
    match p {
        SpecPacket::Battery(es) => {
            let base = match s.battery {
                Some(b) => b,
                None => spec_unknown_battery(),
            };
            PodsStatus { battery: Some(spec_apply_entries(base, es)), noise: s.noise, ear: s.ear }
        },
        SpecPacket::NoiseControl(n) => PodsStatus { battery: s.battery, noise: Some(n), ear: s.ear },
        SpecPacket::EarDetection { primary, secondary } => PodsStatus {
            battery: s.battery,
            noise: s.noise,
            ear: Some(PodsInEar { primary, secondary }),
        },
    }
}

impl PodsStatus {
    /// Apply one decoded event; fields the event does not speak of are left
    /// untouched.
    pub fn apply(&mut self, packet: &crate::packet::ParsedPacket)
        ensures
            *final(self) == spec_apply(*old(self), packet@),
    {
        match packet {
            crate::packet::ParsedPacket::Battery(entries) => {
                let mut b = match self.battery {
                    Some(b) => b,
                    None => PodsBattery {
                        case: BatteryStatus::Unknown,
                        left: BatteryStatus::Unknown,
                        right: BatteryStatus::Unknown,
                    },
                };
                let ghost base = b;
                let mut i: usize = 0;
                while i < entries.len()
                    invariant
                        i <= entries.len(),
                        b == spec_apply_entries(base, entries@.take(i as int)),
                    decreases entries.len() - i,
                {
                    let e = entries[i];
                    proof {
                        assert(entries@.take(i + 1 as int) =~= entries@.take(i as int).push(
                            entries@[i as int],
                        ));
                        lemma_apply_entries_push(base, entries@.take(i as int), entries@[i as int]);
                    }
                    match e.component {
                        BatteryComponent::Case => {
                            b.case = e.status;
                        },
                        BatteryComponent::Left => {
                            b.left = e.status;
                        },
                        BatteryComponent::Right => {
                            b.right = e.status;
                        },
                    }
                    i = i + 1;
                }
                proof {
                    assert(entries@.take(entries@.len() as int) =~= entries@);
                }
                self.battery = Some(b);
            },
            crate::packet::ParsedPacket::NoiseControl(n) => {
                self.noise = Some(*n);
            },
            crate::packet::ParsedPacket::EarDetection { primary, secondary } => {
                self.ear = Some(PodsInEar { primary: *primary, secondary: *secondary });
            },
        }
    }
}

/// What observing a freshly written status does to the "last notified" value
/// and whether the waiters are woken: nothing when the value is the one last
/// notified, one notification otherwise.
pub open spec fn spec_observe(last: Option<PodsStatus>, s: PodsStatus) -> (Option<PodsStatus>, bool) {
    if last == Some(s) {
        (last, false)
    } else {
        (Some(s), true)
    }
}

/// Remembers the last status value that consumers were notified of, so that
/// rapid identical writes coalesce into a single wake.
pub struct ChangeTracker {
    pub last: Option<PodsStatus>,
}

impl ChangeTracker {
    /// A fresh tracker: nothing notified yet, so the first write always
    /// notifies.
    pub fn new() -> (r: Self)
        ensures
            r.last == Option::<PodsStatus>::None,
    {
        ChangeTracker { last: None }
    }

    /// Record a freshly written status; the result says whether the waiters
    /// must be woken for it.
    pub fn observe(&mut self, s: &PodsStatus) -> (notify: bool)
        ensures
            (final(self).last, notify) == spec_observe(old(self).last, *s),
    {
        let same = match &self.last {
            Some(prev) => *prev == *s,
            None => false,
        };
        if same {
            false
        } else {
            self.last = Some(*s);
            true
        }
    }
}

/// Two consecutive identical status writes trigger exactly one notification:
/// the first fires precisely when the value differs from the one last
/// notified, and the second never fires.
pub proof fn lemma_identical_writes_notify_once(last: Option<PodsStatus>, s: PodsStatus)
    ensures
        ({
            let (l1, n1) = spec_observe(last, s);
            let (l2, n2) = spec_observe(l1, s);
            &&& n1 == (last != Some(s))
            &&& !n2
            &&& l2 == l1
        }),
{
}

} // verus!
