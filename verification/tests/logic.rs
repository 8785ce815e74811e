use airpodsd::address::Address;
use airpodsd::blconn::L2CapAddr;
use airpodsd::blconn::SyscallFailed;
use airpodsd::blconn::checkerr;
use airpodsd::packet::BatteryStatus;
use airpodsd::packet::EarDetectionStatus;
use airpodsd::packet::NoiseControlStatus;
use airpodsd::packet::ParsedPacket;
use airpodsd::publish::BatteryTracker;
use airpodsd::publish::PublishAction;
use airpodsd::publish::calculate_percentage;
use airpodsd::publish::publish_action;
use airpodsd::session::STATUS_PSM;
use airpodsd::session::ReadFailure;
use airpodsd::session::enable_features_frame;
use airpodsd::session::enable_notifications_frame;
use airpodsd::session::handle_frame;
use airpodsd::session::handshake_frame;
use airpodsd::session::read_failure_ends_session;
use airpodsd::status::ChangeTracker;
use airpodsd::status::PodsBattery;
use airpodsd::status::PodsStatus;
use airpodsd::supervisor::AttemptOutcome;
use airpodsd::supervisor::PollAction;
use airpodsd::supervisor::Supervisor;

fn decode_and_apply(status: &mut PodsStatus, tracker: &mut ChangeTracker, data: &[u8]) -> bool {
    handle_frame(status, tracker, data).expect("frame must decode")
}

const CASE_CHARGING_50: [u8; 12] =
    [0x04, 0x00, 0x04, 0x00, 0x04, 0x00, 0x01, 0x08, 0x01, 0x50, 0x01, 0x01];
const LEFT_ONLY_70: [u8; 12] =
    [0x04, 0x00, 0x04, 0x00, 0x04, 0x00, 0x01, 0x04, 0x01, 0x70, 0x02, 0x01];

#[test]
fn battery_report_fills_only_named_component() {
    let mut status = PodsStatus::unknown();
    let mut tracker = ChangeTracker::new();
    assert!(decode_and_apply(&mut status, &mut tracker, &CASE_CHARGING_50));
    let battery = status.battery.expect("battery must be observed now");
    assert_eq!(battery.case, BatteryStatus::Charging(0x50));
    assert_eq!(battery.left, BatteryStatus::Unknown);
    assert_eq!(battery.right, BatteryStatus::Unknown);
    assert!(status.noise.is_none());
    assert!(status.ear.is_none());
}

#[test]
fn left_only_report_preserves_case_and_right() {
    let mut status = PodsStatus::unknown();
    let mut tracker = ChangeTracker::new();
    assert!(decode_and_apply(&mut status, &mut tracker, &CASE_CHARGING_50));
    assert!(decode_and_apply(&mut status, &mut tracker, &LEFT_ONLY_70));
    let battery = status.battery.unwrap();
    assert_eq!(battery.case, BatteryStatus::Charging(0x50));
    assert_eq!(battery.left, BatteryStatus::Discharging(0x70));
    assert_eq!(battery.right, BatteryStatus::Unknown);
}

#[test]
fn noise_report_replaces_noise_field_only() {
    let mut status = PodsStatus::unknown();
    let mut tracker = ChangeTracker::new();
    assert!(decode_and_apply(&mut status, &mut tracker, &CASE_CHARGING_50));
    let noise = [0x04, 0x00, 0x04, 0x00, 0x09, 0x00, 0x0D, 0x02];
    assert!(decode_and_apply(&mut status, &mut tracker, &noise));
    assert_eq!(status.noise, Some(NoiseControlStatus::NoiseCancellation));
    assert!(status.battery.is_some());
}

#[test]
fn ear_report_replaces_both_readings() {
    let mut status = PodsStatus::unknown();
    let mut tracker = ChangeTracker::new();
    let ear = [0x04, 0x00, 0x04, 0x00, 0x06, 0x00, 0x02, 0x02];
    assert!(decode_and_apply(&mut status, &mut tracker, &ear));
    let ear2 = [0x04, 0x00, 0x04, 0x00, 0x06, 0x00, 0x00, 0x01];
    assert!(decode_and_apply(&mut status, &mut tracker, &ear2));
    let readings = status.ear.unwrap();
    assert_eq!(readings.primary, EarDetectionStatus::InEar);
    assert_eq!(readings.secondary, EarDetectionStatus::OutOfEar);
}

#[test]
fn identical_writes_notify_once() {
    let mut status = PodsStatus::unknown();
    let mut tracker = ChangeTracker::new();
    // First decoded frame changes the status: one notification.
    assert!(decode_and_apply(&mut status, &mut tracker, &CASE_CHARGING_50));
    // The identical frame leaves the status unchanged: no second one.
    assert!(!decode_and_apply(&mut status, &mut tracker, &CASE_CHARGING_50));
    assert!(!decode_and_apply(&mut status, &mut tracker, &CASE_CHARGING_50));
}

#[test]
fn unrecognized_frame_neither_updates_nor_notifies() {
    let mut status = PodsStatus::unknown();
    let mut tracker = ChangeTracker::new();
    let foreign = [0x01, 0x02, 0x03, 0x04, 0x05, 0x06];
    assert!(!decode_and_apply(&mut status, &mut tracker, &foreign));
    assert!(status.battery.is_none() && status.noise.is_none() && status.ear.is_none());
}

#[test]
fn decode_error_propagates_from_handle_frame() {
    let mut status = PodsStatus::unknown();
    let mut tracker = ChangeTracker::new();
    let truncated = [0x04, 0x00, 0x04, 0x00, 0x04, 0x00];
    assert!(handle_frame(&mut status, &mut tracker, &truncated).is_err());
    assert!(status.battery.is_none());
}

#[test]
fn supervisor_resets_once_per_disconnect() {
    let mut supervisor = Supervisor::new();
    // Absent from the start: never a reset.
    assert_eq!(supervisor.poll(false), PollAction::StayIdle);
    assert_eq!(supervisor.poll(false), PollAction::StayIdle);
    // The device shows up: run sessions as long as it stays.
    assert_eq!(supervisor.poll(true), PollAction::RunSession);
    assert_eq!(supervisor.poll(true), PollAction::RunSession);
    // Gone again: exactly one reset-and-notify, then idle.
    assert_eq!(supervisor.poll(false), PollAction::ResetAndNotify);
    assert_eq!(supervisor.poll(false), PollAction::StayIdle);
}

#[test]
fn no_attempt_outcome_is_fatal() {
    let mut supervisor = Supervisor::new();
    assert_eq!(supervisor.poll(true), PollAction::RunSession);
    // Whatever happened to the attempt, the daemon keeps polling.
    assert!(!supervisor.attempt_done(AttemptOutcome::Ended));
    assert!(!supervisor.attempt_done(AttemptOutcome::ConnectFailed));
    assert!(!supervisor.attempt_done(AttemptOutcome::SessionFailed));
    // The attempt does not disturb the idle tracking: the next
    // "not connected" poll still resets exactly once.
    assert_eq!(supervisor.poll(false), PollAction::ResetAndNotify);
    assert_eq!(supervisor.poll(false), PollAction::StayIdle);
}

#[test]
fn reset_clears_every_field() {
    let mut status = PodsStatus::unknown();
    let mut tracker = ChangeTracker::new();
    assert!(decode_and_apply(&mut status, &mut tracker, &CASE_CHARGING_50));
    status.reset();
    assert!(status.battery.is_none());
    assert!(status.noise.is_none());
    assert!(status.ear.is_none());
    // The reset value differs from the last notified one: the wake fires.
    assert!(tracker.observe(&status));
}

#[test]
fn handshake_frames_are_the_wire_contract() {
    assert_eq!(
        handshake_frame(),
        vec![
            0x00, 0x00, 0x04, 0x00, 0x01, 0x00, 0x02, 0x00, 0x00, 0x00, 0x00, 0x00, 0x00, 0x00,
            0x00, 0x00,
        ]
    );
    assert_eq!(
        enable_features_frame(),
        vec![0x04, 0x00, 0x04, 0x00, 0x4D, 0x00, 0xFF, 0x00, 0x00, 0x00, 0x00, 0x00, 0x00, 0x00]
    );
    assert_eq!(
        enable_notifications_frame(),
        vec![0x04, 0x00, 0x04, 0x00, 0x0F, 0x00, 0xFF, 0xFF, 0xFF, 0xFF]
    );
    assert_eq!(STATUS_PSM, 0x1001);
}

#[test]
fn read_failure_classification() {
    assert!(read_failure_ends_session(ReadFailure::ConnectionReset));
    assert!(read_failure_ends_session(ReadFailure::TimedOut));
    assert!(!read_failure_ends_session(ReadFailure::Other));
}

#[test]
fn percentage_is_mean_of_left_and_right() {
    let battery = PodsBattery {
        case: BatteryStatus::Unknown,
        left: BatteryStatus::Charging(80),
        right: BatteryStatus::Discharging(71),
    };
    assert_eq!(calculate_percentage(battery), Some(75));
    let both_high = PodsBattery {
        case: BatteryStatus::Unknown,
        left: BatteryStatus::Charging(255),
        right: BatteryStatus::Charging(255),
    };
    assert_eq!(calculate_percentage(both_high), Some(255));
}

#[test]
fn percentage_needs_both_earbuds() {
    let battery = PodsBattery {
        case: BatteryStatus::Charging(100),
        left: BatteryStatus::Charging(80),
        right: BatteryStatus::Unknown,
    };
    assert_eq!(calculate_percentage(battery), None);
    let disconnected = PodsBattery {
        case: BatteryStatus::Unknown,
        left: BatteryStatus::Disconnected,
        right: BatteryStatus::Discharging(40),
    };
    assert_eq!(calculate_percentage(disconnected), None);
}

#[test]
fn publish_action_covers_all_four_cases() {
    assert_eq!(publish_action(true, Some(42)), PublishAction::Update(42));
    assert_eq!(publish_action(true, None), PublishAction::Remove);
    assert_eq!(publish_action(false, Some(42)), PublishAction::Add(42));
    assert_eq!(publish_action(false, None), PublishAction::Keep);
}

#[test]
fn battery_tracker_skips_repeats() {
    let mut tracker = BatteryTracker::new();
    let battery = Some(PodsBattery {
        case: BatteryStatus::Unknown,
        left: BatteryStatus::Charging(80),
        right: BatteryStatus::Charging(60),
    });
    assert!(tracker.observe(&None));
    assert!(!tracker.observe(&None));
    assert!(tracker.observe(&battery));
    assert!(!tracker.observe(&battery));
    assert!(tracker.observe(&None));
}

#[test]
fn checkerr_splits_on_sign() {
    assert_eq!(checkerr(0), Ok(0));
    assert_eq!(checkerr(7), Ok(7));
    assert_eq!(checkerr(-1), Err(SyscallFailed));
}

#[test]
fn l2cap_addr_carries_the_target() {
    let addr = Address::parse(b"11:22:33:44:55:66").unwrap();
    let target = L2CapAddr::new(addr, STATUS_PSM);
    assert_eq!(target.psm, 0x1001);
    assert_eq!(target.addr.into_inner(), [0x11, 0x22, 0x33, 0x44, 0x55, 0x66]);
}

#[test]
fn status_equality_sees_every_field() {
    let mut a = PodsStatus::unknown();
    let b = PodsStatus::unknown();
    assert!(a == b);
    a.noise = Some(NoiseControlStatus::Off);
    assert!(a != b);
}

#[test]
fn full_session_flow_decodes_and_coalesces() {
    let mut status = PodsStatus::unknown();
    let mut tracker = ChangeTracker::new();
    let frames: [&[u8]; 4] = [
        &CASE_CHARGING_50,
        &[0x04, 0x00, 0x04, 0x00, 0x09, 0x00, 0x0D, 0x04],
        &[0x04, 0x00, 0x04, 0x00, 0x06, 0x00, 0x01, 0x01],
        &[0x04, 0x00, 0x04, 0x00, 0x09, 0x00, 0x0D, 0x04],
    ];
    let mut notifications: u32 = 0;
    for frame in frames {
        if decode_and_apply(&mut status, &mut tracker, frame) {
            notifications += 1;
        }
    }
    // The repeated noise frame leaves the status unchanged: three wakes.
    assert_eq!(notifications, 3);
    assert_eq!(status.noise, Some(NoiseControlStatus::AdaptiveTransparency));
    match ParsedPacket::decode(&CASE_CHARGING_50) {
        Ok(Some(_)) => {}
        other => panic!("expected an event, got {:?}", other),
    }
}
