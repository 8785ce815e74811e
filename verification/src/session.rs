//! One session over an open stream to the device: the three fixed frames the
//! handshake writes, the classification of read failures, and the step that
//! turns one read buffer into a store update and a notification decision.
//! The reads and writes themselves live outside the crate; the caller runs
//! every buffer that a successful read produced through [`handle_frame`].

use vstd::prelude::*;

use crate::packet::DecodeError;
use crate::packet::ParsedPacket;
use crate::status::ChangeTracker;
use crate::status::PodsStatus;
use crate::status::spec_apply;
use crate::status::spec_observe;

verus! {

/// The stream-local service identifier the accessory's status channel
/// listens on.
pub const STATUS_PSM: u16 = 0x1001;

/// The 16-byte handshake frame, written first on every fresh connection.
pub fn handshake_frame() -> (r: Vec<u8>)
    ensures
        r@ == seq![
            0x00u8, 0x00, 0x04, 0x00, 0x01, 0x00, 0x02, 0x00, 0x00, 0x00, 0x00, 0x00, 0x00, 0x00,
            0x00, 0x00,
        ],
{
    let r: Vec<u8> = vec![
        0x00u8, 0x00, 0x04, 0x00, 0x01, 0x00, 0x02, 0x00, 0x00, 0x00, 0x00, 0x00, 0x00, 0x00,
        0x00, 0x00,
    ];
    proof {
        assert(r@ =~= seq![
            0x00u8, 0x00, 0x04, 0x00, 0x01, 0x00, 0x02, 0x00, 0x00, 0x00, 0x00, 0x00, 0x00, 0x00,
            0x00, 0x00,
        ]);
    }
    r
}

/// The 14-byte "enable features" frame, written second.
pub fn enable_features_frame() -> (r: Vec<u8>)
    ensures
        r@ == seq![
            0x04u8, 0x00, 0x04, 0x00, 0x4D, 0x00, 0xFF, 0x00, 0x00, 0x00, 0x00, 0x00, 0x00, 0x00,
        ],
{
    let r: Vec<u8> = vec![
        0x04u8, 0x00, 0x04, 0x00, 0x4D, 0x00, 0xFF, 0x00, 0x00, 0x00, 0x00, 0x00, 0x00, 0x00,
    ];
    proof {
        assert(r@ =~= seq![
            0x04u8, 0x00, 0x04, 0x00, 0x4D, 0x00, 0xFF, 0x00, 0x00, 0x00, 0x00, 0x00, 0x00, 0x00,
        ]);
    }
    r
}

/// The 10-byte "enable notifications" frame, written third.
pub fn enable_notifications_frame() -> (r: Vec<u8>)
    ensures
        r@ == seq![0x04u8, 0x00, 0x04, 0x00, 0x0F, 0x00, 0xFF, 0xFF, 0xFF, 0xFF],
{
    let r: Vec<u8> = vec![0x04u8, 0x00, 0x04, 0x00, 0x0F, 0x00, 0xFF, 0xFF, 0xFF, 0xFF];
    proof {
        assert(r@ =~= seq![0x04u8, 0x00, 0x04, 0x00, 0x0F, 0x00, 0xFF, 0xFF, 0xFF, 0xFF]);
    }
    r
}

/// Why a read from the stream failed, reduced to what the session policy
/// needs to know.
#[derive(Debug, Clone, Copy, PartialEq, Eq, Structural)]
pub enum ReadFailure {
    ConnectionReset,
    TimedOut,
    Other,
}

/// A reset or a timeout means the device went to sleep or dropped the link:
/// the session ends normally and the supervisor may reconnect. Anything else
/// is fatal to the session attempt.
pub fn read_failure_ends_session(f: ReadFailure) -> (r: bool)
    ensures
        r == (f is ConnectionReset || f is TimedOut),
{
    match f {
        ReadFailure::ConnectionReset => true,
        ReadFailure::TimedOut => true,
        ReadFailure::Other => false,
    }
}

/// One step of the read loop, applied to the bytes of one successful,
/// non-empty read: decode them, apply any event to the shared status, and
/// say whether the waiters must be woken. An unrecognized buffer changes
/// nothing; a malformed frame changes nothing and ends the session with the
/// decode error.
pub fn handle_frame(status: &mut PodsStatus, tracker: &mut ChangeTracker, data: &[u8]) -> (r:
    Result<bool, DecodeError>)
    ensures
        ({
            let d = crate::packet::spec_decode(data@);
            match d {
                Err(e) => {
                    &&& r == Err::<bool, DecodeError>(e)
                    &&& *final(status) == *old(status)
                    &&& final(tracker).last == old(tracker).last
                },
                Ok(None) => {
                    &&& r == Ok::<bool, DecodeError>(false)
                    &&& *final(status) == *old(status)
                    &&& final(tracker).last == old(tracker).last
                },
                Ok(Some(p)) => {
                    let applied = spec_apply(*old(status), p);
                    let (l, notify) = spec_observe(old(tracker).last, applied);
                    &&& *final(status) == applied
                    &&& final(tracker).last == l
                    &&& r == Ok::<bool, DecodeError>(notify)
                },
            }
        }),
{
    match ParsedPacket::decode(data) {
        Err(e) => Err(e),
        Ok(None) => Ok(false),
        Ok(Some(packet)) => {
            status.apply(&packet);
            let notify = tracker.observe(status);
            Ok(notify)
        },
    }
}

} // verus!
