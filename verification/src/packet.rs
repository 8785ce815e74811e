//! The binary status protocol: a pure decoder from a raw read buffer to a
//! typed status event. Every accessory frame starts with the fixed header
//! `04 00 04 00`; anything else is not ours and is ignored. A recognized
//! frame that is cut short, or that carries a byte outside its enumeration,
//! is a decode error: the stream is assumed desynchronized.

use vstd::prelude::*;

verus! {

/// Which part of the accessory a battery reading belongs to.
#[derive(Debug, Clone, Copy, PartialEq, Eq, Structural)]
pub enum BatteryComponent {
    Case,
    Left,
    Right,
}

/// One battery state: the two powered variants carry a 0-255 level byte.
#[derive(Debug, Clone, Copy, PartialEq, Eq, Structural)]
pub enum BatteryStatus {
    Unknown,
    Disconnected,
    Charging(u8),
    Discharging(u8),
}

impl BatteryStatus {
    /// The level is meaningful only while charging or discharging.
    pub open spec fn spec_as_percent(self) -> Option<u8> {
        match self {
            BatteryStatus::Charging(x) => Some(x),
            BatteryStatus::Discharging(x) => Some(x),
            BatteryStatus::Unknown => None,
            BatteryStatus::Disconnected => None,
        }
    }

    pub fn as_percent(&self) -> (r: Option<u8>)
        ensures
            r == self.spec_as_percent(),
    {
        match self {
            BatteryStatus::Charging(x) => Some(*x),
            BatteryStatus::Discharging(x) => Some(*x),
            BatteryStatus::Unknown => None,
            BatteryStatus::Disconnected => None,
        }
    }
}

/// One entry of a battery report frame.
#[derive(Debug, Clone, Copy, PartialEq, Eq, Structural)]
pub struct Battery {
    pub component: BatteryComponent,
    pub status: BatteryStatus,
}

/// The accessory's noise-control mode.
#[derive(Debug, Clone, Copy, PartialEq, Eq, Structural)]
pub enum NoiseControlStatus {
    Off,
    NoiseCancellation,
    Transparency,
    AdaptiveTransparency,
}

/// Where one earbud currently is.
#[derive(Debug, Clone, Copy, PartialEq, Eq, Structural)]
pub enum EarDetectionStatus {
    InEar,
    OutOfEar,
    InCase,
}

/// A decoded status event.
#[derive(Debug, Clone)]
pub enum ParsedPacket {
    Battery(Vec<Battery>),
    NoiseControl(NoiseControlStatus),
    EarDetection { primary: EarDetectionStatus, secondary: EarDetectionStatus },
}

/// The mathematical value of a decoded event: as `ParsedPacket`, with the
/// battery entries abstracted to a sequence.
pub enum SpecPacket {
    Battery(Seq<Battery>),
    NoiseControl(NoiseControlStatus),
    EarDetection { primary: EarDetectionStatus, secondary: EarDetectionStatus },
}

impl View for ParsedPacket {
    type V = SpecPacket;

    open spec fn view(&self) -> SpecPacket {
        match self {
            ParsedPacket::Battery(entries) => SpecPacket::Battery(entries@),
            ParsedPacket::NoiseControl(n) => SpecPacket::NoiseControl(*n),
            ParsedPacket::EarDetection { primary, secondary } => SpecPacket::EarDetection {
                primary: *primary,
                secondary: *secondary,
            },
        }
    }
}

/// Why a recognized frame was rejected.
#[derive(Debug, Clone, Copy, PartialEq, Eq, Structural)]
pub enum DecodeError {
    /// Fewer bytes remain than the current field requires.
    TooShort,
    /// A battery entry's component tag is not case, left or right.
    InvalidComponent,
    /// A battery entry's spacer byte is not `0x01`.
    InvalidSpacer,
    /// A battery entry's status flag byte is outside its enumeration.
    InvalidBatteryStatus,
    /// A noise-control payload byte is outside its enumeration.
    InvalidNoiseControl,
    /// An ear-detection payload byte is outside its enumeration.
    InvalidEarDetection,
}

/// The component tag byte of a battery entry.
pub open spec fn spec_decode_component(b: u8) -> Result<BatteryComponent, DecodeError> {
    if b == 0x08 {
        Ok(BatteryComponent::Case)
    } else if b == 0x04 {
        Ok(BatteryComponent::Left)
    } else if b == 0x02 {
        Ok(BatteryComponent::Right)
    } else {
        Err(DecodeError::InvalidComponent)
    }
}

/// The two status bytes of a battery entry: a level and a flag; the level is
/// ignored unless the flag says charging or discharging.
pub open spec fn spec_decode_battery_status(level: u8, flag: u8) -> Result<
    BatteryStatus,
    DecodeError,
> {
    if flag == 0x00 {
        Ok(BatteryStatus::Unknown)
    } else if flag == 0x01 {
        Ok(BatteryStatus::Charging(level))
    } else if flag == 0x02 {
        Ok(BatteryStatus::Discharging(level))
    } else if flag == 0x04 {
        Ok(BatteryStatus::Disconnected)
    } else {
        Err(DecodeError::InvalidBatteryStatus)
    }
}

/// The payload byte of a noise-control report.
pub open spec fn spec_decode_noise_control(b: u8) -> Result<NoiseControlStatus, DecodeError> {
    if b == 0x01 {
        Ok(NoiseControlStatus::Off)
    } else if b == 0x02 {
        Ok(NoiseControlStatus::NoiseCancellation)
    } else if b == 0x03 {
        Ok(NoiseControlStatus::Transparency)
    } else if b == 0x04 {
        Ok(NoiseControlStatus::AdaptiveTransparency)
    } else {
        Err(DecodeError::InvalidNoiseControl)
    }
}

/// A payload byte of an ear-detection report.
pub open spec fn spec_decode_ear_detection(b: u8) -> Result<EarDetectionStatus, DecodeError> {
    if b == 0x00 {
        Ok(EarDetectionStatus::InEar)
    } else if b == 0x01 {
        Ok(EarDetectionStatus::OutOfEar)
    } else if b == 0x02 {
        Ok(EarDetectionStatus::InCase)
    } else {
        Err(DecodeError::InvalidEarDetection)
    }
}

/// One five-byte battery entry at `off`: component tag, a spacer that must be
/// `0x01`, level and flag, and a trailing spacer that must be `0x01`.
pub open spec fn spec_decode_entry(d: Seq<u8>, off: int) -> Result<Battery, DecodeError> {
    if d.len() - off < 5 {
        Err(DecodeError::TooShort)
    } else {
        match spec_decode_component(d[off]) {
            Err(e) => Err(e),
            Ok(component) => if d[off + 1] != 0x01 {
                Err(DecodeError::InvalidSpacer)
            } else {
                match spec_decode_battery_status(d[off + 2], d[off + 3]) {
                    Err(e) => Err(e),
                    Ok(status) => if d[off + 4] != 0x01 {
                        Err(DecodeError::InvalidSpacer)
                    } else {
                        Ok(Battery { component, status })
                    },
                }
            },
        }
    }
}

/// The `n` five-byte battery entries starting at `off`, in order; the first
/// faulty entry decides the error.
pub open spec fn spec_decode_entries(d: Seq<u8>, off: int, n: nat) -> Result<
    Seq<Battery>,
    DecodeError,
>
    decreases n,
{
    if n == 0 {
        Ok(Seq::empty())
    } else {
        match spec_decode_entry(d, off) {
            Err(e) => Err(e),
            Ok(b) => match spec_decode_entries(d, off + 5, (n - 1) as nat) {
                Err(e) => Err(e),
                Ok(rest) => Ok(rest.insert(0, b)),
            },
        }
    }
}

/// What a read buffer decodes to: no event for a foreign header, an unknown
/// frame type or an unhandled sub-type; an error for a recognized frame that
/// is truncated or carries a byte outside its enumeration.
pub open spec fn spec_decode(d: Seq<u8>) -> Result<Option<SpecPacket>, DecodeError> {
    if d.len() < 4 {
        Err(DecodeError::TooShort)
    } else if !(d[0] == 0x04 && d[1] == 0x00 && d[2] == 0x04 && d[3] == 0x00) {
        Ok(None)
    } else if d.len() < 6 {
        Err(DecodeError::TooShort)
    } else if d[4] == 0x04 && d[5] == 0x00 {
        if d.len() < 7 {
            Err(DecodeError::TooShort)
        } else {
            match spec_decode_entries(d, 7, d[6] as nat) {
                Err(e) => Err(e),
                Ok(entries) => Ok(Some(SpecPacket::Battery(entries))),
            }
        }
    } else if d[4] == 0x09 && d[5] == 0x00 {
        if d.len() < 7 {
            Err(DecodeError::TooShort)
        } else if d[6] != 0x0D {
            Ok(None)
        } else if d.len() < 8 {
            Err(DecodeError::TooShort)
        } else {
            match spec_decode_noise_control(d[7]) {
                Err(e) => Err(e),
                Ok(n) => Ok(Some(SpecPacket::NoiseControl(n))),
            }
        }
    } else if d[4] == 0x06 && d[5] == 0x00 {
        if d.len() < 7 {
            Err(DecodeError::TooShort)
        } else {
            match spec_decode_ear_detection(d[6]) {
                Err(e) => Err(e),
                Ok(primary) => if d.len() < 8 {
                    Err(DecodeError::TooShort)
                } else {
                    match spec_decode_ear_detection(d[7]) {
                        Err(e) => Err(e),
                        Ok(secondary) => Ok(Some(SpecPacket::EarDetection { primary, secondary })),
                    }
                },
            }
        }
    } else {
        Ok(None)
    }
}

/// A buffer whose first four bytes differ from the fixed header `04 00 04 00`
/// is another protocol's traffic: it decodes to no event, never to an error,
/// whatever follows.
pub proof fn lemma_foreign_header_ignored(d: Seq<u8>)
    requires
        d.len() >= 4,
        !(d[0] == 0x04 && d[1] == 0x00 && d[2] == 0x04 && d[3] == 0x00),
    ensures
        spec_decode(d) == Ok::<Option<SpecPacket>, DecodeError>(None),
{
}

/// A battery entry with a spacer byte that is not `0x01` never decodes to a
/// value: whichever check fires first, the entry is rejected.
pub proof fn lemma_bad_spacer_entry_rejected(d: Seq<u8>, off: int)
    requires
        d[off + 1] != 0x01 || d[off + 4] != 0x01,
    ensures
        spec_decode_entry(d, off) is Err,
{
}

/// If any one of the `n` entries is faulty, the whole entry list is rejected.
pub proof fn lemma_faulty_entry_rejects_list(d: Seq<u8>, off: int, n: nat, j: int)
    requires
        0 <= j < n,
        spec_decode_entry(d, off + 5 * j) is Err,
    ensures
        spec_decode_entries(d, off, n) is Err,
    decreases n,
{
    if spec_decode_entry(d, off) is Err {
    } else {
        assert(j != 0);
        lemma_faulty_entry_rejects_list(d, off + 5, (n - 1) as nat, j - 1);
    }
}

/// A battery frame with a bad spacer in one of its counted entries is a
/// decode error, wherever that entry stands in the list.
pub proof fn lemma_bad_spacer_frame_rejected(d: Seq<u8>, j: int)
    requires
        d.len() >= 7,
        d[0] == 0x04 && d[1] == 0x00 && d[2] == 0x04 && d[3] == 0x00,
        d[4] == 0x04 && d[5] == 0x00,
        0 <= j < d[6],
        d[7 + 5 * j + 1] != 0x01 || d[7 + 5 * j + 4] != 0x01,
    ensures
        spec_decode(d) is Err,
{
    lemma_bad_spacer_entry_rejected(d, 7 + 5 * j);
    lemma_faulty_entry_rejects_list(d, 7, d[6] as nat, j);
}

/// A battery frame whose buffer is shorter than the entries its count byte
/// claims is a decode error, never a silent "no event".
pub proof fn lemma_truncated_entries_rejected(d: Seq<u8>, off: int, n: nat)
    requires
        0 <= off,
        n >= 1,
        d.len() < off + 5 * n,
    ensures
        spec_decode_entries(d, off, n) is Err,
    decreases n,
{
    if spec_decode_entry(d, off) is Err {
    } else {
        lemma_truncated_entries_rejected(d, off + 5, (n - 1) as nat);
    }
}

/// A buffer with the fixed header that holds fewer bytes than the frame it
/// announces requires: the type tag itself, a battery count or its entries,
/// a noise-control payload, or one of the two ear readings.
pub open spec fn claims_more_than_it_holds(d: Seq<u8>) -> bool {
    if d.len() < 6 {
        true
    } else if d[4] == 0x04 && d[5] == 0x00 {
        d.len() < 7 || d.len() < 7 + 5 * (d[6] as int)
    } else if d[4] == 0x09 && d[5] == 0x00 {
        d.len() < 7 || (d[6] == 0x0D && d.len() < 8)
    } else if d[4] == 0x06 && d[5] == 0x00 {
        d.len() < 8
    } else {
        false
    }
}

/// A buffer shorter than a field it claims to contain is a decode error,
/// never a silent "no event": either it cannot hold the header at all, or it
/// carries the fixed header and announces more than it holds.
pub proof fn lemma_truncation_is_an_error(d: Seq<u8>)
    requires
        d.len() < 4 || (d[0] == 0x04 && d[1] == 0x00 && d[2] == 0x04 && d[3] == 0x00
            && claims_more_than_it_holds(d)),
    ensures
        spec_decode(d) is Err,
{
    if d.len() >= 4 && d.len() >= 7 && d[4] == 0x04 && d[5] == 0x00 {
        lemma_truncated_entries_rejected(d, 7, d[6] as nat);
    }
}

impl BatteryComponent {
    /// Decode a component tag byte.
    pub fn decode(b: u8) -> (r: Result<BatteryComponent, DecodeError>)
        ensures
            r == spec_decode_component(b),
    {
        if b == 0x08 {
            Ok(BatteryComponent::Case)
        } else if b == 0x04 {
            Ok(BatteryComponent::Left)
        } else if b == 0x02 {
            Ok(BatteryComponent::Right)
        } else {
            Err(DecodeError::InvalidComponent)
        }
    }
}

impl BatteryStatus {
    /// Decode the level and flag bytes of a battery entry.
    pub fn decode(level: u8, flag: u8) -> (r: Result<BatteryStatus, DecodeError>)
        ensures
            r == spec_decode_battery_status(level, flag),
    {
        if flag == 0x00 {
            Ok(BatteryStatus::Unknown)
        } else if flag == 0x01 {
            Ok(BatteryStatus::Charging(level))
        } else if flag == 0x02 {
            Ok(BatteryStatus::Discharging(level))
        } else if flag == 0x04 {
            Ok(BatteryStatus::Disconnected)
        } else {
            Err(DecodeError::InvalidBatteryStatus)
        }
    }
}

impl NoiseControlStatus {
    /// Decode the payload byte of a noise-control report.
    pub fn decode(b: u8) -> (r: Result<NoiseControlStatus, DecodeError>)
        ensures
            r == spec_decode_noise_control(b),
    {
        if b == 0x01 {
            Ok(NoiseControlStatus::Off)
        } else if b == 0x02 {
            Ok(NoiseControlStatus::NoiseCancellation)
        } else if b == 0x03 {
            Ok(NoiseControlStatus::Transparency)
        } else if b == 0x04 {
            Ok(NoiseControlStatus::AdaptiveTransparency)
        } else {
            Err(DecodeError::InvalidNoiseControl)
        }
    }
}

impl EarDetectionStatus {
    /// Decode a payload byte of an ear-detection report.
    pub fn decode(b: u8) -> (r: Result<EarDetectionStatus, DecodeError>)
        ensures
            r == spec_decode_ear_detection(b),
    {
        if b == 0x00 {
            Ok(EarDetectionStatus::InEar)
        } else if b == 0x01 {
            Ok(EarDetectionStatus::OutOfEar)
        } else if b == 0x02 {
            Ok(EarDetectionStatus::InCase)
        } else {
            Err(DecodeError::InvalidEarDetection)
        }
    }
}

impl Battery {
    /// Decode one five-byte battery entry at `off`.
    pub fn decode(d: &[u8], off: usize) -> (r: Result<Battery, DecodeError>)
        requires
            off <= d@.len(),
        ensures
            r == spec_decode_entry(d@, off as int),
    {
        if d.len() - off < 5 {
            return Err(DecodeError::TooShort);
        }
        let component = match BatteryComponent::decode(d[off]) {
            Ok(c) => c,
            Err(e) => {
                return Err(e);
            },
        };
        if d[off + 1] != 0x01 {
            return Err(DecodeError::InvalidSpacer);
        }
        let status = match BatteryStatus::decode(d[off + 2], d[off + 3]) {
            Ok(s) => s,
            Err(e) => {
                return Err(e);
            },
        };
        if d[off + 4] != 0x01 {
            return Err(DecodeError::InvalidSpacer);
        }
        Ok(Battery { component, status })
    }
}

/// The `n` battery entries starting at `off`, in order.
fn decode_entries(d: &[u8], off: usize, n: u8) -> (r: Result<Vec<Battery>, DecodeError>)
    requires
        off <= d@.len(),
    ensures
        match r {
            Ok(v) => spec_decode_entries(d@, off as int, n as nat) == Ok::<
                Seq<Battery>,
                DecodeError,
            >(v@),
            Err(e) => spec_decode_entries(d@, off as int, n as nat) == Err::<
                Seq<Battery>,
                DecodeError,
            >(e),
        },
    decreases n,
{
    if n == 0 {
        let v: Vec<Battery> = Vec::new();
        proof {
            assert(v@ =~= Seq::<Battery>::empty());
        }
        Ok(v)
    } else {
        match Battery::decode(d, off) {
            Err(e) => Err(e),
            Ok(b) => {
                let dl: usize = d.len();
                proof {
                    assert(spec_decode_entry(d@, off as int) is Ok);
                    assert(off + 5 <= dl);
                }
                match decode_entries(d, off + 5, n - 1) {
                    Err(e) => Err(e),
                    Ok(mut rest) => {
                        rest.insert(0, b);
                        Ok(rest)
                    },
                }
            },
        }
    }
}

impl ParsedPacket {
    /// Decode one read buffer into at most one status event. A buffer whose
    /// first four bytes are not the fixed header is not ours and yields no
    /// event; a recognized frame that is truncated or malformed is an error.
    pub fn decode(data: &[u8]) -> (r: Result<Option<ParsedPacket>, DecodeError>)
        ensures
            match r {
                Ok(Some(p)) => spec_decode(data@) == Ok::<Option<SpecPacket>, DecodeError>(
                    Some(p@),
                ),
                Ok(None) => spec_decode(data@) == Ok::<Option<SpecPacket>, DecodeError>(None),
                Err(e) => spec_decode(data@) == Err::<Option<SpecPacket>, DecodeError>(e),
            },
    {
        if data.len() < 4 {
            return Err(DecodeError::TooShort);
        }
        if !(data[0] == 0x04 && data[1] == 0x00 && data[2] == 0x04 && data[3] == 0x00) {
            return Ok(None);
        }
        if data.len() < 6 {
            return Err(DecodeError::TooShort);
        }
        if data[4] == 0x04 && data[5] == 0x00 {
            if data.len() < 7 {
                return Err(DecodeError::TooShort);
            }
            match decode_entries(data, 7, data[6]) {
                Err(e) => Err(e),
                Ok(entries) => Ok(Some(ParsedPacket::Battery(entries))),
            }
        } else if data[4] == 0x09 && data[5] == 0x00 {
            if data.len() < 7 {
                return Err(DecodeError::TooShort);
            }
            if data[6] != 0x0D {
                return Ok(None);
            }
            if data.len() < 8 {
                return Err(DecodeError::TooShort);
            }
            match NoiseControlStatus::decode(data[7]) {
                Err(e) => Err(e),
                Ok(n) => Ok(Some(ParsedPacket::NoiseControl(n))),
            }
        } else if data[4] == 0x06 && data[5] == 0x00 {
            if data.len() < 7 {
                return Err(DecodeError::TooShort);
            }
            match EarDetectionStatus::decode(data[6]) {
                Err(e) => Err(e),
                Ok(primary) => {
                    if data.len() < 8 {
                        return Err(DecodeError::TooShort);
                    }
                    match EarDetectionStatus::decode(data[7]) {
                        Err(e) => Err(e),
                        Ok(secondary) => Ok(
                            Some(ParsedPacket::EarDetection { primary, secondary }),
                        ),
                    }
                },
            }
        } else {
            Ok(None)
        }
    }
}

} // verus!
