//! The device's value sets: power status, input source, and the coarse power
//! state derived from the power status.

use vstd::prelude::*;

verus! {

/// Power status as the device reports it.
#[derive(Clone, Copy, Debug, PartialEq, Eq, Structural)]
pub enum PowerStatus {
    StandbyModeNetworkOff,
    LampOn,
    Warmup,
    CoolDown,
    AbnormalityStandby,
    WirelessHdStandby,
}

/// Input source of the device.
#[derive(Clone, Copy, Debug, PartialEq, Eq, Structural)]
pub enum Source {
    Input1,
    Input2DSub15,
    Input2Rgb,
    Input3Hdmi,
    Input3DigitalRgb,
    Video,
    VideoRca,
    Hdmi2,
}

/// Coarse power state.
#[derive(Clone, Copy, Debug, PartialEq, Eq, Structural)]
pub enum Power {
    On,
    Off,
}

impl PowerStatus {
    /// The numeric code that stands for this status on the wire.
    pub open spec fn code(self) -> u8 {
        match self {
            PowerStatus::StandbyModeNetworkOff => 0x00,
            PowerStatus::LampOn => 0x01,
            PowerStatus::Warmup => 0x02,
            PowerStatus::CoolDown => 0x03,
            PowerStatus::AbnormalityStandby => 0x05,
            PowerStatus::WirelessHdStandby => 0x07,
        }
    }

    /// Whether `code` stands for some power status.
    pub open spec fn is_code(code: u8) -> bool {
        exists|status: PowerStatus| status.code() == code
    }

    /// The status that `code` stands for, if any.
    pub open spec fn of_code(code: u8) -> Option<PowerStatus> {
        if Self::is_code(code) {
            Some(choose|status: PowerStatus| status.code() == code)
        } else {
            None
        }
    }

    /// The coarse power state of this status: on while the lamp is lit or
    /// warming up, off otherwise.
    pub open spec fn power(self) -> Power {
        match self {
            PowerStatus::LampOn | PowerStatus::Warmup => Power::On,
            _ => Power::Off,
        }
    }

    /// No two statuses share a code, so `of_code` undoes `code`, and a code
    /// that `of_code` accepts is the code of the status it gives.
    pub proof fn lemma_code_table(status: PowerStatus, code: u8)
        ensures
            Self::of_code(status.code()) == Some(status),
            Self::of_code(code) == Some(status) <==> status.code() == code,
            Self::is_code(code) <==> (code == 0x00 || code == 0x01 || code == 0x02 || code == 0x03
                || code == 0x05 || code == 0x07),
    {
        assert(PowerStatus::StandbyModeNetworkOff.code() == 0x00);
        assert(PowerStatus::LampOn.code() == 0x01);
        assert(PowerStatus::Warmup.code() == 0x02);
        assert(PowerStatus::CoolDown.code() == 0x03);
        assert(PowerStatus::AbnormalityStandby.code() == 0x05);
        assert(PowerStatus::WirelessHdStandby.code() == 0x07);
        assert(Self::is_code(status.code()));
    }

    /// The numeric code of this status. Every status has one.
    pub fn to_u8(&self) -> (code: Option<u8>)
        ensures
            code == Some(self.code()),
    {
        Some(
            match self {
                PowerStatus::StandbyModeNetworkOff => 0x00,
                PowerStatus::LampOn => 0x01,
                PowerStatus::Warmup => 0x02,
                PowerStatus::CoolDown => 0x03,
                PowerStatus::AbnormalityStandby => 0x05,
                PowerStatus::WirelessHdStandby => 0x07,
            },
        )
    }

    /// The status with the given numeric code, or `None` for a code outside
    /// the table.
    pub fn from_u8(code: u8) -> (status: Option<PowerStatus>)
        ensures
            status == Self::of_code(code),
    {
        let status = match code {
            0x00 => Some(PowerStatus::StandbyModeNetworkOff),
            0x01 => Some(PowerStatus::LampOn),
            0x02 => Some(PowerStatus::Warmup),
            0x03 => Some(PowerStatus::CoolDown),
            0x05 => Some(PowerStatus::AbnormalityStandby),
            0x07 => Some(PowerStatus::WirelessHdStandby),
            _ => None,
        };
        proof {
            match status {
                Some(found) => Self::lemma_code_table(found, code),
                None => Self::lemma_code_table(PowerStatus::LampOn, code),
            }
        }
        status
    }
}

impl Source {
    /// The numeric code that stands for this source on the wire.
    pub open spec fn code(self) -> u8 {
        match self {
            Source::Input1 => 0x10,
            Source::Input2DSub15 => 0x20,
            Source::Input2Rgb => 0x21,
            Source::Input3Hdmi => 0x30,
            Source::Input3DigitalRgb => 0x31,
            Source::Video => 0x40,
            Source::VideoRca => 0x41,
            Source::Hdmi2 => 0xa0,
        }
    }

    /// Whether `code` stands for some source.
    pub open spec fn is_code(code: u8) -> bool {
        exists|source: Source| source.code() == code
    }

    /// The source that `code` stands for, if any.
    pub open spec fn of_code(code: u8) -> Option<Source> {
        if Self::is_code(code) {
            Some(choose|source: Source| source.code() == code)
        } else {
            None
        }
    }

    /// No two sources share a code, so `of_code` undoes `code`, and a code
    /// that `of_code` accepts is the code of the source it gives.
    pub proof fn lemma_code_table(source: Source, code: u8)
        ensures
            Self::of_code(source.code()) == Some(source),
            Self::of_code(code) == Some(source) <==> source.code() == code,
            Self::is_code(code) <==> (code == 0x10 || code == 0x20 || code == 0x21 || code == 0x30
                || code == 0x31 || code == 0x40 || code == 0x41 || code == 0xa0),
    {
        assert(Source::Input1.code() == 0x10);
        assert(Source::Input2DSub15.code() == 0x20);
        assert(Source::Input2Rgb.code() == 0x21);
        assert(Source::Input3Hdmi.code() == 0x30);
        assert(Source::Input3DigitalRgb.code() == 0x31);
        assert(Source::Video.code() == 0x40);
        assert(Source::VideoRca.code() == 0x41);
        assert(Source::Hdmi2.code() == 0xa0);
        assert(Self::is_code(source.code()));
    }

    /// The numeric code of this source. Every source has one.
    pub fn to_u8(&self) -> (code: Option<u8>)
        ensures
            code == Some(self.code()),
    {
        Some(
            match self {
                Source::Input1 => 0x10,
                Source::Input2DSub15 => 0x20,
                Source::Input2Rgb => 0x21,
                Source::Input3Hdmi => 0x30,
                Source::Input3DigitalRgb => 0x31,
                Source::Video => 0x40,
                Source::VideoRca => 0x41,
                Source::Hdmi2 => 0xa0,
            },
        )
    }

    /// The source with the given numeric code, or `None` for a code outside
    /// the table.
    pub fn from_u8(code: u8) -> (source: Option<Source>)
        ensures
            source == Self::of_code(code),
    {
        let source = match code {
            0x10 => Some(Source::Input1),
            0x20 => Some(Source::Input2DSub15),
            0x21 => Some(Source::Input2Rgb),
            0x30 => Some(Source::Input3Hdmi),
            0x31 => Some(Source::Input3DigitalRgb),
            0x40 => Some(Source::Video),
            0x41 => Some(Source::VideoRca),
            0xa0 => Some(Source::Hdmi2),
            _ => None,
        };
        proof {
            match source {
                Some(found) => Self::lemma_code_table(found, code),
                None => Self::lemma_code_table(Source::Input1, code),
            }
        }
        source
    }
}

impl From<PowerStatus> for Power {
    fn from(value: PowerStatus) -> (power: Power) {
        match value {
            PowerStatus::StandbyModeNetworkOff => Power::Off,
            PowerStatus::LampOn => Power::On,
            PowerStatus::Warmup => Power::On,
            PowerStatus::CoolDown => Power::Off,
            PowerStatus::AbnormalityStandby => Power::Off,
            PowerStatus::WirelessHdStandby => Power::Off,
        }
    }
}

impl vstd::std_specs::convert::FromSpecImpl<PowerStatus> for Power {
    open spec fn obeys_from_spec() -> bool {
        true
    }

    open spec fn from_spec(value: PowerStatus) -> Power {
        value.power()
    }
}

/// The code tables round-trip: each status and each source comes back from
/// its own code, and a code that a table accepts is the code of what it gives.
pub proof fn lemma_codes_round_trip()
    ensures
        forall|status: PowerStatus| #[trigger]
            PowerStatus::of_code(status.code()) == Some(status),
        forall|source: Source| #[trigger] Source::of_code(source.code()) == Some(source),
        forall|code: u8|
            (#[trigger] PowerStatus::of_code(code)) is Some ==> PowerStatus::of_code(
                code,
            )->0.code() == code,
        forall|code: u8|
            (#[trigger] Source::of_code(code)) is Some ==> Source::of_code(code)->0.code() == code,
{
    assert forall|status: PowerStatus| #[trigger]
        PowerStatus::of_code(status.code()) == Some(status) by {
        PowerStatus::lemma_code_table(status, 0);
    }
    assert forall|source: Source| #[trigger] Source::of_code(source.code()) == Some(source) by {
        Source::lemma_code_table(source, 0);
    }
    assert forall|code: u8| (#[trigger] PowerStatus::of_code(code)) is Some implies
        PowerStatus::of_code(code)->0.code() == code by {
        PowerStatus::lemma_code_table(PowerStatus::of_code(code)->0, code);
    }
    assert forall|code: u8| (#[trigger] Source::of_code(code)) is Some implies Source::of_code(
        code,
    )->0.code() == code by {
        Source::lemma_code_table(Source::of_code(code)->0, code);
    }
}

} // verus!
