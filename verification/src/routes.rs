//! The values that the network interface exchanges with its callers, and the
//! rule by which a status report is put together.

use crate::protocol::{Power, PowerStatus, Source};
use vstd::prelude::*;

verus! {

/// What a caller is told when an operation fails.
#[derive(Clone, Debug)]
pub struct ErrorResponse {
    pub message: String,
}

/// What a caller is told when an operation succeeds and has nothing to say.
#[derive(Clone, Copy, Debug, PartialEq, Eq, Structural)]
pub struct EmptyResponse {}

/// The power status of the device.
#[derive(Clone, Copy, Debug, PartialEq, Eq, Structural)]
pub struct PowerStatusResponse {
    status: PowerStatus,
}

/// The state of the device: its power status, the coarse power state that
/// follows from it, and its source while the device is on.
#[derive(Clone, Copy, Debug, PartialEq, Eq, Structural)]
pub struct GetStatusResponse {
    power_status: PowerStatus,
    power: Power,
    source: Option<Source>,
}

/// A request to switch the device on or off.
#[derive(Clone, Copy, Debug, PartialEq, Eq, Structural)]
pub struct PostPowerRequest {
    power: Power,
}

/// A request to select a source.
#[derive(Clone, Copy, Debug, PartialEq, Eq, Structural)]
pub struct PostSourceRequest {
    source: Source,
}

impl EmptyResponse {
    pub fn new() -> (response: Self)
        ensures
            response == (EmptyResponse {  }),
    {
        EmptyResponse {  }
    }
}

impl PowerStatusResponse {
    pub closed spec fn spec_status(self) -> PowerStatus {
        self.status
    }

    pub fn new(status: PowerStatus) -> (response: Self)
        ensures
            response.spec_status() == status,
    {
        PowerStatusResponse { status }
    }

    #[verifier::when_used_as_spec(spec_status)]
    pub fn status(self) -> (status: PowerStatus)
        ensures
            status == self.spec_status(),
    {
        self.status
    }
}

impl GetStatusResponse {
    #[verifier::type_invariant]
    spec fn consistent(self) -> bool {
        &&& self.power == self.power_status.power()
        &&& self.power == Power::Off ==> self.source is None
    }

    pub closed spec fn spec_power_status(self) -> PowerStatus {
        self.power_status
    }

    pub closed spec fn spec_power(self) -> Power {
        self.power
    }

    pub closed spec fn spec_source(self) -> Option<Source> {
        self.source
    }

    /// Whether the source belongs in the report of a device with this power
    /// status: it does while the device is on, and is not asked for while it
    /// is off.
    pub fn wants_source(power_status: PowerStatus) -> (wanted: bool)
        ensures
            wanted == (power_status.power() == Power::On),
    {
        let power: Power = Power::from(power_status);
        power == Power::On
    }

    /// The report of a device with the given power status. The coarse power
    /// state is derived from the power status and from nothing else. The
    /// source is reported while the device is on, and left out while it is
    /// off, whatever was handed in.
    pub fn new(power_status: PowerStatus, source: Option<Source>) -> (response: Self)
        ensures
            response.spec_power_status() == power_status,
            response.spec_power() == power_status.power(),
            response.spec_source() == if power_status.power() == Power::On {
                source
            } else {
                None
            },
    {
        let power: Power = Power::from(power_status);
        let source = if power == Power::On {
            source
        } else {
            None
        };
        GetStatusResponse { power_status, power, source }
    }

    #[verifier::when_used_as_spec(spec_power_status)]
    pub fn power_status(self) -> (status: PowerStatus)
        ensures
            status == self.spec_power_status(),
    {
        self.power_status
    }

    /// The coarse power state. It never drifts from the power status.
    #[verifier::when_used_as_spec(spec_power)]
    pub fn power(self) -> (power: Power)
        ensures
            power == self.spec_power(),
            power == self.spec_power_status().power(),
    {
        proof {
            use_type_invariant(self);
        }
        self.power
    }

    /// The source, reported only while the device is on.
    #[verifier::when_used_as_spec(spec_source)]
    pub fn source(self) -> (source: Option<Source>)
        ensures
            source == self.spec_source(),
            self.spec_power_status().power() == Power::Off ==> source is None,
    {
        proof {
            use_type_invariant(self);
        }
        self.source
    }
}

impl PostPowerRequest {
    pub closed spec fn spec_power(self) -> Power {
        self.power
    }

    pub fn new(power: Power) -> (request: Self)
        ensures
            request.spec_power() == power,
    {
        PostPowerRequest { power }
    }

    #[verifier::when_used_as_spec(spec_power)]
    pub fn power(self) -> (power: Power)
        ensures
            power == self.spec_power(),
    {
        self.power
    }
}

impl PostSourceRequest {
    pub closed spec fn spec_source(self) -> Source {
        self.source
    }

    pub fn new(source: Source) -> (request: Self)
        ensures
            request.spec_source() == source,
    {
        PostSourceRequest { source }
    }

    #[verifier::when_used_as_spec(spec_source)]
    pub fn source(self) -> (source: Source)
        ensures
            source == self.spec_source(),
    {
        self.source
    }
}

} // verus!
