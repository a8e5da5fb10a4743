//! The pin interface through which the host and the processor meet.
use vstd::prelude::*;

verus! {

/// Describes the current state of a bistate pin. The details
/// of "high" vs "low" are abstracted away here in favor of
/// "active" and "inactive", allowing the emulator and users
/// to avoid worrying about whether a given pin is active-high
/// or active-low.
#[derive(Copy, Clone, Debug, PartialEq, Eq, Structural)]
pub enum PinBistate {
    Active,
    Inactive,
}

/// Describes the current state of a tristate pin: driven active,
/// driven inactive, or floating (`Other`).
#[derive(Copy, Clone, Debug, PartialEq, Eq, Structural)]
pub enum PinTristate {
    Active,
    Inactive,
    Other,
}

/// Data type that describes the current state of the
/// input signals. The clock pin is omitted since it is
/// replaced by the `Emulator::on_clock` method instead.
#[derive(Copy, Clone, Debug)]
pub struct InputPins {
    pub busreq: PinBistate,
    pub int: PinBistate,
    pub nmi: PinBistate,
    pub reset: PinBistate,
    pub wait: PinBistate,
}

/// Data type that describes the current state of the
/// output pins.
#[derive(Copy, Clone, Debug)]
pub struct OutputPins {
    pub address_bus: u16,
    pub busack: PinBistate,
    pub halt: PinBistate,
    pub iorq: PinTristate,
    pub m1: PinBistate,
    pub mreq: PinTristate,
    pub read: PinTristate,
    pub rfsh: PinBistate,
    pub wr: PinBistate,
}

/// Data type that describes the current state of the
/// input/output pins.
#[derive(Copy, Clone, Debug)]
pub struct InputOutputPins {
    pub data_bus: u8,
}

/// A bistate pin driven active when `b` holds.
pub open spec fn bi(b: bool) -> PinBistate {
    if b {
        PinBistate::Active
    } else {
        PinBistate::Inactive
    }
}

/// A tristate pin driven active when `b` holds.
pub open spec fn tri(b: bool) -> PinTristate {
    if b {
        PinTristate::Active
    } else {
        PinTristate::Inactive
    }
}

pub fn bistate(b: bool) -> (p: PinBistate)
    ensures
        p == bi(b),
{
    if b {
        PinBistate::Active
    } else {
        PinBistate::Inactive
    }
}

pub fn tristate(b: bool) -> (p: PinTristate)
    ensures
        p == tri(b),
{
    if b {
        PinTristate::Active
    } else {
        PinTristate::Inactive
    }
}

impl PinBistate {
    pub fn is_active(&self) -> (r: bool)
        ensures
            r == (*self == PinBistate::Active),
    {
        match self {
            PinBistate::Active => true,
            PinBistate::Inactive => false,
        }
    }
}

impl OutputPins {
    /// Output pins with every control line inactive and address 0.
    pub fn idle() -> (o: OutputPins)
        ensures
            o.address_bus == 0,
            o.busack == PinBistate::Inactive,
            o.halt == PinBistate::Inactive,
            o.m1 == PinBistate::Inactive,
            o.rfsh == PinBistate::Inactive,
            o.wr == PinBistate::Inactive,
            o.iorq == PinTristate::Inactive,
            o.mreq == PinTristate::Inactive,
            o.read == PinTristate::Inactive,
    {
        OutputPins {
            address_bus: 0,
            busack: PinBistate::Inactive,
            halt: PinBistate::Inactive,
            iorq: PinTristate::Inactive,
            m1: PinBistate::Inactive,
            mreq: PinTristate::Inactive,
            read: PinTristate::Inactive,
            rfsh: PinBistate::Inactive,
            wr: PinBistate::Inactive,
        }
    }
}

} // verus!
