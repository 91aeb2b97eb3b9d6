use vstd::prelude::*;

verus! {

/// Input channel of the HX711: `A` carries the load cell, `B` the auxiliary
/// input with its fixed gain of 32.
#[derive(Clone, Copy, Debug, PartialEq, Eq, Structural)]
pub enum Channel {
    A,
    B,
}

/// The closed set of channel/gain combinations the HX711 accepts.
///
/// Each value is bound to a fixed count of trailer clock pulses (25, 26 or
/// 27) that, appended after the 24 data-bit pulses of a conversion transfer,
/// selects the channel and gain of the *next* conversion. No other
/// combination exists; in particular channel `B` never pairs with gain 128
/// or 64, which this enumeration makes unrepresentable.
#[derive(Clone, Copy, Debug, PartialEq, Eq, Structural)]
pub enum Mode {
    /// Convert channel A with a gain factor of 128 (the power-on default).
    ChAGain128,
    /// Convert channel B with a gain factor of 32.
    ChBGain32,
    /// Convert channel A with a gain factor of 64.
    ChAGain64,
}

/// The byte written on the wire after the 24 data-pulse bytes. Clock pulses
/// are doubled on the wire (one logical pulse is the bit pair `10`), so this
/// byte holds the mode's extra trailer pulses followed by idle-low filler:
/// one pulse for channel A gain 128, two for channel B gain 32, three for
/// channel A gain 64.
pub open spec fn mode_byte(m: Mode) -> u8 {
    match m {
        Mode::ChAGain128 => 0x80,
        Mode::ChBGain32 => 0xA0,
        Mode::ChAGain64 => 0xA8,
    }
}

/// Total clock pulses of one conversion transfer under mode `m`: 24 data
/// pulses plus the trailer pulses that select `m` for the next conversion.
pub open spec fn mode_pulses(m: Mode) -> u8 {
    match m {
        Mode::ChAGain128 => 25,
        Mode::ChBGain32 => 26,
        Mode::ChAGain64 => 27,
    }
}

/// The channel a mode converts.
pub open spec fn mode_channel(m: Mode) -> Channel {
    match m {
        Mode::ChAGain128 => Channel::A,
        Mode::ChBGain32 => Channel::B,
        Mode::ChAGain64 => Channel::A,
    }
}

/// The gain factor a mode applies.
pub open spec fn mode_gain(m: Mode) -> u32 {
    match m {
        Mode::ChAGain128 => 128,
        Mode::ChBGain32 => 32,
        Mode::ChAGain64 => 64,
    }
}

/// The selection the chip holds after power-on and after a reset burst.
pub open spec fn default_mode() -> Mode {
    Mode::ChAGain128
}

impl Mode {
    /// The fixed trailer byte of this mode (see [`mode_byte`]).
    pub fn trailer_byte(self) -> (r: u8)
        ensures
            r == mode_byte(self),
    {
        match self {
            Mode::ChAGain128 => 0x80,
            Mode::ChBGain32 => 0xA0,
            Mode::ChAGain64 => 0xA8,
        }
    }

    /// Total pulse count of a conversion transfer under this mode.
    pub fn trailer_pulses(self) -> (r: u8)
        ensures
            r == mode_pulses(self),
    {
        match self {
            Mode::ChAGain128 => 25,
            Mode::ChBGain32 => 26,
            Mode::ChAGain64 => 27,
        }
    }

    /// The channel this mode converts.
    pub fn channel(self) -> (r: Channel)
        ensures
            r == mode_channel(self),
    {
        match self {
            Mode::ChAGain128 => Channel::A,
            Mode::ChBGain32 => Channel::B,
            Mode::ChAGain64 => Channel::A,
        }
    }

    /// The gain factor this mode applies.
    pub fn gain(self) -> (r: u32)
        ensures
            r == mode_gain(self),
    {
        match self {
            Mode::ChAGain128 => 128,
            Mode::ChBGain32 => 32,
            Mode::ChAGain64 => 64,
        }
    }
}

} // verus!
