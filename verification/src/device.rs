use vstd::prelude::*;

use crate::bus::{Bus, Delay, Error};
use crate::codec::{
    clock_train_spec, decode_reading, decode_spec, encode_clock_train, make_reset_burst,
    poll_request, reset_burst_spec, NOT_READY,
};
use crate::mode::{default_mode, Mode};

verus! {

/// One HX711 device on its bus.
///
/// The handle exclusively owns the bus binding and the delay capability for
/// its whole lifetime, and holds the currently selected [`Mode`]. It is
/// created with the chip's power-on default and gives the mode out and takes
/// it only through explicit operations. Single-owner discipline: the handle
/// is not to be shared across concurrent execution contexts without an
/// external mutual-exclusion guard around a full read-modify cycle.
#[derive(Debug)]
pub struct Hx711<SPI, D> {
    spi: SPI,
    mode: Mode,
    delay: D,
}

impl<SPI, D> Hx711<SPI, D> {
    /// The bus model state the handle holds.
    pub closed spec fn bus(&self) -> SPI {
        self.spi
    }

    /// The mode whose trailer the next conversion transfer will emit.
    pub closed spec fn current_mode(&self) -> Mode {
        self.mode
    }

    /// The delay capability the handle holds.
    pub closed spec fn timer(&self) -> D {
        self.delay
    }
}

/// Exact outcome of one non-blocking read, over the bus model: `b0` is the
/// bus before the read, `m` the selected mode, `r` the result and `b_end`
/// the bus afterwards.
///
/// The read first samples readiness with a one-byte exchange. All bits high
/// means the chip is still converting and the read signals would-block; any
/// other byte means data is ready, and the clock train of `m` is exchanged
/// and its readback decoded. A failed exchange surfaces as a bus error with
/// nothing consumed by the failing step.
pub open spec fn read_post<SPI: Bus>(
    b0: SPI,
    m: Mode,
    r: Result<i32, Error<SPI::BusError>>,
    b_end: SPI,
) -> bool {
    if !b0.transfer_ok(poll_request()) {
        &&& b_end == b0
        &&& r matches Err(e) && e is Bus
    } else {
        let sampled = b0.response(poll_request())[0];
        let b1 = b0.post_transfer(poll_request());
        if sampled == NOT_READY {
            &&& b_end == b1
            &&& r == Err::<i32, Error<SPI::BusError>>(Error::WouldBlock)
        } else {
            let train = clock_train_spec(m);
            if !b1.transfer_ok(train) {
                &&& b_end == b1
                &&& r matches Err(e) && e is Bus
            } else {
                &&& b_end == b1.post_transfer(train)
                &&& r matches Ok(v) && v == decode_spec(b1.response(train))
            }
        }
    }
}

/// Readiness signalling: a read reports would-block exactly when its
/// readiness sample succeeded and answered the all-bits-high not-ready
/// sentinel; a ready sample never yields would-block.
pub proof fn lemma_would_block_iff<SPI: Bus>(
    b0: SPI,
    m: Mode,
    r: Result<i32, Error<SPI::BusError>>,
    b_end: SPI,
)
    requires
        read_post(b0, m, r, b_end),
    ensures
        (r == Err::<i32, Error<SPI::BusError>>(Error::WouldBlock)) <==> (b0.transfer_ok(
            poll_request(),
        ) && b0.response(poll_request())[0] == NOT_READY),
{
}

impl<SPI: Bus, D: Delay> Hx711<SPI, D> {
    /// Opens a connection to an HX711 over `spi`.
    ///
    /// The chip powers up converting channel A at gain 128, so the handle
    /// starts there. The bus clock has to stay between 20 kHz and 5 MHz so
    /// that every half-bit respects the chip's 0.2 to 50 microsecond pulse
    /// width window.
    pub fn new(spi: SPI, delay: D) -> (r: Self)
        ensures
            r.bus() == spi,
            r.current_mode() == default_mode(),
            r.timer() == delay,
    {
        Hx711 { spi, mode: Mode::ChAGain128, delay }
    }

    /// Reads one conversion without blocking.
    ///
    /// Samples readiness with a one-byte exchange; while the chip is still
    /// converting the read returns [`Error::WouldBlock`] and leaves retry
    /// timing to the caller. Once ready, it exchanges the clock train of the
    /// current mode - emitting exactly one mode-selection trailer - and
    /// returns the decoded signed value. Bus failures propagate verbatim;
    /// the selected mode never changes.
    pub fn read(&mut self) -> (r: Result<i32, Error<SPI::BusError>>)
        ensures
            final(self).current_mode() == old(self).current_mode(),
            final(self).timer() == old(self).timer(),
            read_post(old(self).bus(), old(self).current_mode(), r, final(self).bus()),
    {
        let mut poll: Vec<u8> = Vec::new();
        poll.push(0u8);
        assert(poll@ =~= poll_request());
        match self.spi.transfer(&mut poll) {
            Ok(()) => (),
            Err(e) => {
                return Err(Error::Bus(e));
            },
        }
        if poll[0] == NOT_READY {
            return Err(Error::WouldBlock);
        }
        let mut train: Vec<u8> = encode_clock_train(self.mode);
        match self.spi.transfer(&mut train) {
            Ok(()) => (),
            Err(e) => {
                return Err(Error::Bus(e));
            },
        }
        let buffer: [u8; 7] = [train[0], train[1], train[2], train[3], train[4], train[5], train[6]];
        assert(buffer@ =~= train@);
        Ok(decode_reading(&buffer))
    }

    /// Reads one conversion without blocking. Compatibility alias of
    /// [`Self::read`].
    pub fn retrieve(&mut self) -> (r: Result<i32, Error<SPI::BusError>>)
        ensures
            final(self).current_mode() == old(self).current_mode(),
            final(self).timer() == old(self).timer(),
            read_post(old(self).bus(), old(self).current_mode(), r, final(self).bus()),
    {
        self.read()
    }

    /// Resets the chip to its power-on state by holding the clock line high
    /// for longer than the 60 microsecond power-down threshold: a write-only
    /// burst of all-ones bytes, conservatively sized for the fastest
    /// supported bus clock.
    ///
    /// On success the selected mode is the default, whatever was selected
    /// before. A bus failure propagates verbatim and leaves the handle as it
    /// was. The chip's own power-up settling is the caller's to wait out.
    pub fn reset(&mut self) -> (r: Result<(), Error<SPI::BusError>>)
        ensures
            final(self).timer() == old(self).timer(),
            old(self).bus().write_ok(reset_burst_spec()) ==> {
                &&& r is Ok
                &&& final(self).current_mode() == default_mode()
                &&& final(self).bus() == old(self).bus().post_write(reset_burst_spec())
            },
            !old(self).bus().write_ok(reset_burst_spec()) ==> {
                &&& r matches Err(e) && e is Bus
                &&& *final(self) == *old(self)
            },
    {
        let burst: Vec<u8> = make_reset_burst();
        match self.spi.write(&burst) {
            Ok(()) => (),
            Err(e) => {
                return Err(Error::Bus(e));
            },
        }
        self.mode = Mode::ChAGain128;
        Ok(())
    }

    /// Selects the channel/gain combination for coming conversions, without
    /// touching the bus.
    ///
    /// The chip latches the selection from the trailer pulses of the next
    /// conversion transfer and applies it one reading later: perform and
    /// discard one read before trusting values to reflect `m`.
    pub fn set_mode(&mut self, m: Mode) -> (r: Mode)
        ensures
            final(self).current_mode() == m,
            final(self).bus() == old(self).bus(),
            final(self).timer() == old(self).timer(),
            r == m,
    {
        self.mode = m;
        m
    }

    /// The currently selected mode.
    pub fn mode(&mut self) -> (r: Mode)
        ensures
            r == old(self).current_mode(),
            *final(self) == *old(self),
    {
        self.mode
    }

    /// The currently selected mode. Compatibility alias of [`Self::mode`].
    pub fn get_mode(&mut self) -> (r: Mode)
        ensures
            r == old(self).current_mode(),
            *final(self) == *old(self),
    {
        self.mode
    }

    /// Blocks for `ms` milliseconds on the injected delay capability. The
    /// blocking read discipline pauses here between readiness samples.
    pub fn pause_ms(&mut self, ms: u16)
        ensures
            final(self).current_mode() == old(self).current_mode(),
            final(self).bus() == old(self).bus(),
    {
        self.delay.delay_ms(ms);
    }

    /// Powering the chip down needs the clock line held high indefinitely,
    /// which no bounded bus transaction can express: always answers the
    /// fixed unsupported condition and never touches the bus.
    pub fn disable(&mut self) -> (r: Result<(), Error<SPI::BusError>>)
        ensures
            *final(self) == *old(self),
            r == Err::<(), Error<SPI::BusError>>(Error::Unsupported),
    {
        Err(Error::Unsupported)
    }

    /// Powering the chip back up is unsupported for the same reason as
    /// [`Self::disable`]: always answers the fixed unsupported condition and
    /// never touches the bus.
    pub fn enable(&mut self) -> (r: Result<(), Error<SPI::BusError>>)
        ensures
            *final(self) == *old(self),
            r == Err::<(), Error<SPI::BusError>>(Error::Unsupported),
    {
        Err(Error::Unsupported)
    }
}

} // verus!
