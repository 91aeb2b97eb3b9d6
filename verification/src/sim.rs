use vstd::prelude::*;

use crate::bus::{Bus, Delay, Error};
use crate::codec::{
    clock_train_spec, decode_spec, doubled_bytes_spec, encode_sample, lemma_round_trip,
    poll_request, reset_burst_spec, sign_extend24, NOT_READY, RESET_BURST_BYTES,
};
use crate::device::read_post;
use crate::mode::{default_mode, mode_byte, Mode};

verus! {

/// The error the simulated bus reports when fault injection is switched on.
#[derive(Clone, Copy, Debug, PartialEq, Eq, Structural)]
pub struct SimBusError;

/// A burst that power-cycles the chip: at least the conservative byte count,
/// every byte all ones, so the clock line stays high past the power-down
/// threshold without interruption.
pub open spec fn is_reset_burst(tx: Seq<u8>) -> bool {
    tx.len() >= RESET_BURST_BYTES && (forall|i: int| 0 <= i < tx.len() ==> tx[i] == 0xFFu8)
}

/// A deterministic in-memory model of the chip on its bus, verified against
/// the [`Bus`] contract: readiness polls answer `ready`, conversion
/// transfers shift out the doubled-bit sample of the currently latched
/// selection and then latch the trailer byte, and a reset burst latches the
/// default selection. With `fail` set, every exchange and burst reports a
/// bus error and changes nothing.
#[derive(Clone, Copy, Debug)]
pub struct SimBus {
    /// Whether the chip has a conversion ready to shift out.
    pub ready: bool,
    /// Fault injection: when set, every operation fails.
    pub fail: bool,
    /// The channel/gain selection latched for the conversion shifted out
    /// next.
    pub chip: Mode,
    /// Conversion value of channel A at gain 128; the low 24 bits count.
    pub sample_a128: u32,
    /// Conversion value of channel B at gain 32; the low 24 bits count.
    pub sample_b32: u32,
    /// Conversion value of channel A at gain 64; the low 24 bits count.
    pub sample_a64: u32,
}

/// The selection a trailer byte latches: one of the three fixed trailer
/// bytes picks its mode, anything else leaves `current` latched.
pub open spec fn trailer_mode(t: u8, current: Mode) -> Mode {
    if t == mode_byte(Mode::ChAGain128) {
        Mode::ChAGain128
    } else if t == mode_byte(Mode::ChBGain32) {
        Mode::ChBGain32
    } else if t == mode_byte(Mode::ChAGain64) {
        Mode::ChAGain64
    } else {
        current
    }
}

/// Masking to 24 bits stays below the two's-complement field size.
proof fn lemma_mask24(x: u32)
    by (bit_vector)
    ensures
        x & 0xFFFFFF < 0x1000000,
{
}

impl SimBus {
    /// The 24-bit conversion the chip shifts out under selection `m`.
    pub open spec fn sample_of(&self, m: Mode) -> u32 {
        match m {
            Mode::ChAGain128 => self.sample_a128 & 0xFFFFFF,
            Mode::ChBGain32 => self.sample_b32 & 0xFFFFFF,
            Mode::ChAGain64 => self.sample_a64 & 0xFFFFFF,
        }
    }

    fn sample_for(&self, m: Mode) -> (r: u32)
        ensures
            r == self.sample_of(m),
            r < 0x1000000,
    {
        let raw: u32 = match m {
            Mode::ChAGain128 => self.sample_a128,
            Mode::ChBGain32 => self.sample_b32,
            Mode::ChAGain64 => self.sample_a64,
        };
        proof {
            lemma_mask24(raw);
        }
        raw & 0xFFFFFF
    }
}

impl Bus for SimBus {
    type BusError = SimBusError;

    open spec fn transfer_ok(&self, tx: Seq<u8>) -> bool {
        !self.fail
    }

    open spec fn response(&self, tx: Seq<u8>) -> Seq<u8> {
        if tx.len() == 1 {
            seq![
                if self.ready {
                    0x00u8
                } else {
                    NOT_READY
                },
            ]
        } else if tx.len() == 7 {
            doubled_bytes_spec(self.sample_of(self.chip)).push(0u8)
        } else {
            tx
        }
    }

    open spec fn post_transfer(&self, tx: Seq<u8>) -> Self {
        if tx.len() == 7 {
            SimBus { chip: trailer_mode(tx[6], self.chip), ..*self }
        } else {
            *self
        }
    }

    open spec fn write_ok(&self, tx: Seq<u8>) -> bool {
        !self.fail
    }

    open spec fn post_write(&self, tx: Seq<u8>) -> Self {
        if is_reset_burst(tx) {
            SimBus { chip: default_mode(), ..*self }
        } else {
            *self
        }
    }

    fn transfer(&mut self, buf: &mut Vec<u8>) -> (r: Result<(), SimBusError>) {
        if self.fail {
            return Err(SimBusError);
        }
        if buf.len() == 1 {
            let b: u8 = if self.ready {
                0x00
            } else {
                NOT_READY
            };
            let mut resp: Vec<u8> = Vec::new();
            resp.push(b);
            *buf = resp;
            assert(buf@ =~= old(self).response(old(buf)@));
        } else if buf.len() == 7 {
            let trailer: u8 = buf[6];
            let sample: u32 = self.sample_for(self.chip);
            let mut resp: Vec<u8> = encode_sample(sample);
            resp.push(0u8);
            *buf = resp;
            if trailer == 0x80 {
                self.chip = Mode::ChAGain128;
            } else if trailer == 0xA0 {
                self.chip = Mode::ChBGain32;
            } else if trailer == 0xA8 {
                self.chip = Mode::ChAGain64;
            }
            assert(buf@ =~= old(self).response(old(buf)@));
        }
        Ok(())
    }

    fn write(&mut self, buf: &Vec<u8>) -> (r: Result<(), SimBusError>) {
        if self.fail {
            return Err(SimBusError);
        }
        if buf.len() >= RESET_BURST_BYTES {
            let mut all_ones: bool = true;
            let mut i: usize = 0;
            while i < buf.len()
                invariant
                    i <= buf@.len(),
                    all_ones == (forall|j: int| 0 <= j < i ==> buf@[j] == 0xFFu8),
                decreases buf@.len() - i,
            {
                if buf[i] != 0xFF {
                    all_ones = false;
                }
                i = i + 1;
            }
            if all_ones {
                self.chip = Mode::ChAGain128;
            }
        }
        Ok(())
    }
}

/// A delay capability that returns at once; the simulated chip needs no
/// settling time.
pub struct SimDelay;

impl Delay for SimDelay {
    fn delay_ms(&mut self, _ms: u16) {
    }
}

/// Mode latency through the read pipeline, over the simulated chip: after
/// the handle selects `m`, the next read (`r1`) still returns the conversion
/// of the selection the chip had latched before, while that read's trailer
/// latches `m`; the read after it (`r2`) is the first to reflect `m`.
///
/// `read_post` is exactly what [`crate::Hx711::read`] ensures, so this holds
/// of two successive reads of a handle whose mode is `m` on a ready,
/// fault-free simulated bus.
pub proof fn lemma_mode_latency(
    b: SimBus,
    m: Mode,
    r1: Result<i32, Error<SimBusError>>,
    b_mid: SimBus,
    r2: Result<i32, Error<SimBusError>>,
    b_end: SimBus,
)
    requires
        b.ready,
        !b.fail,
        read_post(b, m, r1, b_mid),
        read_post(b_mid, m, r2, b_end),
    ensures
        r1 matches Ok(v) && v == sign_extend24(b.sample_of(b.chip) as int),
        b_mid.chip == m,
        r2 matches Ok(v) && v == sign_extend24(b.sample_of(m) as int),
{
    assert(b.post_transfer(poll_request()) == b);
    lemma_decode_doubled_response(b, m);
    assert(clock_train_spec(m)[6] == mode_byte(m));
    assert(b_mid.chip == m);
    lemma_decode_doubled_response(b_mid, m);
}

/// Decoding the simulated readback of one conversion transfer returns the
/// sign-extended sample of the chip's latched selection.
proof fn lemma_decode_doubled_response(b: SimBus, m: Mode)
    ensures
        decode_spec(b.response(clock_train_spec(m))) == sign_extend24(b.sample_of(b.chip) as int),
{
    lemma_mask24(b.sample_a128);
    lemma_mask24(b.sample_b32);
    lemma_mask24(b.sample_a64);
    let s = b.sample_of(b.chip);
    let data = doubled_bytes_spec(s);
    let resp = data.push(0u8);
    assert(resp[0] == data[0] && resp[1] == data[1] && resp[2] == data[2] && resp[3] == data[3]
        && resp[4] == data[4] && resp[5] == data[5]);
    lemma_round_trip(s);
}

/// Reset idempotence over the simulated chip: one reset burst latches the
/// default selection, whatever was latched before, and any further burst
/// leaves it at the default.
pub proof fn lemma_reset_latches_default(b: SimBus)
    ensures
        b.post_write(reset_burst_spec()).chip == default_mode(),
        b.post_write(reset_burst_spec()).post_write(reset_burst_spec()).chip == default_mode(),
{
    assert(is_reset_burst(reset_burst_spec()));
}

} // verus!
