//! Protocol core of a driver for the HX711 24-bit analogue-to-digital
//! converter, emulated over a generic byte-oriented synchronous serial bus.
//!
//! The chip has no native bus framing: clock pulses are synthesized by
//! writing fixed bit patterns, and conversion results come back with every
//! bit doubled. This crate verifies the wire-level codec (clock-train
//! encoding, doubled-bit decoding), the closed mode registry, the
//! poll/transfer/decode read pipeline, and the timed reset burst. The bus
//! peripheral itself and the delay timer are external capabilities, modelled
//! by traits of this crate.

mod bus;
mod codec;
mod device;
mod mode;
mod sim;

pub use bus::{Bus, Delay, Error};
pub use codec::{
    byte_pulses, clock_train_spec, decode_reading, decode_spec, doubled_bytes_spec,
    encode_clock_train, encode_sample, first_bits_spec, lemma_decode_first_bits_only,
    lemma_reset_burst_conservative, lemma_round_trip, lemma_train_pulse_count, pairs_uniform,
    poll_request, raw24_spec, reset_burst_len, reset_burst_spec, sign_extend24, spread_nibble,
    CLOCK_BYTE, MAX_BUS_HZ, NOT_READY, RESET_BURST_BYTES,
};
pub use device::{lemma_would_block_iff, read_post, Hx711};
pub use mode::{default_mode, mode_byte, mode_channel, mode_gain, mode_pulses, Channel, Mode};
pub use sim::{
    is_reset_burst, lemma_mode_latency, lemma_reset_latches_default, trailer_mode, SimBus,
    SimBusError, SimDelay,
};
