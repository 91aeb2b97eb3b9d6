use vstd::arithmetic::div_mod::lemma_fundamental_div_mod;
use vstd::prelude::*;

use crate::mode::{mode_byte, mode_pulses, Mode};

verus! {

/// The poll response byte that means "conversion not finished": the chip
/// holds its data-out line high, so a one-byte exchange reads all bits high.
pub const NOT_READY: u8 = 0xFF;

/// One byte of four doubled clock pulses (`10101010`): each logical pulse is
/// the bit pair `10` on the wire.
pub const CLOCK_BYTE: u8 = 0xAA;

/// Fixed, conservative length of the reset burst in bytes, sized so that the
/// line stays high for well over the chip's 60 microsecond power-down
/// threshold at every supported bus speed (see [`lemma_reset_burst_conservative`]).
pub const RESET_BURST_BYTES: usize = 301;

/// The fastest bus clock the chip's minimum pulse width of 0.2 microseconds
/// allows, in half-bits per second.
pub const MAX_BUS_HZ: u32 = 5_000_000;

/// The nibble formed by the first bit of each of the four bit pairs of `b`,
/// most significant pair first. The readback stream doubles every data bit,
/// so this is the significant half of one byte on the wire.
pub open spec fn first_bits_spec(b: u8) -> u8 {
    ((((b >> 7) & 1) << 3) | (((b >> 5) & 1) << 2) | (((b >> 3) & 1) << 1) | ((b >> 1) & 1)) as u8
}

/// The unsigned 24-bit field read from the first six bytes of a readback
/// buffer: one nibble of first-of-pair bits per byte, most significant first.
pub open spec fn raw24_spec(s: Seq<u8>) -> int {
    first_bits_spec(s[0]) * 0x100000 + first_bits_spec(s[1]) * 0x10000 + first_bits_spec(s[2])
        * 0x1000 + first_bits_spec(s[3]) * 0x100 + first_bits_spec(s[4]) * 0x10 + first_bits_spec(
        s[5],
    )
}

/// Reads a 24-bit two's-complement field as a signed integer.
pub open spec fn sign_extend24(x: int) -> int {
    if x >= 0x800000 {
        x - 0x1000000
    } else {
        x
    }
}

/// The conversion value held in a readback buffer: the doubled-bit 24-bit
/// two's-complement field, sign-extended.
pub open spec fn decode_spec(s: Seq<u8>) -> int {
    sign_extend24(raw24_spec(s))
}

/// First-of-pair bits of `b` are below 16, so they fit one nibble.
proof fn lemma_first_bits_bound(b: u8)
    by (bit_vector)
    ensures
        first_bits_spec(b) < 16,
{
}

fn first_bits(b: u8) -> (r: u8)
    ensures
        r == first_bits_spec(b),
        r < 16,
{
    proof {
        lemma_first_bits_bound(b);
    }
    (((b >> 7) & 1) << 3) | (((b >> 5) & 1) << 2) | (((b >> 3) & 1) << 1) | ((b >> 1) & 1)
}

/// Decodes a doubled-bit readback buffer into the signed conversion value.
///
/// For each of the 24 significant bits the first bit of its wire bit pair is
/// taken, the bits are reassembled most-significant first into a 24-bit
/// two's-complement field, and the field is sign-extended to 32 bits. Total
/// over every byte pattern, deterministic, and a function of the buffer
/// alone.
pub fn decode_reading(buffer: &[u8; 7]) -> (r: i32)
    ensures
        r == decode_spec(buffer@),
{
    let n0: u32 = first_bits(buffer[0]) as u32;
    let n1: u32 = first_bits(buffer[1]) as u32;
    let n2: u32 = first_bits(buffer[2]) as u32;
    let n3: u32 = first_bits(buffer[3]) as u32;
    let n4: u32 = first_bits(buffer[4]) as u32;
    let n5: u32 = first_bits(buffer[5]) as u32;
    let magnitude: u32 = n0 * 0x100000 + n1 * 0x10000 + n2 * 0x1000 + n3 * 0x100 + n4 * 0x10 + n5;
    assert(magnitude == raw24_spec(buffer@));
    if magnitude >= 0x800000 {
        let below: u32 = 0x1000000 - magnitude;
        -(below as i32)
    } else {
        magnitude as i32
    }
}

/// The six wire bytes that carry the 24-bit field `m` in doubled-bit form:
/// every data bit becomes the pair `10` when set and `00` when clear.
pub open spec fn doubled_bytes_spec(m: u32) -> Seq<u8> {
    seq![
        spread_nibble(((m >> 20) & 0xF) as u8),
        spread_nibble(((m >> 16) & 0xF) as u8),
        spread_nibble(((m >> 12) & 0xF) as u8),
        spread_nibble(((m >> 8) & 0xF) as u8),
        spread_nibble(((m >> 4) & 0xF) as u8),
        spread_nibble((m & 0xF) as u8),
    ]
}

/// Spreads the low nibble of `n` over the first-of-pair bit positions of a
/// byte, leaving every second-of-pair bit clear.
pub open spec fn spread_nibble(n: u8) -> u8 {
    (((n & 8) << 4) | ((n & 4) << 3) | ((n & 2) << 2) | ((n & 1) << 1)) as u8
}

fn spread_nibble_exec(n: u8) -> (r: u8)
    ensures
        r == spread_nibble(n),
{
    ((n & 8) << 4) | ((n & 4) << 3) | ((n & 2) << 2) | ((n & 1) << 1)
}

/// Encodes a 24-bit field into its six doubled-bit wire bytes.
pub fn encode_sample(m: u32) -> (r: Vec<u8>)
    requires
        m < 0x1000000,
    ensures
        r@ == doubled_bytes_spec(m),
        r@.len() == 6,
{
    let mut out: Vec<u8> = Vec::new();
    out.push(spread_nibble_exec(((m >> 20) & 0xF) as u8));
    out.push(spread_nibble_exec(((m >> 16) & 0xF) as u8));
    out.push(spread_nibble_exec(((m >> 12) & 0xF) as u8));
    out.push(spread_nibble_exec(((m >> 8) & 0xF) as u8));
    out.push(spread_nibble_exec(((m >> 4) & 0xF) as u8));
    out.push(spread_nibble_exec((m & 0xF) as u8));
    assert(out@ =~= doubled_bytes_spec(m));
    out
}

/// Spreading a nibble over first-of-pair positions and reading the
/// first-of-pair bits back returns the nibble.
proof fn lemma_spread_round(n: u8)
    by (bit_vector)
    requires
        n < 16,
    ensures
        first_bits_spec(spread_nibble(n)) == n,
{
}

/// Round trip of the doubled-bit pairing: a buffer in which every bit pair
/// is uniform (`10` for a set bit, `00` for a clear one) decodes to exactly
/// the 24-bit field it was built from, so the decoded magnitude depends on
/// the first bit of each pair alone.
pub proof fn lemma_round_trip(m: u32)
    requires
        m < 0x1000000,
    ensures
        raw24_spec(doubled_bytes_spec(m)) == m,
        decode_spec(doubled_bytes_spec(m)) == sign_extend24(m as int),
{
    let s = doubled_bytes_spec(m);
    assert((((m >> 20) & 0xF) as u8) < 16 && (((m >> 16) & 0xF) as u8) < 16 && (((m >> 12)
        & 0xF) as u8) < 16 && (((m >> 8) & 0xF) as u8) < 16 && (((m >> 4) & 0xF) as u8) < 16 && ((m
        & 0xF) as u8) < 16) by (bit_vector);
    lemma_spread_round(((m >> 20) & 0xF) as u8);
    lemma_spread_round(((m >> 16) & 0xF) as u8);
    lemma_spread_round(((m >> 12) & 0xF) as u8);
    lemma_spread_round(((m >> 8) & 0xF) as u8);
    lemma_spread_round(((m >> 4) & 0xF) as u8);
    lemma_spread_round((m & 0xF) as u8);
    assert((((m >> 20) & 0xF) as u8) * 0x100000 + (((m >> 16) & 0xF) as u8) * 0x10000 + (((m >> 12)
        & 0xF) as u8) * 0x1000 + (((m >> 8) & 0xF) as u8) * 0x100 + (((m >> 4) & 0xF) as u8) * 0x10
        + ((m & 0xF) as u8) == m) by (bit_vector)
        requires
            m < 0x1000000,
    ;
}

/// The decoded value is derived from the first bit of each wire bit pair
/// alone: buffers whose first-of-pair bits agree decode alike, whatever
/// stands in the second bit of any pair.
pub proof fn lemma_decode_first_bits_only(a: Seq<u8>, b: Seq<u8>)
    requires
        forall|i: int| 0 <= i < 6 ==> first_bits_spec(a[i]) == first_bits_spec(b[i]),
    ensures
        decode_spec(a) == decode_spec(b),
{
}

/// The bytes sent to sample readiness: a single idle-low byte, so the
/// exchange reads the chip's data-out line without clocking data out.
pub open spec fn poll_request() -> Seq<u8> {
    seq![0u8]
}

/// The clock train written during a conversion transfer under mode `m`: six
/// bytes of four doubled pulses each shift the 24 data bits out, and the
/// fixed trailer byte of `m` appends the pulses that select `m` for the next
/// conversion.
pub open spec fn clock_train_spec(m: Mode) -> Seq<u8> {
    seq![CLOCK_BYTE, CLOCK_BYTE, CLOCK_BYTE, CLOCK_BYTE, CLOCK_BYTE, CLOCK_BYTE, mode_byte(m)]
}

/// Builds the clock train for mode `m`.
pub fn encode_clock_train(m: Mode) -> (r: Vec<u8>)
    ensures
        r@ == clock_train_spec(m),
        r@.len() == 7,
{
    let mut out: Vec<u8> = Vec::new();
    out.push(CLOCK_BYTE);
    out.push(CLOCK_BYTE);
    out.push(CLOCK_BYTE);
    out.push(CLOCK_BYTE);
    out.push(CLOCK_BYTE);
    out.push(CLOCK_BYTE);
    out.push(m.trailer_byte());
    assert(out@ =~= clock_train_spec(m));
    out
}

/// Number of logical clock pulses a wire byte carries: one per set
/// first-of-pair bit.
pub open spec fn byte_pulses(b: u8) -> int {
    ((b >> 7) & 1) + ((b >> 5) & 1) + ((b >> 3) & 1) + ((b >> 1) & 1)
}

/// Every bit pair of `b` is `10` or `00`: no second-of-pair bit is set, so
/// the byte never holds the clock line high across a pair boundary.
pub open spec fn pairs_uniform(b: u8) -> bool {
    (b >> 6) & 1 == 0 && (b >> 4) & 1 == 0 && (b >> 2) & 1 == 0 && b & 1 == 0
}

/// The clock train of `m` is well formed pulse by pulse: every bit pair of
/// every byte is a whole pulse or idle, and the pulses sum to the mode's
/// fixed count - 24 data pulses plus the mode-selecting trailer pulses. So
/// exactly one mode selection is emitted per conversion transfer.
pub proof fn lemma_train_pulse_count(m: Mode)
    ensures
        forall|k: int| 0 <= k < 7 ==> pairs_uniform(#[trigger] clock_train_spec(m)[k]),
        byte_pulses(clock_train_spec(m)[0]) + byte_pulses(clock_train_spec(m)[1]) + byte_pulses(
            clock_train_spec(m)[2],
        ) + byte_pulses(clock_train_spec(m)[3]) + byte_pulses(clock_train_spec(m)[4]) + byte_pulses(
            clock_train_spec(m)[5],
        ) + byte_pulses(clock_train_spec(m)[6]) == mode_pulses(m),
{
    assert(pairs_uniform(0xAAu8) && byte_pulses(0xAAu8) == 4) by (bit_vector);
    assert(pairs_uniform(0x80u8) && byte_pulses(0x80u8) == 1) by (bit_vector);
    assert(pairs_uniform(0xA0u8) && byte_pulses(0xA0u8) == 2) by (bit_vector);
    assert(pairs_uniform(0xA8u8) && byte_pulses(0xA8u8) == 3) by (bit_vector);
    assert(forall|k: int| 0 <= k < 6 ==> #[trigger] clock_train_spec(m)[k] == CLOCK_BYTE);
    assert(clock_train_spec(m)[6] == mode_byte(m));
}

/// The reset burst: all-ones bytes that hold the clock line high past the
/// chip's power-down threshold.
pub open spec fn reset_burst_spec() -> Seq<u8> {
    Seq::new(RESET_BURST_BYTES as nat, |i: int| 0xFFu8)
}

pub(crate) fn make_reset_burst() -> (r: Vec<u8>)
    ensures
        r@ == reset_burst_spec(),
{
    let mut out: Vec<u8> = Vec::new();
    let mut i: usize = 0;
    while i < RESET_BURST_BYTES
        invariant
            i <= RESET_BURST_BYTES,
            out@.len() == i,
            forall|j: int| 0 <= j < i ==> out@[j] == 0xFFu8,
        decreases RESET_BURST_BYTES - i,
    {
        out.push(0xFF);
        i = i + 1;
    }
    assert(out@ =~= reset_burst_spec());
    out
}

/// Smallest byte count whose write keeps the line asserted strictly longer
/// than the 60 microsecond power-down threshold at a bus clock of `bus_hz`
/// half-bits per second: the returned count `r` satisfies
/// `r * 8 / bus_hz > 60e-6 s`, scaled to integers as `r * 8_000_000 > bus_hz * 60`.
pub fn reset_burst_len(bus_hz: u32) -> (r: u32)
    ensures
        r == (bus_hz as int) * 3 / 400_000 + 1,
        (r as int) * 8_000_000 > (bus_hz as int) * 60,
        r >= 1,
{
    let scaled: u64 = (bus_hz as u64) * 3;
    let q: u64 = scaled / 400_000;
    proof {
        lemma_fundamental_div_mod(scaled as int, 400_000);
    }
    (q + 1) as u32
}

/// The fixed burst of [`RESET_BURST_BYTES`] is conservative: it exceeds the
/// power-down threshold even at the fastest supported bus clock.
pub proof fn lemma_reset_burst_conservative()
    ensures
        (RESET_BURST_BYTES as int) * 8_000_000 > (MAX_BUS_HZ as int) * 60,
{
}

} // verus!
