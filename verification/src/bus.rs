use vstd::prelude::*;

verus! {

/// Outcome channels of a device operation.
///
/// A bus failure is opaque and fatal to the operation that saw it; it is
/// passed through unmodified. Not-ready is a scheduling signal, not a
/// failure: the caller retries. Unsupported is terminal and must not be
/// retried.
#[derive(Debug)]
pub enum Error<E> {
    /// The chip has not finished converting; retry after a short pause.
    WouldBlock,
    /// The request cannot be expressed as a bounded bus transaction on this
    /// transport.
    Unsupported,
    /// The bus peripheral failed; its error, verbatim.
    Bus(E),
}

/// A synchronous, byte-oriented serial bus as the driver sees it: a
/// full-duplex exchange plus a write-only burst, owned exclusively by one
/// device handle.
///
/// The spec functions form a deterministic model of the peripheral together
/// with the chip behind it: from a given model state, a transfer that sends
/// `tx` either fails (an opaque error, state unchanged) or reads back
/// exactly `response(tx)` and moves the model to `post_transfer(tx)`.
/// Implementations inside this crate are verified against the model;
/// adapters around real peripherals supply the exchange and the burst and
/// stand outside the verified core. Such an adapter inherits the default
/// model functions, which are left wholly unspecified: nothing concrete can
/// then be concluded about its exchanges.
pub trait Bus: Sized {
    /// The peripheral's own error type.
    type BusError;

    /// Whether an exchange sending `tx` succeeds from this state.
    open spec fn transfer_ok(&self, tx: Seq<u8>) -> bool {
        arbitrary()
    }

    /// The bytes an exchange sending `tx` reads back from this state.
    open spec fn response(&self, tx: Seq<u8>) -> Seq<u8> {
        arbitrary()
    }

    /// The model state after a successful exchange sending `tx`.
    open spec fn post_transfer(&self, tx: Seq<u8>) -> Self {
        arbitrary()
    }

    /// Whether a write-only burst of `tx` succeeds from this state.
    open spec fn write_ok(&self, tx: Seq<u8>) -> bool {
        arbitrary()
    }

    /// The model state after a successful write-only burst of `tx`.
    open spec fn post_write(&self, tx: Seq<u8>) -> Self {
        arbitrary()
    }

    /// Full-duplex exchange: sends the bytes of `buf` and overwrites them,
    /// in place and one for one, with the bytes read back.
    fn transfer(&mut self, buf: &mut Vec<u8>) -> (r: Result<(), Self::BusError>)
        ensures
            r is Ok <==> old(self).transfer_ok(old(buf)@),
            r is Ok ==> final(buf)@ == old(self).response(old(buf)@) && final(buf)@.len() == old(
                buf,
            )@.len() && *final(self) == old(self).post_transfer(old(buf)@),
            r is Err ==> *final(self) == *old(self) && final(buf)@ == old(buf)@,
    ;

    /// Write-only burst: sends the bytes of `buf` and discards whatever the
    /// chip answers.
    fn write(&mut self, buf: &Vec<u8>) -> (r: Result<(), Self::BusError>)
        ensures
            r is Ok <==> old(self).write_ok(buf@),
            r is Ok ==> *final(self) == old(self).post_write(buf@),
            r is Err ==> *final(self) == *old(self),
    ;
}

/// A blocking millisecond timer. Only the blocking read discipline consumes
/// it, to pause between readiness samples; nothing is specified about how
/// long it really blocks.
pub trait Delay {
    /// Blocks the caller for `ms` milliseconds.
    fn delay_ms(&mut self, ms: u16);
}

} // verus!
