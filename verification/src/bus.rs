//! The two capabilities the driver consumes: a byte-oriented serial bus and a
//! blocking delay. Both traits carry a ghost transcript, so every contract in
//! this crate can say exactly which bytes an operation puts on the wire and
//! how long it sleeps.

use vstd::prelude::*;

verus! {

/// One entry of a bus transcript: a plain write, a full-duplex transfer
/// (recording both the bytes sent and the bytes received), or the opening or
/// closing of a scoped transaction (one continuous chip-select assertion).
#[verifier::ext_equal]
pub enum BusEvent {
    Write { data: Seq<u8> },
    Transfer { sent: Seq<u8>, received: Seq<u8> },
    Start,
    End,
}

/// A byte-oriented serial bus, as the camera driver needs it.
///
/// `events` is the transcript of everything the bus has carried. A failed
/// operation carries nothing: the transcript is unchanged on `Err`.
pub trait CameraBus: Sized {
    /// The transport's own failure value; the driver wraps it unread.
    type BusError;

    /// The transcript of all traffic this bus has carried so far. The
    /// default stands for implementations outside the verifier's reach,
    /// about which nothing is known; verified implementations override it.
    open spec fn events(&self) -> Seq<BusEvent> {
        Seq::empty()
    }

    /// Sends `data` as one write, with nothing clocked back.
    fn write(&mut self, data: &[u8]) -> (r: Result<(), Self::BusError>)
        ensures
            r is Ok ==> final(self).events() == old(self).events().push(
                BusEvent::Write { data: data@ },
            ),
            r is Err ==> final(self).events() == old(self).events(),
    ;

    /// Sends `sent` while clocking `read_len` bytes back in the same transfer.
    fn transfer(&mut self, sent: &[u8], read_len: usize) -> (r: Result<
        Vec<u8>,
        Self::BusError,
    >)
        ensures
            r matches Ok(received) ==> {
                &&& received@.len() == read_len
                &&& final(self).events() == old(self).events().push(
                    BusEvent::Transfer { sent: sent@, received: received@ },
                )
            },
            r is Err ==> final(self).events() == old(self).events(),
    ;

    /// Asserts chip select, so that the transfers up to the matching
    /// [`end_transaction`](CameraBus::end_transaction) form one continuous
    /// exchange.
    fn begin_transaction(&mut self)
        ensures
            final(self).events() == old(self).events().push(BusEvent::Start),
    ;

    /// Releases chip select, closing the transaction.
    fn end_transaction(&mut self)
        ensures
            final(self).events() == old(self).events().push(BusEvent::End),
    ;
}

/// A blocking delay. `sleeps` records each requested duration, in
/// microseconds; a failed sleep records nothing.
pub trait DelaySource: Sized {
    /// The delay capability's own failure value; the driver wraps it unread.
    type DelayError;

    /// Every sleep this delay has performed so far, in request order. The
    /// default stands for implementations outside the verifier's reach,
    /// about which nothing is known; verified implementations override it.
    open spec fn sleeps(&self) -> Seq<u32> {
        Seq::empty()
    }

    /// Blocks for `us` microseconds.
    fn delay_us(&mut self, us: u32) -> (r: Result<(), Self::DelayError>)
        ensures
            r is Ok ==> final(self).sleeps() == old(self).sleeps().push(us),
            r is Err ==> final(self).sleeps() == old(self).sleeps(),
    ;
}

/// A driver failure: the bus could not complete a transfer, or the delay
/// capability could not sleep. The collaborator's failure value is carried
/// opaquely. `PollLimitReached` is produced by the driver alone, and only
/// when it was constructed with a bounded retry policy and a polling loop
/// exhausted its poll limit.
#[derive(Copy, Clone, Debug)]
pub enum Error<SPI, Delay> {
    Spi(SPI),
    Delay(Delay),
    PollLimitReached,
}

} // verus!
