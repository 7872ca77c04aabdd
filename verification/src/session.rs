use vstd::prelude::*;

use crate::bits::{bv_bits, DecodedBits, MAX_DECODED_BITS};
use crate::decoder::{same_decode, DelayDecoder};

verus! {

/// One timed event on a channel: the instant it occurred and the deadline the
/// receiving session should adopt if it accepts the event.
///
/// Instants are nanoseconds relative to an epoch chosen by the caller; all
/// instants handed to one session chain must share that epoch.
#[derive(Clone, Copy, PartialEq, Eq, Structural, Hash, Debug)]
pub struct Signal {
    pub instant: u64,
    pub timeout_instant: u64,
}

/// A single decoding window for one channel: open, it holds the decoder, the
/// instant of the last accepted signal and the deadline at which it will
/// close; closed, it is finished for good and may only be discarded.
pub enum DelaySession<D> {
    Open { decoder: D, last_signal_instant: u64, timeout_instant: u64 },
    Closed,
}

impl<D: DelayDecoder> DelaySession<D> {
    pub open spec fn is_open_spec(self) -> bool {
        self is Open
    }

    /// The decoder owned by an open session.
    pub open spec fn decoder_of(self) -> D
        recommends
            self is Open,
    {
        match self {
            DelaySession::Open { decoder, .. } => decoder,
            DelaySession::Closed => vstd::pervasive::arbitrary(),
        }
    }

    /// The instant of the last signal an open session accepted.
    pub open spec fn last_of(self) -> u64
        recommends
            self is Open,
    {
        match self {
            DelaySession::Open { last_signal_instant, .. } => last_signal_instant,
            DelaySession::Closed => vstd::pervasive::arbitrary(),
        }
    }

    /// The deadline at which an open session will close if left idle.
    pub open spec fn deadline_of(self) -> u64
        recommends
            self is Open,
    {
        match self {
            DelaySession::Open { timeout_instant, .. } => timeout_instant,
            DelaySession::Closed => vstd::pervasive::arbitrary(),
        }
    }

    pub open spec fn wf(self) -> bool {
        self is Open ==> self.decoder_of().wf()
    }

    /// The bit sequence an open session would publish if it closed now.
    pub open spec fn decoded_now(self) -> Seq<bool>
        recommends
            self is Open,
    {
        self.decoder_of().decode_spec(self.decoder_of().durations())
    }

    /// Opens a session at `start_instant` with deadline `timeout_instant`.
    pub fn new(decoder: D, start_instant: u64, timeout_instant: u64) -> (r: Self)
        ensures
            r is Open,
            r.decoder_of() == decoder,
            r.last_of() == start_instant,
            r.deadline_of() == timeout_instant,
    {
        DelaySession::Open { decoder, last_signal_instant: start_instant, timeout_instant }
    }

    /// Opens the next generation from a pending signal, if there is one: the
    /// signal is the new window's starting point and deadline, and is not fed
    /// to the decoder, there being no prior instant to measure from. With no
    /// pending signal the session begins closed.
    pub fn start_with_seed(decoder: D, seed: Option<Signal>) -> (r: Self)
        ensures
            match seed {
                Some(signal) => {
                    &&& r is Open
                    &&& r.decoder_of() == decoder
                    &&& r.last_of() == signal.instant
                    &&& r.deadline_of() == signal.timeout_instant
                },
                None => r is Closed,
            },
    {
        match seed {
            Some(signal) => DelaySession::Open {
                decoder,
                last_signal_instant: signal.instant,
                timeout_instant: signal.timeout_instant,
            },
            None => DelaySession::Closed,
        }
    }

    pub fn is_open(&self) -> (r: bool)
        ensures
            r == self.is_open_spec(),
    {
        match self {
            DelaySession::Open { .. } => true,
            DelaySession::Closed => false,
        }
    }

    /// Delivers one signal to an open session.
    ///
    /// A signal before the deadline is accepted: the delay since the last
    /// accepted signal goes to the decoder, and the signal's instant and
    /// deadline become the session's. A signal at or past the deadline closes
    /// the window at once without touching the decoder, and comes back out as
    /// `r.1` so the caller can seed the next generation with it: it neither
    /// contributes a delay to the closing window nor is lost.
    pub fn handle_signal(self, signal: Signal) -> (r: (Self, Option<DecodedBits>))
        requires
            self is Open,
            self.wf(),
            self.decoder_of().durations().len() < MAX_DECODED_BITS,
            signal.instant >= self.last_of(),
        ensures
            signal.instant < self.deadline_of() ==> {
                &&& r.0 is Open
                &&& r.0.wf()
                &&& r.0.decoder_of().durations() == self.decoder_of().durations().push(
                    (signal.instant - self.last_of()) as u64,
                )
                &&& same_decode(r.0.decoder_of(), self.decoder_of())
                &&& r.0.last_of() == signal.instant
                &&& r.0.deadline_of() == signal.timeout_instant
                &&& r.1 is None
            },
            signal.instant >= self.deadline_of() ==> {
                &&& r.0 is Closed
                &&& r.1 matches Some(bits) && bv_bits(bits) == self.decoded_now()
            },
    {
        match self {
            DelaySession::Open { mut decoder, last_signal_instant, timeout_instant } => {
                if signal.instant >= timeout_instant {
                    let bits = decoder.close();
                    (DelaySession::Closed, Some(bits))
                } else {
                    decoder.push_duration(signal.instant - last_signal_instant);
                    (
                        DelaySession::Open {
                            decoder,
                            last_signal_instant: signal.instant,
                            timeout_instant: signal.timeout_instant,
                        },
                        None,
                    )
                }
            },
            DelaySession::Closed => vstd::pervasive::unreached(),
        }
    }

    /// Closes an open session: the deadline elapsed, or the sending side of
    /// its channel is gone. The decoder is consumed and yields the window's
    /// bit sequence. Driving a session that is already closed is a caller
    /// bug, ruled out here by precondition and answered with an abort in
    /// unverified callers.
    pub fn close(self) -> (r: DecodedBits)
        requires
            self is Open,
            self.wf(),
        ensures
            bv_bits(r) == self.decoded_now(),
    {
        match self {
            DelaySession::Open { decoder, .. } => decoder.close(),
            DelaySession::Closed => vstd::pervasive::unreached(),
        }
    }
}

} // verus!
