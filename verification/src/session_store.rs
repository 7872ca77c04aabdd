use std::collections::HashMap;
use vstd::prelude::*;

use crate::bits::{bv_bits, DecodedBits, MAX_DECODED_BITS};
use crate::decoder::{same_decode, DelayDecoder};
use crate::session::{DelaySession, Signal};

verus! {

broadcast use vstd::std_specs::hash::group_hash_axioms;

/// The keyed registry of open decoding windows: each key holds at most one
/// open session, every signal for a key goes to that key's session alone, and
/// each window that closes publishes its `(key, bits)` pair in completion
/// order.
///
/// This is the engine's decision core. It is driven one event at a time:
/// `push_signal` for an arriving signal, `fire_timeout` when a key's idle
/// deadline elapses. The surrounding channels, timers and tasks that feed it
/// those events live outside it.
pub struct DelaySessionStore<D> {
    pub timeout_duration: u64,
    pub sessions: HashMap<u64, DelaySession<D>>,
    pub results: Vec<(u64, DecodedBits)>,
}

impl<D: DelayDecoder> DelaySessionStore<D> {
    pub open spec fn sessions_map(&self) -> Map<u64, DelaySession<D>> {
        self.sessions@
    }

    pub open spec fn results_seq(&self) -> Seq<(u64, DecodedBits)> {
        self.results@
    }

    /// Every session the map holds is open and well-formed: a key is never
    /// left pointing at a finished window, and no key holds two windows.
    pub open spec fn wf(&self) -> bool {
        forall|k: u64| #[trigger]
            self.sessions@.contains_key(k) ==> self.sessions@[k] is Open && self.sessions@[k].wf()
    }

    /// What a signal for `key` at `instant` may assume of the store: the
    /// deadline it will carry must be representable, and if the key has an
    /// open session the instant must not run backwards past the session's
    /// last accepted signal, nor its decoder be at capacity.
    pub open spec fn accepts_signal(&self, key: u64, instant: u64) -> bool {
        &&& instant + self.timeout_duration <= u64::MAX
        &&& self.sessions@.contains_key(key) ==> {
            &&& instant >= self.sessions@[key].last_of()
            &&& self.sessions@[key].decoder_of().durations().len() < MAX_DECODED_BITS
        }
    }

    /// Routes one signal to its key's session, under the uniform idle
    /// timeout.
    ///
    /// A key with no open session gets a fresh one starting at `instant`. A
    /// signal before the open session's deadline is accepted into it. A
    /// signal at or past the deadline closes that window, publishes its bits,
    /// and opens the next generation seeded with this very signal — the
    /// signal contributes a delay to neither window and is not lost.
    ///
    /// `fresh_decoder` is the factory's product for this call; it is used
    /// only when a new window opens here, and dropped otherwise.
    ///
    /// Every key other than `key` keeps its session untouched: no signal for
    /// one key ever reaches another key's decoder.
    pub fn push_signal(&mut self, key: u64, instant: u64, fresh_decoder: D)
        requires
            old(self).wf(),
            old(self).accepts_signal(key, instant),
            fresh_decoder.wf(),
            fresh_decoder.durations() == Seq::<u64>::empty(),
        ensures
            final(self).wf(),
            final(self).timeout_duration == old(self).timeout_duration,
            final(self).sessions@.dom() == old(self).sessions@.dom().insert(key),
            forall|k: u64|
                #![trigger final(self).sessions@[k]]
                #![trigger old(self).sessions@[k]]
                k != key && old(self).sessions@.contains_key(k) ==> final(self).sessions@[k]
                    == old(self).sessions@[k],
            final(self).sessions@[key] is Open,
            ({
                let deadline = (instant + old(self).timeout_duration) as u64;
                let was = old(self).sessions@;
                if !was.contains_key(key) {
                    // A fresh chain for this key.
                    &&& final(self).sessions@[key].decoder_of() == fresh_decoder
                    &&& final(self).sessions@[key].last_of() == instant
                    &&& final(self).sessions@[key].deadline_of() == deadline
                    &&& final(self).results@ == old(self).results@
                } else if instant < was[key].deadline_of() {
                    // Accepted: the delay since the last signal is decoded.
                    &&& final(self).sessions@[key].decoder_of().durations() == was[key].decoder_of()
                        .durations().push((instant - was[key].last_of()) as u64)
                    &&& same_decode(final(self).sessions@[key].decoder_of(), was[key].decoder_of())
                    &&& final(self).sessions@[key].last_of() == instant
                    &&& final(self).sessions@[key].deadline_of() == deadline
                    &&& final(self).results@ == old(self).results@
                } else {
                    // Late arrival: the old window closes and publishes, and
                    // this signal alone seeds the next generation.
                    &&& final(self).sessions@[key].decoder_of() == fresh_decoder
                    &&& final(self).sessions@[key].last_of() == instant
                    &&& final(self).sessions@[key].deadline_of() == deadline
                    &&& final(self).results@.len() == old(self).results@.len() + 1
                    &&& final(self).results@.drop_last() == old(self).results@
                    &&& final(self).results@.last().0 == key
                    &&& bv_bits(final(self).results@.last().1) == was[key].decoded_now()
                }
            }),
    {
        let timeout_instant = instant + self.timeout_duration;
        match self.sessions.remove(&key) {
            None => {
                let session = DelaySession::new(fresh_decoder, instant, timeout_instant);
                self.sessions.insert(key, session);
                proof {
                    assert(self.sessions@.dom() =~= old(self).sessions@.dom().insert(key));
                }
            },
            Some(session) => {
                let (next, closed) = session.handle_signal(Signal { instant, timeout_instant });
                match closed {
                    None => {
                        self.sessions.insert(key, next);
                    },
                    Some(bits) => {
                        self.results.push((key, bits));
                        let seeded = DelaySession::start_with_seed(
                            fresh_decoder,
                            Some(Signal { instant, timeout_instant }),
                        );
                        self.sessions.insert(key, seeded);
                        proof {
                            assert(self.results@.drop_last() =~= old(self).results@);
                        }
                    },
                }
                proof {
                    assert(self.sessions@.dom() =~= old(self).sessions@.dom().insert(key));
                }
            },
        }
    }

    /// Ends `key`'s window because its idle deadline elapsed: the window's
    /// bits are published and the key is removed, ending the chain until a
    /// later signal starts it afresh. A key with no open window is left
    /// alone, and `false` says so.
    pub fn fire_timeout(&mut self, key: u64) -> (r: bool)
        requires
            old(self).wf(),
        ensures
            final(self).wf(),
            final(self).timeout_duration == old(self).timeout_duration,
            r == old(self).sessions@.contains_key(key),
            final(self).sessions@ == old(self).sessions@.remove(key),
            if r {
                &&& final(self).results@.len() == old(self).results@.len() + 1
                &&& final(self).results@.drop_last() == old(self).results@
                &&& final(self).results@.last().0 == key
                &&& bv_bits(final(self).results@.last().1) == old(self).sessions@[key].decoded_now()
            } else {
                final(self).results@ == old(self).results@
            },
    {
        match self.sessions.remove(&key) {
            None => {
                proof {
                    assert(self.sessions@ =~= old(self).sessions@.remove(key));
                }
                false
            },
            Some(session) => {
                let bits = session.close();
                self.results.push((key, bits));
                proof {
                    assert(self.results@.drop_last() =~= old(self).results@);
                }
                true
            },
        }
    }
}

/// Builds an empty registry with the uniform idle timeout every key and every
/// generation will use.
pub fn delay_session_store<D: DelayDecoder>(timeout_duration: u64) -> (r: DelaySessionStore<D>)
    ensures
        r.wf(),
        r.timeout_duration == timeout_duration,
        r.sessions@ == Map::<u64, DelaySession<D>>::empty(),
        r.results@ == Seq::<(u64, DecodedBits)>::empty(),
{
    DelaySessionStore { timeout_duration, sessions: HashMap::new(), results: Vec::new() }
}

} // verus!
