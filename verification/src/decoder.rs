use vstd::prelude::*;

use crate::bits::{bv_bits, DecodedBits, MAX_DECODED_BITS};

verus! {

/// A strategy that accumulates inter-arrival delays (in nanoseconds) and, on
/// close, turns them into a finite bit sequence.
///
/// `durations()` is the sequence of delays pushed so far. `decode_spec(s)` is
/// the bit sequence this decoder's fixed configuration makes of a full delay
/// sequence `s`; pushing a delay extends `durations()` and leaves
/// `decode_spec` untouched, so `close` always yields
/// `decode_spec(durations())`.
pub trait DelayDecoder: Sized {
    spec fn wf(&self) -> bool;

    spec fn durations(&self) -> Seq<u64>;

    spec fn decode_spec(&self, durations: Seq<u64>) -> Seq<bool>;

    fn push_duration(&mut self, duration: u64)
        requires
            old(self).wf(),
            old(self).durations().len() < MAX_DECODED_BITS,
        ensures
            final(self).wf(),
            final(self).durations() == old(self).durations().push(duration),
            forall|s: Seq<u64>|
                #![trigger final(self).decode_spec(s)]
                #![trigger old(self).decode_spec(s)]
                final(self).decode_spec(s) == old(self).decode_spec(s),
    ;

    fn close(self) -> (r: DecodedBits)
        requires
            self.wf(),
        ensures
            bv_bits(r) == self.decode_spec(self.durations()),
    ;
}

/// Two decoders that make the same bits of every delay sequence: the fixed
/// configuration survived, only the accumulated state moved.
pub open spec fn same_decode<D: DelayDecoder>(a: D, b: D) -> bool {
    forall|s: Seq<u64>|
        #![trigger a.decode_spec(s)]
        #![trigger b.decode_spec(s)]
        a.decode_spec(s) == b.decode_spec(s)
}

/// The bit sequence the threshold strategy produces: one bit per delay,
/// true exactly when the delay reaches the threshold.
pub open spec fn threshold_decoded(durations: Seq<u64>, threshold: u64) -> Seq<bool> {
    durations.map_values(|d: u64| d >= threshold)
}

/// Whatever delays the threshold strategy is fed, it decodes exactly one bit
/// per delay, in order, each true exactly when that delay reaches the
/// threshold.
pub proof fn lemma_threshold_decoded_pointwise(durations: Seq<u64>, threshold: u64)
    ensures
        threshold_decoded(durations, threshold).len() == durations.len(),
        forall|i: int|
            0 <= i < durations.len() ==> threshold_decoded(durations, threshold)[i] == (
            durations[i] >= threshold),
{
}

/// Decodes each delay on arrival: a delay at or above the fixed threshold
/// becomes `true`, a shorter one `false`.
pub struct ThresholdDelayDecoder {
    pub threshold: u64,
    pub bits: DecodedBits,
    pub history: Ghost<Seq<u64>>,
}

impl ThresholdDelayDecoder {
    pub open spec fn threshold_spec(&self) -> u64 {
        self.threshold
    }

    pub fn new(threshold: u64) -> (r: Self)
        ensures
            r.wf(),
            r.durations() == Seq::<u64>::empty(),
            r.threshold_spec() == threshold,
    {
        let r = ThresholdDelayDecoder { threshold, bits: DecodedBits::new(), history: Ghost(Seq::empty()) };
        proof {
            assert(r.history@.map_values(|d: u64| d >= threshold) =~= Seq::<bool>::empty());
        }
        r
    }
}

impl DelayDecoder for ThresholdDelayDecoder {
    open spec fn wf(&self) -> bool {
        bv_bits(self.bits) == threshold_decoded(self.history@, self.threshold)
    }

    open spec fn durations(&self) -> Seq<u64> {
        self.history@
    }

    open spec fn decode_spec(&self, durations: Seq<u64>) -> Seq<bool> {
        threshold_decoded(durations, self.threshold)
    }

    fn push_duration(&mut self, duration: u64) {
        self.bits.push(duration >= self.threshold);
        proof {
            self.history@ = self.history@.push(duration);
            assert(threshold_decoded(self.history@, self.threshold) =~= bv_bits(self.bits));
        }
    }

    fn close(self) -> (r: DecodedBits) {
        self.bits
    }
}

/// The sum of a sequence of delays, as an unbounded integer.
pub open spec fn sum_of(durations: Seq<u64>) -> int
    decreases durations.len(),
{
    if durations.len() == 0 {
        0
    } else {
        sum_of(durations.drop_last()) + durations.last()
    }
}

/// The arithmetic mean of a sequence of delays, truncated toward zero.
pub open spec fn mean_of(durations: Seq<u64>) -> int
    recommends
        durations.len() > 0,
{
    sum_of(durations) / (durations.len() as int)
}

/// The bit sequence the averaging strategy produces: empty below two delays;
/// otherwise one bit per delay, true exactly when the delay reaches the
/// truncated mean of all of them.
pub open spec fn average_decoded(durations: Seq<u64>) -> Seq<bool> {
    if durations.len() < 2 {
        Seq::empty()
    } else {
        durations.map_values(|d: u64| d as int >= mean_of(durations))
    }
}

/// With fewer than two delays the averaging strategy decodes nothing; with
/// two or more it decodes exactly one bit per delay, in push order, each true
/// exactly when that delay reaches the truncated mean of all of them.
pub proof fn lemma_average_decoded_pointwise(durations: Seq<u64>)
    ensures
        durations.len() < 2 ==> average_decoded(durations) == Seq::<bool>::empty(),
        durations.len() >= 2 ==> average_decoded(durations).len() == durations.len(),
        durations.len() >= 2 ==> forall|i: int|
            0 <= i < durations.len() ==> average_decoded(durations)[i] == (durations[i] as int
                >= mean_of(durations)),
{
}

/// Buffers every delay; on close, compares each against the truncated mean of
/// all of them. Fewer than two delays decode to nothing, a single delay
/// having no baseline to compare against.
pub struct AverageDelayDecoder {
    pub durations: Vec<u64>,
}

impl AverageDelayDecoder {
    pub fn new() -> (r: Self)
        ensures
            r.wf(),
            r.durations() == Seq::<u64>::empty(),
    {
        AverageDelayDecoder { durations: Vec::new() }
    }
}

impl Default for AverageDelayDecoder {
    fn default() -> (r: Self)
        ensures
            r.wf(),
            r.durations() == Seq::<u64>::empty(),
    {
        AverageDelayDecoder::new()
    }
}

proof fn lemma_sum_of_nonneg(durations: Seq<u64>)
    ensures
        0 <= sum_of(durations) <= durations.len() * (u64::MAX as int),
    decreases durations.len(),
{
    if durations.len() > 0 {
        lemma_sum_of_nonneg(durations.drop_last());
    }
}

proof fn lemma_sum_of_take_step(durations: Seq<u64>, i: int)
    requires
        0 <= i < durations.len(),
    ensures
        sum_of(durations.take(i + 1)) == sum_of(durations.take(i)) + durations[i],
{
    let pre = durations.take(i + 1);
    assert(pre.drop_last() =~= durations.take(i));
}

impl DelayDecoder for AverageDelayDecoder {
    open spec fn wf(&self) -> bool {
        self.durations@.len() <= MAX_DECODED_BITS
    }

    open spec fn durations(&self) -> Seq<u64> {
        self.durations@
    }

    open spec fn decode_spec(&self, durations: Seq<u64>) -> Seq<bool> {
        average_decoded(durations)
    }

    fn push_duration(&mut self, duration: u64) {
        self.durations.push(duration);
    }

    fn close(self) -> (r: DecodedBits) {
        let ghost all = self.durations@;
        let n: usize = self.durations.len();
        let mut bits = DecodedBits::new();
        if n < 2 {
            proof {
                assert(bv_bits(bits) =~= average_decoded(all));
            }
            return bits;
        }
        let mut sum: u128 = 0;
        let mut i: usize = 0;
        while i < n
            invariant
                n == all.len(),
                2 <= n <= MAX_DECODED_BITS,
                self.durations@ == all,
                i <= n,
                sum == sum_of(all.take(i as int)),
                sum <= (i as int) * (u64::MAX as int),
            decreases n - i,
        {
            proof {
                lemma_sum_of_take_step(all, i as int);
            }
            sum = sum + (self.durations[i] as u128);
            i = i + 1;
        }
        proof {
            assert(all.take(n as int) =~= all);
            vstd::arithmetic::div_mod::lemma_div_is_ordered(
                sum as int,
                (n as int) * (u64::MAX as int),
                n as int,
            );
            vstd::arithmetic::div_mod::lemma_div_multiples_vanish(u64::MAX as int, n as int);
            assert(mean_of(all) <= u64::MAX as int);
            lemma_sum_of_nonneg(all);
        }
        let average: u64 = (sum / (n as u128)) as u64;
        let ghost f = |d: u64| d as int >= mean_of(all);
        let mut j: usize = 0;
        while j < n
            invariant
                n == all.len(),
                2 <= n <= MAX_DECODED_BITS,
                self.durations@ == all,
                j <= n,
                average as int == mean_of(all),
                f == (|d: u64| d as int >= mean_of(all)),
                bv_bits(bits) == all.take(j as int).map_values(f),
            decreases n - j,
        {
            bits.push(self.durations[j] >= average);
            j = j + 1;
            proof {
                assert(all.take(j as int).map_values(f) =~= all.take(j - 1).map_values(f).push(
                    f(all[j - 1]),
                ));
            }
        }
        proof {
            assert(all.take(n as int) =~= all);
            assert(bv_bits(bits) =~= average_decoded(all));
        }
        bits
    }
}

} // verus!
