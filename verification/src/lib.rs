mod bits;
mod decoder;
mod session;
mod session_store;

pub use bits::{bv_bits, DecodedBits, MAX_DECODED_BITS};
pub use decoder::{
    average_decoded, lemma_average_decoded_pointwise, lemma_threshold_decoded_pointwise, mean_of,
    same_decode, sum_of, threshold_decoded, AverageDelayDecoder, DelayDecoder,
    ThresholdDelayDecoder,
};
pub use session::{DelaySession, Signal};
pub use session_store::{delay_session_store, DelaySessionStore};
