//! A fixed-length array whose every slot can be returned to a default value
//! in constant amortized time, by advancing a generation counter instead of
//! rewriting the slots.

mod array;
mod counter;
mod index;
mod laws;

pub use array::{EpochResetArray, EpochResetArrayValue};
pub use counter::EpochResetArrayCounter;
pub use index::EpochResetArrayIndex;
pub use laws::{
    lemma_reset_repeatable, lemma_set_after_reset_absent, lemma_set_returns_previous,
    lemma_slots_independent,
};
