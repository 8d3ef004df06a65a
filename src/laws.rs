use vstd::prelude::*;

use crate::array::{EpochResetArray, EpochResetArrayValue};
use crate::counter::EpochResetArrayCounter;
use crate::index::EpochResetArrayIndex;

verus! {

/// Resetting an array that was just reset changes nothing that a read can
/// see: `mid` is what `reset` leaves of `before`, and `after` what it leaves
/// of `mid`.
pub proof fn lemma_reset_repeatable<I, V, C>(
    before: EpochResetArray<I, V, C>,
    mid: EpochResetArray<I, V, C>,
    after: EpochResetArray<I, V, C>,
) where I: EpochResetArrayIndex, V: EpochResetArrayValue, C: EpochResetArrayCounter
    requires
        mid@.len() == before@.len(),
        forall|i: int| 0 <= i < mid@.len() ==> mid@[i] == before.default_value(),
        mid.default_value() == before.default_value(),
        after@.len() == mid@.len(),
        forall|i: int| 0 <= i < after@.len() ==> after@[i] == mid.default_value(),
    ensures
        after@ == mid@,
{
    assert(after@ =~= mid@);
}

/// Two writes to one slot with no reset between them: the second returns the
/// value of the first. `mid` is what `set(i, v1)` leaves of `before`, and
/// `r2` what `set(i, v2)` returns on `mid`.
pub proof fn lemma_set_returns_previous<I, V, C>(
    before: EpochResetArray<I, V, C>,
    mid: EpochResetArray<I, V, C>,
    i: int,
    v1: V,
    r2: Option<V>,
) where I: EpochResetArrayIndex, V: EpochResetArrayValue, C: EpochResetArrayCounter
    requires
        0 <= i < before@.len(),
        mid@ == before@.update(i, v1),
        mid.live(i),
        r2 == (if mid.live(i) {
            Some(mid@[i])
        } else {
            None::<V>
        }),
    ensures
        r2 == Some(v1),
{
}

/// A write right after a reset that did not wrap the epoch counter returns
/// `None`: `after` is what `reset` leaves of `before`, and `r` what
/// `set(i, v)` returns on `after`.
pub proof fn lemma_set_after_reset_absent<I, V, C>(
    before: EpochResetArray<I, V, C>,
    after: EpochResetArray<I, V, C>,
    i: int,
    r: Option<V>,
) where I: EpochResetArrayIndex, V: EpochResetArrayValue, C: EpochResetArrayCounter
    requires
        0 <= i < after@.len(),
        before.epoch() < C::counter_max(),
        before.epoch() < C::counter_max() ==> forall|j: int|
            0 <= j < after@.len() ==> !after.live(j),
        r == (if after.live(i) {
            Some(after@[i])
        } else {
            None::<V>
        }),
    ensures
        r is None,
{
}

/// A write to one slot leaves every other slot reading as before: `after` is
/// what `set(i, v)` leaves of `before`.
pub proof fn lemma_slots_independent<I, V, C>(
    before: EpochResetArray<I, V, C>,
    after: EpochResetArray<I, V, C>,
    i: int,
    j: int,
    v: V,
) where I: EpochResetArrayIndex, V: EpochResetArrayValue, C: EpochResetArrayCounter
    requires
        0 <= i < before@.len(),
        0 <= j < before@.len(),
        j != i,
        after@ == before@.update(i, v),
    ensures
        after@[j] == before@[j],
        after@[i] == v,
{
}

} // verus!
