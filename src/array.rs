use vstd::prelude::*;

use crate::counter::EpochResetArrayCounter;
use crate::index::EpochResetArrayIndex;
use core::marker::PhantomData;

verus! {

/// A type that the array can store: slots are filled with copies of the
/// reset value.
pub trait EpochResetArrayValue: Copy {}

impl<T: Copy> EpochResetArrayValue for T {}

/// A fixed-length array whose slots can all be returned to a reset value at
/// once. Each slot carries the epoch in which it was last written; a slot
/// whose epoch is not the current one reads as the reset value.
pub struct EpochResetArray<Index, Value, EpochCounter> {
    array: Vec<EpochValue<Value, EpochCounter>>,
    reset_value: Value,
    epoch_counter: EpochCounter,
    phantom_data: PhantomData<Index>,
}

/// One slot: the value last stored and the epoch it was stored in.
#[derive(Clone, Copy)]
struct EpochValue<Value, EpochCounter> {
    value: Value,
    epoch_counter: EpochCounter,
}

impl<Value, EpochCounter> EpochValue<Value, EpochCounter> {
    /// A slot holding `value`, written in epoch `epoch_counter`.
    fn new(value: Value, epoch_counter: EpochCounter) -> (r: Self)
        ensures
            r.value == value,
            r.epoch_counter == epoch_counter,
    {
        Self { value, epoch_counter }
    }
}

/// The position in the slot vector that `index` addresses.
fn index_to_usize<Index: EpochResetArrayIndex>(index: Index) -> (r: usize)
    requires
        0 <= index.index_int() <= usize::MAX,
    ensures
        r as int == index.index_int(),
{
    index.to_usize()
}

/// The index value that addresses position `index`.
fn usize_to_index<Index: EpochResetArrayIndex>(index: usize) -> (r: Index)
    requires
        Index::holds_int(index as int),
    ensures
        r.index_int() == index as int,
{
    Index::from_usize(index)
}

impl<
    Index: EpochResetArrayIndex,
    Value: EpochResetArrayValue,
    EpochCounter: EpochResetArrayCounter,
> View for EpochResetArray<Index, Value, EpochCounter> {
    type V = Seq<Value>;

    /// What each slot reads as: its stored value where it was written in the
    /// current epoch, the reset value otherwise.
    closed spec fn view(&self) -> Seq<Value> {
        Seq::new(
            self.array@.len(),
            |i: int|
                if self.array@[i].epoch_counter == self.epoch_counter {
                    self.array@[i].value
                } else {
                    self.reset_value
                },
        )
    }
}

impl<
    Index: EpochResetArrayIndex,
    Value: EpochResetArrayValue,
    EpochCounter: EpochResetArrayCounter,
> EpochResetArray<Index, Value, EpochCounter> {
    /// The value that every slot reads as after a reset.
    pub closed spec fn default_value(&self) -> Value {
        self.reset_value
    }

    /// The current epoch.
    pub closed spec fn epoch(&self) -> nat {
        self.epoch_counter.counter_nat()
    }

    /// Whether slot `i` was written in the current epoch, so that its stored
    /// value is the one it reads as.
    pub closed spec fn live(&self, i: int) -> bool {
        self.array@[i].epoch_counter == self.epoch_counter
    }

    /// No slot carries an epoch later than the current one, and the length
    /// can be expressed both as a `usize` and in the index type.
    pub closed spec fn wf(&self) -> bool {
        &&& self.array@.len() <= usize::MAX
        &&& Index::holds_int(self.array@.len() as int)
        &&& forall|i: int|
            0 <= i < self.array@.len() ==> (#[trigger] self.array@[i]).epoch_counter.counter_nat()
                <= self.epoch_counter.counter_nat()
    }

    /// An array of `len` slots, each reading as `reset_value`.
    pub fn new(reset_value: Value, len: Index) -> (r: Self)
        requires
            0 <= len.index_int() <= usize::MAX,
        ensures
            r.wf(),
            r@.len() == len.index_int(),
            forall|i: int| 0 <= i < r@.len() ==> r@[i] == reset_value,
            forall|i: int| 0 <= i < r@.len() ==> r.live(i),
            r.default_value() == reset_value,
            r.epoch() == 0,
    {
        let n = index_to_usize(len);
        let zero = EpochCounter::zero();
        let mut array: Vec<EpochValue<Value, EpochCounter>> = Vec::new();
        let mut k: usize = 0;
        while k < n
            invariant
                k <= n,
                n as int == len.index_int(),
                array@.len() == k,
                forall|j: int|
                    0 <= j < k ==> (#[trigger] array@[j]) == (EpochValue {
                        value: reset_value,
                        epoch_counter: zero,
                    }),
            decreases n - k,
        {
            array.push(EpochValue::new(reset_value, zero));
            k += 1;
        }
        proof {
            len.lemma_index_held();
        }
        let r = Self { array, reset_value, epoch_counter: zero, phantom_data: PhantomData };
        assert forall|i: int| 0 <= i < r@.len() implies r@[i] == reset_value && r.live(i) by {
            assert(r.array@[i] == (EpochValue { value: reset_value, epoch_counter: zero }));
        }
        r
    }

    /// The number of slots.
    pub fn len_usize(&self) -> (r: usize)
        ensures
            r == self@.len(),
    {
        self.array.len()
    }

    /// The number of slots, as an index value.
    pub fn len_index(&self) -> (r: Index)
        requires
            self.wf(),
        ensures
            r.index_int() == self@.len(),
    {
        usize_to_index(self.array.len())
    }

    /// Whether the array has no slots.
    pub fn is_empty(&self) -> (r: bool)
        ensures
            r == (self@.len() == 0),
    {
        self.array.len() == 0
    }

    /// What slot `index` reads as.
    pub fn get(&self, index: Index) -> (r: &Value)
        requires
            self.wf(),
            0 <= index.index_int() < self@.len(),
        ensures
            *r == self@[index.index_int()],
    {
        let i = index_to_usize(index);
        let epoch_value = &self.array[i];
        if epoch_value.epoch_counter.same_counter(&self.epoch_counter) {
            &epoch_value.value
        } else {
            &self.reset_value
        }
    }

    /// A mutable reference to what slot `index` reads as. A slot not written
    /// since the last reset is first rewritten with the reset value in the
    /// current epoch, so that changes through the reference start from it.
    pub fn get_mut(&mut self, index: Index) -> (r: &mut Value)
        requires
            old(self).wf(),
            0 <= index.index_int() < old(self)@.len(),
        ensures
            *r == old(self)@[index.index_int()],
            final(self).wf(),
            final(self)@ == old(self)@.update(index.index_int(), *final(r)),
            final(self).live(index.index_int()),
            forall|j: int|
                0 <= j < old(self)@.len() && j != index.index_int() ==> final(self).live(j)
                    == old(self).live(j),
            final(self).default_value() == old(self).default_value(),
            final(self).epoch() == old(self).epoch(),
    {
        let i = index_to_usize(index);
        let current = self.epoch_counter;
        let reset_value = self.reset_value;
        let epoch_value = &mut self.array[i];
        if !epoch_value.epoch_counter.same_counter(&current) {
            *epoch_value = EpochValue::new(reset_value, current);
        }
        &mut epoch_value.value
    }

    /// Stores `value` in slot `index`. Returns the value the slot held if it
    /// had been written since the last reset, and `None` if it had not: the
    /// result tells whether the slot was live, and a slot that read as the
    /// reset value without being written gives `None`.
    pub fn set(&mut self, index: Index, value: Value) -> (r: Option<Value>)
        requires
            old(self).wf(),
            0 <= index.index_int() < old(self)@.len(),
        ensures
            final(self).wf(),
            final(self)@ == old(self)@.update(index.index_int(), value),
            final(self)@[index.index_int()] == value,
            forall|j: int|
                0 <= j < old(self)@.len() && j != index.index_int() ==> final(self)@[j]
                    == old(self)@[j],
            r == (if old(self).live(index.index_int()) {
                Some(old(self)@[index.index_int()])
            } else {
                None::<Value>
            }),
            final(self).live(index.index_int()),
            forall|j: int|
                0 <= j < old(self)@.len() && j != index.index_int() ==> final(self).live(j)
                    == old(self).live(j),
            final(self).default_value() == old(self).default_value(),
            final(self).epoch() == old(self).epoch(),
    {
        let i = index_to_usize(index);
        let current = self.epoch_counter;
        let previous = self.array[i];
        if previous.epoch_counter.same_counter(&current) {
            self.array.set(i, EpochValue::new(value, current));
            assert(final(self)@ =~= old(self)@.update(i as int, value));
            Some(previous.value)
        } else {
            self.array.set(i, EpochValue::new(value, current));
            assert(final(self)@ =~= old(self)@.update(i as int, value));
            None
        }
    }

    /// Returns every slot to the reset value. The epoch advances by one; where
    /// it is already the largest the counter can hold, every slot is
    /// rewritten with the reset value and the epoch starts again from zero.
    pub fn reset(&mut self)
        requires
            old(self).wf(),
        ensures
            final(self).wf(),
            final(self)@.len() == old(self)@.len(),
            forall|i: int| 0 <= i < final(self)@.len() ==> final(self)@[i] == old(self).default_value(),
            final(self).default_value() == old(self).default_value(),
            final(self).epoch() == (if old(self).epoch() == EpochCounter::counter_max() {
                0
            } else {
                old(self).epoch() + 1
            }),
            old(self).epoch() < EpochCounter::counter_max() ==> forall|i: int|
                0 <= i < final(self)@.len() ==> !final(self).live(i),
            old(self).epoch() == EpochCounter::counter_max() ==> forall|i: int|
                0 <= i < final(self)@.len() ==> final(self).live(i),
    {
        match self.epoch_counter.checked_increment() {
            Some(next) => {
                self.epoch_counter = next;
            },
            None => {
                let zero = EpochCounter::zero();
                let n = self.array.len();
                let mut k: usize = 0;
                while k < n
                    invariant
                        k <= n,
                        n == self.array@.len(),
                        self.reset_value == old(self).reset_value,
                        self.epoch_counter == old(self).epoch_counter,
                        self.array@.len() == old(self).array@.len(),
                        Index::holds_int(n as int),
                        forall|j: int|
                            0 <= j < k ==> (#[trigger] self.array@[j]) == (EpochValue {
                                value: self.reset_value,
                                epoch_counter: zero,
                            }),
                    decreases n - k,
                {
                    self.array.set(k, EpochValue::new(self.reset_value, zero));
                    k += 1;
                }
                self.epoch_counter = zero;
            },
        }
        proof {
            old(self).epoch_counter.lemma_counter_bounded();
        }
    }
}

impl<
    Index: EpochResetArrayIndex,
    Value: EpochResetArrayValue,
    EpochCounter: EpochResetArrayCounter,
> Clone for EpochResetArray<Index, Value, EpochCounter> {
    /// A copy of every slot, of the reset value and of the epoch.
    fn clone(&self) -> (r: Self)
        ensures
            r@ == self@,
            r.wf() == self.wf(),
            r.default_value() == self.default_value(),
            r.epoch() == self.epoch(),
            forall|i: int| 0 <= i < self@.len() ==> r.live(i) == self.live(i),
    {
        let n = self.array.len();
        let mut array: Vec<EpochValue<Value, EpochCounter>> = Vec::new();
        let mut k: usize = 0;
        while k < n
            invariant
                k <= n,
                n == self.array@.len(),
                array@ == self.array@.subrange(0, k as int),
            decreases n - k,
        {
            array.push(self.array[k]);
            k += 1;
            assert(array@ =~= self.array@.subrange(0, k as int));
        }
        assert(array@ =~= self.array@);
        let r = Self {
            array,
            reset_value: self.reset_value,
            epoch_counter: self.epoch_counter,
            phantom_data: PhantomData,
        };
        assert(r@ =~= self@);
        r
    }
}

} // verus!
