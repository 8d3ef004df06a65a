use vstd::prelude::*;

verus! {

/// A generation counter: it starts at zero, can be told apart from other
/// values of its type, and reports when one more step would overflow it.
pub trait EpochResetArrayCounter: Copy + Sized {
    /// The number that this counter value stands for.
    spec fn counter_nat(&self) -> nat;

    /// The largest number that the counter type can hold.
    spec fn counter_max() -> nat;

    /// The counter value zero.
    fn zero() -> (r: Self)
        ensures
            r.counter_nat() == 0,
    ;

    /// The next counter value, or `None` where `self` is already the largest.
    fn checked_increment(&self) -> (r: Option<Self>)
        ensures
            r is None <==> self.counter_nat() == Self::counter_max(),
            r matches Some(n) ==> n.counter_nat() == self.counter_nat() + 1,
    ;

    /// Whether two counter values are the same.
    fn same_counter(&self, other: &Self) -> (r: bool)
        ensures
            r == (*self == *other),
    ;

    /// No counter value exceeds the largest.
    proof fn lemma_counter_bounded(&self)
        ensures
            self.counter_nat() <= Self::counter_max(),
    ;
}

/// Relies on `num_traits::CheckedAdd::checked_add` for `u8`: the sum, or
/// `None` where it exceeds `u8::MAX`.
#[verifier::external_body]
fn checked_add_u8(a: &u8, b: &u8) -> (r: Option<u8>)
    ensures
        r == (if *a + *b <= u8::MAX { Some((*a + *b) as u8) } else { None::<u8> }),
{
    num_traits::CheckedAdd::checked_add(a, b)
}

impl EpochResetArrayCounter for u8 {
    open spec fn counter_nat(&self) -> nat {
        *self as nat
    }

    open spec fn counter_max() -> nat {
        u8::MAX as nat
    }

    fn zero() -> (r: Self) {
        0
    }

    fn checked_increment(&self) -> (r: Option<Self>) {
        checked_add_u8(self, &1)
    }

    fn same_counter(&self, other: &Self) -> (r: bool) {
        *self == *other
    }

    proof fn lemma_counter_bounded(&self) {
    }
}

/// Relies on `num_traits::CheckedAdd::checked_add` for `u16`: the sum, or
/// `None` where it exceeds `u16::MAX`.
#[verifier::external_body]
fn checked_add_u16(a: &u16, b: &u16) -> (r: Option<u16>)
    ensures
        r == (if *a + *b <= u16::MAX { Some((*a + *b) as u16) } else { None::<u16> }),
{
    num_traits::CheckedAdd::checked_add(a, b)
}

impl EpochResetArrayCounter for u16 {
    open spec fn counter_nat(&self) -> nat {
        *self as nat
    }

    open spec fn counter_max() -> nat {
        u16::MAX as nat
    }

    fn zero() -> (r: Self) {
        0
    }

    fn checked_increment(&self) -> (r: Option<Self>) {
        checked_add_u16(self, &1)
    }

    fn same_counter(&self, other: &Self) -> (r: bool) {
        *self == *other
    }

    proof fn lemma_counter_bounded(&self) {
    }
}

/// Relies on `num_traits::CheckedAdd::checked_add` for `u32`: the sum, or
/// `None` where it exceeds `u32::MAX`.
#[verifier::external_body]
fn checked_add_u32(a: &u32, b: &u32) -> (r: Option<u32>)
    ensures
        r == (if *a + *b <= u32::MAX { Some((*a + *b) as u32) } else { None::<u32> }),
{
    num_traits::CheckedAdd::checked_add(a, b)
}

impl EpochResetArrayCounter for u32 {
    open spec fn counter_nat(&self) -> nat {
        *self as nat
    }

    open spec fn counter_max() -> nat {
        u32::MAX as nat
    }

    fn zero() -> (r: Self) {
        0
    }

    fn checked_increment(&self) -> (r: Option<Self>) {
        checked_add_u32(self, &1)
    }

    fn same_counter(&self, other: &Self) -> (r: bool) {
        *self == *other
    }

    proof fn lemma_counter_bounded(&self) {
    }
}

/// Relies on `num_traits::CheckedAdd::checked_add` for `u64`: the sum, or
/// `None` where it exceeds `u64::MAX`.
#[verifier::external_body]
fn checked_add_u64(a: &u64, b: &u64) -> (r: Option<u64>)
    ensures
        r == (if *a + *b <= u64::MAX { Some((*a + *b) as u64) } else { None::<u64> }),
{
    num_traits::CheckedAdd::checked_add(a, b)
}

impl EpochResetArrayCounter for u64 {
    open spec fn counter_nat(&self) -> nat {
        *self as nat
    }

    open spec fn counter_max() -> nat {
        u64::MAX as nat
    }

    fn zero() -> (r: Self) {
        0
    }

    fn checked_increment(&self) -> (r: Option<Self>) {
        checked_add_u64(self, &1)
    }

    fn same_counter(&self, other: &Self) -> (r: bool) {
        *self == *other
    }

    proof fn lemma_counter_bounded(&self) {
    }
}

/// Relies on `num_traits::CheckedAdd::checked_add` for `usize`: the sum, or
/// `None` where it exceeds `usize::MAX`.
#[verifier::external_body]
fn checked_add_usize(a: &usize, b: &usize) -> (r: Option<usize>)
    ensures
        r == (if *a + *b <= usize::MAX { Some((*a + *b) as usize) } else { None::<usize> }),
{
    num_traits::CheckedAdd::checked_add(a, b)
}

impl EpochResetArrayCounter for usize {
    open spec fn counter_nat(&self) -> nat {
        *self as nat
    }

    open spec fn counter_max() -> nat {
        usize::MAX as nat
    }

    fn zero() -> (r: Self) {
        0
    }

    fn checked_increment(&self) -> (r: Option<Self>) {
        checked_add_usize(self, &1)
    }

    fn same_counter(&self, other: &Self) -> (r: bool) {
        *self == *other
    }

    proof fn lemma_counter_bounded(&self) {
    }
}

} // verus!
