use vstd::prelude::*;

verus! {

/// A type whose values can address the slots of an array: each value stands
/// for an integer, and conversions to and from `usize` keep that integer.
pub trait EpochResetArrayIndex: Copy + Sized {
    /// The integer that this index value stands for.
    spec fn index_int(&self) -> int;

    /// Whether the type can hold the integer `n`.
    spec fn holds_int(n: int) -> bool;

    /// The index as a `usize`.
    fn to_usize(self) -> (r: usize)
        requires
            0 <= self.index_int() <= usize::MAX,
        ensures
            r as int == self.index_int(),
    ;

    /// The index value that stands for `n`.
    fn from_usize(n: usize) -> (r: Self)
        requires
            Self::holds_int(n as int),
        ensures
            r.index_int() == n as int,
    ;

    /// Every index value stands for an integer that its type can hold.
    proof fn lemma_index_held(&self)
        ensures
            Self::holds_int(self.index_int()),
    ;
}

impl EpochResetArrayIndex for u8 {
    open spec fn index_int(&self) -> int {
        *self as int
    }

    open spec fn holds_int(n: int) -> bool {
        0 <= n <= u8::MAX
    }

    fn to_usize(self) -> (r: usize) {
        self as usize
    }

    proof fn lemma_index_held(&self) {
    }

    fn from_usize(n: usize) -> (r: Self) {
        n as u8
    }
}

impl EpochResetArrayIndex for u16 {
    open spec fn index_int(&self) -> int {
        *self as int
    }

    open spec fn holds_int(n: int) -> bool {
        0 <= n <= u16::MAX
    }

    fn to_usize(self) -> (r: usize) {
        self as usize
    }

    proof fn lemma_index_held(&self) {
    }

    fn from_usize(n: usize) -> (r: Self) {
        n as u16
    }
}

impl EpochResetArrayIndex for u32 {
    open spec fn index_int(&self) -> int {
        *self as int
    }

    open spec fn holds_int(n: int) -> bool {
        0 <= n <= u32::MAX
    }

    fn to_usize(self) -> (r: usize) {
        self as usize
    }

    proof fn lemma_index_held(&self) {
    }

    fn from_usize(n: usize) -> (r: Self) {
        n as u32
    }
}

impl EpochResetArrayIndex for u64 {
    open spec fn index_int(&self) -> int {
        *self as int
    }

    open spec fn holds_int(n: int) -> bool {
        0 <= n <= u64::MAX
    }

    fn to_usize(self) -> (r: usize) {
        self as usize
    }

    proof fn lemma_index_held(&self) {
    }

    fn from_usize(n: usize) -> (r: Self) {
        n as u64
    }
}

impl EpochResetArrayIndex for usize {
    open spec fn index_int(&self) -> int {
        *self as int
    }

    open spec fn holds_int(n: int) -> bool {
        0 <= n <= usize::MAX
    }

    fn to_usize(self) -> (r: usize) {
        self as usize
    }

    proof fn lemma_index_held(&self) {
    }

    fn from_usize(n: usize) -> (r: Self) {
        n as usize
    }
}

impl EpochResetArrayIndex for i32 {
    open spec fn index_int(&self) -> int {
        *self as int
    }

    open spec fn holds_int(n: int) -> bool {
        i32::MIN <= n <= i32::MAX
    }

    fn to_usize(self) -> (r: usize) {
        self as usize
    }

    proof fn lemma_index_held(&self) {
    }

    fn from_usize(n: usize) -> (r: Self) {
        n as i32
    }
}

impl EpochResetArrayIndex for i64 {
    open spec fn index_int(&self) -> int {
        *self as int
    }

    open spec fn holds_int(n: int) -> bool {
        i64::MIN <= n <= i64::MAX
    }

    fn to_usize(self) -> (r: usize) {
        self as usize
    }

    proof fn lemma_index_held(&self) {
    }

    fn from_usize(n: usize) -> (r: Self) {
        n as i64
    }
}

} // verus!
