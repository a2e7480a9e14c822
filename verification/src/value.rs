use vstd::prelude::*;

verus! {

/// The result of bringing `x` back into the representable range
/// `min ..= max` by one full range width: the wrapping overflow policy of
/// two's-complement arithmetic. Meaningful where `x` misses the range by
/// less than its width, as a difference of two representable values does.
pub open spec fn wrap_int(x: int, min: int, max: int) -> int {
    if x > max {
        x - (max - min + 1)
    } else if x < min {
        x + (max - min + 1)
    } else {
        x
    }
}

/// A fixed-width signed numeric type usable both as data and as an address:
/// the cell values of a [`crate::Memory`] and the operands of the engine.
///
/// The model of a value is the mathematical integer [`Value::as_int`];
/// [`Value::from_int`] names the value representing a given in-range
/// integer. The two laws [`Value::lemma_in_range`] and
/// [`Value::lemma_from_int`] tie them together: every value lies in the
/// range `spec_min() ..= spec_max()`, and the two functions invert each
/// other on it.
pub trait Value: Sized + Copy {
    /// The mathematical integer this value represents.
    spec fn as_int(self) -> int;

    /// The value representing the integer `x`; meaningful for `x` within
    /// `spec_min() ..= spec_max()`.
    spec fn from_int(x: int) -> Self;

    /// The smallest representable integer.
    spec fn spec_min() -> int;

    /// The largest representable integer.
    spec fn spec_max() -> int;

    /// The representable range is signed and surrounds zero, every value
    /// lies in it, and a value round-trips through its integer.
    proof fn lemma_in_range(self)
        ensures
            Self::spec_min() < 0 < Self::spec_max(),
            Self::spec_min() <= self.as_int() <= Self::spec_max(),
            Self::from_int(self.as_int()) == self,
    ;

    /// An in-range integer round-trips through the value representing it.
    proof fn lemma_from_int(x: int)
        requires
            Self::spec_min() <= x <= Self::spec_max(),
        ensures
            Self::from_int(x).as_int() == x,
    ;

    /// The additive identity.
    fn zero() -> (r: Self)
        ensures
            r.as_int() == 0,
    ;

    /// Subtraction under the wrapping overflow policy.
    fn wrapping_sub(self, other: Self) -> (r: Self)
        ensures
            r == Self::from_int(
                wrap_int(self.as_int() - other.as_int(), Self::spec_min(), Self::spec_max()),
            ),
    ;

    /// Whether the value is strictly greater than zero.
    fn is_positive(self) -> (r: bool)
        ensures
            r == (self.as_int() > 0),
    ;

    /// Total conversion to an address index: the index the value denotes, or
    /// `None` where it lies outside the address range. Never panics and
    /// never truncates.
    fn to_address(self) -> (r: Option<usize>)
        ensures
            r == (if 0 <= self.as_int() <= usize::MAX {
                Some((self.as_int()) as usize)
            } else {
                None::<usize>
            }),
    ;
}

/// The address index a value denotes, where it denotes one: the same
/// conversion that [`Value::to_address`] performs.
pub open spec fn spec_to_address<V: Value>(v: V) -> Option<usize> {
    if 0 <= v.as_int() <= usize::MAX {
        Some((v.as_int()) as usize)
    } else {
        None
    }
}

impl Value for i64 {
    open spec fn as_int(self) -> int {
        self as int
    }

    open spec fn from_int(x: int) -> i64 {
        x as i64
    }

    open spec fn spec_min() -> int {
        i64::MIN as int
    }

    open spec fn spec_max() -> int {
        i64::MAX as int
    }

    proof fn lemma_in_range(self) {
    }

    proof fn lemma_from_int(x: int) {
    }

    fn zero() -> (r: i64) {
        0
    }

    fn wrapping_sub(self, other: i64) -> (r: i64) {
        i64::wrapping_sub(self, other)
    }

    fn is_positive(self) -> (r: bool) {
        self > 0
    }

    fn to_address(self) -> (r: Option<usize>) {
        if self >= 0 && self as u64 <= usize::MAX as u64 {
            Some(self as usize)
        } else {
            None
        }
    }
}

impl Value for i8 {
    open spec fn as_int(self) -> int {
        self as int
    }

    open spec fn from_int(x: int) -> i8 {
        x as i8
    }

    open spec fn spec_min() -> int {
        i8::MIN as int
    }

    open spec fn spec_max() -> int {
        i8::MAX as int
    }

    proof fn lemma_in_range(self) {
    }

    proof fn lemma_from_int(x: int) {
    }

    fn zero() -> (r: i8) {
        0
    }

    fn wrapping_sub(self, other: i8) -> (r: i8) {
        i8::wrapping_sub(self, other)
    }

    fn is_positive(self) -> (r: bool) {
        self > 0
    }

    fn to_address(self) -> (r: Option<usize>) {
        if self >= 0 {
            Some(self as usize)
        } else {
            None
        }
    }
}

} // verus!
