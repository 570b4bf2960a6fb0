use vstd::prelude::*;

verus! {

/// A numeric component type: a machine number together with the
/// mathematical value it stands for and the range it can represent.
///
/// Every arithmetic method is exact: its precondition keeps the
/// mathematical result inside the representable range, and its
/// postcondition says the machine result equals that mathematical result.
pub trait Numeric: Sized + Copy {
    /// The mathematical value this number stands for.
    spec fn as_int(self) -> int;

    /// The smallest mathematical value the type can represent.
    spec fn min_int() -> int;

    /// The largest mathematical value the type can represent.
    spec fn max_int() -> int;

    /// Every value of the type lies within its representable range.
    proof fn lemma_in_range(self)
        ensures
            Self::min_int() <= self.as_int() <= Self::max_int(),
    ;

    /// The representable range contains zero, one and two.
    proof fn lemma_range_contains_small_values()
        ensures
            Self::min_int() <= 0,
            2 <= Self::max_int(),
    ;

    fn zero() -> (r: Self)
        ensures
            r.as_int() == 0,
    ;

    fn one() -> (r: Self)
        ensures
            r.as_int() == 1,
    ;

    fn two() -> (r: Self)
        ensures
            r.as_int() == 2,
    ;

    fn min_value() -> (r: Self)
        ensures
            r.as_int() == Self::min_int(),
    ;

    fn max_value() -> (r: Self)
        ensures
            r.as_int() == Self::max_int(),
    ;

    fn numeric_add(self, other: Self) -> (r: Self)
        requires
            Self::min_int() <= self.as_int() + other.as_int() <= Self::max_int(),
        ensures
            r.as_int() == self.as_int() + other.as_int(),
    ;

    fn numeric_sub(self, other: Self) -> (r: Self)
        requires
            Self::min_int() <= self.as_int() - other.as_int() <= Self::max_int(),
        ensures
            r.as_int() == self.as_int() - other.as_int(),
    ;

    fn numeric_mul(self, other: Self) -> (r: Self)
        requires
            Self::min_int() <= self.as_int() * other.as_int() <= Self::max_int(),
        ensures
            r.as_int() == self.as_int() * other.as_int(),
    ;

    /// Division of a nonnegative value by a positive one, where machine
    /// division agrees with mathematical (Euclidean) division.
    fn numeric_div(self, other: Self) -> (r: Self)
        requires
            0 <= self.as_int(),
            0 < other.as_int(),
        ensures
            r.as_int() == self.as_int() / other.as_int(),
    ;

    fn numeric_min(self, other: Self) -> (r: Self)
        ensures
            r == self || r == other,
            r.as_int() == if self.as_int() <= other.as_int() {
                self.as_int()
            } else {
                other.as_int()
            },
    ;

    fn numeric_max(self, other: Self) -> (r: Self)
        ensures
            r == self || r == other,
            r.as_int() == if self.as_int() >= other.as_int() {
                self.as_int()
            } else {
                other.as_int()
            },
    ;

    fn numeric_clamp(self, low: Self, high: Self) -> (r: Self)
        requires
            low.as_int() <= high.as_int(),
        ensures
            r.as_int() == if self.as_int() < low.as_int() {
                low.as_int()
            } else if self.as_int() > high.as_int() {
                high.as_int()
            } else {
                self.as_int()
            },
    ;
}

/// A type with a sign function.
pub trait NumericSigNum: Sized + Copy {
    /// The mathematical value, as in `Numeric`.
    spec fn signum_as_int(self) -> int;

    fn signum_numeric(self) -> (r: Self)
        ensures
            r.signum_as_int() == if self.signum_as_int() > 0 {
                1int
            } else if self.signum_as_int() < 0 {
                -1int
            } else {
                0int
            },
    ;
}

/// A type with an absolute-value function.
pub trait NumericAbs: Sized + Copy {
    /// The mathematical value, as in `Numeric`.
    spec fn abs_as_int(self) -> int;

    /// The largest representable value, as in `Numeric`; the precondition
    /// of `numeric_abs` keeps the result representable.
    spec fn abs_max_int() -> int;

    fn numeric_abs(self) -> (r: Self)
        requires
            -Self::abs_max_int() <= self.abs_as_int(),
        ensures
            r.abs_as_int() == if self.abs_as_int() >= 0 {
                self.abs_as_int()
            } else {
                -self.abs_as_int()
            },
    ;
}

impl Numeric for i64 {
    open spec fn as_int(self) -> int {
        self as int
    }

    open spec fn min_int() -> int {
        i64::MIN as int
    }

    open spec fn max_int() -> int {
        i64::MAX as int
    }

    proof fn lemma_in_range(self) {
    }

    proof fn lemma_range_contains_small_values() {
    }

    fn zero() -> i64 {
        0
    }

    fn one() -> i64 {
        1
    }

    fn two() -> i64 {
        2
    }

    fn min_value() -> i64 {
        i64::MIN
    }

    fn max_value() -> i64 {
        i64::MAX
    }

    fn numeric_add(self, other: i64) -> i64 {
        self + other
    }

    fn numeric_sub(self, other: i64) -> i64 {
        self - other
    }

    fn numeric_mul(self, other: i64) -> i64 {
        self * other
    }

    fn numeric_div(self, other: i64) -> i64 {
        self / other
    }

    fn numeric_min(self, other: i64) -> i64 {
        if self <= other {
            self
        } else {
            other
        }
    }

    fn numeric_max(self, other: i64) -> i64 {
        if self >= other {
            self
        } else {
            other
        }
    }

    fn numeric_clamp(self, low: i64, high: i64) -> i64 {
        if self < low {
            low
        } else if self > high {
            high
        } else {
            self
        }
    }
}

impl NumericSigNum for i64 {
    open spec fn signum_as_int(self) -> int {
        self as int
    }

    fn signum_numeric(self) -> i64 {
        if self > 0 {
            1
        } else if self < 0 {
            -1
        } else {
            0
        }
    }
}

impl NumericAbs for i64 {
    open spec fn abs_as_int(self) -> int {
        self as int
    }

    open spec fn abs_max_int() -> int {
        i64::MAX as int
    }

    fn numeric_abs(self) -> i64 {
        if self >= 0 {
            self
        } else {
            -self
        }
    }
}

impl Numeric for i32 {
    open spec fn as_int(self) -> int {
        self as int
    }

    open spec fn min_int() -> int {
        i32::MIN as int
    }

    open spec fn max_int() -> int {
        i32::MAX as int
    }

    proof fn lemma_in_range(self) {
    }

    proof fn lemma_range_contains_small_values() {
    }

    fn zero() -> i32 {
        0
    }

    fn one() -> i32 {
        1
    }

    fn two() -> i32 {
        2
    }

    fn min_value() -> i32 {
        i32::MIN
    }

    fn max_value() -> i32 {
        i32::MAX
    }

    fn numeric_add(self, other: i32) -> i32 {
        self + other
    }

    fn numeric_sub(self, other: i32) -> i32 {
        self - other
    }

    fn numeric_mul(self, other: i32) -> i32 {
        self * other
    }

    fn numeric_div(self, other: i32) -> i32 {
        self / other
    }

    fn numeric_min(self, other: i32) -> i32 {
        if self <= other {
            self
        } else {
            other
        }
    }

    fn numeric_max(self, other: i32) -> i32 {
        if self >= other {
            self
        } else {
            other
        }
    }

    fn numeric_clamp(self, low: i32, high: i32) -> i32 {
        if self < low {
            low
        } else if self > high {
            high
        } else {
            self
        }
    }
}

impl Numeric for u32 {
    open spec fn as_int(self) -> int {
        self as int
    }

    open spec fn min_int() -> int {
        u32::MIN as int
    }

    open spec fn max_int() -> int {
        u32::MAX as int
    }

    proof fn lemma_in_range(self) {
    }

    proof fn lemma_range_contains_small_values() {
    }

    fn zero() -> u32 {
        0
    }

    fn one() -> u32 {
        1
    }

    fn two() -> u32 {
        2
    }

    fn min_value() -> u32 {
        u32::MIN
    }

    fn max_value() -> u32 {
        u32::MAX
    }

    fn numeric_add(self, other: u32) -> u32 {
        self + other
    }

    fn numeric_sub(self, other: u32) -> u32 {
        self - other
    }

    fn numeric_mul(self, other: u32) -> u32 {
        self * other
    }

    fn numeric_div(self, other: u32) -> u32 {
        self / other
    }

    fn numeric_min(self, other: u32) -> u32 {
        if self <= other {
            self
        } else {
            other
        }
    }

    fn numeric_max(self, other: u32) -> u32 {
        if self >= other {
            self
        } else {
            other
        }
    }

    fn numeric_clamp(self, low: u32, high: u32) -> u32 {
        if self < low {
            low
        } else if self > high {
            high
        } else {
            self
        }
    }
}

impl Numeric for u64 {
    open spec fn as_int(self) -> int {
        self as int
    }

    open spec fn min_int() -> int {
        u64::MIN as int
    }

    open spec fn max_int() -> int {
        u64::MAX as int
    }

    proof fn lemma_in_range(self) {
    }

    proof fn lemma_range_contains_small_values() {
    }

    fn zero() -> u64 {
        0
    }

    fn one() -> u64 {
        1
    }

    fn two() -> u64 {
        2
    }

    fn min_value() -> u64 {
        u64::MIN
    }

    fn max_value() -> u64 {
        u64::MAX
    }

    fn numeric_add(self, other: u64) -> u64 {
        self + other
    }

    fn numeric_sub(self, other: u64) -> u64 {
        self - other
    }

    fn numeric_mul(self, other: u64) -> u64 {
        self * other
    }

    fn numeric_div(self, other: u64) -> u64 {
        self / other
    }

    fn numeric_min(self, other: u64) -> u64 {
        if self <= other {
            self
        } else {
            other
        }
    }

    fn numeric_max(self, other: u64) -> u64 {
        if self >= other {
            self
        } else {
            other
        }
    }

    fn numeric_clamp(self, low: u64, high: u64) -> u64 {
        if self < low {
            low
        } else if self > high {
            high
        } else {
            self
        }
    }
}

impl Numeric for usize {
    open spec fn as_int(self) -> int {
        self as int
    }

    open spec fn min_int() -> int {
        usize::MIN as int
    }

    open spec fn max_int() -> int {
        usize::MAX as int
    }

    proof fn lemma_in_range(self) {
    }

    proof fn lemma_range_contains_small_values() {
    }

    fn zero() -> usize {
        0
    }

    fn one() -> usize {
        1
    }

    fn two() -> usize {
        2
    }

    fn min_value() -> usize {
        usize::MIN
    }

    fn max_value() -> usize {
        usize::MAX
    }

    fn numeric_add(self, other: usize) -> usize {
        self + other
    }

    fn numeric_sub(self, other: usize) -> usize {
        self - other
    }

    fn numeric_mul(self, other: usize) -> usize {
        self * other
    }

    fn numeric_div(self, other: usize) -> usize {
        self / other
    }

    fn numeric_min(self, other: usize) -> usize {
        if self <= other {
            self
        } else {
            other
        }
    }

    fn numeric_max(self, other: usize) -> usize {
        if self >= other {
            self
        } else {
            other
        }
    }

    fn numeric_clamp(self, low: usize, high: usize) -> usize {
        if self < low {
            low
        } else if self > high {
            high
        } else {
            self
        }
    }
}

impl Numeric for isize {
    open spec fn as_int(self) -> int {
        self as int
    }

    open spec fn min_int() -> int {
        isize::MIN as int
    }

    open spec fn max_int() -> int {
        isize::MAX as int
    }

    proof fn lemma_in_range(self) {
    }

    proof fn lemma_range_contains_small_values() {
    }

    fn zero() -> isize {
        0
    }

    fn one() -> isize {
        1
    }

    fn two() -> isize {
        2
    }

    fn min_value() -> isize {
        isize::MIN
    }

    fn max_value() -> isize {
        isize::MAX
    }

    fn numeric_add(self, other: isize) -> isize {
        self + other
    }

    fn numeric_sub(self, other: isize) -> isize {
        self - other
    }

    fn numeric_mul(self, other: isize) -> isize {
        self * other
    }

    fn numeric_div(self, other: isize) -> isize {
        self / other
    }

    fn numeric_min(self, other: isize) -> isize {
        if self <= other {
            self
        } else {
            other
        }
    }

    fn numeric_max(self, other: isize) -> isize {
        if self >= other {
            self
        } else {
            other
        }
    }

    fn numeric_clamp(self, low: isize, high: isize) -> isize {
        if self < low {
            low
        } else if self > high {
            high
        } else {
            self
        }
    }
}

impl NumericSigNum for i32 {
    open spec fn signum_as_int(self) -> int {
        self as int
    }

    fn signum_numeric(self) -> i32 {
        if self > 0 {
            1
        } else if self < 0 {
            -1
        } else {
            0
        }
    }
}

impl NumericAbs for i32 {
    open spec fn abs_as_int(self) -> int {
        self as int
    }

    open spec fn abs_max_int() -> int {
        i32::MAX as int
    }

    fn numeric_abs(self) -> i32 {
        if self >= 0 {
            self
        } else {
            -self
        }
    }
}

impl NumericSigNum for isize {
    open spec fn signum_as_int(self) -> int {
        self as int
    }

    fn signum_numeric(self) -> isize {
        if self > 0 {
            1
        } else if self < 0 {
            -1
        } else {
            0
        }
    }
}

impl NumericAbs for isize {
    open spec fn abs_as_int(self) -> int {
        self as int
    }

    open spec fn abs_max_int() -> int {
        isize::MAX as int
    }

    fn numeric_abs(self) -> isize {
        if self >= 0 {
            self
        } else {
            -self
        }
    }
}

impl Numeric for u8 {
    open spec fn as_int(self) -> int {
        self as int
    }

    open spec fn min_int() -> int {
        u8::MIN as int
    }

    open spec fn max_int() -> int {
        u8::MAX as int
    }

    proof fn lemma_in_range(self) {
    }

    proof fn lemma_range_contains_small_values() {
    }

    fn zero() -> u8 {
        0
    }

    fn one() -> u8 {
        1
    }

    fn two() -> u8 {
        2
    }

    fn min_value() -> u8 {
        u8::MIN
    }

    fn max_value() -> u8 {
        u8::MAX
    }

    fn numeric_add(self, other: u8) -> u8 {
        self + other
    }

    fn numeric_sub(self, other: u8) -> u8 {
        self - other
    }

    fn numeric_mul(self, other: u8) -> u8 {
        self * other
    }

    fn numeric_div(self, other: u8) -> u8 {
        self / other
    }

    fn numeric_min(self, other: u8) -> u8 {
        if self <= other {
            self
        } else {
            other
        }
    }

    fn numeric_max(self, other: u8) -> u8 {
        if self >= other {
            self
        } else {
            other
        }
    }

    fn numeric_clamp(self, low: u8, high: u8) -> u8 {
        if self < low {
            low
        } else if self > high {
            high
        } else {
            self
        }
    }
}

impl Numeric for i8 {
    open spec fn as_int(self) -> int {
        self as int
    }

    open spec fn min_int() -> int {
        i8::MIN as int
    }

    open spec fn max_int() -> int {
        i8::MAX as int
    }

    proof fn lemma_in_range(self) {
    }

    proof fn lemma_range_contains_small_values() {
    }

    fn zero() -> i8 {
        0
    }

    fn one() -> i8 {
        1
    }

    fn two() -> i8 {
        2
    }

    fn min_value() -> i8 {
        i8::MIN
    }

    fn max_value() -> i8 {
        i8::MAX
    }

    fn numeric_add(self, other: i8) -> i8 {
        self + other
    }

    fn numeric_sub(self, other: i8) -> i8 {
        self - other
    }

    fn numeric_mul(self, other: i8) -> i8 {
        self * other
    }

    fn numeric_div(self, other: i8) -> i8 {
        self / other
    }

    fn numeric_min(self, other: i8) -> i8 {
        if self <= other {
            self
        } else {
            other
        }
    }

    fn numeric_max(self, other: i8) -> i8 {
        if self >= other {
            self
        } else {
            other
        }
    }

    fn numeric_clamp(self, low: i8, high: i8) -> i8 {
        if self < low {
            low
        } else if self > high {
            high
        } else {
            self
        }
    }
}

impl Numeric for u16 {
    open spec fn as_int(self) -> int {
        self as int
    }

    open spec fn min_int() -> int {
        u16::MIN as int
    }

    open spec fn max_int() -> int {
        u16::MAX as int
    }

    proof fn lemma_in_range(self) {
    }

    proof fn lemma_range_contains_small_values() {
    }

    fn zero() -> u16 {
        0
    }

    fn one() -> u16 {
        1
    }

    fn two() -> u16 {
        2
    }

    fn min_value() -> u16 {
        u16::MIN
    }

    fn max_value() -> u16 {
        u16::MAX
    }

    fn numeric_add(self, other: u16) -> u16 {
        self + other
    }

    fn numeric_sub(self, other: u16) -> u16 {
        self - other
    }

    fn numeric_mul(self, other: u16) -> u16 {
        self * other
    }

    fn numeric_div(self, other: u16) -> u16 {
        self / other
    }

    fn numeric_min(self, other: u16) -> u16 {
        if self <= other {
            self
        } else {
            other
        }
    }

    fn numeric_max(self, other: u16) -> u16 {
        if self >= other {
            self
        } else {
            other
        }
    }

    fn numeric_clamp(self, low: u16, high: u16) -> u16 {
        if self < low {
            low
        } else if self > high {
            high
        } else {
            self
        }
    }
}

impl Numeric for i16 {
    open spec fn as_int(self) -> int {
        self as int
    }

    open spec fn min_int() -> int {
        i16::MIN as int
    }

    open spec fn max_int() -> int {
        i16::MAX as int
    }

    proof fn lemma_in_range(self) {
    }

    proof fn lemma_range_contains_small_values() {
    }

    fn zero() -> i16 {
        0
    }

    fn one() -> i16 {
        1
    }

    fn two() -> i16 {
        2
    }

    fn min_value() -> i16 {
        i16::MIN
    }

    fn max_value() -> i16 {
        i16::MAX
    }

    fn numeric_add(self, other: i16) -> i16 {
        self + other
    }

    fn numeric_sub(self, other: i16) -> i16 {
        self - other
    }

    fn numeric_mul(self, other: i16) -> i16 {
        self * other
    }

    fn numeric_div(self, other: i16) -> i16 {
        self / other
    }

    fn numeric_min(self, other: i16) -> i16 {
        if self <= other {
            self
        } else {
            other
        }
    }

    fn numeric_max(self, other: i16) -> i16 {
        if self >= other {
            self
        } else {
            other
        }
    }

    fn numeric_clamp(self, low: i16, high: i16) -> i16 {
        if self < low {
            low
        } else if self > high {
            high
        } else {
            self
        }
    }
}

impl Numeric for u128 {
    open spec fn as_int(self) -> int {
        self as int
    }

    open spec fn min_int() -> int {
        u128::MIN as int
    }

    open spec fn max_int() -> int {
        u128::MAX as int
    }

    proof fn lemma_in_range(self) {
    }

    proof fn lemma_range_contains_small_values() {
    }

    fn zero() -> u128 {
        0
    }

    fn one() -> u128 {
        1
    }

    fn two() -> u128 {
        2
    }

    fn min_value() -> u128 {
        u128::MIN
    }

    fn max_value() -> u128 {
        u128::MAX
    }

    fn numeric_add(self, other: u128) -> u128 {
        self + other
    }

    fn numeric_sub(self, other: u128) -> u128 {
        self - other
    }

    fn numeric_mul(self, other: u128) -> u128 {
        self * other
    }

    fn numeric_div(self, other: u128) -> u128 {
        self / other
    }

    fn numeric_min(self, other: u128) -> u128 {
        if self <= other {
            self
        } else {
            other
        }
    }

    fn numeric_max(self, other: u128) -> u128 {
        if self >= other {
            self
        } else {
            other
        }
    }

    fn numeric_clamp(self, low: u128, high: u128) -> u128 {
        if self < low {
            low
        } else if self > high {
            high
        } else {
            self
        }
    }
}

impl Numeric for i128 {
    open spec fn as_int(self) -> int {
        self as int
    }

    open spec fn min_int() -> int {
        i128::MIN as int
    }

    open spec fn max_int() -> int {
        i128::MAX as int
    }

    proof fn lemma_in_range(self) {
    }

    proof fn lemma_range_contains_small_values() {
    }

    fn zero() -> i128 {
        0
    }

    fn one() -> i128 {
        1
    }

    fn two() -> i128 {
        2
    }

    fn min_value() -> i128 {
        i128::MIN
    }

    fn max_value() -> i128 {
        i128::MAX
    }

    fn numeric_add(self, other: i128) -> i128 {
        self + other
    }

    fn numeric_sub(self, other: i128) -> i128 {
        self - other
    }

    fn numeric_mul(self, other: i128) -> i128 {
        self * other
    }

    fn numeric_div(self, other: i128) -> i128 {
        self / other
    }

    fn numeric_min(self, other: i128) -> i128 {
        if self <= other {
            self
        } else {
            other
        }
    }

    fn numeric_max(self, other: i128) -> i128 {
        if self >= other {
            self
        } else {
            other
        }
    }

    fn numeric_clamp(self, low: i128, high: i128) -> i128 {
        if self < low {
            low
        } else if self > high {
            high
        } else {
            self
        }
    }
}

impl NumericSigNum for i8 {
    open spec fn signum_as_int(self) -> int {
        self as int
    }

    fn signum_numeric(self) -> i8 {
        if self > 0 {
            1
        } else if self < 0 {
            -1
        } else {
            0
        }
    }
}

impl NumericAbs for i8 {
    open spec fn abs_as_int(self) -> int {
        self as int
    }

    open spec fn abs_max_int() -> int {
        i8::MAX as int
    }

    fn numeric_abs(self) -> i8 {
        if self >= 0 {
            self
        } else {
            -self
        }
    }
}

impl NumericSigNum for i16 {
    open spec fn signum_as_int(self) -> int {
        self as int
    }

    fn signum_numeric(self) -> i16 {
        if self > 0 {
            1
        } else if self < 0 {
            -1
        } else {
            0
        }
    }
}

impl NumericAbs for i16 {
    open spec fn abs_as_int(self) -> int {
        self as int
    }

    open spec fn abs_max_int() -> int {
        i16::MAX as int
    }

    fn numeric_abs(self) -> i16 {
        if self >= 0 {
            self
        } else {
            -self
        }
    }
}

impl NumericSigNum for i128 {
    open spec fn signum_as_int(self) -> int {
        self as int
    }

    fn signum_numeric(self) -> i128 {
        if self > 0 {
            1
        } else if self < 0 {
            -1
        } else {
            0
        }
    }
}

impl NumericAbs for i128 {
    open spec fn abs_as_int(self) -> int {
        self as int
    }

    open spec fn abs_max_int() -> int {
        i128::MAX as int
    }

    fn numeric_abs(self) -> i128 {
        if self >= 0 {
            self
        } else {
            -self
        }
    }
}

} // verus!
