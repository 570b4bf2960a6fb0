use vstd::prelude::*;

use crate::numeric_traits::Numeric;

verus! {

/// A fixed-size vector of `N` components, stored as the single row of a
/// one-row array so that the layout matches the matrix it generalises.
#[derive(Clone, Copy, Debug, PartialEq)]
pub struct Vector<T, const N: usize> {
    pub data: [[T; N]; 1],
}

impl<T, const N: usize> Vector<T, N> {
    pub fn new_from_slice(values: [T; N]) -> (r: Self)
        ensures
            r.data[0] == values,
    {
        Self { data: [values] }
    }
}

impl<T: Numeric, const N: usize> Vector<T, N> {
    /// The mathematical values of the components, in order.
    pub open spec fn model(self) -> Seq<int> {
        Seq::new(N as nat, |i: int| self.data[0][i].as_int())
    }
}

impl<T> Vector<T, 2> {
    pub fn new(x: T, y: T) -> (r: Self)
        ensures
            r.data[0][0] == x,
            r.data[0][1] == y,
    {
        Self { data: [[x, y]] }
    }
}

impl<T> Vector<T, 3> {
    pub fn new(x: T, y: T, z: T) -> (r: Self)
        ensures
            r.data[0][0] == x,
            r.data[0][1] == y,
            r.data[0][2] == z,
    {
        Self { data: [[x, y, z]] }
    }
}

impl<T> Vector<T, 4> {
    pub fn new(x: T, y: T, z: T, w: T) -> (r: Self)
        ensures
            r.data[0][0] == x,
            r.data[0][1] == y,
            r.data[0][2] == z,
            r.data[0][3] == w,
    {
        Self { data: [[x, y, z, w]] }
    }
}

impl<T: Numeric, const N: usize> Vector<T, N> {
    pub fn as_array(self) -> (r: [T; N])
        ensures
            r == self.data[0],
    {
        self.data[0]
    }
}

impl<T: Numeric> Vector<T, 1> {
    pub fn x(self) -> (r: T)
        ensures
            r == self.data[0][0],
    {
        self.data[0][0]
    }

    pub fn x_mut(&mut self) -> (r: &mut T)
        ensures
            *r == old(self).data[0][0],
            final(self).data[0]@ == old(self).data[0]@.update(0, *final(r)),
    {
        &mut self.data[0][0]
    }
}

impl<T: Numeric> Vector<T, 2> {
    pub fn x(self) -> (r: T)
        ensures
            r == self.data[0][0],
    {
        self.data[0][0]
    }

    pub fn y(self) -> (r: T)
        ensures
            r == self.data[0][1],
    {
        self.data[0][1]
    }

    pub fn x_mut(&mut self) -> (r: &mut T)
        ensures
            *r == old(self).data[0][0],
            final(self).data[0]@ == old(self).data[0]@.update(0, *final(r)),
    {
        &mut self.data[0][0]
    }

    pub fn y_mut(&mut self) -> (r: &mut T)
        ensures
            *r == old(self).data[0][1],
            final(self).data[0]@ == old(self).data[0]@.update(1, *final(r)),
    {
        &mut self.data[0][1]
    }
}

impl<T: Numeric> Vector<T, 3> {
    pub fn x(self) -> (r: T)
        ensures
            r == self.data[0][0],
    {
        self.data[0][0]
    }

    pub fn y(self) -> (r: T)
        ensures
            r == self.data[0][1],
    {
        self.data[0][1]
    }

    pub fn z(self) -> (r: T)
        ensures
            r == self.data[0][2],
    {
        self.data[0][2]
    }

    pub fn x_mut(&mut self) -> (r: &mut T)
        ensures
            *r == old(self).data[0][0],
            final(self).data[0]@ == old(self).data[0]@.update(0, *final(r)),
    {
        &mut self.data[0][0]
    }

    pub fn y_mut(&mut self) -> (r: &mut T)
        ensures
            *r == old(self).data[0][1],
            final(self).data[0]@ == old(self).data[0]@.update(1, *final(r)),
    {
        &mut self.data[0][1]
    }

    pub fn z_mut(&mut self) -> (r: &mut T)
        ensures
            *r == old(self).data[0][2],
            final(self).data[0]@ == old(self).data[0]@.update(2, *final(r)),
    {
        &mut self.data[0][2]
    }
}

impl<T: Numeric> Vector<T, 4> {
    pub fn x(self) -> (r: T)
        ensures
            r == self.data[0][0],
    {
        self.data[0][0]
    }

    pub fn y(self) -> (r: T)
        ensures
            r == self.data[0][1],
    {
        self.data[0][1]
    }

    pub fn z(self) -> (r: T)
        ensures
            r == self.data[0][2],
    {
        self.data[0][2]
    }

    pub fn w(self) -> (r: T)
        ensures
            r == self.data[0][3],
    {
        self.data[0][3]
    }

    pub fn x_mut(&mut self) -> (r: &mut T)
        ensures
            *r == old(self).data[0][0],
            final(self).data[0]@ == old(self).data[0]@.update(0, *final(r)),
    {
        &mut self.data[0][0]
    }

    pub fn y_mut(&mut self) -> (r: &mut T)
        ensures
            *r == old(self).data[0][1],
            final(self).data[0]@ == old(self).data[0]@.update(1, *final(r)),
    {
        &mut self.data[0][1]
    }

    pub fn z_mut(&mut self) -> (r: &mut T)
        ensures
            *r == old(self).data[0][2],
            final(self).data[0]@ == old(self).data[0]@.update(2, *final(r)),
    {
        &mut self.data[0][2]
    }

    pub fn w_mut(&mut self) -> (r: &mut T)
        ensures
            *r == old(self).data[0][3],
            final(self).data[0]@ == old(self).data[0]@.update(3, *final(r)),
    {
        &mut self.data[0][3]
    }
}

impl<T: Numeric, const N: usize> Vector<T, N> {
    /// The first two components; missing ones are filled with zero.
    pub fn xy(&self) -> (r: Vector<T, 2>)
        requires
            N >= 1,
        ensures
            r.data[0][0] == self.data[0][0],
            N > 1 ==> r.data[0][1] == self.data[0][1],
            N <= 1 ==> r.model()[1] == 0,
    {
        Vector::<T, 2>::new(
            self.data[0][0],
            if N > 1 {
                self.data[0][1]
            } else {
                T::zero()
            },
        )
    }

    /// The first and third components; a missing third is zero.
    pub fn xz(&self) -> (r: Vector<T, 2>)
        requires
            N >= 1,
        ensures
            r.data[0][0] == self.data[0][0],
            N > 2 ==> r.data[0][1] == self.data[0][2],
            N <= 2 ==> r.model()[1] == 0,
    {
        Vector::<T, 2>::new(
            self.data[0][0],
            if N > 2 {
                self.data[0][2]
            } else {
                T::zero()
            },
        )
    }

    /// The first three components; missing ones are filled with zero.
    pub fn xyz(&self) -> (r: Vector<T, 3>)
        requires
            N >= 1,
        ensures
            r.data[0][0] == self.data[0][0],
            N > 1 ==> r.data[0][1] == self.data[0][1],
            N <= 1 ==> r.model()[1] == 0,
            N > 2 ==> r.data[0][2] == self.data[0][2],
            N <= 2 ==> r.model()[2] == 0,
    {
        Vector::<T, 3>::new(
            self.data[0][0],
            if N > 1 {
                self.data[0][1]
            } else {
                T::zero()
            },
            if N > 2 {
                self.data[0][2]
            } else {
                T::zero()
            },
        )
    }

    /// The first four components; missing ones are filled with zero.
    /// A fourth component, when present, is taken from the third slot.
    pub fn xyzw(&self) -> (r: Vector<T, 4>)
        requires
            N >= 1,
        ensures
            r.data[0][0] == self.data[0][0],
            N > 1 ==> r.data[0][1] == self.data[0][1],
            N <= 1 ==> r.model()[1] == 0,
            N > 2 ==> r.data[0][2] == self.data[0][2],
            N <= 2 ==> r.model()[2] == 0,
            N > 3 ==> r.data[0][3] == self.data[0][2],
            N <= 3 ==> r.model()[3] == 0,
    {
        Vector::<T, 4>::new(
            self.data[0][0],
            if N > 1 {
                self.data[0][1]
            } else {
                T::zero()
            },
            if N > 2 {
                self.data[0][2]
            } else {
                T::zero()
            },
            if N > 3 {
                self.data[0][2]
            } else {
                T::zero()
            },
        )
    }

    /// The components rotated so the third comes first; missing ones are zero.
    pub fn zxy(&self) -> (r: Vector<T, 3>)
        requires
            N >= 1,
        ensures
            N > 2 ==> r.data[0][0] == self.data[0][2],
            N <= 2 ==> r.model()[0] == 0,
            r.data[0][1] == self.data[0][0],
            N > 1 ==> r.data[0][2] == self.data[0][1],
            N <= 1 ==> r.model()[2] == 0,
    {
        Vector::<T, 3>::new(
            if N > 2 {
                self.data[0][2]
            } else {
                T::zero()
            },
            self.data[0][0],
            if N > 1 {
                self.data[0][1]
            } else {
                T::zero()
            },
        )
    }
}

/// The sum of the first `k` componentwise products of `a` and `b`.
pub open spec fn dot_prefix(a: Seq<int>, b: Seq<int>, k: int) -> int
    decreases k,
{
    if k <= 0 {
        0
    } else {
        dot_prefix(a, b, k - 1) + a[k - 1] * b[k - 1]
    }
}

/// The mathematical dot product of two component sequences.
pub open spec fn dot_model(a: Seq<int>, b: Seq<int>) -> int {
    dot_prefix(a, b, a.len() as int)
}

impl<T: Numeric, const N: usize> Vector<T, N> {
    /// The dot product. The preconditions keep every partial sum and
    /// every componentwise product representable.
    pub fn dot(self, other: Self) -> (r: T)
        requires
            forall|i: int|
                #![trigger self.model()[i]]
                0 <= i < N ==> T::min_int() <= self.model()[i] * other.model()[i] <= T::max_int(),
            forall|k: int|
                0 <= k <= N ==> T::min_int() <= #[trigger] dot_prefix(
                    self.model(),
                    other.model(),
                    k,
                ) <= T::max_int(),
        ensures
            r.as_int() == dot_model(self.model(), other.model()),
    {
        let mut total = T::zero();
        for i in 0..N
            invariant
                total.as_int() == dot_prefix(self.model(), other.model(), i as int),
                forall|j: int|
                    #![trigger self.model()[j]]
                    0 <= j < N ==> T::min_int() <= self.model()[j] * other.model()[j]
                        <= T::max_int(),
                forall|k: int|
                    0 <= k <= N ==> T::min_int() <= #[trigger] dot_prefix(
                        self.model(),
                        other.model(),
                        k,
                    ) <= T::max_int(),
        {
            proof {
                assert(self.model()[i as int] == self.data[0][i as int].as_int());
                assert(other.model()[i as int] == other.data[0][i as int].as_int());
                assert(dot_prefix(self.model(), other.model(), i + 1) == dot_prefix(
                    self.model(),
                    other.model(),
                    i as int,
                ) + self.model()[i as int] * other.model()[i as int]);
            }
            total = total.numeric_add(self.data[0][i].numeric_mul(other.data[0][i]));
        }
        total
    }

    /// The squared length: the dot product of the vector with itself.
    pub fn length_squared(self) -> (r: T)
        requires
            forall|i: int|
                #![trigger self.model()[i]]
                0 <= i < N ==> T::min_int() <= self.model()[i] * self.model()[i] <= T::max_int(),
            forall|k: int|
                0 <= k <= N ==> T::min_int() <= #[trigger] dot_prefix(
                    self.model(),
                    self.model(),
                    k,
                ) <= T::max_int(),
        ensures
            r.as_int() == dot_model(self.model(), self.model()),
    {
        self.dot(self)
    }

    /// Componentwise sum.
    pub fn add_by_component(self, other: Self) -> (r: Self)
        requires
            forall|i: int|
                #![trigger self.model()[i]]
                0 <= i < N ==> T::min_int() <= self.model()[i] + other.model()[i] <= T::max_int(),
        ensures
            forall|i: int|
                #![trigger r.model()[i]]
                0 <= i < N ==> r.model()[i] == self.model()[i] + other.model()[i],
    {
        let z = T::zero();
        let mut out: [T; N] = [z; N];
        for i in 0..N
            invariant
                forall|j: int|
                    #![trigger out@[j]]
                    0 <= j < i ==> out@[j].as_int() == self.model()[j] + other.model()[j],
                forall|j: int|
                    #![trigger self.model()[j]]
                    0 <= j < N ==> T::min_int() <= self.model()[j] + other.model()[j]
                        <= T::max_int(),
        {
            proof {
                assert(self.model()[i as int] == self.data[0][i as int].as_int());
                assert(other.model()[i as int] == other.data[0][i as int].as_int());
            }
            out[i] = self.data[0][i].numeric_add(other.data[0][i]);
        }
        let r = Self { data: [out] };
        proof {
            assert forall|i: int| 0 <= i < N implies #[trigger] r.model()[i] == self.model()[i]
                + other.model()[i] by {
                assert(r.model()[i] == out@[i].as_int());
            }
        }
        r
    }

    /// Componentwise difference.
    pub fn sub_by_component(self, other: Self) -> (r: Self)
        requires
            forall|i: int|
                #![trigger self.model()[i]]
                0 <= i < N ==> T::min_int() <= self.model()[i] - other.model()[i] <= T::max_int(),
        ensures
            forall|i: int|
                #![trigger r.model()[i]]
                0 <= i < N ==> r.model()[i] == self.model()[i] - other.model()[i],
    {
        let z = T::zero();
        let mut out: [T; N] = [z; N];
        for i in 0..N
            invariant
                forall|j: int|
                    #![trigger out@[j]]
                    0 <= j < i ==> out@[j].as_int() == self.model()[j] - other.model()[j],
                forall|j: int|
                    #![trigger self.model()[j]]
                    0 <= j < N ==> T::min_int() <= self.model()[j] - other.model()[j]
                        <= T::max_int(),
        {
            proof {
                assert(self.model()[i as int] == self.data[0][i as int].as_int());
                assert(other.model()[i as int] == other.data[0][i as int].as_int());
            }
            out[i] = self.data[0][i].numeric_sub(other.data[0][i]);
        }
        let r = Self { data: [out] };
        proof {
            assert forall|i: int| 0 <= i < N implies #[trigger] r.model()[i] == self.model()[i]
                - other.model()[i] by {
                assert(r.model()[i] == out@[i].as_int());
            }
        }
        r
    }

    /// Componentwise product.
    pub fn mul_by_component(self, other: Self) -> (r: Self)
        requires
            forall|i: int|
                #![trigger self.model()[i]]
                0 <= i < N ==> T::min_int() <= self.model()[i] * other.model()[i] <= T::max_int(),
        ensures
            forall|i: int|
                #![trigger r.model()[i]]
                0 <= i < N ==> r.model()[i] == self.model()[i] * other.model()[i],
    {
        let z = T::zero();
        let mut out: [T; N] = [z; N];
        for i in 0..N
            invariant
                forall|j: int|
                    #![trigger out@[j]]
                    0 <= j < i ==> out@[j].as_int() == self.model()[j] * other.model()[j],
                forall|j: int|
                    #![trigger self.model()[j]]
                    0 <= j < N ==> T::min_int() <= self.model()[j] * other.model()[j]
                        <= T::max_int(),
        {
            proof {
                assert(self.model()[i as int] == self.data[0][i as int].as_int());
                assert(other.model()[i as int] == other.data[0][i as int].as_int());
            }
            out[i] = self.data[0][i].numeric_mul(other.data[0][i]);
        }
        let r = Self { data: [out] };
        proof {
            assert forall|i: int| 0 <= i < N implies #[trigger] r.model()[i] == self.model()[i]
                * other.model()[i] by {
                assert(r.model()[i] == out@[i].as_int());
            }
        }
        r
    }

    /// Every component multiplied by one scalar.
    pub fn scale(self, factor: T) -> (r: Self)
        requires
            forall|i: int|
                #![trigger self.model()[i]]
                0 <= i < N ==> T::min_int() <= self.model()[i] * factor.as_int() <= T::max_int(),
        ensures
            forall|i: int|
                #![trigger r.model()[i]]
                0 <= i < N ==> r.model()[i] == self.model()[i] * factor.as_int(),
    {
        let z = T::zero();
        let mut out: [T; N] = [z; N];
        for i in 0..N
            invariant
                forall|j: int|
                    #![trigger out@[j]]
                    0 <= j < i ==> out@[j].as_int() == self.model()[j] * factor.as_int(),
                forall|j: int|
                    #![trigger self.model()[j]]
                    0 <= j < N ==> T::min_int() <= self.model()[j] * factor.as_int()
                        <= T::max_int(),
        {
            proof {
                assert(self.model()[i as int] == self.data[0][i as int].as_int());
            }
            out[i] = self.data[0][i].numeric_mul(factor);
        }
        let r = Self { data: [out] };
        proof {
            assert forall|i: int| 0 <= i < N implies #[trigger] r.model()[i] == self.model()[i]
                * factor.as_int() by {
                assert(r.model()[i] == out@[i].as_int());
            }
        }
        r
    }
}

impl<T: Numeric> Vector<T, 3> {
    /// The cross product, computed by rotating, multiplying componentwise
    /// and subtracting. The preconditions keep each product and each
    /// difference representable.
    pub fn cross(self, other: Self) -> (r: Self)
        requires
            T::min_int() <= self.model()[1] * other.model()[2] <= T::max_int(),
            T::min_int() <= self.model()[2] * other.model()[1] <= T::max_int(),
            T::min_int() <= self.model()[2] * other.model()[0] <= T::max_int(),
            T::min_int() <= self.model()[0] * other.model()[2] <= T::max_int(),
            T::min_int() <= self.model()[0] * other.model()[1] <= T::max_int(),
            T::min_int() <= self.model()[1] * other.model()[0] <= T::max_int(),
            T::min_int() <= self.model()[1] * other.model()[2] - self.model()[2] * other.model()[1]
                <= T::max_int(),
            T::min_int() <= self.model()[2] * other.model()[0] - self.model()[0] * other.model()[2]
                <= T::max_int(),
            T::min_int() <= self.model()[0] * other.model()[1] - self.model()[1] * other.model()[0]
                <= T::max_int(),
        ensures
            r.model()[0] == self.model()[1] * other.model()[2] - self.model()[2] * other.model()[1],
            r.model()[1] == self.model()[2] * other.model()[0] - self.model()[0] * other.model()[2],
            r.model()[2] == self.model()[0] * other.model()[1] - self.model()[1] * other.model()[0],
    {
        let rotated = self.zxy();
        proof {
            assert(rotated.model()[0] == self.model()[2]);
            assert(rotated.model()[1] == self.model()[0]);
            assert(rotated.model()[2] == self.model()[1]);
        }
        let left = rotated.mul_by_component(other);
        let other_rotated = other.zxy();
        proof {
            assert(other_rotated.model()[0] == other.model()[2]);
            assert(other_rotated.model()[1] == other.model()[0]);
            assert(other_rotated.model()[2] == other.model()[1]);
        }
        let right = self.mul_by_component(other_rotated);
        proof {
            assert(left.model()[0] == self.model()[2] * other.model()[0]);
            assert(left.model()[1] == self.model()[0] * other.model()[1]);
            assert(left.model()[2] == self.model()[1] * other.model()[2]);
            assert(right.model()[0] == self.model()[0] * other.model()[2]);
            assert(right.model()[1] == self.model()[1] * other.model()[0]);
            assert(right.model()[2] == self.model()[2] * other.model()[1]);
        }
        let diff = left.sub_by_component(right);
        let r = diff.zxy();
        proof {
            assert(diff.model()[0] == self.model()[2] * other.model()[0] - self.model()[0]
                * other.model()[2]);
            assert(diff.model()[1] == self.model()[0] * other.model()[1] - self.model()[1]
                * other.model()[0]);
            assert(diff.model()[2] == self.model()[1] * other.model()[2] - self.model()[2]
                * other.model()[1]);
            assert(r.model()[0] == diff.model()[2]);
            assert(r.model()[1] == diff.model()[0]);
            assert(r.model()[2] == diff.model()[1]);
        }
        r
    }
}

/// Lengthening a vector by one trailing component.
pub trait Extend<T>: Sized {
    type ExtendTo;

    fn extend(self, value: T) -> Self::ExtendTo;
}

impl<T: Numeric> Extend<T> for Vector<T, 1> {
    type ExtendTo = Vector<T, 2>;

    fn extend(self, y: T) -> (r: Vector<T, 2>)
        ensures
            r.data[0][0] == self.data[0][0],
            r.data[0][1] == y,
    {
        Vector::<T, 2>::new(self.data[0][0], y)
    }
}

impl<T: Numeric> Extend<T> for Vector<T, 2> {
    type ExtendTo = Vector<T, 3>;

    fn extend(self, z: T) -> (r: Vector<T, 3>)
        ensures
            r.data[0][0] == self.data[0][0],
            r.data[0][1] == self.data[0][1],
            r.data[0][2] == z,
    {
        Vector::<T, 3>::new(self.data[0][0], self.data[0][1], z)
    }
}

impl<T: Numeric> Extend<T> for Vector<T, 3> {
    type ExtendTo = Vector<T, 4>;

    fn extend(self, w: T) -> (r: Vector<T, 4>)
        ensures
            r.data[0][0] == self.data[0][0],
            r.data[0][1] == self.data[0][1],
            r.data[0][2] == self.data[0][2],
            r.data[0][3] == w,
    {
        Vector::<T, 4>::new(self.data[0][0], self.data[0][1], self.data[0][2], w)
    }
}

/// Named fields of a two-component vector.
#[derive(Clone, Copy, Debug, PartialEq)]
pub struct XY<T> {
    pub x: T,
    pub y: T,
}

/// Named fields of a three-component vector.
#[derive(Clone, Copy, Debug, PartialEq)]
pub struct XYZ<T> {
    pub x: T,
    pub y: T,
    pub z: T,
}

/// Named fields of a four-component vector.
#[derive(Clone, Copy, Debug, PartialEq)]
pub struct XYZW<T> {
    pub x: T,
    pub y: T,
    pub z: T,
    pub w: T,
}

impl<T: Numeric> From<Vector<T, 2>> for XY<T> {
    fn from(v: Vector<T, 2>) -> (r: XY<T>) {
        XY { x: v.data[0][0], y: v.data[0][1] }
    }
}

impl<T: Numeric> vstd::std_specs::convert::FromSpecImpl<Vector<T, 2>> for XY<T> {
    open spec fn obeys_from_spec() -> bool {
        true
    }

    open spec fn from_spec(v: Vector<T, 2>) -> XY<T> {
        XY { x: v.data[0][0], y: v.data[0][1] }
    }
}

impl<T: Numeric> From<Vector<T, 3>> for XYZ<T> {
    fn from(v: Vector<T, 3>) -> (r: XYZ<T>) {
        XYZ { x: v.data[0][0], y: v.data[0][1], z: v.data[0][2] }
    }
}

impl<T: Numeric> vstd::std_specs::convert::FromSpecImpl<Vector<T, 3>> for XYZ<T> {
    open spec fn obeys_from_spec() -> bool {
        true
    }

    open spec fn from_spec(v: Vector<T, 3>) -> XYZ<T> {
        XYZ { x: v.data[0][0], y: v.data[0][1], z: v.data[0][2] }
    }
}

impl<T: Numeric> From<Vector<T, 4>> for XYZW<T> {
    fn from(v: Vector<T, 4>) -> (r: XYZW<T>) {
        XYZW { x: v.data[0][0], y: v.data[0][1], z: v.data[0][2], w: v.data[0][3] }
    }
}

impl<T: Numeric> vstd::std_specs::convert::FromSpecImpl<Vector<T, 4>> for XYZW<T> {
    open spec fn obeys_from_spec() -> bool {
        true
    }

    open spec fn from_spec(v: Vector<T, 4>) -> XYZW<T> {
        XYZW { x: v.data[0][0], y: v.data[0][1], z: v.data[0][2], w: v.data[0][3] }
    }
}

} // verus!
