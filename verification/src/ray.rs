use vstd::prelude::*;

use crate::numeric_traits::Numeric;
use crate::vector::Vector;

verus! {

/// A half-line through `origin` along `direction`. The direction need not
/// be normalised; points on the ray are `origin + t * direction`.
#[derive(Clone, Copy, Debug, PartialEq)]
pub struct Ray<T, const N: usize> {
    pub origin: Vector<T, N>,
    pub direction: Vector<T, N>,
}

/// The parametric point `origin + t * direction`, componentwise.
pub open spec fn at_model(origin: Seq<int>, direction: Seq<int>, t: int) -> Seq<int> {
    Seq::new(origin.len(), |i: int| origin[i] + t * direction[i])
}

impl<T: Numeric, const N: usize> Ray<T, N> {
    pub fn new(origin: Vector<T, N>, direction: Vector<T, N>) -> (r: Self)
        ensures
            r.origin == origin,
            r.direction == direction,
    {
        Self { origin, direction }
    }

    /// The point at parameter `t`: exactly `origin + t * direction` in
    /// every component. The preconditions keep each scaled component and
    /// each sum representable.
    pub fn at(&self, t: T) -> (r: Vector<T, N>)
        requires
            forall|i: int|
                #![trigger self.direction.model()[i]]
                0 <= i < N ==> T::min_int() <= self.direction.model()[i] * t.as_int()
                    <= T::max_int(),
            forall|i: int|
                #![trigger self.origin.model()[i]]
                0 <= i < N ==> T::min_int() <= self.origin.model()[i]
                    + self.direction.model()[i] * t.as_int() <= T::max_int(),
        ensures
            r.model() == at_model(self.origin.model(), self.direction.model(), t.as_int()),
    {
        let scaled = self.direction.scale(t);
        proof {
            assert forall|i: int|
                #![trigger self.origin.model()[i]]
                0 <= i < N implies T::min_int() <= self.origin.model()[i] + scaled.model()[i]
                <= T::max_int() by {
                assert(scaled.model()[i] == self.direction.model()[i] * t.as_int());
            }
        }
        let r = self.origin.add_by_component(scaled);
        proof {
            assert forall|i: int| 0 <= i < N implies #[trigger] r.model()[i] == at_model(
                self.origin.model(),
                self.direction.model(),
                t.as_int(),
            )[i] by {
                assert(scaled.model()[i] == self.direction.model()[i] * t.as_int());
                assert(self.origin.model()[i] + self.direction.model()[i] * t.as_int()
                    == self.origin.model()[i] + t.as_int() * self.direction.model()[i])
                    by (nonlinear_arith);
            }
            assert(r.model() =~= at_model(self.origin.model(), self.direction.model(), t.as_int()));
        }
        r
    }
}

/// Law: a ray's parametric point is affine in its parameter. For any three
/// parameters, the componentwise differences of the points scale exactly
/// with the differences of the parameters; this is the division-free form
/// of `at(t1) + (at(t2) - at(t1)) * (t3 - t1) / (t2 - t1) == at(t3)`.
pub proof fn lemma_at_affine(origin: Seq<int>, direction: Seq<int>, t1: int, t2: int, t3: int)
    requires
        origin.len() == direction.len(),
    ensures
        forall|i: int|
            #![trigger at_model(origin, direction, t3)[i]]
            0 <= i < origin.len() ==> (at_model(origin, direction, t3)[i] - at_model(
                origin,
                direction,
                t1,
            )[i]) * (t2 - t1) == (at_model(origin, direction, t2)[i] - at_model(
                origin,
                direction,
                t1,
            )[i]) * (t3 - t1),
{
    assert forall|i: int| 0 <= i < origin.len() implies (#[trigger] at_model(
        origin,
        direction,
        t3,
    )[i] - at_model(origin, direction, t1)[i]) * (t2 - t1) == (at_model(origin, direction, t2)[i]
        - at_model(origin, direction, t1)[i]) * (t3 - t1) by {
        let o = origin[i];
        let d = direction[i];
        assert(at_model(origin, direction, t3)[i] == o + t3 * d);
        assert(at_model(origin, direction, t2)[i] == o + t2 * d);
        assert(at_model(origin, direction, t1)[i] == o + t1 * d);
        assert(((o + t3 * d) - (o + t1 * d)) * (t2 - t1) == ((o + t2 * d) - (o + t1 * d)) * (t3
            - t1)) by (nonlinear_arith);
    }
}

} // verus!
