use vstd::prelude::*;

use crate::numeric_traits::Numeric;
use crate::vector::{dot_model, dot_prefix, Vector};

verus! {

/// The mathematical mirror reflection of `incident` about `normal`:
/// `incident - normal * 2 * dot(incident, normal)`, componentwise.
pub open spec fn reflect_model(incident: Seq<int>, normal: Seq<int>) -> Seq<int> {
    Seq::new(
        incident.len(),
        |i: int| incident[i] - normal[i] * 2 * dot_model(incident, normal),
    )
}

/// Mirror-reflects `incident` about `normal`. The preconditions keep every
/// intermediate value representable; the result is exactly
/// `incident - normal * 2 * dot(incident, normal)`.
pub fn reflect_on_normal<T: Numeric>(incident: Vector<T, 3>, normal: Vector<T, 3>) -> (r: Vector<
    T,
    3,
>)
    requires
        T::min_int() <= incident.model()[0] * normal.model()[0] <= T::max_int(),
        T::min_int() <= incident.model()[1] * normal.model()[1] <= T::max_int(),
        T::min_int() <= incident.model()[2] * normal.model()[2] <= T::max_int(),
        T::min_int() <= incident.model()[0] * normal.model()[0] + incident.model()[1]
            * normal.model()[1] <= T::max_int(),
        T::min_int() <= 2 * dot_model(incident.model(), normal.model()),
        2 * dot_model(incident.model(), normal.model()) <= T::max_int(),
        T::min_int() <= normal.model()[0] * (2 * dot_model(incident.model(), normal.model()))
            <= T::max_int(),
        T::min_int() <= normal.model()[1] * (2 * dot_model(incident.model(), normal.model()))
            <= T::max_int(),
        T::min_int() <= normal.model()[2] * (2 * dot_model(incident.model(), normal.model()))
            <= T::max_int(),
        T::min_int() <= incident.model()[0] - normal.model()[0] * 2 * dot_model(
            incident.model(),
            normal.model(),
        ) <= T::max_int(),
        T::min_int() <= incident.model()[1] - normal.model()[1] * 2 * dot_model(
            incident.model(),
            normal.model(),
        ) <= T::max_int(),
        T::min_int() <= incident.model()[2] - normal.model()[2] * 2 * dot_model(
            incident.model(),
            normal.model(),
        ) <= T::max_int(),
    ensures
        r.model() == reflect_model(incident.model(), normal.model()),
{
    let ghost mi = incident.model();
    let ghost nm = normal.model();
    proof {
        T::lemma_range_contains_small_values();
        assert forall|i: int| #![trigger mi[i]] 0 <= i < 3 implies T::min_int() <= mi[i] * nm[i]
            <= T::max_int() by {
            assert(i == 0 || i == 1 || i == 2);
        }
        assert(dot_prefix(mi, nm, 0) == 0);
        assert(dot_prefix(mi, nm, 1) == mi[0] * nm[0]);
        assert(dot_prefix(mi, nm, 2) == dot_prefix(mi, nm, 1) + mi[1] * nm[1]);
        assert(dot_prefix(mi, nm, 3) == dot_prefix(mi, nm, 2) + mi[2] * nm[2]);
        assert(dot_model(mi, nm) == dot_prefix(mi, nm, 3));
        assert forall|k: int| 0 <= k <= 3 implies T::min_int() <= #[trigger] dot_prefix(mi, nm, k)
            <= T::max_int() by {
            assert(k == 0 || k == 1 || k == 2 || k == 3);
            assert(T::min_int() <= 2 * dot_prefix(mi, nm, 3) <= T::max_int());
        }
    }
    let d = incident.dot(normal);
    let twice_d = T::two().numeric_mul(d);
    let scaled = normal.scale(twice_d);
    proof {
        assert forall|i: int|
            #![trigger incident.model()[i]]
            0 <= i < 3 implies T::min_int() <= incident.model()[i] - scaled.model()[i]
            <= T::max_int() by {
            assert(i == 0 || i == 1 || i == 2);
            assert(scaled.model()[i] == nm[i] * (2 * dot_model(mi, nm)));
            assert(nm[i] * (2 * dot_model(mi, nm)) == nm[i] * 2 * dot_model(mi, nm))
                by (nonlinear_arith);
        }
    }
    let r = incident.sub_by_component(scaled);
    proof {
        assert forall|i: int| 0 <= i < 3 implies #[trigger] r.model()[i] == reflect_model(mi, nm)[i]
            by {
            assert(scaled.model()[i] == nm[i] * (2 * dot_model(mi, nm)));
            assert(nm[i] * (2 * dot_model(mi, nm)) == nm[i] * 2 * dot_model(mi, nm)) by (nonlinear_arith);
        }
        assert(r.model() =~= reflect_model(mi, nm));
    }
    r
}

} // verus!
