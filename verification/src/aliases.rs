use vstd::prelude::*;

use crate::vector::Vector;

verus! {

pub type Vec2i = Vector<i32, 2>;

pub type Vec3i = Vector<i32, 3>;

pub type Vec4i = Vector<i32, 4>;

pub type Vec2u = Vector<usize, 2>;

pub type Vec3u = Vector<usize, 3>;

pub type Vec4u = Vector<usize, 4>;

} // verus!
