use vstd::prelude::*;
use vstd::std_specs::ops::{AddSpec, MulSpec, SubSpec};

verus! {

/// A value made of three components of one type.
///
/// Every combination of components is a valid vector; two vectors are equal
/// when their components are.
#[derive(Clone, Copy, Debug, PartialEq, Eq, Structural)]
pub struct Vec3<T> where T: Copy {
    pub x: T,
    pub y: T,
    pub z: T,
}

impl<T: Copy + Default> Default for Vec3<T> {
    /// Each component is the component type's own default (zero for numbers):
    /// one value that `T::default()` returned, in all three places.
    fn default() -> (r: Self)
        ensures
            call_ensures(T::default, (), r.x),
            r.x == r.y && r.y == r.z,
    {
        let d = T::default();
        Vec3 { x: d, y: d, z: d }
    }
}

impl<T: Copy> Vec3<T> {
    /// The component at `idx`: `x`, `y`, `z` for 0, 1, 2.
    pub open spec fn spec_component(self, idx: int) -> T
        recommends
            0 <= idx < 3,
    {
        if idx == 0 {
            self.x
        } else if idx == 1 {
            self.y
        } else {
            self.z
        }
    }

    /// This vector with the component at `idx` replaced by `v`.
    pub open spec fn with_component(self, idx: int, v: T) -> Self {
        if idx == 0 {
            Vec3 { x: v, ..self }
        } else if idx == 1 {
            Vec3 { y: v, ..self }
        } else {
            Vec3 { z: v, ..self }
        }
    }

    /// Checked read access: `Some` of the component for 0, 1, 2 and `None`
    /// for any other index.
    pub fn get(&self, idx: usize) -> (r: Option<T>)
        ensures
            idx < 3 ==> r == Some(self.spec_component(idx as int)),
            idx >= 3 ==> r is None,
    {
        match idx {
            0 => Some(self.x),
            1 => Some(self.y),
            2 => Some(self.z),
            _ => None,
        }
    }

    /// Checked write access: a reference to the component for 0, 1, 2 and
    /// `None` for any other index, in which case the vector is unchanged.
    pub fn get_mut(&mut self, idx: usize) -> (r: Option<&mut T>)
        ensures
            idx < 3 ==> r is Some && *r.unwrap() == old(self).spec_component(idx as int)
                && *final(self) == old(self).with_component(idx as int, *final(r.unwrap())),
            idx >= 3 ==> r is None && *final(self) == *old(self),
    {
        match idx {
            0 => Some(&mut self.x),
            1 => Some(&mut self.y),
            2 => Some(&mut self.z),
            _ => None,
        }
    }
}

impl<T: Copy + core::ops::Mul<Output = T> + core::ops::Add<Output = T>> Vec3<T> {
    /// `self.x * rhs.x + self.y * rhs.y + self.z * rhs.z`, in the component
    /// type's arithmetic, summed left to right.
    pub open spec fn dot_spec(self, rhs: Self) -> T {
        self.x.mul_spec(rhs.x).add_spec(self.y.mul_spec(rhs.y)).add_spec(self.z.mul_spec(rhs.z))
    }

    /// Every product and sum of `dot_spec` is defined in the component type.
    pub open spec fn dot_req(self, rhs: Self) -> bool {
        &&& self.x.mul_req(rhs.x)
        &&& self.y.mul_req(rhs.y)
        &&& self.z.mul_req(rhs.z)
        &&& self.x.mul_spec(rhs.x).add_req(self.y.mul_spec(rhs.y))
        &&& self.x.mul_spec(rhs.x).add_spec(self.y.mul_spec(rhs.y)).add_req(self.z.mul_spec(rhs.z))
    }

    /// The squared length: the dot product of the vector with itself.
    pub fn len_squared(&self) -> (r: T)
        requires
            T::obeys_mul_spec(),
            T::obeys_add_spec(),
            self.dot_req(*self),
        ensures
            r == self.dot_spec(*self),
    {
        self.x * self.x + self.y * self.y + self.z * self.z
    }

    /// The dot product.
    pub fn dot(&self, rhs: &Self) -> (r: T)
        requires
            T::obeys_mul_spec(),
            T::obeys_add_spec(),
            self.dot_req(*rhs),
        ensures
            r == self.dot_spec(*rhs),
    {
        self.x * rhs.x + self.y * rhs.y + self.z * rhs.z
    }
}

impl<T: Copy + core::ops::Mul<Output = T> + core::ops::Sub<Output = T>> Vec3<T> {
    /// The right-handed cross product, in the component type's arithmetic.
    pub open spec fn cross_spec(self, rhs: Self) -> Self {
        Vec3 {
            x: self.y.mul_spec(rhs.z).sub_spec(self.z.mul_spec(rhs.y)),
            y: self.z.mul_spec(rhs.x).sub_spec(self.x.mul_spec(rhs.z)),
            z: self.x.mul_spec(rhs.y).sub_spec(self.y.mul_spec(rhs.x)),
        }
    }

    /// Every product and difference of `cross_spec` is defined in the
    /// component type.
    pub open spec fn cross_req(self, rhs: Self) -> bool {
        &&& self.y.mul_req(rhs.z)
        &&& self.z.mul_req(rhs.y)
        &&& self.z.mul_req(rhs.x)
        &&& self.x.mul_req(rhs.z)
        &&& self.x.mul_req(rhs.y)
        &&& self.y.mul_req(rhs.x)
        &&& self.y.mul_spec(rhs.z).sub_req(self.z.mul_spec(rhs.y))
        &&& self.z.mul_spec(rhs.x).sub_req(self.x.mul_spec(rhs.z))
        &&& self.x.mul_spec(rhs.y).sub_req(self.y.mul_spec(rhs.x))
    }

    /// The cross product
    /// `(y * rhs.z - z * rhs.y, z * rhs.x - x * rhs.z, x * rhs.y - y * rhs.x)`.
    pub fn cross(&self, rhs: &Self) -> (r: Vec3<T>)
        requires
            T::obeys_mul_spec(),
            T::obeys_sub_spec(),
            self.cross_req(*rhs),
        ensures
            r == self.cross_spec(*rhs),
    {
        Vec3 {
            x: self.y * rhs.z - self.z * rhs.y,
            y: self.z * rhs.x - self.x * rhs.z,
            z: self.x * rhs.y - self.y * rhs.x,
        }
    }
}

impl<T: Copy> Vec3<T> {
    /// Applies `f` to each component, in the order `x`, `y`, `z`.
    pub fn map<F, U>(&self, f: F) -> (r: Vec3<U>)
        where
            F: Fn(T) -> U,
            U: Copy,
        requires
            f.requires((self.x,)),
            f.requires((self.y,)),
            f.requires((self.z,)),
        ensures
            f.ensures((self.x,), r.x),
            f.ensures((self.y,), r.y),
            f.ensures((self.z,), r.z),
    {
        Vec3 { x: f(self.x), y: f(self.y), z: f(self.z) }
    }
}

impl<T: Copy + core::ops::Mul> Vec3<T> where <T as core::ops::Mul>::Output: Copy {
    /// The products of matching components; each is of the type that the
    /// component type's multiplication yields.
    pub fn elementwise_mul(&self, rhs: &Self) -> (r: Vec3<<T as core::ops::Mul>::Output>)
        requires
            self.x.mul_req(rhs.x),
            self.y.mul_req(rhs.y),
            self.z.mul_req(rhs.z),
        ensures
            T::obeys_mul_spec() ==> r == (Vec3 {
                x: self.x.mul_spec(rhs.x),
                y: self.y.mul_spec(rhs.y),
                z: self.z.mul_spec(rhs.z),
            }),
    {
        Vec3 { x: self.x * rhs.x, y: self.y * rhs.y, z: self.z * rhs.z }
    }
}

} // verus!
