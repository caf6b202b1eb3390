use vstd::prelude::*;
use vstd::std_specs::ops::{AddSpec, BitAndSpec, BitOrSpec, BitXorSpec, DivSpec, MulSpec, NegSpec, NotSpec, RemSpec, ShlSpec, ShrSpec, SubSpec};

use crate::vector::Vec3;

verus! {

impl<T: Copy + core::ops::Add<Output = T>> vstd::std_specs::ops::AddSpecImpl for Vec3<T> {
    open spec fn obeys_add_spec() -> bool {
        T::obeys_add_spec()
    }

    open spec fn add_req(self, rhs: Self) -> bool {
        self.x.add_req(rhs.x) && self.y.add_req(rhs.y) && self.z.add_req(rhs.z)
    }

    open spec fn add_spec(self, rhs: Self) -> Self {
        Vec3 { x: self.x.add_spec(rhs.x), y: self.y.add_spec(rhs.y), z: self.z.add_spec(rhs.z) }
    }
}

/// The componentwise sum.
impl<T: Copy + core::ops::Add<Output = T>> core::ops::Add for Vec3<T> {
    type Output = Self;

    fn add(self, rhs: Self) -> (r: Self) {
        Vec3 { x: self.x + rhs.x, y: self.y + rhs.y, z: self.z + rhs.z }
    }
}

impl<T: Copy + core::ops::Sub<Output = T>> vstd::std_specs::ops::SubSpecImpl for Vec3<T> {
    open spec fn obeys_sub_spec() -> bool {
        T::obeys_sub_spec()
    }

    open spec fn sub_req(self, rhs: Self) -> bool {
        self.x.sub_req(rhs.x) && self.y.sub_req(rhs.y) && self.z.sub_req(rhs.z)
    }

    open spec fn sub_spec(self, rhs: Self) -> Self {
        Vec3 { x: self.x.sub_spec(rhs.x), y: self.y.sub_spec(rhs.y), z: self.z.sub_spec(rhs.z) }
    }
}

/// The componentwise difference.
impl<T: Copy + core::ops::Sub<Output = T>> core::ops::Sub for Vec3<T> {
    type Output = Self;

    fn sub(self, rhs: Self) -> (r: Self) {
        Vec3 { x: self.x - rhs.x, y: self.y - rhs.y, z: self.z - rhs.z }
    }
}

impl<T: Copy + core::ops::BitAnd<Output = T>> vstd::std_specs::ops::BitAndSpecImpl for Vec3<T> {
    open spec fn obeys_bitand_spec() -> bool {
        T::obeys_bitand_spec()
    }

    open spec fn bitand_req(self, rhs: Self) -> bool {
        self.x.bitand_req(rhs.x) && self.y.bitand_req(rhs.y) && self.z.bitand_req(rhs.z)
    }

    open spec fn bitand_spec(self, rhs: Self) -> Self {
        Vec3 { x: self.x.bitand_spec(rhs.x), y: self.y.bitand_spec(rhs.y), z: self.z.bitand_spec(rhs.z) }
    }
}

/// The componentwise bitwise and.
impl<T: Copy + core::ops::BitAnd<Output = T>> core::ops::BitAnd for Vec3<T> {
    type Output = Self;

    fn bitand(self, rhs: Self) -> (r: Self) {
        Vec3 { x: self.x & rhs.x, y: self.y & rhs.y, z: self.z & rhs.z }
    }
}

impl<T: Copy + core::ops::BitOr<Output = T>> vstd::std_specs::ops::BitOrSpecImpl for Vec3<T> {
    open spec fn obeys_bitor_spec() -> bool {
        T::obeys_bitor_spec()
    }

    open spec fn bitor_req(self, rhs: Self) -> bool {
        self.x.bitor_req(rhs.x) && self.y.bitor_req(rhs.y) && self.z.bitor_req(rhs.z)
    }

    open spec fn bitor_spec(self, rhs: Self) -> Self {
        Vec3 { x: self.x.bitor_spec(rhs.x), y: self.y.bitor_spec(rhs.y), z: self.z.bitor_spec(rhs.z) }
    }
}

/// The componentwise bitwise or.
impl<T: Copy + core::ops::BitOr<Output = T>> core::ops::BitOr for Vec3<T> {
    type Output = Self;

    fn bitor(self, rhs: Self) -> (r: Self) {
        Vec3 { x: self.x | rhs.x, y: self.y | rhs.y, z: self.z | rhs.z }
    }
}

impl<T: Copy + core::ops::BitXor<Output = T>> vstd::std_specs::ops::BitXorSpecImpl for Vec3<T> {
    open spec fn obeys_bitxor_spec() -> bool {
        T::obeys_bitxor_spec()
    }

    open spec fn bitxor_req(self, rhs: Self) -> bool {
        self.x.bitxor_req(rhs.x) && self.y.bitxor_req(rhs.y) && self.z.bitxor_req(rhs.z)
    }

    open spec fn bitxor_spec(self, rhs: Self) -> Self {
        Vec3 { x: self.x.bitxor_spec(rhs.x), y: self.y.bitxor_spec(rhs.y), z: self.z.bitxor_spec(rhs.z) }
    }
}

/// The componentwise bitwise exclusive or.
impl<T: Copy + core::ops::BitXor<Output = T>> core::ops::BitXor for Vec3<T> {
    type Output = Self;

    fn bitxor(self, rhs: Self) -> (r: Self) {
        Vec3 { x: self.x ^ rhs.x, y: self.y ^ rhs.y, z: self.z ^ rhs.z }
    }
}

impl<T: Copy + core::ops::Mul<Output = T>> vstd::std_specs::ops::MulSpecImpl<T> for Vec3<T> {
    open spec fn obeys_mul_spec() -> bool {
        T::obeys_mul_spec()
    }

    open spec fn mul_req(self, rhs: T) -> bool {
        self.x.mul_req(rhs) && self.y.mul_req(rhs) && self.z.mul_req(rhs)
    }

    open spec fn mul_spec(self, rhs: T) -> Self {
        Vec3 { x: self.x.mul_spec(rhs), y: self.y.mul_spec(rhs), z: self.z.mul_spec(rhs) }
    }
}

/// The product of each component by one scalar.
impl<T: Copy + core::ops::Mul<Output = T>> core::ops::Mul<T> for Vec3<T> {
    type Output = Self;

    fn mul(self, rhs: T) -> (r: Self) {
        Vec3 { x: self.x * rhs, y: self.y * rhs, z: self.z * rhs }
    }
}

impl<T: Copy + core::ops::Div<Output = T>> vstd::std_specs::ops::DivSpecImpl<T> for Vec3<T> {
    open spec fn obeys_div_spec() -> bool {
        T::obeys_div_spec()
    }

    open spec fn div_req(self, rhs: T) -> bool {
        self.x.div_req(rhs) && self.y.div_req(rhs) && self.z.div_req(rhs)
    }

    open spec fn div_spec(self, rhs: T) -> Self {
        Vec3 { x: self.x.div_spec(rhs), y: self.y.div_spec(rhs), z: self.z.div_spec(rhs) }
    }
}

/// The quotient of each component by one scalar.
impl<T: Copy + core::ops::Div<Output = T>> core::ops::Div<T> for Vec3<T> {
    type Output = Self;

    fn div(self, rhs: T) -> (r: Self) {
        Vec3 { x: self.x / rhs, y: self.y / rhs, z: self.z / rhs }
    }
}

impl<T: Copy + core::ops::Rem<Output = T>> vstd::std_specs::ops::RemSpecImpl<T> for Vec3<T> {
    open spec fn obeys_rem_spec() -> bool {
        T::obeys_rem_spec()
    }

    open spec fn rem_req(self, rhs: T) -> bool {
        self.x.rem_req(rhs) && self.y.rem_req(rhs) && self.z.rem_req(rhs)
    }

    open spec fn rem_spec(self, rhs: T) -> Self {
        Vec3 { x: self.x.rem_spec(rhs), y: self.y.rem_spec(rhs), z: self.z.rem_spec(rhs) }
    }
}

/// The remainder of each component by one scalar.
impl<T: Copy + core::ops::Rem<Output = T>> core::ops::Rem<T> for Vec3<T> {
    type Output = Self;

    fn rem(self, rhs: T) -> (r: Self) {
        Vec3 { x: self.x % rhs, y: self.y % rhs, z: self.z % rhs }
    }
}

impl<T: Copy + core::ops::Shl<Output = T>> vstd::std_specs::ops::ShlSpecImpl<T> for Vec3<T> {
    open spec fn obeys_shl_spec() -> bool {
        T::obeys_shl_spec()
    }

    open spec fn shl_req(self, rhs: T) -> bool {
        self.x.shl_req(rhs) && self.y.shl_req(rhs) && self.z.shl_req(rhs)
    }

    open spec fn shl_spec(self, rhs: T) -> Self {
        Vec3 { x: self.x.shl_spec(rhs), y: self.y.shl_spec(rhs), z: self.z.shl_spec(rhs) }
    }
}

/// The left shift of each component by one scalar.
impl<T: Copy + core::ops::Shl<Output = T>> core::ops::Shl<T> for Vec3<T> {
    type Output = Self;

    fn shl(self, rhs: T) -> (r: Self) {
        Vec3 { x: self.x << rhs, y: self.y << rhs, z: self.z << rhs }
    }
}

impl<T: Copy + core::ops::Shr<Output = T>> vstd::std_specs::ops::ShrSpecImpl<T> for Vec3<T> {
    open spec fn obeys_shr_spec() -> bool {
        T::obeys_shr_spec()
    }

    open spec fn shr_req(self, rhs: T) -> bool {
        self.x.shr_req(rhs) && self.y.shr_req(rhs) && self.z.shr_req(rhs)
    }

    open spec fn shr_spec(self, rhs: T) -> Self {
        Vec3 { x: self.x.shr_spec(rhs), y: self.y.shr_spec(rhs), z: self.z.shr_spec(rhs) }
    }
}

/// The right shift of each component by one scalar.
impl<T: Copy + core::ops::Shr<Output = T>> core::ops::Shr<T> for Vec3<T> {
    type Output = Self;

    fn shr(self, rhs: T) -> (r: Self) {
        Vec3 { x: self.x >> rhs, y: self.y >> rhs, z: self.z >> rhs }
    }
}

impl<T: Copy + core::ops::Neg<Output = T>> vstd::std_specs::ops::NegSpecImpl for Vec3<T> {
    open spec fn obeys_neg_spec() -> bool {
        T::obeys_neg_spec()
    }

    open spec fn neg_req(self) -> bool {
        self.x.neg_req() && self.y.neg_req() && self.z.neg_req()
    }

    open spec fn neg_spec(self) -> Self {
        Vec3 { x: self.x.neg_spec(), y: self.y.neg_spec(), z: self.z.neg_spec() }
    }
}

/// The componentwise negation.
impl<T: Copy + core::ops::Neg<Output = T>> core::ops::Neg for Vec3<T> {
    type Output = Self;

    fn neg(self) -> (r: Self) {
        Vec3 { x: core::ops::Neg::neg(self.x), y: core::ops::Neg::neg(self.y), z: core::ops::Neg::neg(self.z) }
    }
}

impl<T: Copy + core::ops::Not<Output = T>> vstd::std_specs::ops::NotSpecImpl for Vec3<T> {
    open spec fn obeys_not_spec() -> bool {
        T::obeys_not_spec()
    }

    open spec fn not_req(self) -> bool {
        self.x.not_req() && self.y.not_req() && self.z.not_req()
    }

    open spec fn not_spec(self) -> Self {
        Vec3 { x: self.x.not_spec(), y: self.y.not_spec(), z: self.z.not_spec() }
    }
}

/// The componentwise bitwise complement.
impl<T: Copy + core::ops::Not<Output = T>> core::ops::Not for Vec3<T> {
    type Output = Self;

    fn not(self) -> (r: Self) {
        Vec3 { x: core::ops::Not::not(self.x), y: core::ops::Not::not(self.y), z: core::ops::Not::not(self.z) }
    }
}

impl<T: Copy + core::ops::Add<Output = T>> Vec3<T> {
    /// In place: `*self = *self + rhs`.
    pub fn add_assign(&mut self, rhs: Self)
        requires
            old(self).add_req(rhs),
        ensures
            T::obeys_add_spec() ==> *final(self) == old(self).add_spec(rhs),
    {
        *self = *self + rhs;
    }
}

impl<T: Copy + core::ops::Sub<Output = T>> Vec3<T> {
    /// In place: `*self = *self - rhs`.
    pub fn sub_assign(&mut self, rhs: Self)
        requires
            old(self).sub_req(rhs),
        ensures
            T::obeys_sub_spec() ==> *final(self) == old(self).sub_spec(rhs),
    {
        *self = *self - rhs;
    }
}

impl<T: Copy + core::ops::BitAnd<Output = T>> Vec3<T> {
    /// In place: `*self = *self & rhs`.
    pub fn bitand_assign(&mut self, rhs: Self)
        requires
            old(self).bitand_req(rhs),
        ensures
            T::obeys_bitand_spec() ==> *final(self) == old(self).bitand_spec(rhs),
    {
        *self = *self & rhs;
    }
}

impl<T: Copy + core::ops::BitOr<Output = T>> Vec3<T> {
    /// In place: `*self = *self | rhs`.
    pub fn bitor_assign(&mut self, rhs: Self)
        requires
            old(self).bitor_req(rhs),
        ensures
            T::obeys_bitor_spec() ==> *final(self) == old(self).bitor_spec(rhs),
    {
        *self = *self | rhs;
    }
}

impl<T: Copy + core::ops::BitXor<Output = T>> Vec3<T> {
    /// In place: `*self = *self ^ rhs`.
    pub fn bitxor_assign(&mut self, rhs: Self)
        requires
            old(self).bitxor_req(rhs),
        ensures
            T::obeys_bitxor_spec() ==> *final(self) == old(self).bitxor_spec(rhs),
    {
        *self = *self ^ rhs;
    }
}

impl<T: Copy + core::ops::Mul<Output = T>> Vec3<T> {
    /// In place: `*self = *self * rhs`.
    pub fn mul_assign(&mut self, rhs: T)
        requires
            old(self).mul_req(rhs),
        ensures
            T::obeys_mul_spec() ==> *final(self) == old(self).mul_spec(rhs),
    {
        *self = *self * rhs;
    }
}

impl<T: Copy + core::ops::Div<Output = T>> Vec3<T> {
    /// In place: `*self = *self / rhs`.
    pub fn div_assign(&mut self, rhs: T)
        requires
            old(self).div_req(rhs),
        ensures
            T::obeys_div_spec() ==> *final(self) == old(self).div_spec(rhs),
    {
        *self = *self / rhs;
    }
}

impl<T: Copy + core::ops::Rem<Output = T>> Vec3<T> {
    /// In place: `*self = *self % rhs`.
    pub fn rem_assign(&mut self, rhs: T)
        requires
            old(self).rem_req(rhs),
        ensures
            T::obeys_rem_spec() ==> *final(self) == old(self).rem_spec(rhs),
    {
        *self = *self % rhs;
    }
}

impl<T: Copy + core::ops::Shl<Output = T>> Vec3<T> {
    /// In place: `*self = *self << rhs`.
    pub fn shl_assign(&mut self, rhs: T)
        requires
            old(self).shl_req(rhs),
        ensures
            T::obeys_shl_spec() ==> *final(self) == old(self).shl_spec(rhs),
    {
        *self = *self << rhs;
    }
}

impl<T: Copy + core::ops::Shr<Output = T>> Vec3<T> {
    /// In place: `*self = *self >> rhs`.
    pub fn shr_assign(&mut self, rhs: T)
        requires
            old(self).shr_req(rhs),
        ensures
            T::obeys_shr_spec() ==> *final(self) == old(self).shr_spec(rhs),
    {
        *self = *self >> rhs;
    }
}

} // verus!
