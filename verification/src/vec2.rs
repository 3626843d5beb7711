//! The two-component vector type and its operations.
//!
//! Construction, field access and ring arithmetic are available for every
//! [`Scalar`] domain; ordering helpers require [`OrderScalar`]; negation and
//! the perpendicular rotation require [`SignedScalar`]. Every contract is
//! stated over the integer models of the components, which determine the
//! values exactly.

use vstd::prelude::*;

use crate::scalar::fits;
use crate::scalar::trunc_div;
use crate::scalar::trunc_rem;
use crate::scalar::OrderScalar;
use crate::scalar::Scalar;
use crate::scalar::SignedScalar;

verus! {

/// A two-component numeric vector: an `x` and a `y` scalar of one domain.
///
/// The two fields are independent; no relation between them is maintained.
/// Equality is structural: two vectors are equal exactly when both
/// components are equal.
#[derive(Clone, Copy, Debug)]
pub struct Vec2<T: Scalar> {
    pub x: T,
    pub y: T,
}

/// The failure of a conversion into a vector.
#[derive(Clone, Copy, Debug, PartialEq, Eq, Structural)]
pub enum Vec2Error {
    /// The dynamically sized sequence did not hold exactly two elements;
    /// carries the length that was observed.
    WrongLength(usize),
}

/// The greater of two scalars; on a tie the second one, the value compared
/// against.
pub open spec fn greater_of<T: Scalar>(a: T, b: T) -> T {
    if b.as_int() < a.as_int() {
        a
    } else {
        b
    }
}

/// The lesser of two scalars; on a tie the second one, the value compared
/// against.
pub open spec fn lesser_of<T: Scalar>(a: T, b: T) -> T {
    if a.as_int() < b.as_int() {
        a
    } else {
        b
    }
}

impl<T: Scalar> PartialEq for Vec2<T> {
    /// Structural equality: both components equal under the domain's equality.
    fn eq(&self, other: &Vec2<T>) -> (r: bool) {
        self.x.eq_val(other.x) && self.y.eq_val(other.y)
    }
}

impl<T: Scalar> vstd::std_specs::cmp::PartialEqSpecImpl for Vec2<T> {
    open spec fn obeys_eq_spec() -> bool {
        true
    }

    open spec fn eq_spec(&self, other: &Vec2<T>) -> bool {
        self.x.as_int() == other.x.as_int() && self.y.as_int() == other.y.as_int()
    }
}

impl<T: Scalar> Default for Vec2<T> {
    /// The vector of two additive identities.
    fn default() -> (v: Vec2<T>)
        ensures
            v.x.as_int() == 0,
            v.y.as_int() == 0,
    {
        Vec2 { x: T::zero_val(), y: T::zero_val() }
    }
}

impl<T: Scalar> Vec2<T> {
    /// Creates a vector from its two components.
    pub fn new(x: T, y: T) -> (v: Vec2<T>)
        ensures
            v.x == x,
            v.y == y,
    {
        Vec2 { x, y }
    }

    /// The X component.
    pub fn x(&self) -> (r: &T)
        ensures
            *r == self.x,
    {
        &self.x
    }

    /// The Y component.
    pub fn y(&self) -> (r: &T)
        ensures
            *r == self.y,
    {
        &self.y
    }

    /// Exclusive access to the X component; writes through the result are
    /// seen by every later read.
    pub fn x_mut(&mut self) -> (r: &mut T)
        ensures
            *r == old(self).x,
            *final(self) == (Vec2 { x: *final(r), y: old(self).y }),
    {
        &mut self.x
    }

    /// Exclusive access to the Y component.
    pub fn y_mut(&mut self) -> (r: &mut T)
        ensures
            *r == old(self).y,
            *final(self) == (Vec2 { x: old(self).x, y: *final(r) }),
    {
        &mut self.y
    }

    /// X squared plus Y squared, the squared magnitude.
    pub fn mag2(&self) -> (r: T)
        requires
            fits::<T>(self.x.as_int() * self.x.as_int()),
            fits::<T>(self.y.as_int() * self.y.as_int()),
            fits::<T>(
                self.x.as_int() * self.x.as_int() + self.y.as_int() * self.y.as_int(),
            ),
        ensures
            r.as_int() == self.x.as_int() * self.x.as_int() + self.y.as_int() * self.y.as_int(),
    {
        self.x.mul_val(self.x).add_val(self.y.mul_val(self.y))
    }

    /// Component-wise sum of two vectors.
    pub fn add(self, rhs: Vec2<T>) -> (r: Vec2<T>)
        requires
            fits::<T>(self.x.as_int() + rhs.x.as_int()),
            fits::<T>(self.y.as_int() + rhs.y.as_int()),
        ensures
            r.x.as_int() == self.x.as_int() + rhs.x.as_int(),
            r.y.as_int() == self.y.as_int() + rhs.y.as_int(),
    {
        Vec2 { x: self.x.add_val(rhs.x), y: self.y.add_val(rhs.y) }
    }

    /// Sum with a scalar broadcast to both components.
    pub fn add_scalar(self, rhs: T) -> (r: Vec2<T>)
        requires
            fits::<T>(self.x.as_int() + rhs.as_int()),
            fits::<T>(self.y.as_int() + rhs.as_int()),
        ensures
            r.x.as_int() == self.x.as_int() + rhs.as_int(),
            r.y.as_int() == self.y.as_int() + rhs.as_int(),
    {
        Vec2 { x: self.x.add_val(rhs), y: self.y.add_val(rhs) }
    }

    /// In-place counterpart of [`Vec2::add`].
    pub fn add_assign(&mut self, rhs: Vec2<T>)
        requires
            fits::<T>(old(self).x.as_int() + rhs.x.as_int()),
            fits::<T>(old(self).y.as_int() + rhs.y.as_int()),
        ensures
            final(self).x.as_int() == old(self).x.as_int() + rhs.x.as_int(),
            final(self).y.as_int() == old(self).y.as_int() + rhs.y.as_int(),
    {
        self.x = self.x.add_val(rhs.x);
        self.y = self.y.add_val(rhs.y);
    }

    /// In-place counterpart of [`Vec2::add_scalar`].
    pub fn add_assign_scalar(&mut self, rhs: T)
        requires
            fits::<T>(old(self).x.as_int() + rhs.as_int()),
            fits::<T>(old(self).y.as_int() + rhs.as_int()),
        ensures
            final(self).x.as_int() == old(self).x.as_int() + rhs.as_int(),
            final(self).y.as_int() == old(self).y.as_int() + rhs.as_int(),
    {
        self.x = self.x.add_val(rhs);
        self.y = self.y.add_val(rhs);
    }

    /// Component-wise difference of two vectors.
    pub fn sub(self, rhs: Vec2<T>) -> (r: Vec2<T>)
        requires
            fits::<T>(self.x.as_int() - rhs.x.as_int()),
            fits::<T>(self.y.as_int() - rhs.y.as_int()),
        ensures
            r.x.as_int() == self.x.as_int() - rhs.x.as_int(),
            r.y.as_int() == self.y.as_int() - rhs.y.as_int(),
    {
        Vec2 { x: self.x.sub_val(rhs.x), y: self.y.sub_val(rhs.y) }
    }

    /// Difference with a scalar broadcast to both components.
    pub fn sub_scalar(self, rhs: T) -> (r: Vec2<T>)
        requires
            fits::<T>(self.x.as_int() - rhs.as_int()),
            fits::<T>(self.y.as_int() - rhs.as_int()),
        ensures
            r.x.as_int() == self.x.as_int() - rhs.as_int(),
            r.y.as_int() == self.y.as_int() - rhs.as_int(),
    {
        Vec2 { x: self.x.sub_val(rhs), y: self.y.sub_val(rhs) }
    }

    /// In-place counterpart of [`Vec2::sub`].
    pub fn sub_assign(&mut self, rhs: Vec2<T>)
        requires
            fits::<T>(old(self).x.as_int() - rhs.x.as_int()),
            fits::<T>(old(self).y.as_int() - rhs.y.as_int()),
        ensures
            final(self).x.as_int() == old(self).x.as_int() - rhs.x.as_int(),
            final(self).y.as_int() == old(self).y.as_int() - rhs.y.as_int(),
    {
        self.x = self.x.sub_val(rhs.x);
        self.y = self.y.sub_val(rhs.y);
    }

    /// In-place counterpart of [`Vec2::sub_scalar`].
    pub fn sub_assign_scalar(&mut self, rhs: T)
        requires
            fits::<T>(old(self).x.as_int() - rhs.as_int()),
            fits::<T>(old(self).y.as_int() - rhs.as_int()),
        ensures
            final(self).x.as_int() == old(self).x.as_int() - rhs.as_int(),
            final(self).y.as_int() == old(self).y.as_int() - rhs.as_int(),
    {
        self.x = self.x.sub_val(rhs);
        self.y = self.y.sub_val(rhs);
    }

    /// Component-wise product of two vectors.
    pub fn mul(self, rhs: Vec2<T>) -> (r: Vec2<T>)
        requires
            fits::<T>(self.x.as_int() * rhs.x.as_int()),
            fits::<T>(self.y.as_int() * rhs.y.as_int()),
        ensures
            r.x.as_int() == self.x.as_int() * rhs.x.as_int(),
            r.y.as_int() == self.y.as_int() * rhs.y.as_int(),
    {
        Vec2 { x: self.x.mul_val(rhs.x), y: self.y.mul_val(rhs.y) }
    }

    /// Product with a scalar broadcast to both components.
    pub fn mul_scalar(self, rhs: T) -> (r: Vec2<T>)
        requires
            fits::<T>(self.x.as_int() * rhs.as_int()),
            fits::<T>(self.y.as_int() * rhs.as_int()),
        ensures
            r.x.as_int() == self.x.as_int() * rhs.as_int(),
            r.y.as_int() == self.y.as_int() * rhs.as_int(),
    {
        Vec2 { x: self.x.mul_val(rhs), y: self.y.mul_val(rhs) }
    }

    /// In-place counterpart of [`Vec2::mul`].
    pub fn mul_assign(&mut self, rhs: Vec2<T>)
        requires
            fits::<T>(old(self).x.as_int() * rhs.x.as_int()),
            fits::<T>(old(self).y.as_int() * rhs.y.as_int()),
        ensures
            final(self).x.as_int() == old(self).x.as_int() * rhs.x.as_int(),
            final(self).y.as_int() == old(self).y.as_int() * rhs.y.as_int(),
    {
        self.x = self.x.mul_val(rhs.x);
        self.y = self.y.mul_val(rhs.y);
    }

    /// In-place counterpart of [`Vec2::mul_scalar`].
    pub fn mul_assign_scalar(&mut self, rhs: T)
        requires
            fits::<T>(old(self).x.as_int() * rhs.as_int()),
            fits::<T>(old(self).y.as_int() * rhs.as_int()),
        ensures
            final(self).x.as_int() == old(self).x.as_int() * rhs.as_int(),
            final(self).y.as_int() == old(self).y.as_int() * rhs.as_int(),
    {
        self.x = self.x.mul_val(rhs);
        self.y = self.y.mul_val(rhs);
    }

    /// Component-wise quotient of two vectors, truncated toward zero.
    pub fn div(self, rhs: Vec2<T>) -> (r: Vec2<T>)
        requires
            rhs.x.as_int() != 0,
            rhs.y.as_int() != 0,
            fits::<T>(trunc_div(self.x.as_int(), rhs.x.as_int())),
            fits::<T>(trunc_div(self.y.as_int(), rhs.y.as_int())),
        ensures
            r.x.as_int() == trunc_div(self.x.as_int(), rhs.x.as_int()),
            r.y.as_int() == trunc_div(self.y.as_int(), rhs.y.as_int()),
    {
        Vec2 { x: self.x.div_val(rhs.x), y: self.y.div_val(rhs.y) }
    }

    /// Quotient by a scalar broadcast to both components.
    pub fn div_scalar(self, rhs: T) -> (r: Vec2<T>)
        requires
            rhs.as_int() != 0,
            fits::<T>(trunc_div(self.x.as_int(), rhs.as_int())),
            fits::<T>(trunc_div(self.y.as_int(), rhs.as_int())),
        ensures
            r.x.as_int() == trunc_div(self.x.as_int(), rhs.as_int()),
            r.y.as_int() == trunc_div(self.y.as_int(), rhs.as_int()),
    {
        Vec2 { x: self.x.div_val(rhs), y: self.y.div_val(rhs) }
    }

    /// In-place counterpart of [`Vec2::div`].
    pub fn div_assign(&mut self, rhs: Vec2<T>)
        requires
            rhs.x.as_int() != 0,
            rhs.y.as_int() != 0,
            fits::<T>(trunc_div(old(self).x.as_int(), rhs.x.as_int())),
            fits::<T>(trunc_div(old(self).y.as_int(), rhs.y.as_int())),
        ensures
            final(self).x.as_int() == trunc_div(old(self).x.as_int(), rhs.x.as_int()),
            final(self).y.as_int() == trunc_div(old(self).y.as_int(), rhs.y.as_int()),
    {
        self.x = self.x.div_val(rhs.x);
        self.y = self.y.div_val(rhs.y);
    }

    /// In-place counterpart of [`Vec2::div_scalar`].
    pub fn div_assign_scalar(&mut self, rhs: T)
        requires
            rhs.as_int() != 0,
            fits::<T>(trunc_div(old(self).x.as_int(), rhs.as_int())),
            fits::<T>(trunc_div(old(self).y.as_int(), rhs.as_int())),
        ensures
            final(self).x.as_int() == trunc_div(old(self).x.as_int(), rhs.as_int()),
            final(self).y.as_int() == trunc_div(old(self).y.as_int(), rhs.as_int()),
    {
        self.x = self.x.div_val(rhs);
        self.y = self.y.div_val(rhs);
    }

    /// Component-wise remainder of two vectors, matching [`Vec2::div`].
    pub fn rem(self, rhs: Vec2<T>) -> (r: Vec2<T>)
        requires
            rhs.x.as_int() != 0,
            rhs.y.as_int() != 0,
            fits::<T>(trunc_div(self.x.as_int(), rhs.x.as_int())),
            fits::<T>(trunc_div(self.y.as_int(), rhs.y.as_int())),
        ensures
            r.x.as_int() == trunc_rem(self.x.as_int(), rhs.x.as_int()),
            r.y.as_int() == trunc_rem(self.y.as_int(), rhs.y.as_int()),
    {
        Vec2 { x: self.x.rem_val(rhs.x), y: self.y.rem_val(rhs.y) }
    }

    /// Remainder by a scalar broadcast to both components.
    pub fn rem_scalar(self, rhs: T) -> (r: Vec2<T>)
        requires
            rhs.as_int() != 0,
            fits::<T>(trunc_div(self.x.as_int(), rhs.as_int())),
            fits::<T>(trunc_div(self.y.as_int(), rhs.as_int())),
        ensures
            r.x.as_int() == trunc_rem(self.x.as_int(), rhs.as_int()),
            r.y.as_int() == trunc_rem(self.y.as_int(), rhs.as_int()),
    {
        Vec2 { x: self.x.rem_val(rhs), y: self.y.rem_val(rhs) }
    }

    /// In-place counterpart of [`Vec2::rem`].
    pub fn rem_assign(&mut self, rhs: Vec2<T>)
        requires
            rhs.x.as_int() != 0,
            rhs.y.as_int() != 0,
            fits::<T>(trunc_div(old(self).x.as_int(), rhs.x.as_int())),
            fits::<T>(trunc_div(old(self).y.as_int(), rhs.y.as_int())),
        ensures
            final(self).x.as_int() == trunc_rem(old(self).x.as_int(), rhs.x.as_int()),
            final(self).y.as_int() == trunc_rem(old(self).y.as_int(), rhs.y.as_int()),
    {
        self.x = self.x.rem_val(rhs.x);
        self.y = self.y.rem_val(rhs.y);
    }

    /// In-place counterpart of [`Vec2::rem_scalar`].
    pub fn rem_assign_scalar(&mut self, rhs: T)
        requires
            rhs.as_int() != 0,
            fits::<T>(trunc_div(old(self).x.as_int(), rhs.as_int())),
            fits::<T>(trunc_div(old(self).y.as_int(), rhs.as_int())),
        ensures
            final(self).x.as_int() == trunc_rem(old(self).x.as_int(), rhs.as_int()),
            final(self).y.as_int() == trunc_rem(old(self).y.as_int(), rhs.as_int()),
    {
        self.x = self.x.rem_val(rhs);
        self.y = self.y.rem_val(rhs);
    }

    /// The vector as a tuple, X first.
    pub fn to_tuple(self) -> (r: (T, T))
        ensures
            r == (self.x, self.y),
    {
        (self.x, self.y)
    }

    /// A vector from a tuple, X first.
    pub fn from_tuple(t: (T, T)) -> (v: Vec2<T>)
        ensures
            v.x == t.0,
            v.y == t.1,
    {
        Vec2 { x: t.0, y: t.1 }
    }

    /// The vector as a fixed two-element sequence, X first.
    pub fn to_array(self) -> (r: [T; 2])
        ensures
            r@ == seq![self.x, self.y],
    {
        let r = [self.x, self.y];
        proof {
            assert(r@ =~= seq![self.x, self.y]);
        }
        r
    }

    /// A vector from a fixed two-element sequence, X first.
    pub fn from_array(a: [T; 2]) -> (v: Vec2<T>)
        ensures
            v.x == a@[0],
            v.y == a@[1],
    {
        Vec2 { x: a[0], y: a[1] }
    }

    /// The vector as a dynamically sized sequence `[x, y]`.
    pub fn to_vec(self) -> (r: Vec<T>)
        ensures
            r@ == seq![self.x, self.y],
    {
        let mut r: Vec<T> = Vec::new();
        r.push(self.x);
        r.push(self.y);
        proof {
            assert(r@ =~= seq![self.x, self.y]);
        }
        r
    }

    /// A vector from a dynamically sized sequence. Succeeds exactly when the
    /// sequence holds two elements, element 0 becoming X and element 1
    /// becoming Y; any other length is reported as [`Vec2Error::WrongLength`]
    /// with the length that was seen.
    pub fn try_from(v: Vec<T>) -> (r: Result<Vec2<T>, Vec2Error>)
        ensures
            v@.len() == 2 ==> r == Ok::<Vec2<T>, Vec2Error>(Vec2 { x: v@[0], y: v@[1] }),
            v@.len() != 2 ==> r == Err::<Vec2<T>, Vec2Error>(
                Vec2Error::WrongLength(v@.len() as usize),
            ),
    {
        if v.len() == 2 {
            Ok(Vec2 { x: v[0], y: v[1] })
        } else {
            Err(Vec2Error::WrongLength(v.len()))
        }
    }
}

impl<T: OrderScalar> Vec2<T> {
    /// Each component raised to at least the given scalar: the greater of
    /// the component and the scalar, the scalar itself on a tie.
    pub fn max(&self, v: T) -> (r: Vec2<T>)
        ensures
            r.x == greater_of(self.x, v),
            r.y == greater_of(self.y, v),
    {
        let x = if v.lt_val(self.x) {
            self.x
        } else {
            v
        };
        let y = if v.lt_val(self.y) {
            self.y
        } else {
            v
        };
        Vec2 { x, y }
    }

    /// Component-wise greater of two vectors.
    pub fn max_v(&self, v: &Vec2<T>) -> (r: Vec2<T>)
        ensures
            r.x == greater_of(self.x, v.x),
            r.y == greater_of(self.y, v.y),
    {
        let x = if v.x.lt_val(self.x) {
            self.x
        } else {
            v.x
        };
        let y = if v.y.lt_val(self.y) {
            self.y
        } else {
            v.y
        };
        Vec2 { x, y }
    }

    /// Each component lowered to at most the given scalar.
    pub fn min(&self, v: T) -> (r: Vec2<T>)
        ensures
            r.x == lesser_of(self.x, v),
            r.y == lesser_of(self.y, v),
    {
        let x = if self.x.lt_val(v) {
            self.x
        } else {
            v
        };
        let y = if self.y.lt_val(v) {
            self.y
        } else {
            v
        };
        Vec2 { x, y }
    }

    /// Component-wise lesser of two vectors.
    pub fn min_v(&self, v: &Vec2<T>) -> (r: Vec2<T>)
        ensures
            r.x == lesser_of(self.x, v.x),
            r.y == lesser_of(self.y, v.y),
    {
        let x = if self.x.lt_val(v.x) {
            self.x
        } else {
            v.x
        };
        let y = if self.y.lt_val(v.y) {
            self.y
        } else {
            v.y
        };
        Vec2 { x, y }
    }

    /// Clamp low then clamp high, in that exact order: `max(min)` followed by
    /// `min(max)`. When the lower bound exceeds the upper one the second step
    /// wins; no guard is added.
    pub fn clamp(&self, min: T, max: T) -> (r: Vec2<T>)
        ensures
            r.x == lesser_of(greater_of(self.x, min), max),
            r.y == lesser_of(greater_of(self.y, min), max),
    {
        self.max(min).min(max)
    }
}

impl<T: SignedScalar> Vec2<T> {
    /// Component-wise arithmetic negation.
    pub fn neg(self) -> (r: Vec2<T>)
        requires
            fits::<T>(-self.x.as_int()),
            fits::<T>(-self.y.as_int()),
        ensures
            r.x.as_int() == -self.x.as_int(),
            r.y.as_int() == -self.y.as_int(),
    {
        Vec2 { x: self.x.neg_val(), y: self.y.neg_val() }
    }

    /// The perpendicular vector `(-y, x)`: a quarter turn counter-clockwise
    /// in a right-handed plane.
    pub fn perp(&self) -> (r: Vec2<T>)
        requires
            fits::<T>(-self.y.as_int()),
        ensures
            r.x.as_int() == -self.y.as_int(),
            r.y == self.x,
    {
        Vec2 { x: self.y.neg_val(), y: self.x }
    }
}

} // verus!
