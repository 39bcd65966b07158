//! A 2D vector with component-wise arithmetic and a dot product.

use vstd::prelude::*;
use vstd::std_specs::ops::{AddSpec, MulSpec, SubSpec};

verus! {

/// A 2D vector with an `x` and a `y` component.
#[derive(Debug, Clone, Copy)]
pub struct Vector2<T> {
    /// The x-coordinate of the vector.
    pub x: T,
    /// The y-coordinate of the vector.
    pub y: T,
}

impl<T> Vector2<T> {
    /// Builds the vector `(x, y)`.
    pub fn new(x: T, y: T) -> (v: Self)
        ensures
            v.x == x,
            v.y == y,
    {
        Self { x, y }
    }
}

impl<T: std::ops::Add<Output = T>> vstd::std_specs::ops::AddSpecImpl for Vector2<T> {
    open spec fn obeys_add_spec() -> bool {
        <T as AddSpec>::obeys_add_spec()
    }

    open spec fn add_req(self, rhs: Self) -> bool {
        self.x.add_req(rhs.x) && self.y.add_req(rhs.y)
    }

    open spec fn add_spec(self, rhs: Self) -> Self {
        Vector2 { x: self.x.add_spec(rhs.x), y: self.y.add_spec(rhs.y) }
    }
}

/// Component-wise addition.
impl<T: std::ops::Add<Output = T>> std::ops::Add for Vector2<T> {
    type Output = Vector2<T>;

    fn add(self, rhs: Self) -> (r: Self::Output) {
        Vector2 { x: self.x + rhs.x, y: self.y + rhs.y }
    }
}

impl<T: std::ops::Sub<Output = T>> vstd::std_specs::ops::SubSpecImpl for Vector2<T> {
    open spec fn obeys_sub_spec() -> bool {
        <T as SubSpec>::obeys_sub_spec()
    }

    open spec fn sub_req(self, rhs: Self) -> bool {
        self.x.sub_req(rhs.x) && self.y.sub_req(rhs.y)
    }

    open spec fn sub_spec(self, rhs: Self) -> Self {
        Vector2 { x: self.x.sub_spec(rhs.x), y: self.y.sub_spec(rhs.y) }
    }
}

/// Component-wise subtraction.
impl<T: std::ops::Sub<Output = T>> std::ops::Sub for Vector2<T> {
    type Output = Vector2<T>;

    fn sub(self, rhs: Self) -> (r: Self::Output) {
        Vector2 { x: self.x - rhs.x, y: self.y - rhs.y }
    }
}

impl<T: std::ops::Mul<Output = T>> vstd::std_specs::ops::MulSpecImpl for Vector2<T> {
    open spec fn obeys_mul_spec() -> bool {
        <T as MulSpec>::obeys_mul_spec()
    }

    open spec fn mul_req(self, rhs: Self) -> bool {
        self.x.mul_req(rhs.x) && self.y.mul_req(rhs.y)
    }

    open spec fn mul_spec(self, rhs: Self) -> Self {
        Vector2 { x: self.x.mul_spec(rhs.x), y: self.y.mul_spec(rhs.y) }
    }
}

/// Component-wise multiplication of two vectors.
impl<T: std::ops::Mul<Output = T>> std::ops::Mul for Vector2<T> {
    type Output = Vector2<T>;

    fn mul(self, rhs: Self) -> (r: Self::Output) {
        Vector2 { x: self.x * rhs.x, y: self.y * rhs.y }
    }
}

impl<T: std::ops::Mul<Output = T> + Copy> vstd::std_specs::ops::MulSpecImpl<T> for Vector2<T> {
    open spec fn obeys_mul_spec() -> bool {
        <T as MulSpec>::obeys_mul_spec()
    }

    open spec fn mul_req(self, scalar: T) -> bool {
        self.x.mul_req(scalar) && self.y.mul_req(scalar)
    }

    open spec fn mul_spec(self, scalar: T) -> Self {
        Vector2 { x: self.x.mul_spec(scalar), y: self.y.mul_spec(scalar) }
    }
}

/// Multiplication of both components by a scalar.
impl<T: std::ops::Mul<Output = T> + Copy> std::ops::Mul<T> for Vector2<T> {
    type Output = Vector2<T>;

    fn mul(self, scalar: T) -> (r: Self::Output) {
        Vector2 { x: self.x * scalar, y: self.y * scalar }
    }
}

impl<T: std::ops::Mul<Output = T> + std::ops::Add<Output = T> + Copy> Vector2<T> {
    /// The dot product `x * other.x + y * other.y`, as `T`'s own `*` and `+`
    /// define it.
    pub open spec fn dot_spec(self, other: Self) -> T {
        self.x.mul_spec(other.x).add_spec(self.y.mul_spec(other.y))
    }

    /// When `dot` can be computed: both products can be taken, and so can the
    /// sum of the two products (of any two values, where `T`'s `*` is not
    /// described by a specification).
    pub open spec fn dot_req(self, other: Self) -> bool {
        &&& self.x.mul_req(other.x)
        &&& self.y.mul_req(other.y)
        &&& forall|p: T, q: T|
            (<T as MulSpec>::obeys_mul_spec() ==> p == self.x.mul_spec(other.x) && q
                == self.y.mul_spec(other.y)) ==> #[trigger] p.add_req(q)
    }

    /// The dot product of `self` and `other`.
    pub fn dot(self, other: Self) -> (d: T)
        requires
            self.dot_req(other),
        ensures
            <T as MulSpec>::obeys_mul_spec() && <T as AddSpec>::obeys_add_spec() ==> d
                == self.dot_spec(other),
    {
        (self.x * other.x) + (self.y * other.y)
    }
}

/// Adding vectors does not depend on their order.
pub proof fn lemma_add_commutative(a: Vector2<i64>, b: Vector2<i64>)
    requires
        a.add_req(b),
    ensures
        b.add_req(a),
        a.add_spec(b) == b.add_spec(a),
{
}

/// Subtracting `b` undoes adding `b`.
pub proof fn lemma_sub_undoes_add(a: Vector2<i64>, b: Vector2<i64>)
    requires
        a.add_req(b),
    ensures
        a.add_spec(b).sub_req(b),
        a.add_spec(b).sub_spec(b) == a,
{
}

/// The dot product does not depend on the order of its operands.
pub proof fn lemma_dot_symmetric(a: Vector2<i64>, b: Vector2<i64>)
    requires
        a.dot_req(b),
    ensures
        b.dot_req(a),
        a.dot_spec(b) == b.dot_spec(a),
{
    assert(a.x * b.x == b.x * a.x) by (nonlinear_arith);
    assert(a.y * b.y == b.y * a.y) by (nonlinear_arith);
    assert(a.x.mul_spec(b.x).add_req(a.y.mul_spec(b.y)));
}

/// The dot product of a vector with itself is never negative.
pub proof fn lemma_dot_self_nonnegative(a: Vector2<i64>)
    requires
        a.dot_req(a),
    ensures
        a.dot_spec(a) >= 0,
{
    assert(a.x * a.x >= 0) by (nonlinear_arith);
    assert(a.y * a.y >= 0) by (nonlinear_arith);
    assert(a.x.mul_spec(a.x).add_req(a.y.mul_spec(a.y)));
}

/// Scaling a vector by one leaves it unchanged.
pub proof fn lemma_scale_by_one(a: Vector2<i64>)
    ensures
        a.mul_req(1i64),
        a.mul_spec(1i64) == a,
{
}

} // verus!
