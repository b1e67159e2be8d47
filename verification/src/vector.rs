//! Two- and three-component vectors of scalars, and their mathematical
//! models over unbounded integers.

use vstd::prelude::*;
use crate::fixed::{fits, in_range, multiply, narrow, product, lemma_product_bounded};

verus! {

/// The model of a [`Vector2`]: a pair of integers counting millionths.
pub struct Vector2Model {
    pub x: int,
    pub y: int,
}

/// The model of a [`Vector3`]: a triple of integers counting millionths.
pub struct Vector3Model {
    pub x: int,
    pub y: int,
    pub z: int,
}

impl Vector3Model {
    /// The componentwise sum.
    pub open spec fn plus(self, other: Vector3Model) -> Vector3Model {
        Vector3Model { x: self.x + other.x, y: self.y + other.y, z: self.z + other.z }
    }

    /// The componentwise difference.
    pub open spec fn minus(self, other: Vector3Model) -> Vector3Model {
        Vector3Model { x: self.x - other.x, y: self.y - other.y, z: self.z - other.z }
    }

    /// The vector with every component negated.
    pub open spec fn negated(self) -> Vector3Model {
        Vector3Model { x: -self.x, y: -self.y, z: -self.z }
    }

    /// Every component multiplied by the scalar `k`, as a fixed-point
    /// product.
    pub open spec fn scaled(self, k: int) -> Vector3Model {
        Vector3Model { x: product(self.x, k), y: product(self.y, k), z: product(self.z, k) }
    }

    /// The squared Euclidean length, in squared raw units.
    pub open spec fn norm_squared(self) -> int {
        self.x * self.x + self.y * self.y + self.z * self.z
    }

    /// Whether every component can be stored in a scalar.
    pub open spec fn representable(self) -> bool {
        fits(self.x) && fits(self.y) && fits(self.z)
    }
}

/// A pair of scalars: a mouse motion or a scroll amount, in millionths of an
/// input unit.
#[derive(Clone, Copy, Debug, PartialEq, Eq)]
pub struct Vector2 {
    pub x: i64,
    pub y: i64,
}

impl View for Vector2 {
    type V = Vector2Model;

    open spec fn view(&self) -> Vector2Model {
        Vector2Model { x: self.x as int, y: self.y as int }
    }
}

/// A triple of scalars: a point or a direction in world space, in millionths
/// of a world unit.
#[derive(Clone, Copy, Debug, PartialEq, Eq)]
pub struct Vector3 {
    pub x: i64,
    pub y: i64,
    pub z: i64,
}

impl View for Vector3 {
    type V = Vector3Model;

    open spec fn view(&self) -> Vector3Model {
        Vector3Model { x: self.x as int, y: self.y as int, z: self.z as int }
    }
}

/// A triple of wide integers: a vector whose components may not fit a scalar
/// yet.
pub struct WideVector3 {
    pub x: i128,
    pub y: i128,
    pub z: i128,
}

impl View for WideVector3 {
    type V = Vector3Model;

    open spec fn view(&self) -> Vector3Model {
        Vector3Model { x: self.x as int, y: self.y as int, z: self.z as int }
    }
}

impl WideVector3 {
    /// Whether every component can be stored in a scalar.
    pub fn is_representable(&self) -> (ok: bool)
        ensures
            ok == self@.representable(),
    {
        in_range(self.x) && in_range(self.y) && in_range(self.z)
    }

    /// The same vector with its components stored as scalars.
    pub fn narrowed(&self) -> (v: Vector3)
        requires
            self@.representable(),
        ensures
            v@ == self@,
    {
        Vector3 { x: narrow(self.x), y: narrow(self.y), z: narrow(self.z) }
    }
}

impl Vector3 {
    /// `self + (to - from)`, computed without rounding.
    pub fn displaced(&self, from: &Vector3, to: &Vector3) -> (w: WideVector3)
        ensures
            w@ == self@.plus(to@.minus(from@)),
    {
        WideVector3 {
            x: self.x as i128 + (to.x as i128 - from.x as i128),
            y: self.y as i128 + (to.y as i128 - from.y as i128),
            z: self.z as i128 + (to.z as i128 - from.z as i128),
        }
    }

    /// `self + direction * k`, where the product is the fixed-point one.
    pub fn advanced(&self, direction: &Vector3, k: i64) -> (w: WideVector3)
        ensures
            w@ == self@.plus(direction@.scaled(k as int)),
    {
        proof {
            lemma_product_bounded(direction.x as int, k as int);
            lemma_product_bounded(direction.y as int, k as int);
            lemma_product_bounded(direction.z as int, k as int);
        }
        WideVector3 {
            x: self.x as i128 + multiply(direction.x, k),
            y: self.y as i128 + multiply(direction.y, k),
            z: self.z as i128 + multiply(direction.z, k),
        }
    }

    /// `self - direction * k`, where the product is the fixed-point one.
    pub fn retreated(&self, direction: &Vector3, k: i64) -> (w: WideVector3)
        ensures
            w@ == self@.minus(direction@.scaled(k as int)),
    {
        proof {
            lemma_product_bounded(direction.x as int, k as int);
            lemma_product_bounded(direction.y as int, k as int);
            lemma_product_bounded(direction.z as int, k as int);
        }
        WideVector3 {
            x: self.x as i128 - multiply(direction.x, k),
            y: self.y as i128 - multiply(direction.y, k),
            z: self.z as i128 - multiply(direction.z, k),
        }
    }
}

} // verus!
