//! Plain geometric values over fixed-point scalars.

use vstd::prelude::*;
use crate::fixed::{saturate, quotient, plus, minus, times, UNIT};

verus! {

/// A point or an extent on the screen.
#[derive(Clone, Copy, PartialEq, Eq, Structural, Debug)]
pub struct Vector2 {
    pub x: i64,
    pub y: i64,
}

impl Vector2 {
    /// The point with the coordinates `x` and `y`.
    pub fn new(x: i64, y: i64) -> (r: Self)
        ensures
            r == (Vector2 { x, y }),
    {
        Vector2 { x, y }
    }

    /// The component-wise saturating sum.
    pub open spec fn sum(self, other: Vector2) -> Vector2 {
        Vector2 {
            x: saturate(self.x + other.x) as i64,
            y: saturate(self.y + other.y) as i64,
        }
    }

    /// The sum of two vectors; each coordinate saturates.
    pub fn plus(&self, other: Vector2) -> (r: Self)
        ensures
            r == self.sum(other),
    {
        Vector2 { x: plus(self.x, other.x), y: plus(self.y, other.y) }
    }
}

/// A point or a direction in the scene.
#[derive(Clone, Copy, PartialEq, Eq, Structural, Debug)]
pub struct Vector3 {
    pub x: i64,
    pub y: i64,
    pub z: i64,
}

impl Vector3 {
    /// The point with the coordinates `x`, `y` and `z`.
    pub fn new(x: i64, y: i64, z: i64) -> (r: Self)
        ensures
            r == (Vector3 { x, y, z }),
    {
        Vector3 { x, y, z }
    }

    /// The origin.
    pub fn zero() -> (r: Self)
        ensures
            r == (Vector3 { x: 0, y: 0, z: 0 }),
    {
        Vector3 { x: 0, y: 0, z: 0 }
    }

    /// The vector whose every coordinate is one.
    pub fn one() -> (r: Self)
        ensures
            r == (Vector3 { x: UNIT, y: UNIT, z: UNIT }),
    {
        Vector3 { x: UNIT, y: UNIT, z: UNIT }
    }

    /// The component-wise saturating sum.
    pub open spec fn sum(self, other: Vector3) -> Vector3 {
        Vector3 {
            x: saturate(self.x + other.x) as i64,
            y: saturate(self.y + other.y) as i64,
            z: saturate(self.z + other.z) as i64,
        }
    }

    /// The component-wise saturating difference.
    pub open spec fn difference(self, other: Vector3) -> Vector3 {
        Vector3 {
            x: saturate(self.x - other.x) as i64,
            y: saturate(self.y - other.y) as i64,
            z: saturate(self.z - other.z) as i64,
        }
    }

    /// The component-wise fixed-point product.
    pub open spec fn product(self, other: Vector3) -> Vector3 {
        Vector3 {
            x: saturate(quotient(self.x * other.x, UNIT as int)) as i64,
            y: saturate(quotient(self.y * other.y, UNIT as int)) as i64,
            z: saturate(quotient(self.z * other.z, UNIT as int)) as i64,
        }
    }

    /// Every component multiplied by the fixed-point factor `k`.
    pub open spec fn scaled(self, k: i64) -> Vector3 {
        self.product(Vector3 { x: k, y: k, z: k })
    }

    /// The sum of two vectors; each coordinate saturates.
    pub fn plus(&self, other: Vector3) -> (r: Self)
        ensures
            r == self.sum(other),
    {
        Vector3 { x: plus(self.x, other.x), y: plus(self.y, other.y), z: plus(self.z, other.z) }
    }

    /// The difference of two vectors; each coordinate saturates.
    pub fn minus(&self, other: Vector3) -> (r: Self)
        ensures
            r == self.difference(other),
    {
        Vector3 {
            x: minus(self.x, other.x),
            y: minus(self.y, other.y),
            z: minus(self.z, other.z),
        }
    }

    /// The product of two vectors, coordinate by coordinate.
    pub fn times(&self, other: Vector3) -> (r: Self)
        ensures
            r == self.product(other),
    {
        Vector3 {
            x: times(self.x, other.x),
            y: times(self.y, other.y),
            z: times(self.z, other.z),
        }
    }

    /// The cross product, each term a fixed-point product.
    pub open spec fn crossed(self, other: Vector3) -> Vector3 {
        Vector3 {
            x: saturate(
                saturate(quotient(self.y * other.z, UNIT as int)) - saturate(
                    quotient(self.z * other.y, UNIT as int),
                ),
            ) as i64,
            y: saturate(
                saturate(quotient(self.z * other.x, UNIT as int)) - saturate(
                    quotient(self.x * other.z, UNIT as int),
                ),
            ) as i64,
            z: saturate(
                saturate(quotient(self.x * other.y, UNIT as int)) - saturate(
                    quotient(self.y * other.x, UNIT as int),
                ),
            ) as i64,
        }
    }

    /// The cross product of two vectors.
    pub fn cross(&self, other: Vector3) -> (r: Self)
        ensures
            r == self.crossed(other),
    {
        Vector3 {
            x: minus(times(self.y, other.z), times(self.z, other.y)),
            y: minus(times(self.z, other.x), times(self.x, other.z)),
            z: minus(times(self.x, other.y), times(self.y, other.x)),
        }
    }

    /// The vector with every coordinate multiplied by `k`.
    pub fn scale(&self, k: i64) -> (r: Self)
        ensures
            r == self.scaled(k),
    {
        self.times(Vector3 { x: k, y: k, z: k })
    }

    /// Whether the vector is the origin.
    pub fn is_zero(&self) -> (r: bool)
        ensures
            r == (*self == Vector3 { x: 0, y: 0, z: 0 }),
    {
        self.x == 0 && self.y == 0 && self.z == 0
    }
}

/// An axis-aligned rectangle on the screen: origin and extent.
#[derive(Clone, Copy, PartialEq, Eq, Structural, Debug)]
pub struct Rectangle {
    pub x: i64,
    pub y: i64,
    pub width: i64,
    pub height: i64,
}

impl Rectangle {
    /// The rectangle with its upper left corner at `x` and `y`.
    pub fn new(x: i64, y: i64, width: i64, height: i64) -> (r: Self)
        ensures
            r == (Rectangle { x, y, width, height }),
    {
        Rectangle { x, y, width, height }
    }

    /// The point lies in the rectangle: the left and upper edges belong
    /// to it, the right and lower edges do not.
    pub open spec fn holds(self, point: Vector2) -> bool {
        &&& point.x >= self.x
        &&& point.x < self.x + self.width
        &&& point.y >= self.y
        &&& point.y < self.y + self.height
    }

    /// The two rectangles overlap in more than an edge.
    pub open spec fn meets(self, other: Rectangle) -> bool {
        &&& self.x < other.x + other.width
        &&& self.x + self.width > other.x
        &&& self.y < other.y + other.height
        &&& self.y + self.height > other.y
    }

    /// Whether `point` lies in the rectangle.
    pub fn check_collision_point_rec(&self, point: Vector2) -> (r: bool)
        ensures
            r == self.holds(point),
    {
        point.x >= self.x && (point.x as i128) < self.x as i128 + self.width as i128 && point.y
            >= self.y && (point.y as i128) < self.y as i128 + self.height as i128
    }

    /// Whether the two rectangles overlap.
    pub fn check_collision_recs(&self, other: &Rectangle) -> (r: bool)
        ensures
            r == self.meets(*other),
    {
        (self.x as i128) < other.x as i128 + other.width as i128 && self.x as i128
            + self.width as i128 > other.x as i128 && (self.y as i128) < other.y as i128
            + other.height as i128 && self.y as i128 + self.height as i128 > other.y as i128
    }
}

/// An axis-aligned box in the scene.
#[derive(Clone, Copy, PartialEq, Eq, Structural, Debug)]
pub struct BoundingBox {
    pub min: Vector3,
    pub max: Vector3,
}

impl BoundingBox {
    /// The box between the corners `min` and `max`.
    pub fn new(min: Vector3, max: Vector3) -> (r: Self)
        ensures
            r == (BoundingBox { min, max }),
    {
        BoundingBox { min, max }
    }
}

/// A colour, eight bits a channel.
#[derive(Clone, Copy, PartialEq, Eq, Structural, Debug)]
pub struct Color {
    pub r: u8,
    pub g: u8,
    pub b: u8,
    pub a: u8,
}

impl Color {
    /// The colour with the given channels.
    pub fn new(r: u8, g: u8, b: u8, a: u8) -> (c: Self)
        ensures
            c == (Color { r, g, b, a }),
    {
        Color { r, g, b, a }
    }

    /// White.
    pub open spec fn spec_white() -> Color {
        Color { r: 255, g: 255, b: 255, a: 255 }
    }

    /// White.
    #[verifier::when_used_as_spec(spec_white)]
    pub fn white() -> (c: Self)
        ensures
            c == Self::spec_white(),
    {
        Color { r: 255, g: 255, b: 255, a: 255 }
    }

    /// Black.
    pub open spec fn spec_black() -> Color {
        Color { r: 0, g: 0, b: 0, a: 255 }
    }

    /// Black.
    #[verifier::when_used_as_spec(spec_black)]
    pub fn black() -> (c: Self)
        ensures
            c == Self::spec_black(),
    {
        Color { r: 0, g: 0, b: 0, a: 255 }
    }

    /// Red.
    pub open spec fn spec_red() -> Color {
        Color { r: 255, g: 0, b: 0, a: 255 }
    }

    /// Red.
    #[verifier::when_used_as_spec(spec_red)]
    pub fn red() -> (c: Self)
        ensures
            c == Self::spec_red(),
    {
        Color { r: 255, g: 0, b: 0, a: 255 }
    }

    /// Green.
    pub open spec fn spec_green() -> Color {
        Color { r: 0, g: 128, b: 0, a: 255 }
    }

    /// Green.
    #[verifier::when_used_as_spec(spec_green)]
    pub fn green() -> (c: Self)
        ensures
            c == Self::spec_green(),
    {
        Color { r: 0, g: 128, b: 0, a: 255 }
    }
}

/// A linear map of the scene, row by row, in fixed point.
#[derive(Clone, Copy, PartialEq, Eq, Structural, Debug)]
pub struct Matrix {
    pub x: Vector3,
    pub y: Vector3,
    pub z: Vector3,
}

impl Matrix {
    /// The dot product of a row with a point: each term a fixed-point
    /// product rounded toward zero, the sum saturating.
    pub open spec fn row(row: Vector3, point: Vector3) -> int {
        saturate(
            quotient(row.x * point.x, UNIT as int) + quotient(row.y * point.y, UNIT as int)
                + quotient(row.z * point.z, UNIT as int),
        )
    }

    /// The image of `point`.
    pub open spec fn image(self, point: Vector3) -> Vector3 {
        Vector3 {
            x: Self::row(self.x, point) as i64,
            y: Self::row(self.y, point) as i64,
            z: Self::row(self.z, point) as i64,
        }
    }

    fn dot(row: Vector3, point: Vector3) -> (r: i64)
        ensures
            r == Self::row(row, point),
    {
        proof {
            crate::fixed::lemma_product_fits(row.x as int, point.x as int);
            crate::fixed::lemma_product_fits(row.y as int, point.y as int);
            crate::fixed::lemma_product_fits(row.z as int, point.z as int);
        }
        let a: i128 = crate::fixed::divide(row.x as i128 * point.x as i128, UNIT as i128);
        let b: i128 = crate::fixed::divide(row.y as i128 * point.y as i128, UNIT as i128);
        let c: i128 = crate::fixed::divide(row.z as i128 * point.z as i128, UNIT as i128);
        crate::fixed::narrow(a + b + c)
    }

    /// The image of `point` under the map.
    pub fn apply(&self, point: Vector3) -> (r: Vector3)
        ensures
            r == self.image(point),
    {
        Vector3 {
            x: Self::dot(self.x, point),
            y: Self::dot(self.y, point),
            z: Self::dot(self.z, point),
        }
    }
}

} // verus!
