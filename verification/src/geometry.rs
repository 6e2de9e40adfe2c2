//! Points on the integer grid and the rectangles that two of them span.

use vstd::prelude::*;

verus! {

/// A point of the grid.
#[derive(Clone, Copy, Debug, PartialEq, Eq, Structural)]
pub struct Point {
    pub x: i32,
    pub y: i32,
}

/// An axis-parallel rectangle, given by two opposite corners in any order.
#[derive(Clone, Copy, Debug, PartialEq, Eq, Structural)]
pub struct Rectangle {
    pub p1: Point,
    pub p2: Point,
}

/// The distance between two coordinates.
pub open spec fn span(a: int, b: int) -> nat {
    if a < b {
        (b - a) as nat
    } else {
        (a - b) as nat
    }
}

/// The area of the rectangle with opposite corners `p` and `q`.
pub open spec fn area_between(p: Point, q: Point) -> nat {
    span(p.x as int, q.x as int) * span(p.y as int, q.y as int)
}

/// The perimeter of the rectangle with opposite corners `p` and `q`.
pub open spec fn perimeter_between(p: Point, q: Point) -> nat {
    2 * (span(p.x as int, q.x as int) + span(p.y as int, q.y as int))
}

/// Whether a coordinate can be moved by `by` and stay on the grid.
pub open spec fn can_shift(a: i32, by: i32) -> bool {
    i32::MIN <= a + by <= i32::MAX
}

/// The distance between two coordinates.
fn distance(a: i32, b: i32) -> (d: u64)
    ensures
        d == span(a as int, b as int),
        d <= 0xffff_ffff,
{
    let wide_a: i64 = a as i64;
    let wide_b: i64 = b as i64;
    if wide_a < wide_b {
        (wide_b - wide_a) as u64
    } else {
        (wide_a - wide_b) as u64
    }
}

/// The area of the rectangle with opposite corners `point_one` and
/// `point_two`.
pub fn rect_area(point_one: Point, point_two: Point) -> (area: u64)
    ensures
        area == area_between(point_one, point_two),
{
    let base = distance(point_one.x, point_two.x);
    let height = distance(point_one.y, point_two.y);
    assert(base * height <= 0xffff_ffff * 0xffff_ffff) by (nonlinear_arith)
        requires
            base <= 0xffff_ffff,
            height <= 0xffff_ffff,
    ;
    base * height
}

/// The area of `rect`.
pub fn rectangle_area(rect: Rectangle) -> (area: u64)
    ensures
        area == area_between(rect.p1, rect.p2),
{
    let Rectangle { p1, p2 } = rect;
    rect_area(p1, p2)
}

/// The rectangle spanned by `point` and the point whose two coordinates are
/// both `f`.
pub fn square(point: Point, f: i32) -> (rect: Rectangle)
    ensures
        rect.p1 == point,
        rect.p2 == (Point { x: f, y: f }),
{
    Rectangle { p1: point, p2: Point { x: f, y: f } }
}

impl Point {
    /// The point where both axes meet.
    pub fn origin() -> (p: Point)
        ensures
            p == (Point { x: 0, y: 0 }),
    {
        Point { x: 0, y: 0 }
    }

    /// The point with the given coordinates.
    pub fn new(x: i32, y: i32) -> (p: Point)
        ensures
            p == (Point { x, y }),
    {
        Point { x: x, y: y }
    }
}

impl Rectangle {
    /// The area of the rectangle.
    pub fn area(&self) -> (area: u64)
        ensures
            area == area_between(self.p1, self.p2),
    {
        rect_area(self.p1, self.p2)
    }

    /// The length of the rectangle's outline.
    pub fn perimeter(&self) -> (perimeter: u64)
        ensures
            perimeter == perimeter_between(self.p1, self.p2),
    {
        2 * (distance(self.p1.x, self.p2.x) + distance(self.p1.y, self.p2.y))
    }

    /// Whether the rectangle can be moved by `(x, y)` and stay on the grid.
    pub open spec fn can_translate(&self, x: i32, y: i32) -> bool {
        &&& can_shift(self.p1.x, x)
        &&& can_shift(self.p2.x, x)
        &&& can_shift(self.p1.y, y)
        &&& can_shift(self.p2.y, y)
    }

    /// Moves both corners by `(x, y)`.
    pub fn translate(&mut self, x: i32, y: i32)
        requires
            old(self).can_translate(x, y),
        ensures
            final(self).p1.x == old(self).p1.x + x,
            final(self).p2.x == old(self).p2.x + x,
            final(self).p1.y == old(self).p1.y + y,
            final(self).p2.y == old(self).p2.y + y,
    {
        self.p1.x += x;
        self.p2.x += x;

        self.p1.y += y;
        self.p2.y += y;
    }
}

/// Area and perimeter do not depend on which corner is named first.
pub proof fn lemma_corners_swap(p: Point, q: Point)
    ensures
        area_between(p, q) == area_between(q, p),
        perimeter_between(p, q) == perimeter_between(q, p),
{
}

} // verus!
