//! The shapes that a feature's geometry decodes to.

use vstd::prelude::*;

verus! {

/// A position in tile coordinates.
#[derive(Clone, Copy, Debug, PartialEq, Eq)]
pub struct Point {
    pub x: i32,
    pub y: i32,
}

impl Point {
    pub fn new(x: i32, y: i32) -> (p: Point)
        ensures
            p == (Point { x, y }),
    {
        Point { x, y }
    }
}

/// Two or more points, in the order in which they were decoded.
#[derive(Clone, Debug, PartialEq, Eq)]
pub struct MultiPoint {
    pub points: Vec<Point>,
}

impl MultiPoint {
    pub fn new(points: Vec<Point>) -> (m: MultiPoint)
        ensures
            m.points == points,
    {
        MultiPoint { points }
    }
}

/// A point geometry: one point, or several.
#[derive(Clone, Debug, PartialEq, Eq)]
pub enum GeometryPoint {
    Point(Point),
    MultiPoint(MultiPoint),
}

/// What a point geometry holds.
pub enum PointShape {
    Point(Point),
    MultiPoint(Seq<Point>),
}

impl View for GeometryPoint {
    type V = PointShape;

    open spec fn view(&self) -> PointShape {
        match *self {
            GeometryPoint::Point(p) => PointShape::Point(p),
            GeometryPoint::MultiPoint(m) => PointShape::MultiPoint(m.points@),
        }
    }
}

/// Start of a new subpath at `(x, y)`.
#[derive(Clone, Copy, Debug, PartialEq, Eq)]
pub struct MoveTo {
    pub x: i32,
    pub y: i32,
}

/// A segment of the current subpath that ends at `(x, y)`.
#[derive(Clone, Copy, Debug, PartialEq, Eq)]
pub struct LineTo {
    pub x: i32,
    pub y: i32,
}

/// One drawing command of a line string or a polygon.
#[derive(Clone, Copy, Debug, PartialEq, Eq)]
pub enum Command {
    MoveTo(MoveTo),
    LineTo(LineTo),
    Close,
}

/// A line string: its drawing commands in stream order.
#[derive(Clone, Debug, PartialEq, Eq)]
pub struct GeometryLineString {
    pub commands: Vec<Command>,
}

impl View for GeometryLineString {
    type V = Seq<Command>;

    open spec fn view(&self) -> Seq<Command> {
        self.commands@
    }
}

/// A polygon: its drawing commands in stream order.
#[derive(Clone, Debug, PartialEq, Eq)]
pub struct GeometryPolygon {
    pub commands: Vec<Command>,
}

impl View for GeometryPolygon {
    type V = Seq<Command>;

    open spec fn view(&self) -> Seq<Command> {
        self.commands@
    }
}

/// The geometry of a feature.
#[derive(Clone, Debug, PartialEq, Eq)]
pub enum Geometry {
    Unknown,
    GeometryPoint(GeometryPoint),
    GeometryLineString(GeometryLineString),
    GeometryPolygon(GeometryPolygon),
}

/// What a geometry holds.
pub enum Shape {
    Unknown,
    Point(PointShape),
    LineString(Seq<Command>),
    Polygon(Seq<Command>),
}

impl View for Geometry {
    type V = Shape;

    open spec fn view(&self) -> Shape {
        match *self {
            Geometry::Unknown => Shape::Unknown,
            Geometry::GeometryPoint(g) => Shape::Point(g@),
            Geometry::GeometryLineString(g) => Shape::LineString(g@),
            Geometry::GeometryPolygon(g) => Shape::Polygon(g@),
        }
    }
}

impl Point {
    /// Whether two points have the same coordinates.
    pub fn same_point(&self, other: &Point) -> (b: bool)
        ensures
            b == (*self == *other),
    {
        self.x == other.x && self.y == other.y
    }
}

impl Command {
    /// Whether two commands are of the same kind and have the same
    /// coordinates.
    pub fn same_command(&self, other: &Command) -> (b: bool)
        ensures
            b == (*self == *other),
    {
        match self {
            Command::MoveTo(a) => match other {
                Command::MoveTo(b) => a.x == b.x && a.y == b.y,
                _ => false,
            },
            Command::LineTo(a) => match other {
                Command::LineTo(b) => a.x == b.x && a.y == b.y,
                _ => false,
            },
            Command::Close => match other {
                Command::Close => true,
                _ => false,
            },
        }
    }
}

/// Whether two lists hold the same points in the same order.
pub fn same_points(a: &Vec<Point>, b: &Vec<Point>) -> (r: bool)
    ensures
        r == (a@ == b@),
{
    if a.len() != b.len() {
        return false;
    }
    let mut i: usize = 0;
    while i < a.len()
        invariant
            i <= a.len(),
            a.len() == b.len(),
            forall|j: int| 0 <= j < i ==> a[j] == b[j],
        decreases a.len() - i,
    {
        if !a[i].same_point(&b[i]) {
            return false;
        }
        i += 1;
    }
    assert(a@ =~= b@);
    true
}

/// Whether two lists hold the same commands in the same order.
pub fn same_commands(a: &Vec<Command>, b: &Vec<Command>) -> (r: bool)
    ensures
        r == (a@ == b@),
{
    if a.len() != b.len() {
        return false;
    }
    let mut i: usize = 0;
    while i < a.len()
        invariant
            i <= a.len(),
            a.len() == b.len(),
            forall|j: int| 0 <= j < i ==> a[j] == b[j],
        decreases a.len() - i,
    {
        if !a[i].same_command(&b[i]) {
            return false;
        }
        i += 1;
    }
    assert(a@ =~= b@);
    true
}

impl GeometryPoint {
    /// Whether two point geometries are of the same kind and hold the same
    /// points.
    pub fn same_shape(&self, other: &GeometryPoint) -> (b: bool)
        ensures
            b == (self@ == other@),
    {
        match self {
            GeometryPoint::Point(p) => match other {
                GeometryPoint::Point(q) => p.same_point(q),
                _ => false,
            },
            GeometryPoint::MultiPoint(m) => match other {
                GeometryPoint::MultiPoint(n) => same_points(&m.points, &n.points),
                _ => false,
            },
        }
    }
}

impl Geometry {
    /// Whether two geometries are of the same kind and hold the same.
    pub fn same_shape(&self, other: &Geometry) -> (b: bool)
        ensures
            b == (self@ == other@),
    {
        match self {
            Geometry::Unknown => match other {
                Geometry::Unknown => true,
                _ => false,
            },
            Geometry::GeometryPoint(g) => match other {
                Geometry::GeometryPoint(h) => g.same_shape(h),
                _ => false,
            },
            Geometry::GeometryLineString(g) => match other {
                Geometry::GeometryLineString(h) => same_commands(&g.commands, &h.commands),
                _ => false,
            },
            Geometry::GeometryPolygon(g) => match other {
                Geometry::GeometryPolygon(h) => same_commands(&g.commands, &h.commands),
                _ => false,
            },
        }
    }
}

} // verus!
