//! Decoders of the packed geometry command stream.
//!
//! A stream is a run of records: a header, which packs a command code and a
//! repeat count, followed by the parameters of each repetition. Coordinates
//! are ZigZag codes, each decoded on its own.

use vstd::prelude::*;
use crate::command::{arity, header_command, header_count, header_parts, parameters_of, parse_header};
use crate::command::{CMD_CLOSE_PATH, CMD_LINE_TO, CMD_MOVE_TO};
use crate::error::{outcome, DecodeError};
use crate::geometry::{Command, GeometryLineString, GeometryPoint, GeometryPolygon};
use crate::geometry::{LineTo, MoveTo, MultiPoint, Point, PointShape};
use crate::zigzag::{zagzig, zigzag};

verus! {

/// The point whose coordinates are the codes at `at` and `at + 1`.
pub open spec fn point_at(s: Seq<u32>, at: int) -> Point {
    Point { x: zigzag(s[at]) as i32, y: zigzag(s[at + 1]) as i32 }
}

/// The points of `count` consecutive coordinate pairs, the first at `start`.
pub open spec fn point_run(s: Seq<u32>, start: int, count: nat) -> Seq<Point> {
    Seq::new(count, |k: int| point_at(s, start + 2 * k))
}

/// The commands of one record: `count` repetitions of `command`, with the
/// first parameter at `start`. A code that is no command gives none.
pub open spec fn command_run(s: Seq<u32>, start: int, command: u32, count: nat) -> Seq<Command> {
    if command == CMD_MOVE_TO {
        Seq::new(
            count,
            |k: int|
                Command::MoveTo(
                    MoveTo { x: point_at(s, start + 2 * k).x, y: point_at(s, start + 2 * k).y },
                ),
        )
    } else if command == CMD_LINE_TO {
        Seq::new(
            count,
            |k: int|
                Command::LineTo(
                    LineTo { x: point_at(s, start + 2 * k).x, y: point_at(s, start + 2 * k).y },
                ),
        )
    } else if command == CMD_CLOSE_PATH {
        Seq::new(count, |k: int| Command::Close)
    } else {
        Seq::empty()
    }
}

/// `prefix` put before what `rest` holds; a failure stays as it is.
pub open spec fn prepend<T>(prefix: Seq<T>, rest: Result<Seq<T>, DecodeError>) -> Result<
    Seq<T>,
    DecodeError,
> {
    match rest {
        Ok(tail) => Ok(prefix + tail),
        Err(e) => Err(e),
    }
}

/// The points of a point stream, read from position `i` on.
///
/// A record is read while an element is left. Its command code is not
/// looked at: every record is taken as `count` coordinate pairs.
pub open spec fn points_from(s: Seq<u32>, i: int) -> Result<Seq<Point>, DecodeError>
    decreases s.len() - i,
{
    if i >= s.len() || i < 0 {
        Ok(Seq::empty())
    } else {
        let count = header_count(s[i]) as nat;
        let next = i + 1 + 2 * count;
        if next > s.len() {
            Err(DecodeError::MalformedCommandStream)
        } else {
            prepend(point_run(s, i + 1, count), points_from(s, next))
        }
    }
}

/// The shape that a list of decoded points stands for: none is the origin,
/// one is itself, more are a multi-point.
pub open spec fn shape_of_points(points: Seq<Point>) -> PointShape {
    if points.len() == 0 {
        PointShape::Point(Point { x: 0, y: 0 })
    } else if points.len() == 1 {
        PointShape::Point(points[0])
    } else {
        PointShape::MultiPoint(points)
    }
}

/// What a point stream decodes to.
pub open spec fn point_geometry(s: Seq<u32>) -> Result<PointShape, DecodeError> {
    match points_from(s, 0) {
        Ok(points) => Ok(shape_of_points(points)),
        Err(e) => Err(e),
    }
}

/// The commands of a line string's stream, read from position `i` on.
///
/// A record is read while an element is left. A record whose code is no
/// command adds nothing and has no parameters.
pub open spec fn lines_from(s: Seq<u32>, i: int) -> Result<Seq<Command>, DecodeError>
    decreases s.len() - i,
{
    if i >= s.len() || i < 0 {
        Ok(Seq::empty())
    } else {
        let command = header_command(s[i]);
        let count = header_count(s[i]) as nat;
        let next = i + 1 + count * arity(command);
        if next > s.len() {
            Err(DecodeError::MalformedCommandStream)
        } else {
            prepend(command_run(s, i + 1, command, count), lines_from(s, next))
        }
    }
}

/// What a line string's stream decodes to.
pub open spec fn line_string_geometry(s: Seq<u32>) -> Result<Seq<Command>, DecodeError> {
    lines_from(s, 0)
}

/// Whether `command` is one of the three command codes.
pub open spec fn is_command(command: u32) -> bool {
    command == CMD_MOVE_TO || command == CMD_LINE_TO || command == CMD_CLOSE_PATH
}

/// The commands of a polygon's stream, read from position `i` on.
///
/// A record is read while one element is left. A code that is no command
/// fails the stream.
pub open spec fn rings_from(s: Seq<u32>, i: int) -> Result<Seq<Command>, DecodeError>
    decreases s.len() - i,
{
    if i >= s.len() || i < 0 {
        Ok(Seq::empty())
    } else {
        let command = header_command(s[i]);
        let count = header_count(s[i]) as nat;
        let next = i + 1 + count * arity(command);
        if !is_command(command) {
            Err(DecodeError::UnknownCommandCode)
        } else if next > s.len() {
            Err(DecodeError::MalformedCommandStream)
        } else {
            prepend(command_run(s, i + 1, command, count), rings_from(s, next))
        }
    }
}

/// What a polygon's stream decodes to.
pub open spec fn polygon_geometry(s: Seq<u32>) -> Result<Seq<Command>, DecodeError> {
    rings_from(s, 0)
}

/// Putting `a` and then `b` before a result is putting `a + b` before it.
proof fn prepend_twice<T>(a: Seq<T>, b: Seq<T>, rest: Result<Seq<T>, DecodeError>)
    ensures
        prepend(a, prepend(b, rest)) == prepend(a + b, rest),
{
    match rest {
        Ok(tail) => {
            assert(a + (b + tail) =~= (a + b) + tail);
        },
        Err(_) => {},
    }
}

/// Nothing put before a result leaves the result, and a prefix put before
/// nothing is the prefix.
proof fn prepend_nothing<T>(prefix: Seq<T>, rest: Result<Seq<T>, DecodeError>)
    ensures
        prefix.len() == 0 ==> prepend(prefix, rest) == rest,
        rest == Ok::<Seq<T>, DecodeError>(Seq::empty()) ==> prepend(prefix, rest) == Ok::<
            Seq<T>,
            DecodeError,
        >(prefix),
{
    match rest {
        Ok(tail) => {
            if prefix.len() == 0 {
                assert(prefix + tail =~= tail);
            }
            if tail.len() == 0 {
                assert(prefix + tail =~= prefix);
            }
        },
        Err(_) => {},
    }
}

/// Decodes the coordinate pair at `at`.
fn read_point(data: &Vec<u32>, at: usize) -> (p: Point)
    requires
        at + 1 < data.len(),
    ensures
        p == point_at(data@, at as int),
{
    let x = zagzig(data[at]);
    let y = zagzig(data[at + 1]);
    Point { x, y }
}

/// Appends the points of `count` coordinate pairs, the first at `start`.
fn push_points(data: &Vec<u32>, start: usize, count: usize, out: &mut Vec<Point>)
    requires
        start + 2 * count <= data.len(),
    ensures
        final(out)@ == old(out)@ + point_run(data@, start as int, count as nat),
{
    let ghost before = out@;
    let mut k: usize = 0;
    while k < count
        invariant
            k <= count,
            start + 2 * count <= data.len(),
            out@ == before + point_run(data@, start as int, k as nat),
        decreases count - k,
    {
        let p = read_point(data, start + 2 * k);
        out.push(p);
        assert(out@ =~= before + point_run(data@, start as int, (k + 1) as nat));
        k += 1;
    }
    assert(out@ =~= before + point_run(data@, start as int, count as nat));
}

/// Decodes a point stream into a point geometry.
///
/// The stream is a run of records, each a header and `count` coordinate
/// pairs, read to the end of the stream. It fails where a header announces
/// more pairs than are left.
pub fn decode_point(data: &Vec<u32>) -> (r: Result<GeometryPoint, DecodeError>)
    ensures
        outcome::<GeometryPoint>(r) == point_geometry(data@),
{
    let mut points: Vec<Point> = Vec::new();
    let len = data.len();
    let mut i: usize = 0;
    proof {
        prepend_nothing(points@, points_from(data@, 0));
    }
    while i < len
        invariant
            len == data.len(),
            i <= len,
            prepend(points@, points_from(data@, i as int)) == points_from(data@, 0),
        decreases len - i,
    {
        let header = parse_header(data[i]);
        proof {
            header_parts(data[i as int]);
        }
        let count = header.count as usize;
        if 2 * count > len - i - 1 {
            return Err(DecodeError::MalformedCommandStream);
        }
        let ghost before = points@;
        push_points(data, i + 1, count, &mut points);
        proof {
            prepend_twice(
                before,
                point_run(data@, i + 1, count as nat),
                points_from(data@, i + 1 + 2 * count),
            );
        }
        i = i + 1 + 2 * count;
    }
    proof {
        prepend_nothing(points@, points_from(data@, len as int));
    }
    if points.len() == 1 {
        Ok(GeometryPoint::Point(points[0]))
    } else if points.len() > 1 {
        Ok(GeometryPoint::MultiPoint(MultiPoint::new(points)))
    } else {
        Ok(GeometryPoint::Point(Point::new(0, 0)))
    }
}

/// Appends `count` repetitions of `command`, with the first parameter at
/// `start`. A code that is no command appends nothing.
fn push_commands(data: &Vec<u32>, start: usize, command: u32, count: usize, out: &mut Vec<Command>)
    requires
        start + count * arity(command) <= data.len(),
    ensures
        final(out)@ == old(out)@ + command_run(data@, start as int, command, count as nat),
{
    let ghost before = out@;
    if command != CMD_MOVE_TO && command != CMD_LINE_TO && command != CMD_CLOSE_PATH {
        assert(out@ =~= before + command_run(data@, start as int, command, count as nat));
        return ;
    }
    let mut k: usize = 0;
    while k < count
        invariant
            k <= count,
            is_command(command),
            start + count * arity(command) <= data.len(),
            out@ == before + command_run(data@, start as int, command, k as nat),
        decreases count - k,
    {
        if command == CMD_MOVE_TO {
            let p = read_point(data, start + 2 * k);
            out.push(Command::MoveTo(MoveTo { x: p.x, y: p.y }));
        } else if command == CMD_LINE_TO {
            let p = read_point(data, start + 2 * k);
            out.push(Command::LineTo(LineTo { x: p.x, y: p.y }));
        } else {
            out.push(Command::Close);
        }
        assert(out@ =~= before + command_run(data@, start as int, command, (k + 1) as nat));
        k += 1;
    }
}

/// Decodes the stream of a line string into its commands.
///
/// A record whose code is no command is passed over. The stream fails where
/// a header announces more parameters than are left.
pub fn decode_line_string(data: &Vec<u32>) -> (r: Result<GeometryLineString, DecodeError>)
    ensures
        outcome::<GeometryLineString>(r) == line_string_geometry(data@),
{
    let mut commands: Vec<Command> = Vec::new();
    let len = data.len();
    let mut i: usize = 0;
    proof {
        prepend_nothing(commands@, lines_from(data@, 0));
    }
    while i < len
        invariant
            len == data.len(),
            i <= len,
            prepend(commands@, lines_from(data@, i as int)) == lines_from(data@, 0),
        decreases len - i,
    {
        let header = parse_header(data[i]);
        proof {
            header_parts(data[i as int]);
        }
        let count = header.count as usize;
        let width = parameters_of(header.command);
        assert(width * count == count * arity(header.command) && width * count <= 2 * count)
            by (nonlinear_arith)
            requires
                width == arity(header.command),
                width <= 2,
        ;
        if width * count > len - i - 1 {
            return Err(DecodeError::MalformedCommandStream);
        }
        let ghost before = commands@;
        push_commands(data, i + 1, header.command, count, &mut commands);
        proof {
            prepend_twice(
                before,
                command_run(data@, i + 1, header.command, count as nat),
                lines_from(data@, i + 1 + count * width),
            );
        }
        i = i + 1 + width * count;
    }
    proof {
        prepend_nothing(commands@, lines_from(data@, len as int));
    }
    Ok(GeometryLineString { commands })
}

/// Decodes the stream of a polygon into its commands.
///
/// The stream fails at the first record whose code is no command, or whose
/// header announces more parameters than are left.
pub fn decode_polygon(data: &Vec<u32>) -> (r: Result<GeometryPolygon, DecodeError>)
    ensures
        outcome::<GeometryPolygon>(r) == polygon_geometry(data@),
{
    let mut commands: Vec<Command> = Vec::new();
    let len = data.len();
    let mut i: usize = 0;
    proof {
        prepend_nothing(commands@, rings_from(data@, 0));
    }
    while i < len
        invariant
            len == data.len(),
            i <= len,
            prepend(commands@, rings_from(data@, i as int)) == rings_from(data@, 0),
        decreases len - i,
    {
        let header = parse_header(data[i]);
        proof {
            header_parts(data[i as int]);
        }
        let count = header.count as usize;
        if header.command != CMD_MOVE_TO && header.command != CMD_LINE_TO && header.command
            != CMD_CLOSE_PATH {
            return Err(DecodeError::UnknownCommandCode);
        }
        let width = parameters_of(header.command);
        assert(width * count == count * arity(header.command) && width * count <= 2 * count)
            by (nonlinear_arith)
            requires
                width == arity(header.command),
                width <= 2,
        ;
        if width * count > len - i - 1 {
            return Err(DecodeError::MalformedCommandStream);
        }
        let ghost before = commands@;
        push_commands(data, i + 1, header.command, count, &mut commands);
        proof {
            prepend_twice(
                before,
                command_run(data@, i + 1, header.command, count as nat),
                rings_from(data@, i + 1 + count * width),
            );
        }
        i = i + 1 + width * count;
    }
    proof {
        prepend_nothing(commands@, rings_from(data@, len as int));
    }
    Ok(GeometryPolygon { commands })
}

/// A point geometry is never empty: the empty stream decodes to the point
/// at the origin, and a multi-point holds at least two points.
pub proof fn point_geometry_is_never_empty(s: Seq<u32>)
    ensures
        s.len() == 0 ==> point_geometry(s) == Ok::<PointShape, DecodeError>(
            PointShape::Point(Point { x: 0, y: 0 }),
        ),
        match point_geometry(s) {
            Ok(PointShape::MultiPoint(points)) => points.len() >= 2,
            _ => true,
        },
{
}

/// A stream that decodes as a polygon decodes as a line string to the same
/// commands: the two decoders differ only on a code that is no command.
pub proof fn polygon_agrees_with_line_string(s: Seq<u32>, i: int)
    ensures
        rings_from(s, i) is Ok ==> lines_from(s, i) == rings_from(s, i),
    decreases s.len() - i,
{
    if rings_from(s, i) is Ok && 0 <= i < s.len() {
        let command = header_command(s[i]);
        let count = header_count(s[i]) as nat;
        polygon_agrees_with_line_string(s, i + 1 + count * arity(command));
    }
}

} // verus!
