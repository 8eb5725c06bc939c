use vector_tile::command::{parameters_of, parse_header, Header};
use vector_tile::command::{CMD_CLOSE_PATH, CMD_LINE_TO, CMD_MOVE_TO};
use vector_tile::encoding::Decode;
use vector_tile::error::DecodeError;
use vector_tile::geometry::{Command, GeometryLineString, GeometryPoint, GeometryPolygon};
use vector_tile::geometry::{LineTo, MoveTo, MultiPoint, Point};
use vector_tile::stream::{decode_line_string, decode_point, decode_polygon};
use vector_tile::zigzag::zagzig;

fn move_to(x: i32, y: i32) -> Command {
    Command::MoveTo(MoveTo { x, y })
}

fn line_to(x: i32, y: i32) -> Command {
    Command::LineTo(LineTo { x, y })
}

#[test]
fn zigzag_table() {
    assert_eq!(zagzig(0), 0);
    assert_eq!(zagzig(1), -1);
    assert_eq!(zagzig(2), 1);
    assert_eq!(zagzig(3), -2);
    assert_eq!(zagzig(4), 2);
    assert_eq!(zagzig(50), 25);
    assert_eq!(zagzig(34), 17);
}

#[test]
fn zigzag_extremes() {
    assert_eq!(zagzig(u32::MAX), i32::MIN);
    assert_eq!(zagzig(u32::MAX - 1), i32::MAX);
}

#[test]
fn zigzag_matches_bit_formula() {
    for u in [0u32, 1, 2, 3, 7, 8, 255, 256, 65535, 0x7fff_ffff, 0x8000_0000, u32::MAX] {
        assert_eq!(zagzig(u), ((u >> 1) as i32) ^ (-((u & 1) as i32)));
    }
}

#[test]
fn header_of_nine_is_one_move_to() {
    assert_eq!(parse_header(9), Header { command: CMD_MOVE_TO, count: 1 });
}

#[test]
fn header_of_twenty_six_is_three_line_to() {
    assert_eq!(parse_header(26), Header { command: CMD_LINE_TO, count: 3 });
}

#[test]
fn header_of_fifteen_is_one_close_path() {
    assert_eq!(parse_header(15), Header { command: CMD_CLOSE_PATH, count: 1 });
}

#[test]
fn header_of_largest_value() {
    assert_eq!(parse_header(u32::MAX), Header { command: 7, count: 0x1fff_ffff });
}

#[test]
fn parameters_per_command() {
    assert_eq!(parameters_of(CMD_MOVE_TO), 2);
    assert_eq!(parameters_of(CMD_LINE_TO), 2);
    assert_eq!(parameters_of(CMD_CLOSE_PATH), 0);
    assert_eq!(parameters_of(0), 0);
    assert_eq!(parameters_of(5), 0);
}

#[test]
fn point_single() {
    assert_eq!(decode_point(&vec![9, 50, 34]), Ok(GeometryPoint::Point(Point::new(25, 17))));
}

#[test]
fn point_empty_input_is_origin() {
    assert_eq!(decode_point(&vec![]), Ok(GeometryPoint::Point(Point::new(0, 0))));
}

#[test]
fn point_lone_header_is_malformed() {
    assert_eq!(decode_point(&vec![9]), Err(DecodeError::MalformedCommandStream));
}

#[test]
fn point_lone_header_of_no_pair_is_origin() {
    assert_eq!(decode_point(&vec![1]), Ok(GeometryPoint::Point(Point::new(0, 0))));
}

#[test]
fn point_header_in_last_place_is_read() {
    assert_eq!(decode_point(&vec![9, 50, 34, 17]), Err(DecodeError::MalformedCommandStream));
    assert_eq!(decode_point(&vec![9, 50, 34, 1]), Ok(GeometryPoint::Point(Point::new(25, 17))));
}

#[test]
fn point_multi_in_one_record() {
    let expected = MultiPoint::new(vec![Point::new(5, 7), Point::new(3, 2)]);
    assert_eq!(decode_point(&vec![17, 10, 14, 6, 4]), Ok(GeometryPoint::MultiPoint(expected)));
}

#[test]
fn point_multi_over_two_records() {
    let expected = MultiPoint::new(vec![Point::new(25, 17), Point::new(-1, -2)]);
    assert_eq!(decode_point(&vec![9, 50, 34, 9, 1, 3]), Ok(GeometryPoint::MultiPoint(expected)));
}

#[test]
fn point_command_code_is_not_looked_at() {
    assert_eq!(decode_point(&vec![10, 50, 34]), Ok(GeometryPoint::Point(Point::new(25, 17))));
}

#[test]
fn point_overrun_is_malformed() {
    assert_eq!(decode_point(&vec![17, 10, 14]), Err(DecodeError::MalformedCommandStream));
    assert_eq!(decode_point(&vec![9, 50]), Err(DecodeError::MalformedCommandStream));
    assert_eq!(decode_point(&vec![u32::MAX, 0]), Err(DecodeError::MalformedCommandStream));
}

#[test]
fn point_through_trait() {
    let r: Result<GeometryPoint, DecodeError> = vec![9u32, 50, 34].decode();
    assert_eq!(r, Ok(GeometryPoint::Point(Point::new(25, 17))));
}

#[test]
fn line_string_move_and_two_lines() {
    let r = decode_line_string(&vec![9, 4, 4, 18, 0, 16, 16, 0]);
    let expected = vec![move_to(2, 2), line_to(0, 8), line_to(8, 0)];
    assert_eq!(r, Ok(GeometryLineString { commands: expected }));
}

#[test]
fn line_string_empty_input() {
    assert_eq!(decode_line_string(&vec![]), Ok(GeometryLineString { commands: vec![] }));
}

#[test]
fn line_string_header_in_last_place_is_read() {
    let r = decode_line_string(&vec![9, 4, 4, 15]);
    assert_eq!(r, Ok(GeometryLineString { commands: vec![move_to(2, 2), Command::Close] }));
    assert_eq!(decode_line_string(&vec![9, 4, 4, 9]), Err(DecodeError::MalformedCommandStream));
    assert_eq!(decode_line_string(&vec![9]), Err(DecodeError::MalformedCommandStream));
    assert_eq!(decode_line_string(&vec![11]), Ok(GeometryLineString { commands: vec![] }));
}

#[test]
fn line_string_ends_in_close_path() {
    let r = decode_line_string(&vec![9, 4, 4, 10, 0, 16, 15]);
    let expected = vec![move_to(2, 2), line_to(0, 8), Command::Close];
    assert_eq!(r, Ok(GeometryLineString { commands: expected }));
}

#[test]
fn line_string_close_path_takes_no_parameters() {
    let r = decode_line_string(&vec![9, 4, 4, 15, 9, 2, 6]);
    let expected = vec![move_to(2, 2), Command::Close, move_to(1, 3)];
    assert_eq!(r, Ok(GeometryLineString { commands: expected }));
}

#[test]
fn line_string_repeated_close_path() {
    let r = decode_line_string(&vec![23, 9, 2, 6]);
    let expected = vec![Command::Close, Command::Close, move_to(1, 3)];
    assert_eq!(r, Ok(GeometryLineString { commands: expected }));
}

#[test]
fn line_string_unknown_code_is_passed_over() {
    // 11 is code 3 with count 1: no command, no parameters.
    let r = decode_line_string(&vec![11, 9, 4, 4]);
    assert_eq!(r, Ok(GeometryLineString { commands: vec![move_to(2, 2)] }));
}

#[test]
fn line_string_overrun_is_malformed() {
    assert_eq!(decode_line_string(&vec![18, 0, 16, 16]), Err(DecodeError::MalformedCommandStream));
    assert_eq!(decode_line_string(&vec![9, 4]), Err(DecodeError::MalformedCommandStream));
}

#[test]
fn line_string_through_trait() {
    let r: Result<GeometryLineString, DecodeError> = vec![9u32, 4, 4].decode();
    assert_eq!(r, Ok(GeometryLineString { commands: vec![move_to(2, 2)] }));
}

#[test]
fn polygon_ring() {
    let r = decode_polygon(&vec![9, 6, 12, 18, 10, 12, 24, 44, 15]);
    let expected = vec![move_to(3, 6), line_to(5, 6), line_to(12, 22), Command::Close];
    assert_eq!(r, Ok(GeometryPolygon { commands: expected }));
}

#[test]
fn polygon_empty_input() {
    assert_eq!(decode_polygon(&vec![]), Ok(GeometryPolygon { commands: vec![] }));
}

#[test]
fn polygon_reads_header_in_last_place() {
    assert_eq!(decode_polygon(&vec![15]), Ok(GeometryPolygon { commands: vec![Command::Close] }));
    assert_eq!(decode_polygon(&vec![9]), Err(DecodeError::MalformedCommandStream));
}

#[test]
fn polygon_unknown_code_fails() {
    assert_eq!(decode_polygon(&vec![11, 9, 4, 4]), Err(DecodeError::UnknownCommandCode));
    assert_eq!(decode_polygon(&vec![9, 4, 4, 0]), Err(DecodeError::UnknownCommandCode));
}

#[test]
fn polygon_overrun_is_malformed() {
    assert_eq!(decode_polygon(&vec![18, 0, 16, 16]), Err(DecodeError::MalformedCommandStream));
    assert_eq!(decode_polygon(&vec![9, 4]), Err(DecodeError::MalformedCommandStream));
}

#[test]
fn polygon_first_fault_decides() {
    // The unknown code comes first, the short record after it.
    assert_eq!(decode_polygon(&vec![8, 17, 1, 2]), Err(DecodeError::UnknownCommandCode));
    assert_eq!(decode_polygon(&vec![17, 1, 2, 8]), Err(DecodeError::MalformedCommandStream));
}

#[test]
fn polygon_through_trait() {
    let r: Result<GeometryPolygon, DecodeError> = vec![9u32, 4, 4, 15].decode();
    assert_eq!(r, Ok(GeometryPolygon { commands: vec![move_to(2, 2), Command::Close] }));
}

#[test]
fn polygon_and_line_string_agree_on_commands() {
    for data in [
        vec![9, 6, 12, 18, 10, 12, 24, 44, 15, 9, 2, 2],
        vec![9, 6, 12, 18, 10, 12, 24, 44, 15],
        vec![15],
        vec![],
    ] {
        let polygon = decode_polygon(&data).unwrap();
        let line = decode_line_string(&data).unwrap();
        assert_eq!(polygon.commands, line.commands);
    }
}
