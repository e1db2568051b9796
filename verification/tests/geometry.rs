use space_time_rewind::config::{WORLD_HEIGHT, WORLD_WIDTH};
use space_time_rewind::view::coordinates::Coordinates;
use space_time_rewind::view::renderer::{crop_left_offset, offset_x};
use space_time_rewind::view::util::{chars_height, chars_width, format_u32, repeated};
use space_time_rewind::view::viewport::Viewport;

#[test]
fn x_offset_wraps_left() {
    let mut coordinates = Coordinates::new(1, 1);
    coordinates.offset_x(-2);

    assert_eq!(coordinates.as_tuple(), (199, 1));
}

#[test]
fn x_offset_wraps_right() {
    let mut coordinates = Coordinates::new(1, 1);
    coordinates.offset_x(200);

    assert_eq!(coordinates.as_tuple(), (1, 1))
}

#[test]
fn y_offset_goes_into_negative() {
    let mut coordinates = Coordinates::new(1, 1);
    coordinates.offset_y(-2);

    assert_eq!(coordinates.as_tuple(), (1, -1))
}

#[test]
fn movement_saturates_min_y() {
    let mut coordinates = Coordinates::new(1, 1);
    coordinates.movement((0, -300));

    assert_eq!(coordinates.as_tuple(), (1, 0));
}

#[test]
fn movement_saturates_max_y() {
    let max_y = i8::try_from(WORLD_HEIGHT - 1).unwrap();
    let mut coordinates = Coordinates::new(1, 1);
    coordinates.movement((0, 300));

    assert_eq!(coordinates.as_tuple(), (1, max_y));
}

#[test]
fn movement_full_cycle_returns_to_the_same_column() {
    // Moving a whole world width to the right wraps back to the start.
    let mut coordinates = Coordinates::new(123, 7);
    coordinates.movement((i16::from(WORLD_WIDTH), 0));
    assert_eq!(coordinates.as_tuple(), (123, 7));
}

#[test]
fn movement_wraps_left_from_the_left_edge() {
    let mut coordinates = Coordinates::new(0, 5);
    coordinates.movement((-1, 0));
    assert_eq!(coordinates.as_tuple(), (WORLD_WIDTH - 1, 5));
}

#[test]
fn centered_around_bottom_left_handles_no_wrap() {
    let v = Viewport::new_with_coordinates(2, 2, Coordinates::new(2, 2));

    let (x, y) = v.centered_around_bottom_left().as_tuple();

    assert_eq!(x, 1);
    assert_eq!(y, 1);
}

#[test]
fn centered_around_bottom_left_handles_x_wrapping() {
    let v = Viewport::new_with_coordinates(2, 2, Coordinates::new(0, 0));

    let (x, y) = v.centered_around_bottom_left().as_tuple();

    assert_eq!(x, 199);
    assert_eq!(y, -1);
}

#[test]
fn centered_returns_0x0_for_1_length_from_origin() {
    let v = Viewport::new_with_coordinates(1, 1, Coordinates::new(0, 0));

    let (x, y) = v.centered().as_tuple();

    assert_eq!(x, 0);
    assert_eq!(y, 0);
}

#[test]
fn centered_returns_1x1_for_2_length_from_origin() {
    let v = Viewport::new_with_coordinates(2, 2, Coordinates::new(0, 0));

    let (x, y) = v.centered().as_tuple();

    assert_eq!(x, 1);
    assert_eq!(y, 1);
}

#[test]
fn centered_handles_negative_y() {
    let v = Viewport::new_with_coordinates(2, 2, Coordinates::new(0, -1));

    let (x, y) = v.centered().as_tuple();

    assert_eq!(x, 1);
    assert_eq!(y, 0);
}

#[test]
fn centered_handles_x_wrapping() {
    let v = Viewport::new_with_coordinates(2, 2, Coordinates::new(199, 0));

    let (x, y) = v.centered().as_tuple();

    assert_eq!(x, 0);
    assert_eq!(y, 1);
}

#[test]
fn intersects_returns_true_when_overlapping() {
    let bl = Viewport::new_with_coordinates(2, 2, Coordinates::new(0, 0));
    let tr = Viewport::new_with_coordinates(2, 2, Coordinates::new(1, 1));

    assert!(bl.intersects(tr));
    assert!(tr.intersects(bl));
    assert!(bl.intersects_horizontally(tr));
    assert!(tr.intersects_horizontally(bl));
    assert!(bl.intersects_vertically(tr));
    assert!(tr.intersects_vertically(bl));
}

#[test]
fn intersects_horizontally_returns_false_when_adjacent() {
    let bl = Viewport::new_with_coordinates(2, 2, Coordinates::new(0, 0));
    let tr = Viewport::new_with_coordinates(2, 2, Coordinates::new(2, 0));

    assert!(!bl.intersects_horizontally(tr));
    assert!(!tr.intersects_horizontally(bl));
}

#[test]
fn intersects_horizontally_returns_false_when_adjacent_and_wrapped() {
    let l = Viewport::new_with_coordinates(2, 2, Coordinates::new(0, 0));
    let r = Viewport::new_with_coordinates(2, 2, Coordinates::new(198, 0));

    assert!(!l.intersects_horizontally(r));
    assert!(!r.intersects_horizontally(l));
}

#[test]
fn intersects_horizontally_returns_true_when_wrapped() {
    let l = Viewport::new_with_coordinates(2, 2, Coordinates::new(0, 0));
    let r = Viewport::new_with_coordinates(2, 2, Coordinates::new(199, 0));

    assert!(l.intersects_horizontally(r));
    assert!(r.intersects_horizontally(l));
}

#[test]
fn intersects_vertically_returns_false_when_adjacent() {
    let bl = Viewport::new_with_coordinates(2, 2, Coordinates::new(2, 2));
    let tr = Viewport::new_with_coordinates(2, 2, Coordinates::new(2, 0));

    assert!(!bl.intersects_vertically(tr));
    assert!(!tr.intersects_vertically(bl));
}

#[test]
fn crop_left_offset_returns_midway_split() {
    let actual = crop_left_offset("abcd", 2);

    assert_eq!(actual, "cd");
}

#[test]
fn crop_left_offset_returns_empty_when_offset_equals_length() {
    let actual = crop_left_offset("a", 1);

    assert_eq!(actual, "");
}

#[test]
fn crop_left_offset_returns_empty_when_offset_greater_than_length() {
    let actual = crop_left_offset("a", 2);

    assert_eq!(actual, "");
}

#[test]
fn x_offset_calculates_width_correctly_for_multiline_strings() {
    let s = "\
        2\n\
        12345\n\
        \x20";

    let offset = offset_x(196, s);

    assert_eq!(offset, 4);
}

#[test]
fn x_offset_returns_0_when_x_is_positive() {
    let offset = offset_x(0, "a");

    assert_eq!(offset, 0);
}

#[test]
fn x_offset_returns_0_when_just_before_wrap_boundary_with_overlap() {
    let offset = offset_x(199, "ab");

    assert_eq!(offset, 1);
}

#[test]
fn x_offset_returns_0_when_just_before_wrap_boundary_without_overlap() {
    let offset = offset_x(199, "a");

    assert_eq!(offset, 0);
}

#[test]
fn chars_measure_multiline_art() {
    assert_eq!(chars_height(""), 0);
    assert_eq!(chars_height("a"), 1);
    assert_eq!(chars_height("a\nbb\nc"), 3);
    assert_eq!(chars_height("a\n"), 1);
    assert_eq!(chars_width(""), 0);
    assert_eq!(chars_width("abc"), 3);
    assert_eq!(chars_width("a\nbbbb\ncc"), 4);
}

#[test]
fn repeated_builds_gauge_cells() {
    assert_eq!(repeated('x', 0), "");
    assert_eq!(repeated('\u{25ae}', 3), "\u{25ae}\u{25ae}\u{25ae}");
}

#[test]
fn format_u32_writes_decimal_digits() {
    assert_eq!(format_u32(0), "0");
    assert_eq!(format_u32(7), "7");
    assert_eq!(format_u32(12345), "12345");
    assert_eq!(format_u32(4294967295), "4294967295");
}

#[test]
fn intersects_is_symmetric_at_the_seam() {
    // Viewport intersection is symmetric, also across the world seam.
    let wide = Viewport::new_with_coordinates(10, 3, Coordinates::new(195, 0));
    let narrow = Viewport::new_with_coordinates(2, 3, Coordinates::new(1, 1));
    assert_eq!(wide.intersects(narrow), narrow.intersects(wide));
    assert!(wide.intersects(narrow));
}

#[test]
fn top_right_is_the_opposite_corner() {
    let v = Viewport::new_with_coordinates(5, 3, Coordinates::new(10, 2));
    assert_eq!(v.top_right().as_tuple(), (14, 4));
}

#[test]
fn expanded_and_shrunk_stay_centered() {
    let v = Viewport::new_with_coordinates(3, 1, Coordinates::new(7, 5));
    assert_eq!(v.expanded(5, 3).as_tuple(), (6, 4));
    let grown = Viewport::new_with_coordinates(5, 3, Coordinates::new(6, 4));
    assert_eq!(grown.shrunk(3, 1).as_tuple(), (7, 5));
}

#[test]
fn expanded_wraps_at_the_left_edge() {
    let v = Viewport::new_with_coordinates(3, 1, Coordinates::new(0, 5));
    assert_eq!(v.expanded(5, 3).as_tuple(), (WORLD_WIDTH - 1, 4));
}

#[test]
fn contained_vertically_clamps_into_the_viewport() {
    let screen = Viewport::new_with_coordinates(50, 10, Coordinates::new(0, 0));
    let above = Viewport::new_with_coordinates(3, 1, Coordinates::new(5, 20));
    assert_eq!(screen.contained_vertically(above).as_tuple(), (5, 9));
    let below = Viewport::new_with_coordinates(3, 1, Coordinates::new(5, -4));
    assert_eq!(screen.contained_vertically(below).as_tuple(), (5, 0));
}
