use frender::canvas::draw_commands::line::{LineCommand, LineOption, LineOptions};
use frender::canvas::draw_commands::{CloneCommand, Command, DrawCommand};
use frender::canvas::draw_commands::marker::Marker;
use frender::canvas::{Canvas, CanvasGeneric, CanvasImpl};
use frender::color::{Color, RED, WHITE};
use frender::math::shapes::line::Line;
use frender::math::transform::{Transform, Transform2D};
use frender::math::vector::Vec2;

const SIDE: i32 = 24;
const ORIGIN: i32 = 12;

fn pixels_of(x1: i32, y1: i32, x2: i32, y2: i32) -> Vec<(i32, i32)> {
    let mut canvas = CanvasImpl::new(SIDE as usize, SIDE as usize);
    canvas.line(x1 + ORIGIN, y1 + ORIGIN, x2 + ORIGIN, y2 + ORIGIN, LineOptions::from(Color(WHITE)));
    let mut out = Vec::new();
    for y in 0..SIDE {
        for x in 0..SIDE {
            if canvas.pixel(x, y) == Some(Color(WHITE)) {
                out.push((x - ORIGIN, y - ORIGIN));
            }
        }
    }
    out
}

fn has_tie(dx: i32, dy: i32) -> bool {
    let (major, minor) = if dx.abs() >= dy.abs() { (dx.abs(), dy.abs()) } else { (dy.abs(), dx.abs()) };
    (1..major).any(|k| (2 * k * minor) % (2 * major) == major)
}

#[test]
fn diagonal_on_a_ten_by_ten_canvas() {
    let mut canvas = CanvasImpl::new(10, 10);
    canvas.draw(Line::new(1, 1, 8, 8), LineOptions::from(Color(WHITE)));
    assert_eq!(canvas.pixel(1, 1), Some(Color(WHITE)));
    assert_eq!(canvas.pixel(8, 8), Some(Color(WHITE)));
    assert_eq!(canvas.buffer().iter().filter(|c| **c == Color(WHITE)).count(), 8);
    for i in 1..=8 {
        assert_eq!(canvas.pixel(i, i), Some(Color(WHITE)));
    }
}

#[test]
fn walk_rounds_ties_toward_its_start() {
    assert_eq!(pixels_of(0, 0, 2, 1), vec![(0, 0), (1, 0), (2, 1)]);
    assert_eq!(pixels_of(2, 1, 0, 0), vec![(0, 0), (1, 1), (2, 1)]);
    assert_eq!(pixels_of(0, 0, 1, 2), vec![(0, 0), (0, 1), (1, 2)]);
}

#[test]
fn walk_of_a_shallow_line() {
    assert_eq!(
        pixels_of(0, 0, 5, 2),
        vec![(0, 0), (1, 0), (2, 1), (3, 1), (4, 2), (5, 2)]
    );
    assert_eq!(
        pixels_of(0, 0, -3, 7),
        vec![(0, 0), (0, 1), (-1, 2), (-1, 3), (-2, 4), (-2, 5), (-3, 6), (-3, 7)]
    );
}

#[test]
fn every_line_visits_both_ends_and_one_pixel_per_step() {
    for x2 in -9..=9 {
        for y2 in -9..=9 {
            let pixels = pixels_of(1, -2, x2, y2);
            assert!(pixels.contains(&(1, -2)));
            assert!(pixels.contains(&(x2, y2)));
            let steps = (x2 - 1).abs().max((y2 + 2).abs());
            assert_eq!(pixels.len() as i32, steps + 1);
        }
    }
}

#[test]
fn lines_without_ties_are_the_same_in_both_directions() {
    let mut with_tie = 0;
    for x2 in -9..=9 {
        for y2 in -9..=9 {
            let there = pixels_of(0, 0, x2, y2);
            let back = pixels_of(x2, y2, 0, 0);
            if has_tie(x2, y2) {
                with_tie += 1;
                assert_ne!(there, back);
            } else {
                assert_eq!(there, back);
            }
        }
    }
    assert!(with_tie > 0);
}

#[test]
fn single_point_line() {
    assert_eq!(pixels_of(3, 4, 3, 4), vec![(3, 4)]);
}

#[test]
fn lines_through_the_border_are_cut() {
    let mut canvas = CanvasImpl::new(4, 4);
    canvas.line(-3, 1, 8, 1, LineOptions::from(Color(RED)));
    assert_eq!(canvas.pixels(0..4, 1).unwrap(), &[Color(RED); 4]);
    assert_eq!(canvas.buffer().iter().filter(|c| **c == Color(RED)).count(), 4);
    canvas.line(-5, -5, -1, -9, LineOptions::from(Color(WHITE)));
    canvas.line(10, 0, 10, 30, LineOptions::from(Color(WHITE)));
    assert_eq!(canvas.buffer().iter().filter(|c| **c == Color(WHITE)).count(), 0);
}

#[test]
fn far_lines_end_without_a_trace() {
    let mut canvas = CanvasImpl::new(3, 3);
    canvas.line(i32::MAX - 40, i32::MAX, i32::MAX, i32::MAX - 25, LineOptions::from(Color(RED)));
    canvas.line(i32::MIN, i32::MIN, i32::MIN + 30, i32::MIN + 7, LineOptions::from(Color(RED)));
    canvas.line(
        i32::MAX - 3,
        0,
        i32::MAX,
        0,
        LineOptions { color: Color(RED), pixel_size: Vec2::new(i32::MAX, i32::MAX) },
    );
    assert!(canvas.buffer().iter().all(|c| *c == Color(0)));
}

#[test]
fn cell_size_shifts_both_ends_by_half() {
    let mut canvas = CanvasImpl::new(12, 12);
    let mut command = LineCommand {
        line: Line::new(0, 0, 5, 0),
        options: LineOptions { color: Color(RED), pixel_size: Vec2::new(4, 7) },
    };
    command.render_canvas(&mut canvas);
    for y in 0..12 {
        for x in 0..12 {
            let on = y == 3 && (2..=7).contains(&x);
            assert_eq!(canvas.pixel(x, y), Some(if on { Color(RED) } else { Color(0) }));
        }
    }
    let mut canvas = CanvasImpl::new(12, 12);
    let mut command = LineCommand {
        line: Line::new(4, 4, 4, 6),
        options: LineOptions { color: Color(RED), pixel_size: Vec2::new(-3, -5) },
    };
    command.render_canvas(&mut canvas);
    for y in 0..12 {
        for x in 0..12 {
            let on = x == 3 && (2..=4).contains(&y);
            assert_eq!(canvas.pixel(x, y), Some(if on { Color(RED) } else { Color(0) }));
        }
    }
}

#[test]
fn line_options_from_a_color_and_through_the_middle() {
    let plain = LineOptions::from(Color(RED));
    assert_eq!(plain, LineOptions { color: Color(RED), pixel_size: Vec2::new(0, 0) });
    assert_eq!(
        Color(RED).middle(),
        LineOptions { color: Color(RED), pixel_size: Vec2::new(1, 1) }
    );
    assert_eq!(plain.middle(), Color(RED).middle());
}

#[test]
fn line_command_scales_its_cell_size() {
    let mut command = Line::new(1, 1, 2, 3).into_renderable(Color(WHITE).middle());
    command.transform(&Transform2D::new(Vec2::new(10, 20), Vec2::new(20, 30)));
    assert_eq!(
        command,
        LineCommand {
            line: Line::new(30, 50, 50, 110),
            options: LineOptions { color: Color(WHITE), pixel_size: Vec2::new(20, 30) },
        }
    );
    assert_eq!(command.box_clone(), Marker::Line(command));
}

#[test]
fn middle_line_over_an_enlarged_image_runs_through_the_cell_centers() {
    let mut canvas = CanvasImpl::new(20, 20);
    let mut command = Line::new(0, 0, 1, 0).into_renderable(Color(RED).middle());
    command.transform(&Transform2D::new_scaling(Vec2::new(10, 10)));
    command.render_canvas(&mut canvas);
    assert_eq!(canvas.pixel(5, 5), Some(Color(RED)));
    assert_eq!(canvas.pixel(15, 5), Some(Color(RED)));
    assert_eq!(canvas.buffer().iter().filter(|c| **c == Color(RED)).count(), 11);
}
