use frender::canvas::draw_commands::circle::{CircleCommand, CircleOption, CircleOptionTrait};
use frender::canvas::draw_commands::marker::Marker;
use frender::canvas::draw_commands::{CloneCommand, Command, DrawCommand};
use frender::canvas::{Canvas, CanvasGeneric, CanvasImpl};
use frender::color::{Color, BLACK, RED, TRANSPARENT, WHITE};
use frender::math::shapes::circle::Circle;
use frender::math::transform::{Transform, Transform2D};
use frender::math::vector::Vec2;

fn picture(canvas: &CanvasImpl) -> Vec<String> {
    let (w, h) = canvas.size_i32();
    (0..h)
        .map(|y| {
            (0..w)
                .map(|x| match canvas.pixel(x, y) {
                    Some(c) if c == Color(RED) => 'r',
                    Some(c) if c == Color(WHITE) => 'w',
                    Some(c) if c == Color(BLACK) => 'b',
                    _ => '.',
                })
                .collect()
        })
        .collect()
}

#[test]
fn filled_circle_on_a_twenty_by_twenty_canvas() {
    let mut canvas = CanvasImpl::new(20, 20);
    canvas.circle(10, 10, 5, Color(RED).fill(Color(WHITE)));
    for x in 6..=14 {
        assert_eq!(canvas.pixel(x, 10), Some(Color(WHITE)));
    }
    assert_eq!(canvas.pixel(5, 10), Some(Color(RED)));
    assert_eq!(canvas.pixel(15, 10), Some(Color(RED)));
    assert_eq!(canvas.pixel(4, 10), Some(Color(0)));
    assert_eq!(canvas.pixel(16, 10), Some(Color(0)));
}

#[test]
fn outline_of_radius_five() {
    let mut canvas = CanvasImpl::new(11, 11);
    canvas.circle(5, 5, 5, CircleOption::from(Color(RED)));
    assert_eq!(
        picture(&canvas),
        vec![
            "...rrrrr...",
            "..r.....r..",
            ".r.......r.",
            "r.........r",
            "r.........r",
            "r.........r",
            "r.........r",
            "r.........r",
            ".r.......r.",
            "..r.....r..",
            "...rrrrr...",
        ]
    );
}

#[test]
fn filled_circle_of_radius_five() {
    let mut canvas = CanvasImpl::new(11, 11);
    canvas.circle(5, 5, 5, Color(RED).fill(Color(WHITE)));
    assert_eq!(
        picture(&canvas),
        vec![
            "...rrrrr...",
            "..rwwwwwr..",
            ".rwwwwwwwr.",
            "rwwwwwwwwwr",
            "rwwwwwwwwwr",
            "rwwwwwwwwwr",
            "rwwwwwwwwwr",
            "rwwwwwwwwwr",
            ".rwwwwwwwr.",
            "..rwwwwwr..",
            "...rrrrr...",
        ]
    );
}

#[test]
fn outline_is_the_same_under_all_eight_reflections() {
    for radius in 0..=9 {
        let mut canvas = CanvasImpl::new(21, 21);
        canvas.circle(10, 10, radius, CircleOption::from(Color(RED)));
        for a in -10..=10 {
            for b in -10..=10 {
                let here = canvas.pixel(10 + a, 10 + b);
                assert_eq!(here, canvas.pixel(10 - a, 10 + b));
                assert_eq!(here, canvas.pixel(10 + a, 10 - b));
                assert_eq!(here, canvas.pixel(10 - a, 10 - b));
                assert_eq!(here, canvas.pixel(10 + b, 10 + a));
                assert_eq!(here, canvas.pixel(10 - b, 10 + a));
                assert_eq!(here, canvas.pixel(10 + b, 10 - a));
                assert_eq!(here, canvas.pixel(10 - b, 10 - a));
            }
        }
    }
}

#[test]
fn fill_never_paints_over_the_outline() {
    for radius in 0..=9 {
        let mut outline = CanvasImpl::new(21, 21);
        outline.circle(10, 10, radius, CircleOption::from(Color(RED)));
        let mut filled = CanvasImpl::new(21, 21);
        filled.circle(10, 10, radius, Color(RED).fill(Color(WHITE)));
        for x in 0..21 {
            for y in 0..21 {
                if outline.pixel(x, y) == Some(Color(RED)) {
                    assert_eq!(filled.pixel(x, y), Some(Color(RED)));
                } else {
                    assert_ne!(filled.pixel(x, y), Some(Color(RED)));
                }
            }
        }
    }
}

#[test]
fn circle_of_radius_zero_is_its_center() {
    let mut canvas = CanvasImpl::new(5, 5);
    canvas.circle(2, 2, 0, Color(RED).fill(Color(WHITE)));
    assert_eq!(canvas.pixel(2, 2), Some(Color(RED)));
    assert_eq!(canvas.buffer().iter().filter(|c| **c != Color(0)).count(), 1);
}

#[test]
fn circle_of_radius_one() {
    let mut canvas = CanvasImpl::new(5, 5);
    canvas.circle(2, 2, 1, Color(RED).fill(Color(WHITE)));
    assert_eq!(picture(&canvas), vec![".....", "..r..", ".rwr.", "..r..", "....."]);
}

#[test]
fn circle_of_negative_radius_is_nothing() {
    let mut canvas = CanvasImpl::new(5, 5);
    canvas.circle(2, 2, -1, Color(RED).fill(Color(WHITE)));
    canvas.circle(2, 2, i32::MIN, Color(RED).fill(Color(WHITE)));
    assert!(canvas.buffer().iter().all(|c| *c == Color(0)));
}

#[test]
fn transparent_fill_leaves_the_inside_alone() {
    let mut canvas = CanvasImpl::new(11, 11);
    canvas.background(Color(BLACK));
    canvas.circle(5, 5, 4, Color(RED).fill(Color(TRANSPARENT)));
    assert_eq!(canvas.pixel(5, 5), Some(Color(BLACK)));
    assert_eq!(canvas.pixel(5, 1), Some(Color(RED)));
    assert_eq!(CircleOption::from(Color(RED)), Color(RED).fill(Color(TRANSPARENT)));
}

#[test]
fn outline_is_cut_at_the_border_and_spans_vanish_whole() {
    let mut canvas = CanvasImpl::new(8, 11);
    canvas.circle(5, 5, 5, Color(RED).fill(Color(WHITE)));
    assert_eq!(
        picture(&canvas),
        vec![
            "...rrrrr",
            "..rwwwww",
            ".r......",
            "r.......",
            "r.......",
            "r.......",
            "r.......",
            "r.......",
            ".r......",
            "..rwwwww",
            "...rrrrr",
        ]
    );
}

#[test]
fn far_circle_leaves_no_trace() {
    let mut canvas = CanvasImpl::new(4, 4);
    canvas.circle(i32::MAX, i32::MAX, 3, Color(RED).fill(Color(WHITE)));
    canvas.circle(i32::MIN, i32::MIN, 3, Color(RED).fill(Color(WHITE)));
    assert!(canvas.buffer().iter().all(|c| *c == Color(0)));
}

#[test]
fn circle_command_scales_its_radius_by_the_first_axis() {
    let mut command = Circle::new(1, 2, 3).into_renderable(Color(RED).fill(Color(WHITE)));
    command.transform(&Transform2D::new(Vec2::new(10, 20), Vec2::new(4, 5)));
    assert_eq!(
        command,
        CircleCommand {
            circle: Circle::new(14, 30, 12),
            options: CircleOption { stroke_color: Color(RED), fill_color: Color(WHITE) },
        }
    );
    assert_eq!(command.box_clone(), Marker::Circle(command));
    let mut canvas = CanvasImpl::new(3, 3);
    let mut dot = Circle::new(1, 1, 0).into_renderable(CircleOption::from(Color(RED)));
    dot.render_canvas(&mut canvas);
    assert_eq!(canvas.pixel(1, 1), Some(Color(RED)));
}

#[test]
fn fill_option_keeps_the_outline_color() {
    let options = CircleOption { stroke_color: Color(RED), fill_color: Color(BLACK) };
    assert_eq!(
        options.fill(Color(WHITE)),
        CircleOption { stroke_color: Color(RED), fill_color: Color(WHITE) }
    );
}
