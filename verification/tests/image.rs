use frender::canvas::draw_commands::image::{ImageCommand, ImageOption};
use frender::canvas::draw_commands::line::{LineCommand, LineOption, LineOptions};
use frender::canvas::draw_commands::circle::{CircleCommand, CircleOption};
use frender::canvas::draw_commands::marker::Marker;
use frender::canvas::draw_commands::{Command, DrawCommand};
use frender::canvas::{Canvas, CanvasGeneric, CanvasImpl, Context};
use frender::color::{Color, BLACK, GRAY, RED, WHITE};
use frender::math::shapes::circle::Circle;
use frender::math::shapes::line::Line;
use frender::math::transform::{Transform, Transform2D};
use frender::math::vector::Vec2;

fn numbered(width: usize, height: usize) -> CanvasImpl {
    let buffer = (0..(width * height) as u32).map(|i| Color(0xFF00_0000 | (i + 1))).collect();
    CanvasImpl::new_buffer(width, height, buffer)
}

#[test]
fn unscaled_blit_onto_an_equal_canvas_copies_the_buffer() {
    let source = numbered(5, 4);
    let mut target = CanvasImpl::new(5, 4);
    target.background(Color(GRAY));
    target.image(&source, 0, 0, 1);
    assert_eq!(target.buffer(), source.buffer());
}

#[test]
fn fully_transparent_pixels_are_not_copied() {
    let mut source = numbered(3, 2);
    *source.pixel_mut(1, 0).unwrap() = Color(0x00_12_34_56);
    *source.pixel_mut(2, 1).unwrap() = Color(0);
    let mut target = CanvasImpl::new(3, 2);
    target.background(Color(GRAY));
    target.image(&source, 0, 0, 1);
    for y in 0..2 {
        for x in 0..3 {
            let expected = if (x, y) == (1, 0) || (x, y) == (2, 1) {
                Some(Color(GRAY))
            } else {
                source.pixel(x, y)
            };
            assert_eq!(target.pixel(x, y), expected);
        }
    }
    let mut large = CanvasImpl::new(6, 4);
    large.background(Color(GRAY));
    large.image(&source, 0, 0, 2);
    assert_eq!(large.pixel(2, 0), Some(Color(GRAY)));
    assert_eq!(large.pixel(3, 1), Some(Color(GRAY)));
    assert_eq!(large.pixel(5, 3), Some(Color(GRAY)));
    assert_eq!(large.pixel(1, 1), source.pixel(0, 0));
}

#[test]
fn unscaled_blit_is_cut_at_the_border() {
    let source = numbered(3, 3);
    let mut target = CanvasImpl::new(4, 4);
    target.image(&source, 2, -1, 1);
    for y in 0..4 {
        for x in 0..4 {
            let expected = source.pixel(x - 2, y + 1).unwrap_or(Color(0));
            assert_eq!(target.pixel(x, y), Some(expected));
        }
    }
}

#[test]
fn enlarged_blit_makes_a_block_of_each_pixel() {
    let source = numbered(3, 2);
    for scale in 2..=4 {
        let mut target = CanvasImpl::new(20, 20);
        target.image(&source, 3, 5, scale);
        for y in 0..20i32 {
            for x in 0..20i32 {
                let i = (x - 3).div_euclid(scale);
                let j = (y - 5).div_euclid(scale);
                let expected = source.pixel(i, j).unwrap_or(Color(0));
                assert_eq!(target.pixel(x, y), Some(expected));
            }
        }
    }
}

#[test]
fn enlarged_rows_that_pass_the_border_are_left_out_whole() {
    let source = numbered(3, 2);
    let mut target = CanvasImpl::new(8, 3);
    target.image(&source, 0, 0, 3);
    for y in 0..3 {
        for x in 0..8 {
            let expected = if x < 6 { source.pixel(x / 3, 0).unwrap() } else { Color(0) };
            assert_eq!(target.pixel(x, y), Some(expected));
        }
    }
    let mut shifted = CanvasImpl::new(8, 3);
    shifted.image(&source, -1, 0, 3);
    for y in 0..3 {
        for x in 0..8 {
            let expected = if (2..8).contains(&x) { source.pixel((x + 1) / 3, 0).unwrap() } else { Color(0) };
            assert_eq!(shifted.pixel(x, y), Some(expected));
        }
    }
}

#[test]
fn factors_may_differ_between_the_axes() {
    let source = numbered(2, 2);
    let mut target = CanvasImpl::new(6, 4);
    let options = ImageOption { destination: Vec2::new(0, 0), scaling: Vec2::new(3, 1) };
    target.draw(&source, options);
    for y in 0..4 {
        for x in 0..6 {
            let expected = source.pixel(x / 3, y).unwrap_or(Color(0));
            assert_eq!(target.pixel(x, y), Some(expected));
        }
    }
}

#[test]
fn image_options_start_unscaled() {
    let options = ImageOption::from(Vec2::new(3, 4));
    assert_eq!(options, ImageOption { destination: Vec2::new(3, 4), scaling: Vec2::new(1, 1) });
    assert_eq!(
        options.scaling(7),
        ImageOption { destination: Vec2::new(3, 4), scaling: Vec2::new(7, 7) }
    );
}

#[test]
fn markers_of_the_image_move_with_it() {
    let mut source = CanvasImpl::new(4, 4);
    source.marker(Line::new(0, 0, 3, 2), Color(RED).middle());
    source.marker(Circle::new(1, 1, 2), CircleOption::from(Color(WHITE)));
    let mut target = CanvasImpl::new(40, 40);
    target.marker(Line::new(0, 0, 1, 1), LineOptions::from(Color(BLACK)));
    target.image(&source, 5, 6, 10);
    assert_eq!(source.markers().len(), 2);
    assert_eq!(
        target.markers().as_slice(),
        &[
            Marker::Line(LineCommand {
                line: Line::new(0, 0, 1, 1),
                options: LineOptions::from(Color(BLACK)),
            }),
            Marker::Line(LineCommand {
                line: Line::new(5, 6, 35, 26),
                options: LineOptions { color: Color(RED), pixel_size: Vec2::new(10, 10) },
            }),
            Marker::Circle(CircleCommand {
                circle: Circle::new(15, 16, 20),
                options: CircleOption::from(Color(WHITE)),
            }),
        ]
    );
    target.render_markers();
    assert_eq!(target.pixel(10, 11), Some(Color(RED)));
    assert_eq!(target.pixel(39, 30), Some(Color(RED)));
    assert_eq!(target.pixel(15, 36), Some(Color(WHITE)));
    assert!(target.markers().is_empty());
}

#[test]
fn image_command_hands_its_markers_over_once() {
    let mut source = numbered(2, 2);
    source.marker(Line::new(0, 0, 1, 1), LineOptions::from(Color(RED)));
    let mut target = CanvasImpl::new(4, 4);
    let mut command: ImageCommand = (&source).into_renderable(ImageOption::from(Vec2::new(1, 1)));
    assert_eq!(command.markers.len(), 1);
    command.render_canvas(&mut target);
    assert!(command.markers.is_empty());
    assert_eq!(target.markers().len(), 1);
    assert_eq!(target.pixel(1, 1), source.pixel(0, 0));
    assert_eq!(target.pixel(2, 2), source.pixel(1, 1));
    assert_eq!(target.pixel(0, 0), Some(Color(0)));
}

#[test]
fn image_command_moves_with_a_transform() {
    let mut source = numbered(2, 2);
    source.marker(Line::new(0, 0, 1, 1), LineOptions::from(Color(RED)));
    let mut command = (&source).into_renderable(ImageOption::from(Vec2::new(1, 2)).scaling(2));
    command.transform(&Transform2D::new(Vec2::new(10, 20), Vec2::new(3, 4)));
    assert_eq!(
        command.options,
        ImageOption { destination: Vec2::new(13, 28), scaling: Vec2::new(6, 8) }
    );
    assert_eq!(
        command.markers,
        vec![Marker::Line(LineCommand {
            line: Line::new(13, 28, 19, 36),
            options: LineOptions::from(Color(RED)),
        })]
    );
}

#[test]
fn active_transform_moves_and_enlarges_the_image() {
    let source = numbered(2, 2);
    let mut target = CanvasImpl::new(12, 12);
    *target.view_mut().transform_mut() = Some(Transform2D::new(Vec2::new(2, 2), Vec2::new(3, 3)));
    target.image(&source, 1, 1, 1);
    for y in 0..12i32 {
        for x in 0..12i32 {
            let i = (x - 5).div_euclid(3);
            let j = (y - 5).div_euclid(3);
            let expected = source.pixel(i, j).unwrap_or(Color(0));
            assert_eq!(target.pixel(x, y), Some(expected));
        }
    }
}
