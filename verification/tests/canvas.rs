use frender::canvas::draw_commands::background::{Background, BackgroundCommand};
use frender::canvas::draw_commands::line::{LineCommand, LineOptions};
use frender::canvas::draw_commands::marker::Marker;
use frender::canvas::draw_commands::{Command, DrawCommand};
use frender::canvas::{Canvas, CanvasGeneric, CanvasImpl, Coloring, Context, View};
use frender::color::{Color, BLACK, GRAY, RED, WHITE};
use frender::math::shapes::line::Line;
use frender::math::shapes::rect::Rect;
use frender::math::transform::{Transform, Transform2D};
use frender::math::vector::Vec2;

fn numbered(width: usize, height: usize) -> CanvasImpl {
    let buffer = (0..(width * height) as u32).map(|i| Color(0xFF00_0000 | i)).collect();
    CanvasImpl::new_buffer(width, height, buffer)
}

#[test]
fn new_canvas_is_transparent_and_has_the_whole_clip() {
    let canvas = CanvasImpl::new(4, 3);
    assert_eq!(canvas.size(), (4, 3));
    assert_eq!(canvas.size_i32(), (4, 3));
    assert_eq!(canvas.buffer().len(), 12);
    assert!(canvas.buffer().iter().all(|c| *c == Color(0)));
    assert!(canvas.markers().is_empty());
    assert_eq!(*canvas.current_view(), View { clip: Rect::new(0, 0, 4, 3), transform: None });
}

#[test]
fn empty_canvas_has_no_pixel() {
    let canvas = CanvasImpl::new(0, 0);
    assert_eq!(canvas.pixel(0, 0), None);
    assert_eq!(canvas.index(0, 0), None);
    let flat = CanvasImpl::new(5, 0);
    assert_eq!(flat.pixel(0, 0), None);
}

#[test]
fn index_is_row_major_and_bounds_checked() {
    let canvas = numbered(4, 3);
    assert_eq!(canvas.index(0, 0), Some(0));
    assert_eq!(canvas.index(3, 0), Some(3));
    assert_eq!(canvas.index(0, 1), Some(4));
    assert_eq!(canvas.index(3, 2), Some(11));
    assert_eq!(canvas.index(4, 0), None);
    assert_eq!(canvas.index(0, 3), None);
    assert_eq!(canvas.index(-1, 0), None);
    assert_eq!(canvas.index(0, -1), None);
    assert_eq!(canvas.index(i32::MAX, i32::MAX), None);
    assert_eq!(canvas.index(i32::MIN, i32::MIN), None);
}

#[test]
fn pixel_reads_what_the_buffer_holds() {
    let canvas = numbered(4, 3);
    assert_eq!(canvas.pixel(2, 1), Some(Color(0xFF00_0006)));
    assert_eq!(canvas.pixel(4, 1), None);
    assert_eq!(canvas.pixel(-1, 1), None);
    assert_eq!(canvas.pixel(2, 3), None);
}

#[test]
fn pixel_mut_writes_one_pixel_or_nothing() {
    let mut canvas = numbered(4, 3);
    let before: Vec<Color> = canvas.buffer().to_vec();
    *canvas.pixel_mut(2, 1).unwrap() = Color(WHITE);
    assert_eq!(canvas.pixel(2, 1), Some(Color(WHITE)));
    for (i, color) in canvas.buffer().iter().enumerate() {
        if i != 6 {
            assert_eq!(*color, before[i]);
        }
    }
    assert!(canvas.pixel_mut(4, 1).is_none());
    assert!(canvas.pixel_mut(2, -1).is_none());
    canvas.pixel_mut(9, 9).color(Color(RED));
    canvas.pixel_mut(0, 0).color(Color(RED));
    assert_eq!(canvas.pixel(0, 0), Some(Color(RED)));
    assert_eq!(canvas.buffer().iter().filter(|c| **c == Color(RED)).count(), 1);
}

#[test]
fn row_spans_need_both_ends_on_the_canvas() {
    let canvas = numbered(4, 3);
    let span = canvas.pixels(1..3, 2).unwrap();
    assert_eq!(span, &[Color(0xFF00_0009), Color(0xFF00_000A)]);
    assert_eq!(canvas.pixels(0..4, 0).unwrap().len(), 4);
    assert!(canvas.pixels(0..5, 0).is_none());
    assert!(canvas.pixels(-1..2, 0).is_none());
    assert!(canvas.pixels(0..4, 3).is_none());
    assert!(canvas.pixels(0..4, -1).is_none());
    assert_eq!(canvas.pixels(2..2, 1).unwrap().len(), 0);
    assert!(canvas.pixels(0..0, 1).is_none());
    assert!(canvas.pixels(5..1, 1).is_none());
    assert!(canvas.pixels(2..0, 1).is_none());
    assert!(canvas.pixels(2..i32::MIN, 1).is_none());
    assert!(canvas.pixels(3..1, 7).is_none());
}

#[test]
fn row_spans_write_whole_or_not_at_all() {
    let mut canvas = numbered(4, 3);
    let before: Vec<Color> = canvas.buffer().to_vec();
    canvas.pixels_mut(1..4, 1).color(Color(WHITE));
    for (i, color) in canvas.buffer().iter().enumerate() {
        if (5..8).contains(&i) {
            assert_eq!(*color, Color(WHITE));
        } else {
            assert_eq!(*color, before[i]);
        }
    }
    let after: Vec<Color> = canvas.buffer().to_vec();
    canvas.pixels_mut(1..5, 1).color(Color(RED));
    canvas.pixels_mut(-1..3, 1).color(Color(RED));
    canvas.pixels_mut(0..4, 3).color(Color(RED));
    assert_eq!(canvas.buffer(), &after[..]);
}

#[test]
fn buffer_mut_reaches_every_pixel() {
    let mut canvas = CanvasImpl::new(2, 2);
    canvas.buffer_mut()[3] = Color(GRAY);
    assert_eq!(canvas.pixel(1, 1), Some(Color(GRAY)));
}

#[test]
fn background_fills_the_clip_rectangle_only() {
    let mut canvas = numbered(6, 5);
    let before: Vec<Color> = canvas.buffer().to_vec();
    canvas.view_mut().clip = Rect::new(1, 2, 3, 2);
    canvas.background(Color(RED));
    for y in 0..5 {
        for x in 0..6 {
            let inside = (1..4).contains(&x) && (2..4).contains(&y);
            let expected = if inside { Color(RED) } else { before[(y * 6 + x) as usize] };
            assert_eq!(canvas.pixel(x, y), Some(expected));
        }
    }
}

#[test]
fn background_of_a_fresh_canvas_fills_everything() {
    let mut canvas = CanvasImpl::new(7, 3);
    canvas.background(Color(BLACK));
    assert!(canvas.buffer().iter().all(|c| *c == Color(BLACK)));
}

#[test]
fn background_clip_is_cut_to_the_canvas() {
    let mut canvas = numbered(4, 4);
    let before: Vec<Color> = canvas.buffer().to_vec();
    canvas.view_mut().clip = Rect::new(-2, 2, 4, 10);
    let mut command = Background.into_renderable(Color(WHITE));
    command.render_canvas(&mut canvas);
    for y in 0..4 {
        for x in 0..4 {
            let inside = x < 2 && y >= 2;
            let expected = if inside { Color(WHITE) } else { before[(y * 4 + x) as usize] };
            assert_eq!(canvas.pixel(x, y), Some(expected));
        }
    }
    canvas.view_mut().clip = Rect::new(10, 10, 5, 5);
    let filled: Vec<Color> = canvas.buffer().to_vec();
    canvas.background(Color(RED));
    assert_eq!(canvas.buffer(), &filled[..]);
    canvas.view_mut().clip = Rect::new(0, 0, -3, 4);
    canvas.background(Color(RED));
    assert_eq!(canvas.buffer(), &filled[..]);
}

#[test]
fn background_leaves_markers_queued() {
    let mut canvas = CanvasImpl::new(3, 3);
    canvas.marker(Line::new(0, 0, 2, 2), LineOptions::from(Color(RED)));
    canvas.background(Color(BLACK));
    assert_eq!(canvas.markers().len(), 1);
}

#[test]
fn markers_wait_until_they_are_replayed() {
    let mut canvas = CanvasImpl::new(5, 5);
    canvas.marker(Line::new(0, 0, 4, 0), LineOptions::from(Color(RED)));
    assert!(canvas.buffer().iter().all(|c| *c == Color(0)));
    canvas.line(0, 0, 4, 0, LineOptions::from(Color(WHITE)));
    assert_eq!(canvas.pixel(2, 0), Some(Color(WHITE)));
    assert_eq!(canvas.markers().len(), 1);
    canvas.render_markers();
    assert_eq!(canvas.pixel(2, 0), Some(Color(RED)));
    assert!(canvas.markers().is_empty());
}

#[test]
fn markers_replay_in_the_order_they_were_queued() {
    let mut canvas = CanvasImpl::new(5, 1);
    canvas.marker(Line::new(0, 0, 3, 0), LineOptions::from(Color(RED)));
    canvas.marker(Line::new(2, 0, 4, 0), LineOptions::from(Color(WHITE)));
    canvas.marker_dyn(Marker::Line(LineCommand {
        line: Line::new(4, 0, 4, 0),
        options: LineOptions::from(Color(GRAY)),
    }));
    assert_eq!(canvas.markers().len(), 3);
    canvas.render_markers();
    assert_eq!(
        canvas.buffer(),
        &[Color(RED), Color(RED), Color(WHITE), Color(WHITE), Color(GRAY)]
    );
}

#[test]
fn second_replay_changes_nothing() {
    let mut canvas = CanvasImpl::new(4, 4);
    canvas.marker(Line::new(0, 0, 3, 3), LineOptions::from(Color(RED)));
    canvas.marker(Background, Color(BLACK));
    canvas.marker(Line::new(0, 3, 3, 0), LineOptions::from(Color(WHITE)));
    canvas.render_markers();
    let once: Vec<Color> = canvas.buffer().to_vec();
    assert!(canvas.markers().is_empty());
    assert_eq!(once[0], Color(BLACK));
    assert_eq!(once[3], Color(WHITE));
    canvas.render_markers();
    assert_eq!(canvas.buffer(), &once[..]);
    assert!(canvas.markers().is_empty());
}

#[test]
fn active_transform_moves_what_is_drawn() {
    let mut canvas = CanvasImpl::new(10, 10);
    *canvas.view_mut().transform_mut() =
        Some(Transform2D::new(Vec2::new(1, 2), Vec2::new(2, 3)));
    canvas.line(0, 0, 3, 0, LineOptions::from(Color(WHITE)));
    for x in 0..10 {
        for y in 0..10 {
            let on = y == 2 && (1..=7).contains(&x);
            assert_eq!(canvas.pixel(x, y), Some(if on { Color(WHITE) } else { Color(0) }));
        }
    }
}

#[test]
fn active_transform_moves_what_is_queued() {
    let mut canvas = CanvasImpl::new(10, 10);
    *canvas.view_mut().transform_mut() =
        Some(Transform2D::new(Vec2::new(1, 2), Vec2::new(2, 3)));
    canvas.marker(Line::new(0, 0, 3, 1), LineOptions { color: Color(RED), pixel_size: Vec2::new(1, 1) });
    assert_eq!(
        canvas.markers()[0],
        Marker::Line(LineCommand {
            line: Line::new(1, 2, 7, 5),
            options: LineOptions { color: Color(RED), pixel_size: Vec2::new(2, 3) },
        })
    );
}

#[test]
fn draw_binds_moves_and_paints() {
    let mut canvas = CanvasImpl::new(4, 4);
    canvas.draw(Line::new(0, 1, 3, 1), LineOptions::from(Color(GRAY)));
    assert_eq!(canvas.pixels(0..4, 1).unwrap(), &[Color(GRAY); 4]);
    let mut command = Line::new(0, 2, 3, 2).into_renderable(LineOptions::from(Color(RED)));
    canvas.draw_dyn(&mut command);
    assert_eq!(canvas.pixels(0..4, 2).unwrap(), &[Color(RED); 4]);
    assert_eq!(command.line, Line::new(0, 2, 3, 2));
}

#[test]
fn decoded_bytes_become_packed_colors() {
    let bytes = [0x11, 0x22, 0x33, 0x44, 0xAA, 0xBB, 0xCC, 0xDD];
    let canvas = CanvasImpl::from_rgba8(2, 1, &bytes);
    assert_eq!(canvas.buffer(), &[Color(0x44_11_22_33), Color(0xDD_AA_BB_CC)]);
    assert_eq!(canvas.size(), (2, 1));
}

#[test]
fn encoded_bytes_drop_alpha() {
    let canvas = CanvasImpl::new_buffer(2, 1, vec![Color(0x44_11_22_33), Color(0xDD_AA_BB_CC)]);
    assert_eq!(canvas.to_rgb8(), vec![0x11, 0x22, 0x33, 0xAA, 0xBB, 0xCC]);
    assert_eq!(canvas.to_packed(), vec![0x44_11_22_33, 0xDD_AA_BB_CC]);
}

#[test]
fn background_command_keeps_its_color_and_ignores_transforms() {
    let mut command = BackgroundCommand(Color(RED));
    command.transform(&Transform2D::new(Vec2::new(5, 5), Vec2::new(9, 9)));
    assert_eq!(command, BackgroundCommand(Color(RED)));
}
