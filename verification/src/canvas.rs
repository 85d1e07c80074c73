//! The canvas: a row-major pixel buffer with bounds-checked access, a view
//! (clip rectangle and optional transform) and a queue of markers.

pub mod state;
pub mod draw_commands;
pub mod context;

pub use crate::canvas::state::CanvasState;

use vstd::prelude::*;
use vstd::view::View as _;
use crate::canvas::state::lemma_offset_coordinates;
use crate::color::Color;
use crate::math::shapes::rect::Rect;
use crate::math::transform::{Transform, Transform2D};
use crate::canvas::draw_commands::{Command, CloneCommand, DrawCommand};
use crate::canvas::draw_commands::line::{LineCommand, LineOptions};
use crate::canvas::draw_commands::circle::{CircleCommand, CircleOption};
use crate::canvas::draw_commands::background::{Background, BackgroundCommand, BackgroundOptions};
use crate::canvas::draw_commands::image::{ImageOption, markers_placed, markers_transformable, markers_transformed};
use crate::canvas::context::ContextImpl;
use crate::math::vector::Vec2;
use crate::math::shapes::line::Line;
use crate::math::shapes::circle::Circle;
use crate::canvas::draw_commands::marker::Marker;

verus! {

/// Where drawing lands on a canvas, and how it is moved first.
#[derive(Debug, Clone, Copy, PartialEq, Eq, Structural)]
pub struct View {
    /// The rectangle that a background fill covers.
    pub clip: Rect,
    /// The transform applied to every command before it is painted or
    /// queued, if any.
    pub transform: Option<Transform2D>,
}

impl View {
    /// A handle on the active transform; the clip rectangle is left as it
    /// is.
    pub fn transform_mut(&mut self) -> (t: &mut Option<Transform2D>)
        ensures
            *t == old(self).transform,
            *final(self) == (View { clip: old(self).clip, transform: *final(t) }),
    {
        &mut self.transform
    }
}

/// Whether the active transform of `view`, if there is one, can be
/// applied to `command`.
pub open spec fn view_admits<T: Transform>(view: View, command: &T) -> bool {
    view.transform matches Some(t) ==> command.transformable(&t)
}

/// Whether `placed` is `command` as `view` shows it: moved by the active
/// transform if there is one, and as it is otherwise.
pub open spec fn view_takes<T: Transform>(view: View, command: &T, placed: &T) -> bool {
    match view.transform {
        Some(t) => command.transforms_to(&t, placed),
        None => *placed == *command,
    }
}

/// The marker `marker` as `view` shows it.
pub open spec fn placed_marker(view: View, marker: Marker) -> Marker {
    match view.transform {
        Some(t) => marker.transformed(&t),
        None => marker,
    }
}

/// The canvas after the markers `markers` have painted onto `s`, the
/// first of them first.
pub open spec fn replayed(markers: Seq<Marker>, s: CanvasState) -> CanvasState
    decreases markers.len(),
{
    if markers.len() == 0 {
        s
    } else {
        replayed(markers.drop_first(), markers[0].rendered(s))
    }
}

/// A canvas that owns its pixels.
#[derive(Debug)]
pub struct CanvasImpl {
    buffer: Vec<Color>,
    width: usize,
    height: usize,
    view: View,
    markers: Vec<Marker>,
}

impl vstd::view::View for CanvasImpl {
    type V = CanvasState;

    closed spec fn view(&self) -> CanvasState {
        CanvasState {
            width: self.width as nat,
            height: self.height as nat,
            pixels: self.buffer@,
            view: self.view,
            markers: self.markers@,
        }
    }
}

impl CanvasImpl {
    /// The buffer holds one color per pixel, and both dimensions are
    /// representable as coordinates.
    pub open spec fn wf(&self) -> bool {
        self@.wf()
    }

    /// A canvas of the given size over a decoded image: `bytes` holds, for
    /// each pixel, row after row, its red, green, blue and alpha channel.
    pub fn from_rgba8(width: usize, height: usize, bytes: &[u8]) -> (c: CanvasImpl)
        requires
            width <= i32::MAX,
            height <= i32::MAX,
            bytes@.len() == 4 * (width * height),
        ensures
            c.wf(),
            c@.width == width,
            c@.height == height,
            c@.markers == Seq::<Marker>::empty(),
            c@.view == (View { clip: c@.full_clip(), transform: None }),
            forall|i: int|
                0 <= i < width * height ==> {
                    &&& (#[trigger] c@.pixels[i]).red() == bytes@[4 * i]
                    &&& c@.pixels[i].green() == bytes@[4 * i + 1]
                    &&& c@.pixels[i].blue() == bytes@[4 * i + 2]
                    &&& c@.pixels[i].alpha() == bytes@[4 * i + 3]
                },
    {
        let count = bytes.len() / 4;
        let mut buffer: Vec<Color> = Vec::new();
        let mut i: usize = 0;
        while i < count
            invariant
                i <= count,
                count == width * height,
                bytes@.len() == 4 * count,
                4 * count <= usize::MAX,
                buffer@.len() == i,
                forall|k: int|
                    0 <= k < i ==> {
                        &&& (#[trigger] buffer@[k]).red() == bytes@[4 * k]
                        &&& buffer@[k].green() == bytes@[4 * k + 1]
                        &&& buffer@[k].blue() == bytes@[4 * k + 2]
                        &&& buffer@[k].alpha() == bytes@[4 * k + 3]
                    },
            decreases count - i,
        {
            let color = Color::from_argb(
                bytes[4 * i + 3],
                bytes[4 * i],
                bytes[4 * i + 1],
                bytes[4 * i + 2],
            );
            buffer.push(color);
            i += 1;
        }
        CanvasImpl::new_buffer(width, height, buffer)
    }

    /// The pixels for an image encoder: for each pixel, row after row, its
    /// red, green and blue channel. The alpha channel is dropped.
    pub fn to_rgb8(&self) -> (bytes: Vec<u8>)
        ensures
            bytes@.len() == 3 * self@.pixels.len(),
            forall|i: int|
                0 <= i < self@.pixels.len() ==> {
                    &&& bytes@[3 * i] == (#[trigger] self@.pixels[i]).red()
                    &&& bytes@[3 * i + 1] == self@.pixels[i].green()
                    &&& bytes@[3 * i + 2] == self@.pixels[i].blue()
                },
    {
        let mut bytes: Vec<u8> = Vec::new();
        let mut i: usize = 0;
        while i < self.buffer.len()
            invariant
                i <= self.buffer.len(),
                bytes@.len() == 3 * i,
                forall|k: int|
                    0 <= k < i ==> {
                        &&& bytes@[3 * k] == (#[trigger] self.buffer@[k]).red()
                        &&& bytes@[3 * k + 1] == self.buffer@[k].green()
                        &&& bytes@[3 * k + 2] == self.buffer@[k].blue()
                    },
            decreases self.buffer.len() - i,
        {
            let color = self.buffer[i];
            bytes.push(color.r());
            bytes.push(color.g());
            bytes.push(color.b());
            i += 1;
        }
        bytes
    }

    /// The pixels for a window: the packed value of each, row after row.
    pub fn to_packed(&self) -> (packed: Vec<u32>)
        ensures
            packed@.len() == self@.pixels.len(),
            forall|i: int| 0 <= i < self@.pixels.len() ==> packed@[i] == (#[trigger] self@.pixels[i]).0,
    {
        let mut packed: Vec<u32> = Vec::new();
        let mut i: usize = 0;
        while i < self.buffer.len()
            invariant
                i <= self.buffer.len(),
                packed@.len() == i,
                forall|k: int| 0 <= k < i ==> packed@[k] == (#[trigger] self.buffer@[k]).0,
            decreases self.buffer.len() - i,
        {
            packed.push(self.buffer[i].as_u32());
            i += 1;
        }
        packed
    }

    /// The view: the clip rectangle and the active transform.
    pub fn current_view(&self) -> (r: &View)
        ensures
            *r == self@.view,
    {
        &self.view
    }

    /// A canvas of the given size with every pixel fully transparent, no
    /// markers, no transform, and the whole canvas as its clip rectangle.
    pub fn new(width: usize, height: usize) -> (c: CanvasImpl)
        requires
            width <= i32::MAX,
            height <= i32::MAX,
            width * height <= usize::MAX,
        ensures
            c.wf(),
            c@.width == width,
            c@.height == height,
            c@.pixels == Seq::new((width * height) as nat, |i: int| Color(0)),
            c@.markers == Seq::<Marker>::empty(),
            c@.view == (View { clip: c@.full_clip(), transform: None }),
    {
        let buffer = vec![Color(0); width * height];
        assert(buffer@ =~= Seq::new((width * height) as nat, |i: int| Color(0)));
        CanvasImpl::new_buffer(width, height, buffer)
    }

    /// A canvas of the given size over the given pixels, row after row.
    pub fn new_buffer(width: usize, height: usize, buffer: Vec<Color>) -> (c: CanvasImpl)
        requires
            width <= i32::MAX,
            height <= i32::MAX,
            buffer@.len() == width * height,
        ensures
            c.wf(),
            c@.width == width,
            c@.height == height,
            c@.pixels == buffer@,
            c@.markers == Seq::<Marker>::empty(),
            c@.view == (View { clip: c@.full_clip(), transform: None }),
    {
        let clip = Rect::new(0, 0, width as i32, height as i32);
        CanvasImpl { buffer, width, height, view: View { clip, transform: None }, markers: Vec::new() }
    }
}

/// Setting the color of what a pixel access handed out. An access that
/// handed out nothing is left alone.
pub trait Coloring: Sized {
    /// Writes `color` to every pixel that `self` refers to.
    fn color(self, color: Color);
}

impl<'a> Coloring for Option<&'a mut Color> {
    fn color(self, color: Color)
        ensures
            self matches Some(pixel) ==> *final(pixel) == color,
    {
        if let Some(pixel) = self {
            *pixel = color;
        }
    }
}

impl<'a> Coloring for Option<&'a mut [Color]> {
    fn color(self, color: Color)
        ensures
            self matches Some(pixels) ==> final(pixels)@ == Seq::new(
                pixels@.len(),
                |i: int| color,
            ),
    {
        if let Some(pixels) = self {
            let n = pixels.len();
            let mut i: usize = 0;
            while i < n
                invariant
                    i <= n,
                    pixels@.len() == n,
                    forall|k: int| 0 <= k < i ==> pixels@[k] == color,
                decreases n - i,
            {
                pixels[i] = color;
                i += 1;
            }
            assert(pixels@ =~= Seq::new(n as nat, |i: int| color));
        }
    }
}

/// Bounds-checked access to the pixels of a canvas, and its marker queue.
pub trait Canvas: vstd::view::View<V = CanvasState> {
    /// Width and height, in pixels.
    fn size(&self) -> (r: (usize, usize))
        ensures
            r.0 == self@.width,
            r.1 == self@.height,
    ;

    /// Width and height as coordinates.
    fn size_i32(&self) -> (r: (i32, i32))
        requires
            self@.wf(),
        ensures
            r.0 == self@.width,
            r.1 == self@.height,
    ;

    /// The buffer place of the pixel `(x, y)`, or nothing outside the
    /// canvas.
    fn index(&self, x: i32, y: i32) -> (r: Option<usize>)
        requires
            self@.wf(),
        ensures
            r == (if self@.in_bounds(x as int, y as int) {
                Some(self@.offset(x as int, y as int) as usize)
            } else {
                None
            }),
            r matches Some(i) ==> i < self@.pixels.len() && i == self@.offset(
                x as int,
                y as int,
            ),
    ;

    /// The whole buffer, row after row.
    fn buffer(&self) -> (r: &[Color])
        ensures
            r@ == self@.pixels,
    ;

    /// The whole buffer for writing. The canvas afterwards holds what the
    /// slice holds when the caller lets go of it.
    fn buffer_mut(&mut self) -> (r: &mut [Color])
        ensures
            r@ == old(self)@.pixels,
            final(self)@ == old(self)@.with_pixels(final(r)@),
    ;

    /// The pixels of row `y` from column `x.start` up to, not including,
    /// `x.end`; nothing unless both the first and the last of these columns
    /// lie on the canvas. A range that ends before it starts is in order
    /// only where one of the two lies off the canvas.
    fn pixels(&self, x: core::ops::Range<i32>, y: i32) -> (r: Option<&[Color]>)
        requires
            self@.wf(),
            x.start <= x.end || !self@.in_bounds(x.start as int, y as int) || !self@.in_bounds(
                x.end - 1,
                y as int,
            ),
        ensures
            r is Some <==> self@.in_bounds(x.start as int, y as int)
                && self@.in_bounds(x.end - 1, y as int),
            r matches Some(span) ==> span@ == self@.pixels.subrange(
                self@.offset(x.start as int, y as int),
                self@.offset(x.end as int, y as int),
            ),
    ;

    /// The same pixels for writing. The canvas afterwards holds, in their
    /// place, what the slice holds when the caller lets go of it.
    fn pixels_mut(&mut self, x: core::ops::Range<i32>, y: i32) -> (r: Option<&mut [Color]>)
        requires
            old(self)@.wf(),
            x.start <= x.end || !old(self)@.in_bounds(x.start as int, y as int) || !old(
                self,
            )@.in_bounds(x.end - 1, y as int),
        ensures
            r is Some <==> old(self)@.in_bounds(x.start as int, y as int)
                && old(self)@.in_bounds(x.end - 1, y as int),
            r matches Some(span) ==> span@ == old(self)@.pixels.subrange(
                old(self)@.offset(x.start as int, y as int),
                old(self)@.offset(x.end as int, y as int),
            ) && final(self)@ == old(self)@.with_span(
                old(self)@.offset(x.start as int, y as int),
                old(self)@.offset(x.end as int, y as int),
                final(span)@,
            ),
            r is None ==> final(self)@ == old(self)@,
    ;

    /// The color at `(x, y)`, or nothing outside the canvas.
    fn pixel(&self, x: i32, y: i32) -> (r: Option<Color>)
        requires
            self@.wf(),
        ensures
            r == self@.pixel(x as int, y as int),
    ;

    /// The pixel at `(x, y)` for writing, or nothing outside the canvas.
    fn pixel_mut(&mut self, x: i32, y: i32) -> (r: Option<&mut Color>)
        requires
            old(self)@.wf(),
        ensures
            r is Some <==> old(self)@.in_bounds(x as int, y as int),
            r matches Some(p) ==> Some(*p) == old(self)@.pixel(x as int, y as int)
                && final(self)@ == old(self)@.with_color_at(
                old(self)@.offset(x as int, y as int),
                *final(p),
            ),
            r is None ==> final(self)@ == old(self)@,
    ;

    /// The queued markers, oldest first.
    fn markers(&self) -> (r: &Vec<Marker>)
        ensures
            r@ == self@.markers,
    ;

    /// The marker queue for writing.
    fn markers_mut(&mut self) -> (r: &mut Vec<Marker>)
        ensures
            r@ == old(self)@.markers,
            final(self)@ == old(self)@.with_markers(final(r)@),
    ;

    /// Moves `command` by the active transform of the view, if there is
    /// one, and paints it.
    fn draw_dyn<T: Command>(&mut self, command: &mut T)
        requires
            old(self)@.wf(),
            view_admits(old(self)@.view, old(command)),
            forall|placed: T| #[trigger]
                view_takes(old(self)@.view, old(command), &placed) ==> placed.renderable(),
        ensures
            final(self)@.wf(),
            exists|placed: T| #[trigger]
                view_takes(old(self)@.view, old(command), &placed) && final(self)@
                    == placed.rendered(old(self)@),
    ;

    /// Moves `marker` by the active transform of the view, if there is
    /// one, and puts it at the end of the marker queue. Nothing is painted.
    fn marker_dyn(&mut self, marker: Marker)
        requires
            view_admits(old(self)@.view, &marker),
        ensures
            final(self)@ == old(self)@.with_markers(
                old(self)@.markers.push(placed_marker(old(self)@.view, marker)),
            ),
    ;

    /// Lends the canvas out for drawing through a view of its own: its
    /// clip rectangle is the whole canvas, and it has no transform.
    fn get_context(&mut self) -> (context: ContextImpl<'_>)
        requires
            old(self)@.wf(),
        ensures
            context@ == old(self)@.with_view(
                View { clip: old(self)@.full_clip(), transform: None },
            ),
            final(self)@.with_view(old(self)@.view) == final(context.canvas)@.with_view(
                old(self)@.view,
            ),
    ;

    /// Paints the queued markers in the order in which they were queued,
    /// and leaves the queue empty.
    fn render_markers(&mut self)
        requires
            old(self)@.wf(),
        ensures
            final(self)@.wf(),
            final(self)@ == replayed(
                old(self)@.markers,
                old(self)@.with_markers(Seq::<Marker>::empty()),
            ),
            final(self)@.markers == Seq::<Marker>::empty(),
    ;
}

/// Something that can show itself on a canvas, any number of times.
pub trait Render {
    /// Whether `self` can be shown on the canvas `before`.
    spec fn showable(&self, before: CanvasState) -> bool;

    /// The canvas that showing `self` on `before` gives.
    spec fn shown(&self, before: CanvasState) -> CanvasState;

    /// Shows `self` on `canvas`, as the view of the canvas says.
    fn render_context(&self, canvas: &mut CanvasImpl)
        requires
            old(canvas).wf(),
            self.showable(old(canvas)@),
        ensures
            final(canvas).wf(),
            final(canvas)@ == self.shown(old(canvas)@),
    ;
}

impl Render for Marker {
    open spec fn showable(&self, before: CanvasState) -> bool {
        view_admits(before.view, self)
    }

    open spec fn shown(&self, before: CanvasState) -> CanvasState {
        placed_marker(before.view, *self).rendered(before)
    }

    /// A copy of the marker is moved by the active transform and painted;
    /// the marker itself stays as it is.
    fn render_context(&self, canvas: &mut CanvasImpl) {
        let mut copy = *self;
        canvas.draw_dyn(&mut copy);
    }
}

/// Drawing shapes on a canvas, at once or as markers.
pub trait CanvasGeneric: Canvas {
    /// Binds `shape` to `options`, moves the command by the active
    /// transform of the view, if there is one, and paints it.
    fn draw<T: DrawCommand>(&mut self, shape: T, options: T::Options)
        requires
            old(self)@.wf(),
            shape.drawable(&options),
            forall|command: T::Command| #[trigger]
                shape.builds(&options, &command) ==> view_admits(old(self)@.view, &command),
            forall|command: T::Command, placed: T::Command|
                shape.builds(&options, &command) && #[trigger] view_takes(
                    old(self)@.view,
                    &command,
                    &placed,
                ) ==> placed.renderable(),
        ensures
            final(self)@.wf(),
            exists|command: T::Command, placed: T::Command|
                shape.builds(&options, &command) && #[trigger] view_takes(
                    old(self)@.view,
                    &command,
                    &placed,
                ) && final(self)@ == placed.rendered(old(self)@),
    ;

    /// Binds `shape` to `options`, moves the command by the active
    /// transform of the view, if there is one, and queues it as a marker.
    /// Nothing is painted.
    fn marker<T: DrawCommand>(&mut self, shape: T, options: T::Options) where
        T::Command: CloneCommand,

        requires
            shape.drawable(&options),
            forall|command: T::Command| #[trigger]
                shape.builds(&options, &command) ==> view_admits(old(self)@.view, &command),
        ensures
            exists|command: T::Command| #[trigger]
                shape.builds(&options, &command) && final(self)@ == old(self)@.with_markers(
                    old(self)@.markers.push(placed_marker(old(self)@.view, command.as_marker())),
                ),
    ;

    /// Fills the clip rectangle with `color`.
    fn background(&mut self, color: BackgroundOptions)
        requires
            old(self)@.wf(),
        ensures
            final(self)@.wf(),
            final(self)@ == BackgroundCommand(color).rendered(old(self)@),
    ;

    /// Draws the line from `(x1, y1)` to `(x2, y2)`, as the view shows it.
    fn line(&mut self, x1: i32, y1: i32, x2: i32, y2: i32, options: LineOptions)
        requires
            old(self)@.wf(),
            view_admits(old(self)@.view, &LineCommand { line: Line { start: Vec2 { x: x1, y: y1 }, end: Vec2 { x: x2, y: y2 } }, options }),
        ensures
            final(self)@.wf(),
            final(self)@ == (LineCommand {
                line: Line { start: Vec2 { x: x1, y: y1 }, end: Vec2 { x: x2, y: y2 } },
                options,
            }).placed(old(self)@.view).rendered(old(self)@),
    ;

    /// Draws the canvas `image` with its top left pixel at `(x, y)`, each
    /// of its pixels enlarged `scale` times in both directions, as the view
    /// shows it. Copies of the markers of `image`, moved with it, join the
    /// marker queue.
    fn image(&mut self, image: &CanvasImpl, x: i32, y: i32, scale: i32)
        requires
            old(self)@.wf(),
            image.wf(),
            ({
                let options = ImageOption {
                    destination: Vec2 { x, y },
                    scaling: Vec2 { x: scale, y: scale },
                };
                let view = old(self)@.view;
                &&& markers_transformable(image@.markers, options.placement())
                &&& options.placeable(view)
                &&& view.transform matches Some(t) ==> markers_transformable(
                    markers_transformed(image@.markers, options.placement()),
                    t,
                )
                &&& options.placed(view).scaling.x >= 1
                &&& options.placed(view).scaling.y >= 1
            }),
        ensures
            final(self)@.wf(),
            ({
                let options = ImageOption {
                    destination: Vec2 { x, y },
                    scaling: Vec2 { x: scale, y: scale },
                };
                let view = old(self)@.view;
                final(self)@ == old(self)@.with_pixels(
                    options.placed(view).blitted(image@, old(self)@),
                ).with_markers(
                    old(self)@.markers + markers_placed(
                        markers_transformed(image@.markers, options.placement()),
                        view,
                    ),
                )
            }),
    ;

    /// Draws the circle around `(x, y)`, as the view shows it.
    fn circle(&mut self, x: i32, y: i32, radius: i32, options: CircleOption)
        requires
            old(self)@.wf(),
            view_admits(old(self)@.view, &CircleCommand { circle: Circle { center: Vec2 { x, y }, radius }, options }),
        ensures
            final(self)@.wf(),
            final(self)@ == (CircleCommand {
                circle: Circle { center: Vec2 { x, y }, radius },
                options,
            }).placed(old(self)@.view).rendered(old(self)@),
    ;
}

impl CanvasGeneric for CanvasImpl {
    fn draw<T: DrawCommand>(&mut self, shape: T, options: T::Options) {
        let mut command = shape.into_renderable(options);
        self.draw_dyn(&mut command);
    }

    fn marker<T: DrawCommand>(&mut self, shape: T, options: T::Options) where
        T::Command: CloneCommand,
     {
        let command = shape.into_renderable(options);
        let marker = command.box_clone();
        proof {
            if let Some(t) = self@.view.transform {
                command.lemma_marker_transformable(&t);
            }
        }
        self.marker_dyn(marker);
    }

    fn background(&mut self, color: BackgroundOptions) {
        let mut command = Background.into_renderable(color);
        self.draw_dyn(&mut command);
    }

    fn line(&mut self, x1: i32, y1: i32, x2: i32, y2: i32, options: LineOptions) {
        let mut command = Line::new(x1, y1, x2, y2).into_renderable(options);
        self.draw_dyn(&mut command);
    }

    fn image(&mut self, image: &CanvasImpl, x: i32, y: i32, scale: i32) {
        let options = ImageOption::from(Vec2::new(x, y)).scaling(scale);
        let mut command = image.into_renderable(options);
        self.draw_dyn(&mut command);
    }

    fn circle(&mut self, x: i32, y: i32, radius: i32, options: CircleOption) {
        let mut command = Circle::new(x, y, radius).into_renderable(options);
        self.draw_dyn(&mut command);
    }
}

/// Painting a marker leaves the size, the view and the queue of a canvas
/// as they were.
pub proof fn lemma_marker_keeps_frame(marker: Marker, s: CanvasState)
    requires
        s.wf(),
    ensures
        marker.rendered(s).wf(),
        marker.rendered(s).width == s.width,
        marker.rendered(s).height == s.height,
        marker.rendered(s).view == s.view,
        marker.rendered(s).markers == s.markers,
{
}

/// Replaying markers leaves the size, the view and the queue of a canvas
/// as they were.
pub proof fn lemma_replay_keeps_frame(markers: Seq<Marker>, s: CanvasState)
    requires
        s.wf(),
    ensures
        replayed(markers, s).wf(),
        replayed(markers, s).width == s.width,
        replayed(markers, s).height == s.height,
        replayed(markers, s).view == s.view,
        replayed(markers, s).markers == s.markers,
    decreases markers.len(),
{
    if markers.len() > 0 {
        lemma_marker_keeps_frame(markers[0], s);
        lemma_replay_keeps_frame(markers.drop_first(), markers[0].rendered(s));
    }
}

/// Replaying the markers of a canvas a second time, with none queued in
/// between, changes nothing: the first replay has emptied the queue.
pub proof fn lemma_replay_twice(s: CanvasState)
    requires
        s.wf(),
    ensures
        ({
            let once = replayed(s.markers, s.with_markers(Seq::<Marker>::empty()));
            let twice = replayed(once.markers, once.with_markers(Seq::<Marker>::empty()));
            once.markers == Seq::<Marker>::empty() && twice == once
        }),
{
    let none = Seq::<Marker>::empty();
    lemma_replay_keeps_frame(s.markers, s.with_markers(none));
    let once = replayed(s.markers, s.with_markers(none));
    assert(once.with_markers(none) == once);
}

/// A canvas with a view that drawing goes through.
pub trait Context: Canvas {
    /// The view for writing: the clip rectangle and the active transform.
    fn view_mut(&mut self) -> (r: &mut View)
        ensures
            *r == old(self)@.view,
            final(self)@ == old(self)@.with_view(*final(r)),
    ;
}

/// A context that shapes can be drawn on.
pub trait ContextGeneric: Context {
}

impl ContextGeneric for CanvasImpl {
}

impl<'a> ContextGeneric for ContextImpl<'a> {
}

impl Context for CanvasImpl {
    fn view_mut(&mut self) -> (r: &mut View) {
        &mut self.view
    }
}

impl Canvas for CanvasImpl {
    fn size(&self) -> (r: (usize, usize)) {
        (self.width, self.height)
    }

    fn size_i32(&self) -> (r: (i32, i32)) {
        (self.width as i32, self.height as i32)
    }

    fn index(&self, x: i32, y: i32) -> (r: Option<usize>) {
        if x < 0 || y < 0 {
            return None;
        }
        let (column, row) = (x as usize, y as usize);
        if column >= self.width || row >= self.height {
            return None;
        }
        let length = self.buffer.len();
        proof {
            lemma_offset_coordinates(self@, x as int, y as int);
            assert(self@.offset(x as int, y as int) == row * self.width + column);
            assert(row * self.width + column < length);
        }
        Some(row * self.width + column)
    }

    fn buffer(&self) -> (r: &[Color]) {
        self.buffer.as_slice()
    }

    fn buffer_mut(&mut self) -> (r: &mut [Color]) {
        self.buffer.as_mut_slice()
    }

    fn pixels(&self, x: core::ops::Range<i32>, y: i32) -> (r: Option<&[Color]>) {
        let first = match self.index(x.start, y) {
            Some(i) => i,
            None => {
                return None;
            },
        };
        if x.end == i32::MIN {
            return None;
        }
        let last = match self.index(x.end - 1, y) {
            Some(i) => i,
            None => {
                return None;
            },
        };
        let length = self.buffer.len();
        assert(last < length);
        Some(vstd::slice::slice_subrange(self.buffer.as_slice(), first, last + 1))
    }

    fn pixels_mut(&mut self, x: core::ops::Range<i32>, y: i32) -> (r: Option<&mut [Color]>) {
        let first = match self.index(x.start, y) {
            Some(i) => i,
            None => {
                return None;
            },
        };
        if x.end == i32::MIN {
            return None;
        }
        let last = match self.index(x.end - 1, y) {
            Some(i) => i,
            None => {
                return None;
            },
        };
        let length = self.buffer.len();
        assert(first <= last + 1 <= length);
        let ghost before = self.buffer@;
        assert(self@.offset(x.end as int, y as int) == last + 1);
        let (head, rest) = self.buffer.as_mut_slice().split_at_mut(first);
        let (span, tail) = rest.split_at_mut(last + 1 - first);
        assert(span@ =~= before.subrange(first as int, last + 1));
        assert(tail@ =~= before.subrange(last + 1, before.len() as int));
        assert(head@ =~= before.subrange(0, first as int));
        Some(span)
    }

    fn pixel(&self, x: i32, y: i32) -> (r: Option<Color>) {
        match self.index(x, y) {
            Some(i) => Some(self.buffer[i]),
            None => None,
        }
    }

    fn pixel_mut(&mut self, x: i32, y: i32) -> (r: Option<&mut Color>) {
        match self.index(x, y) {
            Some(i) => Some(&mut self.buffer[i]),
            None => None,
        }
    }

    fn markers(&self) -> (r: &Vec<Marker>) {
        &self.markers
    }

    fn markers_mut(&mut self) -> (r: &mut Vec<Marker>) {
        &mut self.markers
    }

    fn draw_dyn<T: Command>(&mut self, command: &mut T) {
        match self.view.transform {
            Some(transform) => {
                command.transform(&transform);
            },
            None => {},
        }
        let ghost placed = *command;
        assert(view_takes(old(self)@.view, old(command), &placed));
        command.render_canvas(self);
    }

    fn marker_dyn(&mut self, marker: Marker) {
        let mut marker = marker;
        match self.view.transform {
            Some(transform) => {
                marker.transform(&transform);
            },
            None => {},
        }
        self.markers.push(marker);
    }

    fn get_context(&mut self) -> (context: ContextImpl<'_>)
        ensures
            *context.canvas == *old(self),
            *final(context.canvas) == *final(self),
    {
        ContextImpl::new_canvas(self)
    }

    fn render_markers(&mut self) {
        let mut markers: Vec<Marker> = Vec::new();
        core::mem::swap(&mut markers, &mut self.markers);
        let ghost start = self@;
        assert(start == old(self)@.with_markers(Seq::<Marker>::empty()));
        assert(markers@.subrange(0, markers@.len() as int) =~= markers@);

        let mut k: usize = 0;
        while k < markers.len()
            invariant
                k <= markers.len(),
                self.wf(),
                replayed(markers@.subrange(k as int, markers@.len() as int), self@) == replayed(
                    markers@,
                    start,
                ),
                self@.markers == Seq::<Marker>::empty(),
            decreases markers.len() - k,
        {
            let mut marker = markers[k];
            proof {
                let rest = markers@.subrange(k as int, markers@.len() as int);
                assert(rest.drop_first() =~= markers@.subrange(k + 1, markers@.len() as int));
                lemma_marker_keeps_frame(marker, self@);
            }
            marker.render_canvas(self);
            k += 1;
        }
        self.markers.clear();
        assert(self@.with_markers(Seq::<Marker>::empty()) == self@);
    }
}

} // verus!
