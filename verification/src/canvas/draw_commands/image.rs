//! Drawing one canvas onto another, enlarged by whole factors.

use vstd::prelude::*;
use vstd::view::View as _;
use crate::color::Color;
use crate::canvas::{Canvas, CanvasImpl, CanvasState};
use crate::canvas::draw_commands::{Command, DrawCommand, plot, fill_block, point_region, block_region};
use crate::canvas::draw_commands::marker::Marker;
use crate::math::vector::{Vec2, fits_i32};
use crate::math::numeric::One;
use crate::math::transform::{Transform, Transform2D};

verus! {

/// How a canvas is drawn onto another: where its top left pixel goes, and
/// by which whole factor each axis is enlarged.
#[derive(Debug, Clone, Copy, PartialEq, Eq, Structural)]
pub struct ImageOption {
    pub destination: Vec2,
    pub scaling: Vec2,
}

/// A canvas to be drawn onto another, with its options and with its
/// markers, already moved to where the image goes.
#[derive(Debug)]
pub struct ImageCommand<'a> {
    pub image: &'a CanvasImpl,
    pub options: ImageOption,
    pub markers: Vec<Marker>,
}

/// The cell of a grid that the coordinate `v` falls into, where the grid
/// starts at `origin` and its cells are `scale` wide.
pub open spec fn cell(v: int, origin: int, scale: int) -> int {
    (v - origin) / scale
}

/// The markers `markers`, each moved by `t`.
pub open spec fn markers_transformed(markers: Seq<Marker>, t: Transform2D) -> Seq<Marker> {
    Seq::new(markers.len(), |k: int| markers[k].transformed(&t))
}

/// The markers `markers` as `view` shows them.
pub open spec fn markers_placed(markers: Seq<Marker>, view: crate::canvas::View) -> Seq<Marker> {
    match view.transform {
        Some(t) => markers_transformed(markers, t),
        None => markers,
    }
}

/// Whether every one of `markers` can be moved by `t`.
pub open spec fn markers_transformable(markers: Seq<Marker>, t: Transform2D) -> bool {
    forall|k: int| 0 <= k < markers.len() ==> (#[trigger] markers[k]).transformable(&t)
}

impl ImageOption {
    /// The transform that takes a point of the image to where it is drawn.
    pub open spec fn placement(self) -> Transform2D {
        Transform2D { scaling: self.scaling, translation: self.destination }
    }

    /// The options as `view` shows them: with an active transform the
    /// destination is moved by it and the factors are multiplied by its
    /// scaling.
    pub open spec fn placed(self, view: crate::canvas::View) -> ImageOption {
        match view.transform {
            Some(t) => ImageOption {
                destination: self.destination.transformed(&t),
                scaling: Vec2 {
                    x: (self.scaling.x * t.scaling.x) as i32,
                    y: (self.scaling.y * t.scaling.y) as i32,
                },
            },
            None => self,
        }
    }

    /// Whether the active transform of `view`, if there is one, can be
    /// applied to the options.
    pub open spec fn placeable(self, view: crate::canvas::View) -> bool {
        view.transform matches Some(t) ==> {
            &&& self.destination.transformable(&t)
            &&& fits_i32(self.scaling.x * t.scaling.x)
            &&& fits_i32(self.scaling.y * t.scaling.y)
        }
    }

    /// The image pixel that is enlarged over the target pixel `(x, y)`.
    pub open spec fn source_of(self, x: int, y: int) -> (int, int) {
        (
            cell(x, self.destination.x as int, self.scaling.x as int),
            cell(y, self.destination.y as int, self.scaling.y as int),
        )
    }

    /// Whether the target pixel `(x, y)` takes its color from the image:
    /// the image has a pixel for it that is not fully transparent, and the
    /// row of the enlarged pixel, which is written as one span, starts and
    /// ends on the target.
    pub open spec fn shows(self, source: CanvasState, target: CanvasState, x: int, y: int) -> bool {
        let (i, j) = self.source_of(x, y);
        let first = self.destination.x + i * self.scaling.x;
        &&& source.in_bounds(i, j)
        &&& source.pixels[source.offset(i, j)].alpha() != 0
        &&& target.in_bounds(first, y)
        &&& target.in_bounds(first + self.scaling.x - 1, y)
    }

    /// The color of the image pixel enlarged over `(x, y)`.
    pub open spec fn shown(self, source: CanvasState, x: int, y: int) -> Color {
        let (i, j) = self.source_of(x, y);
        source.pixels[source.offset(i, j)]
    }

    /// The pixels of `target` once the image pixels before `(columns,
    /// rows)` have been drawn onto it. The image is drawn column by
    /// column: a pixel comes before another where its column lies further
    /// left, or the column is the same and its row lies higher.
    pub open spec fn blitted_first(
        self,
        source: CanvasState,
        target: CanvasState,
        columns: int,
        rows: int,
    ) -> Seq<Color> {
        Seq::new(
            target.pixels.len(),
            |k: int|
                {
                    let x = k % (target.width as int);
                    let y = k / (target.width as int);
                    let (i, j) = self.source_of(x, y);
                    if self.shows(source, target, x, y) && (i < columns || (i == columns && j
                        < rows)) {
                        self.shown(source, x, y)
                    } else {
                        target.pixels[k]
                    }
                },
        )
    }

    /// The pixels of `target` once the whole image has been drawn onto it.
    pub open spec fn blitted(self, source: CanvasState, target: CanvasState) -> Seq<Color> {
        Seq::new(
            target.pixels.len(),
            |k: int|
                {
                    let x = k % (target.width as int);
                    let y = k / (target.width as int);
                    if self.shows(source, target, x, y) {
                        self.shown(source, x, y)
                    } else {
                        target.pixels[k]
                    }
                },
        )
    }

    /// The same destination, with `scale` as the factor of both axes.
    pub fn scaling(self, scale: i32) -> (r: ImageOption)
        ensures
            r == (ImageOption { destination: self.destination, scaling: Vec2 { x: scale, y: scale } }),
    {
        ImageOption { destination: self.destination, scaling: Vec2::new(scale, scale) }
    }
}

impl From<Vec2> for ImageOption {
    /// The image goes to `destination`, not enlarged.
    fn from(destination: Vec2) -> (r: ImageOption) {
        ImageOption { destination, scaling: Vec2 { x: 1, y: 1 } }
    }
}

impl vstd::std_specs::convert::FromSpecImpl<Vec2> for ImageOption {
    open spec fn obeys_from_spec() -> bool {
        true
    }

    open spec fn from_spec(destination: Vec2) -> ImageOption {
        ImageOption { destination, scaling: Vec2 { x: 1, y: 1 } }
    }
}

/// A coordinate lies in the cell `i` exactly where it lies between the
/// start of that cell and the start of the next.
pub proof fn lemma_cell(v: int, origin: int, scale: int, i: int)
    requires
        scale > 0,
    ensures
        cell(v, origin, scale) == i <==> origin + i * scale <= v < origin + i * scale + scale,
{
    vstd::arithmetic::div_mod::lemma_fundamental_div_mod(v - origin, scale);
    vstd::arithmetic::div_mod::lemma_mod_bound(v - origin, scale);
    let q = (v - origin) / scale;
    assert(scale * q == q * scale) by (nonlinear_arith);
    if origin + i * scale <= v < origin + i * scale + scale {
        vstd::arithmetic::div_mod::lemma_fundamental_div_mod_converse(
            v - origin,
            scale,
            i,
            v - origin - i * scale,
        );
    }
}

impl<'a> Transform for ImageCommand<'a> {
    open spec fn transformable(&self, t: &Transform2D) -> bool {
        &&& self.options.destination.transformable(t)
        &&& fits_i32(self.options.scaling.x * t.scaling.x)
        &&& fits_i32(self.options.scaling.y * t.scaling.y)
        &&& markers_transformable(self.markers@, *t)
    }

    open spec fn transforms_to(&self, t: &Transform2D, image: &ImageCommand<'a>) -> bool {
        &&& image.image == self.image
        &&& image.options == (ImageOption {
            destination: self.options.destination.transformed(t),
            scaling: Vec2 {
                x: (self.options.scaling.x * t.scaling.x) as i32,
                y: (self.options.scaling.y * t.scaling.y) as i32,
            },
        })
        &&& image.markers@ == markers_transformed(self.markers@, *t)
    }

    /// The destination is moved by the whole transform, the factors by its
    /// scaling alone, and each marker as its kind says.
    fn transform(&mut self, transform: &Transform2D) {
        let moved = moved_markers(&self.markers, transform);
        self.markers = moved;
        self.options.destination.transform(transform);
        self.options.scaling.transform(&transform.scaling_part());
    }
}

/// Drawing one more pixel of the image: where it is not fully transparent
/// it covers its block of the target, and otherwise nothing changes.
proof fn lemma_blit_one(
    options: ImageOption,
    source: CanvasState,
    target: CanvasState,
    i: int,
    j: int,
)
    requires
        source.wf(),
        target.wf(),
        options.scaling.x >= 1,
        options.scaling.y >= 1,
        source.in_bounds(i, j),
    ensures
        ({
            let color = source.pixels[source.offset(i, j)];
            let current = target.with_pixels(options.blitted_first(source, target, i, j));
            let next = target.with_pixels(options.blitted_first(source, target, i, j + 1));
            let x0 = options.destination.x + i * options.scaling.x;
            let y0 = options.destination.y + j * options.scaling.y;
            &&& color.alpha() != 0 ==> current.painted(
                block_region(current, x0, x0 + options.scaling.x, y0, y0 + options.scaling.y),
                color,
            ) == next
            &&& color.alpha() == 0 ==> current == next
        }),
{
    let color = source.pixels[source.offset(i, j)];
    let current = target.with_pixels(options.blitted_first(source, target, i, j));
    let next = target.with_pixels(options.blitted_first(source, target, i, j + 1));
    let sx = options.scaling.x as int;
    let sy = options.scaling.y as int;
    let x0 = options.destination.x + i * sx;
    let y0 = options.destination.y + j * sy;
    let w = target.width as int;
    let painted = current.painted(block_region(current, x0, x0 + sx, y0, y0 + sy), color);
    assert forall|k: int| 0 <= k < target.pixels.len() implies next.pixels[k] == (if color.alpha()
        != 0 {
        painted.pixels[k]
    } else {
        current.pixels[k]
    }) by {
        crate::canvas::state::lemma_place_coordinates(target, k);
        let x = k % w;
        let y = k / w;
        lemma_cell(x, options.destination.x as int, sx, i);
        lemma_cell(y, options.destination.y as int, sy, j);
    }
    if color.alpha() != 0 {
        assert(painted.pixels =~= next.pixels);
    } else {
        assert(current.pixels =~= next.pixels);
    }
}

/// After the last row of a column comes the first row of the next.
proof fn lemma_blit_column_done(
    options: ImageOption,
    source: CanvasState,
    target: CanvasState,
    i: int,
)
    requires
        source.wf(),
        target.wf(),
    ensures
        options.blitted_first(source, target, i, source.height as int) == options.blitted_first(
            source,
            target,
            i + 1,
            0,
        ),
{
    assert(options.blitted_first(source, target, i, source.height as int)
        =~= options.blitted_first(source, target, i + 1, 0));
}

/// Before the first pixel nothing is drawn, and after the last column
/// everything is.
proof fn lemma_blit_ends(options: ImageOption, source: CanvasState, target: CanvasState)
    requires
        source.wf(),
        target.wf(),
    ensures
        options.blitted_first(source, target, 0, 0) == target.pixels,
        options.blitted_first(source, target, source.width as int, 0) == options.blitted(
            source,
            target,
        ),
{
    assert(options.blitted_first(source, target, 0, 0) =~= target.pixels);
    assert(options.blitted_first(source, target, source.width as int, 0) =~= options.blitted(
        source,
        target,
    ));
}

impl<'a> Command for ImageCommand<'a> {
    open spec fn renderable(&self) -> bool {
        &&& self.image.wf()
        &&& self.options.scaling.x >= 1
        &&& self.options.scaling.y >= 1
    }

    open spec fn rendered(&self, before: CanvasState) -> CanvasState {
        before.with_pixels(self.options.blitted(self.image@, before)).with_markers(
            before.markers + self.markers@,
        )
    }

    proof fn lemma_rendered_keeps_frame(&self, before: CanvasState) {
    }

    /// Hands the markers of the command over to the canvas, then draws the
    /// image column by column: each pixel that is not fully transparent
    /// covers a block of the canvas as large as the scaling says.
    fn render_canvas(&mut self, canvas: &mut CanvasImpl)
        ensures
            final(self).image == old(self).image,
            final(self).options == old(self).options,
            final(self).markers@ == Seq::<Marker>::empty(),
    {
        let ghost before = canvas@;
        let ghost handed = self.markers@;
        canvas.markers_mut().append(&mut self.markers);
        let ghost target = canvas@;
        assert(target == before.with_markers(before.markers + handed));

        let (width, height) = self.image.size_i32();
        let options = self.options;
        let x: i64 = options.destination.x as i64;
        let y: i64 = options.destination.y as i64;
        let sx: i64 = options.scaling.x as i64;
        let sy: i64 = options.scaling.y as i64;
        let unscaled = options.scaling.is_one();
        let ghost source = self.image@;
        proof {
            lemma_blit_ends(options, source, target);
            assert(target.with_pixels(target.pixels) == target);
        }

        let mut i: i64 = 0;
        while i < width as i64
            invariant
                canvas.wf(),
                target.wf(),
                self.image.wf(),
                source == self.image@,
                source.wf(),
                width == source.width,
                height == source.height,
                0 <= i <= width,
                options == self.options,
                x == options.destination.x,
                y == options.destination.y,
                sx == options.scaling.x,
                sy == options.scaling.y,
                sx >= 1,
                sy >= 1,
                unscaled == (sx == 1 && sy == 1),
                self.markers@ == Seq::<Marker>::empty(),
                canvas@ == target.with_pixels(options.blitted_first(source, target, i as int, 0)),
            decreases width - i,
        {
            let mut j: i64 = 0;
            while j < height as i64
                invariant
                    canvas.wf(),
                    target.wf(),
                    self.image.wf(),
                    source == self.image@,
                    source.wf(),
                    width == source.width,
                    height == source.height,
                    0 <= i < width,
                    0 <= j <= height,
                    x == options.destination.x,
                    y == options.destination.y,
                    sx == options.scaling.x,
                    sy == options.scaling.y,
                    sx >= 1,
                    sy >= 1,
                    unscaled == (sx == 1 && sy == 1),
                    canvas@ == target.with_pixels(
                        options.blitted_first(source, target, i as int, j as int),
                    ),
                decreases height - j,
            {
                let color = match self.image.pixel(i as i32, j as i32) {
                    Some(color) => color,
                    None => Color(0),
                };
                proof {
                    lemma_blit_one(options, source, target, i as int, j as int);
                    assert(i * sx <= 0x7FFF_FFFF * 0x7FFF_FFFF && j * sy <= 0x7FFF_FFFF
                        * 0x7FFF_FFFF && 0 <= i * sx && 0 <= j * sy) by (nonlinear_arith)
                        requires
                            0 <= i <= 0x7FFF_FFFF,
                            0 <= j <= 0x7FFF_FFFF,
                            1 <= sx <= 0x7FFF_FFFF,
                            1 <= sy <= 0x7FFF_FFFF,
                    ;
                }
                if !color.is_transparent() {
                    let ghost current = canvas@;
                    if unscaled {
                        proof {
                            assert(i * sx == i && j * sy == j) by (nonlinear_arith)
                                requires
                                    sx == 1,
                                    sy == 1,
                            ;
                            assert forall|a: int, b: int| current.in_bounds(a, b) implies (
                            #[trigger] point_region(x + i, y + j)(a, b) <==> block_region(
                                current,
                                x + i,
                                x + i + 1,
                                y + j,
                                y + j + 1,
                            )(a, b)) by {}
                            crate::canvas::state::lemma_paint_same(
                                current,
                                point_region(x + i, y + j),
                                block_region(current, x + i, x + i + 1, y + j, y + j + 1),
                                color,
                            );
                        }
                        plot(canvas, x + i, y + j, color);
                    } else {
                        fill_block(
                            canvas,
                            x + i * sx,
                            x + i * sx + sx,
                            y + j * sy,
                            y + j * sy + sy,
                            color,
                        );
                    }
                }
                j += 1;
            }
            proof {
                lemma_blit_column_done(options, source, target, i as int);
            }
            i += 1;
        }
        proof {
            assert(options.blitted(source, target) =~= options.blitted(source, before));
        }
    }
}

impl<'a> DrawCommand for &'a CanvasImpl {
    type Options = ImageOption;

    type Command = ImageCommand<'a>;

    open spec fn drawable(&self, options: &ImageOption) -> bool {
        markers_transformable(self@.markers, options.placement())
    }

    open spec fn builds(&self, options: &ImageOption, command: &ImageCommand<'a>) -> bool {
        &&& command.image == *self
        &&& command.options == *options
        &&& command.markers@ == markers_transformed(self@.markers, options.placement())
    }

    /// The command holds a copy of each marker of the image, moved to
    /// where the image goes. The image keeps its own markers.
    fn into_renderable(self, options: ImageOption) -> (command: ImageCommand<'a>) {
        let transform = Transform2D::new(options.destination, options.scaling);
        let markers = moved_markers(self.markers(), &transform);
        ImageCommand { image: self, options, markers }
    }
}

/// What the target shows at `(x, y)` once an image has been drawn onto it:
/// the color of the image pixel enlarged over that place where the image
/// shows there, and what was there before everywhere else.
pub proof fn lemma_blitted_pixel(
    options: ImageOption,
    source: CanvasState,
    target: CanvasState,
    x: int,
    y: int,
)
    requires
        target.wf(),
        target.in_bounds(x, y),
    ensures
        target.with_pixels(options.blitted(source, target)).pixel(x, y) == (if options.shows(
            source,
            target,
            x,
            y,
        ) {
            Some(options.shown(source, x, y))
        } else {
            target.pixel(x, y)
        }),
{
    crate::canvas::state::lemma_offset_coordinates(target, x, y);
}

/// Drawing an image onto a canvas of its own size, at the top left corner
/// and not enlarged, gives the pixels of the image, where every fully
/// transparent pixel of the image lies over an equal pixel of the canvas.
pub proof fn lemma_blit_round_trip(source: CanvasState, target: CanvasState)
    requires
        source.wf(),
        target.wf(),
        source.width == target.width,
        source.height == target.height,
        forall|x: int, y: int|
            source.in_bounds(x, y) && source.pixels[source.offset(x, y)].alpha() == 0
                ==> #[trigger] target.pixel(x, y) == source.pixel(x, y),
    ensures
        (ImageOption { destination: Vec2 { x: 0, y: 0 }, scaling: Vec2 { x: 1, y: 1 } }).blitted(
            source,
            target,
        ) == source.pixels,
{
    let options = ImageOption { destination: Vec2 { x: 0, y: 0 }, scaling: Vec2 { x: 1, y: 1 } };
    let w = target.width as int;
    assert forall|k: int| 0 <= k < target.pixels.len() implies options.blitted(source, target)[k]
        == source.pixels[k] by {
        crate::canvas::state::lemma_place_coordinates(target, k);
        let x = k % w;
        let y = k / w;
        lemma_cell(x, 0, 1, x);
        lemma_cell(y, 0, 1, y);
        assert(x * 1 == x) by (nonlinear_arith);
        assert(target.pixel(x, y) == Some(target.pixels[k]));
        assert(source.pixel(x, y) == Some(source.pixels[k]));
    }
    assert(options.blitted(source, target) =~= source.pixels);
}

/// An enlarged image shows each of its pixels that is not fully
/// transparent as a block of that color, as wide and as high as the
/// scaling says, in every row of the block that starts and ends on the
/// target.
pub proof fn lemma_blit_enlarges(
    options: ImageOption,
    source: CanvasState,
    target: CanvasState,
    i: int,
    j: int,
    a: int,
    b: int,
)
    requires
        source.wf(),
        target.wf(),
        options.scaling.x >= 1,
        options.scaling.y >= 1,
        source.in_bounds(i, j),
        source.pixels[source.offset(i, j)].alpha() != 0,
        0 <= a < options.scaling.x,
        0 <= b < options.scaling.y,
        target.in_bounds(
            options.destination.x + i * options.scaling.x,
            options.destination.y + j * options.scaling.y + b,
        ),
        target.in_bounds(
            options.destination.x + i * options.scaling.x + options.scaling.x - 1,
            options.destination.y + j * options.scaling.y + b,
        ),
    ensures
        target.with_pixels(options.blitted(source, target)).pixel(
            options.destination.x + i * options.scaling.x + a,
            options.destination.y + j * options.scaling.y + b,
        ) == source.pixel(i, j),
{
    let x = options.destination.x + i * options.scaling.x + a;
    let y = options.destination.y + j * options.scaling.y + b;
    lemma_cell(x, options.destination.x as int, options.scaling.x as int, i);
    lemma_cell(y, options.destination.y as int, options.scaling.y as int, j);
    lemma_blitted_pixel(options, source, target, x, y);
}

/// The markers of `markers`, each moved by `t`, in the same order.
pub(crate) fn moved_markers(markers: &Vec<Marker>, t: &Transform2D) -> (moved: Vec<Marker>)
    requires
        markers_transformable(markers@, *t),
    ensures
        moved@ == markers_transformed(markers@, *t),
{
    let mut moved: Vec<Marker> = Vec::new();
    let mut k: usize = 0;
    while k < markers.len()
        invariant
            k <= markers.len(),
            markers_transformable(markers@, *t),
            moved@.len() == k,
            forall|n: int| 0 <= n < k ==> moved@[n] == (#[trigger] markers@[n]).transformed(t),
        decreases markers.len() - k,
    {
        let mut marker = markers[k];
        assert(markers@[k as int].transformable(t));
        marker.transform(t);
        moved.push(marker);
        k += 1;
    }
    assert(moved@ =~= markers_transformed(markers@, *t));
    moved
}

} // verus!
