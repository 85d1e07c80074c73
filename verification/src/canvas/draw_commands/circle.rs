//! Drawing circles.

use vstd::prelude::*;
use vstd::view::View as _;
use crate::color::Color;
use crate::canvas::{CanvasImpl, CanvasState};
use crate::canvas::draw_commands::{Command, CloneCommand, DrawCommand, plot, fill_span, point_region, span_region};
use crate::canvas::draw_commands::marker::Marker;
use crate::math::shapes::circle::Circle;
use crate::math::transform::{Transform, Transform2D};

verus! {

/// How a circle is drawn: the color of its outline, and the color of its
/// inside. A fill color whose packed value is zero means that the inside
/// is left alone.
#[derive(Debug, Clone, Copy, PartialEq, Eq, Structural)]
pub struct CircleOption {
    pub stroke_color: Color,
    pub fill_color: Color,
}

/// A circle with its options.
#[derive(Debug, Clone, Copy, PartialEq, Eq, Structural)]
pub struct CircleCommand {
    pub circle: Circle,
    pub options: CircleOption,
}

/// Where the midpoint walk along the first octant stands: its height above
/// the center, and its decision parameter.
pub struct Arc {
    pub y: int,
    pub p: int,
}

/// The walk after `n` steps to the right, for a circle of the given
/// radius. It starts on top of the circle with the parameter `1 - radius`.
/// A step with a negative parameter keeps the height and adds `2x + 3` to
/// the parameter; any other step goes down by one and adds
/// `2(x - y) + 5`.
pub open spec fn arc(radius: int, n: int) -> Arc
    decreases n,
{
    if n <= 0 {
        Arc { y: radius, p: 1 - radius }
    } else {
        let before = arc(radius, n - 1);
        if before.p < 0 {
            Arc { y: before.y, p: before.p + 2 * (n - 1) + 3 }
        } else {
            Arc { y: before.y - 1, p: before.p + 2 * ((n - 1) - before.y) + 5 }
        }
    }
}

/// The size of a number, without its sign.
pub open spec fn magnitude(v: int) -> int {
    if v >= 0 {
        v
    } else {
        -v
    }
}

impl Circle {
    /// Whether `(x, y)` is one of the eight outline pixels of step `n`:
    /// the point `(n, height)` of the first octant, mirrored at both axes
    /// through the center and at both diagonals. The walk stops where it
    /// would pass the diagonal.
    pub open spec fn on_ring(self, n: int, x: int, y: int) -> bool {
        let a = magnitude(x - self.center.x);
        let b = magnitude(y - self.center.y);
        let h = arc(self.radius as int, n).y;
        0 <= n <= h && ((a == n && b == h) || (a == h && b == n))
    }

    /// Whether `(x, y)` is an outline pixel of one of the first `count`
    /// steps.
    pub open spec fn on_outline_first(self, count: int, x: int, y: int) -> bool {
        exists|n: int| 0 <= n < count && #[trigger] self.on_ring(n, x, y)
    }

    /// Whether `(x, y)` is an outline pixel.
    pub open spec fn on_outline(self, x: int, y: int) -> bool {
        exists|n: int| #[trigger] self.on_ring(n, x, y)
    }

    /// Whether `(x, y)` lies on one of the four fill spans of step `n`:
    /// the two rows just inside the upper and lower outline pixels, between
    /// their columns, and the two rows of the left and right outline pixels,
    /// strictly between them. A step on the diagonal fills nothing.
    pub open spec fn on_fill_span(self, n: int, x: int, y: int) -> bool {
        let a = magnitude(x - self.center.x);
        let b = magnitude(y - self.center.y);
        let h = arc(self.radius as int, n).y;
        0 <= n < h && ((b == h - 1 && a <= n) || (b == n && a <= h - 1))
    }

    /// Whether the fill span of step `n` through `(x, y)` is painted on
    /// the canvas `s`: a span is painted whole where both its ends lie on
    /// the canvas, and not at all otherwise.
    pub open spec fn fills(self, s: CanvasState, n: int, x: int, y: int) -> bool {
        let a = magnitude(x - self.center.x);
        let b = magnitude(y - self.center.y);
        let h = arc(self.radius as int, n).y;
        0 <= n < h && ((b == h - 1 && a <= n && s.in_bounds(self.center.x - n, y) && s.in_bounds(
            self.center.x + n,
            y,
        )) || (b == n && a <= h - 1 && s.in_bounds(self.center.x - h + 1, y) && s.in_bounds(
            self.center.x + h - 1,
            y,
        )))
    }

    /// Whether one of the first `count` steps fills `(x, y)` on `s`.
    pub open spec fn filled_first(self, s: CanvasState, count: int, x: int, y: int) -> bool {
        exists|n: int| 0 <= n < count && #[trigger] self.fills(s, n, x, y)
    }

    /// Whether some step fills `(x, y)` on `s`.
    pub open spec fn filled(self, s: CanvasState, x: int, y: int) -> bool {
        exists|n: int| #[trigger] self.fills(s, n, x, y)
    }

    /// The outline pixels.
    pub open spec fn outline(self) -> spec_fn(int, int) -> bool {
        |x: int, y: int| self.on_outline(x, y)
    }

    /// The pixels that the fill paints on `s`.
    pub open spec fn inside(self, s: CanvasState) -> spec_fn(int, int) -> bool {
        |x: int, y: int| self.filled(s, x, y)
    }
}

impl CircleOption {
    /// Whether the inside is painted at all.
    pub open spec fn has_fill(self) -> bool {
        self.fill_color.0 != 0
    }
}

impl CircleCommand {
    /// The command as `view` shows it: moved by the active transform if
    /// there is one, and as it is otherwise.
    pub open spec fn placed(self, view: crate::canvas::View) -> CircleCommand {
        match view.transform {
            Some(t) => self.transformed(&t),
            None => self,
        }
    }

    /// The image of `self` under `t`: the circle moves, the colors stay.
    pub open spec fn transformed(&self, t: &Transform2D) -> CircleCommand {
        CircleCommand { circle: self.circle.transformed(t), options: self.options }
    }

    /// The canvas after the first `count` steps of the walk.
    pub open spec fn rendered_first(self, before: CanvasState, count: int) -> CanvasState {
        let filled = if self.options.has_fill() {
            before.painted(
                |x: int, y: int| self.circle.filled_first(before, count, x, y),
                self.options.fill_color,
            )
        } else {
            before
        };
        filled.painted(
            |x: int, y: int| self.circle.on_outline_first(count, x, y),
            self.options.stroke_color,
        )
    }
}

impl Transform for CircleCommand {
    open spec fn transformable(&self, t: &Transform2D) -> bool {
        self.circle.transformable(t)
    }

    open spec fn transforms_to(&self, t: &Transform2D, image: &CircleCommand) -> bool {
        *image == self.transformed(t)
    }

    fn transform(&mut self, transform: &Transform2D) {
        self.circle.transform(transform);
    }
}

/// The walk never climbs.
pub proof fn lemma_arc_descends(radius: int, m: int, n: int)
    requires
        m <= n,
    ensures
        arc(radius, m).y >= arc(radius, n).y,
    decreases n - m,
{
    if m < n {
        if n <= 0 {
        } else {
            lemma_arc_descends(radius, m, n - 1);
        }
    }
}

/// The decision parameter is the circle equation at the midpoint between
/// the two pixels that the next step chooses from, in whole numbers: it is
/// negative where that midpoint lies inside the circle.
pub proof fn lemma_arc_parameter(radius: int, n: int)
    requires
        0 <= n,
    ensures
        arc(radius, n).p == (n + 1) * (n + 1) + arc(radius, n).y * arc(radius, n).y - arc(
            radius,
            n,
        ).y - radius * radius,
    decreases n,
{
    if n > 0 {
        lemma_arc_parameter(radius, n - 1);
        let before = arc(radius, n - 1);
        let y = before.y;
        assert((n + 1) * (n + 1) == n * n + 2 * n + 1) by (nonlinear_arith);
        assert((y - 1) * (y - 1) == y * y - 2 * y + 1) by (nonlinear_arith);
    } else {
        assert((n + 1) * (n + 1) == 1) by (nonlinear_arith)
            requires
                n == 0,
        ;
    }
}

/// The outline is symmetric under the eight reflections through the
/// center: a pixel is on it exactly where its mirror images at both axes
/// and at both diagonals are.
pub proof fn lemma_outline_symmetric(circle: Circle, a: int, b: int)
    ensures
        ({
            let cx = circle.center.x as int;
            let cy = circle.center.y as int;
            let here = circle.on_outline(cx + a, cy + b);
            &&& circle.on_outline(cx - a, cy + b) == here
            &&& circle.on_outline(cx + a, cy - b) == here
            &&& circle.on_outline(cx - a, cy - b) == here
            &&& circle.on_outline(cx + b, cy + a) == here
            &&& circle.on_outline(cx - b, cy + a) == here
            &&& circle.on_outline(cx + b, cy - a) == here
            &&& circle.on_outline(cx - b, cy - a) == here
        }),
{
    let cx = circle.center.x as int;
    let cy = circle.center.y as int;
    assert forall|x1: int, y1: int, x2: int, y2: int|
        ((magnitude(x1 - cx) == magnitude(x2 - cx) && magnitude(y1 - cy) == magnitude(y2 - cy)) || (
        magnitude(x1 - cx) == magnitude(y2 - cy) && magnitude(y1 - cy) == magnitude(x2 - cx)))
            && circle.on_outline(x1, y1) implies circle.on_outline(x2, y2) by {
        let n = choose|n: int| #[trigger] circle.on_ring(n, x1, y1);
        assert(circle.on_ring(n, x2, y2));
    }
}

/// No fill span holds an outline pixel.
pub proof fn lemma_fill_misses_outline(circle: Circle, n: int, m: int, x: int, y: int)
    requires
        circle.on_fill_span(n, x, y),
    ensures
        !circle.on_ring(m, x, y),
{
    let r = circle.radius as int;
    if m <= n {
        lemma_arc_descends(r, m, n);
    } else {
        lemma_arc_descends(r, n, m);
    }
}

/// What a canvas shows after the first `count` steps of a circle: the
/// outline color on the outline, the fill color on what was filled and is
/// no outline, and what was there before everywhere else.
pub proof fn lemma_rendered_first_pixel(
    command: CircleCommand,
    before: CanvasState,
    count: int,
    x: int,
    y: int,
)
    requires
        before.wf(),
    ensures
        command.rendered_first(before, count).wf(),
        command.rendered_first(before, count).width == before.width,
        command.rendered_first(before, count).height == before.height,
        command.rendered_first(before, count).view == before.view,
        command.rendered_first(before, count).markers == before.markers,
        command.rendered_first(before, count).pixel(x, y) == (if !before.in_bounds(x, y) {
            None
        } else if command.circle.on_outline_first(count, x, y) {
            Some(command.options.stroke_color)
        } else if command.options.has_fill() && command.circle.filled_first(before, count, x, y) {
            Some(command.options.fill_color)
        } else {
            before.pixel(x, y)
        }),
{
    let fill_region = |x: int, y: int| command.circle.filled_first(before, count, x, y);
    let filled = if command.options.has_fill() {
        before.painted(fill_region, command.options.fill_color)
    } else {
        before
    };
    if command.options.has_fill() {
        crate::canvas::state::lemma_painted_pixel(before, fill_region, command.options.fill_color, x, y);
    }
    crate::canvas::state::lemma_painted_pixel(
        filled,
        |x: int, y: int| command.circle.on_outline_first(count, x, y),
        command.options.stroke_color,
        x,
        y,
    );
}


/// What a canvas shows after a circle has been drawn: the outline color
/// on the outline, the fill color on what was filled, and what was there
/// before everywhere else. No filled pixel is an outline pixel.
pub proof fn lemma_rendered_pixel(command: CircleCommand, before: CanvasState, x: int, y: int)
    requires
        before.wf(),
        before.in_bounds(x, y),
    ensures
        command.rendered(before).pixel(x, y) == (if command.circle.on_outline(x, y) {
            Some(command.options.stroke_color)
        } else if command.options.has_fill() && command.circle.filled(before, x, y) {
            Some(command.options.fill_color)
        } else {
            before.pixel(x, y)
        }),
        command.circle.filled(before, x, y) ==> !command.circle.on_outline(x, y),
        command.rendered(before).markers == before.markers,
        command.rendered(before).view == before.view,
{
    let circle = command.circle;
    if command.options.has_fill() {
        crate::canvas::state::lemma_painted_pixel(
            before,
            circle.inside(before),
            command.options.fill_color,
            x,
            y,
        );
        crate::canvas::state::lemma_painted_pixel(
            before.painted(circle.inside(before), command.options.fill_color),
            circle.outline(),
            command.options.stroke_color,
            x,
            y,
        );
    } else {
        crate::canvas::state::lemma_painted_pixel(
            before,
            circle.outline(),
            command.options.stroke_color,
            x,
            y,
        );
    }
    if circle.filled(before, x, y) {
        let n = choose|n: int| #[trigger] circle.fills(before, n, x, y);
        assert(circle.on_fill_span(n, x, y));
        if circle.on_outline(x, y) {
            let m = choose|m: int| #[trigger] circle.on_ring(m, x, y);
            lemma_fill_misses_outline(circle, n, m, x, y);
        }
    }
}

/// Once the walk has passed the diagonal, no later step adds a pixel.
pub proof fn lemma_walk_is_over(circle: Circle, s: CanvasState, count: int, x: int, y: int)
    requires
        0 <= count,
        count > arc(circle.radius as int, count).y,
    ensures
        circle.on_outline(x, y) <==> circle.on_outline_first(count, x, y),
        circle.filled(s, x, y) <==> circle.filled_first(s, count, x, y),
{
    let r = circle.radius as int;
    if circle.on_outline(x, y) {
        let n = choose|n: int| #[trigger] circle.on_ring(n, x, y);
        if n >= count {
            lemma_arc_descends(r, count, n);
        }
        assert(0 <= n < count && circle.on_ring(n, x, y));
    }
    if circle.on_outline_first(count, x, y) {
        let n = choose|n: int| 0 <= n < count && #[trigger] circle.on_ring(n, x, y);
        assert(circle.on_ring(n, x, y));
    }
    if circle.filled(s, x, y) {
        let n = choose|n: int| #[trigger] circle.fills(s, n, x, y);
        if n >= count {
            lemma_arc_descends(r, count, n);
        }
        assert(0 <= n < count && circle.fills(s, n, x, y));
    }
    if circle.filled_first(s, count, x, y) {
        let n = choose|n: int| 0 <= n < count && #[trigger] circle.fills(s, n, x, y);
        assert(circle.fills(s, n, x, y));
    }
}

/// One step more adds the outline pixels and the fill spans of that step.
proof fn lemma_one_step_more(circle: Circle, s: CanvasState, count: int, x: int, y: int)
    requires
        0 <= count,
    ensures
        circle.on_outline_first(count + 1, x, y) <==> circle.on_outline_first(count, x, y)
            || circle.on_ring(count, x, y),
        circle.filled_first(s, count + 1, x, y) <==> circle.filled_first(s, count, x, y)
            || circle.fills(s, count, x, y),
{
    if circle.on_outline_first(count + 1, x, y) {
        let n = choose|n: int| 0 <= n < count + 1 && #[trigger] circle.on_ring(n, x, y);
        if n < count {
            assert(circle.on_outline_first(count, x, y));
        }
    }
    if circle.on_outline_first(count, x, y) {
        let n = choose|n: int| 0 <= n < count && #[trigger] circle.on_ring(n, x, y);
        assert(0 <= n < count + 1 && circle.on_ring(n, x, y));
    }
    if circle.on_ring(count, x, y) {
        assert(0 <= count < count + 1 && circle.on_ring(count, x, y));
    }
    if circle.filled_first(s, count + 1, x, y) {
        let n = choose|n: int| 0 <= n < count + 1 && #[trigger] circle.fills(s, n, x, y);
        if n < count {
            assert(circle.filled_first(s, count, x, y));
        }
    }
    if circle.filled_first(s, count, x, y) {
        let n = choose|n: int| 0 <= n < count && #[trigger] circle.fills(s, n, x, y);
        assert(0 <= n < count + 1 && circle.fills(s, n, x, y));
    }
    if circle.fills(s, count, x, y) {
        assert(0 <= count < count + 1 && circle.fills(s, count, x, y));
    }
}

impl Command for CircleCommand {
    open spec fn renderable(&self) -> bool {
        true
    }

    open spec fn rendered(&self, before: CanvasState) -> CanvasState {
        let filled = if self.options.has_fill() {
            before.painted(self.circle.inside(before), self.options.fill_color)
        } else {
            before
        };
        filled.painted(self.circle.outline(), self.options.stroke_color)
    }

    proof fn lemma_rendered_keeps_frame(&self, before: CanvasState) {
    }

    /// Walks the first octant from the top of the circle to the diagonal.
    /// Each step sets its eight outline pixels and, where a fill color is
    /// given and the step is off the diagonal, its four fill spans.
    fn render_canvas(&mut self, canvas: &mut CanvasImpl)
        ensures
            *final(self) == *old(self),
    {
        let cx: i64 = self.circle.center.x as i64;
        let cy: i64 = self.circle.center.y as i64;
        let radius: i64 = self.circle.radius as i64;
        let mut x: i64 = 0;
        let mut y: i64 = radius;

        // Decision parameter.
        let mut p: i64 = 1 - radius;
        let color = self.options.stroke_color;
        let fill = self.options.fill_color;
        let has_fill = fill.0 != 0;

        let ghost command = *self;
        let ghost circle = self.circle;
        let ghost before = canvas@;
        proof {
            assert forall|a: int, b: int| before.in_bounds(a, b) implies canvas@.pixel(a, b)
                == command.rendered_first(before, 0).pixel(a, b) by {
                lemma_rendered_first_pixel(command, before, 0, a, b);
            }
            lemma_rendered_first_pixel(command, before, 0, 0, 0);
            crate::canvas::state::lemma_pixels_determine_buffer(
                canvas@,
                command.rendered_first(before, 0),
            );
        }

        // Iterate through the first octant.
        while x <= y
            invariant
                canvas.wf(),
                before.wf(),
                command.circle == circle,
                command.options.stroke_color == color,
                command.options.fill_color == fill,
                has_fill == command.options.has_fill(),
                cx == circle.center.x,
                cy == circle.center.y,
                radius == circle.radius,
                0 <= x,
                y <= radius,
                y == arc(radius as int, x as int).y,
                p == arc(radius as int, x as int).p,
                radius >= 0 ==> -2 * radius - 1 <= p <= 6 * x + 6,
                canvas@ == command.rendered_first(before, x as int),
            decreases y - x + 2,
        {
            let ghost start = canvas@;

            // Each computed (x, y) produces eight symmetrical points.
            plot(canvas, cx + x, cy + y, color);
            plot(canvas, cx - x, cy + y, color);
            plot(canvas, cx + x, cy - y, color);
            plot(canvas, cx - x, cy - y, color);
            let ghost upper = canvas@;

            plot(canvas, cx + y, cy + x, color);
            plot(canvas, cx - y, cy + x, color);
            plot(canvas, cx + y, cy - x, color);
            plot(canvas, cx - y, cy - x, color);
            let ghost ringed = canvas@;

            proof {
                assert forall|a: int, b: int| before.in_bounds(a, b) implies ringed.pixel(a, b) == (
                if circle.on_ring(x as int, a, b) {
                    Some(color)
                } else {
                    start.pixel(a, b)
                }) by {
                    lemma_chain_of_four(
                        start,
                        upper,
                        cx + x,
                        cy + y,
                        cx - x,
                        cy + y,
                        cx + x,
                        cy - y,
                        cx - x,
                        cy - y,
                        color,
                        a,
                        b,
                    );
                    lemma_chain_of_four(
                        upper,
                        ringed,
                        cx + y,
                        cy + x,
                        cx - y,
                        cy + x,
                        cx + y,
                        cy - x,
                        cx - y,
                        cy - x,
                        color,
                        a,
                        b,
                    );
                }
            }

            if has_fill {
                // Only fill if there's an interval.
                if x < y {
                    // The rows just inside the upper and lower points.
                    fill_span(canvas, cx - x, cx + x + 1, cy + y - 1, fill);
                    fill_span(canvas, cx - x, cx + x + 1, cy - y + 1, fill);
                    let ghost capped = canvas@;

                    // The rows of the left and right points, between them.
                    fill_span(canvas, cx - y + 1, cx + y, cy + x, fill);
                    fill_span(canvas, cx - y + 1, cx + y, cy - x, fill);

                    proof {
                        assert forall|a: int, b: int| before.in_bounds(a, b) implies canvas@.pixel(
                            a,
                            b,
                        ) == (if circle.fills(before, x as int, a, b) {
                            Some(fill)
                        } else {
                            ringed.pixel(a, b)
                        }) by {
                            lemma_chain_of_two_spans(
                                ringed,
                                capped,
                                cx - x,
                                cx + x + 1,
                                cy + y - 1,
                                cy - y + 1,
                                fill,
                                a,
                                b,
                            );
                            lemma_chain_of_two_spans(
                                capped,
                                canvas@,
                                cx - y + 1,
                                cx + y,
                                cy + x,
                                cy - x,
                                fill,
                                a,
                                b,
                            );
                        }
                    }
                }
            }
            proof {
                let next = command.rendered_first(before, x + 1);
                assert forall|a: int, b: int| before.in_bounds(a, b) implies canvas@.pixel(a, b)
                    == next.pixel(a, b) by {
                    lemma_rendered_first_pixel(command, before, x as int, a, b);
                    lemma_rendered_first_pixel(command, before, x + 1, a, b);
                    lemma_one_step_more(circle, before, x as int, a, b);
                    if circle.fills(before, x as int, a, b) {
                        assert(circle.on_fill_span(x as int, a, b));
                        assert forall|m: int| !#[trigger] circle.on_ring(m, a, b) by {
                            lemma_fill_misses_outline(circle, x as int, m, a, b);
                        }
                        assert(!circle.on_outline_first(x + 1, a, b));
                    }
                }
                lemma_rendered_first_pixel(command, before, x + 1, 0, 0);
                crate::canvas::state::lemma_pixels_determine_buffer(canvas@, next);
            }

            // Update decision parameter and coordinates.
            if p < 0 {
                p += 2 * x + 3;
            } else {
                p += 2 * (x - y) + 5;
                y -= 1;
            }
            x += 1;
        }
        proof {
            let last = command.rendered_first(before, x as int);
            let whole = command.rendered(before);
            assert forall|a: int, b: int| before.in_bounds(a, b) implies last.pixel(a, b)
                == whole.pixel(a, b) by {
                lemma_rendered_first_pixel(command, before, x as int, a, b);
                lemma_walk_is_over(circle, before, x as int, a, b);
                if command.options.has_fill() {
                    crate::canvas::state::lemma_painted_pixel(
                        before,
                        circle.inside(before),
                        fill,
                        a,
                        b,
                    );
                    crate::canvas::state::lemma_painted_pixel(
                        before.painted(circle.inside(before), fill),
                        circle.outline(),
                        color,
                        a,
                        b,
                    );
                } else {
                    crate::canvas::state::lemma_painted_pixel(before, circle.outline(), color, a, b);
                }
            }
            lemma_rendered_first_pixel(command, before, x as int, 0, 0);
            crate::canvas::state::lemma_pixels_determine_buffer(last, whole);
        }
    }
}

impl CloneCommand for CircleCommand {
    open spec fn as_marker(&self) -> Marker {
        Marker::Circle(*self)
    }

    fn box_clone(&self) -> (marker: Marker) {
        Marker::Circle(*self)
    }

    proof fn lemma_marker_renders_alike(&self, before: CanvasState) {
    }

    proof fn lemma_marker_transformable(&self, t: &Transform2D) {
    }

    proof fn lemma_marker_moves_alike(&self, t: &Transform2D, image: &CircleCommand) {
    }
}

impl DrawCommand for Circle {
    type Options = CircleOption;

    type Command = CircleCommand;

    open spec fn drawable(&self, options: &CircleOption) -> bool {
        true
    }

    open spec fn builds(&self, options: &CircleOption, command: &CircleCommand) -> bool {
        *command == (CircleCommand { circle: *self, options: *options })
    }

    fn into_renderable(self, options: CircleOption) -> (command: CircleCommand) {
        CircleCommand { circle: self, options }
    }
}

impl From<Color> for CircleOption {
    /// An outline of the given color, with nothing painted inside.
    fn from(color: Color) -> (options: CircleOption) {
        CircleOption { stroke_color: color, fill_color: Color(0) }
    }
}

impl vstd::std_specs::convert::FromSpecImpl<Color> for CircleOption {
    open spec fn obeys_from_spec() -> bool {
        true
    }

    open spec fn from_spec(color: Color) -> CircleOption {
        CircleOption { stroke_color: color, fill_color: Color(0) }
    }
}

impl From<u32> for CircleOption {
    /// An outline of the color with the given packed value, with nothing
    /// painted inside.
    fn from(color: u32) -> (options: CircleOption) {
        CircleOption { stroke_color: Color(color), fill_color: Color(0) }
    }
}

impl vstd::std_specs::convert::FromSpecImpl<u32> for CircleOption {
    open spec fn obeys_from_spec() -> bool {
        true
    }

    open spec fn from_spec(color: u32) -> CircleOption {
        CircleOption { stroke_color: Color(color), fill_color: Color(0) }
    }
}

/// Choosing what a circle is filled with.
pub trait CircleOptionTrait: Sized {
    /// The options that `self` stands for.
    spec fn options(self) -> CircleOption;

    /// The same outline, with `color` inside.
    fn fill(self, color: Color) -> (options: CircleOption)
        ensures
            options == (CircleOption {
                stroke_color: self.options().stroke_color,
                fill_color: color,
            }),
    ;
}

impl CircleOptionTrait for CircleOption {
    open spec fn options(self) -> CircleOption {
        self
    }

    fn fill(self, color: Color) -> (options: CircleOption) {
        CircleOption { stroke_color: self.stroke_color, fill_color: color }
    }
}

impl CircleOptionTrait for Color {
    open spec fn options(self) -> CircleOption {
        CircleOption { stroke_color: self, fill_color: Color(0) }
    }

    fn fill(self, color: Color) -> (options: CircleOption) {
        CircleOption { stroke_color: self, fill_color: color }
    }
}

impl CircleOptionTrait for u32 {
    open spec fn options(self) -> CircleOption {
        CircleOption { stroke_color: Color(self), fill_color: Color(0) }
    }

    fn fill(self, color: Color) -> (options: CircleOption) {
        CircleOption { stroke_color: Color(self), fill_color: color }
    }
}

/// What four pixel writes in a row leave at `(a, b)`.
proof fn lemma_chain_of_four(
    s: CanvasState,
    e: CanvasState,
    x1: int,
    y1: int,
    x2: int,
    y2: int,
    x3: int,
    y3: int,
    x4: int,
    y4: int,
    color: Color,
    a: int,
    b: int,
)
    requires
        s.wf(),
        e == s.painted(point_region(x1, y1), color).painted(point_region(x2, y2), color).painted(
            point_region(x3, y3),
            color,
        ).painted(point_region(x4, y4), color),
        s.in_bounds(a, b),
    ensures
        e.wf(),
        e.width == s.width,
        e.height == s.height,
        e.view == s.view,
        e.markers == s.markers,
        e.pixel(a, b) == (if (a == x1 && b == y1) || (a == x2 && b == y2) || (a == x3 && b == y3)
            || (a == x4 && b == y4) {
            Some(color)
        } else {
            s.pixel(a, b)
        }),
{
    let s1 = s.painted(point_region(x1, y1), color);
    let s2 = s1.painted(point_region(x2, y2), color);
    let s3 = s2.painted(point_region(x3, y3), color);
    crate::canvas::state::lemma_painted_pixel(s, point_region(x1, y1), color, a, b);
    crate::canvas::state::lemma_painted_pixel(s1, point_region(x2, y2), color, a, b);
    crate::canvas::state::lemma_painted_pixel(s2, point_region(x3, y3), color, a, b);
    crate::canvas::state::lemma_painted_pixel(s3, point_region(x4, y4), color, a, b);
}

/// What two span writes over the same columns leave at `(a, b)`.
proof fn lemma_chain_of_two_spans(
    s: CanvasState,
    e: CanvasState,
    x0: int,
    x1: int,
    y1: int,
    y2: int,
    color: Color,
    a: int,
    b: int,
)
    requires
        s.wf(),
        e == s.painted(span_region(s, x0, x1, y1), color).painted(
            span_region(s.painted(span_region(s, x0, x1, y1), color), x0, x1, y2),
            color,
        ),
        s.in_bounds(a, b),
    ensures
        e.wf(),
        e.width == s.width,
        e.height == s.height,
        e.view == s.view,
        e.markers == s.markers,
        e.pixel(a, b) == (if (b == y1 || b == y2) && x0 <= a < x1 && s.in_bounds(x0, b)
            && s.in_bounds(x1 - 1, b) {
            Some(color)
        } else {
            s.pixel(a, b)
        }),
{
    let s1 = s.painted(span_region(s, x0, x1, y1), color);
    crate::canvas::state::lemma_painted_pixel(s, span_region(s, x0, x1, y1), color, a, b);
    crate::canvas::state::lemma_painted_pixel(s1, span_region(s1, x0, x1, y2), color, a, b);
}

} // verus!
