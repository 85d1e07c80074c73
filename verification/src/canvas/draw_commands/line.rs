//! Drawing line segments.

use vstd::prelude::*;
use vstd::view::View as _;
use crate::color::Color;
use crate::canvas::{CanvasImpl, CanvasState};
use crate::canvas::draw_commands::{Command, CloneCommand, DrawCommand, plot};
use crate::canvas::draw_commands::marker::Marker;
use crate::math::vector::{Vec2, fits_i32};
use crate::math::shapes::line::Line;
use crate::math::transform::{Transform, Transform2D};

verus! {

/// How a line is drawn: its color, and the size of the cells that its
/// endpoints name. Both endpoints are shifted by half a cell, rounded
/// toward zero, before the line is painted, so that a line drawn over an
/// enlarged image runs through the middle of the enlarged pixels.
#[derive(Debug, Clone, Copy, PartialEq, Eq, Structural)]
pub struct LineOptions {
    pub color: Color,
    pub pixel_size: Vec2,
}

/// A line with its options.
#[derive(Debug, Clone, Copy, PartialEq, Eq, Structural)]
pub struct LineCommand {
    pub line: Line,
    pub options: LineOptions,
}

/// The distance between two numbers.
pub open spec fn distance(a: int, b: int) -> int {
    if a <= b {
        b - a
    } else {
        a - b
    }
}

/// The number reached from `from` after `by` unit steps toward `to`:
/// forward if `to` is greater, backward otherwise.
pub open spec fn advance(from: int, to: int, by: int) -> int {
    if from < to {
        from + by
    } else {
        from - by
    }
}

/// Half of `v`, rounded toward zero.
pub open spec fn half(v: int) -> int {
    if v >= 0 {
        v / 2
    } else {
        -((-v) / 2)
    }
}

/// How far the line has gone along its shorter axis after `k` steps along
/// its longer one: `k * minor / major`, rounded to the nearest whole
/// number, and down where it lies exactly between two.
pub open spec fn minor_progress(k: int, minor: int, major: int) -> int {
    if major <= 0 {
        0
    } else {
        (2 * (k * minor) + major - 1) / (2 * major)
    }
}

/// Whether `n / d` lies exactly halfway between two whole numbers.
pub open spec fn halfway(n: int, d: int) -> bool {
    d > 0 && (2 * n) % (2 * d) == d
}

/// The walk of the line rasterizer between two points.
pub struct Path {
    pub x1: int,
    pub y1: int,
    pub x2: int,
    pub y2: int,
}

impl Path {
    /// The extent along the first axis.
    pub open spec fn dx(self) -> int {
        distance(self.x1, self.x2)
    }

    /// The extent along the second axis.
    pub open spec fn dy(self) -> int {
        distance(self.y1, self.y2)
    }

    /// The number of steps from the first point to the last: the greater
    /// of the two extents.
    pub open spec fn steps(self) -> int {
        if self.dx() >= self.dy() {
            self.dx()
        } else {
            self.dy()
        }
    }

    /// The point reached after `k` steps. Each step moves by one along the
    /// longer axis.
    pub open spec fn point(self, k: int) -> (int, int) {
        if self.dx() >= self.dy() {
            (
                advance(self.x1, self.x2, k),
                advance(self.y1, self.y2, minor_progress(k, self.dy(), self.dx())),
            )
        } else {
            (
                advance(self.x1, self.x2, minor_progress(k, self.dx(), self.dy())),
                advance(self.y1, self.y2, k),
            )
        }
    }

    /// The extent along the shorter axis.
    pub open spec fn minor(self) -> int {
        if self.dx() >= self.dy() {
            self.dy()
        } else {
            self.dx()
        }
    }

    /// The walk between the same two points, taken from the other end.
    pub open spec fn reversed(self) -> Path {
        Path { x1: self.x2, y1: self.y2, x2: self.x1, y2: self.y1 }
    }

    /// Whether the true line passes exactly halfway between two pixels at
    /// some step. There the walk rounds toward its first point, so the two
    /// directions part.
    pub open spec fn has_tie(self) -> bool {
        exists|k: int| 0 < k < self.steps() && #[trigger] halfway(k * self.minor(), self.steps())
    }

    /// The set of pixels that the walk visits.
    pub open spec fn pixels(self) -> Set<(int, int)> {
        Set::new(|p: (int, int)| self.covers(p.0, p.1))
    }

    /// Whether `(x, y)` is among the first `n` points of the walk.
    pub open spec fn covers_first(self, n: int, x: int, y: int) -> bool {
        exists|k: int| 0 <= k < n && #[trigger] self.point(k) == (x, y)
    }

    /// Whether the walk visits `(x, y)`.
    pub open spec fn covers(self, x: int, y: int) -> bool {
        self.covers_first(self.steps() + 1, x, y)
    }

    /// The pixels that the walk visits.
    pub open spec fn region(self) -> spec_fn(int, int) -> bool {
        self.region_first(self.steps() + 1)
    }

    /// The pixels among the first `n` points of the walk.
    pub open spec fn region_first(self, n: int) -> spec_fn(int, int) -> bool {
        |x: int, y: int| self.covers_first(n, x, y)
    }
}

impl LineCommand {
    /// The walk that painting `self` takes: between the endpoints of the
    /// line, each shifted by half the cell size.
    pub open spec fn path(self) -> Path {
        Path {
            x1: self.line.start.x + half(self.options.pixel_size.x as int),
            y1: self.line.start.y + half(self.options.pixel_size.y as int),
            x2: self.line.end.x + half(self.options.pixel_size.x as int),
            y2: self.line.end.y + half(self.options.pixel_size.y as int),
        }
    }

    /// The command as `view` shows it: moved by the active transform if
    /// there is one, and as it is otherwise.
    pub open spec fn placed(self, view: crate::canvas::View) -> LineCommand {
        match view.transform {
            Some(t) => self.transformed(&t),
            None => self,
        }
    }

    /// The image of `self` under `t`: the line is moved by the whole
    /// transform, the cell size by its scaling alone.
    pub open spec fn transformed(&self, t: &Transform2D) -> LineCommand {
        LineCommand {
            line: self.line.transformed(t),
            options: LineOptions {
                color: self.options.color,
                pixel_size: Vec2 {
                    x: (self.options.pixel_size.x * t.scaling.x) as i32,
                    y: (self.options.pixel_size.y * t.scaling.y) as i32,
                },
            },
        }
    }
}

impl Transform for LineCommand {
    open spec fn transformable(&self, t: &Transform2D) -> bool {
        &&& self.line.transformable(t)
        &&& fits_i32(self.options.pixel_size.x * t.scaling.x)
        &&& fits_i32(self.options.pixel_size.y * t.scaling.y)
    }

    open spec fn transforms_to(&self, t: &Transform2D, image: &LineCommand) -> bool {
        *image == self.transformed(t)
    }

    fn transform(&mut self, transform: &Transform2D) {
        self.line.transform(transform);
        self.options.pixel_size.transform(&transform.scaling_part());
    }
}


/// The rounding that `minor_progress` does, told by its bounds: the one
/// whole number `j` with `j - 1/2 < k * minor / major <= j + 1/2`.
pub proof fn lemma_minor_progress_is(k: int, minor: int, major: int, j: int)
    requires
        major > 0,
        (2 * j - 1) * major < 2 * (k * minor) <= (2 * j + 1) * major,
    ensures
        minor_progress(k, minor, major) == j,
{
    let n = 2 * (k * minor) + major - 1;
    let r = n - j * (2 * major);
    assert((2 * j - 1) * major == j * (2 * major) - major && (2 * j + 1) * major == j * (2
        * major) + major) by (nonlinear_arith);
    vstd::arithmetic::div_mod::lemma_fundamental_div_mod_converse(n, 2 * major, j, r);
}

/// The bounds that `minor_progress` keeps: its result `j` is the one whole
/// number with `j - 1/2 < k * minor / major <= j + 1/2`, and the upper
/// bound is met only where the quotient lies halfway between two.
pub proof fn lemma_minor_progress_bounds(k: int, minor: int, major: int)
    requires
        major > 0,
    ensures
        (2 * minor_progress(k, minor, major) - 1) * major < 2 * (k * minor) <= (2 * minor_progress(
            k,
            minor,
            major,
        ) + 1) * major,
        2 * (k * minor) == (2 * minor_progress(k, minor, major) + 1) * major ==> halfway(
            k * minor,
            major,
        ),
{
    let n = 2 * (k * minor) + major - 1;
    let j = minor_progress(k, minor, major);
    vstd::arithmetic::div_mod::lemma_fundamental_div_mod(n, 2 * major);
    vstd::arithmetic::div_mod::lemma_mod_bound(n, 2 * major);
    let r = n % (2 * major);
    assert((2 * major) * j == j * (2 * major)) by (nonlinear_arith);
    assert((2 * j - 1) * major == j * (2 * major) - major && (2 * j + 1) * major == j * (2
        * major) + major) by (nonlinear_arith);
    if 2 * (k * minor) == (2 * j + 1) * major {
        vstd::arithmetic::div_mod::lemma_fundamental_div_mod_converse(
            2 * (k * minor),
            2 * major,
            j,
            major,
        );
    }
}

/// The walk starts at its first point and ends at its second.
pub proof fn lemma_walk_visits_endpoints(path: Path)
    ensures
        path.steps() >= 0,
        path.point(0) == (path.x1, path.y1),
        path.point(path.steps()) == (path.x2, path.y2),
        path.covers(path.x1, path.y1),
        path.covers(path.x2, path.y2),
{
    let major = path.steps();
    let minor = path.minor();
    if major > 0 {
        assert(0 * minor == 0 && (2 * 0 - 1) * major < 0 && (2 * 0 + 1) * major > 0)
            by (nonlinear_arith)
            requires
                major > 0,
        ;
        lemma_minor_progress_is(0, minor, major, 0);
        assert((2 * minor - 1) * major < 2 * (major * minor) <= (2 * minor + 1) * major)
            by (nonlinear_arith)
            requires
                major > 0,
        ;
        lemma_minor_progress_is(major, minor, major, minor);
    }
    assert(0 <= 0 < path.steps() + 1 && path.point(0) == (path.x1, path.y1));
    assert(0 <= path.steps() < path.steps() + 1 && path.point(path.steps()) == (path.x2, path.y2));
}

/// No two steps of the walk reach the same pixel.
pub proof fn lemma_walk_points_distinct(path: Path, a: int, b: int)
    requires
        a != b,
    ensures
        path.point(a) != path.point(b),
{
}

/// The walk visits exactly `max(|dx|, |dy|) + 1` pixels.
pub proof fn lemma_walk_pixel_count(path: Path)
    ensures
        path.pixels().finite(),
        path.pixels().len() == path.steps() + 1,
{
    let steps = vstd::set_lib::set_int_range(0, path.steps() + 1);
    let at = |k: int| path.point(k);
    vstd::set_lib::lemma_int_range(0, path.steps() + 1);
    assert forall|a: int, b: int| a != b implies #[trigger] at(a) != #[trigger] at(b) by {
        lemma_walk_points_distinct(path, a, b);
    }
    assert(vstd::relations::injective_on(at, steps));
    assert forall|p: (int, int)| steps.map(at).contains(p) <==> path.pixels().contains(p) by {
        if steps.map(at).contains(p) {
            let k = choose|k: int| steps.contains(k) && at(k) == p;
            assert(0 <= k < path.steps() + 1 && path.point(k) == (p.0, p.1));
        }
        if path.pixels().contains(p) {
            let k = choose|k: int| 0 <= k < path.steps() + 1 && #[trigger] path.point(k) == (
                p.0,
                p.1,
            );
            assert(steps.contains(k) && at(k) == p);
        }
    }
    assert(steps.map(at) =~= path.pixels());
    vstd::set_lib::lemma_map_size(steps, path.pixels(), at);
}

/// Where no step is a tie, the walk from the other end passes the same
/// points in the opposite order.
pub proof fn lemma_reversed_walk_point(path: Path, k: int)
    requires
        0 <= k <= path.steps(),
        !path.has_tie(),
    ensures
        path.reversed().steps() == path.steps(),
        path.reversed().point(k) == path.point(path.steps() - k),
{
    let major = path.steps();
    let minor = path.minor();
    let back = path.reversed();
    assert(back.dx() == path.dx() && back.dy() == path.dy());
    if major > 0 {
        let there = minor_progress(major - k, minor, major);
        lemma_minor_progress_bounds(major - k, minor, major);
        assert((major - k) * minor == major * minor - k * minor) by (nonlinear_arith);
        assert((2 * (minor - there) - 1) * major == 2 * (major * minor) - (2 * there + 1) * major
            && (2 * (minor - there) + 1) * major == 2 * (major * minor) - (2 * there - 1) * major)
            by (nonlinear_arith);
        if 0 < k < major {
            assert(0 < major - k < major);
            assert(!halfway((major - k) * minor, major));
        } else if k == 0 {
            assert((2 * minor - 1) * major < 2 * (major * minor) <= (2 * minor + 1) * major)
                by (nonlinear_arith)
                requires
                    major > 0,
            ;
            lemma_minor_progress_is(major, minor, major, minor);
        } else {
            assert(0 * minor == 0 && (2 * 0 - 1) * major < 0 && (2 * 0 + 1) * major > 0)
                by (nonlinear_arith)
                requires
                    major > 0,
            ;
            lemma_minor_progress_is(0, minor, major, 0);
        }
        lemma_minor_progress_is(k, minor, major, minor - there);
    }
}

/// Where no step is a tie, the walks between two points visit the same
/// pixels in both directions.
pub proof fn lemma_walk_symmetric(path: Path, x: int, y: int)
    requires
        !path.has_tie(),
    ensures
        path.covers(x, y) <==> path.reversed().covers(x, y),
{
    let back = path.reversed();
    assert(back.dx() == path.dx() && back.dy() == path.dy());
    assert(back.steps() == path.steps() && back.minor() == path.minor());
    assert(!back.has_tie()) by {
        if back.has_tie() {
            let k = choose|k: int|
                0 < k < back.steps() && #[trigger] halfway(k * back.minor(), back.steps());
            assert(0 < k < path.steps() && halfway(k * path.minor(), path.steps()));
        }
    }
    assert(back.reversed() == path);
    if path.covers(x, y) {
        let k = choose|k: int| 0 <= k < path.steps() + 1 && #[trigger] path.point(k) == (x, y);
        lemma_reversed_walk_point(path, path.steps() - k);
        assert(0 <= path.steps() - k < back.steps() + 1 && back.point(path.steps() - k) == (x, y));
    }
    if back.covers(x, y) {
        let k = choose|k: int| 0 <= k < back.steps() + 1 && #[trigger] back.point(k) == (x, y);
        lemma_reversed_walk_point(back, back.steps() - k);
        assert(0 <= back.steps() - k < path.steps() + 1 && path.point(back.steps() - k) == (x, y));
    }
}

/// At a tie the two directions part: the walk from the other end visits
/// a pixel at that step that the walk itself never visits.
pub proof fn lemma_tie_breaks_symmetry(path: Path, k: int)
    requires
        0 < k < path.steps(),
        halfway(k * path.minor(), path.steps()),
    ensures
        !path.covers(
            path.reversed().point(path.steps() - k).0,
            path.reversed().point(path.steps() - k).1,
        ),
        path.reversed().covers(
            path.reversed().point(path.steps() - k).0,
            path.reversed().point(path.steps() - k).1,
        ),
{
    let major = path.steps();
    let minor = path.minor();
    let back = path.reversed();
    assert(back.dx() == path.dx() && back.dy() == path.dy());
    let p = back.point(major - k);
    assert(0 <= major - k < back.steps() + 1 && back.point(major - k) == (p.0, p.1));
    let here = minor_progress(k, minor, major);
    let there = minor_progress(major - k, minor, major);
    lemma_minor_progress_bounds(k, minor, major);
    lemma_minor_progress_bounds(major - k, minor, major);
    vstd::arithmetic::div_mod::lemma_fundamental_div_mod(2 * (k * minor), 2 * major);
    let q = (2 * (k * minor)) / (2 * major);
    assert((2 * major) * q == q * (2 * major)) by (nonlinear_arith);
    assert((2 * q + 1) * major == q * (2 * major) + major) by (nonlinear_arith);
    assert((2 * here - 1) * major == here * (2 * major) - major && (2 * here + 1) * major == here
        * (2 * major) + major) by (nonlinear_arith);
    // The quotient is q + 1/2, and the walk rounds it down to q.
    assert(here == q) by (nonlinear_arith)
        requires
            major > 0,
            2 * (k * minor) == (2 * q + 1) * major,
            (2 * here - 1) * major < 2 * (k * minor) <= (2 * here + 1) * major,
    ;
    assert((major - k) * minor == major * minor - k * minor) by (nonlinear_arith);
    // From the other end the quotient is minor - q - 1/2, rounded down too.
    assert(there == minor - q - 1) by (nonlinear_arith)
        requires
            major > 0,
            2 * (k * minor) == (2 * q + 1) * major,
            (major - k) * minor == major * minor - k * minor,
            (2 * there - 1) * major < 2 * ((major - k) * minor) <= (2 * there + 1) * major,
    ;
    if path.covers(p.0, p.1) {
        let w = choose|w: int| 0 <= w < path.steps() + 1 && #[trigger] path.point(w) == (p.0, p.1);
        assert(w == k);
        assert(false);
    }
}

/// What a canvas shows after a line has been drawn: the color of the
/// line on the pixels of its walk, and what was there before everywhere
/// else.
pub proof fn lemma_rendered_pixel(command: LineCommand, before: CanvasState, x: int, y: int)
    requires
        before.wf(),
        before.in_bounds(x, y),
    ensures
        command.rendered(before).pixel(x, y) == (if command.path().covers(x, y) {
            Some(command.options.color)
        } else {
            before.pixel(x, y)
        }),
        command.rendered(before).markers == before.markers,
        command.rendered(before).view == before.view,
{
    crate::canvas::state::lemma_painted_pixel(before, command.path().region(), command.options.color, x, y);
}

/// A drawn line shows its color at both of its ends, where the canvas has
/// them.
pub proof fn lemma_rendered_ends(command: LineCommand, before: CanvasState)
    requires
        before.wf(),
    ensures
        before.in_bounds(command.path().x1, command.path().y1) ==> command.rendered(before).pixel(
            command.path().x1,
            command.path().y1,
        ) == Some(command.options.color),
        before.in_bounds(command.path().x2, command.path().y2) ==> command.rendered(before).pixel(
            command.path().x2,
            command.path().y2,
        ) == Some(command.options.color),
{
    let path = command.path();
    lemma_walk_visits_endpoints(path);
    if before.in_bounds(path.x1, path.y1) {
        lemma_rendered_pixel(command, before, path.x1, path.y1);
    }
    if before.in_bounds(path.x2, path.y2) {
        lemma_rendered_pixel(command, before, path.x2, path.y2);
    }
}

/// The walk adds its `n`-th point to the first `n`.
proof fn lemma_covers_one_more(path: Path, n: int, x: int, y: int)
    requires
        0 <= n,
    ensures
        path.covers_first(n + 1, x, y) <==> path.covers_first(n, x, y) || path.point(n) == (x, y),
{
    if path.covers_first(n + 1, x, y) {
        let k = choose|k: int| 0 <= k < n + 1 && #[trigger] path.point(k) == (x, y);
        if k < n {
            assert(path.covers_first(n, x, y));
        }
    }
    if path.covers_first(n, x, y) {
        let k = choose|k: int| 0 <= k < n && #[trigger] path.point(k) == (x, y);
        assert(0 <= k < n + 1 && path.point(k) == (x, y));
    }
    if path.point(n) == (x, y) {
        assert(0 <= n < n + 1 && path.point(n) == (x, y));
    }
}

impl Command for LineCommand {
    open spec fn renderable(&self) -> bool {
        true
    }

    open spec fn rendered(&self, before: CanvasState) -> CanvasState {
        before.painted(self.path().region(), self.options.color)
    }

    proof fn lemma_rendered_keeps_frame(&self, before: CanvasState) {
    }

    /// Walks from the first endpoint to the second, both shifted by half
    /// the cell size, and sets every pixel on the way that the canvas has.
    fn render_canvas(&mut self, canvas: &mut CanvasImpl)
        ensures
            *final(self) == *old(self),
    {
        let color = self.options.color;
        let shift_x: i64 = half_of(self.options.pixel_size.x);
        let shift_y: i64 = half_of(self.options.pixel_size.y);
        let x1: i64 = self.line.start.x as i64 + shift_x;
        let y1: i64 = self.line.start.y as i64 + shift_y;
        let x2: i64 = self.line.end.x as i64 + shift_x;
        let y2: i64 = self.line.end.y as i64 + shift_y;

        let dx: i64 = if x1 <= x2 { x2 - x1 } else { x1 - x2 };
        let dy: i64 = if y1 <= y2 { y2 - y1 } else { y1 - y2 };
        let sx: i64 = if x1 < x2 { 1 } else { -1 };
        let sy: i64 = if y1 < y2 { 1 } else { -1 };
        let mut err: i64 = dx - dy;

        let mut x: i64 = x1;
        let mut y: i64 = y1;

        let ghost path = self.path();
        let ghost before = canvas@;
        let ghost mut k: int = 0;
        let ghost mut i: int = 0;
        let ghost mut j: int = 0;
        let ghost mut idy: int = 0;
        let ghost mut jdx: int = 0;
        proof {
            assert(path.x1 == x1 && path.y1 == y1 && path.x2 == x2 && path.y2 == y2);
            assert(0 * dy == 0 && 0 * dx == 0) by (nonlinear_arith);
            if dx >= dy && dx > 0 {
                lemma_minor_progress_is(0, dy as int, dx as int, 0);
            }
            if dx < dy {
                lemma_minor_progress_is(0, dx as int, dy as int, 0);
            }
            crate::canvas::state::lemma_paint_nothing(before, path.region_first(0), color);
        }

        loop
            invariant_except_break
                canvas@ == before.painted(path.region_first(k), color),
                0 <= k <= path.steps(),
            invariant
                canvas.wf(),
                before.wf(),
                path == (Path { x1: x1 as int, y1: y1 as int, x2: x2 as int, y2: y2 as int }),
                -0x1_0000_0000 <= x1 <= 0x1_0000_0000,
                -0x1_0000_0000 <= y1 <= 0x1_0000_0000,
                -0x1_0000_0000 <= x2 <= 0x1_0000_0000,
                -0x1_0000_0000 <= y2 <= 0x1_0000_0000,
                dx == path.dx(),
                dy == path.dy(),
                sx == (if x1 < x2 { 1i64 } else { -1i64 }),
                sy == (if y1 < y2 { 1i64 } else { -1i64 }),
                0 <= i <= dx,
                0 <= j <= dy,
                x == advance(x1 as int, x2 as int, i),
                y == advance(y1 as int, y2 as int, j),
                idy == i * dy,
                jdx == j * dx,
                err == jdx + dx - idy - dy,
                (x as int, y as int) == path.point(k),
                dx >= dy ==> k == i && 2 * jdx - dx <= 2 * idy <= 2 * jdx + dx,
                dx >= dy && dx > 0 ==> 2 * jdx - dx < 2 * idy,
                dx == dy ==> i == j,
                dx < dy ==> k == j && 2 * idy - dy < 2 * jdx <= 2 * idy + dy,
            ensures
                canvas@ == before.painted(path.region_first(path.steps() + 1), color),
            decreases path.steps() - k,
        {
            let ghost painted_so_far = canvas@;
            plot(canvas, x, y, color);
            proof {
                assert forall|a: int, b: int| before.in_bounds(a, b) implies (
                #[trigger] path.region_first(k + 1)(a, b) <==> path.region_first(k)(a, b) || (a
                    == x && b == y)) by {
                    lemma_covers_one_more(path, k, a, b);
                }
                crate::canvas::state::lemma_paint_one_more(
                    before,
                    path.region_first(k),
                    path.region_first(k + 1),
                    color,
                    x as int,
                    y as int,
                );
            }
            assert(canvas@ == before.painted(path.region_first(k + 1), color));

            if x == x2 && y == y2 {
                proof {
                    // The walk has arrived: it has taken all its steps.
                    if dx >= dy {
                        assert(i == dx);
                    } else {
                        assert(j == dy);
                    }
                }
                break ;
            }
            proof {
                if dx >= dy {
                    // Along the longer axis the walk is not there yet.
                    if i == dx {
                        assert(dx > 0);
                        assert(idy == dx * dy);
                        assert(j == dy) by (nonlinear_arith)
                            requires
                                dx > 0,
                                jdx == j * dx,
                                idy == dx * dy,
                                2 * jdx - dx < 2 * idy <= 2 * jdx + dx,
                        ;
                        assert(false);
                    }
                } else {
                    if j == dy {
                        assert(jdx == dy * dx);
                        assert(i == dx) by (nonlinear_arith)
                            requires
                                dy > 0,
                                idy == i * dy,
                                jdx == dy * dx,
                                2 * idy - dy < 2 * jdx <= 2 * idy + dy,
                        ;
                        assert(false);
                    }
                }
            }

            let e2: i64 = 2 * err;
            if e2 > -dy {
                err -= dy;
                x += sx;
                proof {
                    assert((i + 1) * dy == i * dy + dy) by (nonlinear_arith);
                    if dx < dy {
                        assert(i < dx) by (nonlinear_arith)
                            requires
                                0 <= i <= dx,
                                0 <= j < dy,
                                0 <= dx < dy,
                                idy == i * dy,
                                jdx == j * dx,
                                2 * jdx + 2 * dx > 2 * idy + dy,
                        ;
                    }
                    i = i + 1;
                    idy = idy + dy;
                }
            }
            if e2 < dx {
                err += dx;
                y += sy;
                proof {
                    assert((j + 1) * dx == j * dx + dx) by (nonlinear_arith);
                    if dx >= dy {
                        assert(j < dy) by (nonlinear_arith)
                            requires
                                0 <= j <= dy,
                                0 < i <= dx,
                                0 <= dy <= dx,
                                idy == i * dy,
                                jdx == j * dx,
                                2 * jdx + dx < 2 * idy,
                        ;
                    }
                    j = j + 1;
                    jdx = jdx + dx;
                }
            }
            proof {
                k = k + 1;
                if dx >= dy {
                    assert((2 * j - 1) * dx == 2 * jdx - dx && (2 * j + 1) * dx == 2 * jdx + dx)
                        by (nonlinear_arith)
                        requires
                            jdx == j * dx,
                    ;
                    lemma_minor_progress_is(k, dy as int, dx as int, j);
                } else {
                    assert((2 * i - 1) * dy == 2 * idy - dy && (2 * i + 1) * dy == 2 * idy + dy)
                        by (nonlinear_arith)
                        requires
                            idy == i * dy,
                    ;
                    lemma_minor_progress_is(k, dx as int, dy as int, i);
                }
            }
        }
    }
}

impl CloneCommand for LineCommand {
    open spec fn as_marker(&self) -> Marker {
        Marker::Line(*self)
    }

    fn box_clone(&self) -> (marker: Marker) {
        Marker::Line(*self)
    }

    proof fn lemma_marker_renders_alike(&self, before: CanvasState) {
    }

    proof fn lemma_marker_transformable(&self, t: &Transform2D) {
    }

    proof fn lemma_marker_moves_alike(&self, t: &Transform2D, image: &LineCommand) {
    }
}

impl DrawCommand for Line {
    type Options = LineOptions;

    type Command = LineCommand;

    open spec fn drawable(&self, options: &LineOptions) -> bool {
        true
    }

    open spec fn builds(&self, options: &LineOptions, command: &LineCommand) -> bool {
        *command == (LineCommand { line: *self, options: *options })
    }

    fn into_renderable(self, options: LineOptions) -> (command: LineCommand) {
        LineCommand { line: self, options }
    }
}

impl From<Color> for LineOptions {
    /// A line of the given color, through the corners of its cells.
    fn from(color: Color) -> (options: LineOptions) {
        LineOptions { color, pixel_size: Vec2 { x: 0, y: 0 } }
    }
}

impl vstd::std_specs::convert::FromSpecImpl<Color> for LineOptions {
    open spec fn obeys_from_spec() -> bool {
        true
    }

    open spec fn from_spec(color: Color) -> LineOptions {
        LineOptions { color, pixel_size: Vec2 { x: 0, y: 0 } }
    }
}

impl From<u32> for LineOptions {
    /// A line of the color with the given packed value, through the
    /// corners of its cells.
    fn from(color: u32) -> (options: LineOptions) {
        LineOptions { color: Color(color), pixel_size: Vec2 { x: 0, y: 0 } }
    }
}

impl vstd::std_specs::convert::FromSpecImpl<u32> for LineOptions {
    open spec fn obeys_from_spec() -> bool {
        true
    }

    open spec fn from_spec(color: u32) -> LineOptions {
        LineOptions { color: Color(color), pixel_size: Vec2 { x: 0, y: 0 } }
    }
}

/// Choosing how a line meets its cells.
pub trait LineOption: Sized {
    /// The options that `self` stands for.
    spec fn options(self) -> LineOptions;

    /// The same line through the middle of its cells: the cell size
    /// becomes one in both directions.
    fn middle(self) -> (options: LineOptions)
        ensures
            options == (LineOptions { color: self.options().color, pixel_size: Vec2 { x: 1, y: 1 } }),
    ;
}

impl LineOption for LineOptions {
    open spec fn options(self) -> LineOptions {
        self
    }

    fn middle(self) -> (options: LineOptions) {
        LineOptions { color: self.color, pixel_size: Vec2 { x: 1, y: 1 } }
    }
}

impl LineOption for Color {
    open spec fn options(self) -> LineOptions {
        LineOptions { color: self, pixel_size: Vec2 { x: 0, y: 0 } }
    }

    fn middle(self) -> (options: LineOptions) {
        LineOptions { color: self, pixel_size: Vec2 { x: 1, y: 1 } }
    }
}

impl LineOption for u32 {
    open spec fn options(self) -> LineOptions {
        LineOptions { color: Color(self), pixel_size: Vec2 { x: 0, y: 0 } }
    }

    fn middle(self) -> (options: LineOptions) {
        LineOptions { color: Color(self), pixel_size: Vec2 { x: 1, y: 1 } }
    }
}

/// Half of `v`, rounded toward zero.
fn half_of(v: i32) -> (h: i64)
    ensures
        h == half(v as int),
{
    if v >= 0 {
        (v / 2) as i64
    } else {
        -(((-(v as i64)) / 2))
    }
}

} // verus!
