use frender::math::numeric::{One, Zero};
use frender::math::shapes::circle::Circle;
use frender::math::shapes::line::Line;
use frender::math::shapes::rect::Rect;
use frender::math::shapes::triangle::Triangle;
use frender::math::transform::{Transform, Transform2D, Transformer};
use frender::math::vector::{scaled, Vec2};

#[test]
fn vector_accessors() {
    let mut v = Vec2::new(3, -4);
    assert_eq!(*v.x(), 3);
    assert_eq!(*v.y(), -4);
    assert_eq!(v.as_tuple(), (&3, &-4));
    assert_eq!(v.to_tuple(), (3, -4));
    v.set_x(7);
    v.set_y(9);
    assert_eq!(v, Vec2::new(7, 9));
    *v.x_mut() += 1;
    *v.y_mut() -= 1;
    assert_eq!(v, Vec2::new(8, 8));
}

#[test]
fn vector_arithmetic_is_per_component() {
    let a = Vec2::new(2, 3);
    let b = Vec2::new(5, -7);
    assert_eq!(a + b, Vec2::new(7, -4));
    assert_eq!(a - b, Vec2::new(-3, 10));
    assert_eq!(a * b, Vec2::new(10, -21));
}

#[test]
fn identities_of_numbers_and_vectors() {
    assert_eq!(i32::zero(), 0);
    assert_eq!(i32::one(), 1);
    assert!(0u8.is_zero());
    assert!(!1u8.is_zero());
    assert!(1i64.is_one());
    assert!(!2i64.is_one());
    assert_eq!(Vec2::zero(), Vec2::new(0, 0));
    assert_eq!(Vec2::one(), Vec2::new(1, 1));
    assert_eq!(Vec2::default(), Vec2::new(0, 0));
    assert!(Vec2::new(0, 0).is_zero());
    assert!(!Vec2::new(0, 1).is_zero());
    assert!(Vec2::new(1, 1).is_one());
    assert!(!Vec2::new(1, 0).is_one());
    let mut n = 5i32;
    n.set_zero();
    assert_eq!(n, 0);
    n.set_one();
    assert_eq!(n, 1);
    let mut v = Vec2::new(4, 4);
    v.set_one();
    assert_eq!(v, Vec2::new(1, 1));
    v.set_zero();
    assert_eq!(v, Vec2::new(0, 0));
}

#[test]
fn transform_scales_then_translates() {
    let t = Transform2D::new(Vec2::new(10, 20), Vec2::new(2, 3));
    let mut v = Vec2::new(4, 5);
    v.transform(&t);
    assert_eq!(v, Vec2::new(4 * 2 + 10, 5 * 3 + 20));
    let mut w = Vec2::new(-1, 0);
    t.transform_vec(&mut w);
    assert_eq!(w, Vec2::new(8, 20));
    assert!(t.is_axis_aligned());
}

#[test]
fn transform_constructors_and_accessors() {
    let t = Transform2D::new(Vec2::new(1, 2), Vec2::new(3, 4));
    assert_eq!(t.translation(), Vec2::new(1, 2));
    assert_eq!(t.scaling(), Vec2::new(3, 4));
    assert_eq!(Transformer::scaling(&t), Vec2::new(3, 4));
    assert_eq!(Transformer::translation(&t), Vec2::new(1, 2));
    let s = Transform2D::new_scaling(Vec2::new(5, 6));
    assert_eq!(s.translation(), Vec2::new(0, 0));
    assert_eq!(s.scaling(), Vec2::new(5, 6));
    let m = Transform2D::new_translation(Vec2::new(7, 8));
    assert_eq!(m.translation(), Vec2::new(7, 8));
    assert_eq!(m.scaling(), Vec2::new(1, 1));
    assert_eq!(Transform2D::identity(), Transform2D::new(Vec2::new(0, 0), Vec2::new(1, 1)));
    assert_eq!(Transform2D::default(), Transform2D::identity());
    let mut u = t;
    *u.translation_mut() = Vec2::new(9, 9);
    *u.scaling_mut() = Vec2::new(2, 2);
    assert_eq!(u, Transform2D::new(Vec2::new(9, 9), Vec2::new(2, 2)));
}

#[test]
fn identity_moves_nothing() {
    let mut v = Vec2::new(-13, 42);
    v.transform(&Transform2D::identity());
    assert_eq!(v, Vec2::new(-13, 42));
}

#[test]
fn transform_parts() {
    let t = Transform2D::new(Vec2::new(10, 20), Vec2::new(2, 3));
    assert_eq!(t.scaling_part(), Transform2D::new(Vec2::new(0, 0), Vec2::new(2, 3)));
    assert_eq!(t.translation_part(), Transform2D::new(Vec2::new(10, 20), Vec2::new(1, 1)));
    assert_eq!(t.scaling_part().compose(&t.translation_part()), t);
}

#[test]
fn composing_is_applying_in_turn() {
    let a = Transform2D::new(Vec2::new(3, -2), Vec2::new(2, 5));
    let b = Transform2D::new(Vec2::new(-7, 11), Vec2::new(3, 2));
    let c = a.compose(&b);
    assert_eq!(c, Transform2D::new(Vec2::new(3 * 3 - 7, -2 * 2 + 11), Vec2::new(6, 10)));
    for (x, y) in [(0, 0), (1, 1), (-4, 9), (100, -100)] {
        let mut twice = Vec2::new(x, y);
        twice.transform(&a);
        twice.transform(&b);
        let mut once = Vec2::new(x, y);
        once.transform(&c);
        assert_eq!(twice, once);
    }
}

#[test]
fn composing_is_associative() {
    let a = Transform2D::new(Vec2::new(1, 2), Vec2::new(2, 3));
    let b = Transform2D::new(Vec2::new(-3, 4), Vec2::new(4, 1));
    let c = Transform2D::new(Vec2::new(5, -6), Vec2::new(1, 2));
    assert_eq!(a.compose(&b).compose(&c), a.compose(&b.compose(&c)));
    assert_eq!(a.compose(&Transform2D::identity()), a);
    assert_eq!(Transform2D::identity().compose(&a), a);
}

#[test]
fn line_accessors() {
    let mut line = Line::new(1, 2, 3, 4);
    assert_eq!(line, Line::new_vec(Vec2::new(1, 2), Vec2::new(3, 4)));
    assert_eq!(line, Line::new_slice([Vec2::new(1, 2), Vec2::new(3, 4)]));
    assert_eq!(*line.start(), Vec2::new(1, 2));
    assert_eq!(*line.end(), Vec2::new(3, 4));
    assert_eq!(line.as_tuple(), ((&1, &2), (&3, &4)));
    assert_eq!(line.to_tuple(), ((1, 2), (3, 4)));
    line.set_start(Vec2::new(5, 6));
    line.set_end(Vec2::new(7, 8));
    assert_eq!(line, Line::new(5, 6, 7, 8));
    line.start_mut().set_x(0);
    *line.end_mut() = Vec2::new(9, 9);
    assert_eq!(line, Line::new(0, 6, 9, 9));
}

#[test]
fn rect_edges() {
    let rect = Rect::new(2, 3, 10, 20);
    assert_eq!(rect, Rect::new_vec(Vec2::new(2, 3), Vec2::new(10, 20)));
    assert_eq!(rect.x1(), 2);
    assert_eq!(rect.x2(), 12);
    assert_eq!(rect.y1(), 3);
    assert_eq!(rect.y2(), 23);
}

#[test]
fn circle_accessors() {
    let circle = Circle::new(4, 5, 6);
    assert_eq!(*circle.center(), Vec2::new(4, 5));
    assert_eq!(circle.radius(), 6);
}

#[test]
fn shapes_move_positions_fully_and_sizes_by_scaling_alone() {
    let t = Transform2D::new(Vec2::new(100, 200), Vec2::new(2, 3));

    let mut line = Line::new(1, 2, 3, 4);
    line.transform(&t);
    assert_eq!(line, Line::new(102, 206, 106, 212));

    let mut rect = Rect::new(1, 2, 10, 20);
    rect.transform(&t);
    assert_eq!(rect, Rect::new(102, 206, 20, 60));

    let mut circle = Circle::new(1, 2, 5);
    circle.transform(&t);
    assert_eq!(circle, Circle::new(102, 206, 10));

    let mut triangle = Triangle::new(Vec2::new(0, 0), Vec2::new(1, 0), Vec2::new(0, 1));
    triangle.transform(&t);
    assert_eq!(
        triangle,
        Triangle::new(Vec2::new(100, 200), Vec2::new(102, 200), Vec2::new(100, 203))
    );
}

#[test]
fn scaled_is_the_product_where_it_fits() {
    assert_eq!(scaled(3, 4), Some(12));
    assert_eq!(scaled(-7, 6), Some(-42));
    assert_eq!(scaled(0, i32::MIN), Some(0));
    assert_eq!(scaled(i32::MIN, 1), Some(i32::MIN));
    assert_eq!(scaled(i32::MAX, 1), Some(i32::MAX));
    assert_eq!(scaled(1 << 16, 1 << 14), Some(1 << 30));
    assert_eq!(scaled(1 << 16, 1 << 15), None);
    assert_eq!(scaled(i32::MAX, 2), None);
    assert_eq!(scaled(i32::MIN, -1), None);
    assert_eq!(scaled(i32::MIN, i32::MIN), None);
    assert_eq!(scaled(-(1 << 16), 1 << 15), Some(i32::MIN));
}

#[test]
fn vectors_and_shapes_shift_and_scale() {
    let mut v = Vec2::new(3, -4);
    v.translate(Vec2::new(10, 20));
    assert_eq!(v, Vec2::new(13, 16));
    v.scale(Vec2::new(2, -3));
    assert_eq!(v, Vec2::new(26, -48));

    let mut line = Line::new(1, 2, 3, 4);
    line.translate(&Vec2::new(1, 1));
    assert_eq!(line, Line::new(2, 3, 4, 5));
    line.scale(&Vec2::new(10, 100));
    assert_eq!(line, Line::new(20, 300, 40, 500));

    let mut rect = Rect::new(1, 2, 3, 4);
    rect.translate(Vec2::new(5, 5));
    assert_eq!(rect, Rect::new(6, 7, 3, 4));
    rect.scale(Vec2::new(2, 3));
    assert_eq!(rect, Rect::new(12, 21, 6, 12));
}

#[test]
fn vector_times_transform_is_its_image() {
    let t = Transform2D::new(Vec2::new(10, 20), Vec2::new(2, 3));
    assert_eq!(Vec2::new(4, 5) * t, Vec2::new(18, 35));
    assert_eq!(Vec2::new(4, 5) * Transform2D::identity(), Vec2::new(4, 5));
}
