use pdf_render::fixed::{fx_add, fx_from_int, fx_mul, fx_percent, fx_sub, ONE};
use pdf_render::geometry::{Matrix, Point};
use pdf_render::text_state::{BBox, Bounds};

#[test]
fn fixed_arithmetic() {
    assert_eq!(fx_mul(3 * ONE, ONE / 2), 3 * ONE / 2);
    assert_eq!(fx_mul(-ONE, 1), -1);
    assert_eq!(fx_mul(i32::MAX, i32::MAX), i32::MAX);
    assert_eq!(fx_add(i32::MAX, 1), i32::MAX);
    assert_eq!(fx_sub(i32::MIN, 1), i32::MIN);
    assert_eq!(fx_from_int(-3), -3 * ONE);
    assert_eq!(fx_from_int(40000), i32::MAX);
    assert_eq!(fx_percent(100 * ONE), ONE);
}

#[test]
fn matrix_concat_applies_right_operand_first() {
    let scale = Matrix { a: 2 * ONE, b: 0, c: 0, d: 2 * ONE, e: 0, f: 0 };
    let shift = Matrix::translation(Point { x: ONE, y: 3 * ONE });
    assert_eq!(scale.concat(&shift), Matrix { a: 2 * ONE, b: 0, c: 0, d: 2 * ONE, e: 2 * ONE, f: 6 * ONE });
    assert_eq!(shift.concat(&scale), Matrix { a: 2 * ONE, b: 0, c: 0, d: 2 * ONE, e: ONE, f: 3 * ONE });
    assert_eq!(Matrix::identity().concat(&scale), scale);
}

#[test]
fn bbox_grows() {
    let mut b = BBox::empty();
    assert_eq!(b.rect(), None);
    b.add(Bounds { min_x: 0, min_y: 0, max_x: 5, max_y: 5 });
    b.add(Bounds { min_x: -2, min_y: 1, max_x: 3, max_y: 9 });
    assert_eq!(b.rect(), Some(Bounds { min_x: -2, min_y: 0, max_x: 5, max_y: 9 }));
    let mut c = BBox::empty();
    c.add_bbox(b);
    c.add_bbox(BBox::empty());
    assert_eq!(c, b);
}
