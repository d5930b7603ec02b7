use graphics::geometry::{
    identity, line_tri_list_xy, margin_rectangle, rect_tri_list_uv, rect_tri_list_xy, relative_rectangle,
    transform_point, tri_list_rgba, Color, Image, Line, Matrix2d, Rectangle, ONE,
};

#[test]
fn identity_is_one_on_the_diagonal() {
    assert_eq!(identity(), Matrix2d { m00: ONE, m01: 0, m02: 0, m10: 0, m11: ONE, m12: 0 });
}

#[test]
fn transform_point_scales_and_translates() {
    let m = Matrix2d { m00: 2 * ONE, m01: ONE / 2, m02: 3, m10: 0, m11: -ONE, m12: -7 };
    assert_eq!(transform_point(&m, 10, 4), (20 + 2 + 3, -4 - 7));
}

#[test]
fn transform_point_rounds_toward_zero() {
    let m = Matrix2d { m00: ONE / 2, m01: 0, m02: 0, m10: 0, m11: ONE / 2, m12: 0 };
    assert_eq!(transform_point(&m, 3, -3), (1, -1));
}

#[test]
fn rectangle_positions_under_identity() {
    let r = Rectangle { x: 1, y: 2, w: 10, h: 20 };
    assert_eq!(rect_tri_list_xy(&identity(), &r), vec![1, 2, 11, 2, 1, 22, 11, 2, 11, 22, 1, 22]);
}

#[test]
fn rectangle_texture_coordinates() {
    let img = Image { texture_id: 1, texture_width: 4, texture_height: 2, src_x: 1, src_y: 0, src_w: 2, src_h: 1 };
    let (q, h) = (ONE as i64 / 4, ONE as i64 / 2);
    assert_eq!(rect_tri_list_uv(&img), vec![q, 0, 3 * q, 0, q, h, 3 * q, 0, 3 * q, h, q, h]);
}

#[test]
fn color_repeated_per_vertex() {
    let c = Color { r: 1, g: 2, b: 3, a: 4 };
    assert_eq!(tri_list_rgba(&c, 2), vec![1, 2, 3, 4, 1, 2, 3, 4]);
    assert!(tri_list_rgba(&c, 0).is_empty());
}

#[test]
fn margin_shrinks_every_side() {
    let r = Rectangle { x: 0, y: 0, w: 100, h: 50 };
    assert_eq!(margin_rectangle(&r, 5), Rectangle { x: 5, y: 5, w: 90, h: 40 });
}

#[test]
fn relative_rectangle_keeps_the_size() {
    let r = Rectangle { x: 10, y: 10, w: 100, h: 50 };
    assert_eq!(relative_rectangle(&r, ONE, 2 * ONE), Rectangle { x: 110, y: 110, w: 100, h: 50 });
}

#[test]
fn band_round_a_horizontal_line() {
    let l = Line { x1: 0, y1: 0, x2: 10, y2: 0 };
    let p = line_tri_list_xy(&identity(), &l, 2);
    assert_eq!(p, vec![0, 2, 0, -2, 10, 2, 0, -2, 10, -2, 10, 2]);
}

#[test]
fn band_round_a_slanted_line_has_the_radius() {
    // A 3-4-5 line: the offset to the band's edge is (-4, 3).
    let l = Line { x1: 0, y1: 0, x2: 3 * ONE, y2: 4 * ONE };
    let p = line_tri_list_xy(&identity(), &l, 5 * ONE);
    let (nx, ny) = (-4 * ONE as i64, 3 * ONE as i64);
    let (x2, y2) = (3 * ONE as i64, 4 * ONE as i64);
    assert_eq!(p, vec![nx, ny, -nx, -ny, x2 + nx, y2 + ny, -nx, -ny, x2 - nx, y2 - ny, x2 + nx, y2 + ny]);
}

#[test]
fn band_round_a_point_is_the_point() {
    let l = Line { x1: 5, y1: 6, x2: 5, y2: 6 };
    assert_eq!(line_tri_list_xy(&identity(), &l, 3), vec![5, 6, 5, 6, 5, 6, 5, 6, 5, 6, 5, 6]);
}
