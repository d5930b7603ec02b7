//! Fixed-point 2D geometry: transforms, rectangles, lines, colors, images
//! and the triangle lists built from them.
//!
//! Scalars are signed 16.16 fixed-point numbers held in `i32`: the value
//! `ONE` stands for 1.0. Color channels are 8-bit: 0 is 0.0 and 255 is 1.0.
use vstd::arithmetic::div_mod::{lemma_div_by_multiple, lemma_div_is_ordered};
use vstd::prelude::*;

verus! {

/// The fixed-point representation of 1.0.
pub const ONE: i32 = 65536;

/// The largest color channel value, standing for full intensity (1.0).
pub const CHANNEL_MAX: u8 = 255;

/// A 2D affine transform, as the two rows of a 2x3 matrix
/// `[[m00, m01, m02], [m10, m11, m12]]`, in 16.16 fixed point.
#[derive(Clone, Copy, Debug, PartialEq, Eq, Structural)]
pub struct Matrix2d {
    pub m00: i32,
    pub m01: i32,
    pub m02: i32,
    pub m10: i32,
    pub m11: i32,
    pub m12: i32,
}

/// An axis-aligned rectangle: corner `(x, y)`, width `w` and height `h`.
#[derive(Clone, Copy, Debug, PartialEq, Eq, Structural)]
pub struct Rectangle {
    pub x: i32,
    pub y: i32,
    pub w: i32,
    pub h: i32,
}

/// A line segment from `(x1, y1)` to `(x2, y2)`.
#[derive(Clone, Copy, Debug, PartialEq, Eq, Structural)]
pub struct Line {
    pub x1: i32,
    pub y1: i32,
    pub x2: i32,
    pub y2: i32,
}

/// An RGBA color with 8-bit channels.
#[derive(Clone, Copy, Debug, PartialEq, Eq, Structural)]
pub struct Color {
    pub r: u8,
    pub g: u8,
    pub b: u8,
    pub a: u8,
}

/// A region of a texture: the texture's handle and size in texels, and the
/// source rectangle inside it.
#[derive(Clone, Copy, Debug, PartialEq, Eq, Structural)]
pub struct Image {
    pub texture_id: usize,
    pub texture_width: u32,
    pub texture_height: u32,
    pub src_x: u32,
    pub src_y: u32,
    pub src_w: u32,
    pub src_h: u32,
}

impl Image {
    /// A texture of zero width or height has no texture coordinates.
    pub open spec fn wf(&self) -> bool {
        self.texture_width > 0 && self.texture_height > 0
    }
}

/// Division rounding toward zero, as integer division does in Rust.
pub open spec fn trunc_div(n: int, d: int) -> int {
    if n >= 0 {
        n / d
    } else {
        -((-n) / d)
    }
}

/// The fixed-point value that fits in an `i32`.
pub open spec fn fits_i32(v: int) -> bool {
    i32::MIN <= v <= i32::MAX
}

/// The identity transform.
pub open spec fn identity_spec() -> Matrix2d {
    Matrix2d { m00: ONE, m01: 0, m02: 0, m10: 0, m11: ONE, m12: 0 }
}

/// The identity transform.
pub fn identity() -> (r: Matrix2d)
    ensures
        r == identity_spec(),
{
    Matrix2d { m00: ONE, m01: 0, m02: 0, m10: 0, m11: ONE, m12: 0 }
}

/// The x coordinate of the point `(x, y)` under `m`.
pub open spec fn transform_x(m: Matrix2d, x: int, y: int) -> int {
    trunc_div(m.m00 * x + m.m01 * y, ONE as int) + m.m02
}

/// The y coordinate of the point `(x, y)` under `m`.
pub open spec fn transform_y(m: Matrix2d, x: int, y: int) -> int {
    trunc_div(m.m10 * x + m.m11 * y, ONE as int) + m.m12
}

/// The coordinates that `transform_point` accepts: a corner of a rectangle
/// or of a stroked line always lies in this range.
pub open spec fn in_point_range(v: int) -> bool {
    -0x2_0000_0000 <= v <= 0x2_0000_0000
}

fn row_apply(a: i32, b: i32, c: i32, x: i64, y: i64) -> (r: i64)
    requires
        in_point_range(x as int),
        in_point_range(y as int),
    ensures
        r == trunc_div(a * x + b * y, ONE as int) + c,
{
    proof {
        assert(-0x1_0000_0000_0000_0000 <= a * x <= 0x1_0000_0000_0000_0000) by (nonlinear_arith)
            requires
                -0x8000_0000 <= a <= 0x8000_0000,
                -0x2_0000_0000 <= x <= 0x2_0000_0000,
        ;
        assert(-0x1_0000_0000_0000_0000 <= b * y <= 0x1_0000_0000_0000_0000) by (nonlinear_arith)
            requires
                -0x8000_0000 <= b <= 0x8000_0000,
                -0x2_0000_0000 <= y <= 0x2_0000_0000,
        ;
    }
    let p: i128 = (a as i128) * (x as i128);
    let q: i128 = (b as i128) * (y as i128);
    let s: i128 = p + q;
    let d: i128 = if s >= 0 {
        s / 65536
    } else {
        -((-s) / 65536)
    };
    assert(-0x2_0000_0000_0000 <= d <= 0x2_0000_0000_0000);
    (d + c as i128) as i64
}

/// Applies `m` to the point `(x, y)`.
pub fn transform_point(m: &Matrix2d, x: i64, y: i64) -> (r: (i64, i64))
    requires
        in_point_range(x as int),
        in_point_range(y as int),
    ensures
        r.0 == transform_x(*m, x as int, y as int),
        r.1 == transform_y(*m, x as int, y as int),
{
    (row_apply(m.m00, m.m01, m.m02, x, y), row_apply(m.m10, m.m11, m.m12, x, y))
}


/// The product of two fixed-point numbers, rounded toward zero.
pub open spec fn fixed_mul(a: int, b: int) -> int {
    trunc_div(a * b, ONE as int)
}

fn fixed_mul_exec(a: i32, b: i32) -> (r: i64)
    ensures
        r == fixed_mul(a as int, b as int),
        -0x4000_0000_0000 <= r <= 0x4000_0000_0000,
{
    proof {
        assert(-0x4000_0000_0000_0000 <= a * b <= 0x4000_0000_0000_0000) by (nonlinear_arith)
            requires
                -0x8000_0000 <= a <= 0x8000_0000,
                -0x8000_0000 <= b <= 0x8000_0000,
        ;
    }
    let p: i64 = (a as i64) * (b as i64);
    if p >= 0 {
        p / 65536
    } else {
        -((-p) / 65536)
    }
}

/// `r` shrunk on every side by the margin `m`. A margin larger than half
/// a side leaves that side with a negative size.
pub open spec fn margin_rectangle_spec(r: Rectangle, m: int) -> (int, int, int, int) {
    (r.x + m, r.y + m, r.w - 2 * m, r.h - 2 * m)
}

/// The rectangle `r` shrunk on every side by the margin `m`.
pub fn margin_rectangle(r: &Rectangle, m: i32) -> (res: Rectangle)
    requires
        fits_i32(margin_rectangle_spec(*r, m as int).0),
        fits_i32(margin_rectangle_spec(*r, m as int).1),
        fits_i32(margin_rectangle_spec(*r, m as int).2),
        fits_i32(margin_rectangle_spec(*r, m as int).3),
    ensures
        (res.x as int, res.y as int, res.w as int, res.h as int) == margin_rectangle_spec(
            *r,
            m as int,
        ),
{
    let m2: i64 = 2 * (m as i64);
    Rectangle {
        x: r.x + m,
        y: r.y + m,
        w: ((r.w as i64) - m2) as i32,
        h: ((r.h as i64) - m2) as i32,
    }
}

/// `r` moved by the fractions `x` of its width and `y` of its height.
pub open spec fn relative_rectangle_spec(r: Rectangle, x: int, y: int) -> (int, int, int, int) {
    (r.x + fixed_mul(x, r.w as int), r.y + fixed_mul(y, r.h as int), r.w as int, r.h as int)
}

/// The rectangle `r` moved by `x` times its width and `y` times its height.
pub fn relative_rectangle(r: &Rectangle, x: i32, y: i32) -> (res: Rectangle)
    requires
        fits_i32(relative_rectangle_spec(*r, x as int, y as int).0),
        fits_i32(relative_rectangle_spec(*r, x as int, y as int).1),
    ensures
        (res.x as int, res.y as int, res.w as int, res.h as int) == relative_rectangle_spec(
            *r,
            x as int,
            y as int,
        ),
{
    let dx = fixed_mul_exec(x, r.w);
    let dy = fixed_mul_exec(y, r.h);
    Rectangle { x: ((r.x as i64) + dx) as i32, y: ((r.y as i64) + dy) as i32, w: r.w, h: r.h }
}

/// The two coordinates of the point `(x, y)` under `m`.
pub open spec fn point_xy(m: Matrix2d, x: int, y: int) -> Seq<i64> {
    seq![transform_x(m, x, y) as i64, transform_y(m, x, y) as i64]
}

/// The two triangles `p[0] p[1] p[2]` and `p[1] p[3] p[2]` of the
/// quadrilateral whose corner `p[3]` is opposite `p[0]`, each corner given
/// by its two coordinates.
pub open spec fn two_triangles(p: Seq<Seq<i64>>) -> Seq<i64> {
    p[0] + p[1] + p[2] + p[1] + p[3] + p[2]
}

/// The vertex positions of `r` under `m`: the triangles
/// `(x1, y1) (x2, y1) (x1, y2)` and `(x2, y1) (x2, y2) (x1, y2)`,
/// where `(x2, y2)` is the corner opposite `(x1, y1)`.
pub open spec fn rect_tri_list_xy_spec(m: Matrix2d, r: Rectangle) -> Seq<i64> {
    let x1 = r.x as int;
    let y1 = r.y as int;
    let x2 = r.x + r.w;
    let y2 = r.y + r.h;
    two_triangles(seq![point_xy(m, x1, y1), point_xy(m, x2, y1), point_xy(m, x1, y2), point_xy(m, x2, y2)])
}

fn push_point(v: &mut Vec<i64>, m: &Matrix2d, x: i64, y: i64)
    requires
        in_point_range(x as int),
        in_point_range(y as int),
    ensures
        final(v)@ == old(v)@ + point_xy(*m, x as int, y as int),
{
    let (px, py) = transform_point(m, x, y);
    v.push(px);
    v.push(py);
    assert(final(v)@ =~= old(v)@ + point_xy(*m, x as int, y as int));
}

/// The vertex positions of the rectangle `r` under the transform `m`, as a
/// list of two triangles.
pub fn rect_tri_list_xy(m: &Matrix2d, r: &Rectangle) -> (res: Vec<i64>)
    ensures
        res@ == rect_tri_list_xy_spec(*m, *r),
        res@.len() == 12,
{
    let x1 = r.x as i64;
    let y1 = r.y as i64;
    let x2 = r.x as i64 + r.w as i64;
    let y2 = r.y as i64 + r.h as i64;
    let mut v: Vec<i64> = Vec::new();
    push_point(&mut v, m, x1, y1);
    push_point(&mut v, m, x2, y1);
    push_point(&mut v, m, x1, y2);
    push_point(&mut v, m, x2, y1);
    push_point(&mut v, m, x2, y2);
    push_point(&mut v, m, x1, y2);
    assert(v@ =~= rect_tri_list_xy_spec(*m, *r));
    v
}

/// The four channels of `c`, red first.
pub open spec fn channels(c: Color) -> Seq<u8> {
    seq![c.r, c.g, c.b, c.a]
}

/// The color `c` repeated for each of `n` vertices.
pub open spec fn tri_list_rgba_spec(c: Color, n: nat) -> Seq<u8> {
    Seq::new(4 * n, |i: int| channels(c)[i % 4])
}

/// The color `c` for each of `n` vertices, four channels per vertex.
pub fn tri_list_rgba(c: &Color, n: usize) -> (res: Vec<u8>)
    requires
        n <= 0x1000_0000,
    ensures
        res@ == tri_list_rgba_spec(*c, n as nat),
{
    let mut v: Vec<u8> = Vec::new();
    let mut k: usize = 0;
    while k < n
        invariant
            k <= n <= 0x1000_0000,
            v@ =~= tri_list_rgba_spec(*c, k as nat),
        decreases n - k,
    {
        v.push(c.r);
        v.push(c.g);
        v.push(c.b);
        v.push(c.a);
        k = k + 1;
        assert(v@ =~= tri_list_rgba_spec(*c, k as nat));
    }
    v
}

/// The texture coordinate of texel `p` in a texture `size` texels across,
/// as a fixed-point fraction of the texture's size.
pub open spec fn texel_to_uv(p: int, size: int) -> int {
    p * ONE / size
}

/// The texture coordinates of `img`'s source rectangle, in the order of
/// `rect_tri_list_xy_spec`.
pub open spec fn rect_tri_list_uv_spec(img: Image) -> Seq<i64> {
    let u1 = texel_to_uv(img.src_x as int, img.texture_width as int) as i64;
    let v1 = texel_to_uv(img.src_y as int, img.texture_height as int) as i64;
    let u2 = texel_to_uv(img.src_x + img.src_w, img.texture_width as int) as i64;
    let v2 = texel_to_uv(img.src_y + img.src_h, img.texture_height as int) as i64;
    two_triangles(seq![seq![u1, v1], seq![u2, v1], seq![u1, v2], seq![u2, v2]])
}

fn texel_to_uv_exec(p: u64, size: u32) -> (r: i64)
    requires
        size > 0,
        p <= 0x2_0000_0000,
    ensures
        r == texel_to_uv(p as int, size as int),
{
    proof {
        assert(p * 65536 <= 0x2_0000_0000 * 65536) by (nonlinear_arith)
            requires p <= 0x2_0000_0000;
        assert(p * 65536 / (size as int) <= p * 65536) by (nonlinear_arith)
            requires size > 0, p >= 0;
    }
    ((p * 65536) / (size as u64)) as i64
}

/// The texture coordinates of the image's source rectangle, for the two
/// triangles of `rect_tri_list_xy`.
pub fn rect_tri_list_uv(img: &Image) -> (res: Vec<i64>)
    requires
        img.wf(),
    ensures
        res@ == rect_tri_list_uv_spec(*img),
        res@.len() == 12,
{
    let u1 = texel_to_uv_exec(img.src_x as u64, img.texture_width);
    let v1 = texel_to_uv_exec(img.src_y as u64, img.texture_height);
    let u2 = texel_to_uv_exec(img.src_x as u64 + img.src_w as u64, img.texture_width);
    let v2 = texel_to_uv_exec(img.src_y as u64 + img.src_h as u64, img.texture_height);
    let v: Vec<i64> = vec![u1, v1, u2, v1, u1, v2, u2, v1, u2, v2, u1, v2];
    assert(v@ =~= rect_tri_list_uv_spec(*img));
    v
}


/// `r` is the square root of `n` rounded down.
pub open spec fn is_floor_sqrt(n: int, r: int) -> bool {
    0 <= r && r * r <= n < (r + 1) * (r + 1)
}

/// The square root of `n` rounded down.
pub open spec fn floor_sqrt(n: int) -> int {
    choose|r: int| is_floor_sqrt(n, r)
}

proof fn lemma_floor_sqrt_unique(n: int, r: int)
    requires
        is_floor_sqrt(n, r),
    ensures
        floor_sqrt(n) == r,
{
    let s = floor_sqrt(n);
    assert(is_floor_sqrt(n, s));
    if s < r {
        assert(s * s <= n < (s + 1) * (s + 1) <= r * r) by (nonlinear_arith)
            requires
                is_floor_sqrt(n, s),
                s < r,
        ;
    } else if r < s {
        assert(r * r <= n < (r + 1) * (r + 1) <= s * s) by (nonlinear_arith)
            requires
                is_floor_sqrt(n, r),
                r < s,
        ;
    }
}

/// Relies on `u128::isqrt`: the square root of `n` rounded down.
#[verifier::external_body]
fn isqrt(n: u128) -> (r: u128)
    ensures
        r * r <= n,
        n < (r + 1) * (r + 1),
{
    n.isqrt()
}

/// The offset from a line's ends to the edges of the band of half-width
/// `radius` around it: perpendicular to the line, `radius` long up to
/// rounding toward zero, and zero for a line of length zero.
pub open spec fn line_normal(l: Line, radius: int) -> (int, int) {
    let dx = l.x2 - l.x1;
    let dy = l.y2 - l.y1;
    let len = floor_sqrt(dx * dx + dy * dy);
    if len == 0 {
        (0, 0)
    } else {
        (trunc_div(-dy * radius, len), trunc_div(dx * radius, len))
    }
}

/// The vertex positions, under `m`, of the band of half-width `radius`
/// around the line `l`, as two triangles. Its end caps are tessellated
/// with two segments each, which makes each cap a straight edge across
/// the line's end.
pub open spec fn line_tri_list_xy_spec(m: Matrix2d, l: Line, radius: int) -> Seq<i64> {
    let (nx, ny) = line_normal(l, radius);
    two_triangles(
        seq![
            point_xy(m, l.x1 + nx, l.y1 + ny),
            point_xy(m, l.x1 - nx, l.y1 - ny),
            point_xy(m, l.x2 + nx, l.y2 + ny),
            point_xy(m, l.x2 - nx, l.y2 - ny),
        ],
    )
}

fn normal_component(a: i64, radius: i32, len: u128) -> (r: i64)
    requires
        0 <= radius,
        0 < len <= 0x2_0000_0000,
        -(len as int) <= a <= len,
    ensures
        r == trunc_div(a * radius, len as int),
        -radius <= r <= radius,
{
    let pa: i128 = if a >= 0 { a as i128 } else { -(a as i128) };
    proof {
        assert(pa * radius <= len * radius) by (nonlinear_arith)
            requires 0 <= pa <= len, 0 <= radius;
        assert(len * radius <= 0x2_0000_0000 * 0x8000_0000) by (nonlinear_arith)
            requires 0 < len <= 0x2_0000_0000, 0 <= radius <= 0x8000_0000;
        assert(pa * radius >= 0) by (nonlinear_arith)
            requires 0 <= pa, 0 <= radius;
        lemma_div_is_ordered(pa * radius, radius * len, len as int);
        lemma_div_by_multiple(radius as int, len as int);
        assert(0 <= (pa * radius) / (len as int)) by (nonlinear_arith)
            requires pa * radius >= 0, len > 0;
        assert(a * radius >= 0 ==> a >= 0 || radius == 0) by (nonlinear_arith)
            requires 0 <= radius;
        if a < 0 {
            assert(-(a * radius) == pa * radius) by (nonlinear_arith)
                requires pa == -a;
        }
    }
    let q: i128 = (pa * (radius as i128)) / (len as i128);
    if a >= 0 {
        q as i64
    } else {
        -(q as i64)
    }
}

/// The vertex positions of the band of half-width `radius` around the
/// line `l` under the transform `m`, as a list of two triangles.
pub fn line_tri_list_xy(m: &Matrix2d, l: &Line, radius: i32) -> (res: Vec<i64>)
    requires
        0 <= radius,
    ensures
        res@ == line_tri_list_xy_spec(*m, *l, radius as int),
        res@.len() == 12,
{
    let dx: i64 = l.x2 as i64 - l.x1 as i64;
    let dy: i64 = l.y2 as i64 - l.y1 as i64;
    let adx: u128 = if dx >= 0 { dx as u128 } else { (-dx) as u128 };
    let ady: u128 = if dy >= 0 { dy as u128 } else { (-dy) as u128 };
    proof {
        assert(adx * adx <= 0x1_0000_0000 * 0x1_0000_0000) by (nonlinear_arith)
            requires adx <= 0x1_0000_0000;
        assert(ady * ady <= 0x1_0000_0000 * 0x1_0000_0000) by (nonlinear_arith)
            requires ady <= 0x1_0000_0000;
        assert(adx * adx == dx * dx) by (nonlinear_arith)
            requires adx == dx || adx == -dx;
        assert(ady * ady == dy * dy) by (nonlinear_arith)
            requires ady == dy || ady == -dy;
    }
    let sq: u128 = adx * adx + ady * ady;
    let len: u128 = isqrt(sq);
    proof {
        lemma_floor_sqrt_unique(sq as int, len as int);
        assert(adx <= len && ady <= len && len <= 0x2_0000_0000) by (nonlinear_arith)
            requires
                sq == adx * adx + ady * ady,
                sq < (len + 1) * (len + 1),
                len * len <= sq,
                adx >= 0,
                ady >= 0,
                adx <= 0x1_0000_0000,
                ady <= 0x1_0000_0000,
                len >= 0,
        ;
    }
    let (nx, ny): (i64, i64) = if len == 0 {
        (0, 0)
    } else {
        (normal_component(-dy, radius, len), normal_component(dx, radius, len))
    };
    assert((nx as int, ny as int) == line_normal(*l, radius as int));
    let mut v: Vec<i64> = Vec::new();
    let (x1, y1, x2, y2) = (l.x1 as i64, l.y1 as i64, l.x2 as i64, l.y2 as i64);
    push_point(&mut v, m, x1 + nx, y1 + ny);
    push_point(&mut v, m, x1 - nx, y1 - ny);
    push_point(&mut v, m, x2 + nx, y2 + ny);
    push_point(&mut v, m, x1 - nx, y1 - ny);
    push_point(&mut v, m, x2 - nx, y2 - ny);
    push_point(&mut v, m, x2 + nx, y2 + ny);
    assert(v@ =~= line_tri_list_xy_spec(*m, *l, radius as int));
    v
}

} // verus!
