use graphics::back_end::{Capabilities, Event, RecordingBackEnd, UnsupportedBackend};
use graphics::geometry::{identity, Color, Image, Line, Matrix2d, Rectangle, ONE};
use graphics::image_rectangle_color_context::ImageRectangleColorContext;
use graphics::square_border_line_color_context::SquareBorderLineColorContext;

fn all_caps() -> Capabilities {
    Capabilities { single_texture: true, tri_list_xy_rgba_uv: true, tri_list_xy_rgba: true, clear_rgba: true }
}

fn scale(s: i32) -> Matrix2d {
    Matrix2d { m00: s, m01: 0, m02: 0, m10: 0, m11: s, m12: 0 }
}

fn image_ctx(a: u8) -> ImageRectangleColorContext {
    ImageRectangleColorContext {
        base: scale(2 * ONE),
        transform: identity(),
        rect: Rectangle { x: 0, y: 0, w: 100 * ONE, h: 50 * ONE },
        image: Image { texture_id: 7, texture_width: 100, texture_height: 50, src_x: 0, src_y: 0, src_w: 100, src_h: 50 },
        color: Color { r: 255, g: 0, b: 0, a },
    }
}

fn line_ctx(a: u8) -> SquareBorderLineColorContext {
    SquareBorderLineColorContext {
        base: scale(3 * ONE),
        transform: identity(),
        line: Line { x1: 0, y1: 0, x2: 10 * ONE, y2: 0 },
        color: Color { r: 0, g: 255, b: 0, a },
        square_border_radius: ONE,
    }
}

#[test]
fn operations_leave_the_source_unchanged() {
    let c = image_ctx(255);
    let before = c;
    let _ = c.transform(scale(5 * ONE));
    let _ = c.view();
    let _ = c.reset();
    let _ = c.store_view();
    let _ = c.margin(ONE);
    let _ = c.rel(ONE / 2, ONE / 2);
    assert_eq!(c, before);
    let l = line_ctx(255);
    let before = l;
    let _ = l.transform(scale(5 * ONE));
    let _ = l.color(Color { r: 1, g: 2, b: 3, a: 4 });
    let _ = l.view();
    let _ = l.reset();
    let _ = l.store_view();
    assert_eq!(l, before);
}

#[test]
fn with_transform_changes_only_the_transform() {
    let c = image_ctx(255);
    let t = scale(5 * ONE);
    let d = c.transform(t);
    assert_eq!(*d.get_transform(), t);
    assert_eq!(d.base, c.base);
    assert_eq!(d.rect, c.rect);
    assert_eq!(d.image, c.image);
    assert_eq!(d.color, c.color);
    let l = line_ctx(255);
    let m = l.transform(t);
    assert_eq!(*m.get_transform(), t);
    assert_eq!((m.base, m.line, m.color, m.square_border_radius), (l.base, l.line, l.color, l.square_border_radius));
}

#[test]
fn with_color_changes_only_the_color() {
    let l = line_ctx(255);
    let c = Color { r: 1, g: 2, b: 3, a: 4 };
    let m = l.color(c);
    assert_eq!(*m.get_color(), c);
    assert_eq!((m.base, m.transform, m.line, m.square_border_radius), (l.base, l.transform, l.line, l.square_border_radius));
}

#[test]
fn view_reset_and_store_view() {
    let c = image_ctx(255).transform(scale(5 * ONE));
    assert_eq!(*c.view().get_transform(), c.base);
    assert_eq!(*c.reset().get_transform(), identity());
    assert_eq!(c.reset().base, c.base);
    let s = c.store_view();
    assert_eq!(s.base, *c.get_transform());
    assert_eq!(s.transform, *c.get_transform());
    let l = line_ctx(255).transform(scale(5 * ONE));
    assert_eq!(*l.view().get_transform(), l.base);
    assert_eq!(*l.reset().get_transform(), identity());
    let s = l.store_view();
    assert_eq!((s.base, s.transform), (l.transform, l.transform));
}

#[test]
fn transparent_draw_and_stroke_make_no_call() {
    let mut b = RecordingBackEnd::new(all_caps(), vec![7]);
    assert_eq!(image_ctx(0).draw(&mut b), Ok(()));
    assert_eq!(line_ctx(0).stroke(&mut b), Ok(()));
    assert!(b.events().is_empty());
}

#[test]
fn translucent_draw_is_bracketed_by_one_blend() {
    let mut b = RecordingBackEnd::new(all_caps(), vec![]);
    assert_eq!(image_ctx(128).draw(&mut b), Ok(()));
    assert_eq!(
        *b.events(),
        vec![
            Event::EnableAlphaBlend,
            Event::EnableSingleTexture(7),
            Event::TriListXyRgbaUv(6),
            Event::DisableSingleTexture,
            Event::DisableAlphaBlend,
        ]
    );
}

#[test]
fn opaque_draw_of_a_texture_with_alpha_blends() {
    let mut b = RecordingBackEnd::new(all_caps(), vec![3, 7]);
    assert_eq!(image_ctx(255).draw(&mut b), Ok(()));
    assert_eq!(b.events().first(), Some(&Event::EnableAlphaBlend));
    assert_eq!(b.events().last(), Some(&Event::DisableAlphaBlend));
    assert_eq!(b.events().len(), 5);
}

#[test]
fn translucent_stroke_is_bracketed_by_one_blend() {
    let mut b = RecordingBackEnd::new(all_caps(), vec![]);
    assert_eq!(line_ctx(1).stroke(&mut b), Ok(()));
    assert_eq!(*b.events(), vec![Event::EnableAlphaBlend, Event::TriListXyRgba(6), Event::DisableAlphaBlend]);
}

#[test]
fn opaque_stroke_does_not_blend() {
    let mut b = RecordingBackEnd::new(all_caps(), vec![]);
    assert_eq!(line_ctx(255).stroke(&mut b), Ok(()));
    assert_eq!(*b.events(), vec![Event::TriListXyRgba(6)]);
}

#[test]
fn draw_without_single_texture_is_refused() {
    let caps = Capabilities { single_texture: false, ..all_caps() };
    let mut b = RecordingBackEnd::new(caps, vec![]);
    assert_eq!(image_ctx(255).draw(&mut b), Err(UnsupportedBackend));
    assert!(b.events().is_empty());
}

#[test]
fn draw_without_textured_triangles_is_refused() {
    let caps = Capabilities { tri_list_xy_rgba_uv: false, ..all_caps() };
    let mut b = RecordingBackEnd::new(caps, vec![]);
    assert_eq!(image_ctx(128).draw(&mut b), Err(UnsupportedBackend));
    assert!(b.events().is_empty());
}

#[test]
fn stroke_without_flat_triangles_is_refused() {
    let caps = Capabilities { tri_list_xy_rgba: false, ..all_caps() };
    let mut b = RecordingBackEnd::new(caps, vec![]);
    assert_eq!(line_ctx(128).stroke(&mut b), Err(UnsupportedBackend));
    assert!(b.events().is_empty());
}

#[test]
fn margin_larger_than_half_a_side_gives_a_degenerate_rectangle() {
    let mut c = image_ctx(255);
    c.rect = Rectangle { x: 0, y: 0, w: 10 * ONE, h: 10 * ONE };
    let m = c.margin(20 * ONE);
    assert!(m.rect.w <= 0);
    assert!(m.rect.h <= 0);
    assert_eq!(m.rect, Rectangle { x: 20 * ONE, y: 20 * ONE, w: -30 * ONE, h: -30 * ONE });
}

#[test]
fn opaque_image_draw_round_trip() {
    let mut b = RecordingBackEnd::new(all_caps(), vec![]);
    assert_eq!(image_ctx(255).draw(&mut b), Ok(()));
    assert_eq!(
        *b.events(),
        vec![Event::EnableSingleTexture(7), Event::TriListXyRgbaUv(6), Event::DisableSingleTexture]
    );
}

#[test]
fn clear_uses_the_color_where_supported() {
    let l = line_ctx(200);
    let mut b = RecordingBackEnd::new(all_caps(), vec![]);
    l.clear(&mut b);
    assert_eq!(*b.events(), vec![Event::ClearRgba(Color { r: 0, g: 255, b: 0, a: 200 })]);
    let caps = Capabilities { clear_rgba: false, ..all_caps() };
    let mut b = RecordingBackEnd::new(caps, vec![]);
    l.clear(&mut b);
    assert!(b.events().is_empty());
}

#[test]
fn rel_moves_by_fractions_of_the_size() {
    let c = image_ctx(255).rel(ONE / 2, -ONE);
    assert_eq!(c.rect, Rectangle { x: 50 * ONE, y: -50 * ONE, w: 100 * ONE, h: 50 * ONE });
}
