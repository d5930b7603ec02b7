//! A context that draws an image into a rectangle, tinted by a color.
use crate::back_end::{blended, lemma_blended_brackets, is_bracketed_by_blend, is_silent, BackEnd, Call, UnsupportedBackend};
use crate::geometry::{
    fits_i32, identity, identity_spec, margin_rectangle, margin_rectangle_spec, rect_tri_list_uv,
    rect_tri_list_uv_spec, rect_tri_list_xy, rect_tri_list_xy_spec, relative_rectangle,
    relative_rectangle_spec, tri_list_rgba, tri_list_rgba_spec, Color, Image, Matrix2d, Rectangle,
    CHANNEL_MAX,
};
use vstd::prelude::*;

verus! {

/// An image rectangle context.
#[derive(Clone, Copy, Debug, PartialEq, Eq, Structural)]
pub struct ImageRectangleColorContext {
    /// Base transformation, to which `view` returns.
    pub base: Matrix2d,
    /// Current transformation.
    pub transform: Matrix2d,
    /// Current rectangle.
    pub rect: Rectangle,
    /// Current image.
    pub image: Image,
    /// Current color.
    pub color: Color,
}

impl ImageRectangleColorContext {
    /// The calls that drawing makes on a back end that offers what drawing
    /// needs, where `texture_alpha` tells whether the image's texture has
    /// an alpha channel: none for a fully transparent color; else the
    /// texture bound round one textured triangle list of the rectangle,
    /// all under alpha blending when the color is not fully opaque or the
    /// texture has alpha.
    pub open spec fn draw_calls(&self, texture_alpha: bool) -> Seq<Call> {
        if self.color.a == 0 {
            Seq::empty()
        } else {
            blended(
                seq![
                    Call::EnableSingleTexture(self.image.texture_id),
                    Call::TriListXyRgbaUv(
                        rect_tri_list_xy_spec(self.transform, self.rect),
                        tri_list_rgba_spec(self.color, 6),
                        rect_tri_list_uv_spec(self.image),
                    ),
                    Call::DisableSingleTexture,
                ],
                self.color.a != CHANNEL_MAX || texture_alpha,
            )
        }
    }

    /// The current transform.
    pub fn get_transform(&self) -> (r: &Matrix2d)
        ensures
            *r == self.transform,
    {
        &self.transform
    }

    /// This context with its transform replaced by `value`.
    pub fn transform(&self, value: Matrix2d) -> (r: ImageRectangleColorContext)
        ensures
            r == (ImageRectangleColorContext { transform: value, ..*self }),
    {
        ImageRectangleColorContext { transform: value, ..*self }
    }

    /// Draws the image into the rectangle. A back end that cannot bind a
    /// texture or draw textured triangles is refused, and nothing is done
    /// on it.
    pub fn draw<B: BackEnd>(&self, back_end: &mut B) -> (r: Result<(), UnsupportedBackend>)
        requires
            old(back_end).inv(),
            self.image.wf(),
        ensures
            final(back_end).inv(),
            ({
                let caps = old(back_end).capabilities();
                if caps.single_texture && caps.tri_list_xy_rgba_uv {
                    &&& r is Ok
                    &&& final(back_end).log() == old(back_end).log() + self.draw_calls(
                        old(back_end).texture_has_alpha(self.image.texture_id),
                    )
                } else {
                    &&& r is Err
                    &&& final(back_end).log() == old(back_end).log()
                }
            }),
    {
        if back_end.supports_single_texture() && back_end.supports_tri_list_xy_rgba_uv() {
            let ghost start = back_end.log();
            let ghost texture_alpha = back_end.texture_has_alpha(self.image.texture_id);
            // Complete transparency does not need to be rendered.
            if self.color.a == 0 {
                assert(back_end.log() =~= start + self.draw_calls(texture_alpha));
                return Ok(());
            }
            // Blend when not completely opaque, or when the texture has alpha.
            let needs_alpha = self.color.a != CHANNEL_MAX || back_end.has_texture_alpha(
                self.image.texture_id,
            );
            if needs_alpha {
                back_end.enable_alpha_blend();
            }
            back_end.enable_single_texture(self.image.texture_id);
            let xy = rect_tri_list_xy(&self.transform, &self.rect);
            let rgba = tri_list_rgba(&self.color, 6);
            let uv = rect_tri_list_uv(&self.image);
            back_end.tri_list_xy_rgba_uv(xy.as_slice(), rgba.as_slice(), uv.as_slice());
            back_end.disable_single_texture();
            if needs_alpha {
                back_end.disable_alpha_blend();
            }
            assert(back_end.log() =~= start + self.draw_calls(texture_alpha));
            Ok(())
        } else {
            Err(UnsupportedBackend)
        }
    }

    /// This context with its rectangle shrunk by the margin `m` on every
    /// side; a margin over half a side leaves a rectangle of negative size.
    pub fn margin(&self, m: i32) -> (r: ImageRectangleColorContext)
        requires
            fits_i32(margin_rectangle_spec(self.rect, m as int).0),
            fits_i32(margin_rectangle_spec(self.rect, m as int).1),
            fits_i32(margin_rectangle_spec(self.rect, m as int).2),
            fits_i32(margin_rectangle_spec(self.rect, m as int).3),
        ensures
            r == (ImageRectangleColorContext { rect: r.rect, ..*self }),
            (r.rect.x as int, r.rect.y as int, r.rect.w as int, r.rect.h as int)
                == margin_rectangle_spec(self.rect, m as int),
    {
        ImageRectangleColorContext { rect: margin_rectangle(&self.rect, m), ..*self }
    }

    /// This context with its rectangle moved by `x` times its width and `y`
    /// times its height (fixed-point fractions).
    pub fn rel(&self, x: i32, y: i32) -> (r: ImageRectangleColorContext)
        requires
            fits_i32(relative_rectangle_spec(self.rect, x as int, y as int).0),
            fits_i32(relative_rectangle_spec(self.rect, x as int, y as int).1),
        ensures
            r == (ImageRectangleColorContext { rect: r.rect, ..*self }),
            (r.rect.x as int, r.rect.y as int, r.rect.w as int, r.rect.h as int)
                == relative_rectangle_spec(self.rect, x as int, y as int),
    {
        ImageRectangleColorContext { rect: relative_rectangle(&self.rect, x, y), ..*self }
    }

    /// This context with its transform set back to the base transform.
    pub fn view(&self) -> (r: ImageRectangleColorContext)
        ensures
            r == (ImageRectangleColorContext { transform: self.base, ..*self }),
    {
        ImageRectangleColorContext { transform: self.base, ..*self }
    }

    /// This context with its transform set to the identity.
    pub fn reset(&self) -> (r: ImageRectangleColorContext)
        ensures
            r == (ImageRectangleColorContext { transform: identity_spec(), ..*self }),
    {
        ImageRectangleColorContext { transform: identity(), ..*self }
    }

    /// This context with its current transform kept as the new base.
    pub fn store_view(&self) -> (r: ImageRectangleColorContext)
        ensures
            r == (ImageRectangleColorContext { base: self.transform, ..*self }),
    {
        ImageRectangleColorContext { base: self.transform, ..*self }
    }
}

/// Drawing with a fully transparent color makes no call on the back end.
pub proof fn lemma_transparent_draw_is_silent(c: ImageRectangleColorContext, texture_alpha: bool)
    requires
        c.color.a == 0,
    ensures
        c.draw_calls(texture_alpha) == Seq::<Call>::empty(),
        is_silent(c.draw_calls(texture_alpha)),
{
}

/// Drawing with a color neither transparent nor opaque enables alpha
/// blending once, first, and disables it once, last.
pub proof fn lemma_translucent_draw_blends_once(c: ImageRectangleColorContext, texture_alpha: bool)
    requires
        0 < c.color.a < CHANNEL_MAX,
    ensures
        is_bracketed_by_blend(c.draw_calls(texture_alpha)),
{
    let inner = seq![
        Call::EnableSingleTexture(c.image.texture_id),
        Call::TriListXyRgbaUv(
            rect_tri_list_xy_spec(c.transform, c.rect),
            tri_list_rgba_spec(c.color, 6),
            rect_tri_list_uv_spec(c.image),
        ),
        Call::DisableSingleTexture,
    ];
    lemma_blended_brackets(inner);
}

} // verus!
