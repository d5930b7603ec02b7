//! A context that strokes a line in a color, with a border radius.
use crate::back_end::{blended, lemma_blended_brackets, is_bracketed_by_blend, is_silent, BackEnd, Call, UnsupportedBackend};
use crate::geometry::{
    identity, identity_spec, line_tri_list_xy, line_tri_list_xy_spec, tri_list_rgba,
    tri_list_rgba_spec, Color, Line, Matrix2d, CHANNEL_MAX,
};
use vstd::prelude::*;

verus! {

/// A line context with square border information.
#[derive(Clone, Copy, Debug, PartialEq, Eq, Structural)]
pub struct SquareBorderLineColorContext {
    /// Base transform, to which `view` returns.
    pub base: Matrix2d,
    /// Current transform.
    pub transform: Matrix2d,
    /// Current line.
    pub line: Line,
    /// Current color.
    pub color: Color,
    /// Current square border: the half-width of the stroke, not negative.
    pub square_border_radius: i32,
}

impl SquareBorderLineColorContext {
    /// The calls that stroking makes on a back end that draws flat
    /// triangles: none for a fully transparent color; else one triangle
    /// list of the band round the line, under alpha blending when the color
    /// is not fully opaque.
    pub open spec fn stroke_calls(&self) -> Seq<Call> {
        if self.color.a == 0 {
            Seq::empty()
        } else {
            blended(
                seq![
                    Call::TriListXyRgba(
                        line_tri_list_xy_spec(self.transform, self.line, self.square_border_radius as int),
                        tri_list_rgba_spec(self.color, 6),
                    ),
                ],
                self.color.a != CHANNEL_MAX,
            )
        }
    }

    /// The current transform.
    pub fn get_transform(&self) -> (r: &Matrix2d)
        ensures
            *r == self.transform,
    {
        &self.transform
    }

    /// This context with its transform replaced by `value`.
    pub fn transform(&self, value: Matrix2d) -> (r: SquareBorderLineColorContext)
        ensures
            r == (SquareBorderLineColorContext { transform: value, ..*self }),
    {
        SquareBorderLineColorContext { transform: value, ..*self }
    }

    /// The current color.
    pub fn get_color(&self) -> (r: &Color)
        ensures
            *r == self.color,
    {
        &self.color
    }

    /// This context with its color replaced by `value`.
    pub fn color(&self, value: Color) -> (r: SquareBorderLineColorContext)
        ensures
            r == (SquareBorderLineColorContext { color: value, ..*self }),
    {
        SquareBorderLineColorContext { color: value, ..*self }
    }

    /// Strokes the line. A back end that cannot draw flat triangles is
    /// refused, and nothing is done on it.
    pub fn stroke<B: BackEnd>(&self, back_end: &mut B) -> (r: Result<(), UnsupportedBackend>)
        requires
            old(back_end).inv(),
            self.square_border_radius >= 0,
        ensures
            final(back_end).inv(),
            if old(back_end).capabilities().tri_list_xy_rgba {
                &&& r is Ok
                &&& final(back_end).log() == old(back_end).log() + self.stroke_calls()
            } else {
                &&& r is Err
                &&& final(back_end).log() == old(back_end).log()
            },
    {
        if back_end.supports_tri_list_xy_rgba() {
            let ghost start = back_end.log();
            // Complete transparency does not need to be rendered.
            if self.color.a == 0 {
                assert(back_end.log() =~= start + self.stroke_calls());
                return Ok(());
            }
            // Blend when not completely opaque.
            let needs_alpha = self.color.a != CHANNEL_MAX;
            if needs_alpha {
                back_end.enable_alpha_blend();
            }
            let xy = line_tri_list_xy(&self.transform, &self.line, self.square_border_radius);
            let rgba = tri_list_rgba(&self.color, 6);
            back_end.tri_list_xy_rgba(xy.as_slice(), rgba.as_slice());
            if needs_alpha {
                back_end.disable_alpha_blend();
            }
            assert(back_end.log() =~= start + self.stroke_calls());
            Ok(())
        } else {
            Err(UnsupportedBackend)
        }
    }

    /// This context with its transform set back to the base transform.
    pub fn view(&self) -> (r: SquareBorderLineColorContext)
        ensures
            r == (SquareBorderLineColorContext { transform: self.base, ..*self }),
    {
        SquareBorderLineColorContext { transform: self.base, ..*self }
    }

    /// This context with its transform set to the identity.
    pub fn reset(&self) -> (r: SquareBorderLineColorContext)
        ensures
            r == (SquareBorderLineColorContext { transform: identity_spec(), ..*self }),
    {
        SquareBorderLineColorContext { transform: identity(), ..*self }
    }

    /// This context with its current transform kept as the new base.
    pub fn store_view(&self) -> (r: SquareBorderLineColorContext)
        ensures
            r == (SquareBorderLineColorContext { base: self.transform, ..*self }),
    {
        SquareBorderLineColorContext { base: self.transform, ..*self }
    }

    /// Clears the back end's target to this context's color, where the
    /// back end can; elsewhere does nothing.
    pub fn clear<B: BackEnd>(&self, back_end: &mut B)
        requires
            old(back_end).inv(),
        ensures
            final(back_end).inv(),
            final(back_end).log() == if old(back_end).capabilities().clear_rgba {
                old(back_end).log().push(Call::ClearRgba(self.color))
            } else {
                old(back_end).log()
            },
    {
        if back_end.supports_clear_rgba() {
            back_end.clear_rgba(self.color);
        }
    }
}

/// Stroking with a fully transparent color makes no call on the back end.
pub proof fn lemma_transparent_stroke_is_silent(c: SquareBorderLineColorContext)
    requires
        c.color.a == 0,
    ensures
        c.stroke_calls() == Seq::<Call>::empty(),
        is_silent(c.stroke_calls()),
{
}

/// Stroking with a color neither transparent nor opaque enables alpha
/// blending once, first, and disables it once, last.
pub proof fn lemma_translucent_stroke_blends_once(c: SquareBorderLineColorContext)
    requires
        0 < c.color.a < CHANNEL_MAX,
    ensures
        is_bracketed_by_blend(c.stroke_calls()),
{
    let inner = seq![
        Call::TriListXyRgba(
            line_tri_list_xy_spec(c.transform, c.line, c.square_border_radius as int),
            tri_list_rgba_spec(c.color, 6),
        ),
    ];
    lemma_blended_brackets(inner);
}

} // verus!
