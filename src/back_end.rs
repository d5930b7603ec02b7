//! The interface to a renderer: capability queries, state toggles and
//! primitive submission.
use crate::geometry::Color;
use vstd::prelude::*;

verus! {

/// The primitives and operations a back end may offer.
#[derive(Clone, Copy, Debug, PartialEq, Eq, Structural)]
pub struct Capabilities {
    /// Binding one texture at a time.
    pub single_texture: bool,
    /// Textured triangle lists: positions, colors and texture coordinates.
    pub tri_list_xy_rgba_uv: bool,
    /// Flat triangle lists: positions and colors.
    pub tri_list_xy_rgba: bool,
    /// Clearing the whole target to one color.
    pub clear_rgba: bool,
}

/// The refusal of a back end that lacks a primitive an operation needs.
#[derive(Clone, Copy, Debug, PartialEq, Eq, Structural)]
pub struct UnsupportedBackend;

/// One state change or submission made on a back end.
pub enum Call {
    EnableAlphaBlend,
    DisableAlphaBlend,
    EnableSingleTexture(usize),
    DisableSingleTexture,
    /// Positions (two per vertex), colors (four per vertex) and texture
    /// coordinates (two per vertex).
    TriListXyRgbaUv(Seq<i64>, Seq<u8>, Seq<i64>),
    /// Positions (two per vertex) and colors (four per vertex).
    TriListXyRgba(Seq<i64>, Seq<u8>),
    ClearRgba(Color),
}

/// Whether `c` submits triangles.
pub open spec fn is_submission(c: Call) -> bool {
    c is TriListXyRgbaUv || c is TriListXyRgba
}

/// A renderer. Its contract is stated over the calls made on it so far,
/// oldest first: each state change or submission appends one call.
pub trait BackEnd {
    /// The back end's own consistency condition.
    spec fn inv(&self) -> bool;

    /// The calls made on this back end so far, oldest first.
    spec fn log(&self) -> Seq<Call>;

    /// What this back end offers.
    spec fn capabilities(&self) -> Capabilities;

    /// Whether the texture `texture_id` has an alpha channel.
    spec fn texture_has_alpha(&self, texture_id: usize) -> bool;

    fn supports_single_texture(&self) -> (r: bool)
        requires
            self.inv(),
        ensures
            r == self.capabilities().single_texture,
    ;

    fn supports_tri_list_xy_rgba_uv(&self) -> (r: bool)
        requires
            self.inv(),
        ensures
            r == self.capabilities().tri_list_xy_rgba_uv,
    ;

    fn supports_tri_list_xy_rgba(&self) -> (r: bool)
        requires
            self.inv(),
        ensures
            r == self.capabilities().tri_list_xy_rgba,
    ;

    fn supports_clear_rgba(&self) -> (r: bool)
        requires
            self.inv(),
        ensures
            r == self.capabilities().clear_rgba,
    ;

    fn has_texture_alpha(&self, texture_id: usize) -> (r: bool)
        requires
            self.inv(),
        ensures
            r == self.texture_has_alpha(texture_id),
    ;

    fn enable_alpha_blend(&mut self)
        requires
            old(self).inv(),
        ensures
            final(self).inv(),
            final(self).log() == old(self).log().push(Call::EnableAlphaBlend),
    ;

    fn disable_alpha_blend(&mut self)
        requires
            old(self).inv(),
        ensures
            final(self).inv(),
            final(self).log() == old(self).log().push(Call::DisableAlphaBlend),
    ;

    fn enable_single_texture(&mut self, texture_id: usize)
        requires
            old(self).inv(),
        ensures
            final(self).inv(),
            final(self).log() == old(self).log().push(Call::EnableSingleTexture(texture_id)),
    ;

    fn disable_single_texture(&mut self)
        requires
            old(self).inv(),
        ensures
            final(self).inv(),
            final(self).log() == old(self).log().push(Call::DisableSingleTexture),
    ;

    /// Draws textured triangles; the three streams describe the same vertices.
    fn tri_list_xy_rgba_uv(&mut self, xy: &[i64], rgba: &[u8], uv: &[i64])
        requires
            old(self).inv(),
            xy@.len() % 2 == 0,
            rgba@.len() == 2 * xy@.len(),
            uv@.len() == xy@.len(),
        ensures
            final(self).inv(),
            final(self).log() == old(self).log().push(Call::TriListXyRgbaUv(xy@, rgba@, uv@)),
    ;

    /// Draws flat triangles; the two streams describe the same vertices.
    fn tri_list_xy_rgba(&mut self, xy: &[i64], rgba: &[u8])
        requires
            old(self).inv(),
            xy@.len() % 2 == 0,
            rgba@.len() == 2 * xy@.len(),
        ensures
            final(self).inv(),
            final(self).log() == old(self).log().push(Call::TriListXyRgba(xy@, rgba@)),
    ;

    fn clear_rgba(&mut self, color: Color)
        requires
            old(self).inv(),
        ensures
            final(self).inv(),
            final(self).log() == old(self).log().push(Call::ClearRgba(color)),
    ;
}

} // verus!

verus! {

/// What a `RecordingBackEnd` keeps of one call: the call's kind, and the
/// number of vertices for a submission.
#[derive(Clone, Copy, Debug, PartialEq, Eq, Structural)]
pub enum Event {
    EnableAlphaBlend,
    DisableAlphaBlend,
    EnableSingleTexture(usize),
    DisableSingleTexture,
    TriListXyRgbaUv(usize),
    TriListXyRgba(usize),
    ClearRgba(Color),
}

/// The record that `RecordingBackEnd` keeps of the call `c`.
pub open spec fn event_of(c: Call) -> Event {
    match c {
        Call::EnableAlphaBlend => Event::EnableAlphaBlend,
        Call::DisableAlphaBlend => Event::DisableAlphaBlend,
        Call::EnableSingleTexture(t) => Event::EnableSingleTexture(t),
        Call::DisableSingleTexture => Event::DisableSingleTexture,
        Call::TriListXyRgbaUv(xy, _, _) => Event::TriListXyRgbaUv((xy.len() / 2) as usize),
        Call::TriListXyRgba(xy, _) => Event::TriListXyRgba((xy.len() / 2) as usize),
        Call::ClearRgba(c) => Event::ClearRgba(c),
    }
}

/// A back end that draws nothing and records each call made on it.
pub struct RecordingBackEnd {
    /// What this back end reports that it offers.
    pub capabilities: Capabilities,
    /// The textures that this back end reports to have an alpha channel.
    pub alpha_textures: Vec<usize>,
    events: Vec<Event>,
    calls: Ghost<Seq<Call>>,
}

impl RecordingBackEnd {
    /// A back end with the given capabilities and textures with alpha, on
    /// which no call has been made.
    pub fn new(capabilities: Capabilities, alpha_textures: Vec<usize>) -> (r: RecordingBackEnd)
        ensures
            r.inv(),
            r.log() == Seq::<Call>::empty(),
            r.capabilities() == capabilities,
            forall|t: usize| r.texture_has_alpha(t) == alpha_textures@.contains(t),
    {
        RecordingBackEnd { capabilities, alpha_textures, events: Vec::new(), calls: Ghost(Seq::empty()) }
    }

    /// The record of each call made so far, oldest first.
    pub fn events(&self) -> (r: &Vec<Event>)
        requires
            self.inv(),
        ensures
            r@ == self.log().map_values(|c: Call| event_of(c)),
    {
        assert(self.events@ =~= self.log().map_values(|c: Call| event_of(c)));
        &self.events
    }

    fn record(&mut self, e: Event, Ghost(c): Ghost<Call>)
        requires
            old(self).inv(),
            e == event_of(c),
        ensures
            final(self).inv(),
            final(self).log() == old(self).log().push(c),
            final(self).capabilities == old(self).capabilities,
            final(self).alpha_textures == old(self).alpha_textures,
    {
        self.events.push(e);
        self.calls = Ghost(self.calls@.push(c));
    }
}

impl BackEnd for RecordingBackEnd {
    closed spec fn inv(&self) -> bool {
        &&& self.events@.len() == self.calls@.len()
        &&& forall|i: int| 0 <= i < self.events@.len() ==> self.events@[i] == event_of(#[trigger] self.calls@[i])
    }

    closed spec fn log(&self) -> Seq<Call> {
        self.calls@
    }

    closed spec fn capabilities(&self) -> Capabilities {
        self.capabilities
    }

    closed spec fn texture_has_alpha(&self, texture_id: usize) -> bool {
        self.alpha_textures@.contains(texture_id)
    }

    fn supports_single_texture(&self) -> (r: bool) {
        self.capabilities.single_texture
    }

    fn supports_tri_list_xy_rgba_uv(&self) -> (r: bool) {
        self.capabilities.tri_list_xy_rgba_uv
    }

    fn supports_tri_list_xy_rgba(&self) -> (r: bool) {
        self.capabilities.tri_list_xy_rgba
    }

    fn supports_clear_rgba(&self) -> (r: bool) {
        self.capabilities.clear_rgba
    }

    fn has_texture_alpha(&self, texture_id: usize) -> (r: bool) {
        let mut i: usize = 0;
        while i < self.alpha_textures.len()
            invariant
                i <= self.alpha_textures@.len(),
                forall|j: int| 0 <= j < i ==> self.alpha_textures@[j] != texture_id,
            decreases self.alpha_textures@.len() - i,
        {
            if self.alpha_textures[i] == texture_id {
                return true;
            }
            i = i + 1;
        }
        false
    }

    fn enable_alpha_blend(&mut self) {
        self.record(Event::EnableAlphaBlend, Ghost(Call::EnableAlphaBlend));
    }

    fn disable_alpha_blend(&mut self) {
        self.record(Event::DisableAlphaBlend, Ghost(Call::DisableAlphaBlend));
    }

    fn enable_single_texture(&mut self, texture_id: usize) {
        self.record(Event::EnableSingleTexture(texture_id), Ghost(Call::EnableSingleTexture(texture_id)));
    }

    fn disable_single_texture(&mut self) {
        self.record(Event::DisableSingleTexture, Ghost(Call::DisableSingleTexture));
    }

    fn tri_list_xy_rgba_uv(&mut self, xy: &[i64], rgba: &[u8], uv: &[i64]) {
        self.record(Event::TriListXyRgbaUv(xy.len() / 2), Ghost(Call::TriListXyRgbaUv(xy@, rgba@, uv@)));
    }

    fn tri_list_xy_rgba(&mut self, xy: &[i64], rgba: &[u8]) {
        self.record(Event::TriListXyRgba(xy.len() / 2), Ghost(Call::TriListXyRgba(xy@, rgba@)));
    }

    fn clear_rgba(&mut self, color: Color) {
        self.record(Event::ClearRgba(color), Ghost(Call::ClearRgba(color)));
    }
}

} // verus!

verus! {

/// Whether `c` turns alpha blending on or off.
pub open spec fn is_blend_toggle(c: Call) -> bool {
    c is EnableAlphaBlend || c is DisableAlphaBlend
}

/// `calls` between an enabling and a disabling of alpha blending when
/// `needs_alpha`, and `calls` alone otherwise.
pub open spec fn blended(calls: Seq<Call>, needs_alpha: bool) -> Seq<Call> {
    if needs_alpha {
        seq![Call::EnableAlphaBlend] + calls + seq![Call::DisableAlphaBlend]
    } else {
        calls
    }
}

/// `calls` hold no submission and no blend toggle.
pub open spec fn is_silent(calls: Seq<Call>) -> bool {
    forall|i: int| 0 <= i < calls.len() ==> !is_submission(#[trigger] calls[i]) && !is_blend_toggle(calls[i])
}

/// `calls` open with the one enabling of alpha blending among them and
/// close with the one disabling.
pub open spec fn is_bracketed_by_blend(calls: Seq<Call>) -> bool {
    &&& calls.len() >= 2
    &&& calls[0] == Call::EnableAlphaBlend
    &&& calls.last() == Call::DisableAlphaBlend
    &&& forall|i: int| 0 < i < calls.len() - 1 ==> !is_blend_toggle(#[trigger] calls[i])
}

/// Blending wrapped round calls that toggle no blending toggles it exactly
/// once each way, first and last.
pub proof fn lemma_blended_brackets(calls: Seq<Call>)
    requires
        forall|i: int| 0 <= i < calls.len() ==> !is_blend_toggle(#[trigger] calls[i]),
    ensures
        is_bracketed_by_blend(blended(calls, true)),
{
    let b = blended(calls, true);
    assert forall|i: int| 0 < i < b.len() - 1 implies !is_blend_toggle(#[trigger] b[i]) by {
        assert(b[i] == calls[i - 1]);
    }
}

} // verus!
