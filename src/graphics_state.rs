//! The graphics state: transform, stroke style, paints, clip and color
//! spaces.
use vstd::prelude::*;

use crate::color::{BlendMode, Fill, DEVICE_RGB};
use crate::fixed::{fx_mul, mul_spec, ONE};
use crate::geometry::Matrix;
use crate::plotter::{ClipPathId, FillMode, Stroke};

verus! {

/// How the ends of open strokes are drawn.
#[derive(Clone, Copy, Debug, PartialEq, Eq, Structural)]
pub enum LineCap {
    Butt,
    Square,
    Round,
}

/// How stroke segments are joined; a miter carries its limit.
#[derive(Clone, Copy, Debug, PartialEq, Eq, Structural)]
pub enum LineJoin {
    Miter(i32),
    Bevel,
    Round,
}

/// Stroke parameters. Only the line width is set by operators.
#[derive(Clone, Copy, Debug, PartialEq, Eq, Structural)]
pub struct StrokeStyle {
    pub line_width: i32,
    pub line_cap: LineCap,
    pub line_join: LineJoin,
}

pub open spec fn default_stroke_style() -> StrokeStyle {
    StrokeStyle { line_width: ONE, line_cap: LineCap::Butt, line_join: LineJoin::Miter(655360) }
}

impl Default for StrokeStyle {
    /// Width one, butt caps, miter joins with limit ten.
    fn default() -> (r: StrokeStyle)
        ensures
            r == default_stroke_style(),
    {
        StrokeStyle { line_width: ONE, line_cap: LineCap::Butt, line_join: LineJoin::Miter(655360) }
    }
}

/// The graphics state. `fill_paint` and `stroke_paint` cache a plotter's
/// handle for the current paint; a change of color or effective alpha clears
/// them. The color spaces are indices into the page's
/// [`Resources`](crate::color::Resources).
#[derive(Clone, Copy, Debug, PartialEq, Eq, Structural)]
pub struct GraphicsState {
    pub transform: Matrix,
    pub stroke_style: StrokeStyle,
    pub fill_color: Fill,
    pub fill_color_alpha: i32,
    pub fill_paint: Option<u16>,
    pub stroke_color: Fill,
    pub stroke_color_alpha: i32,
    pub stroke_paint: Option<u16>,
    pub clip_path_id: Option<ClipPathId>,
    pub fill_color_space: usize,
    pub stroke_color_space: usize,
    pub stroke_alpha: i32,
    pub fill_alpha: i32,
    pub overprint_fill: bool,
    pub overprint_stroke: bool,
    pub overprint_mode: i32,
}

pub open spec fn initial_graphics_state(transform: Matrix) -> GraphicsState {
    GraphicsState {
        transform,
        stroke_style: default_stroke_style(),
        fill_color: Fill::Solid(0, 0, 0),
        fill_color_alpha: ONE,
        fill_paint: None,
        stroke_color: Fill::Solid(0, 0, 0),
        stroke_color_alpha: ONE,
        stroke_paint: None,
        clip_path_id: None,
        fill_color_space: DEVICE_RGB,
        stroke_color_space: DEVICE_RGB,
        stroke_alpha: ONE,
        fill_alpha: ONE,
        overprint_fill: false,
        overprint_stroke: false,
        overprint_mode: 0,
    }
}

/// The state after setting the fill color: unchanged if the color is equal.
pub open spec fn with_fill_color(gs: GraphicsState, fill: Fill) -> GraphicsState {
    if fill == gs.fill_color {
        gs
    } else {
        GraphicsState { fill_color: fill, fill_paint: None, ..gs }
    }
}

pub open spec fn with_stroke_color(gs: GraphicsState, fill: Fill) -> GraphicsState {
    if fill == gs.stroke_color {
        gs
    } else {
        GraphicsState { stroke_color: fill, stroke_paint: None, ..gs }
    }
}

/// The state after an alpha `alpha` on top of the base fill alpha.
pub open spec fn with_fill_alpha(gs: GraphicsState, alpha: i32) -> GraphicsState {
    let a = mul_spec(gs.fill_alpha as int, alpha as int) as i32;
    if a == gs.fill_color_alpha {
        gs
    } else {
        GraphicsState { fill_color_alpha: a, fill_paint: None, ..gs }
    }
}

pub open spec fn with_stroke_alpha(gs: GraphicsState, alpha: i32) -> GraphicsState {
    let a = mul_spec(gs.stroke_alpha as int, alpha as int) as i32;
    if a == gs.stroke_color_alpha {
        gs
    } else {
        GraphicsState { stroke_color_alpha: a, stroke_paint: None, ..gs }
    }
}

/// Overprinting draws with `Darken`, everything else with `Overlay`.
pub open spec fn blend_mode_spec(overprint: bool) -> BlendMode {
    if overprint {
        BlendMode::Darken
    } else {
        BlendMode::Overlay
    }
}

pub open spec fn fill_mode_spec(gs: GraphicsState) -> FillMode {
    FillMode {
        color: gs.fill_color,
        alpha: gs.fill_color_alpha,
        mode: blend_mode_spec(gs.overprint_fill),
    }
}

pub open spec fn stroke_mode_spec(gs: GraphicsState) -> FillMode {
    FillMode {
        color: gs.stroke_color,
        alpha: gs.stroke_color_alpha,
        mode: blend_mode_spec(gs.overprint_stroke),
    }
}

impl GraphicsState {
    /// The state at the start of a page drawn with `transform`: black paints,
    /// full alpha, `DeviceRGB` spaces, no clip, no overprint.
    pub fn new(transform: Matrix) -> (r: GraphicsState)
        ensures
            r == initial_graphics_state(transform),
    {
        GraphicsState {
            transform,
            stroke_style: StrokeStyle::default(),
            fill_color: Fill::black(),
            fill_color_alpha: ONE,
            fill_paint: None,
            stroke_color: Fill::black(),
            stroke_color_alpha: ONE,
            stroke_paint: None,
            clip_path_id: None,
            fill_color_space: DEVICE_RGB,
            stroke_color_space: DEVICE_RGB,
            stroke_alpha: ONE,
            fill_alpha: ONE,
            overprint_fill: false,
            overprint_stroke: false,
            overprint_mode: 0,
        }
    }

    /// Sets the fill color; only a different color clears the fill paint.
    pub fn set_fill_color(&mut self, fill: Fill)
        ensures
            *final(self) == with_fill_color(*old(self), fill),
    {
        if fill != self.fill_color {
            self.fill_color = fill;
            self.fill_paint = None;
        }
    }

    /// Sets the effective fill alpha to `fill_alpha * alpha`; only a
    /// different value clears the fill paint.
    pub fn set_fill_alpha(&mut self, alpha: i32)
        ensures
            *final(self) == with_fill_alpha(*old(self), alpha),
    {
        let a = fx_mul(self.fill_alpha, alpha);
        if a != self.fill_color_alpha {
            self.fill_color_alpha = a;
            self.fill_paint = None;
        }
    }

    /// Sets the stroke color; only a different color clears the stroke paint.
    pub fn set_stroke_color(&mut self, fill: Fill)
        ensures
            *final(self) == with_stroke_color(*old(self), fill),
    {
        if fill != self.stroke_color {
            self.stroke_color = fill;
            self.stroke_paint = None;
        }
    }

    /// Sets the effective stroke alpha to `stroke_alpha * alpha`; only a
    /// different value clears the stroke paint.
    pub fn set_stroke_alpha(&mut self, alpha: i32)
        ensures
            *final(self) == with_stroke_alpha(*old(self), alpha),
    {
        let a = fx_mul(self.stroke_alpha, alpha);
        if a != self.stroke_color_alpha {
            self.stroke_color_alpha = a;
            self.stroke_paint = None;
        }
    }

    /// The stroke parameters for the next draw call.
    pub fn stroke(&self) -> (r: Stroke)
        ensures
            r == (Stroke { style: self.stroke_style }),
    {
        Stroke { style: self.stroke_style }
    }

    /// The blend mode of fills.
    pub fn blend_mode_fill(&self) -> (r: BlendMode)
        ensures
            r == blend_mode_spec(self.overprint_fill),
    {
        if self.overprint_fill {
            BlendMode::Darken
        } else {
            BlendMode::Overlay
        }
    }

    /// The blend mode of strokes.
    pub fn blend_mode_stroke(&self) -> (r: BlendMode)
        ensures
            r == blend_mode_spec(self.overprint_stroke),
    {
        if self.overprint_stroke {
            BlendMode::Darken
        } else {
            BlendMode::Overlay
        }
    }

    /// The fill paint of the next draw call.
    pub fn fill_mode(&self) -> (r: FillMode)
        ensures
            r == fill_mode_spec(*self),
    {
        FillMode { color: self.fill_color, alpha: self.fill_color_alpha, mode: self.blend_mode_fill() }
    }

    /// The stroke paint of the next draw call.
    pub fn stroke_mode(&self) -> (r: FillMode)
        ensures
            r == stroke_mode_spec(*self),
    {
        FillMode {
            color: self.stroke_color,
            alpha: self.stroke_color_alpha,
            mode: self.blend_mode_stroke(),
        }
    }
}

/// Writing a color equal to the current one keeps the cached paint; writing
/// a different one clears it. The same holds of both paints.
pub proof fn lemma_color_write_invalidation(gs: GraphicsState, fill: Fill)
    ensures
        fill == gs.fill_color ==> with_fill_color(gs, fill) == gs,
        fill != gs.fill_color ==> with_fill_color(gs, fill).fill_paint is None
            && with_fill_color(gs, fill).fill_color == fill,
        fill == gs.stroke_color ==> with_stroke_color(gs, fill) == gs,
        fill != gs.stroke_color ==> with_stroke_color(gs, fill).stroke_paint is None
            && with_stroke_color(gs, fill).stroke_color == fill,
{
}

/// An alpha write whose effective value equals the current one keeps the
/// cached paint; one that changes it clears the paint.
pub proof fn lemma_alpha_write_invalidation(gs: GraphicsState, alpha: i32)
    ensures
        mul_spec(gs.fill_alpha as int, alpha as int) == gs.fill_color_alpha ==> with_fill_alpha(
            gs,
            alpha,
        ) == gs,
        mul_spec(gs.fill_alpha as int, alpha as int) != gs.fill_color_alpha ==> with_fill_alpha(
            gs,
            alpha,
        ).fill_paint is None,
        mul_spec(gs.stroke_alpha as int, alpha as int) == gs.stroke_color_alpha ==> with_stroke_alpha(
            gs,
            alpha,
        ) == gs,
        mul_spec(gs.stroke_alpha as int, alpha as int) != gs.stroke_color_alpha
            ==> with_stroke_alpha(gs, alpha).stroke_paint is None,
{
}

} // verus!
