//! Draw commands handed to a plotter.
use vstd::prelude::*;

use crate::color::{BlendMode, Fill};
use crate::geometry::Matrix;
use crate::graphics_state::StrokeStyle;
use crate::path::{ContourView, Outline};

verus! {

/// A paint with its effective alpha and blend mode.
#[derive(Clone, Copy, Debug, PartialEq, Eq, Structural)]
pub struct FillMode {
    pub color: Fill,
    pub alpha: i32,
    pub mode: BlendMode,
}

/// The stroke parameters of a draw call. Dash operators are recognised but
/// not applied, so a stroke carries its style alone.
#[derive(Clone, Copy, Debug, PartialEq, Eq, Structural)]
pub struct Stroke {
    pub style: StrokeStyle,
}

/// What a draw call paints.
#[derive(Clone, Copy, Debug, PartialEq, Eq, Structural)]
pub enum DrawMode {
    Fill { fill: FillMode },
    Stroke { stroke: FillMode, stroke_mode: Stroke },
    FillStroke { fill: FillMode, stroke: FillMode, stroke_mode: Stroke },
}

/// The rule that decides which points an outline encloses.
#[derive(Clone, Copy, Debug, PartialEq, Eq, Structural)]
pub enum FillRule {
    Winding,
    EvenOdd,
}

/// A reference to a clip path.
#[derive(Clone, Copy, Debug, PartialEq, Eq, Hash, Structural)]
pub struct ClipPathId(pub u32);

/// One finished draw command: an outline in user space, its paint and fill
/// rule, the transform to device space, and the active clip path.
#[derive(Debug)]
pub struct DrawCall {
    pub outline: Outline,
    pub mode: DrawMode,
    pub fill_rule: FillRule,
    pub transform: Matrix,
    pub clip: Option<ClipPathId>,
}

pub struct DrawView {
    pub outline: Seq<ContourView>,
    pub mode: DrawMode,
    pub fill_rule: FillRule,
    pub transform: Matrix,
    pub clip: Option<ClipPathId>,
}

impl View for DrawCall {
    type V = DrawView;

    open spec fn view(&self) -> DrawView {
        DrawView {
            outline: self.outline@,
            mode: self.mode,
            fill_rule: self.fill_rule,
            transform: self.transform,
            clip: self.clip,
        }
    }
}

/// A new clip path: the current path, its fill rule and transform, and the
/// clip path that was active before (which it narrows).
#[derive(Debug)]
pub struct ClipPath {
    pub id: ClipPathId,
    pub parent: Option<ClipPathId>,
    pub outline: Outline,
    pub fill_rule: FillRule,
    pub transform: Matrix,
}

pub struct ClipView {
    pub id: ClipPathId,
    pub parent: Option<ClipPathId>,
    pub outline: Seq<ContourView>,
    pub fill_rule: FillRule,
    pub transform: Matrix,
}

impl View for ClipPath {
    type V = ClipView;

    open spec fn view(&self) -> ClipView {
        ClipView {
            id: self.id,
            parent: self.parent,
            outline: self.outline@,
            fill_rule: self.fill_rule,
            transform: self.transform,
        }
    }
}

/// A receiver of draw calls and clip paths: a rasterizer or an exporter.
pub trait Plotter {
    fn draw(&mut self, call: &DrawCall);

    fn clip(&mut self, clip: &ClipPath);
}

} // verus!
