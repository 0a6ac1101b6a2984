//! The text state: text and line matrices and text layout parameters.
use vstd::prelude::*;

use crate::fixed::{fx_sub, sub_spec, ONE};
use crate::geometry::{concat_spec, identity_spec, translation_spec, Matrix, Point};

verus! {

/// How glyphs are painted.
#[derive(Clone, Copy, Debug, PartialEq, Eq, Structural)]
pub enum TextMode {
    Fill,
    Stroke,
    FillThenStroke,
    Invisible,
    FillAndClip,
    StrokeAndClip,
}

/// The text state. `horiz_scale` is a fraction (a setting of 100 is one).
#[derive(Clone, Copy, Debug, PartialEq, Eq, Structural)]
pub struct TextState {
    pub text_matrix: Matrix,
    pub line_matrix: Matrix,
    pub char_space: i32,
    pub word_space: i32,
    pub horiz_scale: i32,
    pub leading: i32,
    pub font_size: i32,
    pub mode: TextMode,
    pub rise: i32,
    pub knockout: i32,
}

pub open spec fn initial_text_state() -> TextState {
    TextState {
        text_matrix: identity_spec(),
        line_matrix: identity_spec(),
        char_space: 0,
        word_space: 0,
        horiz_scale: ONE,
        leading: 0,
        font_size: 0,
        mode: TextMode::Fill,
        rise: 0,
        knockout: 0,
    }
}

/// Both matrices set to `m`.
pub open spec fn set_matrix_spec(ts: TextState, m: Matrix) -> TextState {
    TextState { text_matrix: m, line_matrix: m, ..ts }
}

/// Both matrices set to the line matrix moved by `v`.
pub open spec fn translate_spec(ts: TextState, v: Point) -> TextState {
    set_matrix_spec(ts, concat_spec(ts.line_matrix, translation_spec(v)))
}

/// The start of the next line, `leading` below the current one.
pub open spec fn next_line_spec(ts: TextState) -> TextState {
    translate_spec(ts, Point { x: 0, y: sub_spec(0, ts.leading as int) as i32 })
}

impl TextState {
    /// Identity matrices, no spacing, unit scale, fill mode.
    pub fn new() -> (r: TextState)
        ensures
            r == initial_text_state(),
    {
        TextState {
            text_matrix: Matrix::identity(),
            line_matrix: Matrix::identity(),
            char_space: 0,
            word_space: 0,
            horiz_scale: ONE,
            leading: 0,
            font_size: 0,
            mode: TextMode::Fill,
            rise: 0,
            knockout: 0,
        }
    }

    /// Sets both matrices to the identity.
    pub fn reset_matrix(&mut self)
        ensures
            *final(self) == set_matrix_spec(*old(self), identity_spec()),
    {
        self.set_matrix(Matrix::identity());
    }

    /// Sets the text matrix and the line matrix to `m`.
    pub fn set_matrix(&mut self, m: Matrix)
        ensures
            *final(self) == set_matrix_spec(*old(self), m),
    {
        self.text_matrix = m;
        self.line_matrix = m;
    }

    /// Moves the line matrix by `v` and sets both matrices to the result.
    pub fn translate(&mut self, v: Point)
        ensures
            *final(self) == translate_spec(*old(self), v),
    {
        let m = self.line_matrix.concat(&Matrix::translation(v));
        self.set_matrix(m);
    }

    /// Moves to the start of the next line.
    pub fn next_line(&mut self)
        ensures
            *final(self) == next_line_spec(*old(self)),
    {
        self.translate(Point { x: 0, y: fx_sub(0, self.leading) });
    }
}

/// An axis-aligned box given by its corners.
#[derive(Clone, Copy, Debug, PartialEq, Eq, Structural)]
pub struct Bounds {
    pub min_x: i32,
    pub min_y: i32,
    pub max_x: i32,
    pub max_y: i32,
}

/// The smallest box that holds both boxes' corners.
pub open spec fn union_spec(a: Bounds, b: Bounds) -> Bounds {
    Bounds {
        min_x: if a.min_x <= b.min_x { a.min_x } else { b.min_x },
        min_y: if a.min_y <= b.min_y { a.min_y } else { b.min_y },
        max_x: if a.max_x >= b.max_x { a.max_x } else { b.max_x },
        max_y: if a.max_y >= b.max_y { a.max_y } else { b.max_y },
    }
}

/// A bounding box that grows as boxes are added; `None` until the first.
#[derive(Clone, Copy, Debug, PartialEq, Eq, Structural)]
pub struct BBox(pub Option<Bounds>);

pub open spec fn add_spec(bb: BBox, r: Bounds) -> BBox {
    match bb.0 {
        Some(r1) => BBox(Some(union_spec(r1, r))),
        None => BBox(Some(r)),
    }
}

impl BBox {
    /// A box that holds nothing yet.
    pub fn empty() -> (r: BBox)
        ensures
            r == BBox(None),
    {
        BBox(None)
    }

    /// Grows the box to hold `r`.
    pub fn add(&mut self, r: Bounds)
        ensures
            *final(self) == add_spec(*old(self), r),
    {
        self.0 = Some(
            match self.0 {
                Some(r1) => Bounds {
                    min_x: if r1.min_x <= r.min_x { r1.min_x } else { r.min_x },
                    min_y: if r1.min_y <= r.min_y { r1.min_y } else { r.min_y },
                    max_x: if r1.max_x >= r.max_x { r1.max_x } else { r.max_x },
                    max_y: if r1.max_y >= r.max_y { r1.max_y } else { r.max_y },
                },
                None => r,
            },
        );
    }

    /// Grows the box to hold another one.
    pub fn add_bbox(&mut self, bb: BBox)
        ensures
            *final(self) == match bb.0 {
                Some(r) => add_spec(*old(self), r),
                None => *old(self),
            },
    {
        if let Some(r) = bb.0 {
            self.add(r);
        }
    }

    /// The box, if anything was added.
    pub fn rect(self) -> (r: Option<Bounds>)
        ensures
            r == self.0,
    {
        self.0
    }
}

} // verus!
