//! The content-stream interpreter: consumes operators one at a time,
//! updates the graphics and text state, builds paths, and produces draw
//! calls.
use vstd::prelude::*;

use crate::color::{
    all_numbers, channel_count, channel_count_exec, numbers, resolve, resolve_spec, result_view, tint_fill, tint_spec, find_last,
    Color, ColorError, ColorSpace, Fill, Operand, Outcome, Resolved, Resources, TintRequest, TintView, DEVICE_CMYK,
    DEVICE_GRAY, DEVICE_RGB, PATTERN,
};
use crate::fixed::{fx_percent, percent_spec};
use crate::geometry::{concat_spec, identity_spec, Matrix, Point, Rect};
use crate::graphics_state::{
    fill_mode_spec, initial_graphics_state, stroke_mode_spec, with_fill_color, with_stroke_color,
    GraphicsState,
};
use crate::path::{
    close_spec, curve_spec, empty_path, flush_spec, line_spec, move_spec, rect_spec, ContourView,
    PathBuilder, PathView,
};
use crate::plotter::{
    ClipPath, ClipPathId, ClipView, DrawCall, DrawMode, DrawView, FillRule, Stroke,
};
use crate::text_state::{
    initial_text_state, next_line_spec, set_matrix_spec, translate_spec, TextMode, TextState,
};

verus! {

/// The fill rule named by a path-painting or clipping operator.
#[derive(Clone, Copy, Debug, PartialEq, Eq, Structural)]
pub enum Winding {
    NonZero,
    EvenOdd,
}

pub open spec fn fill_rule_spec(w: Winding) -> FillRule {
    match w {
        Winding::NonZero => FillRule::Winding,
        Winding::EvenOdd => FillRule::EvenOdd,
    }
}

/// The fill rule for a winding.
pub fn fill_rule(w: Winding) -> (r: FillRule)
    ensures
        r == fill_rule_spec(w),
{
    match w {
        Winding::NonZero => FillRule::Winding,
        Winding::EvenOdd => FillRule::EvenOdd,
    }
}

/// One operator of a content stream, with its decoded operands. Operators
/// whose work lies outside this library carry no operands.
#[derive(Debug)]
pub enum Op {
    BeginMarkedContent,
    EndMarkedContent,
    MarkedContentPoint,
    Close,
    MoveTo { p: Point },
    LineTo { p: Point },
    CurveTo { c1: Point, c2: Point, p: Point },
    Rect { rect: Rect },
    EndPath,
    Stroke,
    FillAndStroke { winding: Winding },
    Fill { winding: Winding },
    Shade,
    Clip { winding: Winding },
    Save,
    Restore,
    Transform { matrix: Matrix },
    LineWidth { width: i32 },
    Dash,
    LineJoin,
    LineCap,
    MiterLimit,
    Flatness,
    GraphicsState,
    StrokeColor { color: Color },
    FillColor { color: Color },
    FillColorSpace { name: String },
    StrokeColorSpace { name: String },
    RenderingIntent,
    BeginText,
    EndText,
    CharSpacing { char_space: i32 },
    WordSpacing { word_space: i32 },
    TextScaling { horiz_scale: i32 },
    Leading { leading: i32 },
    TextFont { name: String, size: i32 },
    TextRenderMode { mode: TextMode },
    TextRise { rise: i32 },
    MoveTextPosition { translation: Point },
    SetTextMatrix { matrix: Matrix },
    TextNewline,
    TextDraw,
    TextDrawAdjusted,
    XObject,
    InlineImage,
}

/// Which paint a color operator sets.
#[derive(Clone, Copy, Debug, PartialEq, Eq, Structural)]
pub enum Side {
    Fill,
    Stroke,
}

/// Why rendering stopped.
#[derive(Clone, Copy, Debug, PartialEq, Eq, Structural)]
pub enum RenderError {
    /// A color could not be resolved and the renderer is strict.
    Color(ColorError),
    /// A color space operator named no known color space.
    ColorSpaceNotFound,
    /// `Restore` found no saved state.
    StackEmpty,
}

/// What one operator produced.
#[derive(Debug)]
pub enum Output {
    Nothing,
    Draw(DrawCall),
    Clip(ClipPath),
    /// A color waits for a tint transform; hand its output to
    /// [`RenderState::finish_tint`].
    Tint { side: Side, request: TintRequest },
    /// A lenient renderer painted black in place of a color it could not
    /// resolve.
    ColorFallback { side: Side, error: ColorError },
}

pub enum OutputView {
    Nothing,
    Draw(DrawView),
    Clip(ClipView),
    Tint { side: Side, request: TintView },
    ColorFallback { side: Side, error: ColorError },
}

impl View for Output {
    type V = OutputView;

    open spec fn view(&self) -> OutputView {
        match self {
            Output::Nothing => OutputView::Nothing,
            Output::Draw(d) => OutputView::Draw(d@),
            Output::Clip(c) => OutputView::Clip(c@),
            Output::Tint { side, request } => OutputView::Tint { side: *side, request: request@ },
            Output::ColorFallback { side, error } => OutputView::ColorFallback {
                side: *side,
                error: *error,
            },
        }
    }
}

pub open spec fn output_view(r: Result<Output, RenderError>) -> Result<OutputView, RenderError> {
    match r {
        Ok(o) => Ok(o@),
        Err(e) => Err(e),
    }
}

/// The interpreter of one page. `resources` and `lenient` do not change
/// while it runs: a lenient renderer paints black where a color cannot be
/// resolved, a strict one stops.
#[derive(Debug)]
pub struct RenderState {
    pub graphics_state: GraphicsState,
    pub text_state: TextState,
    pub path: PathBuilder,
    pub stack: Vec<(GraphicsState, TextState)>,
    pub resources: Resources,
    pub lenient: bool,
    pub next_clip: u32,
}

/// The part of a [`RenderState`] that operators change.
pub struct RenderView {
    pub gs: GraphicsState,
    pub ts: TextState,
    pub path: PathView,
    pub stack: Seq<(GraphicsState, TextState)>,
    pub next_clip: u32,
}

impl View for RenderState {
    type V = RenderView;

    open spec fn view(&self) -> RenderView {
        RenderView {
            gs: self.graphics_state,
            ts: self.text_state,
            path: self.path@,
            stack: self.stack@,
            next_clip: self.next_clip,
        }
    }
}

pub open spec fn initial_view(transform: Matrix) -> RenderView {
    RenderView {
        gs: initial_graphics_state(transform),
        ts: initial_text_state(),
        path: empty_path(),
        stack: Seq::empty(),
        next_clip: 0,
    }
}

pub open spec fn active_space(gs: GraphicsState, side: Side) -> usize {
    match side {
        Side::Fill => gs.fill_color_space,
        Side::Stroke => gs.stroke_color_space,
    }
}

pub open spec fn bind_space(gs: GraphicsState, side: Side, space: usize) -> GraphicsState {
    match side {
        Side::Fill => GraphicsState { fill_color_space: space, ..gs },
        Side::Stroke => GraphicsState { stroke_color_space: space, ..gs },
    }
}

pub open spec fn set_color(gs: GraphicsState, side: Side, fill: Fill) -> GraphicsState {
    match side {
        Side::Fill => with_fill_color(gs, fill),
        Side::Stroke => with_stroke_color(gs, fill),
    }
}

/// The state after the color `fill`, interpreted by the space at `space`.
pub open spec fn apply_color(gs: GraphicsState, side: Side, space: usize, fill: Fill) -> GraphicsState {
    set_color(bind_space(gs, side, space), side, fill)
}

/// A failed color: black and a diagnostic when lenient, else the error.
pub open spec fn color_failure(s: RenderView, lenient: bool, side: Side, e: ColorError) -> (
    RenderView,
    Result<OutputView, RenderError>,
) {
    if lenient {
        (
            RenderView { gs: set_color(s.gs, side, Fill::Solid(0, 0, 0)), ..s },
            Ok(OutputView::ColorFallback { side, error: e }),
        )
    } else {
        (s, Err(RenderError::Color(e)))
    }
}

pub open spec fn color_step(s: RenderView, res: Resources, lenient: bool, side: Side, color: Color) -> (
    RenderView,
    Result<OutputView, RenderError>,
) {
    match resolve_spec(res, active_space(s.gs, side), color) {
        Ok(Outcome::Done { fill, space }) => (
            RenderView { gs: apply_color(s.gs, side, space, fill), ..s },
            Ok(OutputView::Nothing),
        ),
        Ok(Outcome::Tint(t)) => (s, Ok(OutputView::Tint { side, request: t })),
        Err(e) => color_failure(s, lenient, side, e),
    }
}

/// The color space that a color space operator names: a device space, the
/// pattern space, or a space bound in the resources.
pub open spec fn space_by_name(res: Resources, name: Seq<char>) -> Option<usize> {
    if name == "DeviceGray"@ {
        Some(DEVICE_GRAY)
    } else if name == "DeviceRGB"@ {
        Some(DEVICE_RGB)
    } else if name == "DeviceCMYK"@ {
        Some(DEVICE_CMYK)
    } else if name == "Pattern"@ {
        Some(PATTERN)
    } else {
        find_last(res.color_spaces@, name)
    }
}

/// Selecting a color space also resets its color to black.
pub open spec fn space_step(s: RenderView, res: Resources, side: Side, name: Seq<char>) -> (
    RenderView,
    Result<OutputView, RenderError>,
) {
    match space_by_name(res, name) {
        Some(i) => (
            RenderView { gs: apply_color(s.gs, side, i, Fill::Solid(0, 0, 0)), ..s },
            Ok(OutputView::Nothing),
        ),
        None => (s, Err(RenderError::ColorSpaceNotFound)),
    }
}

/// Flushes the path and draws its outline, leaving no outline behind.
pub open spec fn draw_step(s: RenderView, mode: DrawMode, rule: FillRule) -> (
    RenderView,
    Result<OutputView, RenderError>,
) {
    let f = flush_spec(s.path);
    (
        RenderView { path: PathView { outline: Seq::empty(), contour: f.contour }, ..s },
        Ok(
            OutputView::Draw(
                DrawView {
                    outline: f.outline,
                    mode,
                    fill_rule: rule,
                    transform: s.gs.transform,
                    clip: s.gs.clip_path_id,
                },
            ),
        ),
    )
}

pub open spec fn next_clip_spec(n: u32) -> u32 {
    if n == u32::MAX {
        0
    } else {
        (n + 1) as u32
    }
}

/// Flushes the path and makes it a new clip path, which becomes active.
pub open spec fn clip_step(s: RenderView, rule: FillRule) -> (
    RenderView,
    Result<OutputView, RenderError>,
) {
    let f = flush_spec(s.path);
    let id = ClipPathId(s.next_clip);
    (
        RenderView {
            gs: GraphicsState { clip_path_id: Some(id), ..s.gs },
            path: f,
            next_clip: next_clip_spec(s.next_clip),
            ..s
        },
        Ok(
            OutputView::Clip(
                ClipView {
                    id,
                    parent: s.gs.clip_path_id,
                    outline: f.outline,
                    fill_rule: rule,
                    transform: s.gs.transform,
                },
            ),
        ),
    )
}

pub open spec fn with_text(s: RenderView, ts: TextState) -> (RenderView, Result<OutputView, RenderError>) {
    (RenderView { ts, ..s }, Ok(OutputView::Nothing))
}

pub open spec fn with_gs(s: RenderView, gs: GraphicsState) -> (RenderView, Result<OutputView, RenderError>) {
    (RenderView { gs, ..s }, Ok(OutputView::Nothing))
}

pub open spec fn with_path(s: RenderView, path: PathView) -> (RenderView, Result<OutputView, RenderError>) {
    (RenderView { path, ..s }, Ok(OutputView::Nothing))
}

/// What one operator does to the interpreter, and what it produces.
pub open spec fn step(s: RenderView, res: Resources, lenient: bool, op: Op) -> (
    RenderView,
    Result<OutputView, RenderError>,
) {
    match op {
        Op::Close => with_path(s, close_spec(s.path)),
        Op::MoveTo { p } => with_path(s, move_spec(s.path, p)),
        Op::LineTo { p } => with_path(s, line_spec(s.path, p)),
        Op::CurveTo { c1, c2, p } => with_path(s, curve_spec(s.path, c1, c2, p)),
        Op::Rect { rect } => with_path(s, rect_spec(s.path, rect)),
        Op::EndPath => with_path(s, empty_path()),
        Op::Stroke => draw_step(
            s,
            DrawMode::Stroke {
                stroke: stroke_mode_spec(s.gs),
                stroke_mode: Stroke { style: s.gs.stroke_style },
            },
            FillRule::Winding,
        ),
        Op::FillAndStroke { winding } => draw_step(
            s,
            DrawMode::FillStroke {
                fill: fill_mode_spec(s.gs),
                stroke: stroke_mode_spec(s.gs),
                stroke_mode: Stroke { style: s.gs.stroke_style },
            },
            fill_rule_spec(winding),
        ),
        Op::Fill { winding } => draw_step(
            s,
            DrawMode::Fill { fill: fill_mode_spec(s.gs) },
            fill_rule_spec(winding),
        ),
        Op::Clip { winding } => clip_step(s, fill_rule_spec(winding)),
        Op::Save => (RenderView { stack: s.stack.push((s.gs, s.ts)), ..s }, Ok(OutputView::Nothing)),
        Op::Restore => if s.stack.len() == 0 {
            (s, Err(RenderError::StackEmpty))
        } else {
            (
                RenderView {
                    gs: s.stack.last().0,
                    ts: s.stack.last().1,
                    stack: s.stack.drop_last(),
                    ..s
                },
                Ok(OutputView::Nothing),
            )
        },
        Op::Transform { matrix } => with_gs(
            s,
            GraphicsState { transform: concat_spec(s.gs.transform, matrix), ..s.gs },
        ),
        Op::LineWidth { width } => with_gs(
            s,
            GraphicsState {
                stroke_style: crate::graphics_state::StrokeStyle {
                    line_width: width,
                    ..s.gs.stroke_style
                },
                ..s.gs
            },
        ),
        Op::StrokeColor { color } => color_step(s, res, lenient, Side::Stroke, color),
        Op::FillColor { color } => color_step(s, res, lenient, Side::Fill, color),
        Op::FillColorSpace { name } => space_step(s, res, Side::Fill, name@),
        Op::StrokeColorSpace { name } => space_step(s, res, Side::Stroke, name@),
        Op::BeginText => with_text(s, set_matrix_spec(s.ts, identity_spec())),
        Op::CharSpacing { char_space } => with_text(s, TextState { char_space, ..s.ts }),
        Op::WordSpacing { word_space } => with_text(s, TextState { word_space, ..s.ts }),
        Op::TextScaling { horiz_scale } => with_text(
            s,
            TextState { horiz_scale: percent_spec(horiz_scale as int) as i32, ..s.ts },
        ),
        Op::Leading { leading } => with_text(s, TextState { leading, ..s.ts }),
        Op::TextRenderMode { mode } => with_text(s, TextState { mode, ..s.ts }),
        Op::TextRise { rise } => with_text(s, TextState { rise, ..s.ts }),
        Op::MoveTextPosition { translation } => with_text(s, translate_spec(s.ts, translation)),
        Op::SetTextMatrix { matrix } => with_text(s, set_matrix_spec(s.ts, matrix)),
        Op::TextNewline => with_text(s, next_line_spec(s.ts)),
        _ => (s, Ok(OutputView::Nothing)),
    }
}

/// Completing a color with the output `out` of its tint transform; `None`
/// stands for a transform that failed.
pub open spec fn tint_step(
    s: RenderView,
    lenient: bool,
    side: Side,
    request: TintView,
    out: Option<Seq<i32>>,
) -> (RenderView, Result<OutputView, RenderError>) {
    match out {
        Some(o) if o.len() == request.outputs && o.len() >= channel_count(request.target) => (
            RenderView {
                gs: apply_color(s.gs, side, request.space, tint_spec(request.target, o)),
                ..s
            },
            Ok(OutputView::Nothing),
        ),
        _ => color_failure(s, lenient, side, ColorError::TintFailed),
    }
}

impl RenderState {
    /// An interpreter at the start of a page drawn with `transform`.
    pub fn new(resources: Resources, transform: Matrix, lenient: bool) -> (r: RenderState)
        ensures
            r@ == initial_view(transform),
            r.resources == resources,
            r.lenient == lenient,
    {
        let r = RenderState {
            graphics_state: GraphicsState::new(transform),
            text_state: TextState::new(),
            path: PathBuilder::new(),
            stack: Vec::new(),
            resources,
            lenient,
            next_clip: 0,
        };
        assert(r.stack@ =~= Seq::<(GraphicsState, TextState)>::empty());
        r
    }

    /// The color space that a color space operator names.
    pub fn color_space(&self, name: &String) -> (r: Option<usize>)
        ensures
            r == space_by_name(self.resources, name@),
    {
        if *name == String::from_str("DeviceGray") {
            Some(DEVICE_GRAY)
        } else if *name == String::from_str("DeviceRGB") {
            Some(DEVICE_RGB)
        } else if *name == String::from_str("DeviceCMYK") {
            Some(DEVICE_CMYK)
        } else if *name == String::from_str("Pattern") {
            Some(PATTERN)
        } else {
            self.resources.find_color_space(name)
        }
    }

    fn set_color(&mut self, side: Side, fill: Fill)
        ensures
            final(self).graphics_state == set_color(old(self).graphics_state, side, fill),
            final(self).text_state == old(self).text_state,
            final(self).path == old(self).path,
            final(self).stack == old(self).stack,
            final(self).resources == old(self).resources,
            final(self).lenient == old(self).lenient,
            final(self).next_clip == old(self).next_clip,
    {
        match side {
            Side::Fill => self.graphics_state.set_fill_color(fill),
            Side::Stroke => self.graphics_state.set_stroke_color(fill),
        }
    }

    fn bind_space(&mut self, side: Side, space: usize)
        ensures
            final(self).graphics_state == bind_space(old(self).graphics_state, side, space),
            final(self).text_state == old(self).text_state,
            final(self).path == old(self).path,
            final(self).stack == old(self).stack,
            final(self).resources == old(self).resources,
            final(self).lenient == old(self).lenient,
            final(self).next_clip == old(self).next_clip,
    {
        match side {
            Side::Fill => self.graphics_state.fill_color_space = space,
            Side::Stroke => self.graphics_state.stroke_color_space = space,
        }
    }

    /// Resolves a color operand and sets the paint of `side`; a lenient
    /// renderer paints black where resolution fails.
    fn convert_color(&mut self, side: Side, color: &Color) -> (r: Result<Output, RenderError>)
        ensures
            (final(self)@, output_view(r)) == color_step(
                old(self)@,
                old(self).resources,
                old(self).lenient,
                side,
                *color,
            ),
            final(self).resources == old(self).resources,
            final(self).lenient == old(self).lenient,
    {
        let active = match side {
            Side::Fill => self.graphics_state.fill_color_space,
            Side::Stroke => self.graphics_state.stroke_color_space,
        };
        let resolved = resolve(&self.resources, active, color);
        proof {
            assert(result_view(resolved) == resolve_spec(self.resources, active, *color));
        }
        match resolved {
            Ok(Resolved::Done { fill, space }) => {
                self.bind_space(side, space);
                self.set_color(side, fill);
                Ok(Output::Nothing)
            },
            Ok(Resolved::Tint(request)) => Ok(Output::Tint { side, request }),
            Err(e) => {
                if self.lenient {
                    self.set_color(side, Fill::black());
                    Ok(Output::ColorFallback { side, error: e })
                } else {
                    Err(RenderError::Color(e))
                }
            },
        }
    }

    /// Flushes the path, hands out its outline in a draw call, and leaves no
    /// outline behind.
    fn draw(&mut self, mode: DrawMode, rule: FillRule) -> (r: Result<Output, RenderError>)
        ensures
            (final(self)@, output_view(r)) == draw_step(old(self)@, mode, rule),
            final(self).resources == old(self).resources,
            final(self).lenient == old(self).lenient,
    {
        let outline = self.path.take_outline();
        Ok(
            Output::Draw(
                DrawCall {
                    outline,
                    mode,
                    fill_rule: rule,
                    transform: self.graphics_state.transform,
                    clip: self.graphics_state.clip_path_id,
                },
            ),
        )
    }

    /// Makes the current path a new clip path and activates it.
    fn clip(&mut self, rule: FillRule) -> (r: Result<Output, RenderError>)
        ensures
            (final(self)@, output_view(r)) == clip_step(old(self)@, rule),
            final(self).resources == old(self).resources,
            final(self).lenient == old(self).lenient,
    {
        self.path.flush();
        let id = ClipPathId(self.next_clip);
        let clip = ClipPath {
            id,
            parent: self.graphics_state.clip_path_id,
            outline: self.path.outline.duplicate(),
            fill_rule: rule,
            transform: self.graphics_state.transform,
        };
        self.graphics_state.clip_path_id = Some(id);
        self.next_clip = if self.next_clip == u32::MAX {
            0
        } else {
            self.next_clip + 1
        };
        Ok(Output::Clip(clip))
    }

    /// Processes one operator. A painting operator draws whatever outline
    /// the path holds, an empty one included.
    pub fn execute(&mut self, op: &Op) -> (r: Result<Output, RenderError>)
        ensures
            (final(self)@, output_view(r)) == step(
                old(self)@,
                old(self).resources,
                old(self).lenient,
                *op,
            ),
            final(self).resources == old(self).resources,
            final(self).lenient == old(self).lenient,
    {
        match op {
            Op::Close => self.path.close(),
            Op::MoveTo { p } => self.path.move_to(*p),
            Op::LineTo { p } => self.path.line_to(*p),
            Op::CurveTo { c1, c2, p } => self.path.curve_to(*c1, *c2, *p),
            Op::Rect { rect } => self.path.rect(*rect),
            Op::EndPath => self.path.end_path(),
            Op::Stroke => {
                let mode = DrawMode::Stroke {
                    stroke: self.graphics_state.stroke_mode(),
                    stroke_mode: self.graphics_state.stroke(),
                };
                return self.draw(mode, FillRule::Winding);
            },
            Op::FillAndStroke { winding } => {
                let mode = DrawMode::FillStroke {
                    fill: self.graphics_state.fill_mode(),
                    stroke: self.graphics_state.stroke_mode(),
                    stroke_mode: self.graphics_state.stroke(),
                };
                return self.draw(mode, fill_rule(*winding));
            },
            Op::Fill { winding } => {
                let mode = DrawMode::Fill { fill: self.graphics_state.fill_mode() };
                return self.draw(mode, fill_rule(*winding));
            },
            Op::Clip { winding } => {
                return self.clip(fill_rule(*winding));
            },
            Op::Save => {
                self.stack.push((self.graphics_state, self.text_state));
            },
            Op::Restore => {
                match self.stack.pop() {
                    Some((g, t)) => {
                        self.graphics_state = g;
                        self.text_state = t;
                    },
                    None => {
                        return Err(RenderError::StackEmpty);
                    },
                }
            },
            Op::Transform { matrix } => {
                self.graphics_state.transform = self.graphics_state.transform.concat(matrix);
            },
            Op::LineWidth { width } => {
                self.graphics_state.stroke_style.line_width = *width;
            },
            Op::StrokeColor { color } => {
                return self.convert_color(Side::Stroke, color);
            },
            Op::FillColor { color } => {
                return self.convert_color(Side::Fill, color);
            },
            Op::FillColorSpace { name } => {
                match self.color_space(name) {
                    Some(i) => {
                        self.bind_space(Side::Fill, i);
                        self.set_color(Side::Fill, Fill::black());
                    },
                    None => {
                        return Err(RenderError::ColorSpaceNotFound);
                    },
                }
            },
            Op::StrokeColorSpace { name } => {
                match self.color_space(name) {
                    Some(i) => {
                        self.bind_space(Side::Stroke, i);
                        self.set_color(Side::Stroke, Fill::black());
                    },
                    None => {
                        return Err(RenderError::ColorSpaceNotFound);
                    },
                }
            },
            Op::BeginText => self.text_state.reset_matrix(),
            Op::CharSpacing { char_space } => self.text_state.char_space = *char_space,
            Op::WordSpacing { word_space } => self.text_state.word_space = *word_space,
            Op::TextScaling { horiz_scale } => {
                self.text_state.horiz_scale = fx_percent(*horiz_scale);
            },
            Op::Leading { leading } => self.text_state.leading = *leading,
            Op::TextRenderMode { mode } => self.text_state.mode = *mode,
            Op::TextRise { rise } => self.text_state.rise = *rise,
            Op::MoveTextPosition { translation } => self.text_state.translate(*translation),
            Op::SetTextMatrix { matrix } => self.text_state.set_matrix(*matrix),
            Op::TextNewline => self.text_state.next_line(),
            _ => {},
        }
        Ok(Output::Nothing)
    }

    /// Completes a color that waited for a tint transform, with the
    /// transform's output `out` (`None` where it failed).
    pub fn finish_tint(&mut self, side: Side, request: &TintRequest, out: Option<Vec<i32>>) -> (r:
        Result<Output, RenderError>)
        ensures
            (final(self)@, output_view(r)) == tint_step(
                old(self)@,
                old(self).lenient,
                side,
                request@,
                match out {
                    Some(v) => Some(v@),
                    None => None,
                },
            ),
            final(self).resources == old(self).resources,
            final(self).lenient == old(self).lenient,
    {
        let fill = match out {
            Some(v) => if v.len() == request.outputs && v.len() >= channel_count_exec(request.target) {
                Some(tint_fill(request.target, &v))
            } else {
                None
            },
            None => None,
        };
        match fill {
            Some(f) => {
                self.bind_space(side, request.space);
                self.set_color(side, f);
                Ok(Output::Nothing)
            },
            None => {
                if self.lenient {
                    self.set_color(side, Fill::black());
                    Ok(Output::ColorFallback { side, error: ColorError::TintFailed })
                } else {
                    Err(RenderError::Color(ColorError::TintFailed))
                }
            },
        }
    }
}


/// Saving and then restoring the state, with nothing in between, gives back
/// the state as it was before the save.
pub proof fn lemma_save_restore(s: RenderView, res: Resources, lenient: bool)
    ensures
        step(s, res, lenient, Op::Save).1 == Ok::<OutputView, RenderError>(OutputView::Nothing),
        step(step(s, res, lenient, Op::Save).0, res, lenient, Op::Restore).1 == Ok::<
            OutputView,
            RenderError,
        >(OutputView::Nothing),
        step(step(s, res, lenient, Op::Save).0, res, lenient, Op::Restore).0 == s,
{
    let s1 = step(s, res, lenient, Op::Save).0;
    assert(s1.stack.drop_last() =~= s.stack);
}

/// `BeginText`, then `SetTextMatrix(m)`, then `MoveTextPosition(v)` leaves
/// both text matrices equal to `m` composed with the translation by `v`.
pub proof fn lemma_text_position(s: RenderView, res: Resources, lenient: bool, m: Matrix, v: Point)
    ensures
        ({
            let s1 = step(s, res, lenient, Op::BeginText).0;
            let s2 = step(s1, res, lenient, Op::SetTextMatrix { matrix: m }).0;
            let s3 = step(s2, res, lenient, Op::MoveTextPosition { translation: v }).0;
            &&& s3.ts.text_matrix == concat_spec(m, crate::geometry::translation_spec(v))
            &&& s3.ts.line_matrix == concat_spec(m, crate::geometry::translation_spec(v))
        }),
{
}

/// Starting from an empty path, `move(p1); line(p2); close(); fill()`
/// produces nothing until the fill, which draws one closed contour of the two
/// points and leaves the path empty; a second fill then draws an empty
/// outline.
pub proof fn lemma_fill_closed_path(
    s: RenderView,
    res: Resources,
    lenient: bool,
    p1: Point,
    p2: Point,
    w: Winding,
)
    requires
        s.path == empty_path(),
    ensures
        ({
            let (s1, o1) = step(s, res, lenient, Op::MoveTo { p: p1 });
            let (s2, o2) = step(s1, res, lenient, Op::LineTo { p: p2 });
            let (s3, o3) = step(s2, res, lenient, Op::Close);
            let (s4, o4) = step(s3, res, lenient, Op::Fill { winding: w });
            let (s5, o5) = step(s4, res, lenient, Op::Fill { winding: w });
            &&& o1 == Ok::<OutputView, RenderError>(OutputView::Nothing)
            &&& o2 == Ok::<OutputView, RenderError>(OutputView::Nothing)
            &&& o3 == Ok::<OutputView, RenderError>(OutputView::Nothing)
            &&& o4 matches Ok(OutputView::Draw(d)) && d.outline == seq![
                ContourView {
                    points: seq![crate::path::on_curve(p1), crate::path::on_curve(p2)],
                    closed: true,
                },
            ] && d.fill_rule == fill_rule_spec(w)
            &&& s4.path == empty_path()
            &&& o5 matches Ok(OutputView::Draw(d)) && d.outline.len() == 0
            &&& s5.path == empty_path()
        }),
{
    let (s1, o1) = step(s, res, lenient, Op::MoveTo { p: p1 });
    let (s2, o2) = step(s1, res, lenient, Op::LineTo { p: p2 });
    let (s3, o3) = step(s2, res, lenient, Op::Close);
    let (s4, o4) = step(s3, res, lenient, Op::Fill { winding: w });
    assert(s3.path.contour.points =~= seq![crate::path::on_curve(p1), crate::path::on_curve(p2)]);
    assert(flush_spec(s3.path).outline =~= seq![s3.path.contour]);
    assert(s4.path.contour == crate::path::empty_contour());
}

/// With a Separation space over `DeviceGray` active for filling, a fill color
/// `x` asks for the tint transform of `x`; an identity transform, which hands
/// its input back, then makes the fill color the gray `x`.
pub proof fn lemma_separation_gray_identity(
    s: RenderView,
    res: Resources,
    lenient: bool,
    color: Color,
    x: i32,
)
    requires
        color matches Color::Other(args) && args@ == seq![Operand::Number(x)],
        s.gs.fill_color_space < res.spaces@.len(),
        res.spaces@[s.gs.fill_color_space as int] matches ColorSpace::Separation { alt, tint } && alt
            < res.spaces@.len() && res.spaces@[alt as int] is DeviceGray,
    ensures
        ({
            let (s1, o1) = step(s, res, lenient, Op::FillColor { color });
            &&& o1 matches Ok(OutputView::Tint { side, request }) && side == Side::Fill
                && request.inputs == seq![x] && request.outputs == 1
            &&& s1 == s
            &&& o1 matches Ok(OutputView::Tint { side, request }) && tint_step(
                s1,
                lenient,
                side,
                request,
                Some(request.inputs),
            ).0.gs.fill_color == Fill::Solid(x, x, x)
        }),
{
    let args = seq![Operand::Number(x)];
    assert(all_numbers(args));
    assert(numbers(args) =~= seq![x]);
}

} // verus!
