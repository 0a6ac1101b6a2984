use pdf_render::color::{
    Color, ColorError, ColorSpace, Fill, Operand, Resources, TintFn, DEVICE_GRAY, DEVICE_RGB,
};
use pdf_render::fixed::ONE;
use pdf_render::geometry::{Matrix, Point, Rect};
use pdf_render::graphics_state::GraphicsState;
use pdf_render::path::{Contour, PathPoint};
use pdf_render::plotter::{ClipPathId, DrawCall, DrawMode, FillMode, FillRule};
use pdf_render::color::BlendMode;
use pdf_render::render::{Op, Output, RenderError, RenderState, Side, Winding};
use pdf_render::text_state::{TextMode, TextState};

fn pt(x: i32, y: i32) -> Point {
    Point { x: x * ONE, y: y * ONE }
}

fn on(p: Point) -> PathPoint {
    PathPoint { point: p, control: false }
}

fn run(state: &mut RenderState, ops: Vec<Op>) -> Vec<DrawCall> {
    let mut draws = Vec::new();
    for op in ops.iter() {
        match state.execute(op).unwrap() {
            Output::Draw(d) => draws.push(d),
            Output::Nothing => {}
            other => panic!("unexpected output {:?}", other),
        }
    }
    draws
}

fn points(c: &Contour) -> Vec<PathPoint> {
    c.points.clone()
}

#[test]
fn save_restore_round_trip() {
    let mut s = RenderState::new(Resources::new(), Matrix::identity(), false);
    run(&mut s, vec![Op::LineWidth { width: 3 * ONE }, Op::FillColor { color: Color::Rgb(ONE, 0, 0) }]);
    let (g, t) = (s.graphics_state, s.text_state);
    run(&mut s, vec![Op::Save, Op::Restore]);
    assert_eq!(s.graphics_state, g);
    assert_eq!(s.text_state, t);
    assert!(s.stack.is_empty());
}

#[test]
fn restore_undoes_changes() {
    let mut s = RenderState::new(Resources::new(), Matrix::identity(), false);
    let (g, t) = (s.graphics_state, s.text_state);
    run(
        &mut s,
        vec![
            Op::Save,
            Op::Transform { matrix: Matrix { a: 2 * ONE, b: 0, c: 0, d: 2 * ONE, e: 0, f: 0 } },
            Op::FillColor { color: Color::Gray(ONE) },
            Op::Leading { leading: 12 * ONE },
            Op::Restore,
        ],
    );
    assert_eq!(s.graphics_state, g);
    assert_eq!(s.text_state, t);
}

#[test]
fn restore_on_empty_stack_fails() {
    let mut s = RenderState::new(Resources::new(), Matrix::identity(), true);
    assert_eq!(s.execute(&Op::Restore).unwrap_err(), RenderError::StackEmpty);
}

#[test]
fn equal_color_keeps_cached_paint() {
    let mut g = GraphicsState::new(Matrix::identity());
    g.fill_paint = Some(7);
    g.stroke_paint = Some(8);
    g.set_fill_color(Fill::Solid(0, 0, 0));
    g.set_stroke_color(Fill::Solid(0, 0, 0));
    assert_eq!(g.fill_paint, Some(7));
    assert_eq!(g.stroke_paint, Some(8));
    g.set_fill_color(Fill::Solid(ONE, 0, 0));
    assert_eq!(g.fill_paint, None);
    assert_eq!(g.fill_color, Fill::Solid(ONE, 0, 0));
    assert_eq!(g.stroke_paint, Some(8));
    g.set_stroke_color(Fill::Solid(0, ONE, 0));
    assert_eq!(g.stroke_paint, None);
}

#[test]
fn alpha_is_multiplied_by_base_alpha() {
    let mut g = GraphicsState::new(Matrix::identity());
    g.fill_paint = Some(1);
    g.set_fill_alpha(ONE);
    assert_eq!(g.fill_paint, Some(1));
    g.fill_alpha = ONE / 2;
    g.set_fill_alpha(ONE / 2);
    assert_eq!(g.fill_color_alpha, ONE / 4);
    assert_eq!(g.fill_paint, None);
    g.stroke_paint = Some(2);
    g.stroke_alpha = ONE / 2;
    g.set_stroke_alpha(ONE);
    assert_eq!(g.stroke_color_alpha, ONE / 2);
    assert_eq!(g.stroke_alpha, ONE / 2);
    assert_eq!(g.stroke_paint, None);
}

#[test]
fn closed_path_fill_draws_once_then_empty() {
    let mut s = RenderState::new(Resources::new(), Matrix::identity(), false);
    let draws = run(
        &mut s,
        vec![Op::MoveTo { p: pt(1, 2) }, Op::LineTo { p: pt(3, 4) }, Op::Close, Op::Fill { winding: Winding::NonZero }],
    );
    assert_eq!(draws.len(), 1);
    let d = &draws[0];
    assert_eq!(d.outline.contours.len(), 1);
    assert!(d.outline.contours[0].closed);
    assert_eq!(points(&d.outline.contours[0]), vec![on(pt(1, 2)), on(pt(3, 4))]);
    assert_eq!(d.fill_rule, FillRule::Winding);
    assert!(s.path.outline.contours.is_empty());
    assert!(s.path.contour.points.is_empty());
    let again = run(&mut s, vec![Op::Fill { winding: Winding::EvenOdd }]);
    assert_eq!(again.len(), 1);
    assert!(again[0].outline.contours.is_empty());
    assert_eq!(again[0].fill_rule, FillRule::EvenOdd);
}

#[test]
fn move_flushes_and_end_path_discards() {
    let mut s = RenderState::new(Resources::new(), Matrix::identity(), false);
    run(
        &mut s,
        vec![
            Op::MoveTo { p: pt(0, 0) },
            Op::CurveTo { c1: pt(1, 1), c2: pt(2, 1), p: pt(3, 0) },
            Op::MoveTo { p: pt(5, 5) },
        ],
    );
    assert_eq!(s.path.outline.contours.len(), 1);
    assert_eq!(s.path.outline.contours[0].points.len(), 4);
    assert!(s.path.outline.contours[0].points[1].control);
    assert!(!s.path.outline.contours[0].closed);
    assert_eq!(points(&s.path.contour), vec![on(pt(5, 5))]);
    let draws = run(&mut s, vec![Op::EndPath, Op::Stroke]);
    assert_eq!(draws.len(), 1);
    assert!(draws[0].outline.contours.is_empty());
}

#[test]
fn stroke_and_fill_and_stroke_modes() {
    let mut s = RenderState::new(Resources::new(), Matrix::identity(), false);
    s.graphics_state.overprint_stroke = true;
    let draws = run(
        &mut s,
        vec![
            Op::LineWidth { width: 2 * ONE },
            Op::StrokeColor { color: Color::Gray(ONE) },
            Op::Rect { rect: Rect { x: 0, y: 0, width: ONE, height: ONE } },
            Op::Stroke,
            Op::Rect { rect: Rect { x: 0, y: 0, width: ONE, height: ONE } },
            Op::FillAndStroke { winding: Winding::EvenOdd },
        ],
    );
    assert_eq!(draws.len(), 2);
    match &draws[0].mode {
        DrawMode::Stroke { stroke, stroke_mode } => {
            assert_eq!(*stroke, FillMode { color: Fill::Solid(ONE, ONE, ONE), alpha: ONE, mode: BlendMode::Darken });
            assert_eq!(stroke_mode.style.line_width, 2 * ONE);
        }
        other => panic!("expected a stroke, got {:?}", other),
    }
    assert_eq!(draws[0].fill_rule, FillRule::Winding);
    match &draws[1].mode {
        DrawMode::FillStroke { fill, stroke, .. } => {
            assert_eq!(fill.mode, BlendMode::Overlay);
            assert_eq!(fill.color, Fill::Solid(0, 0, 0));
            assert_eq!(stroke.mode, BlendMode::Darken);
        }
        other => panic!("expected fill and stroke, got {:?}", other),
    }
    assert_eq!(draws[1].fill_rule, FillRule::EvenOdd);
}

#[test]
fn text_position_composes_translation() {
    let mut s = RenderState::new(Resources::new(), Matrix::identity(), false);
    let m = Matrix { a: 2 * ONE, b: 0, c: 0, d: 3 * ONE, e: 10 * ONE, f: 20 * ONE };
    run(&mut s, vec![Op::BeginText, Op::SetTextMatrix { matrix: m }, Op::MoveTextPosition { translation: pt(1, 2) }]);
    let expected = Matrix { a: 2 * ONE, b: 0, c: 0, d: 3 * ONE, e: 12 * ONE, f: 26 * ONE };
    assert_eq!(s.text_state.text_matrix, expected);
    assert_eq!(s.text_state.line_matrix, expected);
    assert_eq!(m.concat(&Matrix::translation(pt(1, 2))), expected);
}

#[test]
fn text_newline_moves_down_by_leading() {
    let mut s = RenderState::new(Resources::new(), Matrix::identity(), false);
    run(
        &mut s,
        vec![
            Op::BeginText,
            Op::Leading { leading: 14 * ONE },
            Op::TextNewline,
            Op::TextScaling { horiz_scale: 50 * ONE },
            Op::CharSpacing { char_space: ONE },
            Op::WordSpacing { word_space: 2 * ONE },
            Op::TextRise { rise: 3 * ONE },
            Op::TextRenderMode { mode: TextMode::Invisible },
        ],
    );
    let t = s.text_state;
    assert_eq!(t.line_matrix.f, -14 * ONE);
    assert_eq!(t.text_matrix, t.line_matrix);
    assert_eq!(t.horiz_scale, ONE / 2);
    assert_eq!(t.char_space, ONE);
    assert_eq!(t.word_space, 2 * ONE);
    assert_eq!(t.rise, 3 * ONE);
    assert_eq!(t.mode, TextMode::Invisible);
    let mut fresh = TextState::new();
    fresh.leading = 14 * ONE;
    fresh.next_line();
    assert_eq!(fresh.line_matrix.f, -14 * ONE);
}

#[test]
fn rgb_rect_fill_end_to_end() {
    let transform = Matrix { a: ONE, b: 0, c: 0, d: -ONE, e: 0, f: 100 * ONE };
    let mut s = RenderState::new(Resources::new(), transform, false);
    let draws = run(
        &mut s,
        vec![
            Op::FillColorSpace { name: "DeviceRGB".to_string() },
            Op::FillColor { color: Color::Rgb(ONE, 0, 0) },
            Op::Rect { rect: Rect { x: 0, y: 0, width: 10 * ONE, height: 10 * ONE } },
            Op::Fill { winding: Winding::NonZero },
        ],
    );
    assert_eq!(draws.len(), 1);
    let d = &draws[0];
    assert_eq!(d.mode, DrawMode::Fill { fill: FillMode { color: Fill::Solid(ONE, 0, 0), alpha: ONE, mode: BlendMode::Overlay } });
    assert_eq!(d.fill_rule, FillRule::Winding);
    assert_eq!(d.transform, transform);
    assert_eq!(d.clip, None);
    assert_eq!(d.outline.contours.len(), 1);
    assert!(d.outline.contours[0].closed);
    assert_eq!(
        points(&d.outline.contours[0]),
        vec![on(pt(0, 0)), on(pt(10, 0)), on(pt(10, 10)), on(pt(0, 10))]
    );
}

#[test]
fn transform_operator_post_multiplies() {
    let mut s = RenderState::new(Resources::new(), Matrix::translation(pt(5, 0)), false);
    run(&mut s, vec![Op::Transform { matrix: Matrix { a: 2 * ONE, b: 0, c: 0, d: 2 * ONE, e: ONE, f: 0 } }]);
    assert_eq!(s.graphics_state.transform, Matrix { a: 2 * ONE, b: 0, c: 0, d: 2 * ONE, e: 6 * ONE, f: 0 });
}

#[test]
fn color_space_operator_resets_to_black() {
    let mut res = Resources::new();
    let cal = res.add_space(ColorSpace::CalGray);
    res.define_color_space("CS0".to_string(), cal);
    let mut s = RenderState::new(res, Matrix::identity(), false);
    run(&mut s, vec![Op::FillColor { color: Color::Gray(ONE) }]);
    assert_eq!(s.graphics_state.fill_color_space, DEVICE_GRAY);
    run(&mut s, vec![Op::FillColorSpace { name: "CS0".to_string() }]);
    assert_eq!(s.graphics_state.fill_color_space, cal);
    assert_eq!(s.graphics_state.fill_color, Fill::Solid(0, 0, 0));
    run(&mut s, vec![Op::StrokeColorSpace { name: "DeviceRGB".to_string() }]);
    assert_eq!(s.graphics_state.stroke_color_space, DEVICE_RGB);
    assert_eq!(
        s.execute(&Op::FillColorSpace { name: "Missing".to_string() }).unwrap_err(),
        RenderError::ColorSpaceNotFound
    );
}

#[test]
fn strict_color_failure_stops_lenient_paints_black() {
    let op = Op::FillColor { color: Color::Other(vec![Operand::Number(ONE)]) };
    let mut strict = RenderState::new(Resources::new(), Matrix::identity(), false);
    assert_eq!(strict.execute(&op).unwrap_err(), RenderError::Color(ColorError::WrongArity));
    let mut lenient = RenderState::new(Resources::new(), Matrix::identity(), true);
    run(&mut lenient, vec![Op::FillColor { color: Color::Gray(ONE) }, Op::FillColorSpace { name: "DeviceRGB".to_string() }]);
    run(&mut lenient, vec![Op::FillColor { color: Color::Rgb(ONE, ONE, 0) }]);
    match lenient.execute(&op).unwrap() {
        Output::ColorFallback { side, error } => {
            assert_eq!(side, Side::Fill);
            assert_eq!(error, ColorError::WrongArity);
        }
        other => panic!("expected a fallback, got {:?}", other),
    }
    assert_eq!(lenient.graphics_state.fill_color, Fill::Solid(0, 0, 0));
    assert_eq!(lenient.graphics_state.fill_color_space, DEVICE_RGB);
}

#[test]
fn separation_identity_tint_gives_gray() {
    let mut res = Resources::new();
    let sep = res.add_space(ColorSpace::Separation { alt: DEVICE_GRAY, tint: TintFn { function: 0, inputs: 1, outputs: 1 } });
    res.define_color_space("Spot".to_string(), sep);
    let mut s = RenderState::new(res, Matrix::identity(), false);
    run(&mut s, vec![Op::FillColorSpace { name: "Spot".to_string() }]);
    let x = 3 * ONE / 8;
    match s.execute(&Op::FillColor { color: Color::Other(vec![Operand::Number(x)]) }).unwrap() {
        Output::Tint { side, request } => {
            assert_eq!(side, Side::Fill);
            let out = request.inputs.clone();
            s.finish_tint(side, &request, Some(out)).unwrap();
        }
        other => panic!("expected a tint request, got {:?}", other),
    }
    assert_eq!(s.graphics_state.fill_color, Fill::Solid(x, x, x));
    assert_eq!(s.graphics_state.fill_color_space, sep);
}

#[test]
fn failed_tint_is_an_error_when_strict() {
    let mut res = Resources::new();
    let sep = res.add_space(ColorSpace::Separation { alt: DEVICE_RGB, tint: TintFn { function: 0, inputs: 1, outputs: 3 } });
    let mut s = RenderState::new(res, Matrix::identity(), false);
    s.graphics_state.stroke_color_space = sep;
    match s.execute(&Op::StrokeColor { color: Color::Other(vec![Operand::Number(ONE)]) }).unwrap() {
        Output::Tint { side, request } => {
            assert_eq!(side, Side::Stroke);
            assert_eq!(s.finish_tint(side, &request, None).unwrap_err(), RenderError::Color(ColorError::TintFailed));
            assert_eq!(
                s.finish_tint(side, &request, Some(vec![1, 2])).unwrap_err(),
                RenderError::Color(ColorError::TintFailed)
            );
            s.finish_tint(side, &request, Some(vec![1, 2, 3])).unwrap();
        }
        other => panic!("expected a tint request, got {:?}", other),
    }
    assert_eq!(s.graphics_state.stroke_color, Fill::Solid(1, 2, 3));
    assert_eq!(s.graphics_state.stroke_color_space, sep);
}

#[test]
fn failed_tint_paints_black_when_lenient() {
    let mut res = Resources::new();
    let sep = res.add_space(ColorSpace::Separation { alt: DEVICE_GRAY, tint: TintFn { function: 0, inputs: 1, outputs: 1 } });
    let mut s = RenderState::new(res, Matrix::identity(), true);
    s.graphics_state.fill_color = Fill::Solid(ONE, ONE, ONE);
    s.graphics_state.fill_color_space = sep;
    match s.execute(&Op::FillColor { color: Color::Other(vec![Operand::Number(ONE)]) }).unwrap() {
        Output::Tint { side, request } => match s.finish_tint(side, &request, None).unwrap() {
            Output::ColorFallback { error, .. } => assert_eq!(error, ColorError::TintFailed),
            other => panic!("expected a fallback, got {:?}", other),
        },
        other => panic!("expected a tint request, got {:?}", other),
    }
    assert_eq!(s.graphics_state.fill_color, Fill::Solid(0, 0, 0));
    assert_eq!(s.graphics_state.fill_color_space, sep);
}

#[test]
fn clip_makes_new_active_clip_path() {
    let mut s = RenderState::new(Resources::new(), Matrix::identity(), false);
    run(&mut s, vec![Op::Rect { rect: Rect { x: 0, y: 0, width: ONE, height: ONE } }]);
    match s.execute(&Op::Clip { winding: Winding::EvenOdd }).unwrap() {
        Output::Clip(c) => {
            assert_eq!(c.id, ClipPathId(0));
            assert_eq!(c.parent, None);
            assert_eq!(c.fill_rule, FillRule::EvenOdd);
            assert_eq!(c.outline.contours.len(), 1);
        }
        other => panic!("expected a clip path, got {:?}", other),
    }
    let draws = run(&mut s, vec![Op::EndPath, Op::Fill { winding: Winding::NonZero }]);
    assert_eq!(draws[0].clip, Some(ClipPathId(0)));
    match s.execute(&Op::Clip { winding: Winding::NonZero }).unwrap() {
        Output::Clip(c) => {
            assert_eq!(c.id, ClipPathId(1));
            assert_eq!(c.parent, Some(ClipPathId(0)));
        }
        other => panic!("expected a clip path, got {:?}", other),
    }
}

#[test]
fn out_of_scope_operators_change_nothing() {
    let mut s = RenderState::new(Resources::new(), Matrix::identity(), false);
    let (g, t) = (s.graphics_state, s.text_state);
    let draws = run(
        &mut s,
        vec![
            Op::BeginMarkedContent,
            Op::Shade,
            Op::Dash,
            Op::GraphicsState,
            Op::TextFont { name: "F1".to_string(), size: 12 * ONE },
            Op::TextDraw,
            Op::XObject,
            Op::EndText,
        ],
    );
    assert!(draws.is_empty());
    assert_eq!(s.graphics_state, g);
    assert_eq!(s.text_state, t);
}
