//! Colors, color spaces, and the resolution of color operands to paints.
use vstd::prelude::*;

use crate::fixed::{
    add_spec, from_int_spec, fx_add, fx_from_int, fx_min, fx_sub, min_spec, sub_spec, ONE,
};

verus! {

/// A reference to a pattern object of the document.
#[derive(Clone, Copy, Debug, PartialEq, Eq, Structural)]
pub struct PatternRef {
    pub id: u64,
    pub gen: u64,
}

/// A resolved paint: an RGB color or a pattern.
#[derive(Clone, Copy, Debug, PartialEq, Eq, Structural)]
pub enum Fill {
    Solid(i32, i32, i32),
    Pattern(PatternRef),
}

impl Fill {
    /// Opaque black.
    pub fn black() -> (r: Fill)
        ensures
            r == Fill::Solid(0, 0, 0),
    {
        Fill::Solid(0, 0, 0)
    }
}

/// How a paint is combined with what is already drawn.
#[derive(Clone, Copy, Debug, PartialEq, Eq, Structural)]
pub enum BlendMode {
    Overlay,
    Darken,
}

/// One decoded operand of a color operator.
#[derive(Debug)]
pub enum Operand {
    Integer(i32),
    Number(i32),
    Name(String),
    Other,
}

/// The operand of a color operator.
#[derive(Debug)]
pub enum Color {
    Gray(i32),
    Rgb(i32, i32, i32),
    Cmyk(i32, i32, i32, i32),
    Other(Vec<Operand>),
}

/// A tint transform, evaluated outside the library: `function` identifies it
/// to the caller, `inputs` and `outputs` are its declared arities.
#[derive(Clone, Copy, Debug, PartialEq, Eq, Structural)]
pub struct TintFn {
    pub function: usize,
    pub inputs: usize,
    pub outputs: usize,
}

/// A color space. Nested spaces are indices into [`Resources::spaces`].
#[derive(Debug)]
pub enum ColorSpace {
    DeviceGray,
    DeviceRGB,
    DeviceCMYK,
    CalGray,
    CalRGB,
    CalCMYK,
    Icc { alternate: Option<usize> },
    Indexed { base: usize, hival: u8, lookup: Vec<u8> },
    Separation { alt: usize, tint: TintFn },
    DeviceN { alt: usize, tint: TintFn },
    Pattern,
    Named(String),
    Other,
}

/// Why a color could not be resolved.
#[derive(Clone, Copy, Debug, PartialEq, Eq, Structural)]
pub enum ColorError {
    WrongArity,
    NotANumber,
    NotAnInteger,
    NotAName,
    UnknownColorSpace,
    NamedNotFound,
    NestedIcc,
    IccWithoutAlternate,
    IndexOutOfRange,
    PatternNotFound,
    Unsupported,
    TintFailed,
}

/// Index of `DeviceGray` in every well-formed [`Resources`].
pub const DEVICE_GRAY: usize = 0;

/// Index of `DeviceRGB` in every well-formed [`Resources`].
pub const DEVICE_RGB: usize = 1;

/// Index of `DeviceCMYK` in every well-formed [`Resources`].
pub const DEVICE_CMYK: usize = 2;

/// Index of `Pattern` in every well-formed [`Resources`].
pub const PATTERN: usize = 3;

/// The resource table of a page: an arena of color spaces, the named color
/// spaces (as indices into the arena) and the named patterns.
#[derive(Debug)]
pub struct Resources {
    pub spaces: Vec<ColorSpace>,
    pub color_spaces: Vec<(String, usize)>,
    pub patterns: Vec<(String, PatternRef)>,
}

/// The value bound to `name` by the last entry that names it.
pub open spec fn find_last<V>(s: Seq<(String, V)>, name: Seq<char>) -> Option<V>
    decreases s.len(),
{
    if s.len() == 0 {
        None
    } else if s.last().0@ == name {
        Some(s.last().1)
    } else {
        find_last(s.drop_last(), name)
    }
}

fn lookup<V: Copy>(s: &Vec<(String, V)>, name: &String) -> (r: Option<V>)
    ensures
        r == find_last(s@, name@),
{
    let mut i: usize = s.len();
    assert(s@.take(i as int) =~= s@);
    while i > 0
        invariant
            i <= s@.len(),
            find_last(s@, name@) == find_last(s@.take(i as int), name@),
        decreases i,
    {
        assert(s@.take(i as int).drop_last() =~= s@.take(i - 1));
        i = i - 1;
        if s[i].0 == *name {
            return Some(s[i].1);
        }
    }
    None
}

impl Resources {
    /// Holds the four device spaces at their fixed indices.
    pub open spec fn wf(&self) -> bool {
        &&& self.spaces@.len() >= 4
        &&& self.spaces@[DEVICE_GRAY as int] is DeviceGray
        &&& self.spaces@[DEVICE_RGB as int] is DeviceRGB
        &&& self.spaces@[DEVICE_CMYK as int] is DeviceCMYK
        &&& self.spaces@[PATTERN as int] is Pattern
    }

    /// A table that holds the device spaces and no names.
    pub fn new() -> (r: Resources)
        ensures
            r.wf(),
            r.spaces@.len() == 4,
            r.color_spaces@.len() == 0,
            r.patterns@.len() == 0,
    {
        let mut spaces: Vec<ColorSpace> = Vec::new();
        spaces.push(ColorSpace::DeviceGray);
        spaces.push(ColorSpace::DeviceRGB);
        spaces.push(ColorSpace::DeviceCMYK);
        spaces.push(ColorSpace::Pattern);
        Resources { spaces, color_spaces: Vec::new(), patterns: Vec::new() }
    }

    /// Adds a color space to the arena and returns its index.
    pub fn add_space(&mut self, space: ColorSpace) -> (i: usize)
        requires
            old(self).spaces@.len() < usize::MAX,
        ensures
            i == old(self).spaces@.len(),
            final(self).spaces@ == old(self).spaces@.push(space),
            final(self).color_spaces == old(self).color_spaces,
            final(self).patterns == old(self).patterns,
            old(self).wf() ==> final(self).wf(),
    {
        let i = self.spaces.len();
        self.spaces.push(space);
        i
    }

    /// Binds `name` to the color space at `space`, hiding earlier bindings.
    pub fn define_color_space(&mut self, name: String, space: usize)
        ensures
            final(self).color_spaces@ == old(self).color_spaces@.push((name, space)),
            final(self).spaces == old(self).spaces,
            final(self).patterns == old(self).patterns,
    {
        self.color_spaces.push((name, space));
    }

    /// Binds `name` to a pattern, hiding earlier bindings.
    pub fn define_pattern(&mut self, name: String, pattern: PatternRef)
        ensures
            final(self).patterns@ == old(self).patterns@.push((name, pattern)),
            final(self).spaces == old(self).spaces,
            final(self).color_spaces == old(self).color_spaces,
    {
        self.patterns.push((name, pattern));
    }

    /// The index of the color space bound to `name`.
    pub fn find_color_space(&self, name: &String) -> (r: Option<usize>)
        ensures
            r == find_last(self.color_spaces@, name@),
    {
        lookup(&self.color_spaces, name)
    }

    /// The pattern bound to `name`.
    pub fn find_pattern(&self, name: &String) -> (r: Option<PatternRef>)
        ensures
            r == find_last(self.patterns@, name@),
    {
        lookup(&self.patterns, name)
    }
}

/// The channels that the output of a tint transform is read as.
#[derive(Clone, Copy, Debug, PartialEq, Eq, Structural)]
pub enum Channels {
    Gray,
    Rgb,
    Cmyk,
}

pub open spec fn channel_count(c: Channels) -> nat {
    match c {
        Channels::Gray => 1,
        Channels::Rgb => 3,
        Channels::Cmyk => 4,
    }
}

/// A tint transform to evaluate before a color can be completed: apply
/// `function` to `inputs`, expecting `outputs` values, read the first of them
/// as `target` channels, and bind the color space at `space`.
#[derive(Debug)]
pub struct TintRequest {
    pub function: usize,
    pub inputs: Vec<i32>,
    pub outputs: usize,
    pub target: Channels,
    pub space: usize,
}

pub struct TintView {
    pub function: usize,
    pub inputs: Seq<i32>,
    pub outputs: usize,
    pub target: Channels,
    pub space: usize,
}

impl View for TintRequest {
    type V = TintView;

    open spec fn view(&self) -> TintView {
        TintView {
            function: self.function,
            inputs: self.inputs@,
            outputs: self.outputs,
            target: self.target,
            space: self.space,
        }
    }
}

/// The result of resolving a color: a paint together with the index of the
/// color space that interpreted it, or a tint transform still to evaluate.
#[derive(Debug)]
pub enum Resolved {
    Done { fill: Fill, space: usize },
    Tint(TintRequest),
}

pub enum Outcome {
    Done { fill: Fill, space: usize },
    Tint(TintView),
}

impl View for Resolved {
    type V = Outcome;

    open spec fn view(&self) -> Outcome {
        match self {
            Resolved::Done { fill, space } => Outcome::Done { fill: *fill, space: *space },
            Resolved::Tint(t) => Outcome::Tint(t@),
        }
    }
}

pub open spec fn result_view(r: Result<Resolved, ColorError>) -> Result<Outcome, ColorError> {
    match r {
        Ok(x) => Ok(x@),
        Err(e) => Err(e),
    }
}

/// The numeric value of an operand: integers and reals are numbers.
pub open spec fn number_spec(o: Operand) -> Option<i32> {
    match o {
        Operand::Integer(n) => Some(from_int_spec(n as int) as i32),
        Operand::Number(x) => Some(x),
        _ => None,
    }
}

pub open spec fn all_numbers(args: Seq<Operand>) -> bool {
    forall|j: int| 0 <= j < args.len() ==> (#[trigger] number_spec(args[j])) is Some
}

pub open spec fn numbers(args: Seq<Operand>) -> Seq<i32> {
    Seq::new(args.len(), |j: int| number_spec(args[j])->0)
}

impl Operand {
    /// The numeric value of this operand, if it is a number.
    pub fn as_number(&self) -> (r: Option<i32>)
        ensures
            r == number_spec(*self),
    {
        match self {
            Operand::Integer(n) => Some(fx_from_int(*n)),
            Operand::Number(x) => Some(*x),
            _ => None,
        }
    }
}

/// One RGB channel of a CMYK color: `1 - min(1, x + k)`.
pub open spec fn cmyk_channel(x: i32, k: i32) -> i32 {
    sub_spec(ONE as int, min_spec(ONE as int, add_spec(x as int, k as int))) as i32
}

pub open spec fn cmyk_spec(c: i32, m: i32, y: i32, k: i32) -> Fill {
    Fill::Solid(cmyk_channel(c, k), cmyk_channel(m, k), cmyk_channel(y, k))
}

/// A byte of a lookup table, copied as the number it holds.
pub open spec fn byte_value(b: u8) -> i32 {
    (b as int * 65536) as i32
}

/// The paint that a tint transform's `out` stands for in `target` channels.
pub open spec fn tint_spec(target: Channels, out: Seq<i32>) -> Fill {
    match target {
        Channels::Gray => Fill::Solid(out[0], out[0], out[0]),
        Channels::Rgb => Fill::Solid(out[0], out[1], out[2]),
        Channels::Cmyk => cmyk_spec(out[0], out[1], out[2], out[3]),
    }
}

/// The device channels of the space at `i`: only the three device spaces
/// qualify.
pub open spec fn device_channels(res: Resources, i: usize) -> Result<Channels, ColorError> {
    if i >= res.spaces@.len() {
        Err(ColorError::UnknownColorSpace)
    } else {
        match res.spaces@[i as int] {
            ColorSpace::DeviceGray => Ok(Channels::Gray),
            ColorSpace::DeviceRGB => Ok(Channels::Rgb),
            ColorSpace::DeviceCMYK => Ok(Channels::Cmyk),
            _ => Err(ColorError::Unsupported),
        }
    }
}

/// The channels of a tint alternate space, looking through one ICC profile
/// with an alternate; `missing` is the error for a profile without one.
pub open spec fn alternate_channels(res: Resources, alt: usize, missing: ColorError) -> Result<
    Channels,
    ColorError,
> {
    if alt >= res.spaces@.len() {
        Err(ColorError::UnknownColorSpace)
    } else {
        match res.spaces@[alt as int] {
            ColorSpace::Icc { alternate: Some(a) } => device_channels(res, a),
            ColorSpace::Icc { alternate: None } => Err(missing),
            _ => device_channels(res, alt),
        }
    }
}

/// Interprets `args` in the color space at `i`.
pub open spec fn interpret_spec(res: Resources, i: usize, args: Seq<Operand>) -> Result<
    Outcome,
    ColorError,
> {
    if i >= res.spaces@.len() {
        Err(ColorError::UnknownColorSpace)
    } else {
        match res.spaces@[i as int] {
            ColorSpace::Icc { .. } => Err(ColorError::NestedIcc),
            ColorSpace::DeviceGray | ColorSpace::CalGray => {
                if args.len() != 1 {
                    Err(ColorError::WrongArity)
                } else if !all_numbers(args) {
                    Err(ColorError::NotANumber)
                } else {
                    let g = numbers(args)[0];
                    Ok(Outcome::Done { fill: Fill::Solid(g, g, g), space: i })
                }
            },
            ColorSpace::DeviceRGB | ColorSpace::CalRGB => {
                if args.len() != 3 {
                    Err(ColorError::WrongArity)
                } else if !all_numbers(args) {
                    Err(ColorError::NotANumber)
                } else {
                    let v = numbers(args);
                    Ok(Outcome::Done { fill: Fill::Solid(v[0], v[1], v[2]), space: i })
                }
            },
            ColorSpace::DeviceCMYK | ColorSpace::CalCMYK => {
                if args.len() != 4 {
                    Err(ColorError::WrongArity)
                } else if !all_numbers(args) {
                    Err(ColorError::NotANumber)
                } else {
                    let v = numbers(args);
                    Ok(Outcome::Done { fill: cmyk_spec(v[0], v[1], v[2], v[3]), space: i })
                }
            },
            ColorSpace::DeviceN { alt, tint } => {
                if args.len() != tint.inputs {
                    Err(ColorError::WrongArity)
                } else if !all_numbers(args) {
                    Err(ColorError::NotANumber)
                } else {
                    match alternate_channels(res, alt, ColorError::Unsupported) {
                        Ok(target) => if tint.outputs < channel_count(target) {
                            Err(ColorError::Unsupported)
                        } else {
                            Ok(
                                Outcome::Tint(
                                    TintView {
                                        function: tint.function,
                                        inputs: numbers(args),
                                        outputs: tint.outputs,
                                        target,
                                        space: i,
                                    },
                                ),
                            )
                        },
                        Err(e) => Err(e),
                    }
                }
            },
            ColorSpace::Separation { alt, tint } => {
                if args.len() != 1 {
                    Err(ColorError::WrongArity)
                } else if !all_numbers(args) {
                    Err(ColorError::NotANumber)
                } else {
                    match alternate_channels(res, alt, ColorError::IccWithoutAlternate) {
                        Ok(target) => Ok(
                            Outcome::Tint(
                                TintView {
                                    function: tint.function,
                                    inputs: numbers(args),
                                    outputs: channel_count(target) as usize,
                                    target,
                                    space: i,
                                },
                            ),
                        ),
                        Err(e) => Err(e),
                    }
                }
            },
            ColorSpace::Indexed { base, hival, lookup } => {
                if args.len() != 1 {
                    Err(ColorError::WrongArity)
                } else {
                    match args[0] {
                        Operand::Integer(n) => match device_channels(res, base) {
                            Ok(Channels::Rgb) => if 0 <= n && 3 * n + 3 <= lookup@.len() {
                                let t = lookup@;
                                Ok(
                                    Outcome::Done {
                                        fill: Fill::Solid(
                                            byte_value(t[3 * n]),
                                            byte_value(t[3 * n + 1]),
                                            byte_value(t[3 * n + 2]),
                                        ),
                                        space: i,
                                    },
                                )
                            } else {
                                Err(ColorError::IndexOutOfRange)
                            },
                            Ok(Channels::Cmyk) => if 0 <= n && 4 * n + 4 <= lookup@.len() {
                                let t = lookup@;
                                Ok(
                                    Outcome::Done {
                                        fill: cmyk_spec(
                                            byte_value(t[4 * n]),
                                            byte_value(t[4 * n + 1]),
                                            byte_value(t[4 * n + 2]),
                                            byte_value(t[4 * n + 3]),
                                        ),
                                        space: i,
                                    },
                                )
                            } else {
                                Err(ColorError::IndexOutOfRange)
                            },
                            _ => Err(ColorError::Unsupported),
                        },
                        _ => Err(ColorError::NotAnInteger),
                    }
                }
            },
            ColorSpace::Pattern => {
                if args.len() == 0 {
                    Err(ColorError::WrongArity)
                } else {
                    match args[0] {
                        Operand::Name(name) => match find_last(res.patterns@, name@) {
                            Some(p) => Ok(Outcome::Done { fill: Fill::Pattern(p), space: i }),
                            None => Err(ColorError::PatternNotFound),
                        },
                        _ => Err(ColorError::NotAName),
                    }
                }
            },
            ColorSpace::Named(_) => Err(ColorError::Unsupported),
            ColorSpace::Other => Err(ColorError::Unsupported),
        }
    }
}

/// Resolves `args` against the active color space at `space`: an ICC profile
/// stands for its alternate (or, without one, for `DeviceRGB` with three
/// operands and `DeviceCMYK` with four), and a name for the space it is bound
/// to.
pub open spec fn resolve_args_spec(res: Resources, space: usize, args: Seq<Operand>) -> Result<
    Outcome,
    ColorError,
> {
    if space >= res.spaces@.len() {
        Err(ColorError::UnknownColorSpace)
    } else {
        match res.spaces@[space as int] {
            ColorSpace::Icc { alternate: Some(a) } => interpret_spec(res, a, args),
            ColorSpace::Icc { alternate: None } => if args.len() == 3 {
                interpret_spec(res, DEVICE_RGB, args)
            } else if args.len() == 4 {
                interpret_spec(res, DEVICE_CMYK, args)
            } else {
                Err(ColorError::IccWithoutAlternate)
            },
            ColorSpace::Named(name) => match find_last(res.color_spaces@, name@) {
                Some(j) => interpret_spec(res, j, args),
                None => Err(ColorError::NamedNotFound),
            },
            _ => interpret_spec(res, space, args),
        }
    }
}

/// What a color operand resolves to while `space` is the active color space.
/// Bare gray, RGB and CMYK values name their own device space.
pub open spec fn resolve_spec(res: Resources, space: usize, color: Color) -> Result<
    Outcome,
    ColorError,
> {
    match color {
        Color::Gray(g) => Ok(Outcome::Done { fill: Fill::Solid(g, g, g), space: DEVICE_GRAY }),
        Color::Rgb(r, g, b) => Ok(Outcome::Done { fill: Fill::Solid(r, g, b), space: DEVICE_RGB }),
        Color::Cmyk(c, m, y, k) => Ok(
            Outcome::Done { fill: cmyk_spec(c, m, y, k), space: DEVICE_CMYK },
        ),
        Color::Other(args) => resolve_args_spec(res, space, args@),
    }
}

/// A gray level as an RGB color.
pub fn gray2rgb(g: i32) -> (r: Fill)
    ensures
        r == Fill::Solid(g, g, g),
{
    Fill::Solid(g, g, g)
}

fn cmyk_channel_exec(x: i32, k: i32) -> (r: i32)
    ensures
        r == cmyk_channel(x, k),
{
    fx_sub(ONE, fx_min(ONE, fx_add(x, k)))
}

/// Converts CMYK to RGB by `R = 1 - min(1, C + K)` and likewise for green
/// and blue.
pub fn cmyk2rgb(c: i32, m: i32, y: i32, k: i32) -> (r: Fill)
    ensures
        r == cmyk_spec(c, m, y, k),
{
    Fill::Solid(cmyk_channel_exec(c, k), cmyk_channel_exec(m, k), cmyk_channel_exec(y, k))
}

/// The paint that the output `out` of a tint transform stands for.
pub fn tint_fill(target: Channels, out: &Vec<i32>) -> (r: Fill)
    requires
        out@.len() >= channel_count(target),
    ensures
        r == tint_spec(target, out@),
{
    match target {
        Channels::Gray => Fill::Solid(out[0], out[0], out[0]),
        Channels::Rgb => Fill::Solid(out[0], out[1], out[2]),
        Channels::Cmyk => cmyk2rgb(out[0], out[1], out[2], out[3]),
    }
}

fn collect_numbers(args: &Vec<Operand>) -> (r: Option<Vec<i32>>)
    ensures
        r is Some <==> all_numbers(args@),
        r matches Some(v) ==> v@ == numbers(args@),
{
    let mut v: Vec<i32> = Vec::new();
    let mut j: usize = 0;
    while j < args.len()
        invariant
            j <= args@.len(),
            v@.len() == j,
            forall|t: int| 0 <= t < j ==> number_spec(args@[t]) == Some(#[trigger] v@[t]),
        decreases args@.len() - j,
    {
        match args[j].as_number() {
            Some(x) => v.push(x),
            None => {
                return None;
            },
        }
        j = j + 1;
    }
    assert forall|t: int| 0 <= t < args@.len() implies (#[trigger] number_spec(args@[t])) is Some by {
        assert(number_spec(args@[t]) == Some(v@[t]));
    }
    assert(v@ =~= numbers(args@));
    Some(v)
}

fn device_channels_exec(res: &Resources, i: usize) -> (r: Result<Channels, ColorError>)
    ensures
        r == device_channels(*res, i),
{
    if i >= res.spaces.len() {
        return Err(ColorError::UnknownColorSpace);
    }
    match &res.spaces[i] {
        ColorSpace::DeviceGray => Ok(Channels::Gray),
        ColorSpace::DeviceRGB => Ok(Channels::Rgb),
        ColorSpace::DeviceCMYK => Ok(Channels::Cmyk),
        _ => Err(ColorError::Unsupported),
    }
}

fn alternate_channels_exec(res: &Resources, alt: usize, missing: ColorError) -> (r: Result<
    Channels,
    ColorError,
>)
    ensures
        r == alternate_channels(*res, alt, missing),
{
    if alt >= res.spaces.len() {
        return Err(ColorError::UnknownColorSpace);
    }
    match &res.spaces[alt] {
        ColorSpace::Icc { alternate: Some(a) } => device_channels_exec(res, *a),
        ColorSpace::Icc { alternate: None } => Err(missing),
        _ => device_channels_exec(res, alt),
    }
}

/// The number of channels.
pub fn channel_count_exec(c: Channels) -> (r: usize)
    ensures
        r == channel_count(c),
{
    match c {
        Channels::Gray => 1,
        Channels::Rgb => 3,
        Channels::Cmyk => 4,
    }
}

fn byte_value_exec(b: u8) -> (r: i32)
    ensures
        r == byte_value(b),
{
    b as i32 * 65536
}

fn interpret(res: &Resources, i: usize, args: &Vec<Operand>) -> (r: Result<Resolved, ColorError>)
    ensures
        result_view(r) == interpret_spec(*res, i, args@),
{
    if i >= res.spaces.len() {
        return Err(ColorError::UnknownColorSpace);
    }
    match &res.spaces[i] {
        ColorSpace::Icc { .. } => Err(ColorError::NestedIcc),
        ColorSpace::DeviceGray | ColorSpace::CalGray => {
            if args.len() != 1 {
                return Err(ColorError::WrongArity);
            }
            match collect_numbers(args) {
                Some(v) => Ok(Resolved::Done { fill: gray2rgb(v[0]), space: i }),
                None => Err(ColorError::NotANumber),
            }
        },
        ColorSpace::DeviceRGB | ColorSpace::CalRGB => {
            if args.len() != 3 {
                return Err(ColorError::WrongArity);
            }
            match collect_numbers(args) {
                Some(v) => Ok(Resolved::Done { fill: Fill::Solid(v[0], v[1], v[2]), space: i }),
                None => Err(ColorError::NotANumber),
            }
        },
        ColorSpace::DeviceCMYK | ColorSpace::CalCMYK => {
            if args.len() != 4 {
                return Err(ColorError::WrongArity);
            }
            match collect_numbers(args) {
                Some(v) => Ok(Resolved::Done { fill: cmyk2rgb(v[0], v[1], v[2], v[3]), space: i }),
                None => Err(ColorError::NotANumber),
            }
        },
        ColorSpace::DeviceN { alt, tint } => {
            if args.len() != tint.inputs {
                return Err(ColorError::WrongArity);
            }
            let inputs = match collect_numbers(args) {
                Some(v) => v,
                None => {
                    return Err(ColorError::NotANumber);
                },
            };
            match alternate_channels_exec(res, *alt, ColorError::Unsupported) {
                Ok(target) => if tint.outputs < channel_count_exec(target) {
                    Err(ColorError::Unsupported)
                } else {
                    Ok(
                        Resolved::Tint(
                            TintRequest {
                                function: tint.function,
                                inputs,
                                outputs: tint.outputs,
                                target,
                                space: i,
                            },
                        ),
                    )
                },
                Err(e) => Err(e),
            }
        },
        ColorSpace::Separation { alt, tint } => {
            if args.len() != 1 {
                return Err(ColorError::WrongArity);
            }
            let inputs = match collect_numbers(args) {
                Some(v) => v,
                None => {
                    return Err(ColorError::NotANumber);
                },
            };
            match alternate_channels_exec(res, *alt, ColorError::IccWithoutAlternate) {
                Ok(target) => Ok(
                    Resolved::Tint(
                        TintRequest {
                            function: tint.function,
                            inputs,
                            outputs: channel_count_exec(target),
                            target,
                            space: i,
                        },
                    ),
                ),
                Err(e) => Err(e),
            }
        },
        ColorSpace::Indexed { base, hival: _, lookup } => {
            if args.len() != 1 {
                return Err(ColorError::WrongArity);
            }
            let n: i32 = match &args[0] {
                Operand::Integer(n) => *n,
                _ => {
                    return Err(ColorError::NotAnInteger);
                },
            };
            match device_channels_exec(res, *base) {
                Ok(Channels::Rgb) => {
                    if n < 0 || (lookup.len() as u64) < 3 * (n as u64) + 3 {
                        return Err(ColorError::IndexOutOfRange);
                    }
                    let o: usize = 3 * (n as usize);
                    Ok(
                        Resolved::Done {
                            fill: Fill::Solid(
                                byte_value_exec(lookup[o]),
                                byte_value_exec(lookup[o + 1]),
                                byte_value_exec(lookup[o + 2]),
                            ),
                            space: i,
                        },
                    )
                },
                Ok(Channels::Cmyk) => {
                    if n < 0 || (lookup.len() as u64) < 4 * (n as u64) + 4 {
                        return Err(ColorError::IndexOutOfRange);
                    }
                    let o: usize = 4 * (n as usize);
                    Ok(
                        Resolved::Done {
                            fill: cmyk2rgb(
                                byte_value_exec(lookup[o]),
                                byte_value_exec(lookup[o + 1]),
                                byte_value_exec(lookup[o + 2]),
                                byte_value_exec(lookup[o + 3]),
                            ),
                            space: i,
                        },
                    )
                },
                _ => Err(ColorError::Unsupported),
            }
        },
        ColorSpace::Pattern => {
            if args.len() == 0 {
                return Err(ColorError::WrongArity);
            }
            match &args[0] {
                Operand::Name(name) => match res.find_pattern(name) {
                    Some(p) => Ok(Resolved::Done { fill: Fill::Pattern(p), space: i }),
                    None => Err(ColorError::PatternNotFound),
                },
                _ => Err(ColorError::NotAName),
            }
        },
        ColorSpace::Named(_) => Err(ColorError::Unsupported),
        ColorSpace::Other => Err(ColorError::Unsupported),
    }
}

/// Resolves a color operand while the color space at `space` is active.
///
/// On success the result also names the color space that interpreted the
/// operand, which becomes the active one. Separation and DeviceN spaces
/// answer with a [`TintRequest`]; [`tint_fill`] completes it.
pub fn resolve(res: &Resources, space: usize, color: &Color) -> (r: Result<Resolved, ColorError>)
    ensures
        result_view(r) == resolve_spec(*res, space, *color),
{
    match color {
        Color::Gray(g) => Ok(Resolved::Done { fill: gray2rgb(*g), space: DEVICE_GRAY }),
        Color::Rgb(r, g, b) => Ok(Resolved::Done { fill: Fill::Solid(*r, *g, *b), space: DEVICE_RGB }),
        Color::Cmyk(c, m, y, k) => Ok(
            Resolved::Done { fill: cmyk2rgb(*c, *m, *y, *k), space: DEVICE_CMYK },
        ),
        Color::Other(args) => {
            if space >= res.spaces.len() {
                return Err(ColorError::UnknownColorSpace);
            }
            match &res.spaces[space] {
                ColorSpace::Icc { alternate: Some(a) } => interpret(res, *a, args),
                ColorSpace::Icc { alternate: None } => if args.len() == 3 {
                    interpret(res, DEVICE_RGB, args)
                } else if args.len() == 4 {
                    interpret(res, DEVICE_CMYK, args)
                } else {
                    Err(ColorError::IccWithoutAlternate)
                },
                ColorSpace::Named(name) => match res.find_color_space(name) {
                    Some(j) => interpret(res, j, args),
                    None => Err(ColorError::NamedNotFound),
                },
                _ => interpret(res, space, args),
            }
        },
    }
}

/// An Indexed space over `DeviceRGB` maps a palette index `i` no greater than
/// its highest index to the three bytes at `[3 i, 3 i + 3)` of its lookup
/// table, each copied as the number it holds.
pub proof fn lemma_indexed_rgb(res: Resources, space: usize, color: Color, i: i32)
    requires
        color matches Color::Other(args) && args@ == seq![Operand::Integer(i)],
        space < res.spaces@.len(),
        res.spaces@[space as int] matches ColorSpace::Indexed { base, hival, lookup } && base
            < res.spaces@.len() && res.spaces@[base as int] is DeviceRGB && 0 <= i <= hival
            && lookup@.len() >= 3 * (hival + 1),
    ensures
        ({
            let t = res.spaces@[space as int]->lookup@;
            resolve_spec(res, space, color) == Ok::<Outcome, ColorError>(
                Outcome::Done {
                    fill: Fill::Solid(
                        byte_value(t[3 * i]),
                        byte_value(t[3 * i + 1]),
                        byte_value(t[3 * i + 2]),
                    ),
                    space,
                },
            )
        }),
{
}

} // verus!
