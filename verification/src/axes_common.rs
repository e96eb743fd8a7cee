//! What all kinds of axes share: axis settings, labels, plot elements, and the
//! gnuplot commands that describe them.
use vstd::prelude::*;
use crate::color::ColorType;
use crate::element::{ArrayExtent, NAN_BITS, PlotElement, data_bytes, generate_data, is_record_plot, needs_color_values, with_color};
use crate::coordinates::Coordinate;
use crate::number::Real;
use crate::options::{
    AlignType, AutoOption, DashType, GnuplotVersion, LabelOption, MarginSide, PaletteType, PlotOption, Tick, TickOption,
    first_on_axis, first_mirror, first_inward, first_minor_scale, first_major_scale, first_format,
    tick_on_axis, tick_mirror, tick_inward, tick_minor_scale, tick_major_scale, tick_format,
    first_line_width, first_line_style, first_color_opt, first_text_offset,
    first_text_color_opt, first_font, first_rotate, first_marker_symbol, first_marker_color,
    first_marker_size, first_text_align, plot_line_width, plot_line_style, plot_color_opt,
    label_text_offset, label_text_color_opt, label_font, label_rotate, label_marker_symbol,
    label_marker_color, label_marker_size, label_text_align,
};
use crate::text::{
    dec_int, dec_nat, ends_with, escape, escaped, lemma_ends_with_append, lemma_parts, lemma_starts_with_append, put,
    put_bytes, put_i64, put_u64, starts_with,
};

verus! {

/// The axes a tick, range or grid setting is about.
#[derive(Copy, Clone, Debug, PartialEq, Eq, Structural)]
pub enum TickAxis {
    X,
    Y,
    X2,
    Y2,
    Z,
    CB,
}

impl TickAxis {
    /// gnuplot's name of the axis.
    pub open spec fn axis_name(self) -> Seq<char> {
        match self {
            TickAxis::X => "x"@,
            TickAxis::Y => "y"@,
            TickAxis::X2 => "x2"@,
            TickAxis::Y2 => "y2"@,
            TickAxis::Z => "z"@,
            TickAxis::CB => "cb"@,
        }
    }

    /// gnuplot's name of the axis's major ticks.
    pub open spec fn tick_name(self) -> Seq<char> {
        match self {
            TickAxis::X => "xtics"@,
            TickAxis::Y => "ytics"@,
            TickAxis::X2 => "x2tics"@,
            TickAxis::Y2 => "y2tics"@,
            TickAxis::Z => "ztics"@,
            TickAxis::CB => "cbtics"@,
        }
    }

    /// gnuplot's name of the axis's minor ticks.
    pub open spec fn mtick_name(self) -> Seq<char> {
        match self {
            TickAxis::X => "mxtics"@,
            TickAxis::Y => "mytics"@,
            TickAxis::X2 => "mx2tics"@,
            TickAxis::Y2 => "my2tics"@,
            TickAxis::Z => "mztics"@,
            TickAxis::CB => "mcbtics"@,
        }
    }

    /// gnuplot's name of the axis's range.
    pub open spec fn range_name(self) -> Seq<char> {
        match self {
            TickAxis::X => "xrange"@,
            TickAxis::Y => "yrange"@,
            TickAxis::X2 => "x2range"@,
            TickAxis::Y2 => "y2range"@,
            TickAxis::Z => "zrange"@,
            TickAxis::CB => "cbrange"@,
        }
    }

    /// gnuplot's name of the axis.
    pub fn get_axis_str(&self) -> (r: &'static str)
        ensures
            r@ == self.axis_name(),
    {
        match *self {
            TickAxis::X => "x",
            TickAxis::Y => "y",
            TickAxis::X2 => "x2",
            TickAxis::Y2 => "y2",
            TickAxis::Z => "z",
            TickAxis::CB => "cb",
        }
    }

    /// gnuplot's name of the axis's major ticks.
    pub fn get_tick_str(&self) -> (r: &'static str)
        ensures
            r@ == self.tick_name(),
    {
        match *self {
            TickAxis::X => "xtics",
            TickAxis::Y => "ytics",
            TickAxis::X2 => "x2tics",
            TickAxis::Y2 => "y2tics",
            TickAxis::Z => "ztics",
            TickAxis::CB => "cbtics",
        }
    }

    /// gnuplot's name of the axis's minor ticks.
    pub fn get_mtick_str(&self) -> (r: &'static str)
        ensures
            r@ == self.mtick_name(),
    {
        match *self {
            TickAxis::X => "mxtics",
            TickAxis::Y => "mytics",
            TickAxis::X2 => "mx2tics",
            TickAxis::Y2 => "my2tics",
            TickAxis::Z => "mztics",
            TickAxis::CB => "mcbtics",
        }
    }

    /// gnuplot's name of the axis's range.
    pub fn get_range_str(&self) -> (r: &'static str)
        ensures
            r@ == self.range_name(),
    {
        match *self {
            TickAxis::X => "xrange",
            TickAxis::Y => "yrange",
            TickAxis::X2 => "x2range",
            TickAxis::Y2 => "y2range",
            TickAxis::Z => "zrange",
            TickAxis::CB => "cbrange",
        }
    }

    /// gnuplot's name of the axis (the older name of `get_axis_str`).
    pub fn to_axis_str(&self) -> (r: &'static str)
        ensures
            r@ == self.axis_name(),
    {
        self.get_axis_str()
    }

    /// gnuplot's name of the axis's major ticks (the older name of `get_tick_str`).
    pub fn to_tick_str(&self) -> (r: &'static str)
        ensures
            r@ == self.tick_name(),
    {
        self.get_tick_str()
    }

    /// gnuplot's name of the axis's range (the older name of `get_range_str`).
    pub fn to_range_str(&self) -> (r: &'static str)
        ensures
            r@ == self.range_name(),
    {
        self.get_range_str()
    }
}

/// The names of an axis's ticks and range are made from the axis's name:
/// `<axis>tics`, `m<axis>tics` and `<axis>range`.
pub proof fn lemma_axis_names(a: TickAxis)
    ensures
        a.tick_name() == a.axis_name() + "tics"@,
        a.mtick_name() == "m"@ + a.tick_name(),
        a.range_name() == a.axis_name() + "range"@,
{
    reveal_strlit("tics");
    reveal_strlit("range");
    reveal_strlit("m");
    match a {
        TickAxis::X => {
            reveal_strlit("x"); reveal_strlit("xtics"); reveal_strlit("mxtics"); reveal_strlit("xrange");
        },
        TickAxis::Y => {
            reveal_strlit("y"); reveal_strlit("ytics"); reveal_strlit("mytics"); reveal_strlit("yrange");
        },
        TickAxis::X2 => {
            reveal_strlit("x2"); reveal_strlit("x2tics"); reveal_strlit("mx2tics"); reveal_strlit("x2range");
        },
        TickAxis::Y2 => {
            reveal_strlit("y2"); reveal_strlit("y2tics"); reveal_strlit("my2tics"); reveal_strlit("y2range");
        },
        TickAxis::Z => {
            reveal_strlit("z"); reveal_strlit("ztics"); reveal_strlit("mztics"); reveal_strlit("zrange");
        },
        TickAxis::CB => {
            reveal_strlit("cb"); reveal_strlit("cbtics"); reveal_strlit("mcbtics"); reveal_strlit("cbrange");
        },
    }
    assert(a.tick_name() =~= a.axis_name() + "tics"@);
    assert(a.mtick_name() =~= "m"@ + a.tick_name());
    assert(a.range_name() =~= a.axis_name() + "range"@);
}

/// The kinds of plot elements.
#[derive(Copy, Clone, Debug, PartialEq, Eq, Structural)]
pub enum PlotType {
    Lines,
    Points,
    LinesPoints,
    XErrorLines,
    YErrorLines,
    XErrorBars,
    XYErrorBars,
    YErrorBars,
    FillBetween,
    Polygons,
    Boxes,
    BoxErrorBars,
    BoxAndWhisker,
    BoxXYError,
    Pm3D,
    Image,
}

impl PlotType {
    /// Elements drawn with lines.
    pub open spec fn spec_is_line(self) -> bool {
        match self {
            PlotType::Lines | PlotType::LinesPoints | PlotType::XErrorLines | PlotType::Boxes
            | PlotType::YErrorLines | PlotType::BoxAndWhisker | PlotType::BoxXYError
            | PlotType::BoxErrorBars | PlotType::Polygons => true,
            _ => false,
        }
    }

    /// Elements drawn with points.
    pub open spec fn spec_is_points(self) -> bool {
        match self {
            PlotType::Points | PlotType::LinesPoints | PlotType::XErrorLines
            | PlotType::YErrorLines | PlotType::XErrorBars | PlotType::YErrorBars
            | PlotType::XYErrorBars => true,
            _ => false,
        }
    }

    /// Elements that are filled.
    pub open spec fn spec_is_fill(self) -> bool {
        match self {
            PlotType::Boxes | PlotType::FillBetween | PlotType::BoxAndWhisker
            | PlotType::BoxXYError | PlotType::BoxErrorBars | PlotType::Polygons => true,
            _ => false,
        }
    }

    /// gnuplot's name of the plot style.
    pub open spec fn style_name(self) -> Seq<char> {
        match self {
            PlotType::Lines => "lines"@,
            PlotType::Points => "points"@,
            PlotType::LinesPoints => "linespoints"@,
            PlotType::XErrorLines => "xerrorlines"@,
            PlotType::YErrorLines => "yerrorlines"@,
            PlotType::XErrorBars => "xerrorbars"@,
            PlotType::YErrorBars => "yerrorbars"@,
            PlotType::XYErrorBars => "xyerrorbars"@,
            PlotType::FillBetween => "filledcurves"@,
            PlotType::Polygons => "polygons"@,
            PlotType::Boxes => "boxes"@,
            PlotType::BoxAndWhisker => "candlestick"@,
            PlotType::BoxXYError => "boxxyerror"@,
            PlotType::BoxErrorBars => "boxerrorbars"@,
            PlotType::Pm3D => "pm3d"@,
            PlotType::Image => "image"@,
        }
    }

    /// Whether the element is drawn with lines.
    pub fn is_line(&self) -> (r: bool)
        ensures
            r == self.spec_is_line(),
    {
        match *self {
            PlotType::Lines | PlotType::LinesPoints | PlotType::XErrorLines | PlotType::Boxes
            | PlotType::YErrorLines | PlotType::BoxAndWhisker | PlotType::BoxXYError
            | PlotType::BoxErrorBars | PlotType::Polygons => true,
            _ => false,
        }
    }

    /// Whether the element is drawn with points.
    pub fn is_points(&self) -> (r: bool)
        ensures
            r == self.spec_is_points(),
    {
        match *self {
            PlotType::Points | PlotType::LinesPoints | PlotType::XErrorLines
            | PlotType::YErrorLines | PlotType::XErrorBars | PlotType::YErrorBars
            | PlotType::XYErrorBars => true,
            _ => false,
        }
    }

    /// Whether the element is filled.
    pub fn is_fill(&self) -> (r: bool)
        ensures
            r == self.spec_is_fill(),
    {
        match *self {
            PlotType::Boxes | PlotType::FillBetween | PlotType::BoxAndWhisker
            | PlotType::BoxXYError | PlotType::BoxErrorBars | PlotType::Polygons => true,
            _ => false,
        }
    }

    /// gnuplot's name of the plot style.
    pub fn style_str(&self) -> (r: &'static str)
        ensures
            r@ == self.style_name(),
    {
        match *self {
            PlotType::Lines => "lines",
            PlotType::Points => "points",
            PlotType::LinesPoints => "linespoints",
            PlotType::XErrorLines => "xerrorlines",
            PlotType::YErrorLines => "yerrorlines",
            PlotType::XErrorBars => "xerrorbars",
            PlotType::YErrorBars => "yerrorbars",
            PlotType::XYErrorBars => "xyerrorbars",
            PlotType::FillBetween => "filledcurves",
            PlotType::Polygons => "polygons",
            PlotType::Boxes => "boxes",
            PlotType::BoxAndWhisker => "candlestick",
            PlotType::BoxXYError => "boxxyerror",
            PlotType::BoxErrorBars => "boxerrorbars",
            PlotType::Pm3D => "pm3d",
            PlotType::Image => "image",
        }
    }
}

/// The point symbols: `.` dot, `+` plus, `x` cross, `*` star, `s`/`S` empty/filled
/// square, `o`/`O` circle, `t`/`T` triangle, `d`/`D` upside down triangle, `r`/`R` rhombus.
pub open spec fn is_symbol(c: char) -> bool {
    c == '.' || c == '+' || c == 'x' || c == '*' || c == 's' || c == 'S' || c == 'o'
        || c == 'O' || c == 't' || c == 'T' || c == 'd' || c == 'D' || c == 'r' || c == 'R'
}

/// gnuplot's point type number of a symbol.
pub open spec fn symbol_number(c: char) -> i32 {
    if c == '.' { 0 }
    else if c == '+' { 1 }
    else if c == 'x' { 2 }
    else if c == '*' { 3 }
    else if c == 's' { 4 }
    else if c == 'S' { 5 }
    else if c == 'o' { 6 }
    else if c == 'O' { 7 }
    else if c == 't' { 8 }
    else if c == 'T' { 9 }
    else if c == 'd' { 10 }
    else if c == 'D' { 11 }
    else if c == 'r' { 12 }
    else { 13 }
}

/// gnuplot's point type number of a point symbol.
pub fn char_to_symbol(c: char) -> (r: i32)
    requires
        is_symbol(c),
    ensures
        r == symbol_number(c),
{
    match c {
        '.' => 0,
        '+' => 1,
        'x' => 2,
        '*' => 3,
        's' => 4,
        'S' => 5,
        'o' => 6,
        'O' => 7,
        't' => 8,
        'T' => 9,
        'd' => 10,
        'D' => 11,
        'r' => 12,
        _ => 13,
    }
}

/// Whether `c` is a valid point symbol.
pub fn is_valid_symbol(c: char) -> (r: bool)
    ensures
        r == is_symbol(c),
{
    c == '.' || c == '+' || c == 'x' || c == '*' || c == 's' || c == 'S' || c == 'o'
        || c == 'O' || c == 't' || c == 'T' || c == 'd' || c == 'D' || c == 'r' || c == 'R'
}

/// Different symbols draw different points.
pub proof fn lemma_symbols_distinct(a: char, b: char)
    requires
        is_symbol(a),
        is_symbol(b),
        a != b,
    ensures
        symbol_number(a) != symbol_number(b),
{
}

/// The line width and dash options of a plot element, axis, border or grid.
pub open spec fn line_options_text(options: Seq<PlotOption>, version: GnuplotVersion) -> Seq<char> {
    let width = match first_line_width(options) {
        Some(w) => w.sci@,
        None => "1"@,
    };
    let dash = match first_line_style(options) {
        Some(d) => (if version.major >= 5 { " dt "@ } else { " lt "@ }) + dec_int(d.spec_to_int() as int),
        None => Seq::empty(),
    };
    " lw "@ + width + dash
}

/// Appends the line width and dash options.
pub fn write_line_options(out: &mut String, options: &Vec<PlotOption>, version: GnuplotVersion)
    ensures
        final(out)@ == old(out)@ + line_options_text(options@, version),
{
    let ghost start = out@;
    put(out, " lw ");
    match plot_line_width(options) {
        Some(w) => put(out, w.sci.as_str()),
        None => put(out, "1"),
    }
    match plot_line_style(options) {
        Some(d) => {
            if version.major >= 5 {
                put(out, " dt ");
            } else {
                put(out, " lt ");
            }
            put_i64(out, d.to_int() as i64);
        },
        None => {},
    }
    assert(out@ =~= start + line_options_text(options@, version));
}

/// The color option: the first color given, else `default` (the text of a default
/// color, or nothing).
pub open spec fn color_options_text(options: Seq<PlotOption>, default: Seq<char>) -> Seq<char> {
    match first_color_opt(options) {
        Some(c) => " lc "@ + c.command_text(),
        None => default,
    }
}

/// The text of a default color.
pub open spec fn default_color_text(default: Option<ColorType>) -> Seq<char> {
    match default {
        Some(c) => " lc "@ + c.command_text(),
        None => Seq::empty(),
    }
}

/// Appends the color option.
pub fn write_color_options(out: &mut String, options: &Vec<PlotOption>, default: &Option<ColorType>)
    ensures
        final(out)@ == old(out)@ + color_options_text(options@, default_color_text(*default)),
{
    let ghost start = out@;
    let col = match plot_color_opt(options) {
        Some(c) => Some(c),
        None => default.as_ref(),
    };
    match col {
        Some(c) => {
            put(out, " lc ");
            c.write_command(out);
        },
        None => {},
    }
    assert(out@ =~= start + color_options_text(options@, default_color_text(*default)));
}

/// What a label is.
#[derive(Clone, Debug)]
pub enum LabelType {
    XLabel,
    YLabel,
    X2Label,
    Y2Label,
    ZLabel,
    CBLabel,
    TitleLabel,
    /// A free label with its tag and position.
    Label(i32, Coordinate, Coordinate),
    /// The tick labels of an axis.
    AxesTicks,
}

impl LabelType {
    /// Whether this is a free label.
    pub open spec fn spec_is_label(&self) -> bool {
        self is Label
    }

    /// Whether this is a free label.
    pub fn is_label(&self) -> (r: bool)
        ensures
            r == self.spec_is_label(),
    {
        match self {
            LabelType::Label(..) => true,
            _ => false,
        }
    }

    /// gnuplot's name of the label; tick labels have none.
    pub open spec fn label_name(&self) -> Seq<char>
        recommends
            !(self is AxesTicks),
    {
        match self {
            LabelType::XLabel => "xlabel"@,
            LabelType::YLabel => "ylabel"@,
            LabelType::X2Label => "x2label"@,
            LabelType::Y2Label => "y2label"@,
            LabelType::ZLabel => "zlabel"@,
            LabelType::CBLabel => "cblabel"@,
            LabelType::TitleLabel => "title"@,
            LabelType::Label(tag, _, _) => "label "@ + dec_int(*tag as int),
            LabelType::AxesTicks => Seq::empty(),
        }
    }

    /// Appends gnuplot's name of the label.
    pub fn write_label_str(&self, out: &mut String)
        requires
            !(self is AxesTicks),
        ensures
            final(out)@ == old(out)@ + self.label_name(),
    {
        let ghost start = out@;
        match self {
            LabelType::XLabel => put(out, "xlabel"),
            LabelType::YLabel => put(out, "ylabel"),
            LabelType::X2Label => put(out, "x2label"),
            LabelType::Y2Label => put(out, "y2label"),
            LabelType::ZLabel => put(out, "zlabel"),
            LabelType::CBLabel => put(out, "cblabel"),
            LabelType::TitleLabel => put(out, "title"),
            LabelType::Label(tag, _, _) => {
                put(out, "label ");
                put_i64(out, *tag as i64);
            },
            LabelType::AxesTicks => {},
        }
        assert(out@ =~= start + self.label_name());
    }

    /// The label of an axis.
    pub open spec fn spec_from_axis(axis: TickAxis) -> LabelType {
        match axis {
            TickAxis::X => LabelType::XLabel,
            TickAxis::Y => LabelType::YLabel,
            TickAxis::X2 => LabelType::X2Label,
            TickAxis::Y2 => LabelType::Y2Label,
            TickAxis::Z => LabelType::ZLabel,
            TickAxis::CB => LabelType::CBLabel,
        }
    }

    /// The label of an axis.
    pub fn from_axis(axis: TickAxis) -> (r: LabelType)
        ensures
            r == LabelType::spec_from_axis(axis),
    {
        match axis {
            TickAxis::X => LabelType::XLabel,
            TickAxis::Y => LabelType::YLabel,
            TickAxis::X2 => LabelType::X2Label,
            TickAxis::Y2 => LabelType::Y2Label,
            TickAxis::Z => LabelType::ZLabel,
            TickAxis::CB => LabelType::CBLabel,
        }
    }
}

/// The label options with symbols that can be drawn: a marker symbol, if given, is a
/// valid point symbol. Only free labels draw markers.
pub open spec fn label_options_ok(label_type: LabelType, options: Seq<LabelOption>) -> bool {
    label_type is Label ==> (first_marker_symbol(options) matches Some(c) ==> is_symbol(c))
}

/// The position and marker part of label options.
pub open spec fn label_marker_text(options: Seq<LabelOption>) -> Seq<char> {
    match first_marker_symbol(options) {
        Some(s) => {
            let color = match first_marker_color(options) {
                Some(c) => " lc rgb \""@ + c.command_text() + "\""@,
                None => Seq::empty(),
            };
            let size = match first_marker_size(options) {
                Some(z) => " ps "@ + z.sci@,
                None => Seq::empty(),
            };
            " point pt "@ + dec_int(symbol_number(s) as int) + color + size
        },
        None => Seq::empty(),
    }
}

/// The alignment part of label options.
pub open spec fn label_align_text(options: Seq<LabelOption>) -> Seq<char> {
    match first_text_align(options) {
        Some(AlignType::AlignLeft) => " left"@,
        Some(AlignType::AlignRight) => " right"@,
        Some(_) => " center"@,
        None => Seq::empty(),
    }
}

/// A free label's position.
pub open spec fn label_at_text(label_type: LabelType) -> Seq<char> {
    match label_type {
        LabelType::Label(_, x, y) => " at "@ + x.text() + ","@ + y.text() + " front"@,
        _ => Seq::empty(),
    }
}

/// The offset part of label options.
pub open spec fn label_offset_text(options: Seq<LabelOption>) -> Seq<char> {
    match first_text_offset(options) {
        Some((x, y)) => " offset character "@ + x.sci@ + ","@ + y.sci@,
        None => Seq::empty(),
    }
}

/// The text color part of label options.
pub open spec fn label_color_text(options: Seq<LabelOption>) -> Seq<char> {
    match first_text_color_opt(options) {
        Some(c) => " tc "@ + c.command_text(),
        None => Seq::empty(),
    }
}

/// The font part of label options.
pub open spec fn label_font_text(options: Seq<LabelOption>) -> Seq<char> {
    match first_font(options) {
        Some((f, s)) => " font \""@ + f@ + ","@ + s.plain@ + "\""@,
        None => Seq::empty(),
    }
}

/// The rotation part of label options.
pub open spec fn label_rotate_text(options: Seq<LabelOption>) -> Seq<char> {
    match first_rotate(options) {
        Some(a) => " rotate by "@ + a.sci@,
        None => Seq::empty(),
    }
}

/// The options of a label: position (free labels), offset, text color, font,
/// rotation, marker (free labels) and alignment.
pub open spec fn label_options_text(label_type: LabelType, options: Seq<LabelOption>) -> Seq<char> {
    let marker = if label_type is Label { label_marker_text(options) } else { Seq::empty() };
    label_at_text(label_type) + label_offset_text(options) + label_color_text(options)
        + label_font_text(options) + label_rotate_text(options) + marker + label_align_text(options)
}

fn write_label_marker(out: &mut String, options: &Vec<LabelOption>)
    requires
        first_marker_symbol(options@) matches Some(c) ==> is_symbol(c),
    ensures
        final(out)@ == old(out)@ + label_marker_text(options@),
{
    let ghost start = out@;
    match label_marker_symbol(options) {
        Some(s) => {
            put(out, " point pt ");
            put_i64(out, char_to_symbol(s) as i64);
            match label_marker_color(options) {
                Some(c) => {
                    put(out, " lc rgb \"");
                    c.write_command(out);
                    put(out, "\"");
                },
                None => {},
            }
            match label_marker_size(options) {
                Some(z) => {
                    put(out, " ps ");
                    put(out, z.sci.as_str());
                },
                None => {},
            }
        },
        None => {},
    }
    assert(out@ =~= start + label_marker_text(options@));
}

fn write_label_align(out: &mut String, options: &Vec<LabelOption>)
    ensures
        final(out)@ == old(out)@ + label_align_text(options@),
{
    let ghost start = out@;
    match label_text_align(options) {
        Some(AlignType::AlignLeft) => put(out, " left"),
        Some(AlignType::AlignRight) => put(out, " right"),
        Some(_) => put(out, " center"),
        None => {},
    }
    assert(out@ =~= start + label_align_text(options@));
}

fn write_label_at(out: &mut String, label_type: &LabelType)
    ensures
        final(out)@ == old(out)@ + label_at_text(*label_type),
{
    let ghost start = out@;
    match label_type {
        LabelType::Label(_, x, y) => {
            put(out, " at ");
            x.write(out);
            put(out, ",");
            y.write(out);
            put(out, " front");
        },
        _ => {},
    }
    assert(out@ =~= start + label_at_text(*label_type));
}

fn write_label_offset(out: &mut String, options: &Vec<LabelOption>)
    ensures
        final(out)@ == old(out)@ + label_offset_text(options@),
{
    let ghost start = out@;
    match label_text_offset(options) {
        Some((x, y)) => {
            put(out, " offset character ");
            put(out, x.sci.as_str());
            put(out, ",");
            put(out, y.sci.as_str());
        },
        None => {},
    }
    assert(out@ =~= start + label_offset_text(options@));
}

fn write_label_color(out: &mut String, options: &Vec<LabelOption>)
    ensures
        final(out)@ == old(out)@ + label_color_text(options@),
{
    let ghost start = out@;
    match label_text_color_opt(options) {
        Some(c) => {
            put(out, " tc ");
            c.write_command(out);
        },
        None => {},
    }
    assert(out@ =~= start + label_color_text(options@));
}

fn write_label_font(out: &mut String, options: &Vec<LabelOption>)
    ensures
        final(out)@ == old(out)@ + label_font_text(options@),
{
    let ghost start = out@;
    match label_font(options) {
        Some((f, s)) => {
            put(out, " font \"");
            put(out, f.as_str());
            put(out, ",");
            put(out, s.plain.as_str());
            put(out, "\"");
        },
        None => {},
    }
    assert(out@ =~= start + label_font_text(options@));
}

fn write_label_rotate(out: &mut String, options: &Vec<LabelOption>)
    ensures
        final(out)@ == old(out)@ + label_rotate_text(options@),
{
    let ghost start = out@;
    match label_rotate(options) {
        Some(a) => {
            put(out, " rotate by ");
            put(out, a.sci.as_str());
        },
        None => {},
    }
    assert(out@ =~= start + label_rotate_text(options@));
}

/// Appends the options of a label.
pub fn write_out_label_options(label_type: &LabelType, options: &Vec<LabelOption>, out: &mut String)
    requires
        label_options_ok(*label_type, options@),
    ensures
        final(out)@ == old(out)@ + label_options_text(*label_type, options@),
{
    let ghost start = out@;
    write_label_at(out, label_type);
    write_label_offset(out, options);
    write_label_color(out, options);
    write_label_font(out, options);
    write_label_rotate(out, options);
    if label_type.is_label() {
        write_label_marker(out, options);
    }
    write_label_align(out, options);
    assert(out@ =~= start + label_options_text(*label_type, options@));
}

/// A label: what it is, its text and its options.
pub struct LabelData {
    pub label_type: LabelType,
    pub text: String,
    pub options: Vec<LabelOption>,
}

impl LabelData {
    /// A label with no text and no options.
    pub fn new(label_type: LabelType) -> (r: Self)
        ensures
            r.label_type == label_type,
            r.text@ == Seq::<char>::empty(),
            r.options@ == Seq::<LabelOption>::empty(),
    {
        LabelData { label_type, text: String::new(), options: Vec::new() }
    }

    /// Sets the text and the options.
    pub fn set(&mut self, text: String, options: Vec<LabelOption>)
        ensures
            final(self).label_type == old(self).label_type,
            final(self).text == text,
            final(self).options == options,
    {
        self.text = text;
        self.options = options;
    }

    /// Whether the label can be written: it names a label and its marker, if any, is a
    /// valid symbol.
    pub open spec fn writable(&self) -> bool {
        &&& !(self.label_type is AxesTicks)
        &&& label_options_ok(self.label_type, self.options@)
    }

    /// Whether the label can be written.
    pub fn is_writable(&self) -> (r: bool)
        ensures
            r == self.writable(),
    {
        match &self.label_type {
            LabelType::AxesTicks => false,
            LabelType::Label(..) => match label_marker_symbol(&self.options) {
                Some(c) => is_valid_symbol(c),
                None => true,
            },
            _ => true,
        }
    }

    /// The command that sets the label.
    pub open spec fn commands_text(&self) -> Seq<char> {
        "set "@ + self.label_type.label_name() + " \""@ + escaped(self.text@) + "\""@
            + label_options_text(self.label_type, self.options@) + "\n"@
    }

    /// Appends the command that sets the label.
    pub fn write_out_commands(&self, out: &mut String)
        requires
            self.writable(),
        ensures
            final(out)@ == old(out)@ + self.commands_text(),
    {
        let ghost start = out@;
        put(out, "set ");
        self.label_type.write_label_str(out);
        put(out, " \"");
        let e = escape(self.text.as_str());
        put(out, e.as_str());
        put(out, "\"");
        write_out_label_options(&self.label_type, &self.options, out);
        put(out, "\n");
        assert(out@ =~= start + self.commands_text());
    }

    /// The command that removes a free label before the next axes are drawn.
    pub open spec fn reset_text(&self) -> Seq<char> {
        match self.label_type {
            LabelType::Label(tag, _, _) => "unset label "@ + dec_int(tag as int) + "\n"@,
            _ => Seq::empty(),
        }
    }

    /// Appends the command that removes a free label.
    pub fn reset_state(&self, out: &mut String)
        ensures
            final(out)@ == old(out)@ + self.reset_text(),
    {
        let ghost start = out@;
        match &self.label_type {
            LabelType::Label(tag, _, _) => {
                put(out, "unset label ");
                put_i64(out, *tag as i64);
                put(out, "\n");
            },
            _ => {},
        }
        assert(out@ =~= start + self.reset_text());
    }
}

/// How the ticks of an axis are placed.
#[derive(Clone, Debug)]
pub enum TickType {
    /// No ticks.
    NoTicks,
    /// Ticks at given positions.
    Custom(Vec<Tick>),
    /// Ticks at a fixed or automatic interval, and a number of minor ticks.
    Auto(AutoOption<Real>, u32),
}

/// The settings of one axis.
pub struct AxisData {
    pub tick_options: Vec<TickOption>,
    pub label_options: Vec<LabelOption>,
    pub tick_type: TickType,
    pub log_base: Option<Real>,
    pub axis: TickAxis,
    pub min: AutoOption<Real>,
    pub max: AutoOption<Real>,
    pub reverse: bool,
    pub grid: bool,
    pub mgrid: bool,
    pub is_time: bool,
    pub show: bool,
    pub label: LabelData,
    pub options: Vec<PlotOption>,
}

/// The number of minor intervals gnuplot is given for `m` minor ticks: `m + 1`, with
/// `m` read as a 32-bit signed integer.
pub open spec fn minor_intervals(m: u32) -> int {
    if m < 0x8000_0000 {
        m + 1
    } else {
        m - 0x1_0000_0000 + 1
    }
}

/// The text of a real or of `*` for an automatic value.
pub open spec fn auto_text(v: AutoOption<Real>) -> Seq<char> {
    match v {
        AutoOption::Fix(r) => r.sci@,
        AutoOption::Auto => "*"@,
    }
}

/// One custom tick: its quoted label (major ticks with a fixed label), its position and
/// its level (0 major, 1 minor).
pub open spec fn tick_text(t: Tick) -> Seq<char> {
    match t {
        Tick::Major(pos, label) => {
            let l = match label {
                AutoOption::Fix(l) => "\""@ + l@ + "\" "@,
                AutoOption::Auto => Seq::empty(),
            };
            l + pos.sci@ + " 0"@
        },
        Tick::Minor(pos) => pos.sci@ + " 1"@,
    }
}

/// Custom ticks, separated by commas.
pub open spec fn ticks_text(ticks: Seq<Tick>) -> Seq<char>
    decreases ticks.len(),
{
    if ticks.len() == 0 {
        Seq::empty()
    } else if ticks.len() == 1 {
        tick_text(ticks[0])
    } else {
        ticks_text(ticks.drop_last()) + ","@ + tick_text(ticks.last())
    }
}

/// Each custom tick is written with its level last, 0 for a major tick and 1 for a minor
/// one, and the ticks are written in order: the text of the first `k` ticks begins the
/// text of all of them.
pub proof fn lemma_custom_tick_levels(ticks: Seq<Tick>, k: int)
    requires
        1 <= k <= ticks.len(),
    ensures
        starts_with(ticks_text(ticks), ticks_text(ticks.take(k))),
        ticks[k - 1] matches Tick::Major(p, _) ==> ends_with(ticks_text(ticks.take(k)), p.sci@ + " 0"@),
        ticks[k - 1] matches Tick::Minor(p) ==> ends_with(ticks_text(ticks.take(k)), p.sci@ + " 1"@),
    decreases ticks.len(),
{
    if k == ticks.len() {
        assert(ticks.take(k) =~= ticks);
        assert(ticks_text(ticks).subrange(0, ticks_text(ticks).len() as int) =~= ticks_text(ticks));
    } else {
        let p = ticks.drop_last();
        assert(p.take(k) =~= ticks.take(k));
        lemma_custom_tick_levels(p, k);
        assert(ticks[k - 1] == p[k - 1]);
        lemma_starts_with_append(ticks_text(p), ","@ + tick_text(ticks.last()), ticks_text(p.take(k)));
        assert(ticks_text(ticks) == ticks_text(p) + (","@ + tick_text(ticks.last())));
    }
    let t = ticks.take(k);
    let last = t[k - 1];
    assert(last == ticks[k - 1]);
    let head = if k == 1 { Seq::<char>::empty() } else { ticks_text(t.drop_last()) + ","@ };
    if k == 1 {
        assert(ticks_text(t) == head + tick_text(last));
    } else {
        assert(ticks_text(t) == head + tick_text(last));
    }
    match last {
        Tick::Major(pos, label) => {
            let l = match label {
                AutoOption::Fix(l) => "\""@ + l@ + "\" "@,
                AutoOption::Auto => Seq::empty(),
            };
            assert(tick_text(last) =~= l + (pos.sci@ + " 0"@));
            lemma_parts(l, pos.sci@ + " 0"@);
            lemma_ends_with_append(head, tick_text(last), pos.sci@ + " 0"@);
        },
        Tick::Minor(pos) => {
            lemma_parts(Seq::<char>::empty(), pos.sci@ + " 1"@);
            assert(Seq::<char>::empty() + (pos.sci@ + " 1"@) =~= tick_text(last));
            lemma_ends_with_append(head, tick_text(last), pos.sci@ + " 1"@);
        },
    }
}

/// A label whose first alignment option is given ends its command with it: `left`,
/// `right`, or `center` for any other alignment.
pub proof fn lemma_label_alignment(l: LabelData, a: AlignType)
    requires
        first_text_align(l.options@) == Some(a),
    ensures
        ends_with(l.commands_text(), (if a == AlignType::AlignLeft {
            " left"@
        } else if a == AlignType::AlignRight {
            " right"@
        } else {
            " center"@
        }) + "\n"@),
{
    let w = if a == AlignType::AlignLeft {
        " left"@
    } else if a == AlignType::AlignRight {
        " right"@
    } else {
        " center"@
    };
    assert(label_align_text(l.options@) == w);
    let o = label_options_text(l.label_type, l.options@);
    let before = label_at_text(l.label_type) + label_offset_text(l.options@) + label_color_text(l.options@)
        + label_font_text(l.options@) + label_rotate_text(l.options@)
        + (if l.label_type is Label { label_marker_text(l.options@) } else { Seq::empty() });
    assert(o =~= before + w);
    let c = l.commands_text();
    let front = "set "@ + l.label_type.label_name() + " \""@ + escaped(l.text@) + "\""@ + before;
    assert(c =~= front + (w + "\n"@));
    lemma_parts(front, w + "\n"@);
}

fn write_tick(out: &mut String, t: &Tick)
    ensures
        final(out)@ == old(out)@ + tick_text(*t),
{
    let ghost start = out@;
    match t {
        Tick::Major(pos, label) => {
            match label {
                AutoOption::Fix(l) => {
                    put(out, "\"");
                    put(out, l.as_str());
                    put(out, "\" ");
                },
                AutoOption::Auto => {},
            }
            put(out, pos.sci.as_str());
            put(out, " 0");
        },
        Tick::Minor(pos) => {
            put(out, pos.sci.as_str());
            put(out, " 1");
        },
    }
    assert(out@ =~= start + tick_text(*t));
}

fn write_ticks(out: &mut String, ticks: &Vec<Tick>)
    ensures
        final(out)@ == old(out)@ + ticks_text(ticks@),
{
    let ghost start = out@;
    let mut i: usize = 0;
    while i < ticks.len()
        invariant
            i <= ticks@.len(),
            out@ == start + ticks_text(ticks@.take(i as int)),
        decreases ticks@.len() - i,
    {
        let ghost before = out@;
        if i > 0 {
            put(out, ",");
        }
        write_tick(out, &ticks[i]);
        proof {
            let t = ticks@.take(i + 1);
            assert(t.drop_last() =~= ticks@.take(i as int));
            assert(t.last() == ticks@[i as int]);
            if i == 0 {
                assert(ticks@.take(0) =~= Seq::<Tick>::empty());
                assert(out@ =~= start + ticks_text(t));
            } else {
                assert(out@ =~= start + ticks_text(t));
            }
        }
        i = i + 1;
    }
    assert(ticks@.take(ticks@.len() as int) =~= ticks@);
}

/// Where ticks are drawn, whether mirrored, and their direction.
pub open spec fn tick_switches_text(tick_options: Seq<TickOption>) -> Seq<char> {
    let on_axis = match first_on_axis(tick_options) {
        Some(true) => " axis"@,
        Some(false) => " border"@,
        None => Seq::empty(),
    };
    let mirror = match first_mirror(tick_options) {
        Some(true) => " mirror"@,
        Some(false) => " nomirror"@,
        None => Seq::empty(),
    };
    let inward = match first_inward(tick_options) {
        Some(true) => " in"@,
        Some(false) => " out"@,
        None => Seq::empty(),
    };
    on_axis + mirror + inward
}

/// The scales of major and minor ticks; each is 0.5 unless given.
pub open spec fn tick_scale_text(tick_options: Seq<TickOption>) -> Seq<char> {
    let minor = match first_minor_scale(tick_options) {
        Some(s) => s.sci@,
        None => "5.000000000000e-1"@,
    };
    let major = match first_major_scale(tick_options) {
        Some(s) => s.sci@,
        None => "5.000000000000e-1"@,
    };
    " scale "@ + major + ","@ + minor
}

/// The format of tick labels.
pub open spec fn tick_format_text(tick_options: Seq<TickOption>) -> Seq<char> {
    match first_format(tick_options) {
        Some(f) => " format \""@ + f@ + "\""@,
        None => Seq::empty(),
    }
}

/// The appearance options of ticks.
pub open spec fn tick_options_text(label_options: Seq<LabelOption>, tick_options: Seq<TickOption>) -> Seq<char> {
    label_options_text(LabelType::AxesTicks, label_options) + tick_switches_text(tick_options)
        + tick_scale_text(tick_options) + tick_format_text(tick_options)
}

fn write_tick_switches(out: &mut String, tick_options: &Vec<TickOption>)
    ensures
        final(out)@ == old(out)@ + tick_switches_text(tick_options@),
{
    let ghost start = out@;
    match tick_on_axis(tick_options) {
        Some(true) => put(out, " axis"),
        Some(false) => put(out, " border"),
        None => {},
    }
    let ghost p1 = out@;
    match tick_mirror(tick_options) {
        Some(true) => put(out, " mirror"),
        Some(false) => put(out, " nomirror"),
        None => {},
    }
    let ghost p2 = out@;
    match tick_inward(tick_options) {
        Some(true) => put(out, " in"),
        Some(false) => put(out, " out"),
        None => {},
    }
    assert(out@ =~= start + tick_switches_text(tick_options@));
}

fn write_tick_scale(out: &mut String, tick_options: &Vec<TickOption>)
    ensures
        final(out)@ == old(out)@ + tick_scale_text(tick_options@),
{
    let ghost start = out@;
    put(out, " scale ");
    match tick_major_scale(tick_options) {
        Some(s) => put(out, s.sci.as_str()),
        None => put(out, "5.000000000000e-1"),
    }
    put(out, ",");
    match tick_minor_scale(tick_options) {
        Some(s) => put(out, s.sci.as_str()),
        None => put(out, "5.000000000000e-1"),
    }
    assert(out@ =~= start + tick_scale_text(tick_options@));
}

fn write_tick_format(out: &mut String, tick_options: &Vec<TickOption>)
    ensures
        final(out)@ == old(out)@ + tick_format_text(tick_options@),
{
    let ghost start = out@;
    match tick_format(tick_options) {
        Some(f) => {
            put(out, " format \"");
            put(out, f.as_str());
            put(out, "\"");
        },
        None => {},
    }
    assert(out@ =~= start + tick_format_text(tick_options@));
}

fn write_tick_options(out: &mut String, label_options: &Vec<LabelOption>, tick_options: &Vec<TickOption>)
    ensures
        final(out)@ == old(out)@ + tick_options_text(label_options@, tick_options@),
{
    let ghost start = out@;
    write_out_label_options(&LabelType::AxesTicks, label_options, out);
    write_tick_switches(out, tick_options);
    write_tick_scale(out, tick_options);
    write_tick_format(out, tick_options);
    assert(out@ =~= start + tick_options_text(label_options@, tick_options@));
}

impl AxisData {
    /// Everything but the ticks is as a new `axis` has it: automatic range, no
    /// logarithmic scale, no grid, hidden zero axis, an empty label, no options.
    pub open spec fn is_plain(&self, axis: TickAxis) -> bool {
        &&& self.tick_options@.len() == 0
        &&& self.label_options@.len() == 0
        &&& self.log_base is None
        &&& self.axis == axis
        &&& self.min is Auto
        &&& self.max is Auto
        &&& !self.reverse && !self.grid && !self.mgrid && !self.is_time && !self.show
        &&& self.label.label_type == LabelType::spec_from_axis(axis)
        &&& self.label.text@.len() == 0
        &&& self.label.options@.len() == 0
        &&& self.options@.len() == 0
    }

    /// An axis with automatic range and ticks, no logarithmic scale, hidden zero axis.
    pub fn new(axis: TickAxis) -> (r: Self)
        ensures
            r.is_plain(axis),
            r.tick_options@ == Seq::<TickOption>::empty(),
            r.label_options@ == Seq::<LabelOption>::empty(),
            r.tick_type matches TickType::Auto(AutoOption::Auto, 0),
            r.log_base is None,
            r.axis == axis,
            r.min is Auto,
            r.max is Auto,
            !r.reverse && !r.grid && !r.mgrid && !r.is_time && !r.show,
            r.label.label_type == LabelType::spec_from_axis(axis),
            r.label.text@ == Seq::<char>::empty(),
            r.label.options@ == Seq::<LabelOption>::empty(),
            r.options@ == Seq::<PlotOption>::empty(),
    {
        AxisData {
            tick_options: Vec::new(),
            label_options: Vec::new(),
            tick_type: TickType::Auto(AutoOption::Auto, 0),
            log_base: None,
            axis,
            min: AutoOption::Auto,
            max: AutoOption::Auto,
            reverse: false,
            grid: false,
            mgrid: false,
            is_time: false,
            show: false,
            label: LabelData::new(LabelType::from_axis(axis)),
            options: Vec::new(),
        }
    }

    /// Whether the axis can be written: a fixed tick interval is not zero or less (a NaN
    /// interval is written as it is), the number of minor ticks written on a linear axis is
    /// not `i32::MAX` (one more would overflow), and the label can be written.
    pub open spec fn writable(&self) -> bool {
        &&& !(self.tick_type matches TickType::Auto(AutoOption::Fix(incr), _) && incr.is_at_most_zero())
        &&& (self.log_base is None ==> (self.tick_type matches TickType::Auto(_, m) ==> m != 0x7fff_ffff))
        &&& self.label.writable()
    }

    /// Whether the axis can be written.
    pub fn is_writable(&self) -> (r: bool)
        ensures
            r == self.writable(),
    {
        let ticks_ok = match &self.tick_type {
            TickType::Auto(incr, m) => {
                (self.log_base.is_some() || *m != 0x7fff_ffff) && match incr {
                    AutoOption::Fix(i) => !i.at_most_zero(),
                    AutoOption::Auto => true,
                }
            },
            _ => true,
        };
        ticks_ok && self.label.is_writable()
    }

    /// The zero axis line.
    pub open spec fn zeroaxis_text(&self, version: GnuplotVersion) -> Seq<char> {
        let z = if self.axis != TickAxis::CB {
            if self.show {
                "set "@ + self.axis.axis_name() + "zeroaxis "@
                    + color_options_text(self.options@, " lc "@ + ("rgb \""@ + "black"@ + "\""@))
                    + line_options_text(self.options@, version)
            } else {
                "unset "@ + self.axis.axis_name() + "zeroaxis "@
            }
        } else {
            Seq::empty()
        };
        z + "\n"@
    }

    /// The logarithmic scale.
    pub open spec fn log_text(&self) -> Seq<char> {
        match self.log_base {
            Some(base) => "set logscale "@ + self.axis.axis_name() + " "@ + base.sci@ + "\n"@,
            None => "unset logscale "@ + self.axis.axis_name() + "\n"@,
        }
    }

    /// Whether the axis holds times.
    pub open spec fn data_text(&self) -> Seq<char> {
        "set "@ + self.axis.axis_name() + "data"@ + (if self.is_time { " time"@ } else { Seq::empty() })
            + "\n"@
    }

    /// The minor ticks: gnuplot's default on a logarithmic axis.
    pub open spec fn mtics_text(&self) -> Seq<char> {
        let m = match self.tick_type {
            TickType::Auto(_, mticks) => "set m"@ + self.axis.tick_name() + " "@ + (if self.log_base is Some {
                "default"@
            } else {
                dec_int(minor_intervals(mticks))
            }) + "\n"@,
            _ => "unset m"@ + self.axis.tick_name() + "\n"@,
        };
        m + "\n"@
    }

    /// The range, `*` standing for an automatic end.
    pub open spec fn range_text(&self) -> Seq<char> {
        "set "@ + self.axis.range_name() + " ["@ + auto_text(self.min) + ":"@ + auto_text(self.max)
            + (if self.reverse { "] reverse\n"@ } else { "]\n"@ })
    }

    /// The major ticks and their options.
    pub open spec fn tics_text(&self) -> Seq<char> {
        let o = if self.tick_type is NoTicks {
            Seq::empty()
        } else {
            tick_options_text(self.label_options@, self.tick_options@)
        };
        self.tics_head_text() + o + "\n"@
    }

    /// The command of the major ticks, before their options.
    pub open spec fn tics_head_text(&self) -> Seq<char> {
        match self.tick_type {
            TickType::NoTicks => "unset "@ + self.axis.tick_name(),
            TickType::Auto(incr, _) => "set "@ + self.axis.tick_name() + match incr {
                AutoOption::Auto => " autofreq"@,
                AutoOption::Fix(i) => "  "@ + i.sci@,
            },
            TickType::Custom(ticks) => "set "@ + self.axis.tick_name() + " ("@ + ticks_text(ticks@) + ")"@,
        }
    }

    #[verifier::opaque]
    /// All the commands that set up the axis.
    pub open spec fn commands_text(&self, version: GnuplotVersion) -> Seq<char> {
        self.zeroaxis_text(version) + self.log_text() + self.data_text() + self.mtics_text()
            + self.range_text() + self.tics_text() + self.label.commands_text() + "\n"@
    }

    fn write_zeroaxis(&self, w: &mut String, version: GnuplotVersion)
        ensures
            final(w)@ == old(w)@ + self.zeroaxis_text(version),
    {
        let ghost start = w@;
        if self.axis != TickAxis::CB {
            if self.show {
                put(w, "set ");
                put(w, self.axis.get_axis_str());
                put(w, "zeroaxis ");
                let black = Some(ColorType::RGBString(String::from_str("black")));
                write_color_options(w, &self.options, &black);
                write_line_options(w, &self.options, version);
            } else {
                put(w, "unset ");
                put(w, self.axis.get_axis_str());
                put(w, "zeroaxis ");
            }
        }
        put(w, "\n");
        assert(w@ =~= start + self.zeroaxis_text(version));
    }

    fn write_log(&self, w: &mut String)
        ensures
            final(w)@ == old(w)@ + self.log_text(),
    {
        let ghost start = w@;
        match &self.log_base {
            Some(base) => {
                put(w, "set logscale ");
                put(w, self.axis.get_axis_str());
                put(w, " ");
                put(w, base.sci.as_str());
            },
            None => {
                put(w, "unset logscale ");
                put(w, self.axis.get_axis_str());
            },
        }
        put(w, "\n");
        assert(w@ =~= start + self.log_text());
    }

    fn write_data(&self, w: &mut String)
        ensures
            final(w)@ == old(w)@ + self.data_text(),
    {
        let ghost start = w@;
        put(w, "set ");
        put(w, self.axis.get_axis_str());
        put(w, "data");
        if self.is_time {
            put(w, " time");
        }
        put(w, "\n");
        assert(w@ =~= start + self.data_text());
    }

    fn write_mtics(&self, w: &mut String)
        requires
            self.log_base is None ==> (self.tick_type matches TickType::Auto(_, m) ==> m != 0x7fff_ffff),
        ensures
            final(w)@ == old(w)@ + self.mtics_text(),
    {
        let ghost start = w@;
        match &self.tick_type {
            TickType::Auto(_, mticks) => {
                put(w, "set m");
                put(w, self.axis.get_tick_str());
                put(w, " ");
                if self.log_base.is_some() {
                    put(w, "default");
                } else {
                    let m = *mticks;
                    let v: i64 = if m < 0x8000_0000 {
                        m as i64 + 1
                    } else {
                        m as i64 - 0x1_0000_0000 + 1
                    };
                    put_i64(w, v);
                }
                put(w, "\n");
            },
            _ => {
                put(w, "unset m");
                put(w, self.axis.get_tick_str());
                put(w, "\n");
            },
        }
        put(w, "\n");
        assert(w@ =~= start + self.mtics_text());
    }

    fn write_range(&self, w: &mut String)
        ensures
            final(w)@ == old(w)@ + self.range_text(),
    {
        let ghost start = w@;
        put(w, "set ");
        put(w, self.axis.get_range_str());
        put(w, " [");
        match &self.min {
            AutoOption::Fix(v) => put(w, v.sci.as_str()),
            AutoOption::Auto => put(w, "*"),
        }
        put(w, ":");
        match &self.max {
            AutoOption::Fix(v) => put(w, v.sci.as_str()),
            AutoOption::Auto => put(w, "*"),
        }
        if self.reverse {
            put(w, "] reverse\n");
        } else {
            put(w, "]\n");
        }
        assert(w@ =~= start + self.range_text());
    }

    fn write_tics_head(&self, w: &mut String)
        ensures
            final(w)@ == old(w)@ + self.tics_head_text(),
    {
        let ghost start = w@;
        match &self.tick_type {
            TickType::NoTicks => {
                put(w, "unset ");
                put(w, self.axis.get_tick_str());
            },
            TickType::Auto(incr, _) => {
                put(w, "set ");
                put(w, self.axis.get_tick_str());
                match incr {
                    AutoOption::Auto => put(w, " autofreq"),
                    AutoOption::Fix(i) => {
                        put(w, " ");
                        put(w, " ");
                        put(w, i.sci.as_str());
                    },
                }
            },
            TickType::Custom(ticks) => {
                put(w, "set ");
                put(w, self.axis.get_tick_str());
                put(w, " (");
                write_ticks(w, ticks);
                put(w, ")");
            },
        }
        assert(w@ =~= start + self.tics_head_text()) by {
            reveal_strlit(" ");
            reveal_strlit("  ");
        }
    }

    fn write_tics(&self, w: &mut String)
        ensures
            final(w)@ == old(w)@ + self.tics_text(),
    {
        let ghost start = w@;
        self.write_tics_head(w);
        let ghost mid = w@;
        let write_options = match &self.tick_type {
            TickType::NoTicks => false,
            _ => true,
        };
        if write_options {
            write_tick_options(w, &self.label_options, &self.tick_options);
        }
        put(w, "\n");
        assert(w@ =~= start + self.tics_text());
    }

    /// The zero axis, logarithmic scale and data kind of the axis.
    pub open spec fn head_text(&self, version: GnuplotVersion) -> Seq<char> {
        self.zeroaxis_text(version) + self.log_text() + self.data_text()
    }

    /// The minor ticks, range and major ticks of the axis.
    pub open spec fn ticks_text(&self) -> Seq<char> {
        self.mtics_text() + self.range_text() + self.tics_text()
    }

    fn write_head(&self, w: &mut String, version: GnuplotVersion)
        ensures
            final(w)@ == old(w)@ + self.head_text(version),
    {
        let ghost start = w@;
        self.write_zeroaxis(w, version);
        self.write_log(w);
        self.write_data(w);
        assert(w@ =~= start + self.head_text(version));
    }

    fn write_tick_commands(&self, w: &mut String)
        requires
            self.log_base is None ==> (self.tick_type matches TickType::Auto(_, m) ==> m != 0x7fff_ffff),
        ensures
            final(w)@ == old(w)@ + self.ticks_text(),
    {
        let ghost start = w@;
        self.write_mtics(w);
        self.write_range(w);
        self.write_tics(w);
        assert(w@ =~= start + self.ticks_text());
    }

    /// Appends all the commands that set up the axis.
    pub fn write_out_commands(&self, w: &mut String, version: GnuplotVersion)
        requires
            self.writable(),
        ensures
            final(w)@ == old(w)@ + self.commands_text(version),
    {
        let ghost start = w@;
        self.write_head(w, version);
        self.write_tick_commands(w);
        self.label.write_out_commands(w);
        put(w, "\n");
        assert(w@ =~= start + self.commands_text(version)) by {
            reveal(AxisData::commands_text);
            assert(self.commands_text(version) =~= self.head_text(version) + self.ticks_text()
                + self.label.commands_text() + "\n"@);
        }
    }

    /// Places ticks at the given positions.
    pub fn set_ticks_custom(&mut self, ticks: Vec<Tick>, tick_options: Vec<TickOption>, label_options: Vec<LabelOption>)
        ensures
            *final(self) == (AxisData {
                tick_type: TickType::Custom(ticks),
                tick_options,
                label_options,
                ..*old(self)
            }),
    {
        self.tick_type = TickType::Custom(ticks);
        self.tick_options = tick_options;
        self.label_options = label_options;
    }

    /// The axis with ticks at an interval and a number of minor ticks, or without ticks.
    pub open spec fn with_ticks(
        self,
        tick_placement: Option<(AutoOption<Real>, u32)>,
        tick_options: Vec<TickOption>,
        label_options: Vec<LabelOption>,
    ) -> AxisData {
        match tick_placement {
            Some((incr, mticks)) => AxisData {
                tick_type: TickType::Auto(incr, mticks),
                tick_options,
                label_options,
                ..self
            },
            None => AxisData { tick_type: TickType::NoTicks, ..self },
        }
    }

    /// Places ticks at an interval with a number of minor ticks, or hides them (`None`);
    /// the options are kept only when ticks are shown.
    pub fn set_ticks(
        &mut self,
        tick_placement: Option<(AutoOption<Real>, u32)>,
        tick_options: Vec<TickOption>,
        label_options: Vec<LabelOption>,
    )
        ensures
            *final(self) == old(self).with_ticks(tick_placement, tick_options, label_options),
    {
        match tick_placement {
            Some((incr, mticks)) => {
                self.tick_type = TickType::Auto(incr, mticks);
                self.tick_options = tick_options;
                self.label_options = label_options;
            },
            None => {
                self.tick_type = TickType::NoTicks;
            },
        }
    }

    /// Sets the range.
    pub fn set_range(&mut self, min: AutoOption<Real>, max: AutoOption<Real>)
        ensures
            *final(self) == (AxisData { min, max, ..*old(self) }),
    {
        self.min = min;
        self.max = max;
    }

    /// Sets or removes the logarithmic base.
    pub fn set_log(&mut self, base: Option<Real>)
        ensures
            *final(self) == (AxisData { log_base: base, ..*old(self) }),
    {
        self.log_base = base;
    }

    /// Sets whether the axis runs backwards.
    pub fn set_reverse(&mut self, reverse: bool)
        ensures
            *final(self) == (AxisData { reverse, ..*old(self) }),
    {
        self.reverse = reverse;
    }

    /// Sets whether the grid is shown.
    pub fn set_grid(&mut self, show: bool)
        ensures
            *final(self) == (AxisData { grid: show, ..*old(self) }),
    {
        self.grid = show;
    }

    /// Sets whether the minor grid is shown.
    pub fn set_minor_grid(&mut self, show: bool)
        ensures
            *final(self) == (AxisData { mgrid: show, ..*old(self) }),
    {
        self.mgrid = show;
    }

    /// Sets whether the axis holds times.
    pub fn set_time(&mut self, is_time: bool)
        ensures
            *final(self) == (AxisData { is_time, ..*old(self) }),
    {
        self.is_time = is_time;
    }
}

/// The margins of a plot, each set at a screen position or left to gnuplot.
pub struct Margins {
    pub left: Option<Real>,
    pub right: Option<Real>,
    pub top: Option<Real>,
    pub bottom: Option<Real>,
}

/// One margin command.
pub open spec fn margin_text(name: Seq<char>, v: Option<Real>) -> Seq<char> {
    "set "@ + name + match v {
        Some(v) => " at screen "@ + v.plain@,
        None => Seq::empty(),
    } + "\n"@
}

fn write_margin(w: &mut String, name: &str, v: &Option<Real>)
    ensures
        final(w)@ == old(w)@ + margin_text(name@, *v),
{
    let ghost start = w@;
    put(w, "set ");
    put(w, name);
    match v {
        Some(v) => {
            put(w, " at screen ");
            put(w, v.plain.as_str());
        },
        None => {},
    }
    put(w, "\n");
    assert(w@ =~= start + margin_text(name@, *v));
}

impl Margins {
    /// No margin set.
    pub fn new() -> (r: Self)
        ensures
            r.left is None && r.right is None && r.top is None && r.bottom is None,
    {
        Margins { left: None, right: None, top: None, bottom: None }
    }

    /// The margin commands.
    pub open spec fn commands_text(&self) -> Seq<char> {
        margin_text("lmargin"@, self.left) + margin_text("rmargin"@, self.right)
            + margin_text("tmargin"@, self.top) + margin_text("bmargin"@, self.bottom)
    }

    /// Appends the margin commands.
    pub fn write_out_commands(&self, w: &mut String)
        ensures
            final(w)@ == old(w)@ + self.commands_text(),
    {
        let ghost start = w@;
        write_margin(w, "lmargin", &self.left);
        write_margin(w, "rmargin", &self.right);
        write_margin(w, "tmargin", &self.top);
        write_margin(w, "bmargin", &self.bottom);
        assert(w@ =~= start + self.commands_text());
    }
}

/// One entry of a custom palette.
pub open spec fn palette_entry_text(e: (Real, Real, Real, Real)) -> Seq<char> {
    e.0.sci@ + " "@ + e.1.sci@ + " "@ + e.2.sci@ + " "@ + e.3.sci@
}

/// The entries of a custom palette, separated by commas.
pub open spec fn palette_entries_text(s: Seq<(Real, Real, Real, Real)>) -> Seq<char>
    decreases s.len(),
{
    if s.len() == 0 {
        Seq::empty()
    } else if s.len() == 1 {
        palette_entry_text(s[0])
    } else {
        palette_entries_text(s.drop_last()) + ","@ + palette_entry_text(s.last())
    }
}

fn write_palette_entry(w: &mut String, e: &(Real, Real, Real, Real))
    ensures
        final(w)@ == old(w)@ + palette_entry_text(*e),
{
    let ghost start = w@;
    put(w, e.0.sci.as_str());
    put(w, " ");
    put(w, e.1.sci.as_str());
    put(w, " ");
    put(w, e.2.sci.as_str());
    put(w, " ");
    put(w, e.3.sci.as_str());
    assert(w@ =~= start + palette_entry_text(*e));
}

fn write_palette_entries(w: &mut String, entries: &Vec<(Real, Real, Real, Real)>)
    ensures
        final(w)@ == old(w)@ + palette_entries_text(entries@),
{
    let ghost start = w@;
    let mut i: usize = 0;
    while i < entries.len()
        invariant
            i <= entries@.len(),
            w@ == start + palette_entries_text(entries@.take(i as int)),
        decreases entries@.len() - i,
    {
        if i > 0 {
            put(w, ",");
        }
        write_palette_entry(w, &entries[i]);
        proof {
            let t = entries@.take(i + 1);
            assert(t.drop_last() =~= entries@.take(i as int));
            assert(t.last() == entries@[i as int]);
            if i == 0 {
                assert(entries@.take(0) =~= Seq::<(Real, Real, Real, Real)>::empty());
            }
            assert(w@ =~= start + palette_entries_text(t));
        }
        i = i + 1;
    }
    assert(entries@.take(entries@.len() as int) =~= entries@);
}

/// At least two custom palette entries, with non-decreasing gray levels, none of them NaN.
pub open spec fn custom_palette_valid(entries: Seq<(Real, Real, Real, Real)>) -> bool {
    &&& entries.len() >= 2
    &&& forall|i: int| 0 <= i < entries.len() ==> #[trigger] entries[i].0.at_least(&entries[i].0)
    &&& forall|i: int| 1 <= i < entries.len() ==> #[trigger] entries[i].0.at_least(&entries[i - 1].0)
}

fn custom_palette_ok(entries: &Vec<(Real, Real, Real, Real)>) -> (r: bool)
    ensures
        r == custom_palette_valid(entries@),
{
    if entries.len() < 2 {
        return false;
    }
    let mut i: usize = 0;
    while i < entries.len()
        invariant
            i <= entries@.len(),
            entries@.len() >= 2,
            forall|k: int| 0 <= k < i ==> #[trigger] entries@[k].0.at_least(&entries@[k].0),
            forall|k: int| 1 <= k < i ==> #[trigger] entries@[k].0.at_least(&entries@[k - 1].0),
        decreases entries@.len() - i,
    {
        if !entries[i].0.ge(&entries[i].0) {
            return false;
        }
        if i > 0 && !entries[i].0.ge(&entries[i - 1].0) {
            return false;
        }
        i = i + 1;
    }
    true
}

impl PaletteType {
    /// Whether the palette can be written: a positive gamma, formulas between -36 and 36,
    /// a non-negative saturation, and at least two custom entries with non-decreasing gray
    /// levels (none of them NaN).
    pub open spec fn valid(&self) -> bool {
        match self {
            PaletteType::Gray(gamma) => gamma.is_positive(),
            PaletteType::Formula(r, g, b) => -36 <= *r <= 36 && -36 <= *g <= 36 && -36 <= *b <= 36,
            PaletteType::CubeHelix(_, _, sat, gamma) => sat.is_non_negative() && gamma.is_positive(),
            PaletteType::Custom(entries) => custom_palette_valid(entries@),
        }
    }

    /// Whether the palette can be written.
    pub fn is_valid(&self) -> (r: bool)
        ensures
            r == self.valid(),
    {
        match self {
            PaletteType::Gray(gamma) => gamma.positive(),
            PaletteType::Formula(r, g, b) => -36 <= *r && *r <= 36 && -36 <= *g && *g <= 36 && -36 <= *b && *b <= 36,
            PaletteType::CubeHelix(_, _, sat, gamma) => sat.non_negative() && gamma.positive(),
            PaletteType::Custom(entries) => custom_palette_ok(entries),
        }
    }

    /// The command that sets the palette.
    pub open spec fn commands_text(&self) -> Seq<char> {
        match self {
            PaletteType::Gray(gamma) => "set palette gray gamma "@ + gamma.sci@ + "\n"@,
            PaletteType::Formula(r, g, b) => "set palette rgbformulae "@ + dec_int(*r as int) + ","@
                + dec_int(*g as int) + ","@ + dec_int(*b as int) + "\n"@,
            PaletteType::CubeHelix(start, cycles, sat, gamma) => "set palette cubehelix start "@
                + start.sci@ + " cycles "@ + cycles.sci@ + " saturation "@ + sat.sci@ + " gamma "@
                + gamma.sci@ + "\n"@,
            PaletteType::Custom(entries) => "set palette defined ("@ + palette_entries_text(entries@)
                + ")\n"@,
        }
    }

    /// Appends the command that sets the palette.
    pub fn write_out_commands(&self, w: &mut String)
        requires
            self.valid(),
        ensures
            final(w)@ == old(w)@ + self.commands_text(),
    {
        let ghost start = w@;
        match self {
            PaletteType::Gray(gamma) => {
                put(w, "set palette gray gamma ");
                put(w, gamma.sci.as_str());
                put(w, "\n");
            },
            PaletteType::Formula(r, g, b) => {
                put(w, "set palette rgbformulae ");
                put_i64(w, *r as i64);
                put(w, ",");
                put_i64(w, *g as i64);
                put(w, ",");
                put_i64(w, *b as i64);
                put(w, "\n");
            },
            PaletteType::CubeHelix(st, cycles, sat, gamma) => {
                put(w, "set palette cubehelix start ");
                put(w, st.sci.as_str());
                put(w, " cycles ");
                put(w, cycles.sci.as_str());
                put(w, " saturation ");
                put(w, sat.sci.as_str());
                put(w, " gamma ");
                put(w, gamma.sci.as_str());
                put(w, "\n");
            },
            PaletteType::Custom(entries) => {
                put(w, "set palette defined (");
                write_palette_entries(w, entries);
                put(w, ")\n");
            },
        }
        assert(w@ =~= start + self.commands_text());
    }
}

/// `e` plots the matrix `mat`, `num_rows` by `num_cols`, padded with NaN where it is short.
pub open spec fn is_matrix_plot(
    e: PlotElement,
    plot_type: PlotType,
    is_3d: bool,
    mat: Seq<u64>,
    num_rows: usize,
    num_cols: usize,
    dimensions: Option<ArrayExtent>,
    options: Vec<PlotOption>,
) -> bool {
    &&& e.data@.len() == if mat.len() < num_rows * num_cols { (num_rows * num_cols) as int } else { mat.len() as int }
    &&& forall|i: int| 0 <= i < mat.len() ==> e.data@[i] == mat[i]
    &&& forall|i: int| mat.len() <= i < e.data@.len() ==> e.data@[i] == NAN_BITS
    &&& e.num_rows == num_rows
    &&& e.num_cols == num_cols
    &&& e.plot_type == plot_type
    &&& e.is_3d == is_3d
    &&& e.options == options
    &&& e.source_type == match dimensions {
        Some(d) => crate::element::DataSourceType::SizedArray(d),
        None => crate::element::DataSourceType::Array,
    }
}

/// The bytes written for a matrix element are exactly what its `array=(columns,rows)`
/// argument tells gnuplot to read, as long as the matrix holds no more values than that;
/// missing values are padded.
pub proof fn lemma_matrix_data_matches_format(
    e: PlotElement,
    plot_type: PlotType,
    is_3d: bool,
    mat: Seq<u64>,
    num_rows: usize,
    num_cols: usize,
    dimensions: Option<ArrayExtent>,
    options: Vec<PlotOption>,
)
    requires
        is_matrix_plot(e, plot_type, is_3d, mat, num_rows, num_cols, dimensions, options),
        mat.len() <= num_rows * num_cols,
    ensures
        crate::element::data_bytes(e.data@).len() == 8 * (e.num_rows * e.num_cols),
{
    crate::element::lemma_data_bytes_len(e.data@);
}

/// The free labels are tagged 1, 2, ... in the order they were added.
pub open spec fn labels_numbered(labels: Seq<LabelData>) -> bool {
    forall|i: int| 0 <= i < labels.len() ==> ((#[trigger] labels[i]).label_type matches LabelType::Label(t, _, _) && t == i + 1)
}

/// Adding a free label the way `AxesCommon::label` does keeps the labels numbered, and
/// numbered labels have distinct tags: each `unset label` removes its own label only.
pub proof fn lemma_labels_numbered(before: Seq<LabelData>, label: LabelData)
    requires
        labels_numbered(before),
        label.label_type matches LabelType::Label(t, _, _) && t == before.len() + 1,
    ensures
        labels_numbered(before.push(label)),
        forall|i: int, j: int| 0 <= i < j < before.push(label).len() ==>
            (#[trigger] before.push(label)[i]).label_type->Label_0 != (#[trigger] before.push(label)[j]).label_type->Label_0,
{
    let after = before.push(label);
    assert forall|i: int| 0 <= i < after.len() implies ((#[trigger] after[i]).label_type matches LabelType::Label(t, _, _) && t == i + 1) by {
        if i < before.len() {
            assert(after[i] == before[i]);
        }
    }
}

/// A point on the screen, 0 to 1 in each direction.
#[derive(Clone, Debug)]
pub struct Position {
    pub x: Real,
    pub y: Real,
}

/// A width and height on the screen, 0 to 1 each.
#[derive(Clone, Debug)]
pub struct Size {
    pub w: Real,
    pub h: Real,
}

/// The path of `file` inside `dir`, as `std::path::Path::join` makes it on the platform
/// the crate is built for (with `/` between the two on Unix, `\\` on Windows).
pub uninterp spec fn path_joined(dir: Seq<char>, file: Seq<char>) -> Seq<char>;

/// `std::path::Path::join`: the path of `file` inside the directory `dir`, as text.
/// Joining two UTF-8 paths gives a UTF-8 path, so the text always exists. Nothing is
/// claimed of the result but that it is the same for the same two texts.
#[verifier::external_body]
fn join_path(dir: &str, file: &str) -> (r: String)
    ensures
        r@ == path_joined(dir@, file@),
{
    std::path::Path::new(dir).join(file).to_str().unwrap().to_string()
}

/// The name of the file that holds the data of the `i`th element: `<i>.bin`.
pub open spec fn data_file_name(i: nat) -> Seq<char> {
    dec_nat(i) + ".bin"@
}

/// The path of the file that holds the data of the `i`th element in `dir`.
pub fn data_file_path(dir: &str, i: usize) -> (r: String)
    ensures
        r@ == path_joined(dir@, data_file_name(i as nat)),
{
    let mut name = String::new();
    put_u64(&mut name, i as u64);
    put(&mut name, ".bin");
    assert(name@ =~= data_file_name(i as nat));
    join_path(dir, name.as_str())
}

/// Where gnuplot reads the data of the `i`th element: from its file in `dir`, escaped,
/// or `-`, the script itself.
pub open spec fn element_source(dir: Option<Seq<char>>, i: nat) -> Seq<char> {
    match dir {
        Some(d) => escaped(path_joined(d, data_file_name(i))),
        None => "-"@,
    }
}

/// The text of an optional directory.
pub open spec fn dir_view(d: Option<&str>) -> Option<Seq<char>> {
    match d {
        Some(s) => Some(s@),
        None => None,
    }
}

/// Whether an element among the first `n` has rows.
pub open spec fn some_rows(elems: Seq<PlotElement>, n: int) -> bool {
    exists|j: int| 0 <= j < n && #[trigger] elems[j].num_rows != 0
}

/// The plot arguments of the first `n` elements, separated by commas; elements without
/// rows are left out.
pub open spec fn elements_args_text(elems: Seq<PlotElement>, dir: Option<Seq<char>>, version: GnuplotVersion, n: nat) -> Seq<char>
    decreases n,
{
    if n == 0 {
        Seq::empty()
    } else {
        let i = (n - 1) as nat;
        let e = elems[i as int];
        elements_args_text(elems, dir, version, i) + if e.num_rows == 0 {
            Seq::empty()
        } else {
            (if some_rows(elems, i as int) { ","@ } else { Seq::empty() }) + e.args_text(element_source(dir, i), version)
        }
    }
}

fn write_element_args(e: &PlotElement, i: usize, data_directory: Option<&str>, w: &mut String, version: GnuplotVersion)
    requires
        e.writable(),
    ensures
        final(w)@ == old(w)@ + e.args_text(element_source(dir_view(data_directory), i as nat), version),
{
    let source = match data_directory {
        Some(d) => {
            let p = data_file_path(d, i);
            escape(p.as_str())
        },
        None => String::from_str("-"),
    };
    e.write_args(source.as_str(), w, version);
}

/// The data of the first `n` elements, one after another.
pub open spec fn elements_data(elems: Seq<PlotElement>, n: nat) -> Seq<u8>
    decreases n,
{
    if n == 0 {
        Seq::empty()
    } else {
        elements_data(elems, (n - 1) as nat) + data_bytes(elems[n - 1].data@)
    }
}

/// Free labels' commands, one after another.
pub open spec fn labels_text(labels: Seq<LabelData>) -> Seq<char>
    decreases labels.len(),
{
    if labels.len() == 0 {
        Seq::empty()
    } else {
        labels_text(labels.drop_last()) + labels.last().commands_text()
    }
}

/// The commands that remove free labels, one after another.
pub open spec fn labels_reset_text(labels: Seq<LabelData>) -> Seq<char>
    decreases labels.len(),
{
    if labels.len() == 0 {
        Seq::empty()
    } else {
        labels_reset_text(labels.drop_last()) + labels.last().reset_text()
    }
}

/// The line and color of grid lines.
pub open spec fn grid_style_text(options: Seq<PlotOption>, version: GnuplotVersion) -> Seq<char> {
    line_options_text(options, version) + color_options_text(options, Seq::empty())
}

fn write_grid_style(c: &mut String, options: &Vec<PlotOption>, version: GnuplotVersion)
    ensures
        final(c)@ == old(c)@ + grid_style_text(options@, version),
{
    let ghost start = c@;
    write_line_options(c, options, version);
    write_color_options(c, options, &None);
    assert(c@ =~= start + grid_style_text(options@, version));
}

/// What all kinds of axes hold.
pub struct AxesCommonData {
    pub grid_options: Vec<PlotOption>,
    pub minor_grid_options: Vec<PlotOption>,
    pub grid_front: bool,
    pub elems: Vec<PlotElement>,
    pub x_axis: AxisData,
    pub x2_axis: AxisData,
    pub y_axis: AxisData,
    pub y2_axis: AxisData,
    pub cb_axis: AxisData,
    pub labels: Vec<LabelData>,
    pub title: LabelData,
    pub position: Option<Position>,
    pub size: Option<Size>,
    pub aspect_ratio: AutoOption<Real>,
    pub margins: Margins,
    pub palette: PaletteType,
}

impl AxesCommonData {
    /// Nothing plotted, five axes (the secondary ones without ticks), no labels,
    /// automatic layout and gnuplot's default palette.
    pub open spec fn is_fresh(&self) -> bool {
        &&& self.grid_options@.len() == 0
        &&& self.minor_grid_options@.len() == 0
        &&& !self.grid_front
        &&& self.elems@.len() == 0
        &&& self.x_axis.is_plain(TickAxis::X)
        &&& self.y_axis.is_plain(TickAxis::Y)
        &&& self.x2_axis.is_plain(TickAxis::X2)
        &&& self.y2_axis.is_plain(TickAxis::Y2)
        &&& self.cb_axis.is_plain(TickAxis::CB)
        &&& self.x_axis.tick_type matches TickType::Auto(AutoOption::Auto, 0)
        &&& self.y_axis.tick_type matches TickType::Auto(AutoOption::Auto, 0)
        &&& self.cb_axis.tick_type matches TickType::Auto(AutoOption::Auto, 0)
        &&& self.x2_axis.tick_type is NoTicks
        &&& self.y2_axis.tick_type is NoTicks
        &&& self.labels@.len() == 0
        &&& self.title.label_type is TitleLabel
        &&& self.title.text@.len() == 0
        &&& self.title.options@.len() == 0
        &&& self.position is None
        &&& self.size is None
        &&& self.aspect_ratio is Auto
        &&& self.margins.left is None && self.margins.right is None
        &&& self.margins.top is None && self.margins.bottom is None
        &&& self.palette == PaletteType::Formula(7, 5, 15)
    }

    /// Axes with nothing plotted, five axes (the secondary ones without ticks), no labels,
    /// automatic layout and gnuplot's default palette.
    pub fn new() -> (r: AxesCommonData)
        ensures
            r.is_fresh(),
            r.writable(),
    {
        let mut ret = AxesCommonData {
            grid_options: Vec::new(),
            minor_grid_options: Vec::new(),
            grid_front: false,
            elems: Vec::new(),
            x_axis: AxisData::new(TickAxis::X),
            y_axis: AxisData::new(TickAxis::Y),
            x2_axis: AxisData::new(TickAxis::X2),
            y2_axis: AxisData::new(TickAxis::Y2),
            cb_axis: AxisData::new(TickAxis::CB),
            labels: Vec::new(),
            title: LabelData::new(LabelType::TitleLabel),
            position: None,
            size: None,
            aspect_ratio: AutoOption::Auto,
            margins: Margins::new(),
            palette: PaletteType::Formula(7, 5, 15),
        };
        ret.x2_axis.tick_type = TickType::NoTicks;
        ret.y2_axis.tick_type = TickType::NoTicks;
        ret
    }

    /// Adds an element that plots the rows of the columns, and of the color values where
    /// given.
    pub fn add_plot(&mut self, plot_type: PlotType, columns: Vec<Vec<u64>>, color_values: Option<Vec<u64>>, options: Vec<PlotOption>)
        requires
            color_values is Some <==> needs_color_values(options@),
            columns@.len() >= 1,
        ensures
            final(self).elems@.len() == old(self).elems@.len() + 1,
            final(self).elems@.drop_last() == old(self).elems@,
            is_record_plot(final(self).elems@.last(), plot_type, with_color(crate::element::columns_view(columns@), color_values), options),
            *final(self) == (AxesCommonData { elems: final(self).elems, ..*old(self) }),
    {
        let ghost cols = columns@;
        let (data, num_rows, num_cols) = generate_data(columns, color_values);
        let e = PlotElement::new_plot(plot_type, data, num_rows, num_cols, options);
        self.elems.push(e);
        assert(self.elems@.drop_last() =~= old(self).elems@);
    }

    /// Adds a matrix element; missing values at the end are filled with NaN.
    pub fn add_matrix(
        &mut self,
        plot_type: PlotType,
        is_3d: bool,
        mat: Vec<u64>,
        num_rows: usize,
        num_cols: usize,
        dimensions: Option<ArrayExtent>,
        options: Vec<PlotOption>,
    )
        requires
            num_rows * num_cols <= usize::MAX,
        ensures
            final(self).elems@.len() == old(self).elems@.len() + 1,
            final(self).elems@.drop_last() == old(self).elems@,
            is_matrix_plot(final(self).elems@.last(), plot_type, is_3d, mat@, num_rows, num_cols, dimensions, options),
            *final(self) == (AxesCommonData { elems: final(self).elems, ..*old(self) }),
    {
        let e = PlotElement::new_plot_matrix(plot_type, is_3d, mat, num_rows, num_cols, dimensions, options);
        self.elems.push(e);
        assert(self.elems@.drop_last() =~= old(self).elems@);
    }

    /// Whether everything the axes hold can be written.
    pub open spec fn writable(&self) -> bool {
        &&& self.x_axis.writable()
        &&& self.y_axis.writable()
        &&& self.x2_axis.writable()
        &&& self.y2_axis.writable()
        &&& self.cb_axis.writable()
        &&& self.title.writable()
        &&& forall|i: int| 0 <= i < self.labels@.len() ==> #[trigger] self.labels@[i].writable()
        &&& self.palette.valid()
        &&& forall|i: int| 0 <= i < self.elems@.len() ==> #[trigger] self.elems@[i].writable()
    }

    /// Whether everything the axes hold can be written.
    pub fn is_writable(&self) -> (r: bool)
        ensures
            r == self.writable(),
    {
        if !(self.x_axis.is_writable() && self.y_axis.is_writable() && self.x2_axis.is_writable()
            && self.y2_axis.is_writable() && self.cb_axis.is_writable() && self.title.is_writable()
            && self.palette.is_valid()) {
            return false;
        }
        let mut i: usize = 0;
        while i < self.labels.len()
            invariant
                i <= self.labels@.len(),
                forall|k: int| 0 <= k < i ==> #[trigger] self.labels@[k].writable(),
            decreases self.labels@.len() - i,
        {
            if !self.labels[i].is_writable() {
                return false;
            }
            i = i + 1;
        }
        let mut j: usize = 0;
        while j < self.elems.len()
            invariant
                j <= self.elems@.len(),
                forall|k: int| 0 <= k < j ==> #[trigger] self.elems@[k].writable(),
            decreases self.elems@.len() - j,
        {
            if !self.elems[j].is_writable() {
                return false;
            }
            j = j + 1;
        }
        true
    }

    /// Whether the minor grid of `axis` is shown (the color bar has none).
    pub open spec fn minor_grid_on(&self, axis: TickAxis) -> bool {
        ||| self.x_axis.axis == axis && self.x_axis.mgrid
        ||| self.y_axis.axis == axis && self.y_axis.mgrid
        ||| self.x2_axis.axis == axis && self.x2_axis.mgrid
        ||| self.y2_axis.axis == axis && self.y2_axis.mgrid
    }

    /// The grid names of the first `n` axes.
    pub open spec fn grid_axes_text(&self, axes: Seq<TickAxis>, n: nat) -> Seq<char>
        decreases n,
    {
        if n == 0 {
            Seq::empty()
        } else {
            let a = axes[n - 1];
            self.grid_axes_text(axes, (n - 1) as nat) + a.tick_name() + " "@
                + if self.minor_grid_on(a) { a.mtick_name() + " "@ } else { Seq::empty() }
        }
    }

    #[verifier::opaque]
    /// The grid command for the given axes; nothing when there are none.
    pub open spec fn grid_text(&self, axes: Seq<TickAxis>, version: GnuplotVersion) -> Seq<char> {
        if axes.len() == 0 {
            Seq::empty()
        } else {
            "set grid "@ + self.grid_axes_text(axes, axes.len()) + (if self.grid_front { "front "@ } else { "back "@ })
                + grid_style_text(self.grid_options@, version) + ", "@
                + grid_style_text(self.minor_grid_options@, version) + "\n"@
        }
    }

    fn write_grid_axes(&self, c: &mut String, axes: &Vec<TickAxis>)
        ensures
            final(c)@ == old(c)@ + self.grid_axes_text(axes@, axes@.len()),
    {
        let ghost start = c@;
        let mut i: usize = 0;
        while i < axes.len()
            invariant
                i <= axes@.len(),
                c@ == start + self.grid_axes_text(axes@, i as nat),
            decreases axes@.len() - i,
        {
            let axis = axes[i];
            put(c, axis.get_tick_str());
            put(c, " ");
            if self.x_axis.axis == axis && self.x_axis.mgrid || self.y_axis.axis == axis && self.y_axis.mgrid
                || self.x2_axis.axis == axis && self.x2_axis.mgrid || self.y2_axis.axis == axis && self.y2_axis.mgrid {
                put(c, axis.get_mtick_str());
                put(c, " ");
            }
            assert(c@ =~= start + self.grid_axes_text(axes@, (i + 1) as nat));
            i = i + 1;
        }
    }

    /// Appends the grid command for the given axes.
    pub fn write_grid_options(&self, c: &mut String, axes: &Vec<TickAxis>, version: GnuplotVersion)
        ensures
            final(c)@ == old(c)@ + self.grid_text(axes@, version),
    {
        let ghost start = c@;
        if axes.len() > 0 {
            put(c, "set grid ");
            self.write_grid_axes(c, axes);
            if self.grid_front {
                put(c, "front ");
            } else {
                put(c, "back ");
            }
            write_grid_style(c, &self.grid_options, version);
            put(c, ", ");
            write_grid_style(c, &self.minor_grid_options, version);
            put(c, "\n");
        }
        assert(c@ =~= start + self.grid_text(axes@, version)) by {
            reveal(AxesCommonData::grid_text);
        }
    }

    /// The position command; without automatic layout an unset position is reset.
    pub open spec fn origin_text(&self, auto_layout: bool) -> Seq<char> {
        match self.position {
            Some(p) => "set origin "@ + p.x.sci@ + ","@ + p.y.sci@ + "\n"@,
            None => if auto_layout { Seq::empty() } else { "set origin\n"@ },
        }
    }

    /// The size command; without automatic layout an unset size is reset.
    pub open spec fn size_text(&self, auto_layout: bool) -> Seq<char> {
        match self.size {
            Some(z) => "set size "@ + z.w.sci@ + ","@ + z.h.sci@ + "\n"@,
            None => if auto_layout { Seq::empty() } else { "set size\n"@ },
        }
    }

    /// The aspect ratio command.
    pub open spec fn ratio_text(&self) -> Seq<char> {
        match self.aspect_ratio {
            AutoOption::Fix(r) => "set size ratio "@ + r.sci@ + "\n"@,
            AutoOption::Auto => "set size noratio\n"@,
        }
    }

    /// The position, size and aspect ratio commands.
    pub open spec fn layout_text(&self, auto_layout: bool) -> Seq<char> {
        self.origin_text(auto_layout) + self.size_text(auto_layout) + self.ratio_text()
    }

    /// The commands of the five axes.
    pub open spec fn axes_text(&self, version: GnuplotVersion) -> Seq<char> {
        self.x_axis.commands_text(version) + self.y_axis.commands_text(version)
            + self.x2_axis.commands_text(version) + self.y2_axis.commands_text(version)
            + self.cb_axis.commands_text(version)
    }

    #[verifier::opaque]
    /// The commands that set up the axes, before anything is plotted.
    pub open spec fn commands_text(&self, auto_layout: bool, version: GnuplotVersion) -> Seq<char> {
        self.layout_text(auto_layout) + self.margins.commands_text() + self.palette.commands_text()
            + self.axes_text(version) + self.title.commands_text() + labels_text(self.labels@)
    }

    fn write_origin(&self, w: &mut String, auto_layout: bool)
        ensures
            final(w)@ == old(w)@ + self.origin_text(auto_layout),
    {
        let ghost start = w@;
        match &self.position {
            Some(p) => {
                put(w, "set origin ");
                put(w, p.x.sci.as_str());
                put(w, ",");
                put(w, p.y.sci.as_str());
                put(w, "\n");
            },
            None => if !auto_layout {
                put(w, "set origin\n");
            },
        }
        assert(w@ =~= start + self.origin_text(auto_layout));
    }

    fn write_size(&self, w: &mut String, auto_layout: bool)
        ensures
            final(w)@ == old(w)@ + self.size_text(auto_layout),
    {
        let ghost start = w@;
        match &self.size {
            Some(z) => {
                put(w, "set size ");
                put(w, z.w.sci.as_str());
                put(w, ",");
                put(w, z.h.sci.as_str());
                put(w, "\n");
            },
            None => if !auto_layout {
                put(w, "set size\n");
            },
        }
        assert(w@ =~= start + self.size_text(auto_layout));
    }

    fn write_layout(&self, w: &mut String, auto_layout: bool)
        ensures
            final(w)@ == old(w)@ + self.layout_text(auto_layout),
    {
        let ghost start = w@;
        self.write_origin(w, auto_layout);
        self.write_size(w, auto_layout);
        let ghost p2 = w@;
        match &self.aspect_ratio {
            AutoOption::Fix(r) => {
                put(w, "set size ratio ");
                put(w, r.sci.as_str());
                put(w, "\n");
            },
            AutoOption::Auto => put(w, "set size noratio\n"),
        }
        assert(w@ =~= start + self.layout_text(auto_layout));
    }

    fn write_axes(&self, w: &mut String, version: GnuplotVersion)
        requires
            self.x_axis.writable(),
            self.y_axis.writable(),
            self.x2_axis.writable(),
            self.y2_axis.writable(),
            self.cb_axis.writable(),
        ensures
            final(w)@ == old(w)@ + self.axes_text(version),
    {
        let ghost start = w@;
        self.x_axis.write_out_commands(w, version);
        self.y_axis.write_out_commands(w, version);
        self.x2_axis.write_out_commands(w, version);
        self.y2_axis.write_out_commands(w, version);
        self.cb_axis.write_out_commands(w, version);
        assert(w@ =~= start + self.axes_text(version));
    }

    fn write_labels(&self, w: &mut String)
        requires
            forall|i: int| 0 <= i < self.labels@.len() ==> #[trigger] self.labels@[i].writable(),
        ensures
            final(w)@ == old(w)@ + labels_text(self.labels@),
    {
        let ghost start = w@;
        let mut i: usize = 0;
        while i < self.labels.len()
            invariant
                i <= self.labels@.len(),
                forall|k: int| 0 <= k < self.labels@.len() ==> #[trigger] self.labels@[k].writable(),
                w@ == start + labels_text(self.labels@.take(i as int)),
            decreases self.labels@.len() - i,
        {
            self.labels[i].write_out_commands(w);
            assert(self.labels@.take(i + 1).drop_last() =~= self.labels@.take(i as int));
            assert(w@ =~= start + labels_text(self.labels@.take(i + 1)));
            i = i + 1;
        }
        assert(self.labels@.take(self.labels@.len() as int) =~= self.labels@);
    }

    /// Appends the commands that set up the axes.
    pub fn write_out_commands(&self, w: &mut String, auto_layout: bool, version: GnuplotVersion)
        requires
            self.writable(),
        ensures
            final(w)@ == old(w)@ + self.commands_text(auto_layout, version),
    {
        let ghost start = w@;
        self.write_layout(w, auto_layout);
        self.margins.write_out_commands(w);
        self.palette.write_out_commands(w);
        self.write_axes(w, version);
        self.title.write_out_commands(w);
        self.write_labels(w);
        assert(w@ =~= start + self.commands_text(auto_layout, version)) by {
            reveal(AxesCommonData::commands_text);
        }
    }

    #[verifier::opaque]
    /// The plot command: `cmd`, then the arguments of each element with rows.
    pub open spec fn elements_text(&self, cmd: Seq<char>, dir: Option<Seq<char>>, version: GnuplotVersion) -> Seq<char> {
        cmd + elements_args_text(self.elems@, dir, version, self.elems@.len()) + "\n"@
    }

    /// Appends the text of the plot command. Where a data directory is given, each
    /// element's data is read from its own file there (see `data_file_path`); otherwise
    /// from the script, right after the command.
    pub fn write_elements_text(&self, cmd: &str, data_directory: Option<&str>, w: &mut String, version: GnuplotVersion)
        requires
            forall|i: int| 0 <= i < self.elems@.len() ==> #[trigger] self.elems@[i].writable(),
        ensures
            final(w)@ == old(w)@ + self.elements_text(cmd@, dir_view(data_directory), version),
    {
        let ghost start = w@;
        let ghost dir = dir_view(data_directory);
        put(w, cmd);
        let mut first = true;
        let mut i: usize = 0;
        while i < self.elems.len()
            invariant
                i <= self.elems@.len(),
                dir == dir_view(data_directory),
                forall|k: int| 0 <= k < self.elems@.len() ==> #[trigger] self.elems@[k].writable(),
                first == !some_rows(self.elems@, i as int),
                w@ == start + cmd@ + elements_args_text(self.elems@, dir, version, i as nat),
            decreases self.elems@.len() - i,
        {
            let e = &self.elems[i];
            if e.num_rows != 0 {
                if !first {
                    put(w, ",");
                }
                write_element_args(e, i, data_directory, w, version);
                first = false;
                assert(some_rows(self.elems@, i + 1)) by {
                    assert(self.elems@[i as int].num_rows != 0);
                }
            } else {
                assert(some_rows(self.elems@, i + 1) == some_rows(self.elems@, i as int)) by {
                    if some_rows(self.elems@, i + 1) {
                        let j = choose|j: int| 0 <= j < i + 1 && #[trigger] self.elems@[j].num_rows != 0;
                        assert(j != i);
                    }
                }
            }
            assert(w@ =~= start + cmd@ + elements_args_text(self.elems@, dir, version, (i + 1) as nat));
            i = i + 1;
        }
        put(w, "\n");
        assert(w@ =~= start + self.elements_text(cmd@, dir, version)) by {
            reveal(AxesCommonData::elements_text);
        }
    }

    /// Appends the data of all elements, one after another.
    pub fn write_out_data(&self, out: &mut Vec<u8>)
        ensures
            final(out)@ == old(out)@ + elements_data(self.elems@, self.elems@.len()),
    {
        let ghost start = out@;
        let mut i: usize = 0;
        while i < self.elems.len()
            invariant
                i <= self.elems@.len(),
                out@ == start + elements_data(self.elems@, i as nat),
            decreases self.elems@.len() - i,
        {
            self.elems[i].write_data(out);
            assert(out@ =~= start + elements_data(self.elems@, (i + 1) as nat));
            i = i + 1;
        }
    }

    /// The bytes of the plot command: its text, then, unless the data goes to files, the
    /// data of every element in order, those without rows included.
    pub open spec fn elements_bytes(&self, cmd: Seq<char>, dir: Option<Seq<char>>, version: GnuplotVersion) -> Seq<u8> {
        vstd::utf8::encode_utf8(self.elements_text(cmd, dir, version))
            + if dir is None { elements_data(self.elems@, self.elems@.len()) } else { Seq::empty() }
    }

    /// Appends the plot command and, unless the data goes to files in `data_directory`,
    /// the data of every element.
    pub fn write_out_elements(&self, cmd: &str, data_directory: Option<&str>, w: &mut Vec<u8>, version: GnuplotVersion)
        requires
            forall|i: int| 0 <= i < self.elems@.len() ==> #[trigger] self.elems@[i].writable(),
        ensures
            final(w)@ == old(w)@ + self.elements_bytes(cmd@, dir_view(data_directory), version),
    {
        let ghost start = w@;
        let mut text = String::new();
        self.write_elements_text(cmd, data_directory, &mut text, version);
        assert(text@ =~= self.elements_text(cmd@, dir_view(data_directory), version));
        put_bytes(w, text.as_str());
        if data_directory.is_none() {
            self.write_out_data(w);
        }
        assert(w@ =~= start + self.elements_bytes(cmd@, dir_view(data_directory), version));
    }

    /// The commands that remove the free labels before the next axes are drawn.
    pub open spec fn reset_text(&self) -> Seq<char> {
        labels_reset_text(self.labels@)
    }

    /// Appends the commands that remove the free labels.
    pub fn reset_state(&self, w: &mut String)
        ensures
            final(w)@ == old(w)@ + self.reset_text(),
    {
        let ghost start = w@;
        let mut i: usize = 0;
        while i < self.labels.len()
            invariant
                i <= self.labels@.len(),
                w@ == start + labels_reset_text(self.labels@.take(i as int)),
            decreases self.labels@.len() - i,
        {
            self.labels[i].reset_state(w);
            assert(self.labels@.take(i + 1).drop_last() =~= self.labels@.take(i as int));
            assert(w@ =~= start + labels_reset_text(self.labels@.take(i + 1)));
            i = i + 1;
        }
        assert(self.labels@.take(self.labels@.len() as int) =~= self.labels@);
    }
}

/// The side a margin is on: 0 left, 1 right, 2 top, 3 bottom.
pub open spec fn margin_side(m: MarginSide) -> u8 {
    match m {
        MarginSide::MarginLeft(_) => 0,
        MarginSide::MarginRight(_) => 1,
        MarginSide::MarginTop(_) => 2,
        MarginSide::MarginBottom(_) => 3,
    }
}

/// The value of a margin.
pub open spec fn margin_value(m: MarginSide) -> Real {
    match m {
        MarginSide::MarginLeft(v) => v,
        MarginSide::MarginRight(v) => v,
        MarginSide::MarginTop(v) => v,
        MarginSide::MarginBottom(v) => v,
    }
}

/// The last value given for a side, if any.
pub open spec fn last_margin(s: Seq<MarginSide>, side: u8) -> Option<Real>
    decreases s.len(),
{
    if s.len() == 0 {
        None
    } else if margin_side(s.last()) == side {
        Some(margin_value(s.last()))
    } else {
        last_margin(s.drop_last(), side)
    }
}

/// The margins that a list of margin settings gives: for each side, the last value given.
pub open spec fn margins_from(s: Seq<MarginSide>) -> Margins {
    Margins {
        left: last_margin(s, 0),
        right: last_margin(s, 1),
        top: last_margin(s, 2),
        bottom: last_margin(s, 3),
    }
}

fn margins_of(margins: Vec<MarginSide>) -> (m: Margins)
    ensures
        m == margins_from(margins@),
{
    let mut m = Margins::new();
    let ghost s = margins@;
    let mut rest = margins;
    // Walk the settings from the first to the last; a later one overrides.
    let mut rev: Vec<MarginSide> = Vec::new();
    while rest.len() > 0
        invariant
            rev@.len() + rest@.len() == s.len(),
            forall|i: int| 0 <= i < rest@.len() ==> rest@[i] == s[i],
            forall|i: int| 0 <= i < rev@.len() ==> rev@[i] == s[s.len() - 1 - i],
        decreases rest@.len(),
    {
        let x = rest.pop().unwrap();
        rev.push(x);
    }
    while rev.len() > 0
        invariant
            rev@.len() <= s.len(),
            forall|i: int| 0 <= i < rev@.len() ==> rev@[i] == s[s.len() - 1 - i],
            m == margins_from(s.take(s.len() - rev@.len())),
        decreases rev@.len(),
    {
        let ghost done = s.take(s.len() - rev@.len());
        let x = rev.pop().unwrap();
        let ghost next = s.take(s.len() - rev@.len());
        assert(next.drop_last() =~= done);
        assert(next.last() == x);
        match x {
            MarginSide::MarginLeft(v) => m.left = Some(v),
            MarginSide::MarginRight(v) => m.right = Some(v),
            MarginSide::MarginTop(v) => m.top = Some(v),
            MarginSide::MarginBottom(v) => m.bottom = Some(v),
        }
    }
    assert(s.take(s.len() as int) =~= s);
    m
}

/// What all kinds of axes can be told: layout, labels, ticks, ranges, scales, grids,
/// margins and palette. Each setter changes the common part of the axes as its contract
/// says and nothing else.
pub trait AxesCommon: Sized {
    /// The common part of the axes.
    spec fn common(&self) -> AxesCommonData;

    /// `self` and `other` agree on everything but the common part.
    spec fn same_rest(&self, other: &Self) -> bool;

    /// The common part of the axes.
    fn get_common_data(&self) -> (r: &AxesCommonData)
        ensures
            *r == self.common();

    /// The common part of the axes, to change.
    fn get_common_data_mut(&mut self) -> (r: &mut AxesCommonData)
        ensures
            *r == old(self).common(),
            final(self).common() == *final(r),
            final(self).same_rest(&*old(self));

    /// Adds a free label at `(x, y)`, tagged with one more than the number of labels before it.
    fn label(&mut self, text: String, x: Coordinate, y: Coordinate, options: Vec<LabelOption>) -> (r: &mut Self)
        requires
            old(self).common().labels@.len() < 0x7fff_ffff,
        ensures
            r.common() == (AxesCommonData {
                labels: r.common().labels,
                ..old(self).common()
            }),
            r.common().labels@.len() == old(self).common().labels@.len() + 1,
            r.common().labels@.drop_last() == old(self).common().labels@,
            r.common().labels@.last() == (LabelData {
                label_type: LabelType::Label((old(self).common().labels@.len() + 1) as i32, x, y),
                text,
                options,
            }),
            labels_numbered(old(self).common().labels@) ==> labels_numbered(r.common().labels@),
            r.same_rest(&*old(self)),
            *final(self) == *final(r),
    {
        let c = self.get_common_data_mut();
        let tag = c.labels.len() as i32 + 1;
        let mut label = LabelData::new(LabelType::Label(tag, x, y));
        label.set(text, options);
        proof {
            if labels_numbered(c.labels@) {
                lemma_labels_numbered(c.labels@, label);
            }
        }
        c.labels.push(label);
        self
    }

    /// Sets the margins: for each side, the last value given; the others are left to gnuplot.
    fn set_margins(&mut self, margins: Vec<MarginSide>) -> (r: &mut Self)
        ensures
            r.common() == (AxesCommonData { margins: margins_from(margins@), ..old(self).common() }),
            r.same_rest(&*old(self)),
            *final(self) == *final(r),
    {
        let c = self.get_common_data_mut();
        c.margins = margins_of(margins);
        self
    }

    /// Places the axes with their bottom left corner at `(x, y)` on the screen (0 to 1).
    fn set_pos(&mut self, x: Real, y: Real) -> (r: &mut Self)
        ensures
            r.common() == (AxesCommonData { position: Some(Position { x, y }), ..old(self).common() }),
            r.same_rest(&*old(self)),
            *final(self) == *final(r),
    {
        let c = self.get_common_data_mut();
        c.position = Some(Position { x, y });
        self
    }

    /// Sets the width and height of the axes on the screen (0 to 1).
    fn set_size(&mut self, w: Real, h: Real) -> (r: &mut Self)
        ensures
            r.common() == (AxesCommonData { size: Some(Size { w, h }), ..old(self).common() }),
            r.same_rest(&*old(self)),
            *final(self) == *final(r),
    {
        let c = self.get_common_data_mut();
        c.size = Some(Size { w, h });
        self
    }

    /// Sets the aspect ratio; `Auto` returns it to the default.
    fn set_aspect_ratio(&mut self, ratio: AutoOption<Real>) -> (r: &mut Self)
        ensures
            r.common() == (AxesCommonData { aspect_ratio: ratio, ..old(self).common() }),
            r.same_rest(&*old(self)),
            *final(self) == *final(r),
    {
        let c = self.get_common_data_mut();
        c.aspect_ratio = ratio;
        self
    }

    /// Sets the label of the X axis; an empty text hides it.
    fn set_x_label(&mut self, text: String, options: Vec<LabelOption>) -> (r: &mut Self)
        ensures
            r.common() == (AxesCommonData { x_axis: AxisData { label: LabelData { text, options, ..old(self).common().x_axis.label }, ..old(self).common().x_axis }, ..old(self).common() }),
            r.same_rest(&*old(self)),
            *final(self) == *final(r),
    {
        let c = self.get_common_data_mut();
        c.x_axis.label.set(text, options);
        self
    }

    /// Sets the label of the Y axis; an empty text hides it.
    fn set_y_label(&mut self, text: String, options: Vec<LabelOption>) -> (r: &mut Self)
        ensures
            r.common() == (AxesCommonData { y_axis: AxisData { label: LabelData { text, options, ..old(self).common().y_axis.label }, ..old(self).common().y_axis }, ..old(self).common() }),
            r.same_rest(&*old(self)),
            *final(self) == *final(r),
    {
        let c = self.get_common_data_mut();
        c.y_axis.label.set(text, options);
        self
    }

    /// Sets the label of the secondary X axis; an empty text hides it.
    fn set_x2_label(&mut self, text: String, options: Vec<LabelOption>) -> (r: &mut Self)
        ensures
            r.common() == (AxesCommonData { x2_axis: AxisData { label: LabelData { text, options, ..old(self).common().x2_axis.label }, ..old(self).common().x2_axis }, ..old(self).common() }),
            r.same_rest(&*old(self)),
            *final(self) == *final(r),
    {
        let c = self.get_common_data_mut();
        c.x2_axis.label.set(text, options);
        self
    }

    /// Sets the label of the secondary Y axis; an empty text hides it.
    fn set_y2_label(&mut self, text: String, options: Vec<LabelOption>) -> (r: &mut Self)
        ensures
            r.common() == (AxesCommonData { y2_axis: AxisData { label: LabelData { text, options, ..old(self).common().y2_axis.label }, ..old(self).common().y2_axis }, ..old(self).common() }),
            r.same_rest(&*old(self)),
            *final(self) == *final(r),
    {
        let c = self.get_common_data_mut();
        c.y2_axis.label.set(text, options);
        self
    }

    /// Sets the label of the color bar; an empty text hides it.
    fn set_cb_label(&mut self, text: String, options: Vec<LabelOption>) -> (r: &mut Self)
        ensures
            r.common() == (AxesCommonData { cb_axis: AxisData { label: LabelData { text, options, ..old(self).common().cb_axis.label }, ..old(self).common().cb_axis }, ..old(self).common() }),
            r.same_rest(&*old(self)),
            *final(self) == *final(r),
    {
        let c = self.get_common_data_mut();
        c.cb_axis.label.set(text, options);
        self
    }

    /// Sets the title of the axes; an empty text hides it.
    fn set_title(&mut self, text: String, options: Vec<LabelOption>) -> (r: &mut Self)
        ensures
            r.common() == (AxesCommonData { title: LabelData { text, options, ..old(self).common().title }, ..old(self).common() }),
            r.same_rest(&*old(self)),
            *final(self) == *final(r),
    {
        let c = self.get_common_data_mut();
        c.title.set(text, options);
        self
    }

    /// Places the ticks of the X axis at an interval (`Auto` lets gnuplot choose) with a number of minor ticks, or hides them (`None`).
    fn set_x_ticks(&mut self, tick_placement: Option<(AutoOption<Real>, u32)>, tick_options: Vec<TickOption>, label_options: Vec<LabelOption>) -> (r: &mut Self)
        ensures
            r.common() == (AxesCommonData { x_axis: old(self).common().x_axis.with_ticks(tick_placement, tick_options, label_options), ..old(self).common() }),
            r.same_rest(&*old(self)),
            *final(self) == *final(r),
    {
        let c = self.get_common_data_mut();
        c.x_axis.set_ticks(tick_placement, tick_options, label_options);
        self
    }

    /// Places the ticks of the Y axis at an interval (`Auto` lets gnuplot choose) with a number of minor ticks, or hides them (`None`).
    fn set_y_ticks(&mut self, tick_placement: Option<(AutoOption<Real>, u32)>, tick_options: Vec<TickOption>, label_options: Vec<LabelOption>) -> (r: &mut Self)
        ensures
            r.common() == (AxesCommonData { y_axis: old(self).common().y_axis.with_ticks(tick_placement, tick_options, label_options), ..old(self).common() }),
            r.same_rest(&*old(self)),
            *final(self) == *final(r),
    {
        let c = self.get_common_data_mut();
        c.y_axis.set_ticks(tick_placement, tick_options, label_options);
        self
    }

    /// Places the ticks of the secondary X axis at an interval (`Auto` lets gnuplot choose) with a number of minor ticks, or hides them (`None`).
    fn set_x2_ticks(&mut self, tick_placement: Option<(AutoOption<Real>, u32)>, tick_options: Vec<TickOption>, label_options: Vec<LabelOption>) -> (r: &mut Self)
        ensures
            r.common() == (AxesCommonData { x2_axis: old(self).common().x2_axis.with_ticks(tick_placement, tick_options, label_options), ..old(self).common() }),
            r.same_rest(&*old(self)),
            *final(self) == *final(r),
    {
        let c = self.get_common_data_mut();
        c.x2_axis.set_ticks(tick_placement, tick_options, label_options);
        self
    }

    /// Places the ticks of the secondary Y axis at an interval (`Auto` lets gnuplot choose) with a number of minor ticks, or hides them (`None`).
    fn set_y2_ticks(&mut self, tick_placement: Option<(AutoOption<Real>, u32)>, tick_options: Vec<TickOption>, label_options: Vec<LabelOption>) -> (r: &mut Self)
        ensures
            r.common() == (AxesCommonData { y2_axis: old(self).common().y2_axis.with_ticks(tick_placement, tick_options, label_options), ..old(self).common() }),
            r.same_rest(&*old(self)),
            *final(self) == *final(r),
    {
        let c = self.get_common_data_mut();
        c.y2_axis.set_ticks(tick_placement, tick_options, label_options);
        self
    }

    /// Places the ticks of the color bar at an interval (`Auto` lets gnuplot choose) with a number of minor ticks, or hides them (`None`).
    fn set_cb_ticks(&mut self, tick_placement: Option<(AutoOption<Real>, u32)>, tick_options: Vec<TickOption>, label_options: Vec<LabelOption>) -> (r: &mut Self)
        ensures
            r.common() == (AxesCommonData { cb_axis: old(self).common().cb_axis.with_ticks(tick_placement, tick_options, label_options), ..old(self).common() }),
            r.same_rest(&*old(self)),
            *final(self) == *final(r),
    {
        let c = self.get_common_data_mut();
        c.cb_axis.set_ticks(tick_placement, tick_options, label_options);
        self
    }

    /// Places ticks of the X axis at given positions, with labels.
    fn set_x_ticks_custom(&mut self, ticks: Vec<Tick>, tick_options: Vec<TickOption>, label_options: Vec<LabelOption>) -> (r: &mut Self)
        ensures
            r.common() == (AxesCommonData { x_axis: AxisData { tick_type: TickType::Custom(ticks), tick_options, label_options, ..old(self).common().x_axis }, ..old(self).common() }),
            r.same_rest(&*old(self)),
            *final(self) == *final(r),
    {
        let c = self.get_common_data_mut();
        c.x_axis.set_ticks_custom(ticks, tick_options, label_options);
        self
    }

    /// Places ticks of the Y axis at given positions, with labels.
    fn set_y_ticks_custom(&mut self, ticks: Vec<Tick>, tick_options: Vec<TickOption>, label_options: Vec<LabelOption>) -> (r: &mut Self)
        ensures
            r.common() == (AxesCommonData { y_axis: AxisData { tick_type: TickType::Custom(ticks), tick_options, label_options, ..old(self).common().y_axis }, ..old(self).common() }),
            r.same_rest(&*old(self)),
            *final(self) == *final(r),
    {
        let c = self.get_common_data_mut();
        c.y_axis.set_ticks_custom(ticks, tick_options, label_options);
        self
    }

    /// Places ticks of the secondary X axis at given positions, with labels.
    fn set_x2_ticks_custom(&mut self, ticks: Vec<Tick>, tick_options: Vec<TickOption>, label_options: Vec<LabelOption>) -> (r: &mut Self)
        ensures
            r.common() == (AxesCommonData { x2_axis: AxisData { tick_type: TickType::Custom(ticks), tick_options, label_options, ..old(self).common().x2_axis }, ..old(self).common() }),
            r.same_rest(&*old(self)),
            *final(self) == *final(r),
    {
        let c = self.get_common_data_mut();
        c.x2_axis.set_ticks_custom(ticks, tick_options, label_options);
        self
    }

    /// Places ticks of the secondary Y axis at given positions, with labels.
    fn set_y2_ticks_custom(&mut self, ticks: Vec<Tick>, tick_options: Vec<TickOption>, label_options: Vec<LabelOption>) -> (r: &mut Self)
        ensures
            r.common() == (AxesCommonData { y2_axis: AxisData { tick_type: TickType::Custom(ticks), tick_options, label_options, ..old(self).common().y2_axis }, ..old(self).common() }),
            r.same_rest(&*old(self)),
            *final(self) == *final(r),
    {
        let c = self.get_common_data_mut();
        c.y2_axis.set_ticks_custom(ticks, tick_options, label_options);
        self
    }

    /// Places ticks of the color bar at given positions, with labels.
    fn set_cb_ticks_custom(&mut self, ticks: Vec<Tick>, tick_options: Vec<TickOption>, label_options: Vec<LabelOption>) -> (r: &mut Self)
        ensures
            r.common() == (AxesCommonData { cb_axis: AxisData { tick_type: TickType::Custom(ticks), tick_options, label_options, ..old(self).common().cb_axis }, ..old(self).common() }),
            r.same_rest(&*old(self)),
            *final(self) == *final(r),
    {
        let c = self.get_common_data_mut();
        c.cb_axis.set_ticks_custom(ticks, tick_options, label_options);
        self
    }

    /// Sets the range of the X axis.
    fn set_x_range(&mut self, min: AutoOption<Real>, max: AutoOption<Real>) -> (r: &mut Self)
        ensures
            r.common() == (AxesCommonData { x_axis: AxisData { min, max, ..old(self).common().x_axis }, ..old(self).common() }),
            r.same_rest(&*old(self)),
            *final(self) == *final(r),
    {
        let c = self.get_common_data_mut();
        c.x_axis.set_range(min, max);
        self
    }

    /// Sets the range of the Y axis.
    fn set_y_range(&mut self, min: AutoOption<Real>, max: AutoOption<Real>) -> (r: &mut Self)
        ensures
            r.common() == (AxesCommonData { y_axis: AxisData { min, max, ..old(self).common().y_axis }, ..old(self).common() }),
            r.same_rest(&*old(self)),
            *final(self) == *final(r),
    {
        let c = self.get_common_data_mut();
        c.y_axis.set_range(min, max);
        self
    }

    /// Sets the range of the secondary X axis.
    fn set_x2_range(&mut self, min: AutoOption<Real>, max: AutoOption<Real>) -> (r: &mut Self)
        ensures
            r.common() == (AxesCommonData { x2_axis: AxisData { min, max, ..old(self).common().x2_axis }, ..old(self).common() }),
            r.same_rest(&*old(self)),
            *final(self) == *final(r),
    {
        let c = self.get_common_data_mut();
        c.x2_axis.set_range(min, max);
        self
    }

    /// Sets the range of the secondary Y axis.
    fn set_y2_range(&mut self, min: AutoOption<Real>, max: AutoOption<Real>) -> (r: &mut Self)
        ensures
            r.common() == (AxesCommonData { y2_axis: AxisData { min, max, ..old(self).common().y2_axis }, ..old(self).common() }),
            r.same_rest(&*old(self)),
            *final(self) == *final(r),
    {
        let c = self.get_common_data_mut();
        c.y2_axis.set_range(min, max);
        self
    }

    /// Sets the range of the color bar.
    fn set_cb_range(&mut self, min: AutoOption<Real>, max: AutoOption<Real>) -> (r: &mut Self)
        ensures
            r.common() == (AxesCommonData { cb_axis: AxisData { min, max, ..old(self).common().cb_axis }, ..old(self).common() }),
            r.same_rest(&*old(self)),
            *final(self) == *final(r),
    {
        let c = self.get_common_data_mut();
        c.cb_axis.set_range(min, max);
        self
    }

    /// Sets whether the X axis runs backwards.
    fn set_x_reverse(&mut self, reverse: bool) -> (r: &mut Self)
        ensures
            r.common() == (AxesCommonData { x_axis: AxisData { reverse, ..old(self).common().x_axis }, ..old(self).common() }),
            r.same_rest(&*old(self)),
            *final(self) == *final(r),
    {
        let c = self.get_common_data_mut();
        c.x_axis.set_reverse(reverse);
        self
    }

    /// Sets whether the Y axis runs backwards.
    fn set_y_reverse(&mut self, reverse: bool) -> (r: &mut Self)
        ensures
            r.common() == (AxesCommonData { y_axis: AxisData { reverse, ..old(self).common().y_axis }, ..old(self).common() }),
            r.same_rest(&*old(self)),
            *final(self) == *final(r),
    {
        let c = self.get_common_data_mut();
        c.y_axis.set_reverse(reverse);
        self
    }

    /// Sets whether the secondary X axis runs backwards.
    fn set_x2_reverse(&mut self, reverse: bool) -> (r: &mut Self)
        ensures
            r.common() == (AxesCommonData { x2_axis: AxisData { reverse, ..old(self).common().x2_axis }, ..old(self).common() }),
            r.same_rest(&*old(self)),
            *final(self) == *final(r),
    {
        let c = self.get_common_data_mut();
        c.x2_axis.set_reverse(reverse);
        self
    }

    /// Sets whether the secondary Y axis runs backwards.
    fn set_y2_reverse(&mut self, reverse: bool) -> (r: &mut Self)
        ensures
            r.common() == (AxesCommonData { y2_axis: AxisData { reverse, ..old(self).common().y2_axis }, ..old(self).common() }),
            r.same_rest(&*old(self)),
            *final(self) == *final(r),
    {
        let c = self.get_common_data_mut();
        c.y2_axis.set_reverse(reverse);
        self
    }

    /// Makes the X axis logarithmic with the given base, or linear (`None`).
    fn set_x_log(&mut self, base: Option<Real>) -> (r: &mut Self)
        ensures
            r.common() == (AxesCommonData { x_axis: AxisData { log_base: base, ..old(self).common().x_axis }, ..old(self).common() }),
            r.same_rest(&*old(self)),
            *final(self) == *final(r),
    {
        let c = self.get_common_data_mut();
        c.x_axis.set_log(base);
        self
    }

    /// Makes the Y axis logarithmic with the given base, or linear (`None`).
    fn set_y_log(&mut self, base: Option<Real>) -> (r: &mut Self)
        ensures
            r.common() == (AxesCommonData { y_axis: AxisData { log_base: base, ..old(self).common().y_axis }, ..old(self).common() }),
            r.same_rest(&*old(self)),
            *final(self) == *final(r),
    {
        let c = self.get_common_data_mut();
        c.y_axis.set_log(base);
        self
    }

    /// Makes the secondary X axis logarithmic with the given base, or linear (`None`).
    fn set_x2_log(&mut self, base: Option<Real>) -> (r: &mut Self)
        ensures
            r.common() == (AxesCommonData { x2_axis: AxisData { log_base: base, ..old(self).common().x2_axis }, ..old(self).common() }),
            r.same_rest(&*old(self)),
            *final(self) == *final(r),
    {
        let c = self.get_common_data_mut();
        c.x2_axis.set_log(base);
        self
    }

    /// Makes the secondary Y axis logarithmic with the given base, or linear (`None`).
    fn set_y2_log(&mut self, base: Option<Real>) -> (r: &mut Self)
        ensures
            r.common() == (AxesCommonData { y2_axis: AxisData { log_base: base, ..old(self).common().y2_axis }, ..old(self).common() }),
            r.same_rest(&*old(self)),
            *final(self) == *final(r),
    {
        let c = self.get_common_data_mut();
        c.y2_axis.set_log(base);
        self
    }

    /// Makes the color bar logarithmic with the given base, or linear (`None`).
    fn set_cb_log(&mut self, base: Option<Real>) -> (r: &mut Self)
        ensures
            r.common() == (AxesCommonData { cb_axis: AxisData { log_base: base, ..old(self).common().cb_axis }, ..old(self).common() }),
            r.same_rest(&*old(self)),
            *final(self) == *final(r),
    {
        let c = self.get_common_data_mut();
        c.cb_axis.set_log(base);
        self
    }

    /// Shows or hides the grid of the X axis.
    fn set_x_grid(&mut self, show: bool) -> (r: &mut Self)
        ensures
            r.common() == (AxesCommonData { x_axis: AxisData { grid: show, ..old(self).common().x_axis }, ..old(self).common() }),
            r.same_rest(&*old(self)),
            *final(self) == *final(r),
    {
        let c = self.get_common_data_mut();
        c.x_axis.set_grid(show);
        self
    }

    /// Shows or hides the minor grid of the X axis.
    fn set_x_minor_grid(&mut self, show: bool) -> (r: &mut Self)
        ensures
            r.common() == (AxesCommonData { x_axis: AxisData { mgrid: show, ..old(self).common().x_axis }, ..old(self).common() }),
            r.same_rest(&*old(self)),
            *final(self) == *final(r),
    {
        let c = self.get_common_data_mut();
        c.x_axis.set_minor_grid(show);
        self
    }

    /// Shows or hides the grid of the Y axis.
    fn set_y_grid(&mut self, show: bool) -> (r: &mut Self)
        ensures
            r.common() == (AxesCommonData { y_axis: AxisData { grid: show, ..old(self).common().y_axis }, ..old(self).common() }),
            r.same_rest(&*old(self)),
            *final(self) == *final(r),
    {
        let c = self.get_common_data_mut();
        c.y_axis.set_grid(show);
        self
    }

    /// Shows or hides the minor grid of the Y axis.
    fn set_y_minor_grid(&mut self, show: bool) -> (r: &mut Self)
        ensures
            r.common() == (AxesCommonData { y_axis: AxisData { mgrid: show, ..old(self).common().y_axis }, ..old(self).common() }),
            r.same_rest(&*old(self)),
            *final(self) == *final(r),
    {
        let c = self.get_common_data_mut();
        c.y_axis.set_minor_grid(show);
        self
    }

    /// Shows or hides the grid of the secondary X axis.
    fn set_x2_grid(&mut self, show: bool) -> (r: &mut Self)
        ensures
            r.common() == (AxesCommonData { x2_axis: AxisData { grid: show, ..old(self).common().x2_axis }, ..old(self).common() }),
            r.same_rest(&*old(self)),
            *final(self) == *final(r),
    {
        let c = self.get_common_data_mut();
        c.x2_axis.set_grid(show);
        self
    }

    /// Shows or hides the minor grid of the secondary X axis.
    fn set_x2_minor_grid(&mut self, show: bool) -> (r: &mut Self)
        ensures
            r.common() == (AxesCommonData { x2_axis: AxisData { mgrid: show, ..old(self).common().x2_axis }, ..old(self).common() }),
            r.same_rest(&*old(self)),
            *final(self) == *final(r),
    {
        let c = self.get_common_data_mut();
        c.x2_axis.set_minor_grid(show);
        self
    }

    /// Shows or hides the grid of the secondary Y axis.
    fn set_y2_grid(&mut self, show: bool) -> (r: &mut Self)
        ensures
            r.common() == (AxesCommonData { y2_axis: AxisData { grid: show, ..old(self).common().y2_axis }, ..old(self).common() }),
            r.same_rest(&*old(self)),
            *final(self) == *final(r),
    {
        let c = self.get_common_data_mut();
        c.y2_axis.set_grid(show);
        self
    }

    /// Shows or hides the minor grid of the secondary Y axis.
    fn set_y2_minor_grid(&mut self, show: bool) -> (r: &mut Self)
        ensures
            r.common() == (AxesCommonData { y2_axis: AxisData { mgrid: show, ..old(self).common().y2_axis }, ..old(self).common() }),
            r.same_rest(&*old(self)),
            *final(self) == *final(r),
    {
        let c = self.get_common_data_mut();
        c.y2_axis.set_minor_grid(show);
        self
    }

    /// Shows or hides the grid of the color bar.
    fn set_cb_grid(&mut self, show: bool) -> (r: &mut Self)
        ensures
            r.common() == (AxesCommonData { cb_axis: AxisData { grid: show, ..old(self).common().cb_axis }, ..old(self).common() }),
            r.same_rest(&*old(self)),
            *final(self) == *final(r),
    {
        let c = self.get_common_data_mut();
        c.cb_axis.set_grid(show);
        self
    }

    /// Sets whether the grid is drawn in front of the plot elements, and its style.
    fn set_grid_options(&mut self, front: bool, options: Vec<PlotOption>) -> (r: &mut Self)
        ensures
            r.common() == (AxesCommonData { grid_front: front, grid_options: options, ..old(self).common() }),
            r.same_rest(&*old(self)),
            *final(self) == *final(r),
    {
        let c = self.get_common_data_mut();
        c.grid_front = front;
        c.grid_options = options;
        self
    }

    /// Sets the style of the minor grid.
    fn set_minor_grid_options(&mut self, options: Vec<PlotOption>) -> (r: &mut Self)
        ensures
            r.common() == (AxesCommonData { minor_grid_options: options, ..old(self).common() }),
            r.same_rest(&*old(self)),
            *final(self) == *final(r),
    {
        let c = self.get_common_data_mut();
        c.minor_grid_options = options;
        self
    }

    /// Sets whether the X axis holds times, in seconds since the Unix epoch.
    fn set_x_time(&mut self, is_time: bool) -> (r: &mut Self)
        ensures
            r.common() == (AxesCommonData { x_axis: AxisData { is_time, ..old(self).common().x_axis }, ..old(self).common() }),
            r.same_rest(&*old(self)),
            *final(self) == *final(r),
    {
        let c = self.get_common_data_mut();
        c.x_axis.set_time(is_time);
        self
    }

    /// Sets whether the Y axis holds times, in seconds since the Unix epoch.
    fn set_y_time(&mut self, is_time: bool) -> (r: &mut Self)
        ensures
            r.common() == (AxesCommonData { y_axis: AxisData { is_time, ..old(self).common().y_axis }, ..old(self).common() }),
            r.same_rest(&*old(self)),
            *final(self) == *final(r),
    {
        let c = self.get_common_data_mut();
        c.y_axis.set_time(is_time);
        self
    }

    /// Sets whether the secondary X axis holds times, in seconds since the Unix epoch.
    fn set_x2_time(&mut self, is_time: bool) -> (r: &mut Self)
        ensures
            r.common() == (AxesCommonData { x2_axis: AxisData { is_time, ..old(self).common().x2_axis }, ..old(self).common() }),
            r.same_rest(&*old(self)),
            *final(self) == *final(r),
    {
        let c = self.get_common_data_mut();
        c.x2_axis.set_time(is_time);
        self
    }

    /// Sets whether the secondary Y axis holds times, in seconds since the Unix epoch.
    fn set_y2_time(&mut self, is_time: bool) -> (r: &mut Self)
        ensures
            r.common() == (AxesCommonData { y2_axis: AxisData { is_time, ..old(self).common().y2_axis }, ..old(self).common() }),
            r.same_rest(&*old(self)),
            *final(self) == *final(r),
    {
        let c = self.get_common_data_mut();
        c.y2_axis.set_time(is_time);
        self
    }

    /// Sets whether the color bar holds times, in seconds since the Unix epoch.
    fn set_cb_time(&mut self, is_time: bool) -> (r: &mut Self)
        ensures
            r.common() == (AxesCommonData { cb_axis: AxisData { is_time, ..old(self).common().cb_axis }, ..old(self).common() }),
            r.same_rest(&*old(self)),
            *final(self) == *final(r),
    {
        let c = self.get_common_data_mut();
        c.cb_axis.set_time(is_time);
        self
    }

    /// Sets the palette of 3D surfaces and images.
    fn set_palette(&mut self, palette: PaletteType) -> (r: &mut Self)
        ensures
            r.common() == (AxesCommonData { palette, ..old(self).common() }),
            r.same_rest(&*old(self)),
            *final(self) == *final(r),
    {
        let c = self.get_common_data_mut();
        c.palette = palette;
        self
    }

}

} // verus!
