//! The options that plotting commands take, and the small enumerations they use.
use vstd::prelude::*;
use crate::color::ColorType;
use crate::first::{Tagged, find_first, first_with_tag};
use crate::number::Real;

verus! {

/// Which X axis a plot element uses.
#[derive(Copy, Clone, Debug, PartialEq, Eq, Structural)]
pub enum XAxis {
    X1,
    X2,
}

/// Which Y axis a plot element uses.
#[derive(Copy, Clone, Debug, PartialEq, Eq, Structural)]
pub enum YAxis {
    Y1,
    Y2,
}

/// Where a filled region is drawn.
#[derive(Copy, Clone, Debug, PartialEq, Eq, Structural)]
pub enum FillRegionType {
    Above,
    Below,
    Between,
}

/// Text and label alignments.
#[derive(Copy, Clone, Debug, PartialEq, Eq, Structural)]
pub enum AlignType {
    AlignLeft,
    AlignRight,
    AlignCenter,
    AlignTop,
    AlignBottom,
}

/// Dash styles of lines.
#[derive(Copy, Clone, Debug, PartialEq, Eq, Structural)]
pub enum DashType {
    Solid,
    SmallDot,
    Dot,
    Dash,
    DotDash,
    DotDotDash,
}

impl DashType {
    /// The gnuplot dash type number of this style.
    pub open spec fn spec_to_int(self) -> i32 {
        match self {
            DashType::Solid => 1,
            DashType::SmallDot => 0,
            DashType::Dash => 2,
            DashType::Dot => 3,
            DashType::DotDash => 4,
            DashType::DotDotDash => 5,
        }
    }

    /// The gnuplot dash type number of this style.
    pub fn to_int(&self) -> (r: i32)
        ensures
            r == self.spec_to_int(),
    {
        match *self {
            DashType::Solid => 1,
            DashType::SmallDot => 0,
            DashType::Dash => 2,
            DashType::Dot => 3,
            DashType::DotDash => 4,
            DashType::DotDotDash => 5,
        }
    }
}

/// Different dash styles get different gnuplot numbers.
pub proof fn lemma_dash_numbers_distinct(a: DashType, b: DashType)
    ensures
        a.spec_to_int() == b.spec_to_int() ==> a == b,
{
}

/// Arrow head styles.
#[derive(Copy, Clone, Debug, PartialEq, Eq, Structural)]
pub enum ArrowheadType {
    /// Shaped like a 'V'.
    Open,
    /// An outlined triangle.
    Closed,
    /// A filled triangle.
    Filled,
    /// No arrow head.
    NoArrow,
}

/// A value that is either fixed or left to gnuplot to choose.
#[derive(Copy, Clone, Debug)]
pub enum AutoOption<T> {
    /// Fixes the value.
    Fix(T),
    /// Lets the value scale automatically.
    Auto,
}

impl<T> AutoOption<T> {
    /// Applies `f` to a fixed value; `Auto` stays `Auto`. Same as `Option::map`.
    pub fn map<U, F: FnOnce(T) -> U>(self, f: F) -> (r: AutoOption<U>)
        requires
            self matches AutoOption::Fix(v) ==> f.requires((v,)),
        ensures
            mapped_by(self, f, r),
    {
        match self {
            AutoOption::Fix(v) => AutoOption::Fix(f(v)),
            AutoOption::Auto => AutoOption::Auto,
        }
    }
}

/// `r` is what `AutoOption::map` gives for `a` and `f`: `f`'s result on a fixed value, and
/// `Auto` for `Auto`.
pub open spec fn mapped_by<T, U, F: FnOnce(T) -> U>(a: AutoOption<T>, f: F, r: AutoOption<U>) -> bool {
    match a {
        AutoOption::Fix(v) => r matches AutoOption::Fix(u) && f.ensures((v,), u),
        AutoOption::Auto => r is Auto,
    }
}

/// Mapping with a function that returns its argument gives the value back.
pub proof fn lemma_map_identity<T, F: FnOnce(T) -> T>(a: AutoOption<T>, f: F, r: AutoOption<T>)
    requires
        forall|v: T, u: T| #[trigger] f.ensures((v,), u) ==> u == v,
        mapped_by(a, f, r),
    ensures
        r == a,
{
}

/// Mapping with `f` and then with `g` gives what one map with `g` after `f` gives, for
/// functions that compute `pf`, `pg` and `pg` after `pf`.
pub proof fn lemma_map_composes<T, U, V, F: FnOnce(T) -> U, G: FnOnce(U) -> V, H: FnOnce(T) -> V>(
    a: AutoOption<T>,
    f: F,
    g: G,
    h: H,
    pf: spec_fn(T) -> U,
    pg: spec_fn(U) -> V,
    r1: AutoOption<U>,
    r2: AutoOption<V>,
    r3: AutoOption<V>,
)
    requires
        forall|v: T, u: U| #[trigger] f.ensures((v,), u) ==> u == pf(v),
        forall|u: U, w: V| #[trigger] g.ensures((u,), w) ==> w == pg(u),
        forall|v: T, w: V| #[trigger] h.ensures((v,), w) ==> w == pg(pf(v)),
        mapped_by(a, f, r1),
        mapped_by(r1, g, r2),
        mapped_by(a, h, r3),
    ensures
        r2 == r3,
{
}

/// `a` with `f` applied to a fixed value; `Auto` stays `Auto`.
pub open spec fn auto_map<T, U>(a: AutoOption<T>, f: spec_fn(T) -> U) -> AutoOption<U> {
    match a {
        AutoOption::Fix(v) => AutoOption::Fix(f(v)),
        AutoOption::Auto => AutoOption::Auto,
    }
}

/// Mapping with the identity keeps the value, and mapping with `f` and then `g` is mapping
/// with `g` after `f`, as for `Option::map`.
pub proof fn lemma_auto_map_laws<T, U, V>(a: AutoOption<T>, f: spec_fn(T) -> U, g: spec_fn(U) -> V)
    ensures
        auto_map(a, |x: T| x) == a,
        auto_map(auto_map(a, f), g) == auto_map(a, |x: T| g(f(x))),
{
}

/// Where `f` computes `g`, `AutoOption::map` with `f` gives `auto_map` with `g`: a result
/// that meets `map`'s contract is that value.
pub proof fn lemma_map_computes<T, U, F: FnOnce(T) -> U>(a: AutoOption<T>, f: F, g: spec_fn(T) -> U, r: AutoOption<U>)
    requires
        forall|v: T, u: U| #[trigger] f.ensures((v,), u) ==> u == g(v),
        mapped_by(a, f, r),
    ensures
        r == auto_map(a, g),
{
}

/// A tick of an axis.
#[derive(Clone, Debug)]
pub enum Tick {
    /// A major tick at a position, with a label; the label may hold one C-style
    /// format specifier, replaced by the position.
    Major(Real, AutoOption<String>),
    /// A minor tick at a position.
    Minor(Real),
}

/// Sides of a 2D plot's border.
#[derive(Copy, Clone, Debug, PartialEq, Eq, Structural)]
pub enum BorderLocation2D {
    Bottom,
    Left,
    Top,
    Right,
}

impl BorderLocation2D {
    /// The bit that stands for this side in gnuplot's border mask.
    pub open spec fn spec_to_int(self) -> i32 {
        match self {
            BorderLocation2D::Bottom => 1,
            BorderLocation2D::Left => 2,
            BorderLocation2D::Top => 4,
            BorderLocation2D::Right => 8,
        }
    }

    /// The bit that stands for this side in gnuplot's border mask.
    pub fn to_int(&self) -> (r: i32)
        ensures
            r == self.spec_to_int(),
    {
        match *self {
            BorderLocation2D::Bottom => 1,
            BorderLocation2D::Left => 2,
            BorderLocation2D::Top => 4,
            BorderLocation2D::Right => 8,
        }
    }
}

/// Plot margins, as a fraction of the drawing area.
#[derive(Clone, Debug)]
pub enum MarginSide {
    MarginLeft(Real),
    MarginRight(Real),
    MarginTop(Real),
    MarginBottom(Real),
}

/// How contours are drawn.
#[derive(Copy, Clone, Debug, PartialEq, Eq, Structural)]
pub enum ContourStyle {
    /// Lines between points of equal value.
    Linear,
    /// Smoother curves; the number of points of the final drawing step, clamped to 2..=100.
    Cubic(u32),
    /// Even smoother curves; the number of points (clamped to 2..=100) and the
    /// order of the polynomial (clamped to 2..=10).
    Spline(u32, u32),
}

/// The palette of 3D surfaces and images.
#[derive(Clone, Debug)]
pub enum PaletteType {
    /// A gray palette with a gamma, which must be positive.
    Gray(Real),
    /// Predefined formulas for each color component, each between -36 and 36.
    Formula(i32, i32, i32),
    /// A cube helix palette: start, cycles, saturation (non-negative) and gamma (positive).
    CubeHelix(Real, Real, Real, Real),
    /// At least two entries of gray level, red, green and blue, with non-decreasing
    /// gray levels.
    Custom(Vec<(Real, Real, Real, Real)>),
}

/// gnuplot's default palette: the color formulas 7, 5 and 15.
pub fn color_palette() -> (r: PaletteType)
    ensures
        r == PaletteType::Formula(7, 5, 15),
{
    PaletteType::Formula(7, 5, 15)
}

/// The classic rainbow palette: the color formulas 33, 13 and 10.
pub fn rainbow_palette() -> (r: PaletteType)
    ensures
        r == PaletteType::Formula(33, 13, 10),
{
    PaletteType::Formula(33, 13, 10)
}

/// A black body palette: the color formulas 34, 35 and 36.
pub fn hot_palette() -> (r: PaletteType)
    ensures
        r == PaletteType::Formula(34, 35, 36),
{
    PaletteType::Formula(34, 35, 36)
}

/// A gnuplot version, used for version-specific features.
#[derive(Copy, Clone, Debug, PartialEq, Eq, Structural)]
pub struct GnuplotVersion {
    pub major: i32,
    pub minor: i32,
}

impl Default for GnuplotVersion {
    /// Version 5.0.
    fn default() -> (v: GnuplotVersion)
        ensures
            v == (GnuplotVersion { major: 5, minor: 0 }),
    {
        GnuplotVersion { major: 5, minor: 0 }
    }
}

/// Fill patterns; terminals may differ in how they draw them.
#[derive(Copy, Clone, Debug, PartialEq, Eq, Structural)]
pub enum FillPatternType {
    Pattern0,
    BigCrosses,
    SmallCrosses,
    Pattern3,
    BigBackSlashes,
    BigForwardSlashes,
    SmallBackSlashes,
    SmallForwardSlashes,
    Pattern8,
}

impl FillPatternType {
    /// gnuplot's number of the pattern.
    pub open spec fn spec_to_int(self) -> i32 {
        match self {
            FillPatternType::Pattern0 => 0,
            FillPatternType::BigCrosses => 1,
            FillPatternType::SmallCrosses => 2,
            FillPatternType::Pattern3 => 3,
            FillPatternType::BigBackSlashes => 4,
            FillPatternType::BigForwardSlashes => 5,
            FillPatternType::SmallBackSlashes => 6,
            FillPatternType::SmallForwardSlashes => 7,
            FillPatternType::Pattern8 => 8,
        }
    }

    /// gnuplot's number of the pattern.
    pub fn to_int(&self) -> (r: i32)
        ensures
            r == self.spec_to_int(),
    {
        match *self {
            FillPatternType::Pattern0 => 0,
            FillPatternType::BigCrosses => 1,
            FillPatternType::SmallCrosses => 2,
            FillPatternType::Pattern3 => 3,
            FillPatternType::BigBackSlashes => 4,
            FillPatternType::BigForwardSlashes => 5,
            FillPatternType::SmallBackSlashes => 6,
            FillPatternType::SmallForwardSlashes => 7,
            FillPatternType::Pattern8 => 8,
        }
    }
}

/// Multiplot fill order.
#[derive(Copy, Clone, Debug, PartialEq, Eq, Structural)]
pub enum MultiplotFillOrder {
    /// gnuplot's `rowsfirst`.
    RowsFirst,
    /// gnuplot's `columnsfirst`.
    ColumnsFirst,
}

/// Multiplot fill direction.
#[derive(Copy, Clone, Debug, PartialEq, Eq, Structural)]
pub enum MultiplotFillDirection {
    /// gnuplot's `downwards`.
    Downwards,
    /// gnuplot's `upwards`.
    Upwards,
}

/// Options of plot elements: line width, color and the like.
#[derive(Clone, Debug)]
pub enum PlotOption {
    /// The symbol of points; see `char_to_symbol` for the valid characters.
    PointSymbol(char),
    /// The size of points, a multiplier of the default.
    PointSize(Real),
    /// The caption in the legend; empty hides it.
    Caption(String),
    /// The width of lines.
    LineWidth(Real),
    /// The color; for filled plots, the fill color.
    ColorOpt(ColorType),
    /// The color of the border of a filled plot.
    BorderColorOpt(ColorType),
    /// The dash style of lines.
    LineStyle(DashType),
    /// The opacity of a filled plot, 0 to 1.
    FillAlpha(Real),
    /// The fill region.
    FillRegion(FillRegionType),
    /// The fill pattern; `Auto` lets it alternate.
    FillPattern(AutoOption<FillPatternType>),
    /// The arrow head.
    ArrowType(ArrowheadType),
    /// The size of the arrow head, in graph units.
    ArrowSize(Real),
    /// The width of whisker bars, as a fraction of the box width.
    WhiskerBars(Real),
    /// The pair of axes to use.
    Axes(XAxis, YAxis),
}

/// Options of labels.
#[derive(Clone, Debug)]
pub enum LabelOption {
    /// The offset of the label, in characters.
    TextOffset(Real, Real),
    /// The font name and size.
    Font(String, Real),
    /// The text color.
    TextColorOpt(ColorType),
    /// A rotation, in degrees.
    Rotate(Real),
    /// The horizontal alignment.
    TextAlign(AlignType),
    /// A marker drawn at the label; see `char_to_symbol` for the valid characters.
    MarkerSymbol(char),
    /// The marker's color.
    MarkerColor(ColorType),
    /// The marker's size.
    MarkerSize(Real),
}

/// Options of axis ticks.
#[derive(Clone, Debug)]
pub enum TickOption {
    /// Ticks on the axis (true) or on the border (false).
    OnAxis(bool),
    /// Ticks on the opposite border too.
    Mirror(bool),
    /// Ticks pointing inward (true) or outward (false).
    Inward(bool),
    /// The scale of minor ticks.
    MinorScale(Real),
    /// The scale of major ticks.
    MajorScale(Real),
    /// The format of tick labels, such as `"%.1f ms"`.
    Format(String),
}

/// Options of the legend.
#[derive(Clone, Debug)]
pub enum LegendOption {
    /// Puts curve samples to the left of the label.
    Reverse,
    /// Lists entries in opposite order.
    Invert,
    /// Lays the legend out horizontally.
    Horizontal,
    /// Horizontal and vertical placement relative to the legend's position.
    Placement(AlignType, AlignType),
    /// The legend's title.
    Title(String),
    /// The maximum number of rows of a vertical legend.
    MaxRows(u32),
    /// The maximum number of columns of a horizontal legend.
    MaxCols(u32),
}

impl Tagged for PlotOption {
    open spec fn tag(&self) -> u8 {
        match self {
            PlotOption::PointSymbol(..) => 0,
            PlotOption::PointSize(..) => 1,
            PlotOption::Caption(..) => 2,
            PlotOption::LineWidth(..) => 3,
            PlotOption::ColorOpt(..) => 4,
            PlotOption::BorderColorOpt(..) => 5,
            PlotOption::LineStyle(..) => 6,
            PlotOption::FillAlpha(..) => 7,
            PlotOption::FillRegion(..) => 8,
            PlotOption::FillPattern(..) => 9,
            PlotOption::ArrowType(..) => 10,
            PlotOption::ArrowSize(..) => 11,
            PlotOption::WhiskerBars(..) => 12,
            PlotOption::Axes(..) => 13,
        }
    }

    fn tag_of(&self) -> (t: u8) {
        match self {
            PlotOption::PointSymbol(..) => 0,
            PlotOption::PointSize(..) => 1,
            PlotOption::Caption(..) => 2,
            PlotOption::LineWidth(..) => 3,
            PlotOption::ColorOpt(..) => 4,
            PlotOption::BorderColorOpt(..) => 5,
            PlotOption::LineStyle(..) => 6,
            PlotOption::FillAlpha(..) => 7,
            PlotOption::FillRegion(..) => 8,
            PlotOption::FillPattern(..) => 9,
            PlotOption::ArrowType(..) => 10,
            PlotOption::ArrowSize(..) => 11,
            PlotOption::WhiskerBars(..) => 12,
            PlotOption::Axes(..) => 13,
        }
    }
}

/// The value of the first `PointSymbol` option of `s`, if any.
pub open spec fn first_point_symbol(s: Seq<PlotOption>) -> Option<char> {
    match first_with_tag(s, 0) {
        Some(i) => match s[i] {
            PlotOption::PointSymbol(x) => Some(x),
            _ => None,
        },
        None => None,
    }
}

/// The value of the first `PointSymbol` option of `v`, if any.
pub fn plot_point_symbol(v: &Vec<PlotOption>) -> (r: Option<char>)
    ensures
        r == first_point_symbol(v@),
{
    match find_first(v, 0) {
        Some(i) => match &v[i] {
            PlotOption::PointSymbol(x) => Some(*x),
            _ => None,
        },
        None => None,
    }
}

/// The value of the first `PointSize` option of `s`, if any.
pub open spec fn first_point_size(s: Seq<PlotOption>) -> Option<Real> {
    match first_with_tag(s, 1) {
        Some(i) => match s[i] {
            PlotOption::PointSize(x) => Some(x),
            _ => None,
        },
        None => None,
    }
}

/// The value of the first `PointSize` option of `v`, if any.
pub fn plot_point_size(v: &Vec<PlotOption>) -> (r: Option<&Real>)
    ensures
        match r {
            Some(x) => first_point_size(v@) == Some(*x),
            None => first_point_size(v@) is None,
        },
{
    match find_first(v, 1) {
        Some(i) => match &v[i] {
            PlotOption::PointSize(x) => Some(x),
            _ => None,
        },
        None => None,
    }
}

/// The value of the first `Caption` option of `s`, if any.
pub open spec fn first_caption(s: Seq<PlotOption>) -> Option<String> {
    match first_with_tag(s, 2) {
        Some(i) => match s[i] {
            PlotOption::Caption(x) => Some(x),
            _ => None,
        },
        None => None,
    }
}

/// The value of the first `Caption` option of `v`, if any.
pub fn plot_caption(v: &Vec<PlotOption>) -> (r: Option<&String>)
    ensures
        match r {
            Some(x) => first_caption(v@) == Some(*x),
            None => first_caption(v@) is None,
        },
{
    match find_first(v, 2) {
        Some(i) => match &v[i] {
            PlotOption::Caption(x) => Some(x),
            _ => None,
        },
        None => None,
    }
}

/// The value of the first `LineWidth` option of `s`, if any.
pub open spec fn first_line_width(s: Seq<PlotOption>) -> Option<Real> {
    match first_with_tag(s, 3) {
        Some(i) => match s[i] {
            PlotOption::LineWidth(x) => Some(x),
            _ => None,
        },
        None => None,
    }
}

/// The value of the first `LineWidth` option of `v`, if any.
pub fn plot_line_width(v: &Vec<PlotOption>) -> (r: Option<&Real>)
    ensures
        match r {
            Some(x) => first_line_width(v@) == Some(*x),
            None => first_line_width(v@) is None,
        },
{
    match find_first(v, 3) {
        Some(i) => match &v[i] {
            PlotOption::LineWidth(x) => Some(x),
            _ => None,
        },
        None => None,
    }
}

/// The value of the first `ColorOpt` option of `s`, if any.
pub open spec fn first_color_opt(s: Seq<PlotOption>) -> Option<ColorType> {
    match first_with_tag(s, 4) {
        Some(i) => match s[i] {
            PlotOption::ColorOpt(x) => Some(x),
            _ => None,
        },
        None => None,
    }
}

/// The value of the first `ColorOpt` option of `v`, if any.
pub fn plot_color_opt(v: &Vec<PlotOption>) -> (r: Option<&ColorType>)
    ensures
        match r {
            Some(x) => first_color_opt(v@) == Some(*x),
            None => first_color_opt(v@) is None,
        },
{
    match find_first(v, 4) {
        Some(i) => match &v[i] {
            PlotOption::ColorOpt(x) => Some(x),
            _ => None,
        },
        None => None,
    }
}

/// The value of the first `BorderColorOpt` option of `s`, if any.
pub open spec fn first_border_color_opt(s: Seq<PlotOption>) -> Option<ColorType> {
    match first_with_tag(s, 5) {
        Some(i) => match s[i] {
            PlotOption::BorderColorOpt(x) => Some(x),
            _ => None,
        },
        None => None,
    }
}

/// The value of the first `BorderColorOpt` option of `v`, if any.
pub fn plot_border_color_opt(v: &Vec<PlotOption>) -> (r: Option<&ColorType>)
    ensures
        match r {
            Some(x) => first_border_color_opt(v@) == Some(*x),
            None => first_border_color_opt(v@) is None,
        },
{
    match find_first(v, 5) {
        Some(i) => match &v[i] {
            PlotOption::BorderColorOpt(x) => Some(x),
            _ => None,
        },
        None => None,
    }
}

/// The value of the first `LineStyle` option of `s`, if any.
pub open spec fn first_line_style(s: Seq<PlotOption>) -> Option<DashType> {
    match first_with_tag(s, 6) {
        Some(i) => match s[i] {
            PlotOption::LineStyle(x) => Some(x),
            _ => None,
        },
        None => None,
    }
}

/// The value of the first `LineStyle` option of `v`, if any.
pub fn plot_line_style(v: &Vec<PlotOption>) -> (r: Option<DashType>)
    ensures
        r == first_line_style(v@),
{
    match find_first(v, 6) {
        Some(i) => match &v[i] {
            PlotOption::LineStyle(x) => Some(*x),
            _ => None,
        },
        None => None,
    }
}

/// The value of the first `FillAlpha` option of `s`, if any.
pub open spec fn first_fill_alpha(s: Seq<PlotOption>) -> Option<Real> {
    match first_with_tag(s, 7) {
        Some(i) => match s[i] {
            PlotOption::FillAlpha(x) => Some(x),
            _ => None,
        },
        None => None,
    }
}

/// The value of the first `FillAlpha` option of `v`, if any.
pub fn plot_fill_alpha(v: &Vec<PlotOption>) -> (r: Option<&Real>)
    ensures
        match r {
            Some(x) => first_fill_alpha(v@) == Some(*x),
            None => first_fill_alpha(v@) is None,
        },
{
    match find_first(v, 7) {
        Some(i) => match &v[i] {
            PlotOption::FillAlpha(x) => Some(x),
            _ => None,
        },
        None => None,
    }
}

/// The value of the first `FillRegion` option of `s`, if any.
pub open spec fn first_fill_region(s: Seq<PlotOption>) -> Option<FillRegionType> {
    match first_with_tag(s, 8) {
        Some(i) => match s[i] {
            PlotOption::FillRegion(x) => Some(x),
            _ => None,
        },
        None => None,
    }
}

/// The value of the first `FillRegion` option of `v`, if any.
pub fn plot_fill_region(v: &Vec<PlotOption>) -> (r: Option<FillRegionType>)
    ensures
        r == first_fill_region(v@),
{
    match find_first(v, 8) {
        Some(i) => match &v[i] {
            PlotOption::FillRegion(x) => Some(*x),
            _ => None,
        },
        None => None,
    }
}

/// The value of the first `FillPattern` option of `s`, if any.
pub open spec fn first_fill_pattern(s: Seq<PlotOption>) -> Option<AutoOption<FillPatternType>> {
    match first_with_tag(s, 9) {
        Some(i) => match s[i] {
            PlotOption::FillPattern(x) => Some(x),
            _ => None,
        },
        None => None,
    }
}

/// The value of the first `FillPattern` option of `v`, if any.
pub fn plot_fill_pattern(v: &Vec<PlotOption>) -> (r: Option<AutoOption<FillPatternType>>)
    ensures
        r == first_fill_pattern(v@),
{
    match find_first(v, 9) {
        Some(i) => match &v[i] {
            PlotOption::FillPattern(x) => Some(*x),
            _ => None,
        },
        None => None,
    }
}

/// The value of the first `ArrowType` option of `s`, if any.
pub open spec fn first_arrow_type(s: Seq<PlotOption>) -> Option<ArrowheadType> {
    match first_with_tag(s, 10) {
        Some(i) => match s[i] {
            PlotOption::ArrowType(x) => Some(x),
            _ => None,
        },
        None => None,
    }
}

/// The value of the first `ArrowType` option of `v`, if any.
pub fn plot_arrow_type(v: &Vec<PlotOption>) -> (r: Option<ArrowheadType>)
    ensures
        r == first_arrow_type(v@),
{
    match find_first(v, 10) {
        Some(i) => match &v[i] {
            PlotOption::ArrowType(x) => Some(*x),
            _ => None,
        },
        None => None,
    }
}

/// The value of the first `ArrowSize` option of `s`, if any.
pub open spec fn first_arrow_size(s: Seq<PlotOption>) -> Option<Real> {
    match first_with_tag(s, 11) {
        Some(i) => match s[i] {
            PlotOption::ArrowSize(x) => Some(x),
            _ => None,
        },
        None => None,
    }
}

/// The value of the first `ArrowSize` option of `v`, if any.
pub fn plot_arrow_size(v: &Vec<PlotOption>) -> (r: Option<&Real>)
    ensures
        match r {
            Some(x) => first_arrow_size(v@) == Some(*x),
            None => first_arrow_size(v@) is None,
        },
{
    match find_first(v, 11) {
        Some(i) => match &v[i] {
            PlotOption::ArrowSize(x) => Some(x),
            _ => None,
        },
        None => None,
    }
}

/// The value of the first `WhiskerBars` option of `s`, if any.
pub open spec fn first_whisker_bars(s: Seq<PlotOption>) -> Option<Real> {
    match first_with_tag(s, 12) {
        Some(i) => match s[i] {
            PlotOption::WhiskerBars(x) => Some(x),
            _ => None,
        },
        None => None,
    }
}

/// The value of the first `WhiskerBars` option of `v`, if any.
pub fn plot_whisker_bars(v: &Vec<PlotOption>) -> (r: Option<&Real>)
    ensures
        match r {
            Some(x) => first_whisker_bars(v@) == Some(*x),
            None => first_whisker_bars(v@) is None,
        },
{
    match find_first(v, 12) {
        Some(i) => match &v[i] {
            PlotOption::WhiskerBars(x) => Some(x),
            _ => None,
        },
        None => None,
    }
}

/// The value of the first `Axes` option of `s`, if any.
pub open spec fn first_axes(s: Seq<PlotOption>) -> Option<(XAxis, YAxis)> {
    match first_with_tag(s, 13) {
        Some(i) => match s[i] {
            PlotOption::Axes(a, b) => Some((a, b)),
            _ => None,
        },
        None => None,
    }
}

/// The value of the first `Axes` option of `v`, if any.
pub fn plot_axes(v: &Vec<PlotOption>) -> (r: Option<(XAxis, YAxis)>)
    ensures
        r == first_axes(v@),
{
    match find_first(v, 13) {
        Some(i) => match &v[i] {
            PlotOption::Axes(a, b) => Some((*a, *b)),
            _ => None,
        },
        None => None,
    }
}

impl Tagged for LabelOption {
    open spec fn tag(&self) -> u8 {
        match self {
            LabelOption::TextOffset(..) => 0,
            LabelOption::Font(..) => 1,
            LabelOption::TextColorOpt(..) => 2,
            LabelOption::Rotate(..) => 3,
            LabelOption::TextAlign(..) => 4,
            LabelOption::MarkerSymbol(..) => 5,
            LabelOption::MarkerColor(..) => 6,
            LabelOption::MarkerSize(..) => 7,
        }
    }

    fn tag_of(&self) -> (t: u8) {
        match self {
            LabelOption::TextOffset(..) => 0,
            LabelOption::Font(..) => 1,
            LabelOption::TextColorOpt(..) => 2,
            LabelOption::Rotate(..) => 3,
            LabelOption::TextAlign(..) => 4,
            LabelOption::MarkerSymbol(..) => 5,
            LabelOption::MarkerColor(..) => 6,
            LabelOption::MarkerSize(..) => 7,
        }
    }
}

/// The value of the first `TextOffset` option of `s`, if any.
pub open spec fn first_text_offset(s: Seq<LabelOption>) -> Option<(Real, Real)> {
    match first_with_tag(s, 0) {
        Some(i) => match s[i] {
            LabelOption::TextOffset(a, b) => Some((a, b)),
            _ => None,
        },
        None => None,
    }
}

/// The value of the first `TextOffset` option of `v`, if any.
pub fn label_text_offset(v: &Vec<LabelOption>) -> (r: Option<(&Real, &Real)>)
    ensures
        match r {
            Some((a, b)) => first_text_offset(v@) == Some((*a, *b)),
            None => first_text_offset(v@) is None,
        },
{
    match find_first(v, 0) {
        Some(i) => match &v[i] {
            LabelOption::TextOffset(a, b) => Some((a, b)),
            _ => None,
        },
        None => None,
    }
}

/// The value of the first `Font` option of `s`, if any.
pub open spec fn first_font(s: Seq<LabelOption>) -> Option<(String, Real)> {
    match first_with_tag(s, 1) {
        Some(i) => match s[i] {
            LabelOption::Font(a, b) => Some((a, b)),
            _ => None,
        },
        None => None,
    }
}

/// The value of the first `Font` option of `v`, if any.
pub fn label_font(v: &Vec<LabelOption>) -> (r: Option<(&String, &Real)>)
    ensures
        match r {
            Some((a, b)) => first_font(v@) == Some((*a, *b)),
            None => first_font(v@) is None,
        },
{
    match find_first(v, 1) {
        Some(i) => match &v[i] {
            LabelOption::Font(a, b) => Some((a, b)),
            _ => None,
        },
        None => None,
    }
}

/// The value of the first `TextColorOpt` option of `s`, if any.
pub open spec fn first_text_color_opt(s: Seq<LabelOption>) -> Option<ColorType> {
    match first_with_tag(s, 2) {
        Some(i) => match s[i] {
            LabelOption::TextColorOpt(x) => Some(x),
            _ => None,
        },
        None => None,
    }
}

/// The value of the first `TextColorOpt` option of `v`, if any.
pub fn label_text_color_opt(v: &Vec<LabelOption>) -> (r: Option<&ColorType>)
    ensures
        match r {
            Some(x) => first_text_color_opt(v@) == Some(*x),
            None => first_text_color_opt(v@) is None,
        },
{
    match find_first(v, 2) {
        Some(i) => match &v[i] {
            LabelOption::TextColorOpt(x) => Some(x),
            _ => None,
        },
        None => None,
    }
}

/// The value of the first `Rotate` option of `s`, if any.
pub open spec fn first_rotate(s: Seq<LabelOption>) -> Option<Real> {
    match first_with_tag(s, 3) {
        Some(i) => match s[i] {
            LabelOption::Rotate(x) => Some(x),
            _ => None,
        },
        None => None,
    }
}

/// The value of the first `Rotate` option of `v`, if any.
pub fn label_rotate(v: &Vec<LabelOption>) -> (r: Option<&Real>)
    ensures
        match r {
            Some(x) => first_rotate(v@) == Some(*x),
            None => first_rotate(v@) is None,
        },
{
    match find_first(v, 3) {
        Some(i) => match &v[i] {
            LabelOption::Rotate(x) => Some(x),
            _ => None,
        },
        None => None,
    }
}

/// The value of the first `TextAlign` option of `s`, if any.
pub open spec fn first_text_align(s: Seq<LabelOption>) -> Option<AlignType> {
    match first_with_tag(s, 4) {
        Some(i) => match s[i] {
            LabelOption::TextAlign(x) => Some(x),
            _ => None,
        },
        None => None,
    }
}

/// The value of the first `TextAlign` option of `v`, if any.
pub fn label_text_align(v: &Vec<LabelOption>) -> (r: Option<AlignType>)
    ensures
        r == first_text_align(v@),
{
    match find_first(v, 4) {
        Some(i) => match &v[i] {
            LabelOption::TextAlign(x) => Some(*x),
            _ => None,
        },
        None => None,
    }
}

/// The value of the first `MarkerSymbol` option of `s`, if any.
pub open spec fn first_marker_symbol(s: Seq<LabelOption>) -> Option<char> {
    match first_with_tag(s, 5) {
        Some(i) => match s[i] {
            LabelOption::MarkerSymbol(x) => Some(x),
            _ => None,
        },
        None => None,
    }
}

/// The value of the first `MarkerSymbol` option of `v`, if any.
pub fn label_marker_symbol(v: &Vec<LabelOption>) -> (r: Option<char>)
    ensures
        r == first_marker_symbol(v@),
{
    match find_first(v, 5) {
        Some(i) => match &v[i] {
            LabelOption::MarkerSymbol(x) => Some(*x),
            _ => None,
        },
        None => None,
    }
}

/// The value of the first `MarkerColor` option of `s`, if any.
pub open spec fn first_marker_color(s: Seq<LabelOption>) -> Option<ColorType> {
    match first_with_tag(s, 6) {
        Some(i) => match s[i] {
            LabelOption::MarkerColor(x) => Some(x),
            _ => None,
        },
        None => None,
    }
}

/// The value of the first `MarkerColor` option of `v`, if any.
pub fn label_marker_color(v: &Vec<LabelOption>) -> (r: Option<&ColorType>)
    ensures
        match r {
            Some(x) => first_marker_color(v@) == Some(*x),
            None => first_marker_color(v@) is None,
        },
{
    match find_first(v, 6) {
        Some(i) => match &v[i] {
            LabelOption::MarkerColor(x) => Some(x),
            _ => None,
        },
        None => None,
    }
}

/// The value of the first `MarkerSize` option of `s`, if any.
pub open spec fn first_marker_size(s: Seq<LabelOption>) -> Option<Real> {
    match first_with_tag(s, 7) {
        Some(i) => match s[i] {
            LabelOption::MarkerSize(x) => Some(x),
            _ => None,
        },
        None => None,
    }
}

/// The value of the first `MarkerSize` option of `v`, if any.
pub fn label_marker_size(v: &Vec<LabelOption>) -> (r: Option<&Real>)
    ensures
        match r {
            Some(x) => first_marker_size(v@) == Some(*x),
            None => first_marker_size(v@) is None,
        },
{
    match find_first(v, 7) {
        Some(i) => match &v[i] {
            LabelOption::MarkerSize(x) => Some(x),
            _ => None,
        },
        None => None,
    }
}

impl Tagged for TickOption {
    open spec fn tag(&self) -> u8 {
        match self {
            TickOption::OnAxis(..) => 0,
            TickOption::Mirror(..) => 1,
            TickOption::Inward(..) => 2,
            TickOption::MinorScale(..) => 3,
            TickOption::MajorScale(..) => 4,
            TickOption::Format(..) => 5,
        }
    }

    fn tag_of(&self) -> (t: u8) {
        match self {
            TickOption::OnAxis(..) => 0,
            TickOption::Mirror(..) => 1,
            TickOption::Inward(..) => 2,
            TickOption::MinorScale(..) => 3,
            TickOption::MajorScale(..) => 4,
            TickOption::Format(..) => 5,
        }
    }
}

/// The value of the first `OnAxis` option of `s`, if any.
pub open spec fn first_on_axis(s: Seq<TickOption>) -> Option<bool> {
    match first_with_tag(s, 0) {
        Some(i) => match s[i] {
            TickOption::OnAxis(x) => Some(x),
            _ => None,
        },
        None => None,
    }
}

/// The value of the first `OnAxis` option of `v`, if any.
pub fn tick_on_axis(v: &Vec<TickOption>) -> (r: Option<bool>)
    ensures
        r == first_on_axis(v@),
{
    match find_first(v, 0) {
        Some(i) => match &v[i] {
            TickOption::OnAxis(x) => Some(*x),
            _ => None,
        },
        None => None,
    }
}

/// The value of the first `Mirror` option of `s`, if any.
pub open spec fn first_mirror(s: Seq<TickOption>) -> Option<bool> {
    match first_with_tag(s, 1) {
        Some(i) => match s[i] {
            TickOption::Mirror(x) => Some(x),
            _ => None,
        },
        None => None,
    }
}

/// The value of the first `Mirror` option of `v`, if any.
pub fn tick_mirror(v: &Vec<TickOption>) -> (r: Option<bool>)
    ensures
        r == first_mirror(v@),
{
    match find_first(v, 1) {
        Some(i) => match &v[i] {
            TickOption::Mirror(x) => Some(*x),
            _ => None,
        },
        None => None,
    }
}

/// The value of the first `Inward` option of `s`, if any.
pub open spec fn first_inward(s: Seq<TickOption>) -> Option<bool> {
    match first_with_tag(s, 2) {
        Some(i) => match s[i] {
            TickOption::Inward(x) => Some(x),
            _ => None,
        },
        None => None,
    }
}

/// The value of the first `Inward` option of `v`, if any.
pub fn tick_inward(v: &Vec<TickOption>) -> (r: Option<bool>)
    ensures
        r == first_inward(v@),
{
    match find_first(v, 2) {
        Some(i) => match &v[i] {
            TickOption::Inward(x) => Some(*x),
            _ => None,
        },
        None => None,
    }
}

/// The value of the first `MinorScale` option of `s`, if any.
pub open spec fn first_minor_scale(s: Seq<TickOption>) -> Option<Real> {
    match first_with_tag(s, 3) {
        Some(i) => match s[i] {
            TickOption::MinorScale(x) => Some(x),
            _ => None,
        },
        None => None,
    }
}

/// The value of the first `MinorScale` option of `v`, if any.
pub fn tick_minor_scale(v: &Vec<TickOption>) -> (r: Option<&Real>)
    ensures
        match r {
            Some(x) => first_minor_scale(v@) == Some(*x),
            None => first_minor_scale(v@) is None,
        },
{
    match find_first(v, 3) {
        Some(i) => match &v[i] {
            TickOption::MinorScale(x) => Some(x),
            _ => None,
        },
        None => None,
    }
}

/// The value of the first `MajorScale` option of `s`, if any.
pub open spec fn first_major_scale(s: Seq<TickOption>) -> Option<Real> {
    match first_with_tag(s, 4) {
        Some(i) => match s[i] {
            TickOption::MajorScale(x) => Some(x),
            _ => None,
        },
        None => None,
    }
}

/// The value of the first `MajorScale` option of `v`, if any.
pub fn tick_major_scale(v: &Vec<TickOption>) -> (r: Option<&Real>)
    ensures
        match r {
            Some(x) => first_major_scale(v@) == Some(*x),
            None => first_major_scale(v@) is None,
        },
{
    match find_first(v, 4) {
        Some(i) => match &v[i] {
            TickOption::MajorScale(x) => Some(x),
            _ => None,
        },
        None => None,
    }
}

/// The value of the first `Format` option of `s`, if any.
pub open spec fn first_format(s: Seq<TickOption>) -> Option<String> {
    match first_with_tag(s, 5) {
        Some(i) => match s[i] {
            TickOption::Format(x) => Some(x),
            _ => None,
        },
        None => None,
    }
}

/// The value of the first `Format` option of `v`, if any.
pub fn tick_format(v: &Vec<TickOption>) -> (r: Option<&String>)
    ensures
        match r {
            Some(x) => first_format(v@) == Some(*x),
            None => first_format(v@) is None,
        },
{
    match find_first(v, 5) {
        Some(i) => match &v[i] {
            TickOption::Format(x) => Some(x),
            _ => None,
        },
        None => None,
    }
}

impl Tagged for LegendOption {
    open spec fn tag(&self) -> u8 {
        match self {
            LegendOption::Reverse => 0,
            LegendOption::Invert => 1,
            LegendOption::Horizontal => 2,
            LegendOption::Placement(..) => 3,
            LegendOption::Title(..) => 4,
            LegendOption::MaxRows(..) => 5,
            LegendOption::MaxCols(..) => 6,
        }
    }

    fn tag_of(&self) -> (t: u8) {
        match self {
            LegendOption::Reverse => 0,
            LegendOption::Invert => 1,
            LegendOption::Horizontal => 2,
            LegendOption::Placement(..) => 3,
            LegendOption::Title(..) => 4,
            LegendOption::MaxRows(..) => 5,
            LegendOption::MaxCols(..) => 6,
        }
    }
}

/// Whether `s` holds a `Reverse` option.
pub open spec fn has_reverse(s: Seq<LegendOption>) -> bool {
    first_with_tag(s, 0) is Some
}

/// Whether `v` holds a `Reverse` option.
pub fn legend_has_reverse(v: &Vec<LegendOption>) -> (r: bool)
    ensures
        r == has_reverse(v@),
{
    find_first(v, 0).is_some()
}

/// Whether `s` holds a `Invert` option.
pub open spec fn has_invert(s: Seq<LegendOption>) -> bool {
    first_with_tag(s, 1) is Some
}

/// Whether `v` holds a `Invert` option.
pub fn legend_has_invert(v: &Vec<LegendOption>) -> (r: bool)
    ensures
        r == has_invert(v@),
{
    find_first(v, 1).is_some()
}

/// Whether `s` holds a `Horizontal` option.
pub open spec fn has_horizontal(s: Seq<LegendOption>) -> bool {
    first_with_tag(s, 2) is Some
}

/// Whether `v` holds a `Horizontal` option.
pub fn legend_has_horizontal(v: &Vec<LegendOption>) -> (r: bool)
    ensures
        r == has_horizontal(v@),
{
    find_first(v, 2).is_some()
}

/// The value of the first `Placement` option of `s`, if any.
pub open spec fn first_placement(s: Seq<LegendOption>) -> Option<(AlignType, AlignType)> {
    match first_with_tag(s, 3) {
        Some(i) => match s[i] {
            LegendOption::Placement(a, b) => Some((a, b)),
            _ => None,
        },
        None => None,
    }
}

/// The value of the first `Placement` option of `v`, if any.
pub fn legend_placement(v: &Vec<LegendOption>) -> (r: Option<(AlignType, AlignType)>)
    ensures
        r == first_placement(v@),
{
    match find_first(v, 3) {
        Some(i) => match &v[i] {
            LegendOption::Placement(a, b) => Some((*a, *b)),
            _ => None,
        },
        None => None,
    }
}

/// The value of the first `Title` option of `s`, if any.
pub open spec fn first_title(s: Seq<LegendOption>) -> Option<String> {
    match first_with_tag(s, 4) {
        Some(i) => match s[i] {
            LegendOption::Title(x) => Some(x),
            _ => None,
        },
        None => None,
    }
}

/// The value of the first `Title` option of `v`, if any.
pub fn legend_title(v: &Vec<LegendOption>) -> (r: Option<&String>)
    ensures
        match r {
            Some(x) => first_title(v@) == Some(*x),
            None => first_title(v@) is None,
        },
{
    match find_first(v, 4) {
        Some(i) => match &v[i] {
            LegendOption::Title(x) => Some(x),
            _ => None,
        },
        None => None,
    }
}

/// The value of the first `MaxRows` option of `s`, if any.
pub open spec fn first_max_rows(s: Seq<LegendOption>) -> Option<u32> {
    match first_with_tag(s, 5) {
        Some(i) => match s[i] {
            LegendOption::MaxRows(x) => Some(x),
            _ => None,
        },
        None => None,
    }
}

/// The value of the first `MaxRows` option of `v`, if any.
pub fn legend_max_rows(v: &Vec<LegendOption>) -> (r: Option<u32>)
    ensures
        r == first_max_rows(v@),
{
    match find_first(v, 5) {
        Some(i) => match &v[i] {
            LegendOption::MaxRows(x) => Some(*x),
            _ => None,
        },
        None => None,
    }
}

/// The value of the first `MaxCols` option of `s`, if any.
pub open spec fn first_max_cols(s: Seq<LegendOption>) -> Option<u32> {
    match first_with_tag(s, 6) {
        Some(i) => match s[i] {
            LegendOption::MaxCols(x) => Some(x),
            _ => None,
        },
        None => None,
    }
}

/// The value of the first `MaxCols` option of `v`, if any.
pub fn legend_max_cols(v: &Vec<LegendOption>) -> (r: Option<u32>)
    ensures
        r == first_max_cols(v@),
{
    match find_first(v, 6) {
        Some(i) => match &v[i] {
            LegendOption::MaxCols(x) => Some(*x),
            _ => None,
        },
        None => None,
    }
}

/// The plot option that sets the color of a plot element.
#[allow(non_snake_case)]
pub fn Color(c: ColorType) -> (r: PlotOption)
    ensures
        r == PlotOption::ColorOpt(c),
{
    PlotOption::ColorOpt(c)
}

/// The plot option that sets the color of a plot element's border.
#[allow(non_snake_case)]
pub fn BorderColor(c: ColorType) -> (r: PlotOption)
    ensures
        r == PlotOption::BorderColorOpt(c),
{
    PlotOption::BorderColorOpt(c)
}

/// The label option that sets the color of the text.
#[allow(non_snake_case)]
pub fn TextColor(c: ColorType) -> (r: LabelOption)
    ensures
        r == LabelOption::TextColorOpt(c),
{
    LabelOption::TextColorOpt(c)
}

} // verus!
