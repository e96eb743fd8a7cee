//! 2D axes: legend, arrows, border, and the plots drawn on them.
use vstd::prelude::*;
use crate::axes_common::{
    AxisData, AxesCommon, AxesCommonData, TickAxis, PlotType, color_options_text, elements_data, line_options_text,
    write_color_options, write_line_options, dir_view, is_matrix_plot,
};
use crate::color::ColorType;
use crate::coordinates::Coordinate;
use crate::element::{ArrayExtent, PlotElement, columns_view, is_record_plot, lemma_shortest_attained, lemma_shortest_bound, shortest, shortest_len, needs_color_values, with_color};
use crate::options::{
    AlignType, ArrowheadType, BorderLocation2D, GnuplotVersion, LabelOption, LegendOption,
    PlotOption, first_arrow_size, first_arrow_type, first_font, first_max_cols, first_max_rows,
    first_placement, first_text_align, first_text_color_opt, first_title, has_horizontal,
    has_invert, has_reverse, label_font, label_text_align, label_text_color_opt,
    legend_has_horizontal, legend_has_invert, legend_has_reverse, legend_max_cols,
    legend_max_rows, legend_placement, legend_title, plot_arrow_size, plot_arrow_type,
};
use crate::text::{dec_int, escape, escaped, lemma_encode_utf8_append, lemma_parts, put, put_bytes, put_i64, starts_with};

verus! {

/// The legend command names, right after the legend's position, the placement given first
/// among its options: `left`, `right` or `center` across, then `top`, `bottom` or `center`
/// up and down; without one, `right top`.
pub proof fn lemma_legend_placement(l: LegendData)
    ensures
        starts_with(l.commands_text(), "set key at "@ + l.x.text() + ","@ + l.y.text() + match first_placement(l.legend_options@) {
            Some((h, v)) => (if h == AlignType::AlignLeft {
                " left"@
            } else if h == AlignType::AlignRight {
                " right"@
            } else {
                " center"@
            }) + (if v == AlignType::AlignTop {
                " top"@
            } else if v == AlignType::AlignBottom {
                " bottom"@
            } else {
                " center"@
            }),
            None => " right top"@,
        }),
{
    reveal(LegendData::commands_text);
    let head = "set key at "@ + l.x.text() + ","@ + l.y.text() + l.placement_text();
    let rest = l.switches_text() + l.title_text() + l.entries_text() + l.limits_text() + "\n"@;
    assert(l.commands_text() =~= head + rest);
    lemma_parts(head, rest);
}

/// A `u32` read as a 32-bit signed integer.
pub open spec fn as_signed(v: u32) -> int {
    if v < 0x8000_0000 { v as int } else { v - 0x1_0000_0000 }
}

fn signed(v: u32) -> (r: i64)
    ensures
        r == as_signed(v),
{
    if v < 0x8000_0000 { v as i64 } else { v as i64 - 0x1_0000_0000 }
}

/// Where the legend is and what it looks like.
pub struct LegendData {
    pub x: Coordinate,
    pub y: Coordinate,
    pub legend_options: Vec<LegendOption>,
    pub text_options: Vec<LabelOption>,
}

impl LegendData {
    /// The placement of the legend: right top unless given.
    pub open spec fn placement_text(&self) -> Seq<char> {
        match first_placement(self.legend_options@) {
            Some((h, v)) => (match h {
                AlignType::AlignLeft => " left"@,
                AlignType::AlignRight => " right"@,
                _ => " center"@,
            }) + (match v {
                AlignType::AlignTop => " top"@,
                AlignType::AlignBottom => " bottom"@,
                _ => " center"@,
            }),
            None => " right top"@,
        }
    }

    /// The layout switches: vertical, not reversed and not inverted unless asked.
    pub open spec fn switches_text(&self) -> Seq<char> {
        (if has_horizontal(self.legend_options@) { " horizontal"@ } else { " vertical"@ })
            + (if has_reverse(self.legend_options@) { " reverse"@ } else { " noreverse"@ })
            + (if has_invert(self.legend_options@) { " invert"@ } else { " noinvert"@ })
    }

    /// The title of the legend, escaped and quoted.
    pub open spec fn title_text(&self) -> Seq<char> {
        match first_title(self.legend_options@) {
            Some(s) => " title \""@ + escaped(s@) + "\""@,
            None => Seq::empty(),
        }
    }

    /// The font, text color and alignment of the legend's entries.
    pub open spec fn entries_text(&self) -> Seq<char> {
        let font = match first_font(self.text_options@) {
            Some((f, s)) => " font \""@ + escaped(f@) + ","@ + s.plain@ + "\""@,
            None => Seq::empty(),
        };
        let color = match first_text_color_opt(self.text_options@) {
            Some(c) => " textcolor "@ + c.command_text() + " "@,
            None => Seq::empty(),
        };
        let align = match first_text_align(self.text_options@) {
            Some(AlignType::AlignLeft) => " Left"@,
            Some(AlignType::AlignRight) => " Right"@,
            _ => Seq::empty(),
        };
        font + color + align
    }

    /// The largest number of rows and columns.
    pub open spec fn limits_text(&self) -> Seq<char> {
        let rows = match first_max_rows(self.legend_options@) {
            Some(r) => " maxrows "@ + dec_int(as_signed(r)),
            None => Seq::empty(),
        };
        let cols = match first_max_cols(self.legend_options@) {
            Some(c) => " maxcols "@ + dec_int(as_signed(c)),
            None => Seq::empty(),
        };
        rows + cols
    }

    #[verifier::opaque]
    /// The command that sets up the legend.
    pub open spec fn commands_text(&self) -> Seq<char> {
        "set key at "@ + self.x.text() + ","@ + self.y.text() + self.placement_text() + self.switches_text()
            + self.title_text() + self.entries_text() + self.limits_text() + "\n"@
    }

    fn write_placement(&self, w: &mut String)
        ensures
            final(w)@ == old(w)@ + self.placement_text(),
    {
        let ghost start = w@;
        match legend_placement(&self.legend_options) {
            Some((h, v)) => {
                match h {
                    AlignType::AlignLeft => put(w, " left"),
                    AlignType::AlignRight => put(w, " right"),
                    _ => put(w, " center"),
                }
                match v {
                    AlignType::AlignTop => put(w, " top"),
                    AlignType::AlignBottom => put(w, " bottom"),
                    _ => put(w, " center"),
                }
            },
            None => put(w, " right top"),
        }
        assert(w@ =~= start + self.placement_text());
    }

    fn write_switches(&self, w: &mut String)
        ensures
            final(w)@ == old(w)@ + self.switches_text(),
    {
        let ghost start = w@;
        if legend_has_horizontal(&self.legend_options) {
            put(w, " horizontal");
        } else {
            put(w, " vertical");
        }
        if legend_has_reverse(&self.legend_options) {
            put(w, " reverse");
        } else {
            put(w, " noreverse");
        }
        if legend_has_invert(&self.legend_options) {
            put(w, " invert");
        } else {
            put(w, " noinvert");
        }
        assert(w@ =~= start + self.switches_text());
    }

    fn write_title(&self, w: &mut String)
        ensures
            final(w)@ == old(w)@ + self.title_text(),
    {
        let ghost start = w@;
        match legend_title(&self.legend_options) {
            Some(s) => {
                put(w, " title \"");
                let e = escape(s.as_str());
                put(w, e.as_str());
                put(w, "\"");
            },
            None => {},
        }
        assert(w@ =~= start + self.title_text());
    }

    fn write_entries(&self, w: &mut String)
        ensures
            final(w)@ == old(w)@ + self.entries_text(),
    {
        let ghost start = w@;
        match label_font(&self.text_options) {
            Some((f, s)) => {
                put(w, " font \"");
                let e = escape(f.as_str());
                put(w, e.as_str());
                put(w, ",");
                put(w, s.plain.as_str());
                put(w, "\"");
            },
            None => {},
        }
        let ghost p1 = w@;
        match label_text_color_opt(&self.text_options) {
            Some(c) => {
                put(w, " textcolor ");
                c.write_command(w);
                put(w, " ");
            },
            None => {},
        }
        let ghost p2 = w@;
        match label_text_align(&self.text_options) {
            Some(AlignType::AlignLeft) => put(w, " Left"),
            Some(AlignType::AlignRight) => put(w, " Right"),
            _ => {},
        }
        assert(w@ =~= start + self.entries_text());
    }

    fn write_limits(&self, w: &mut String)
        ensures
            final(w)@ == old(w)@ + self.limits_text(),
    {
        let ghost start = w@;
        match legend_max_rows(&self.legend_options) {
            Some(r) => {
                put(w, " maxrows ");
                put_i64(w, signed(r));
            },
            None => {},
        }
        match legend_max_cols(&self.legend_options) {
            Some(c) => {
                put(w, " maxcols ");
                put_i64(w, signed(c));
            },
            None => {},
        }
        assert(w@ =~= start + self.limits_text());
    }

    /// Appends the command that sets up the legend.
    pub fn write_out(&self, w: &mut String)
        ensures
            final(w)@ == old(w)@ + self.commands_text(),
    {
        let ghost start = w@;
        put(w, "set key at ");
        self.x.write(w);
        put(w, ",");
        self.y.write(w);
        self.write_placement(w);
        self.write_switches(w);
        self.write_title(w);
        self.write_entries(w);
        self.write_limits(w);
        put(w, "\n");
        assert(w@ =~= start + self.commands_text()) by {
            reveal(LegendData::commands_text);
        }
    }

    /// Appends the command that removes the legend.
    pub fn reset_state(&self, w: &mut String)
        ensures
            final(w)@ == old(w)@ + "unset key\n"@,
    {
        put(w, "unset key\n");
    }
}

/// An arrow from `(x1, y1)` to `(x2, y2)`, pointing at the latter.
pub struct ArrowData {
    pub x1: Coordinate,
    pub y1: Coordinate,
    pub x2: Coordinate,
    pub y2: Coordinate,
    pub plot_options: Vec<PlotOption>,
    pub tag: i32,
}

impl ArrowData {
    /// The head of the arrow and its size (0.05 of the graph unless given).
    pub open spec fn head_text(&self) -> Seq<char> {
        let kind = match first_arrow_type(self.plot_options@) {
            Some(ArrowheadType::Open) => Seq::empty(),
            Some(ArrowheadType::Closed) => " empty"@,
            Some(ArrowheadType::Filled) => " filled"@,
            Some(ArrowheadType::NoArrow) => " nohead"@,
            None => Seq::empty(),
        };
        let size = match first_arrow_size(self.plot_options@) {
            Some(z) => z.sci@,
            None => "0.05"@,
        };
        kind + " size graph "@ + size + ",12"@
    }

    /// The command that draws the arrow: black unless colored; its dash style is written
    /// as for gnuplot versions before 5.
    pub open spec fn commands_text(&self) -> Seq<char> {
        self.ends_text() + self.head_text() + self.style_text() + "\n"@
    }

    /// The tag of the arrow and its two ends.
    pub open spec fn ends_text(&self) -> Seq<char> {
        "set arrow "@ + dec_int(self.tag as int) + " from "@ + self.x1.text() + ","@ + self.y1.text()
            + " to "@ + self.x2.text() + ","@ + self.y2.text()
    }

    /// The color and line style of the arrow.
    pub open spec fn style_text(&self) -> Seq<char> {
        color_options_text(self.plot_options@, " lc "@ + "black"@)
            + line_options_text(self.plot_options@, GnuplotVersion { major: 0, minor: 0 })
    }

    fn write_head(&self, w: &mut String)
        ensures
            final(w)@ == old(w)@ + self.head_text(),
    {
        let ghost start = w@;
        match plot_arrow_type(&self.plot_options) {
            Some(ArrowheadType::Open) => {},
            Some(ArrowheadType::Closed) => put(w, " empty"),
            Some(ArrowheadType::Filled) => put(w, " filled"),
            Some(ArrowheadType::NoArrow) => put(w, " nohead"),
            None => {},
        }
        put(w, " size graph ");
        match plot_arrow_size(&self.plot_options) {
            Some(z) => put(w, z.sci.as_str()),
            None => put(w, "0.05"),
        }
        put(w, ",12");
        assert(w@ =~= start + self.head_text());
    }

    fn write_ends(&self, w: &mut String)
        ensures
            final(w)@ == old(w)@ + self.ends_text(),
    {
        let ghost start = w@;
        put(w, "set arrow ");
        put_i64(w, self.tag as i64);
        put(w, " from ");
        self.x1.write(w);
        put(w, ",");
        self.y1.write(w);
        put(w, " to ");
        self.x2.write(w);
        put(w, ",");
        self.y2.write(w);
        assert(w@ =~= start + self.ends_text());
    }

    /// Appends the command that draws the arrow.
    pub fn write_out(&self, w: &mut String)
        ensures
            final(w)@ == old(w)@ + self.commands_text(),
    {
        let ghost start = w@;
        self.write_ends(w);
        self.write_head(w);
        let ghost mid = w@;
        let black = Some(ColorType::Black);
        write_color_options(w, &self.plot_options, &black);
        write_line_options(w, &self.plot_options, GnuplotVersion { major: 0, minor: 0 });
        assert(w@ =~= mid + self.style_text());
        put(w, "\n");
        assert(w@ =~= start + self.commands_text());
    }

    /// The command that removes the arrow.
    pub open spec fn reset_text(&self) -> Seq<char> {
        "unset arrow "@ + dec_int(self.tag as int) + "\n"@
    }

    /// Appends the command that removes the arrow.
    pub fn reset_state(&self, w: &mut String)
        ensures
            final(w)@ == old(w)@ + self.reset_text(),
    {
        let ghost start = w@;
        put(w, "unset arrow ");
        put_i64(w, self.tag as i64);
        put(w, "\n");
        assert(w@ =~= start + self.reset_text());
    }
}

/// The bit mask of border sides.
pub open spec fn border_mask(s: Seq<BorderLocation2D>) -> i32
    decreases s.len(),
{
    if s.len() == 0 {
        0
    } else {
        border_mask(s.drop_last()) | s.last().spec_to_int()
    }
}

proof fn lemma_or_keeps(a: i32, b: i32, c: i32)
    by (bit_vector)
    requires
        a & c == c,
    ensures
        (a | b) & c == c,
{
}

proof fn lemma_or_has(a: i32, b: i32)
    by (bit_vector)
    ensures
        (a | b) & b == b,
{
}

proof fn lemma_or_range(a: i32, b: i32)
    by (bit_vector)
    requires
        0 <= a <= 15,
        0 <= b <= 15,
    ensures
        0 <= (a | b) <= 15,
{
}

/// The border mask holds the bit of every side listed, and no bit that stands for no side.
pub proof fn lemma_border_mask(s: Seq<BorderLocation2D>)
    ensures
        forall|i: int| 0 <= i < s.len() ==> border_mask(s) & #[trigger] s[i].spec_to_int() == s[i].spec_to_int(),
        0 <= border_mask(s) <= 15,
    decreases s.len(),
{
    if s.len() > 0 {
        let p = s.drop_last();
        lemma_border_mask(p);
        assert forall|i: int| 0 <= i < s.len() implies border_mask(s) & #[trigger] s[i].spec_to_int() == s[i].spec_to_int() by {
            if i < s.len() - 1 {
                assert(p[i] == s[i]);
                lemma_or_keeps(border_mask(p), s.last().spec_to_int(), s[i].spec_to_int());
            } else {
                lemma_or_has(border_mask(p), s.last().spec_to_int());
            }
        }
        lemma_or_range(border_mask(p), s.last().spec_to_int());
    }
}

/// The border of a 2D plot.
pub struct BorderOptions {
    pub front: bool,
    pub locations: Vec<BorderLocation2D>,
    pub options: Vec<PlotOption>,
}

impl BorderOptions {
    /// All four sides, drawn in front, with default style.
    pub fn new() -> (r: BorderOptions)
        ensures
            r.front,
            r.locations@ == seq![BorderLocation2D::Bottom, BorderLocation2D::Left, BorderLocation2D::Top, BorderLocation2D::Right],
            r.options@.len() == 0,
    {
        let mut locations = Vec::new();
        locations.push(BorderLocation2D::Bottom);
        locations.push(BorderLocation2D::Left);
        locations.push(BorderLocation2D::Top);
        locations.push(BorderLocation2D::Right);
        BorderOptions { front: true, locations, options: Vec::new() }
    }

    #[verifier::opaque]
    /// The command that draws the border: black unless colored.
    pub open spec fn commands_text(&self, version: GnuplotVersion) -> Seq<char> {
        "set border "@ + dec_int(border_mask(self.locations@) as int)
            + (if self.front { " front "@ } else { " back "@ })
            + color_options_text(self.options@, " lc "@ + "black"@)
            + line_options_text(self.options@, version) + "\n"@
    }

    fn mask(&self) -> (f: i32)
        ensures
            f == border_mask(self.locations@),
    {
        let mut f: i32 = 0;
        let mut i: usize = 0;
        while i < self.locations.len()
            invariant
                i <= self.locations@.len(),
                f == border_mask(self.locations@.take(i as int)),
            decreases self.locations@.len() - i,
        {
            assert(self.locations@.take(i + 1).drop_last() =~= self.locations@.take(i as int));
            f = f | self.locations[i].to_int();
            i = i + 1;
        }
        assert(self.locations@.take(self.locations@.len() as int) =~= self.locations@);
        f
    }

    /// Appends the command that draws the border.
    pub fn write_out(&self, w: &mut String, version: GnuplotVersion)
        ensures
            final(w)@ == old(w)@ + self.commands_text(version),
    {
        let ghost start = w@;
        put(w, "set border ");
        put_i64(w, self.mask() as i64);
        if self.front {
            put(w, " front ");
        } else {
            put(w, " back ");
        }
        let black = Some(ColorType::Black);
        write_color_options(w, &self.options, &black);
        write_line_options(w, &self.options, version);
        put(w, "\n");
        assert(w@ =~= start + self.commands_text(version)) by {
            reveal(BorderOptions::commands_text);
        }
    }
}

/// The bit pattern of the 64-bit float -1.0.
pub const NEG_ONE_BITS: u64 = 0xbff0_0000_0000_0000;

/// A column of `n` values -1.0.
pub open spec fn neg_ones(n: nat) -> Seq<u64> {
    Seq::new(n, |i: int| NEG_ONE_BITS)
}

proof fn lemma_shortest_with_extra(a: Seq<Seq<u64>>, d: Seq<u64>, color_values: Option<Vec<u64>>)
    requires
        a.len() >= 1,
        d.len() == shortest(with_color(a, color_values)),
    ensures
        shortest(with_color(a.push(d), color_values)) == d.len(),
{
    let s = with_color(a, color_values);
    let t = with_color(a.push(d), color_values);
    lemma_shortest_attained(t);
    let j = choose|j: int| 0 <= j < t.len() && shortest(t) == #[trigger] t[j].len();
    let di = a.len() as int;
    assert(t[di] == d);
    lemma_shortest_bound(t, di);
    if j != di {
        let k = if j < di { j } else { j - 1 };
        assert(t[j] == s[k]);
        lemma_shortest_bound(s, k);
    }
}

/// The arrows are tagged 1, 2, ... in the order they were added.
pub open spec fn arrows_numbered(arrows: Seq<ArrowData>) -> bool {
    forall|i: int| 0 <= i < arrows.len() ==> (#[trigger] arrows[i]).tag == i + 1
}

/// Adding an arrow the way `Axes2D::arrow` does keeps the arrows numbered, and numbered
/// arrows have distinct tags: each `unset arrow` removes its own arrow only.
pub proof fn lemma_arrows_numbered(before: Seq<ArrowData>, arrow: ArrowData)
    requires
        arrows_numbered(before),
        arrow.tag == before.len() + 1,
    ensures
        arrows_numbered(before.push(arrow)),
        forall|i: int, j: int| 0 <= i < j < before.push(arrow).len() ==>
            (#[trigger] before.push(arrow)[i]).tag != (#[trigger] before.push(arrow)[j]).tag,
{
    let after = before.push(arrow);
    assert forall|i: int| 0 <= i < after.len() implies (#[trigger] after[i]).tag == i + 1 by {
        if i < before.len() {
            assert(after[i] == before[i]);
        }
    }
}

/// 2D axes.
pub struct Axes2D {
    pub common: AxesCommonData,
    pub border_options: BorderOptions,
    pub arrows: Vec<ArrowData>,
    pub legend: Option<LegendData>,
}

/// The axes whose grid is shown, among X, Y and the color bar.
pub open spec fn grid_axes_of(c: AxesCommonData) -> Seq<TickAxis> {
    (if c.x_axis.grid { seq![c.x_axis.axis] } else { Seq::empty() })
        + (if c.y_axis.grid { seq![c.y_axis.axis] } else { Seq::empty() })
        + (if c.cb_axis.grid { seq![c.cb_axis.axis] } else { Seq::empty() })
}

/// The commands of the arrows, one after another.
pub open spec fn arrows_text(arrows: Seq<ArrowData>) -> Seq<char>
    decreases arrows.len(),
{
    if arrows.len() == 0 {
        Seq::empty()
    } else {
        arrows_text(arrows.drop_last()) + arrows.last().commands_text()
    }
}

/// The commands that remove the arrows, one after another.
pub open spec fn arrows_reset_text(arrows: Seq<ArrowData>) -> Seq<char>
    decreases arrows.len(),
{
    if arrows.len() == 0 {
        Seq::empty()
    } else {
        arrows_reset_text(arrows.drop_last()) + arrows.last().reset_text()
    }
}

/// The legend command, if there is a legend.
pub open spec fn legend_text(legend: Option<LegendData>) -> Seq<char> {
    match legend {
        Some(l) => l.commands_text(),
        None => Seq::empty(),
    }
}

/// Appends the commands of the arrows.
pub fn write_arrows(w: &mut String, arrows: &Vec<ArrowData>)
    ensures
        final(w)@ == old(w)@ + arrows_text(arrows@),
{
    let ghost start = w@;
    let mut i: usize = 0;
    while i < arrows.len()
        invariant
            i <= arrows@.len(),
            w@ == start + arrows_text(arrows@.take(i as int)),
        decreases arrows@.len() - i,
    {
        arrows[i].write_out(w);
        assert(arrows@.take(i + 1).drop_last() =~= arrows@.take(i as int));
        assert(w@ =~= start + arrows_text(arrows@.take(i + 1)));
        i = i + 1;
    }
    assert(arrows@.take(arrows@.len() as int) =~= arrows@);
}

/// Appends the commands that remove the arrows.
pub fn reset_arrows(w: &mut String, arrows: &Vec<ArrowData>)
    ensures
        final(w)@ == old(w)@ + arrows_reset_text(arrows@),
{
    let ghost start = w@;
    let mut i: usize = 0;
    while i < arrows.len()
        invariant
            i <= arrows@.len(),
            w@ == start + arrows_reset_text(arrows@.take(i as int)),
        decreases arrows@.len() - i,
    {
        arrows[i].reset_state(w);
        assert(arrows@.take(i + 1).drop_last() =~= arrows@.take(i as int));
        assert(w@ =~= start + arrows_reset_text(arrows@.take(i + 1)));
        i = i + 1;
    }
    assert(arrows@.take(arrows@.len() as int) =~= arrows@);
}

/// Collects the axes whose grid is shown, among X, Y and the color bar.
pub fn grid_axes(c: &AxesCommonData) -> (r: Vec<TickAxis>)
    ensures
        r@ == grid_axes_of(*c),
{
    let mut r = Vec::new();
    if c.x_axis.grid {
        r.push(c.x_axis.axis);
    }
    if c.y_axis.grid {
        r.push(c.y_axis.axis);
    }
    if c.cb_axis.grid {
        r.push(c.cb_axis.axis);
    }
    assert(r@ =~= grid_axes_of(*c));
    r
}

impl Axes2D {
    /// Nothing plotted or set: the full border drawn in front, no arrows, no legend.
    pub open spec fn is_new(&self) -> bool {
        &&& self.common.is_fresh()
        &&& self.border_options.front
        &&& self.border_options.locations@ == seq![BorderLocation2D::Bottom, BorderLocation2D::Left, BorderLocation2D::Top, BorderLocation2D::Right]
        &&& self.border_options.options@.len() == 0
        &&& self.arrows@.len() == 0
        &&& self.legend is None
    }

    /// Empty 2D axes with the full border and no legend.
    pub fn new() -> (r: Axes2D)
        ensures
            r.is_new(),
    {
        Axes2D {
            common: AxesCommonData::new(),
            border_options: BorderOptions::new(),
            arrows: Vec::new(),
            legend: None,
        }
    }

    /// Sets the border: drawn in front of the plot or behind it, which sides, and its style.
    pub fn set_border(&mut self, front: bool, locations: Vec<BorderLocation2D>, options: Vec<PlotOption>) -> (r: &mut Self)
        ensures
            *r == (Axes2D { border_options: BorderOptions { front, locations, options }, ..*old(self) }),
            *final(self) == *final(r),
    {
        self.border_options = BorderOptions { front, locations, options };
        self
    }

    /// Shows or hides the X zero axis, with its style.
    pub fn set_x_axis(&mut self, show: bool, options: Vec<PlotOption>) -> (r: &mut Self)
        ensures
            *r == (Axes2D {
                common: AxesCommonData {
                    x_axis: AxisData { show, options, ..old(self).common.x_axis },
                    ..old(self).common
                },
                ..*old(self)
            }),
            *final(self) == *final(r),
    {
        self.common.x_axis.show = show;
        self.common.x_axis.options = options;
        self
    }

    /// Shows or hides the Y zero axis, with its style.
    pub fn set_y_axis(&mut self, show: bool, options: Vec<PlotOption>) -> (r: &mut Self)
        ensures
            *r == (Axes2D {
                common: AxesCommonData {
                    y_axis: AxisData { show, options, ..old(self).common.y_axis },
                    ..old(self).common
                },
                ..*old(self)
            }),
            *final(self) == *final(r),
    {
        self.common.y_axis.show = show;
        self.common.y_axis.options = options;
        self
    }

    /// Adds an arrow from `(x1, y1)` to `(x2, y2)`, tagged with one more than the number of
    /// arrows before it.
    pub fn arrow(&mut self, x1: Coordinate, y1: Coordinate, x2: Coordinate, y2: Coordinate, options: Vec<PlotOption>) -> (r: &mut Self)
        requires
            old(self).arrows@.len() < 0x7fff_ffff,
        ensures
            *r == (Axes2D { arrows: r.arrows, ..*old(self) }),
            r.arrows@ == old(self).arrows@.push(ArrowData {
                x1, y1, x2, y2, plot_options: options, tag: (old(self).arrows@.len() + 1) as i32,
            }),
            arrows_numbered(old(self).arrows@) ==> arrows_numbered(r.arrows@),
            *final(self) == *final(r),
    {
        let tag = self.arrows.len() as i32 + 1;
        let ghost before = self.arrows@;
        let arrow = ArrowData { x1, y1, x2, y2, plot_options: options, tag };
        proof {
            if arrows_numbered(before) {
                lemma_arrows_numbered(before, arrow);
            }
        }
        self.arrows.push(arrow);
        self
    }

    /// Places the legend at `(x, y)` with its options and those of its entries' text.
    pub fn set_legend(&mut self, x: Coordinate, y: Coordinate, legend_options: Vec<LegendOption>, text_options: Vec<LabelOption>) -> (r: &mut Self)
        ensures
            *r == (Axes2D { legend: Some(LegendData { x, y, legend_options, text_options }), ..*old(self) }),
            *final(self) == *final(r),
    {
        self.legend = Some(LegendData { x, y, legend_options, text_options });
        self
    }

    /// Plots a 2D scatter plot with lines connecting the points. The columns are the bit patterns of 64-bit floats; `color_values`
    /// holds a color value for each point when the options ask for one.
    pub fn lines(&mut self, x: Vec<u64>, y: Vec<u64>, color_values: Option<Vec<u64>>, options: Vec<PlotOption>) -> (r: &mut Self)
        requires
            color_values is Some <==> needs_color_values(options@),
        ensures
            r.common.elems@.len() == old(self).common.elems@.len() + 1,
            r.common.elems@.drop_last() == old(self).common.elems@,
            is_record_plot(r.common.elems@.last(), PlotType::Lines, with_color(seq![x@, y@], color_values), options),
            *r == (Axes2D { common: AxesCommonData { elems: r.common.elems, ..old(self).common }, ..*old(self) }),
            *final(self) == *final(r),
    {
        let mut columns: Vec<Vec<u64>> = Vec::new();
        columns.push(x);
        columns.push(y);
        assert(crate::element::columns_view(columns@) =~= seq![x@, y@]);
        self.common.add_plot(PlotType::Lines, columns, color_values, options);
        self
    }

    /// Plots a 2D scatter plot with a point for each data point. The columns are the bit patterns of 64-bit floats; `color_values`
    /// holds a color value for each point when the options ask for one.
    pub fn points(&mut self, x: Vec<u64>, y: Vec<u64>, color_values: Option<Vec<u64>>, options: Vec<PlotOption>) -> (r: &mut Self)
        requires
            color_values is Some <==> needs_color_values(options@),
        ensures
            r.common.elems@.len() == old(self).common.elems@.len() + 1,
            r.common.elems@.drop_last() == old(self).common.elems@,
            is_record_plot(r.common.elems@.last(), PlotType::Points, with_color(seq![x@, y@], color_values), options),
            *r == (Axes2D { common: AxesCommonData { elems: r.common.elems, ..old(self).common }, ..*old(self) }),
            *final(self) == *final(r),
    {
        let mut columns: Vec<Vec<u64>> = Vec::new();
        columns.push(x);
        columns.push(y);
        assert(crate::element::columns_view(columns@) =~= seq![x@, y@]);
        self.common.add_plot(PlotType::Points, columns, color_values, options);
        self
    }

    /// Plots a 2D scatter plot with points joined by lines. The columns are the bit patterns of 64-bit floats; `color_values`
    /// holds a color value for each point when the options ask for one.
    pub fn lines_points(&mut self, x: Vec<u64>, y: Vec<u64>, color_values: Option<Vec<u64>>, options: Vec<PlotOption>) -> (r: &mut Self)
        requires
            color_values is Some <==> needs_color_values(options@),
        ensures
            r.common.elems@.len() == old(self).common.elems@.len() + 1,
            r.common.elems@.drop_last() == old(self).common.elems@,
            is_record_plot(r.common.elems@.last(), PlotType::LinesPoints, with_color(seq![x@, y@], color_values), options),
            *r == (Axes2D { common: AxesCommonData { elems: r.common.elems, ..old(self).common }, ..*old(self) }),
            *final(self) == *final(r),
    {
        let mut columns: Vec<Vec<u64>> = Vec::new();
        columns.push(x);
        columns.push(y);
        assert(crate::element::columns_view(columns@) =~= seq![x@, y@]);
        self.common.add_plot(PlotType::LinesPoints, columns, color_values, options);
        self
    }

    /// Plots points with horizontal error bars. The columns are the bit patterns of 64-bit floats; `color_values`
    /// holds a color value for each point when the options ask for one.
    pub fn x_error_bars(&mut self, x: Vec<u64>, y: Vec<u64>, x_error: Vec<u64>, color_values: Option<Vec<u64>>, options: Vec<PlotOption>) -> (r: &mut Self)
        requires
            color_values is Some <==> needs_color_values(options@),
        ensures
            r.common.elems@.len() == old(self).common.elems@.len() + 1,
            r.common.elems@.drop_last() == old(self).common.elems@,
            is_record_plot(r.common.elems@.last(), PlotType::XErrorBars, with_color(seq![x@, y@, x_error@], color_values), options),
            *r == (Axes2D { common: AxesCommonData { elems: r.common.elems, ..old(self).common }, ..*old(self) }),
            *final(self) == *final(r),
    {
        let mut columns: Vec<Vec<u64>> = Vec::new();
        columns.push(x);
        columns.push(y);
        columns.push(x_error);
        assert(crate::element::columns_view(columns@) =~= seq![x@, y@, x_error@]);
        self.common.add_plot(PlotType::XErrorBars, columns, color_values, options);
        self
    }

    /// Plots points with vertical error bars. The columns are the bit patterns of 64-bit floats; `color_values`
    /// holds a color value for each point when the options ask for one.
    pub fn y_error_bars(&mut self, x: Vec<u64>, y: Vec<u64>, y_error: Vec<u64>, color_values: Option<Vec<u64>>, options: Vec<PlotOption>) -> (r: &mut Self)
        requires
            color_values is Some <==> needs_color_values(options@),
        ensures
            r.common.elems@.len() == old(self).common.elems@.len() + 1,
            r.common.elems@.drop_last() == old(self).common.elems@,
            is_record_plot(r.common.elems@.last(), PlotType::YErrorBars, with_color(seq![x@, y@, y_error@], color_values), options),
            *r == (Axes2D { common: AxesCommonData { elems: r.common.elems, ..old(self).common }, ..*old(self) }),
            *final(self) == *final(r),
    {
        let mut columns: Vec<Vec<u64>> = Vec::new();
        columns.push(x);
        columns.push(y);
        columns.push(y_error);
        assert(crate::element::columns_view(columns@) =~= seq![x@, y@, y_error@]);
        self.common.add_plot(PlotType::YErrorBars, columns, color_values, options);
        self
    }

    /// Plots points with horizontal and vertical error bars. The columns are the bit patterns of 64-bit floats; `color_values`
    /// holds a color value for each point when the options ask for one.
    pub fn xy_error_bars(&mut self, x: Vec<u64>, y: Vec<u64>, x_error: Vec<u64>, y_error: Vec<u64>, color_values: Option<Vec<u64>>, options: Vec<PlotOption>) -> (r: &mut Self)
        requires
            color_values is Some <==> needs_color_values(options@),
        ensures
            r.common.elems@.len() == old(self).common.elems@.len() + 1,
            r.common.elems@.drop_last() == old(self).common.elems@,
            is_record_plot(r.common.elems@.last(), PlotType::XYErrorBars, with_color(seq![x@, y@, x_error@, y_error@], color_values), options),
            *r == (Axes2D { common: AxesCommonData { elems: r.common.elems, ..old(self).common }, ..*old(self) }),
            *final(self) == *final(r),
    {
        let mut columns: Vec<Vec<u64>> = Vec::new();
        columns.push(x);
        columns.push(y);
        columns.push(x_error);
        columns.push(y_error);
        assert(crate::element::columns_view(columns@) =~= seq![x@, y@, x_error@, y_error@]);
        self.common.add_plot(PlotType::XYErrorBars, columns, color_values, options);
        self
    }

    /// Plots lines and points with horizontal error bars. The columns are the bit patterns of 64-bit floats; `color_values`
    /// holds a color value for each point when the options ask for one.
    pub fn x_error_lines(&mut self, x: Vec<u64>, y: Vec<u64>, x_error: Vec<u64>, color_values: Option<Vec<u64>>, options: Vec<PlotOption>) -> (r: &mut Self)
        requires
            color_values is Some <==> needs_color_values(options@),
        ensures
            r.common.elems@.len() == old(self).common.elems@.len() + 1,
            r.common.elems@.drop_last() == old(self).common.elems@,
            is_record_plot(r.common.elems@.last(), PlotType::XErrorLines, with_color(seq![x@, y@, x_error@], color_values), options),
            *r == (Axes2D { common: AxesCommonData { elems: r.common.elems, ..old(self).common }, ..*old(self) }),
            *final(self) == *final(r),
    {
        let mut columns: Vec<Vec<u64>> = Vec::new();
        columns.push(x);
        columns.push(y);
        columns.push(x_error);
        assert(crate::element::columns_view(columns@) =~= seq![x@, y@, x_error@]);
        self.common.add_plot(PlotType::XErrorLines, columns, color_values, options);
        self
    }

    /// Plots lines and points with vertical error bars. The columns are the bit patterns of 64-bit floats; `color_values`
    /// holds a color value for each point when the options ask for one.
    pub fn y_error_lines(&mut self, x: Vec<u64>, y: Vec<u64>, y_error: Vec<u64>, color_values: Option<Vec<u64>>, options: Vec<PlotOption>) -> (r: &mut Self)
        requires
            color_values is Some <==> needs_color_values(options@),
        ensures
            r.common.elems@.len() == old(self).common.elems@.len() + 1,
            r.common.elems@.drop_last() == old(self).common.elems@,
            is_record_plot(r.common.elems@.last(), PlotType::YErrorLines, with_color(seq![x@, y@, y_error@], color_values), options),
            *r == (Axes2D { common: AxesCommonData { elems: r.common.elems, ..old(self).common }, ..*old(self) }),
            *final(self) == *final(r),
    {
        let mut columns: Vec<Vec<u64>> = Vec::new();
        columns.push(x);
        columns.push(y);
        columns.push(y_error);
        assert(crate::element::columns_view(columns@) =~= seq![x@, y@, y_error@]);
        self.common.add_plot(PlotType::YErrorLines, columns, color_values, options);
        self
    }

    /// Plots the area between two curves, filled. The columns are the bit patterns of 64-bit floats; `color_values`
    /// holds a color value for each point when the options ask for one.
    pub fn fill_between(&mut self, x: Vec<u64>, y_lo: Vec<u64>, y_hi: Vec<u64>, color_values: Option<Vec<u64>>, options: Vec<PlotOption>) -> (r: &mut Self)
        requires
            color_values is Some <==> needs_color_values(options@),
        ensures
            r.common.elems@.len() == old(self).common.elems@.len() + 1,
            r.common.elems@.drop_last() == old(self).common.elems@,
            is_record_plot(r.common.elems@.last(), PlotType::FillBetween, with_color(seq![x@, y_lo@, y_hi@], color_values), options),
            *r == (Axes2D { common: AxesCommonData { elems: r.common.elems, ..old(self).common }, ..*old(self) }),
            *final(self) == *final(r),
    {
        let mut columns: Vec<Vec<u64>> = Vec::new();
        columns.push(x);
        columns.push(y_lo);
        columns.push(y_hi);
        assert(crate::element::columns_view(columns@) =~= seq![x@, y_lo@, y_hi@]);
        self.common.add_plot(PlotType::FillBetween, columns, color_values, options);
        self
    }

    /// Plots a filled polygon through the given vertices. The columns are the bit patterns of 64-bit floats; `color_values`
    /// holds a color value for each point when the options ask for one.
    pub fn polygon(&mut self, x: Vec<u64>, y: Vec<u64>, color_values: Option<Vec<u64>>, options: Vec<PlotOption>) -> (r: &mut Self)
        requires
            color_values is Some <==> needs_color_values(options@),
        ensures
            r.common.elems@.len() == old(self).common.elems@.len() + 1,
            r.common.elems@.drop_last() == old(self).common.elems@,
            is_record_plot(r.common.elems@.last(), PlotType::Polygons, with_color(seq![x@, y@], color_values), options),
            *r == (Axes2D { common: AxesCommonData { elems: r.common.elems, ..old(self).common }, ..*old(self) }),
            *final(self) == *final(r),
    {
        let mut columns: Vec<Vec<u64>> = Vec::new();
        columns.push(x);
        columns.push(y);
        assert(crate::element::columns_view(columns@) =~= seq![x@, y@]);
        self.common.add_plot(PlotType::Polygons, columns, color_values, options);
        self
    }

    /// Plots a bar plot. The columns are the bit patterns of 64-bit floats; `color_values`
    /// holds a color value for each point when the options ask for one.
    pub fn boxes(&mut self, x: Vec<u64>, y: Vec<u64>, color_values: Option<Vec<u64>>, options: Vec<PlotOption>) -> (r: &mut Self)
        requires
            color_values is Some <==> needs_color_values(options@),
        ensures
            r.common.elems@.len() == old(self).common.elems@.len() + 1,
            r.common.elems@.drop_last() == old(self).common.elems@,
            is_record_plot(r.common.elems@.last(), PlotType::Boxes, with_color(seq![x@, y@], color_values), options),
            *r == (Axes2D { common: AxesCommonData { elems: r.common.elems, ..old(self).common }, ..*old(self) }),
            *final(self) == *final(r),
    {
        let mut columns: Vec<Vec<u64>> = Vec::new();
        columns.push(x);
        columns.push(y);
        assert(crate::element::columns_view(columns@) =~= seq![x@, y@]);
        self.common.add_plot(PlotType::Boxes, columns, color_values, options);
        self
    }

    /// Plots a bar plot with given box widths. The columns are the bit patterns of 64-bit floats; `color_values`
    /// holds a color value for each point when the options ask for one.
    pub fn boxes_set_width(&mut self, x: Vec<u64>, y: Vec<u64>, w: Vec<u64>, color_values: Option<Vec<u64>>, options: Vec<PlotOption>) -> (r: &mut Self)
        requires
            color_values is Some <==> needs_color_values(options@),
        ensures
            r.common.elems@.len() == old(self).common.elems@.len() + 1,
            r.common.elems@.drop_last() == old(self).common.elems@,
            is_record_plot(r.common.elems@.last(), PlotType::Boxes, with_color(seq![x@, y@, w@], color_values), options),
            *r == (Axes2D { common: AxesCommonData { elems: r.common.elems, ..old(self).common }, ..*old(self) }),
            *final(self) == *final(r),
    {
        let mut columns: Vec<Vec<u64>> = Vec::new();
        columns.push(x);
        columns.push(y);
        columns.push(w);
        assert(crate::element::columns_view(columns@) =~= seq![x@, y@, w@]);
        self.common.add_plot(PlotType::Boxes, columns, color_values, options);
        self
    }

    /// Plots a bar plot with symmetric error bars. The columns are the bit patterns of 64-bit floats; `color_values`
    /// holds a color value for each point when the options ask for one.
    pub fn box_error_delta(&mut self, x: Vec<u64>, y: Vec<u64>, y_error: Vec<u64>, color_values: Option<Vec<u64>>, options: Vec<PlotOption>) -> (r: &mut Self)
        requires
            color_values is Some <==> needs_color_values(options@),
        ensures
            r.common.elems@.len() == old(self).common.elems@.len() + 1,
            r.common.elems@.drop_last() == old(self).common.elems@,
            is_record_plot(r.common.elems@.last(), PlotType::BoxErrorBars, with_color(seq![x@, y@, y_error@], color_values), options),
            *r == (Axes2D { common: AxesCommonData { elems: r.common.elems, ..old(self).common }, ..*old(self) }),
            *final(self) == *final(r),
    {
        let mut columns: Vec<Vec<u64>> = Vec::new();
        columns.push(x);
        columns.push(y);
        columns.push(y_error);
        assert(crate::element::columns_view(columns@) =~= seq![x@, y@, y_error@]);
        self.common.add_plot(PlotType::BoxErrorBars, columns, color_values, options);
        self
    }

    /// Plots a bar plot with symmetric error bars and given box widths. The columns are the bit patterns of 64-bit floats; `color_values`
    /// holds a color value for each point when the options ask for one.
    pub fn box_error_delta_set_width(&mut self, x: Vec<u64>, y: Vec<u64>, y_error: Vec<u64>, x_delta: Vec<u64>, color_values: Option<Vec<u64>>, options: Vec<PlotOption>) -> (r: &mut Self)
        requires
            color_values is Some <==> needs_color_values(options@),
        ensures
            r.common.elems@.len() == old(self).common.elems@.len() + 1,
            r.common.elems@.drop_last() == old(self).common.elems@,
            is_record_plot(r.common.elems@.last(), PlotType::BoxErrorBars, with_color(seq![x@, y@, y_error@, x_delta@], color_values), options),
            *r == (Axes2D { common: AxesCommonData { elems: r.common.elems, ..old(self).common }, ..*old(self) }),
            *final(self) == *final(r),
    {
        let mut columns: Vec<Vec<u64>> = Vec::new();
        columns.push(x);
        columns.push(y);
        columns.push(y_error);
        columns.push(x_delta);
        assert(crate::element::columns_view(columns@) =~= seq![x@, y@, y_error@, x_delta@]);
        self.common.add_plot(PlotType::BoxErrorBars, columns, color_values, options);
        self
    }

    /// Plots a bar plot with error bars from a low to a high value, and given box widths. The columns are the bit patterns of 64-bit floats; `color_values`
    /// holds a color value for each point when the options ask for one.
    pub fn box_error_low_high_set_width(&mut self, x: Vec<u64>, y: Vec<u64>, y_low: Vec<u64>, y_high: Vec<u64>, x_delta: Vec<u64>, color_values: Option<Vec<u64>>, options: Vec<PlotOption>) -> (r: &mut Self)
        requires
            color_values is Some <==> needs_color_values(options@),
        ensures
            r.common.elems@.len() == old(self).common.elems@.len() + 1,
            r.common.elems@.drop_last() == old(self).common.elems@,
            is_record_plot(r.common.elems@.last(), PlotType::BoxErrorBars, with_color(seq![x@, y@, y_low@, y_high@, x_delta@], color_values), options),
            *r == (Axes2D { common: AxesCommonData { elems: r.common.elems, ..old(self).common }, ..*old(self) }),
            *final(self) == *final(r),
    {
        let mut columns: Vec<Vec<u64>> = Vec::new();
        columns.push(x);
        columns.push(y);
        columns.push(y_low);
        columns.push(y_high);
        columns.push(x_delta);
        assert(crate::element::columns_view(columns@) =~= seq![x@, y@, y_low@, y_high@, x_delta@]);
        self.common.add_plot(PlotType::BoxErrorBars, columns, color_values, options);
        self
    }

    /// Plots a box and whisker plot. The columns are the bit patterns of 64-bit floats; `color_values`
    /// holds a color value for each point when the options ask for one.
    pub fn box_and_whisker(&mut self, x: Vec<u64>, box_min: Vec<u64>, whisker_min: Vec<u64>, whisker_max: Vec<u64>, box_max: Vec<u64>, color_values: Option<Vec<u64>>, options: Vec<PlotOption>) -> (r: &mut Self)
        requires
            color_values is Some <==> needs_color_values(options@),
        ensures
            r.common.elems@.len() == old(self).common.elems@.len() + 1,
            r.common.elems@.drop_last() == old(self).common.elems@,
            is_record_plot(r.common.elems@.last(), PlotType::BoxAndWhisker, with_color(seq![x@, box_min@, whisker_min@, whisker_max@, box_max@], color_values), options),
            *r == (Axes2D { common: AxesCommonData { elems: r.common.elems, ..old(self).common }, ..*old(self) }),
            *final(self) == *final(r),
    {
        let mut columns: Vec<Vec<u64>> = Vec::new();
        columns.push(x);
        columns.push(box_min);
        columns.push(whisker_min);
        columns.push(whisker_max);
        columns.push(box_max);
        assert(crate::element::columns_view(columns@) =~= seq![x@, box_min@, whisker_min@, whisker_max@, box_max@]);
        self.common.add_plot(PlotType::BoxAndWhisker, columns, color_values, options);
        self
    }

    /// Plots a box and whisker plot with given box widths. The columns are the bit patterns of 64-bit floats; `color_values`
    /// holds a color value for each point when the options ask for one.
    pub fn box_and_whisker_set_width(&mut self, x: Vec<u64>, box_min: Vec<u64>, whisker_min: Vec<u64>, whisker_max: Vec<u64>, box_max: Vec<u64>, box_width: Vec<u64>, color_values: Option<Vec<u64>>, options: Vec<PlotOption>) -> (r: &mut Self)
        requires
            color_values is Some <==> needs_color_values(options@),
        ensures
            r.common.elems@.len() == old(self).common.elems@.len() + 1,
            r.common.elems@.drop_last() == old(self).common.elems@,
            is_record_plot(r.common.elems@.last(), PlotType::BoxAndWhisker, with_color(seq![x@, box_min@, whisker_min@, whisker_max@, box_max@, box_width@], color_values), options),
            *r == (Axes2D { common: AxesCommonData { elems: r.common.elems, ..old(self).common }, ..*old(self) }),
            *final(self) == *final(r),
    {
        let mut columns: Vec<Vec<u64>> = Vec::new();
        columns.push(x);
        columns.push(box_min);
        columns.push(whisker_min);
        columns.push(whisker_max);
        columns.push(box_max);
        columns.push(box_width);
        assert(crate::element::columns_view(columns@) =~= seq![x@, box_min@, whisker_min@, whisker_max@, box_max@, box_width@]);
        self.common.add_plot(PlotType::BoxAndWhisker, columns, color_values, options);
        self
    }

    /// Plots boxes centered at the points, extending by the deltas. The columns are the bit patterns of 64-bit floats; `color_values`
    /// holds a color value for each point when the options ask for one.
    pub fn box_xy_error_delta(&mut self, x: Vec<u64>, y: Vec<u64>, x_delta: Vec<u64>, y_delta: Vec<u64>, color_values: Option<Vec<u64>>, options: Vec<PlotOption>) -> (r: &mut Self)
        requires
            color_values is Some <==> needs_color_values(options@),
        ensures
            r.common.elems@.len() == old(self).common.elems@.len() + 1,
            r.common.elems@.drop_last() == old(self).common.elems@,
            is_record_plot(r.common.elems@.last(), PlotType::BoxXYError, with_color(seq![x@, y@, x_delta@, y_delta@], color_values), options),
            *r == (Axes2D { common: AxesCommonData { elems: r.common.elems, ..old(self).common }, ..*old(self) }),
            *final(self) == *final(r),
    {
        let mut columns: Vec<Vec<u64>> = Vec::new();
        columns.push(x);
        columns.push(y);
        columns.push(x_delta);
        columns.push(y_delta);
        assert(crate::element::columns_view(columns@) =~= seq![x@, y@, x_delta@, y_delta@]);
        self.common.add_plot(PlotType::BoxXYError, columns, color_values, options);
        self
    }

    /// Plots boxes from low to high values in both directions. The columns are the bit patterns of 64-bit floats; `color_values`
    /// holds a color value for each point when the options ask for one.
    pub fn box_xy_error_low_high(&mut self, x: Vec<u64>, y: Vec<u64>, x_low: Vec<u64>, x_high: Vec<u64>, y_low: Vec<u64>, y_high: Vec<u64>, color_values: Option<Vec<u64>>, options: Vec<PlotOption>) -> (r: &mut Self)
        requires
            color_values is Some <==> needs_color_values(options@),
        ensures
            r.common.elems@.len() == old(self).common.elems@.len() + 1,
            r.common.elems@.drop_last() == old(self).common.elems@,
            is_record_plot(r.common.elems@.last(), PlotType::BoxXYError, with_color(seq![x@, y@, x_low@, x_high@, y_low@, y_high@], color_values), options),
            *r == (Axes2D { common: AxesCommonData { elems: r.common.elems, ..old(self).common }, ..*old(self) }),
            *final(self) == *final(r),
    {
        let mut columns: Vec<Vec<u64>> = Vec::new();
        columns.push(x);
        columns.push(y);
        columns.push(x_low);
        columns.push(x_high);
        columns.push(y_low);
        columns.push(y_high);
        assert(crate::element::columns_view(columns@) =~= seq![x@, y@, x_low@, x_high@, y_low@, y_high@]);
        self.common.add_plot(PlotType::BoxXYError, columns, color_values, options);
        self
    }

    /// Plots a bar plot with error bars from a low to a high value; the boxes get the
    /// default width (gnuplot reads a negative width, here -1, that way).
    pub fn box_error_low_high(&mut self, x: Vec<u64>, y: Vec<u64>, y_low: Vec<u64>, y_high: Vec<u64>, color_values: Option<Vec<u64>>, options: Vec<PlotOption>) -> (r: &mut Self)
        requires
            color_values is Some <==> needs_color_values(options@),
        ensures
            r.common.elems@.len() == old(self).common.elems@.len() + 1,
            r.common.elems@.drop_last() == old(self).common.elems@,
            is_record_plot(
                r.common.elems@.last(),
                PlotType::BoxErrorBars,
                with_color(seq![x@, y@, y_low@, y_high@, neg_ones(shortest(with_color(seq![x@, y@, y_low@, y_high@], color_values)))], color_values),
                options,
            ),
            *r == (Axes2D { common: AxesCommonData { elems: r.common.elems, ..old(self).common }, ..*old(self) }),
            *final(self) == *final(r),
    {
        let ghost a = seq![x@, y@, y_low@, y_high@];
        let mut probe: Vec<Vec<u64>> = Vec::new();
        probe.push(x);
        probe.push(y);
        probe.push(y_low);
        probe.push(y_high);
        let n = match &color_values {
            Some(c) => {
                let k = shortest_len(&probe);
                if c.len() < k { c.len() } else { k }
            },
            None => shortest_len(&probe),
        };
        proof {
            assert(columns_view(probe@) =~= a);
            if color_values is Some {
                assert(with_color(a, color_values).drop_last() =~= a);
            }
        }
        let mut dummy: Vec<u64> = Vec::new();
        while dummy.len() < n
            invariant
                dummy@.len() <= n,
                forall|i: int| 0 <= i < dummy@.len() ==> dummy@[i] == NEG_ONE_BITS,
            decreases n - dummy@.len(),
        {
            dummy.push(NEG_ONE_BITS);
        }
        assert(dummy@ =~= neg_ones(n as nat));
        probe.push(dummy);
        proof {
            assert(columns_view(probe@) =~= a.push(neg_ones(n as nat)));
            assert(n == shortest(with_color(a, color_values)));
            lemma_shortest_with_extra(a, neg_ones(n as nat), color_values);
            assert(seq![x@, y@, y_low@, y_high@, neg_ones(n as nat)] =~= a.push(neg_ones(n as nat)));
        }
        self.common.add_plot(PlotType::BoxErrorBars, probe, color_values, options);
        self
    }

    /// Plots an image of a matrix, `num_rows` by `num_cols`, row by row, over the given
    /// extent; missing values are NaN.
    pub fn image(&mut self, mat: Vec<u64>, num_rows: usize, num_cols: usize, dimensions: Option<ArrayExtent>, options: Vec<PlotOption>) -> (r: &mut Self)
        requires
            num_rows * num_cols <= usize::MAX,
        ensures
            r.common.elems@.len() == old(self).common.elems@.len() + 1,
            r.common.elems@.drop_last() == old(self).common.elems@,
            is_matrix_plot(r.common.elems@.last(), PlotType::Image, false, mat@, num_rows, num_cols, dimensions, options),
            *r == (Axes2D { common: AxesCommonData { elems: r.common.elems, ..old(self).common }, ..*old(self) }),
            *final(self) == *final(r),
    {
        self.common.add_matrix(PlotType::Image, false, mat, num_rows, num_cols, dimensions, options);
        self
    }

    /// The script text of the axes before the plot command: their settings, border, grid,
    /// arrows and legend.
    pub open spec fn settings_text(&self, auto_layout: bool, version: GnuplotVersion) -> Seq<char> {
        self.common.commands_text(auto_layout, version) + self.border_options.commands_text(version)
            + self.common.grid_text(grid_axes_of(self.common), version) + arrows_text(self.arrows@)
            + legend_text(self.legend)
    }

    /// The script text of the axes: their settings, border, grid, arrows and legend, then
    /// the plot command.
    pub open spec fn script_text(&self, dir: Option<Seq<char>>, auto_layout: bool, version: GnuplotVersion) -> Seq<char> {
        self.settings_text(auto_layout, version) + self.common.elements_text("plot"@, dir, version)
    }

    fn write_settings(&self, w: &mut String, auto_layout: bool, version: GnuplotVersion)
        requires
            self.common.writable(),
        ensures
            final(w)@ == old(w)@ + self.settings_text(auto_layout, version),
    {
        let ghost start = w@;
        self.common.write_out_commands(w, auto_layout, version);
        self.border_options.write_out(w, version);
        let axes = grid_axes(&self.common);
        self.common.write_grid_options(w, &axes, version);
        write_arrows(w, &self.arrows);
        match &self.legend {
            Some(l) => l.write_out(w),
            None => {},
        }
        assert(w@ =~= start + self.settings_text(auto_layout, version));
    }

    /// Appends the script text of the axes.
    pub fn write_out_text(&self, data_directory: Option<&str>, w: &mut String, auto_layout: bool, version: GnuplotVersion)
        requires
            self.common.writable(),
        ensures
            final(w)@ == old(w)@ + self.script_text(dir_view(data_directory), auto_layout, version),
    {
        let ghost start = w@;
        self.write_settings(w, auto_layout, version);
        self.common.write_elements_text("plot", data_directory, w, version);
        assert(w@ =~= start + self.script_text(dir_view(data_directory), auto_layout, version));
    }

    /// The bytes the axes add to a script: their text, then, unless the data goes to
    /// files, the data of all elements.
    pub open spec fn script_bytes(&self, dir: Option<Seq<char>>, auto_layout: bool, version: GnuplotVersion) -> Seq<u8> {
        vstd::utf8::encode_utf8(self.script_text(dir, auto_layout, version))
            + if dir is None { elements_data(self.common.elems@, self.common.elems@.len()) } else { Seq::empty() }
    }

    /// Appends the axes to a script.
    pub fn write_out(&self, data_directory: Option<&str>, w: &mut Vec<u8>, auto_layout: bool, version: GnuplotVersion)
        requires
            self.common.writable(),
        ensures
            final(w)@ == old(w)@ + self.script_bytes(dir_view(data_directory), auto_layout, version),
    {
        let ghost start = w@;
        let ghost dir = dir_view(data_directory);
        let mut text = String::new();
        self.write_settings(&mut text, auto_layout, version);
        put_bytes(w, text.as_str());
        self.common.write_out_elements("plot", data_directory, w, version);
        proof {
            lemma_encode_utf8_append(self.settings_text(auto_layout, version), self.common.elements_text("plot"@, dir, version));
        }
        assert(w@ =~= start + self.script_bytes(dir, auto_layout, version));
    }

    /// The commands that undo the axes' free labels, arrows and legend.
    pub open spec fn reset_text(&self) -> Seq<char> {
        self.common.reset_text() + arrows_reset_text(self.arrows@) + match self.legend {
            Some(l) => "unset key\n"@,
            None => Seq::empty(),
        }
    }

    /// Appends the commands that undo the axes' free labels, arrows and legend.
    pub fn reset_state(&self, w: &mut String)
        ensures
            final(w)@ == old(w)@ + self.reset_text(),
    {
        let ghost start = w@;
        self.common.reset_state(w);
        reset_arrows(w, &self.arrows);
        match &self.legend {
            Some(l) => l.reset_state(w),
            None => {},
        }
        assert(w@ =~= start + self.reset_text());
    }
}

impl AxesCommon for Axes2D {
    open spec fn common(&self) -> AxesCommonData {
        self.common
    }

    open spec fn same_rest(&self, other: &Self) -> bool {
        &&& self.border_options == other.border_options
        &&& self.arrows == other.arrows
        &&& self.legend == other.legend
    }

    fn get_common_data(&self) -> (r: &AxesCommonData) {
        &self.common
    }

    fn get_common_data_mut(&mut self) -> (r: &mut AxesCommonData) {
        &mut self.common
    }
}

} // verus!
