//! A figure: a sequence of axes and the terminal settings, written out as one gnuplot script.
use vstd::prelude::*;
use crate::axes2d::Axes2D;
use crate::axes3d::Axes3D;
use crate::axes_polar::AxesPolar;
use crate::number::Real;
use crate::options::{GnuplotVersion, MultiplotFillDirection, MultiplotFillOrder};
use crate::text::{dec_nat, lemma_parts, put, put_bytes, put_u64, starts_with};

verus! {

/// One entry of a figure: a set of axes, or the start of a new page.
pub enum AxesVariant {
    Axes2DType(Axes2D),
    Axes3DType(Axes3D),
    AxesPolarType(AxesPolar),
    NewPage,
}

impl AxesVariant {
    /// Whether the entry can be written out.
    pub open spec fn writable(&self) -> bool {
        match self {
            AxesVariant::Axes2DType(a) => a.common.writable(),
            AxesVariant::Axes3DType(a) => a.common.elems@.len() > 0 ==> a.writable(),
            AxesVariant::AxesPolarType(a) => a.common.writable(),
            AxesVariant::NewPage => true,
        }
    }

    /// Whether the entry can be written out.
    pub fn is_writable(&self) -> (r: bool)
        ensures
            r == self.writable(),
    {
        match self {
            AxesVariant::Axes2DType(a) => a.common.is_writable(),
            AxesVariant::Axes3DType(a) => a.common.elems.len() == 0 || a.is_writable(),
            AxesVariant::AxesPolarType(a) => a.common.is_writable(),
            AxesVariant::NewPage => true,
        }
    }

    /// The bytes the entry adds to the script.
    pub open spec fn script_bytes(&self, auto_layout: bool, version: GnuplotVersion) -> Seq<u8> {
        match self {
            AxesVariant::Axes2DType(a) => a.script_bytes(None, auto_layout, version),
            AxesVariant::Axes3DType(a) => a.script_bytes(auto_layout, version),
            AxesVariant::AxesPolarType(a) => a.script_bytes(auto_layout, version),
            AxesVariant::NewPage => vstd::utf8::encode_utf8("unset multiplot\nset multiplot\n"@),
        }
    }

    /// Appends the entry to the script.
    pub fn write_out(&self, w: &mut Vec<u8>, auto_layout: bool, version: GnuplotVersion)
        requires
            self.writable(),
        ensures
            final(w)@ == old(w)@ + self.script_bytes(auto_layout, version),
    {
        match self {
            AxesVariant::Axes2DType(a) => a.write_out(None, w, auto_layout, version),
            AxesVariant::Axes3DType(a) => a.write_out(w, auto_layout, version),
            AxesVariant::AxesPolarType(a) => a.write_out(w, auto_layout, version),
            AxesVariant::NewPage => put_bytes(w, "unset multiplot\nset multiplot\n"),
        }
    }

    /// The commands that undo what the entry set and the next entry must not inherit.
    pub open spec fn reset_text(&self) -> Seq<char> {
        match self {
            AxesVariant::Axes2DType(a) => a.reset_text(),
            AxesVariant::Axes3DType(a) => a.reset_text(),
            AxesVariant::AxesPolarType(a) => a.reset_text(),
            AxesVariant::NewPage => Seq::empty(),
        }
    }

    /// Appends the commands that undo what the entry set.
    pub fn reset_state(&self, w: &mut String)
        ensures
            final(w)@ == old(w)@ + self.reset_text(),
    {
        match self {
            AxesVariant::Axes2DType(a) => a.reset_state(w),
            AxesVariant::Axes3DType(a) => a.reset_state(w),
            AxesVariant::AxesPolarType(a) => a.reset_state(w),
            AxesVariant::NewPage => {},
        }
    }
}

/// The layout of several plots on one page.
pub struct MultiplotOptions {
    pub rows: usize,
    pub columns: usize,
    pub title: Option<String>,
    /// Horizontal and vertical scale applied to each plot.
    pub scale: Option<(Real, Real)>,
    /// Horizontal and vertical offset applied to each plot.
    pub offset: Option<(Real, Real)>,
    pub fill_order: Option<MultiplotFillOrder>,
    pub fill_direction: Option<MultiplotFillDirection>,
}

/// The layout of one plot per page and nothing else set.
pub open spec fn default_multiplot() -> MultiplotOptions {
    MultiplotOptions {
        rows: 1,
        columns: 1,
        title: None,
        scale: None,
        offset: None,
        fill_order: None,
        fill_direction: None,
    }
}

/// The layout options as they are, or the default ones where none were set.
pub open spec fn multiplot_or_default(m: Option<MultiplotOptions>) -> MultiplotOptions {
    match m {
        Some(m) => m,
        None => default_multiplot(),
    }
}

impl MultiplotOptions {
    /// One plot per page and nothing else set.
    pub fn new() -> (r: MultiplotOptions)
        ensures
            r == default_multiplot(),
    {
        MultiplotOptions {
            rows: 1,
            columns: 1,
            title: None,
            scale: None,
            offset: None,
            fill_order: None,
            fill_direction: None,
        }
    }

    /// The options of `set multiplot`, each after a space.
    pub open spec fn layout_text(&self) -> Seq<char> {
        " layout "@ + dec_nat(self.rows as nat) + ","@ + dec_nat(self.columns as nat)
            + fill_order_text(self.fill_order) + fill_direction_text(self.fill_direction)
            + title_text(self.title) + pair_text(" scale "@, self.scale) + pair_text(" offset "@, self.offset)
    }

    /// Appends the options of `set multiplot`.
    pub fn write_layout(&self, w: &mut String)
        ensures
            final(w)@ == old(w)@ + self.layout_text(),
    {
        let ghost start = w@;
        put(w, " layout ");
        put_u64(w, self.rows as u64);
        put(w, ",");
        put_u64(w, self.columns as u64);
        write_fill_order(w, &self.fill_order);
        write_fill_direction(w, &self.fill_direction);
        write_title(w, &self.title);
        write_pair(w, " scale ", &self.scale);
        write_pair(w, " offset ", &self.offset);
        assert(w@ =~= start + self.layout_text());
    }
}

/// The layout options name, right after the rows and columns, the fill order that was
/// set: `columnsfirst` or `rowsfirst`; and the fill direction right after it: `downwards`
/// or `upwards`.
pub proof fn lemma_fill_order_written(m: MultiplotOptions, o: MultiplotFillOrder, d: MultiplotFillDirection)
    requires
        m.fill_order == Some(o),
        m.fill_direction == Some(d),
    ensures
        starts_with(m.layout_text(), " layout "@ + dec_nat(m.rows as nat) + ","@ + dec_nat(m.columns as nat)
            + (if o == MultiplotFillOrder::ColumnsFirst { " columnsfirst"@ } else { " rowsfirst"@ })
            + (if d == MultiplotFillDirection::Downwards { " downwards"@ } else { " upwards"@ })),
{
    let head = " layout "@ + dec_nat(m.rows as nat) + ","@ + dec_nat(m.columns as nat)
        + fill_order_text(m.fill_order) + fill_direction_text(m.fill_direction);
    let rest = title_text(m.title) + pair_text(" scale "@, m.scale) + pair_text(" offset "@, m.offset);
    assert(m.layout_text() =~= head + rest);
    lemma_parts(head, rest);
}

/// The fill order option of `set multiplot`.
pub open spec fn fill_order_text(o: Option<MultiplotFillOrder>) -> Seq<char> {
    match o {
        None => Seq::empty(),
        Some(MultiplotFillOrder::RowsFirst) => " rowsfirst"@,
        Some(MultiplotFillOrder::ColumnsFirst) => " columnsfirst"@,
    }
}

fn write_fill_order(w: &mut String, o: &Option<MultiplotFillOrder>)
    ensures
        final(w)@ == old(w)@ + fill_order_text(*o),
{
    match o {
        None => {},
        Some(MultiplotFillOrder::RowsFirst) => put(w, " rowsfirst"),
        Some(MultiplotFillOrder::ColumnsFirst) => put(w, " columnsfirst"),
    }
}

/// The fill direction option of `set multiplot`.
pub open spec fn fill_direction_text(d: Option<MultiplotFillDirection>) -> Seq<char> {
    match d {
        None => Seq::empty(),
        Some(MultiplotFillDirection::Downwards) => " downwards"@,
        Some(MultiplotFillDirection::Upwards) => " upwards"@,
    }
}

fn write_fill_direction(w: &mut String, d: &Option<MultiplotFillDirection>)
    ensures
        final(w)@ == old(w)@ + fill_direction_text(*d),
{
    match d {
        None => {},
        Some(MultiplotFillDirection::Downwards) => put(w, " downwards"),
        Some(MultiplotFillDirection::Upwards) => put(w, " upwards"),
    }
}

/// The title option of `set multiplot`, quoted as it is.
pub open spec fn title_text(t: Option<String>) -> Seq<char> {
    match t {
        None => Seq::empty(),
        Some(t) => " title \""@ + t@ + "\""@,
    }
}

fn write_title(w: &mut String, t: &Option<String>)
    ensures
        final(w)@ == old(w)@ + title_text(*t),
{
    let ghost start = w@;
    match t {
        None => {},
        Some(t) => {
            put(w, " title \"");
            put(w, t.as_str());
            put(w, "\"");
        },
    }
    assert(w@ =~= start + title_text(*t));
}

/// An option of `set multiplot` with two numbers.
pub open spec fn pair_text(name: Seq<char>, p: Option<(Real, Real)>) -> Seq<char> {
    match p {
        None => Seq::empty(),
        Some((x, y)) => name + x.plain@ + ","@ + y.plain@,
    }
}

fn write_pair(w: &mut String, name: &str, p: &Option<(Real, Real)>)
    ensures
        final(w)@ == old(w)@ + pair_text(name@, *p),
{
    let ghost start = w@;
    match p {
        None => {},
        Some((x, y)) => {
            put(w, name);
            put(w, x.plain.as_str());
            put(w, ",");
            put(w, y.plain.as_str());
        },
    }
    assert(w@ =~= start + pair_text(name@, *p));
}

/// The file formats a figure can be saved in.
#[derive(Copy, Clone, Debug, PartialEq, Eq, Structural)]
pub enum SaveFormat {
    Png,
    Svg,
    Pdf,
    Eps,
    Canvas,
}

/// The gnuplot terminal that writes a format.
pub open spec fn save_terminal_name(format: SaveFormat) -> Seq<char> {
    match format {
        SaveFormat::Png => "pngcairo"@,
        SaveFormat::Svg => "svg"@,
        SaveFormat::Pdf => "pdfcairo"@,
        SaveFormat::Eps => "epscairo"@,
        SaveFormat::Canvas => "canvas"@,
    }
}

/// The terminal setting that saves in a format at a size: pixels for the bitmap, vector
/// and canvas formats, inches for PDF and EPS.
pub open spec fn save_terminal_text(format: SaveFormat, width: u32, height: u32) -> Seq<char> {
    save_terminal_name(format) + " size "@ + dec_nat(width as nat) + ","@ + dec_nat(height as nat)
}

/// The version assumed where none was set: 5.0.
pub open spec fn default_version() -> GnuplotVersion {
    GnuplotVersion { major: 5, minor: 0 }
}

/// A figure that may contain several axes.
pub struct Figure {
    pub axes: Vec<AxesVariant>,
    pub terminal: String,
    pub enhanced_text: bool,
    pub output_file: String,
    pub post_commands: String,
    pub pre_commands: String,
    pub version: Option<GnuplotVersion>,
    pub multiplot_options: Option<MultiplotOptions>,
}

/// Saving to a file and restoring the target afterwards gives the figure back its own
/// terminal and output file and leaves everything else as it was.
pub proof fn lemma_restore_undoes_save(
    before: Figure,
    during: Figure,
    after: Figure,
    former: (String, String),
    format: SaveFormat,
    path: Seq<char>,
    width: u32,
    height: u32,
)
    requires
        Figure::saved_to(before, during, former, format, path, width, height),
        Figure::restored_from(during, after, former),
    ensures
        after.terminal@ == before.terminal@,
        after.output_file@ == before.output_file@,
        after.same_but_target(&before),
{
}

/// A figure whose axes were cleared writes its pre-commands alone, whatever else it holds.
pub proof fn lemma_cleared_figure_script(before: Figure, after: Figure)
    requires
        after.axes@.len() == 0,
        after.settings_equal(&before),
    ensures
        after.script() == vstd::utf8::encode_utf8(before.pre_commands@ + "\n"@),
{
}

/// The bytes of the first `n` entries: each entry after the first is preceded by the
/// commands that undo the one before it.
pub open spec fn entries_bytes(axes: Seq<AxesVariant>, n: nat, auto_layout: bool, version: GnuplotVersion) -> Seq<u8>
    decreases n,
{
    if n == 0 {
        Seq::empty()
    } else {
        entries_bytes(axes, (n - 1) as nat, auto_layout, version)
            + (if n > 1 { vstd::utf8::encode_utf8(axes[n - 2].reset_text()) } else { Seq::empty() })
            + axes[n - 1].script_bytes(auto_layout, version)
    }
}

impl Figure {
    /// Everything but the fields that the caller names stays as it was.
    pub open spec fn settings_equal(&self, other: &Figure) -> bool {
        &&& self.terminal@ == other.terminal@
        &&& self.enhanced_text == other.enhanced_text
        &&& self.output_file@ == other.output_file@
        &&& self.post_commands@ == other.post_commands@
        &&& self.pre_commands@ == other.pre_commands@
        &&& self.version == other.version
    }

    /// An empty figure: no axes, no terminal or output file, enhanced text.
    pub fn new() -> (r: Figure)
        ensures
            r.axes@.len() == 0,
            r.terminal@.len() == 0,
            r.enhanced_text,
            r.output_file@.len() == 0,
            r.post_commands@.len() == 0,
            r.pre_commands@.len() == 0,
            r.version is None,
            r.multiplot_options is None,
    {
        Figure {
            axes: Vec::new(),
            terminal: String::new(),
            enhanced_text: true,
            output_file: String::new(),
            post_commands: String::new(),
            pre_commands: String::new(),
            version: None,
            multiplot_options: None,
        }
    }

    /// Sets the terminal gnuplot uses and the file it writes to; a terminal that opens a
    /// window needs no file, and an empty name sets none.
    pub fn set_terminal(&mut self, terminal: &str, output_file: &str) -> (r: &mut Self)
        ensures
            r.terminal@ == terminal@,
            r.output_file@ == output_file@,
            r.axes == old(self).axes,
            r.enhanced_text == old(self).enhanced_text,
            r.post_commands@ == old(self).post_commands@,
            r.pre_commands@ == old(self).pre_commands@,
            r.version == old(self).version,
            r.multiplot_options == old(self).multiplot_options,
            *final(self) == *final(r),
    {
        self.terminal = String::from_str(terminal);
        self.output_file = String::from_str(output_file);
        self
    }

    /// Turns gnuplot's text enhancements on or off.
    pub fn set_enhanced_text(&mut self, enhanced: bool) -> (r: &mut Self)
        ensures
            *r == (Figure { enhanced_text: enhanced, ..*old(self) }),
            *final(self) == *final(r),
    {
        self.enhanced_text = enhanced;
        self
    }

    /// Sets the commands sent to gnuplot after all the plotting commands.
    pub fn set_post_commands(&mut self, post_commands: &str) -> (r: &mut Self)
        ensures
            r.post_commands@ == post_commands@,
            r.terminal@ == old(self).terminal@,
            r.output_file@ == old(self).output_file@,
            r.axes == old(self).axes,
            r.enhanced_text == old(self).enhanced_text,
            r.pre_commands@ == old(self).pre_commands@,
            r.version == old(self).version,
            r.multiplot_options == old(self).multiplot_options,
            *final(self) == *final(r),
    {
        self.post_commands = String::from_str(post_commands);
        self
    }

    /// Sets the commands sent to gnuplot before any plotting commands.
    pub fn set_pre_commands(&mut self, pre_commands: &str) -> (r: &mut Self)
        ensures
            r.pre_commands@ == pre_commands@,
            r.terminal@ == old(self).terminal@,
            r.output_file@ == old(self).output_file@,
            r.axes == old(self).axes,
            r.enhanced_text == old(self).enhanced_text,
            r.post_commands@ == old(self).post_commands@,
            r.version == old(self).version,
            r.multiplot_options == old(self).multiplot_options,
            *final(self) == *final(r),
    {
        self.pre_commands = String::from_str(pre_commands);
        self
    }

    /// Sets the gnuplot version the script is written for; `None` means the default, 5.0.
    pub fn set_gnuplot_version(&mut self, version: Option<GnuplotVersion>) -> (r: &mut Self)
        ensures
            *r == (Figure { version, ..*old(self) }),
            *final(self) == *final(r),
    {
        self.version = version;
        self
    }

    /// The gnuplot version the script is written for.
    pub open spec fn version_or_default(&self) -> GnuplotVersion {
        match self.version {
            Some(v) => v,
            None => default_version(),
        }
    }

    /// The gnuplot version the script is written for: the one set, else 5.0.
    pub fn get_gnuplot_version(&self) -> (r: GnuplotVersion)
        ensures
            r == self.version_or_default(),
    {
        match &self.version {
            Some(v) => GnuplotVersion { major: v.major, minor: v.minor },
            None => GnuplotVersion { major: 5, minor: 0 },
        }
    }

    /// Sets the number of rows and columns of the multiplot layout.
    pub fn set_multiplot_layout(&mut self, rows: usize, columns: usize) -> (r: &mut Self)
        ensures
            r.multiplot_options == Some(MultiplotOptions { rows, columns, ..multiplot_or_default(old(self).multiplot_options) }),
            r.settings_equal(old(self)),
            r.axes == old(self).axes,
            *final(self) == *final(r),
    {
        let mut m = match self.multiplot_options.take() {
            Some(m) => m,
            None => MultiplotOptions::new(),
        };
        m.rows = rows;
        m.columns = columns;
        self.multiplot_options = Some(m);
        self
    }

    /// Sets the title of the multiplot.
    pub fn set_title(&mut self, title: &str) -> (r: &mut Self)
        ensures
            r.multiplot_options matches Some(m) && m.title matches Some(t) && t@ == title@,
            r.multiplot_options matches Some(m) && m == (MultiplotOptions { title: m.title, ..multiplot_or_default(old(self).multiplot_options) }),
            r.settings_equal(old(self)),
            r.axes == old(self).axes,
            *final(self) == *final(r),
    {
        let mut m = match self.multiplot_options.take() {
            Some(m) => m,
            None => MultiplotOptions::new(),
        };
        m.title = Some(String::from_str(title));
        self.multiplot_options = Some(m);
        self
    }

    /// Sets the horizontal and vertical scale of each plot.
    pub fn set_scale(&mut self, scale_x: Real, scale_y: Real) -> (r: &mut Self)
        ensures
            r.multiplot_options == Some(MultiplotOptions { scale: Some((scale_x, scale_y)), ..multiplot_or_default(old(self).multiplot_options) }),
            r.settings_equal(old(self)),
            r.axes == old(self).axes,
            *final(self) == *final(r),
    {
        let mut m = match self.multiplot_options.take() {
            Some(m) => m,
            None => MultiplotOptions::new(),
        };
        m.scale = Some((scale_x, scale_y));
        self.multiplot_options = Some(m);
        self
    }

    /// Sets the horizontal and vertical offset of each plot.
    pub fn set_offset(&mut self, offset_x: Real, offset_y: Real) -> (r: &mut Self)
        ensures
            r.multiplot_options == Some(MultiplotOptions { offset: Some((offset_x, offset_y)), ..multiplot_or_default(old(self).multiplot_options) }),
            r.settings_equal(old(self)),
            r.axes == old(self).axes,
            *final(self) == *final(r),
    {
        let mut m = match self.multiplot_options.take() {
            Some(m) => m,
            None => MultiplotOptions::new(),
        };
        m.offset = Some((offset_x, offset_y));
        self.multiplot_options = Some(m);
        self
    }

    /// Sets the order in which plots fill the layout.
    pub fn set_multiplot_fill_order(&mut self, order: MultiplotFillOrder, direction: MultiplotFillDirection) -> (r: &mut Self)
        ensures
            r.multiplot_options == Some(MultiplotOptions {
                fill_order: Some(order),
                fill_direction: Some(direction),
                ..multiplot_or_default(old(self).multiplot_options)
            }),
            r.settings_equal(old(self)),
            r.axes == old(self).axes,
            *final(self) == *final(r),
    {
        let mut m = match self.multiplot_options.take() {
            Some(m) => m,
            None => MultiplotOptions::new(),
        };
        m.fill_order = Some(order);
        m.fill_direction = Some(direction);
        self.multiplot_options = Some(m);
        self
    }

    /// Adds a set of 2D axes and hands them out.
    pub fn axes2d(&mut self) -> (r: &mut Axes2D)
        ensures
            r.is_new(),
            final(self).axes@ == old(self).axes@.push(AxesVariant::Axes2DType(*final(r))),
            final(self).settings_equal(old(self)),
            final(self).multiplot_options == old(self).multiplot_options,
    {
        self.axes.push(AxesVariant::Axes2DType(Axes2D::new()));
        let l = self.axes.len();
        match &mut self.axes[l - 1] {
            AxesVariant::Axes2DType(a) => a,
            _ => vstd::pervasive::unreached(),
        }
    }

    /// Adds a set of 3D axes and hands them out.
    pub fn axes3d(&mut self) -> (r: &mut Axes3D)
        ensures
            r.is_new(),
            final(self).axes@ == old(self).axes@.push(AxesVariant::Axes3DType(*final(r))),
            final(self).settings_equal(old(self)),
            final(self).multiplot_options == old(self).multiplot_options,
    {
        self.axes.push(AxesVariant::Axes3DType(Axes3D::new()));
        let l = self.axes.len();
        match &mut self.axes[l - 1] {
            AxesVariant::Axes3DType(a) => a,
            _ => vstd::pervasive::unreached(),
        }
    }

    /// Adds a set of polar axes and hands them out.
    pub fn axes_polar(&mut self) -> (r: &mut AxesPolar)
        ensures
            r.is_new(),
            final(self).axes@ == old(self).axes@.push(AxesVariant::AxesPolarType(*final(r))),
            final(self).settings_equal(old(self)),
            final(self).multiplot_options == old(self).multiplot_options,
    {
        self.axes.push(AxesVariant::AxesPolarType(AxesPolar::new()));
        let l = self.axes.len();
        match &mut self.axes[l - 1] {
            AxesVariant::AxesPolarType(a) => a,
            _ => vstd::pervasive::unreached(),
        }
    }

    /// Starts a new page (for terminals with several pages or frames, such as an
    /// animation). Call it between pages only: each figure starts on a page of its own.
    pub fn new_page(&mut self) -> (r: &mut Self)
        ensures
            r.axes@ == old(self).axes@.push(AxesVariant::NewPage),
            r.settings_equal(old(self)),
            r.multiplot_options == old(self).multiplot_options,
            *final(self) == *final(r),
    {
        self.axes.push(AxesVariant::NewPage);
        self
    }

    /// Removes all axes.
    pub fn clear_axes(&mut self) -> (r: &mut Self)
        ensures
            r.axes@.len() == 0,
            r.settings_equal(old(self)),
            r.multiplot_options == old(self).multiplot_options,
            *final(self) == *final(r),
    {
        self.axes.clear();
        self
    }

    /// Everything but the terminal and the output file is the same in both figures.
    pub open spec fn same_but_target(&self, other: &Figure) -> bool {
        &&& self.axes == other.axes
        &&& self.enhanced_text == other.enhanced_text
        &&& self.post_commands@ == other.post_commands@
        &&& self.pre_commands@ == other.pre_commands@
        &&& self.version == other.version
        &&& self.multiplot_options == other.multiplot_options
    }

    /// `after` is `before` pointed at a file of the given format, size and path, and
    /// `former` holds the terminal and output file of `before`.
    pub open spec fn saved_to(before: Figure, after: Figure, former: (String, String), format: SaveFormat, path: Seq<char>, width: u32, height: u32) -> bool {
        &&& former.0@ == before.terminal@
        &&& former.1@ == before.output_file@
        &&& after.terminal@ == save_terminal_text(format, width, height)
        &&& after.output_file@ == path
        &&& after.same_but_target(&before)
    }

    /// `after` is `before` with the terminal and output file of `former`.
    pub open spec fn restored_from(before: Figure, after: Figure, former: (String, String)) -> bool {
        &&& after.terminal@ == former.0@
        &&& after.output_file@ == former.1@
        &&& after.same_but_target(&before)
    }

    /// Points the figure at a file in a format of the given size, and hands back the
    /// terminal and output file it had, for `restore_target`.
    pub fn set_save_target(&mut self, format: SaveFormat, file_path: &str, width: u32, height: u32) -> (former: (String, String))
        ensures
            Figure::saved_to(*old(self), *final(self), former, format, file_path@, width, height),
    {
        let mut terminal = String::new();
        match format {
            SaveFormat::Png => put(&mut terminal, "pngcairo"),
            SaveFormat::Svg => put(&mut terminal, "svg"),
            SaveFormat::Pdf => put(&mut terminal, "pdfcairo"),
            SaveFormat::Eps => put(&mut terminal, "epscairo"),
            SaveFormat::Canvas => put(&mut terminal, "canvas"),
        }
        put(&mut terminal, " size ");
        put_u64(&mut terminal, width as u64);
        put(&mut terminal, ",");
        put_u64(&mut terminal, height as u64);
        assert(terminal@ =~= save_terminal_text(format, width, height));
        let mut former_terminal = terminal;
        std::mem::swap(&mut former_terminal, &mut self.terminal);
        let mut former_output = String::from_str(file_path);
        std::mem::swap(&mut former_output, &mut self.output_file);
        (former_terminal, former_output)
    }

    /// Gives the figure back the terminal and output file that `set_save_target` handed out.
    pub fn restore_target(&mut self, former: (String, String))
        ensures
            Figure::restored_from(*old(self), *final(self), former),
    {
        let (terminal, output_file) = former;
        self.terminal = terminal;
        self.output_file = output_file;
    }

    /// Whether every entry can be written out.
    pub open spec fn writable(&self) -> bool {
        forall|i: int| 0 <= i < self.axes@.len() ==> #[trigger] self.axes@[i].writable()
    }

    /// Whether every entry can be written out.
    pub fn is_writable(&self) -> (r: bool)
        ensures
            r == self.writable(),
    {
        let mut i: usize = 0;
        while i < self.axes.len()
            invariant
                i <= self.axes@.len(),
                forall|j: int| 0 <= j < i ==> #[trigger] self.axes@[j].writable(),
            decreases self.axes@.len() - i,
        {
            if !self.axes[i].is_writable() {
                return false;
            }
            i = i + 1;
        }
        true
    }

    /// The script text before the first entry.
    pub open spec fn header_text(&self) -> Seq<char> {
        self.pre_commands@ + "\n"@ + "set encoding utf8\n"@ + self.output_text()
            + "set termoption dashed\n"@
            + (if self.enhanced_text { "set termoption enhanced\n"@ } else { "set termoption noenhanced\n"@ })
            + "set multiplot"@
            + match self.multiplot_options { Some(m) => m.layout_text(), None => Seq::empty() }
            + "\n"@ + "set tics front\n"@
    }

    /// The commands that choose the terminal and the output file, where they are set.
    pub open spec fn output_text(&self) -> Seq<char> {
        (if self.terminal@.len() > 0 { "set terminal "@ + self.terminal@ + "\n"@ } else { Seq::empty() })
            + (if self.output_file@.len() > 0 { "set output \""@ + self.output_file@ + "\"\n"@ } else { Seq::empty() })
    }

    fn write_output(&self, w: &mut String)
        ensures
            final(w)@ == old(w)@ + self.output_text(),
    {
        let ghost start = w@;
        if !self.terminal.as_str().is_empty() {
            put(w, "set terminal ");
            put(w, self.terminal.as_str());
            put(w, "\n");
        }
        let ghost mid = w@;
        if !self.output_file.as_str().is_empty() {
            put(w, "set output \"");
            put(w, self.output_file.as_str());
            put(w, "\"\n");
        }
        assert(w@ =~= start + self.output_text());
    }

    /// The script text after the last entry.
    pub open spec fn footer_text(&self) -> Seq<char> {
        "unset multiplot\n"@ + self.post_commands@ + "\n"@
    }

    /// The script that, piped to gnuplot, draws the figure. Without axes it is the
    /// pre-commands alone.
    pub open spec fn script(&self) -> Seq<u8> {
        if self.axes@.len() == 0 {
            vstd::utf8::encode_utf8(self.pre_commands@ + "\n"@)
        } else {
            vstd::utf8::encode_utf8(self.header_text())
                + entries_bytes(self.axes@, self.axes@.len(), self.multiplot_options is Some, self.version_or_default())
                + vstd::utf8::encode_utf8(self.footer_text())
        }
    }

    fn write_header(&self, w: &mut String)
        ensures
            final(w)@ == old(w)@ + self.header_text(),
    {
        let ghost start = w@;
        put(w, self.pre_commands.as_str());
        put(w, "\n");
        put(w, "set encoding utf8\n");
        self.write_output(w);
        put(w, "set termoption dashed\n");
        if self.enhanced_text {
            put(w, "set termoption enhanced\n");
        } else {
            put(w, "set termoption noenhanced\n");
        }
        put(w, "set multiplot");
        match &self.multiplot_options {
            Some(m) => m.write_layout(w),
            None => {},
        }
        put(w, "\n");
        put(w, "set tics front\n");
        assert(w@ =~= start + self.header_text());
    }

    /// Writes the script that, piped to gnuplot, draws the figure.
    pub fn echo(&self, w: &mut Vec<u8>) -> (r: &Self)
        requires
            self.writable(),
        ensures
            final(w)@ == old(w)@ + self.script(),
            r == self,
    {
        let ghost start = w@;
        if self.axes.len() == 0 {
            let mut text = String::new();
            put(&mut text, self.pre_commands.as_str());
            put(&mut text, "\n");
            put_bytes(w, text.as_str());
            return self;
        }
        let mut header = String::new();
        self.write_header(&mut header);
        put_bytes(w, header.as_str());
        let ghost mid = w@;
        let auto_layout = self.multiplot_options.is_some();
        let version = self.get_gnuplot_version();
        let mut i: usize = 0;
        while i < self.axes.len()
            invariant
                i <= self.axes@.len(),
                self.writable(),
                auto_layout == (self.multiplot_options is Some),
                version == self.version_or_default(),
                w@ == mid + entries_bytes(self.axes@, i as nat, auto_layout, version),
            decreases self.axes@.len() - i,
        {
            let ghost before = w@;
            if i > 0 {
                let mut reset = String::new();
                self.axes[i - 1].reset_state(&mut reset);
                put_bytes(w, reset.as_str());
            }
            assert(self.axes@[i as int].writable());
            self.axes[i].write_out(w, auto_layout, version);
            assert(w@ =~= mid + entries_bytes(self.axes@, (i + 1) as nat, auto_layout, version));
            i = i + 1;
        }
        let mut footer = String::new();
        put(&mut footer, "unset multiplot\n");
        put(&mut footer, self.post_commands.as_str());
        put(&mut footer, "\n");
        put_bytes(w, footer.as_str());
        assert(w@ =~= start + self.script());
        self
    }
}

} // verus!
