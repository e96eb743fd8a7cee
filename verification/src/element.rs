//! Plot elements: the data of one plotted item and the arguments of the plot command
//! that draws it.
use vstd::prelude::*;
use byteorder::ByteOrder;
use crate::axes_common::{
    PlotType, color_options_text, is_symbol, is_valid_symbol, line_options_text, symbol_number, write_color_options,
    write_line_options, char_to_symbol,
};
use crate::number::Real;
use crate::options::{
    AutoOption, FillRegionType, GnuplotVersion, PlotOption, XAxis, YAxis, first_axes, first_color_opt, plot_color_opt,
    first_border_color_opt, first_caption, first_fill_alpha, first_fill_pattern, first_fill_region,
    first_point_size, first_point_symbol, first_whisker_bars, plot_axes, plot_border_color_opt,
    plot_caption, plot_fill_alpha, plot_fill_pattern, plot_fill_region, plot_point_size,
    plot_point_symbol, plot_whisker_bars,
};
use crate::text::{dec_int, dec_nat, ends_with, escape, escaped, lemma_parts, put, put_i64, put_u64};

verus! {

/// The 8 bytes of `n`, least significant first.
pub open spec fn le_bytes(n: u64) -> Seq<u8> {
    seq![
        (n % 0x100) as u8,
        ((n / 0x100) % 0x100) as u8,
        ((n / 0x1_0000) % 0x100) as u8,
        ((n / 0x100_0000) % 0x100) as u8,
        ((n / 0x1_0000_0000) % 0x100) as u8,
        ((n / 0x100_0000_0000) % 0x100) as u8,
        ((n / 0x1_0000_0000_0000) % 0x100) as u8,
        ((n / 0x100_0000_0000_0000) % 0x100) as u8,
    ]
}

/// `byteorder::LittleEndian::write_u64`: the bytes of `n` in little-endian order.
#[verifier::external_body]
fn little_endian_bytes(n: u64) -> (r: [u8; 8])
    ensures
        r@ == le_bytes(n),
{
    let mut buf = [0u8; 8];
    byteorder::LittleEndian::write_u64(&mut buf, n);
    buf
}

/// The bytes of data values, each value the bit pattern of a 64-bit float, written in
/// little-endian order one after another.
pub open spec fn data_bytes(data: Seq<u64>) -> Seq<u8>
    decreases data.len(),
{
    if data.len() == 0 {
        Seq::empty()
    } else {
        data_bytes(data.drop_last()) + le_bytes(data.last())
    }
}

/// Each value takes eight bytes.
pub proof fn lemma_data_bytes_len(data: Seq<u64>)
    ensures
        data_bytes(data).len() == 8 * data.len(),
    decreases data.len(),
{
    if data.len() > 0 {
        lemma_data_bytes_len(data.drop_last());
    }
}

/// Appends the bytes of data values.
pub fn write_data_bytes(out: &mut Vec<u8>, data: &Vec<u64>)
    ensures
        final(out)@ == old(out)@ + data_bytes(data@),
{
    let ghost start = out@;
    let mut i: usize = 0;
    while i < data.len()
        invariant
            i <= data@.len(),
            out@ == start + data_bytes(data@.take(i as int)),
        decreases data@.len() - i,
    {
        let b = little_endian_bytes(data[i]);
        let ghost before = out@;
        let mut k: usize = 0;
        while k < 8
            invariant
                k <= 8,
                b@ == le_bytes(data@[i as int]),
                out@ == before + b@.take(k as int),
            decreases 8 - k,
        {
            out.push(b[k]);
            assert(b@.take(k + 1) =~= b@.take(k as int).push(b@[k as int]));
            k = k + 1;
        }
        proof {
            assert(b@.take(8) =~= b@);
            assert(data@.take(i + 1).drop_last() =~= data@.take(i as int));
            assert(out@ =~= start + data_bytes(data@.take(i + 1)));
        }
        i = i + 1;
    }
    assert(data@.take(data@.len() as int) =~= data@);
}

/// The bit pattern of the 64-bit float NaN that pads missing matrix values.
pub const NAN_BITS: u64 = 0x7ff8_0000_0000_0000;

/// The corners of an image or surface and the distance between adjacent columns and
/// rows, as the caller computed it.
#[derive(Clone, Debug)]
pub struct ArrayExtent {
    pub x1: Real,
    pub y1: Real,
    pub x2: Real,
    pub y2: Real,
    pub dx: Real,
    pub dy: Real,
}

/// How gnuplot is told to read the data of an element.
#[derive(Clone, Debug)]
pub enum DataSourceType {
    /// Rows of values, one value per column.
    Record,
    /// A matrix.
    Array,
    /// A matrix spread over a given extent.
    SizedArray(ArrayExtent),
}

/// The values of row `r`: the `r`th value of each column.
pub open spec fn row_of(columns: Seq<Seq<u64>>, r: int) -> Seq<u64> {
    Seq::new(columns.len(), |j: int| columns[j][r])
}

/// The first `n` rows, one after another.
pub open spec fn rows_flat(columns: Seq<Seq<u64>>, n: nat) -> Seq<u64>
    decreases n,
{
    if n == 0 {
        Seq::empty()
    } else {
        rows_flat(columns, (n - 1) as nat) + row_of(columns, n - 1)
    }
}

/// The first `n` rows hold `n` values of each column.
pub proof fn lemma_rows_flat_len(columns: Seq<Seq<u64>>, n: nat)
    ensures
        rows_flat(columns, n).len() == n * columns.len(),
    decreases n,
{
    if n > 0 {
        lemma_rows_flat_len(columns, (n - 1) as nat);
        let c = columns.len();
        assert(((n - 1) as nat) * c + c == n * c) by (nonlinear_arith)
            requires
                n > 0,
        ;
        assert(row_of(columns, n - 1).len() == c);
        assert(rows_flat(columns, n) == rows_flat(columns, (n - 1) as nat) + row_of(columns, n - 1));
    } else {
        assert(n * columns.len() == 0) by (nonlinear_arith)
            requires
                n == 0,
        ;
    }
}

/// The length of the shortest column.
pub open spec fn shortest(columns: Seq<Seq<u64>>) -> nat
    decreases columns.len(),
{
    if columns.len() == 0 {
        0
    } else if columns.len() == 1 {
        columns[0].len()
    } else {
        let rest = shortest(columns.drop_last());
        if columns.last().len() < rest { columns.last().len() } else { rest }
    }
}

/// No column is shorter than the shortest.
pub proof fn lemma_shortest_bound(columns: Seq<Seq<u64>>, j: int)
    requires
        0 <= j < columns.len(),
    ensures
        shortest(columns) <= columns[j].len(),
    decreases columns.len(),
{
    if columns.len() > 1 && j < columns.len() - 1 {
        lemma_shortest_bound(columns.drop_last(), j);
    }
}

/// The shortest column is one of the columns.
pub proof fn lemma_shortest_attained(columns: Seq<Seq<u64>>)
    requires
        columns.len() >= 1,
    ensures
        exists|j: int| 0 <= j < columns.len() && shortest(columns) == #[trigger] columns[j].len(),
    decreases columns.len(),
{
    if columns.len() == 1 {
        assert(shortest(columns) == columns[0].len());
    } else {
        let p = columns.drop_last();
        lemma_shortest_attained(p);
        let j = choose|j: int| 0 <= j < p.len() && shortest(p) == #[trigger] p[j].len();
        if columns.last().len() < shortest(p) {
            assert(shortest(columns) == columns[columns.len() - 1].len());
        } else {
            assert(shortest(columns) == columns[j].len());
        }
    }
}

/// The length of the shortest column.
pub fn shortest_len(columns: &Vec<Vec<u64>>) -> (n: usize)
    requires
        columns@.len() >= 1,
    ensures
        n == shortest(columns_view(columns@)),
{
    let ghost cols = columns_view(columns@);
    let mut n: usize = columns[0].len();
    let mut j: usize = 1;
    assert(cols.take(1) =~= seq![cols[0]]);
    while j < columns.len()
        invariant
            1 <= j <= columns@.len(),
            cols == columns_view(columns@),
            n == shortest(cols.take(j as int)),
        decreases columns@.len() - j,
    {
        assert(cols.take(j + 1).drop_last() =~= cols.take(j as int));
        if columns[j].len() < n {
            n = columns[j].len();
        }
        j = j + 1;
    }
    assert(cols.take(columns@.len() as int) =~= cols);
    n
}

/// Zips columns of data into rows, as far as the shortest column goes.
/// Returns the values row by row and the number of rows.
pub fn zip_columns(columns: &Vec<Vec<u64>>) -> (r: (Vec<u64>, usize))
    requires
        columns@.len() >= 1,
    ensures
        r.1 == shortest(columns@.map_values(|c: Vec<u64>| c@)),
        r.0@ == rows_flat(columns@.map_values(|c: Vec<u64>| c@), r.1 as nat),
{
    let ghost cols = columns@.map_values(|c: Vec<u64>| c@);
    let mut n: usize = columns[0].len();
    let mut j: usize = 1;
    assert(columns@.take(1).map_values(|c: Vec<u64>| c@) =~= seq![cols[0]]);
    while j < columns.len()
        invariant
            1 <= j <= columns@.len(),
            cols == columns@.map_values(|c: Vec<u64>| c@),
            n == shortest(cols.take(j as int)),
        decreases columns@.len() - j,
    {
        assert(cols.take(j + 1).drop_last() =~= cols.take(j as int));
        if columns[j].len() < n {
            n = columns[j].len();
        }
        j = j + 1;
    }
    assert(cols.take(columns@.len() as int) =~= cols);
    let mut data: Vec<u64> = Vec::new();
    let mut r: usize = 0;
    while r < n
        invariant
            r <= n,
            n == shortest(cols),
            cols == columns@.map_values(|c: Vec<u64>| c@),
            columns@.len() >= 1,
            data@ == rows_flat(cols, r as nat),
        decreases n - r,
    {
        let ghost before = data@;
        let mut k: usize = 0;
        while k < columns.len()
            invariant
                k <= columns@.len(),
                r < n,
                n == shortest(cols),
                cols == columns@.map_values(|c: Vec<u64>| c@),
                data@ == before + row_of(cols, r as int).take(k as int),
            decreases columns@.len() - k,
        {
            proof {
                lemma_shortest_bound(cols, k as int);
            }
            data.push(columns[k][r]);
            assert(row_of(cols, r as int).take(k + 1) =~= row_of(cols, r as int).take(k as int).push(cols[k as int][r as int]));
            k = k + 1;
        }
        assert(row_of(cols, r as int).take(columns@.len() as int) =~= row_of(cols, r as int));
        r = r + 1;
    }
    (data, n)
}

/// The view of columns of data.
pub open spec fn columns_view(columns: Seq<Vec<u64>>) -> Seq<Seq<u64>> {
    columns.map_values(|c: Vec<u64>| c@)
}

/// The data columns, with a color column at the end where one is given.
pub open spec fn with_color(columns: Seq<Seq<u64>>, color_values: Option<Vec<u64>>) -> Seq<Seq<u64>> {
    match color_values {
        Some(c) => columns.push(c@),
        None => columns,
    }
}

/// Whether the options ask for a color value for each data point: the first color
/// option is a variable one.
pub open spec fn needs_color_values(options: Seq<PlotOption>) -> bool {
    first_color_opt(options) matches Some(c) && c.spec_is_variable()
}

/// Whether the options ask for a color value for each data point.
pub fn color_values_needed(options: &Vec<PlotOption>) -> (r: bool)
    ensures
        r == needs_color_values(options@),
{
    match plot_color_opt(options) {
        Some(c) => c.is_variable(),
        None => false,
    }
}

/// Zips data columns, and the color values where given, into rows. Returns the values
/// row by row, the number of rows (that of the shortest column) and the number of columns.
pub fn generate_data(columns: Vec<Vec<u64>>, color_values: Option<Vec<u64>>) -> (r: (Vec<u64>, usize, usize))
    requires
        columns@.len() >= 1,
    ensures
        r.1 == shortest(with_color(columns_view(columns@), color_values)),
        r.2 == with_color(columns_view(columns@), color_values).len(),
        r.0@ == rows_flat(with_color(columns_view(columns@), color_values), r.1 as nat),
{
    let mut cols = columns;
    let ghost orig = cols@;
    match color_values {
        Some(c) => cols.push(c),
        None => {},
    }
    assert(cols@.map_values(|c: Vec<u64>| c@) =~= with_color(columns_view(orig), color_values));
    let (data, n) = zip_columns(&cols);
    (data, n, cols.len())
}

/// One plotted item.
pub struct PlotElement {
    /// The values, row by row; each is the bit pattern of a 64-bit float.
    pub data: Vec<u64>,
    pub num_rows: usize,
    pub num_cols: usize,
    pub plot_type: PlotType,
    pub source_type: DataSourceType,
    pub is_3d: bool,
    pub options: Vec<PlotOption>,
}

/// `e` plots the rows of `columns` (as far as the shortest one goes) as `plot_type`, with
/// `options`.
pub open spec fn is_record_plot(e: PlotElement, plot_type: PlotType, columns: Seq<Seq<u64>>, options: Vec<PlotOption>) -> bool {
    &&& e.num_rows == shortest(columns)
    &&& e.num_cols == columns.len()
    &&& e.data@ == rows_flat(columns, shortest(columns))
    &&& e.plot_type == plot_type
    &&& e.source_type is Record
    &&& !e.is_3d
    &&& e.options == options
}

/// The bytes written for a record element are exactly what its arguments tell gnuplot
/// to read: `record=` rows of as many 8-byte floats as the `using` columns name.
pub proof fn lemma_record_data_matches_format(e: PlotElement, plot_type: PlotType, columns: Seq<Seq<u64>>, options: Vec<PlotOption>)
    requires
        is_record_plot(e, plot_type, columns, options),
    ensures
        data_bytes(e.data@).len() == 8 * (e.num_rows * e.num_cols),
{
    lemma_rows_flat_len(columns, shortest(columns));
    lemma_data_bytes_len(e.data@);
}

/// An element given the axes pair `(x, y)` first among its options ends its arguments
/// with that pair: `x1` or `x2`, then `y1` or `y2`.
pub proof fn lemma_element_axes(e: PlotElement, source: Seq<char>, version: GnuplotVersion, x: XAxis, y: YAxis)
    requires
        first_axes(e.options@) == Some((x, y)),
    ensures
        ends_with(e.args_text(source, version), " axes "@ + (if x == XAxis::X1 { "x1"@ } else { "x2"@ })
            + (if y == YAxis::Y1 { "y1"@ } else { "y2"@ })),
{
    reveal(PlotElement::args_text);
    let w = " axes "@ + (if x == XAxis::X1 { "x1"@ } else { "x2"@ }) + (if y == YAxis::Y1 { "y1"@ } else { "y2"@ });
    let lines = if e.plot_type.spec_is_line() { line_options_text(e.options@, version) } else { Seq::empty() };
    let front = e.source_text(source) + " with "@ + e.plot_type.style_name() + e.fill_text() + lines
        + e.points_text() + color_options_text(e.options@, Seq::empty()) + e.caption_text() + e.whiskers_text();
    assert(e.axes_text() == w);
    assert(e.args_text(source, version) =~= front + w);
    lemma_parts(front, w);
}

/// `1:2:...:n`, the columns a record element uses, written up to column `k`.
pub open spec fn using_columns(k: nat, n: nat) -> Seq<char>
    decreases k,
{
    if k == 0 {
        Seq::empty()
    } else {
        using_columns((k - 1) as nat, n) + dec_nat(k) + (if k < n { ":"@ } else { Seq::empty() })
    }
}

/// The smaller of two reals, the first when they are not ordered.
pub open spec fn low_end(a: Real, b: Real) -> Real {
    if a.greater(&b) { b } else { a }
}

impl PlotElement {
    /// An element of rows of values.
    pub fn new_plot(
        plot_type: PlotType,
        data: Vec<u64>,
        num_rows: usize,
        num_cols: usize,
        options: Vec<PlotOption>,
    ) -> (r: PlotElement)
        ensures
            r == (PlotElement {
                data,
                num_rows,
                num_cols,
                plot_type,
                source_type: DataSourceType::Record,
                is_3d: false,
                options,
            }),
    {
        PlotElement {
            data,
            num_rows,
            num_cols,
            plot_type,
            source_type: DataSourceType::Record,
            is_3d: false,
            options,
        }
    }

    /// A matrix element; missing values at the end are filled with NaN.
    pub fn new_plot_matrix(
        plot_type: PlotType,
        is_3d: bool,
        mat: Vec<u64>,
        num_rows: usize,
        num_cols: usize,
        dimensions: Option<ArrayExtent>,
        options: Vec<PlotOption>,
    ) -> (r: PlotElement)
        requires
            num_rows * num_cols <= usize::MAX,
        ensures
            r.data@.len() == if mat@.len() < num_rows * num_cols { (num_rows * num_cols) as int } else { mat@.len() as int },
            forall|i: int| 0 <= i < mat@.len() ==> r.data@[i] == mat@[i],
            forall|i: int| mat@.len() <= i < r.data@.len() ==> r.data@[i] == NAN_BITS,
            r.num_rows == num_rows,
            r.num_cols == num_cols,
            r.plot_type == plot_type,
            r.is_3d == is_3d,
            r.options == options,
            r.source_type == match dimensions {
                Some(e) => DataSourceType::SizedArray(e),
                None => DataSourceType::Array,
            },
    {
        let mut data = mat;
        let ghost m = data@;
        let total = num_rows * num_cols;
        while data.len() < total
            invariant
                m.len() <= data@.len() <= if m.len() < total { total as int } else { m.len() as int },
                forall|i: int| 0 <= i < m.len() ==> data@[i] == m[i],
                forall|i: int| m.len() <= i < data@.len() ==> data@[i] == NAN_BITS,
            decreases total - data@.len(),
        {
            data.push(NAN_BITS);
        }
        let source_type = match dimensions {
            Some(e) => DataSourceType::SizedArray(e),
            None => DataSourceType::Array,
        };
        PlotElement { data, num_rows, num_cols, plot_type, source_type, is_3d, options }
    }

    /// Whether the element can be written: a point symbol, where points are drawn, is valid.
    pub open spec fn writable(&self) -> bool {
        self.plot_type.spec_is_points() ==> (first_point_symbol(self.options@) matches Some(c) ==> is_symbol(c))
    }

    /// Whether the element can be written.
    pub fn is_writable(&self) -> (r: bool)
        ensures
            r == self.writable(),
    {
        if self.plot_type.is_points() {
            match plot_point_symbol(&self.options) {
                Some(c) => is_valid_symbol(c),
                None => true,
            }
        } else {
            true
        }
    }

    /// How gnuplot reads the element's data from `source`.
    pub open spec fn source_text(&self, source: Seq<char>) -> Seq<char> {
        match self.source_type {
            DataSourceType::Record => " \""@ + source + "\" binary endian=little record="@
                + dec_nat(self.num_rows as nat) + " format=\"%float64\" using "@
                + using_columns(self.num_cols as nat, self.num_cols as nat),
            DataSourceType::Array => " \""@ + source + "\" binary endian=little array=("@
                + dec_nat(self.num_cols as nat) + ","@ + dec_nat(self.num_rows as nat)
                + ") format=\"%float64\" "@,
            DataSourceType::SizedArray(e) => " \""@ + source + "\" binary endian=little array=("@
                + dec_nat(self.num_cols as nat) + ","@ + dec_nat(self.num_rows as nat)
                + ") format=\"%float64\" "@ + self.extent_text(e),
        }
    }

    /// The lower left corner of a matrix spread over an extent.
    pub open spec fn origin_text(&self, e: ArrayExtent) -> Seq<char> {
        "origin=("@ + low_end(e.x1, e.x2).sci@ + ","@ + low_end(e.y1, e.y2).sci@
            + (if self.is_3d { ",0"@ } else { Seq::empty() }) + ") "@
    }

    /// The origin and spacing of a matrix spread over an extent.
    pub open spec fn extent_text(&self, e: ArrayExtent) -> Seq<char> {
        let dx = if self.num_cols > 1 { "dx="@ + e.dx.sci@ + " "@ } else { "dx=1 "@ };
        let dy = if self.num_rows > 1 { "dy="@ + e.dy.sci@ + " "@ } else { "dy=1 "@ };
        self.origin_text(e) + dx + dy
    }

    /// The region of a filled area between curves.
    pub open spec fn region_text(&self) -> Seq<char> {
        if self.plot_type == PlotType::FillBetween {
            match first_fill_region(self.options@) {
                Some(FillRegionType::Above) => " above"@,
                Some(FillRegionType::Below) => " below"@,
                _ => Seq::empty(),
            }
        } else {
            Seq::empty()
        }
    }

    /// A fill pattern, or a transparent solid fill with its opacity (1 unless given).
    pub open spec fn fill_style_text(&self) -> Seq<char> {
        match first_fill_pattern(self.options@) {
            Some(p) => "pattern "@ + match p {
                AutoOption::Fix(v) => dec_int(v.spec_to_int() as int),
                AutoOption::Auto => Seq::empty(),
            },
            None => "transparent solid "@ + match first_fill_alpha(self.options@) {
                Some(a) => a.sci@,
                None => "1.000000000000e0"@,
            },
        }
    }

    /// The border of a filled element: drawn for elements with lines, in the border color
    /// if one is given.
    pub open spec fn border_text(&self) -> Seq<char> {
        if self.plot_type.spec_is_line() {
            match first_border_color_opt(self.options@) {
                Some(c) => " border "@ + c.command_text(),
                None => Seq::empty(),
            }
        } else {
            " noborder"@
        }
    }

    /// The fill style of filled elements.
    pub open spec fn fill_text(&self) -> Seq<char> {
        if self.plot_type.spec_is_fill() {
            self.region_text() + " fill "@ + self.fill_style_text() + self.border_text()
        } else {
            Seq::empty()
        }
    }

    /// The point style of elements drawn with points.
    pub open spec fn points_text(&self) -> Seq<char> {
        if self.plot_type.spec_is_points() {
            let pt = match first_point_symbol(self.options@) {
                Some(s) => " pt "@ + dec_int(symbol_number(s) as int),
                None => Seq::empty(),
            };
            let ps = match first_point_size(self.options@) {
                Some(z) => " ps "@ + z.plain@,
                None => Seq::empty(),
            };
            pt + ps
        } else {
            Seq::empty()
        }
    }

    /// The caption of the element, escaped and quoted.
    pub open spec fn caption_text(&self) -> Seq<char> {
        let caption = match first_caption(self.options@) {
            Some(s) => escaped(s@),
            None => Seq::empty(),
        };
        " t \""@ + caption + "\""@
    }

    /// The width of whisker bars.
    pub open spec fn whiskers_text(&self) -> Seq<char> {
        match first_whisker_bars(self.options@) {
            Some(f) => " whiskerbars "@ + f.plain@,
            None => Seq::empty(),
        }
    }

    /// The pair of axes the element uses.
    pub open spec fn axes_text(&self) -> Seq<char> {
        match first_axes(self.options@) {
            Some((x, y)) => " axes "@ + (if x == XAxis::X1 { "x1"@ } else { "x2"@ })
                + (if y == YAxis::Y1 { "y1"@ } else { "y2"@ }),
            None => Seq::empty(),
        }
    }

    /// The caption, whisker bars and axes of the element.
    pub open spec fn tail_text(&self) -> Seq<char> {
        self.caption_text() + self.whiskers_text() + self.axes_text()
    }

    #[verifier::opaque]
    /// The arguments of the plot command for this element, reading data from `source`.
    pub open spec fn args_text(&self, source: Seq<char>, version: GnuplotVersion) -> Seq<char> {
        let lines = if self.plot_type.spec_is_line() {
            line_options_text(self.options@, version)
        } else {
            Seq::empty()
        };
        self.source_text(source) + " with "@ + self.plot_type.style_name() + self.fill_text() + lines
            + self.points_text() + color_options_text(self.options@, Seq::empty()) + self.tail_text()
    }

    fn write_columns(&self, w: &mut String)
        ensures
            final(w)@ == old(w)@ + using_columns(self.num_cols as nat, self.num_cols as nat),
    {
        let ghost start = w@;
        let n = self.num_cols;
        let mut k: usize = 0;
        while k < n
            invariant
                k <= n,
                n == self.num_cols,
                w@ == start + using_columns(k as nat, n as nat),
            decreases n - k,
        {
            let c = k + 1;
            put_u64(w, c as u64);
            if c < n {
                put(w, ":");
            }
            assert(w@ =~= start + using_columns(c as nat, n as nat));
            k = c;
        }
    }

    fn write_origin(&self, w: &mut String, e: &ArrayExtent)
        ensures
            final(w)@ == old(w)@ + self.origin_text(*e),
    {
        let ghost start = w@;
        let x = if e.x1.gt(&e.x2) { &e.x2 } else { &e.x1 };
        let y = if e.y1.gt(&e.y2) { &e.y2 } else { &e.y1 };
        put(w, "origin=(");
        put(w, x.sci.as_str());
        put(w, ",");
        put(w, y.sci.as_str());
        if self.is_3d {
            put(w, ",0");
        }
        put(w, ") ");
        assert(w@ =~= start + self.origin_text(*e));
    }

    fn write_extent(&self, w: &mut String, e: &ArrayExtent)
        ensures
            final(w)@ == old(w)@ + self.extent_text(*e),
    {
        let ghost start = w@;
        self.write_origin(w, e);
        let ghost p1 = w@;
        if self.num_cols > 1 {
            put(w, "dx=");
            put(w, e.dx.sci.as_str());
            put(w, " ");
        } else {
            put(w, "dx=1 ");
        }
        let ghost p2 = w@;
        if self.num_rows > 1 {
            put(w, "dy=");
            put(w, e.dy.sci.as_str());
            put(w, " ");
        } else {
            put(w, "dy=1 ");
        }
        assert(w@ =~= start + self.extent_text(*e));
    }

    fn write_source(&self, source: &str, w: &mut String)
        ensures
            final(w)@ == old(w)@ + self.source_text(source@),
    {
        let ghost start = w@;
        put(w, " \"");
        put(w, source);
        match &self.source_type {
            DataSourceType::Record => {
                put(w, "\" binary endian=little record=");
                put_u64(w, self.num_rows as u64);
                put(w, " format=\"%float64\" using ");
                self.write_columns(w);
            },
            DataSourceType::Array => {
                put(w, "\" binary endian=little array=(");
                put_u64(w, self.num_cols as u64);
                put(w, ",");
                put_u64(w, self.num_rows as u64);
                put(w, ") format=\"%float64\" ");
            },
            DataSourceType::SizedArray(e) => {
                put(w, "\" binary endian=little array=(");
                put_u64(w, self.num_cols as u64);
                put(w, ",");
                put_u64(w, self.num_rows as u64);
                put(w, ") format=\"%float64\" ");
                self.write_extent(w, e);
            },
        }
        assert(w@ =~= start + self.source_text(source@));
    }

    fn write_region(&self, w: &mut String)
        ensures
            final(w)@ == old(w)@ + self.region_text(),
    {
        let ghost start = w@;
        if self.plot_type == PlotType::FillBetween {
            match plot_fill_region(&self.options) {
                Some(FillRegionType::Above) => put(w, " above"),
                Some(FillRegionType::Below) => put(w, " below"),
                _ => {},
            }
        }
        assert(w@ =~= start + self.region_text());
    }

    fn write_fill_style(&self, w: &mut String)
        ensures
            final(w)@ == old(w)@ + self.fill_style_text(),
    {
        let ghost start = w@;
        match plot_fill_pattern(&self.options) {
            Some(p) => {
                put(w, "pattern ");
                match p {
                    AutoOption::Fix(v) => put_i64(w, v.to_int() as i64),
                    AutoOption::Auto => {},
                }
            },
            None => {
                put(w, "transparent solid ");
                match plot_fill_alpha(&self.options) {
                    Some(a) => put(w, a.sci.as_str()),
                    None => put(w, "1.000000000000e0"),
                }
            },
        }
        assert(w@ =~= start + self.fill_style_text());
    }

    fn write_border(&self, w: &mut String)
        ensures
            final(w)@ == old(w)@ + self.border_text(),
    {
        let ghost start = w@;
        if self.plot_type.is_line() {
            match plot_border_color_opt(&self.options) {
                Some(c) => {
                    put(w, " border ");
                    c.write_command(w);
                },
                None => {},
            }
        } else {
            put(w, " noborder");
        }
        assert(w@ =~= start + self.border_text());
    }

    fn write_fill(&self, w: &mut String)
        ensures
            final(w)@ == old(w)@ + self.fill_text(),
    {
        let ghost start = w@;
        if self.plot_type.is_fill() {
            self.write_region(w);
            put(w, " fill ");
            self.write_fill_style(w);
            self.write_border(w);
        }
        assert(w@ =~= start + self.fill_text());
    }

    fn write_points(&self, w: &mut String)
        requires
            self.writable(),
        ensures
            final(w)@ == old(w)@ + self.points_text(),
    {
        let ghost start = w@;
        if self.plot_type.is_points() {
            match plot_point_symbol(&self.options) {
                Some(s) => {
                    put(w, " pt ");
                    put_i64(w, char_to_symbol(s) as i64);
                },
                None => {},
            }
            match plot_point_size(&self.options) {
                Some(z) => {
                    put(w, " ps ");
                    put(w, z.plain.as_str());
                },
                None => {},
            }
        }
        assert(w@ =~= start + self.points_text());
    }

    fn write_caption(&self, w: &mut String)
        ensures
            final(w)@ == old(w)@ + self.caption_text(),
    {
        let ghost start = w@;
        put(w, " t \"");
        match plot_caption(&self.options) {
            Some(s) => {
                let e = escape(s.as_str());
                put(w, e.as_str());
            },
            None => {},
        }
        put(w, "\"");
        assert(w@ =~= start + self.caption_text());
    }

    fn write_whiskers(&self, w: &mut String)
        ensures
            final(w)@ == old(w)@ + self.whiskers_text(),
    {
        let ghost start = w@;
        match plot_whisker_bars(&self.options) {
            Some(f) => {
                put(w, " whiskerbars ");
                put(w, f.plain.as_str());
            },
            None => {},
        }
        assert(w@ =~= start + self.whiskers_text());
    }

    fn write_axes(&self, w: &mut String)
        ensures
            final(w)@ == old(w)@ + self.axes_text(),
    {
        let ghost start = w@;
        match plot_axes(&self.options) {
            Some((x, y)) => {
                put(w, " axes ");
                match x {
                    XAxis::X1 => put(w, "x1"),
                    XAxis::X2 => put(w, "x2"),
                }
                match y {
                    YAxis::Y1 => put(w, "y1"),
                    YAxis::Y2 => put(w, "y2"),
                }
            },
            None => {},
        }
        assert(w@ =~= start + self.axes_text());
    }

    fn write_tail(&self, w: &mut String)
        ensures
            final(w)@ == old(w)@ + self.tail_text(),
    {
        let ghost start = w@;
        self.write_caption(w);
        self.write_whiskers(w);
        self.write_axes(w);
        assert(w@ =~= start + self.tail_text());
    }

    /// Appends the arguments of the plot command for this element, reading data from `source`.
    pub fn write_args(&self, source: &str, w: &mut String, version: GnuplotVersion)
        requires
            self.writable(),
        ensures
            final(w)@ == old(w)@ + self.args_text(source@, version),
    {
        let ghost start = w@;
        self.write_source(source, w);
        put(w, " with ");
        put(w, self.plot_type.style_str());
        self.write_fill(w);
        if self.plot_type.is_line() {
            write_line_options(w, &self.options, version);
        }
        self.write_points(w);
        write_color_options(w, &self.options, &None);
        self.write_tail(w);
        assert(w@ =~= start + self.args_text(source@, version)) by {
            reveal(PlotElement::args_text);
        }
    }

    /// Appends the bytes of the element's data.
    pub fn write_data(&self, out: &mut Vec<u8>)
        ensures
            final(out)@ == old(out)@ + data_bytes(self.data@),
    {
        write_data_bytes(out, &self.data);
    }
}

} // verus!
