//! 3D axes: surfaces, contours and the view.
use vstd::prelude::*;
use crate::axes_common::{
    AxesCommon, AxesCommonData, AxisData, LabelData, TickAxis, TickType, PlotType, dir_view,
    elements_data, is_matrix_plot,
};
use crate::element::ArrayExtent;
use crate::number::Real;
use crate::options::{AutoOption, ContourStyle, GnuplotVersion, LabelOption, PlotOption, Tick, TickOption};
use crate::text::{dec_int, dec_nat, lemma_encode_utf8_append, put, put_bytes, put_u64};

verus! {

/// A view setting of 3D axes.
#[derive(Clone, Debug)]
pub enum View3D {
    /// Pitch and yaw, in degrees.
    Angles(Real, Real),
    /// Seen from above, as a map.
    MapView,
}

/// The command of a view setting.
pub open spec fn view_text(v: View3D) -> Seq<char> {
    match v {
        View3D::Angles(pitch, yaw) => "set view "@ + pitch.sci@ + ","@ + yaw.sci@ + "\n"@,
        View3D::MapView => "set view map\n"@,
    }
}

/// The commands of view settings, one after another.
pub open spec fn views_text(s: Seq<View3D>) -> Seq<char>
    decreases s.len(),
{
    if s.len() == 0 {
        Seq::empty()
    } else {
        views_text(s.drop_last()) + view_text(s.last())
    }
}

/// `v` limited to `lo..=hi`.
pub open spec fn clamp(v: u32, lo: u32, hi: u32) -> u32 {
    if v < lo { lo } else if v > hi { hi } else { v }
}

fn clamp_u32(v: u32, lo: u32, hi: u32) -> (r: u32)
    ensures
        r == clamp(v, lo, hi),
{
    if v < lo { lo } else if v > hi { hi } else { v }
}

/// A clamped value lies in its range, and is the value itself when that lies there.
pub proof fn lemma_clamp(v: u32, lo: u32, hi: u32)
    requires
        lo <= hi,
    ensures
        lo <= clamp(v, lo, hi) <= hi,
        lo <= v <= hi ==> clamp(v, lo, hi) == v,
{
}

/// Contour levels given one by one, separated by commas.
pub open spec fn levels_text(s: Seq<Real>) -> Seq<char>
    decreases s.len(),
{
    if s.len() == 0 {
        Seq::empty()
    } else if s.len() == 1 {
        s[0].sci@
    } else {
        levels_text(s.drop_last()) + ","@ + s.last().sci@
    }
}

/// 3D axes.
pub struct Axes3D {
    pub common: AxesCommonData,
    pub z_axis: AxisData,
    pub contour_base: bool,
    pub contour_surface: bool,
    pub contour_auto: AutoOption<u32>,
    pub contour_levels: Option<Vec<Real>>,
    pub contour_style: ContourStyle,
    pub contour_label: AutoOption<String>,
    /// The view settings, in the order they were made.
    pub views: Vec<View3D>,
}

impl Axes3D {
    /// Nothing plotted or set: no contours, no view, a plain Z axis with automatic ticks.
    pub open spec fn is_new(&self) -> bool {
        &&& self.common.is_fresh()
        &&& self.z_axis.is_plain(TickAxis::Z)
        &&& self.z_axis.tick_type matches TickType::Auto(AutoOption::Auto, 0)
        &&& !self.contour_base && !self.contour_surface
        &&& self.contour_auto is Auto
        &&& self.contour_levels is None
        &&& self.contour_style == ContourStyle::Linear
        &&& self.contour_label is Auto
        &&& self.views@.len() == 0
    }

    /// Empty 3D axes without contours.
    pub fn new() -> (r: Axes3D)
        ensures
            r.is_new(),
    {
        Axes3D {
            common: AxesCommonData::new(),
            z_axis: AxisData::new(TickAxis::Z),
            contour_base: false,
            contour_surface: false,
            contour_auto: AutoOption::Auto,
            contour_levels: None,
            contour_style: ContourStyle::Linear,
            contour_label: AutoOption::Auto,
            views: Vec::new(),
        }
    }

    /// Plots a surface of a matrix, `num_rows` by `num_cols`, row by row, over the given
    /// extent; missing values are NaN.
    pub fn surface(&mut self, mat: Vec<u64>, num_rows: usize, num_cols: usize, dimensions: Option<ArrayExtent>, options: Vec<PlotOption>) -> (r: &mut Self)
        requires
            num_rows * num_cols <= usize::MAX,
        ensures
            r.common.elems@.len() == old(self).common.elems@.len() + 1,
            r.common.elems@.drop_last() == old(self).common.elems@,
            is_matrix_plot(r.common.elems@.last(), PlotType::Pm3D, true, mat@, num_rows, num_cols, dimensions, options),
            *r == (Axes3D { common: AxesCommonData { elems: r.common.elems, ..old(self).common }, ..*old(self) }),
            *final(self) == *final(r),
    {
        self.common.add_matrix(PlotType::Pm3D, true, mat, num_rows, num_cols, dimensions, options);
        self
    }

    /// Views the axes from a pitch and yaw, in degrees.
    pub fn set_view(&mut self, pitch: Real, yaw: Real) -> (r: &mut Self)
        ensures
            *r == (Axes3D { views: r.views, ..*old(self) }),
            r.views@ == old(self).views@.push(View3D::Angles(pitch, yaw)),
            *final(self) == *final(r),
    {
        self.views.push(View3D::Angles(pitch, yaw));
        self
    }

    /// Views the axes from above, as a map.
    pub fn set_view_map(&mut self) -> (r: &mut Self)
        ensures
            *r == (Axes3D { views: r.views, ..*old(self) }),
            r.views@ == old(self).views@.push(View3D::MapView),
            *final(self) == *final(r),
    {
        self.views.push(View3D::MapView);
        self
    }

    /// Sets the label of the Z axis; an empty text hides it.
    pub fn set_z_label(&mut self, text: String, options: Vec<LabelOption>) -> (r: &mut Self)
        ensures
            *r == (Axes3D { z_axis: AxisData { label: LabelData { text, options, ..old(self).z_axis.label }, ..old(self).z_axis }, ..*old(self) }),
            *final(self) == *final(r),
    {
        self.z_axis.label.set(text, options);
        self
    }

    /// Places the Z ticks at an interval with a number of minor ticks, or hides them.
    pub fn set_z_ticks(&mut self, tick_placement: Option<(AutoOption<Real>, u32)>, tick_options: Vec<TickOption>, label_options: Vec<LabelOption>) -> (r: &mut Self)
        ensures
            *r == (Axes3D { z_axis: old(self).z_axis.with_ticks(tick_placement, tick_options, label_options), ..*old(self) }),
            *final(self) == *final(r),
    {
        self.z_axis.set_ticks(tick_placement, tick_options, label_options);
        self
    }

    /// Places Z ticks at given positions.
    pub fn set_z_ticks_custom(&mut self, ticks: Vec<Tick>, tick_options: Vec<TickOption>, label_options: Vec<LabelOption>) -> (r: &mut Self)
        ensures
            *r == (Axes3D { z_axis: AxisData { tick_type: TickType::Custom(ticks), tick_options, label_options, ..old(self).z_axis }, ..*old(self) }),
            *final(self) == *final(r),
    {
        self.z_axis.set_ticks_custom(ticks, tick_options, label_options);
        self
    }

    /// Sets the range of the Z axis.
    pub fn set_z_range(&mut self, min: AutoOption<Real>, max: AutoOption<Real>) -> (r: &mut Self)
        ensures
            *r == (Axes3D { z_axis: AxisData { min, max, ..old(self).z_axis }, ..*old(self) }),
            *final(self) == *final(r),
    {
        self.z_axis.set_range(min, max);
        self
    }

    /// Sets whether the Z axis runs backwards.
    pub fn set_z_reverse(&mut self, reverse: bool) -> (r: &mut Self)
        ensures
            *r == (Axes3D { z_axis: AxisData { reverse, ..old(self).z_axis }, ..*old(self) }),
            *final(self) == *final(r),
    {
        self.z_axis.set_reverse(reverse);
        self
    }

    /// Makes the Z axis logarithmic with the given base, or linear.
    pub fn set_z_log(&mut self, base: Option<Real>) -> (r: &mut Self)
        ensures
            *r == (Axes3D { z_axis: AxisData { log_base: base, ..old(self).z_axis }, ..*old(self) }),
            *final(self) == *final(r),
    {
        self.z_axis.set_log(base);
        self
    }

    /// Shows or hides the Z grid.
    pub fn set_z_grid(&mut self, show: bool) -> (r: &mut Self)
        ensures
            *r == (Axes3D { z_axis: AxisData { grid: show, ..old(self).z_axis }, ..*old(self) }),
            *final(self) == *final(r),
    {
        self.z_axis.set_grid(show);
        self
    }

    /// Draws contours on the base and/or the surface, with a style, a label (`Auto` for
    /// gnuplot's, an empty text for none) and a number of levels (`Auto` for gnuplot's).
    pub fn show_contours(&mut self, base: bool, surface: bool, style: ContourStyle, label: AutoOption<String>, levels: AutoOption<u32>) -> (r: &mut Self)
        ensures
            *r == (Axes3D {
                contour_base: base,
                contour_surface: surface,
                contour_style: style,
                contour_auto: levels,
                contour_levels: None,
                contour_label: label,
                ..*old(self)
            }),
            *final(self) == *final(r),
    {
        self.contour_base = base;
        self.contour_surface = surface;
        self.contour_style = style;
        self.contour_auto = levels;
        self.contour_levels = None;
        self.contour_label = label;
        self
    }

    /// Draws contours at the given levels.
    pub fn show_contours_custom(&mut self, base: bool, surface: bool, style: ContourStyle, label: AutoOption<String>, levels: Vec<Real>) -> (r: &mut Self)
        ensures
            *r == (Axes3D {
                contour_base: base,
                contour_surface: surface,
                contour_style: style,
                contour_auto: AutoOption::Auto,
                contour_levels: Some(levels),
                contour_label: label,
                ..*old(self)
            }),
            *final(self) == *final(r),
    {
        self.contour_base = base;
        self.contour_surface = surface;
        self.contour_style = style;
        self.contour_auto = AutoOption::Auto;
        self.contour_levels = Some(levels);
        self.contour_label = label;
        self
    }

    /// Whether the axes can be written.
    pub open spec fn writable(&self) -> bool {
        self.common.writable() && self.z_axis.writable()
    }

    /// Whether the axes can be written.
    pub fn is_writable(&self) -> (r: bool)
        ensures
            r == self.writable(),
    {
        self.common.is_writable() && self.z_axis.is_writable()
    }

    /// Where contours are drawn, and their label.
    pub open spec fn contour_head_text(&self) -> Seq<char> {
        let place = if self.contour_base && !self.contour_surface {
            "base"@
        } else if !self.contour_base && self.contour_surface {
            "surface"@
        } else {
            "both"@
        };
        let label = match self.contour_label {
            AutoOption::Auto => "set clabel\n"@,
            AutoOption::Fix(s) => if s@.len() == 0 { "unset clabel\n"@ } else { "set clabel \""@ + s@ + "\"\n"@ },
        };
        "set contour "@ + place + "\n"@ + label
    }

    /// How contours are drawn: the kind of curve, the points (2 to 100) and the order
    /// (2 to 10) of smooth curves.
    pub open spec fn contour_style_text(&self) -> Seq<char> {
        let kind = match self.contour_style {
            ContourStyle::Linear => "linear "@,
            ContourStyle::Cubic(..) => "cubicspline"@,
            ContourStyle::Spline(..) => "bspline"@,
        };
        let points = match self.contour_style {
            ContourStyle::Cubic(pt) => "points "@ + dec_nat(clamp(pt, 2, 100) as nat),
            ContourStyle::Spline(pt, _) => "points "@ + dec_nat(clamp(pt, 2, 100) as nat),
            _ => Seq::empty(),
        };
        let order = match self.contour_style {
            ContourStyle::Spline(_, ord) => "order "@ + dec_nat(clamp(ord, 2, 10) as nat),
            _ => Seq::empty(),
        };
        "set cntrparam "@ + kind + "\n"@ + "set cntrparam "@ + points + "\n"@ + "set cntrparam "@ + order + "\n"@
    }

    /// The contour levels: given ones, a number of them, or gnuplot's choice.
    pub open spec fn contour_levels_text(&self) -> Seq<char> {
        let levels = match self.contour_levels {
            Some(ls) => "discrete "@ + levels_text(ls@),
            None => match self.contour_auto {
                AutoOption::Auto => "auto "@,
                AutoOption::Fix(f) => dec_nat(f as nat),
            },
        };
        "set cntrparam levels "@ + levels + "\n"@
    }

    /// The contour commands, when contours are drawn.
    pub open spec fn contours_text(&self) -> Seq<char> {
        if self.contour_base || self.contour_surface {
            self.contour_head_text() + self.contour_style_text() + self.contour_levels_text()
        } else {
            Seq::empty()
        }
    }

    /// The axes whose grid is shown, among X, Y, the color bar and Z.
    pub open spec fn grid_axes(&self) -> Seq<TickAxis> {
        (if self.common.x_axis.grid { seq![self.common.x_axis.axis] } else { Seq::empty() })
            + (if self.common.y_axis.grid { seq![self.common.y_axis.axis] } else { Seq::empty() })
            + (if self.common.cb_axis.grid { seq![self.common.cb_axis.axis] } else { Seq::empty() })
            + (if self.z_axis.grid { seq![self.z_axis.axis] } else { Seq::empty() })
    }

    /// The script text of the axes: nothing when nothing is plotted; otherwise contours,
    /// view, settings, grid and the `splot` command.
    pub open spec fn script_text(&self, auto_layout: bool, version: GnuplotVersion) -> Seq<char> {
        if self.common.elems@.len() == 0 {
            Seq::empty()
        } else {
            self.settings_text(auto_layout, version) + self.common.elements_text("splot"@, None, version)
        }
    }

    /// The script text before the `splot` command: contours, view, settings and grid.
    pub open spec fn settings_text(&self, auto_layout: bool, version: GnuplotVersion) -> Seq<char> {
        self.contours_text() + views_text(self.views@) + self.common.commands_text(auto_layout, version)
            + self.z_axis.commands_text(version) + self.common.grid_text(self.grid_axes(), version)
    }

    fn write_contour_head(&self, w: &mut String)
        ensures
            final(w)@ == old(w)@ + self.contour_head_text(),
    {
        let ghost start = w@;
        put(w, "set contour ");
        if self.contour_base && !self.contour_surface {
            put(w, "base");
        } else if !self.contour_base && self.contour_surface {
            put(w, "surface");
        } else {
            put(w, "both");
        }
        put(w, "\n");
        match &self.contour_label {
            AutoOption::Auto => put(w, "set clabel\n"),
            AutoOption::Fix(s) => {
                if s.as_str().unicode_len() == 0 {
                    put(w, "unset clabel\n");
                } else {
                    put(w, "set clabel \"");
                    put(w, s.as_str());
                    put(w, "\"\n");
                }
            },
        }
        assert(w@ =~= start + self.contour_head_text());
    }

    fn write_contour_style(&self, w: &mut String)
        ensures
            final(w)@ == old(w)@ + self.contour_style_text(),
    {
        let ghost start = w@;
        put(w, "set cntrparam ");
        match self.contour_style {
            ContourStyle::Linear => put(w, "linear "),
            ContourStyle::Cubic(..) => put(w, "cubicspline"),
            ContourStyle::Spline(..) => put(w, "bspline"),
        }
        put(w, "\n");
        put(w, "set cntrparam ");
        match self.contour_style {
            ContourStyle::Cubic(pt) => {
                put(w, "points ");
                put_u64(w, clamp_u32(pt, 2, 100) as u64);
            },
            ContourStyle::Spline(pt, _) => {
                put(w, "points ");
                put_u64(w, clamp_u32(pt, 2, 100) as u64);
            },
            _ => {},
        }
        put(w, "\n");
        put(w, "set cntrparam ");
        match self.contour_style {
            ContourStyle::Spline(_, ord) => {
                put(w, "order ");
                put_u64(w, clamp_u32(ord, 2, 10) as u64);
            },
            _ => {},
        }
        put(w, "\n");
        assert(w@ =~= start + self.contour_style_text());
    }

    fn write_levels(w: &mut String, ls: &Vec<Real>)
        ensures
            final(w)@ == old(w)@ + levels_text(ls@),
    {
        let ghost start = w@;
        let mut i: usize = 0;
        while i < ls.len()
            invariant
                i <= ls@.len(),
                w@ == start + levels_text(ls@.take(i as int)),
            decreases ls@.len() - i,
        {
            if i > 0 {
                put(w, ",");
            }
            put(w, ls[i].sci.as_str());
            proof {
                let t = ls@.take(i + 1);
                assert(t.drop_last() =~= ls@.take(i as int));
                if i == 0 {
                    assert(ls@.take(0) =~= Seq::<Real>::empty());
                }
                assert(w@ =~= start + levels_text(t));
            }
            i = i + 1;
        }
        assert(ls@.take(ls@.len() as int) =~= ls@);
    }

    fn write_contour_levels(&self, w: &mut String)
        ensures
            final(w)@ == old(w)@ + self.contour_levels_text(),
    {
        let ghost start = w@;
        put(w, "set cntrparam levels ");
        match &self.contour_levels {
            Some(ls) => {
                put(w, "discrete ");
                Self::write_levels(w, ls);
            },
            None => match self.contour_auto {
                AutoOption::Auto => put(w, "auto "),
                AutoOption::Fix(f) => put_u64(w, f as u64),
            },
        }
        put(w, "\n");
        assert(w@ =~= start + self.contour_levels_text());
    }

    fn write_contours(&self, w: &mut String)
        ensures
            final(w)@ == old(w)@ + self.contours_text(),
    {
        let ghost start = w@;
        if self.contour_base || self.contour_surface {
            self.write_contour_head(w);
            self.write_contour_style(w);
            self.write_contour_levels(w);
        }
        assert(w@ =~= start + self.contours_text());
    }

    fn write_views(&self, w: &mut String)
        ensures
            final(w)@ == old(w)@ + views_text(self.views@),
    {
        let ghost start = w@;
        let mut i: usize = 0;
        while i < self.views.len()
            invariant
                i <= self.views@.len(),
                w@ == start + views_text(self.views@.take(i as int)),
            decreases self.views@.len() - i,
        {
            match &self.views[i] {
                View3D::Angles(pitch, yaw) => {
                    put(w, "set view ");
                    put(w, pitch.sci.as_str());
                    put(w, ",");
                    put(w, yaw.sci.as_str());
                    put(w, "\n");
                },
                View3D::MapView => put(w, "set view map\n"),
            }
            assert(self.views@.take(i + 1).drop_last() =~= self.views@.take(i as int));
            assert(w@ =~= start + views_text(self.views@.take(i + 1)));
            i = i + 1;
        }
        assert(self.views@.take(self.views@.len() as int) =~= self.views@);
    }

    fn collect_grid_axes(&self) -> (r: Vec<TickAxis>)
        ensures
            r@ == self.grid_axes(),
    {
        let mut r = Vec::new();
        if self.common.x_axis.grid {
            r.push(self.common.x_axis.axis);
        }
        if self.common.y_axis.grid {
            r.push(self.common.y_axis.axis);
        }
        if self.common.cb_axis.grid {
            r.push(self.common.cb_axis.axis);
        }
        if self.z_axis.grid {
            r.push(self.z_axis.axis);
        }
        assert(r@ =~= self.grid_axes());
        r
    }

    fn write_settings(&self, w: &mut String, auto_layout: bool, version: GnuplotVersion)
        requires
            self.writable(),
        ensures
            final(w)@ == old(w)@ + self.settings_text(auto_layout, version),
    {
        let ghost start = w@;
        self.write_contours(w);
        self.write_views(w);
        self.common.write_out_commands(w, auto_layout, version);
        self.z_axis.write_out_commands(w, version);
        let axes = self.collect_grid_axes();
        self.common.write_grid_options(w, &axes, version);
        assert(w@ =~= start + self.settings_text(auto_layout, version));
    }

    /// Appends the script text of the axes; nothing when nothing is plotted.
    pub fn write_out_text(&self, w: &mut String, auto_layout: bool, version: GnuplotVersion)
        requires
            self.common.elems@.len() > 0 ==> self.writable(),
        ensures
            final(w)@ == old(w)@ + self.script_text(auto_layout, version),
    {
        let ghost start = w@;
        if self.common.elems.len() == 0 {
            assert(w@ =~= start + self.script_text(auto_layout, version));
            return;
        }
        self.write_settings(w, auto_layout, version);
        self.common.write_elements_text("splot", None, w, version);
        assert(w@ =~= start + self.script_text(auto_layout, version));
    }

    /// The bytes the axes add to a script: nothing when nothing is plotted; otherwise
    /// their text, then the data of all elements.
    pub open spec fn script_bytes(&self, auto_layout: bool, version: GnuplotVersion) -> Seq<u8> {
        vstd::utf8::encode_utf8(self.script_text(auto_layout, version))
            + if self.common.elems@.len() == 0 { Seq::empty() } else { elements_data(self.common.elems@, self.common.elems@.len()) }
    }

    /// Appends the axes to a script; nothing when nothing is plotted.
    pub fn write_out(&self, w: &mut Vec<u8>, auto_layout: bool, version: GnuplotVersion)
        requires
            self.common.elems@.len() > 0 ==> self.writable(),
        ensures
            final(w)@ == old(w)@ + self.script_bytes(auto_layout, version),
    {
        let ghost start = w@;
        if self.common.elems.len() == 0 {
            assert(vstd::utf8::encode_utf8(self.script_text(auto_layout, version)) =~= Seq::<u8>::empty());
            assert(w@ =~= start + self.script_bytes(auto_layout, version));
            return;
        }
        let mut text = String::new();
        self.write_settings(&mut text, auto_layout, version);
        put_bytes(w, text.as_str());
        self.common.write_out_elements("splot", None, w, version);
        proof {
            lemma_encode_utf8_append(self.settings_text(auto_layout, version), self.common.elements_text("splot"@, None, version));
        }
        assert(w@ =~= start + self.script_bytes(auto_layout, version));
    }

    /// The commands that remove the free labels before the next axes are drawn.
    pub open spec fn reset_text(&self) -> Seq<char> {
        self.common.reset_text()
    }

    /// Appends the commands that remove the free labels.
    pub fn reset_state(&self, w: &mut String)
        ensures
            final(w)@ == old(w)@ + self.reset_text(),
    {
        self.common.reset_state(w);
    }
}

impl AxesCommon for Axes3D {
    open spec fn common(&self) -> AxesCommonData {
        self.common
    }

    open spec fn same_rest(&self, other: &Self) -> bool {
        &&& self.z_axis == other.z_axis
        &&& self.contour_base == other.contour_base
        &&& self.contour_surface == other.contour_surface
        &&& self.contour_auto == other.contour_auto
        &&& self.contour_levels == other.contour_levels
        &&& self.contour_style == other.contour_style
        &&& self.contour_label == other.contour_label
        &&& self.views == other.views
    }

    fn get_common_data(&self) -> (r: &AxesCommonData) {
        &self.common
    }

    fn get_common_data_mut(&mut self) -> (r: &mut AxesCommonData) {
        &mut self.common
    }
}

} // verus!
