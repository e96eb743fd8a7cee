//! Polar axes: 2D axes whose plots are drawn in polar coordinates.
use vstd::prelude::*;
use crate::axes2d::{
    ArrowData, BorderOptions, LegendData, arrows_reset_text, arrows_text, grid_axes, grid_axes_of,
    legend_text, reset_arrows, write_arrows,
};
use crate::axes_common::{AxesCommon, AxesCommonData, AxisData, PlotType, elements_data};
use crate::element::{columns_view, is_record_plot, needs_color_values, with_color};
use crate::options::{BorderLocation2D, GnuplotVersion, PlotOption};
use crate::text::{lemma_encode_utf8_append, put, put_bytes};

verus! {

/// Polar axes, used for polar plots.
pub struct AxesPolar {
    pub common: AxesCommonData,
    pub border_options: BorderOptions,
    pub arrows: Vec<ArrowData>,
    pub legend: Option<LegendData>,
}

impl AxesPolar {
    /// Nothing plotted or set: the full border drawn in front, no arrows, no legend.
    pub open spec fn is_new(&self) -> bool {
        &&& self.common.is_fresh()
        &&& self.border_options.front
        &&& self.border_options.locations@ == seq![BorderLocation2D::Bottom, BorderLocation2D::Left, BorderLocation2D::Top, BorderLocation2D::Right]
        &&& self.border_options.options@.len() == 0
        &&& self.arrows@.len() == 0
        &&& self.legend is None
    }

    /// Empty polar axes with the full border and no legend.
    pub fn new() -> (r: AxesPolar)
        ensures
            r.is_new(),
    {
        AxesPolar {
            common: AxesCommonData::new(),
            border_options: BorderOptions::new(),
            arrows: Vec::new(),
            legend: None,
        }
    }

    /// Sets the border: drawn in front of the plot or behind it, which sides, and its style.
    pub fn set_border(&mut self, front: bool, locations: Vec<BorderLocation2D>, options: Vec<PlotOption>) -> (r: &mut Self)
        ensures
            *r == (AxesPolar { border_options: BorderOptions { front, locations, options }, ..*old(self) }),
            *final(self) == *final(r),
    {
        self.border_options = BorderOptions { front, locations, options };
        self
    }

    /// Shows or hides the X zero axis, with its style.
    pub fn set_x_axis(&mut self, show: bool, options: Vec<PlotOption>) -> (r: &mut Self)
        ensures
            *r == (AxesPolar {
                common: AxesCommonData {
                    x_axis: AxisData { show, options, ..old(self).common.x_axis },
                    ..old(self).common
                },
                ..*old(self)
            }),
            *final(self) == *final(r),
    {
        self.common.x_axis.show = show;
        self.common.x_axis.options = options;
        self
    }

    /// Shows or hides the Y zero axis, with its style.
    pub fn set_y_axis(&mut self, show: bool, options: Vec<PlotOption>) -> (r: &mut Self)
        ensures
            *r == (AxesPolar {
                common: AxesCommonData {
                    y_axis: AxisData { show, options, ..old(self).common.y_axis },
                    ..old(self).common
                },
                ..*old(self)
            }),
            *final(self) == *final(r),
    {
        self.common.y_axis.show = show;
        self.common.y_axis.options = options;
        self
    }

    /// Plots a polar scatter plot with lines connecting the points: angles `x`, radii `y`,
    /// given as the bit patterns of 64-bit floats; `color_values` holds a color value for
    /// each point when the options ask for one.
    pub fn lines(&mut self, x: Vec<u64>, y: Vec<u64>, color_values: Option<Vec<u64>>, options: Vec<PlotOption>) -> (r: &mut Self)
        requires
            color_values is Some <==> needs_color_values(options@),
        ensures
            r.common.elems@.len() == old(self).common.elems@.len() + 1,
            r.common.elems@.drop_last() == old(self).common.elems@,
            is_record_plot(r.common.elems@.last(), PlotType::Lines, with_color(seq![x@, y@], color_values), options),
            *r == (AxesPolar { common: AxesCommonData { elems: r.common.elems, ..old(self).common }, ..*old(self) }),
            *final(self) == *final(r),
    {
        let mut columns: Vec<Vec<u64>> = Vec::new();
        columns.push(x);
        columns.push(y);
        assert(columns_view(columns@) =~= seq![x@, y@]);
        self.common.add_plot(PlotType::Lines, columns, color_values, options);
        self
    }

    /// The script text of the axes before the plot command: polar mode on, their
    /// settings, border, grid, arrows and legend.
    pub open spec fn settings_text(&self, auto_layout: bool, version: GnuplotVersion) -> Seq<char> {
        "set polar\n"@ + self.common.commands_text(auto_layout, version) + self.border_options.commands_text(version)
            + self.common.grid_text(grid_axes_of(self.common), version) + arrows_text(self.arrows@)
            + legend_text(self.legend)
    }

    /// The script text of the axes before their data: the settings, then the plot command.
    pub open spec fn script_text(&self, auto_layout: bool, version: GnuplotVersion) -> Seq<char> {
        self.settings_text(auto_layout, version) + self.common.elements_text("plot"@, None, version)
    }

    fn write_settings(&self, w: &mut String, auto_layout: bool, version: GnuplotVersion)
        requires
            self.common.writable(),
        ensures
            final(w)@ == old(w)@ + self.settings_text(auto_layout, version),
    {
        let ghost start = w@;
        put(w, "set polar\n");
        self.common.write_out_commands(w, auto_layout, version);
        self.border_options.write_out(w, version);
        let axes = grid_axes(&self.common);
        self.common.write_grid_options(w, &axes, version);
        write_arrows(w, &self.arrows);
        match &self.legend {
            Some(l) => l.write_out(w),
            None => {},
        }
        assert(w@ =~= start + self.settings_text(auto_layout, version));
    }

    /// Appends the script text of the axes before their data.
    pub fn write_out_text(&self, w: &mut String, auto_layout: bool, version: GnuplotVersion)
        requires
            self.common.writable(),
        ensures
            final(w)@ == old(w)@ + self.script_text(auto_layout, version),
    {
        let ghost start = w@;
        self.write_settings(w, auto_layout, version);
        self.common.write_elements_text("plot", None, w, version);
        assert(w@ =~= start + self.script_text(auto_layout, version));
    }

    /// The bytes the axes add to a script: their text, the data of all elements, and
    /// polar mode off again.
    pub open spec fn script_bytes(&self, auto_layout: bool, version: GnuplotVersion) -> Seq<u8> {
        vstd::utf8::encode_utf8(self.script_text(auto_layout, version))
            + elements_data(self.common.elems@, self.common.elems@.len())
            + vstd::utf8::encode_utf8("unset polar\n"@)
    }

    /// Appends the axes to a script.
    pub fn write_out(&self, w: &mut Vec<u8>, auto_layout: bool, version: GnuplotVersion)
        requires
            self.common.writable(),
        ensures
            final(w)@ == old(w)@ + self.script_bytes(auto_layout, version),
    {
        let ghost start = w@;
        let mut text = String::new();
        self.write_settings(&mut text, auto_layout, version);
        put_bytes(w, text.as_str());
        self.common.write_out_elements("plot", None, w, version);
        put_bytes(w, "unset polar\n");
        proof {
            lemma_encode_utf8_append(self.settings_text(auto_layout, version), self.common.elements_text("plot"@, None, version));
        }
        assert(w@ =~= start + self.script_bytes(auto_layout, version));
    }

    /// The commands that undo the axes' free labels, arrows and legend.
    pub open spec fn reset_text(&self) -> Seq<char> {
        self.common.reset_text() + arrows_reset_text(self.arrows@) + match self.legend {
            Some(l) => "unset key\n"@,
            None => Seq::empty(),
        }
    }

    /// Appends the commands that undo the axes' free labels, arrows and legend.
    pub fn reset_state(&self, w: &mut String)
        ensures
            final(w)@ == old(w)@ + self.reset_text(),
    {
        let ghost start = w@;
        self.common.reset_state(w);
        reset_arrows(w, &self.arrows);
        match &self.legend {
            Some(l) => l.reset_state(w),
            None => {},
        }
        assert(w@ =~= start + self.reset_text());
    }
}

impl AxesCommon for AxesPolar {
    open spec fn common(&self) -> AxesCommonData {
        self.common
    }

    open spec fn same_rest(&self, other: &Self) -> bool {
        &&& self.border_options == other.border_options
        &&& self.arrows == other.arrows
        &&& self.legend == other.legend
    }

    fn get_common_data(&self) -> (r: &AxesCommonData) {
        &self.common
    }

    fn get_common_data_mut(&mut self) -> (r: &mut AxesCommonData) {
        &mut self.common
    }
}

} // verus!
