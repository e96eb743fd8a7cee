use gnuplot::axes2d::Axes2D;
use gnuplot::axes_common::{char_to_symbol, data_file_path, is_valid_symbol, AxesCommon, AxisData, PlotType, TickAxis};
use gnuplot::color::ColorType;
use gnuplot::coordinates::Coordinate;
use gnuplot::number::Real;
use gnuplot::options::{
    AutoOption, BorderLocation2D, DashType, GnuplotVersion, LabelOption, LegendOption, MarginSide, PlotOption,
};

fn num(v: f64) -> Real {
    let b = v.to_bits();
    let key = if v.is_nan() {
        None
    } else if b >> 63 == 0 {
        Some(b as i64)
    } else {
        Some(-((b & 0x7fff_ffff_ffff_ffff) as i64))
    };
    Real { key, sci: format!("{:.12e}", v), plain: format!("{}", v) }
}

fn graph(v: f64) -> Coordinate {
    Coordinate::Graph(format!("{:.16e}", v))
}

const V5: GnuplotVersion = GnuplotVersion { major: 5, minor: 0 };

#[test]
fn tick_axis_names() {
    assert_eq!(TickAxis::X.get_axis_str(), "x");
    assert_eq!(TickAxis::X.get_tick_str(), "xtics");
    assert_eq!(TickAxis::X.get_mtick_str(), "mxtics");
    assert_eq!(TickAxis::X.get_range_str(), "xrange");
    assert_eq!(TickAxis::Y2.get_tick_str(), "y2tics");
    assert_eq!(TickAxis::CB.get_axis_str(), "cb");
    assert_eq!(TickAxis::CB.get_mtick_str(), "mcbtics");
    assert_eq!(TickAxis::Z.get_range_str(), "zrange");
    assert_eq!(TickAxis::X2.to_axis_str(), "x2");
    assert_eq!(TickAxis::X2.to_tick_str(), "x2tics");
    assert_eq!(TickAxis::X2.to_range_str(), "x2range");
}

#[test]
fn point_symbols() {
    let all = ['.', '+', 'x', '*', 's', 'S', 'o', 'O', 't', 'T', 'd', 'D', 'r', 'R'];
    for (i, c) in all.iter().enumerate() {
        assert!(is_valid_symbol(*c));
        assert_eq!(char_to_symbol(*c), i as i32);
    }
    assert!(!is_valid_symbol('q'));
    assert!(!is_valid_symbol(' '));
}

#[test]
fn plot_type_kinds() {
    assert!(PlotType::Lines.is_line() && !PlotType::Lines.is_points() && !PlotType::Lines.is_fill());
    assert!(PlotType::LinesPoints.is_line() && PlotType::LinesPoints.is_points());
    assert!(!PlotType::XErrorBars.is_line() && PlotType::XErrorBars.is_points());
    assert!(PlotType::Boxes.is_line() && PlotType::Boxes.is_fill());
    assert!(!PlotType::FillBetween.is_line() && PlotType::FillBetween.is_fill());
    assert!(!PlotType::Image.is_line() && !PlotType::Image.is_points() && !PlotType::Image.is_fill());
}

#[test]
fn fresh_axis_commands() {
    let mut s = String::new();
    AxisData::new(TickAxis::Y).write_out_commands(&mut s, V5);
    assert_eq!(
        s,
        "unset yzeroaxis \nunset logscale y\nset ydata\nset mytics 1\n\nset yrange [*:*]\nset ytics autofreq scale 5.000000000000e-1,5.000000000000e-1\nset ylabel \"\"\n\n"
    );
}

#[test]
fn configured_axis_commands() {
    let mut a = Axes2D::new();
    a.set_x_range(AutoOption::Fix(num(-1.0)), AutoOption::Auto);
    a.set_x_reverse(true);
    a.set_x_log(Some(num(10.0)));
    a.set_x_time(true);
    a.set_x_label("time \"s\"".to_string(), vec![]);
    a.set_x_axis(true, vec![PlotOption::LineStyle(DashType::Dash)]);
    a.set_x_ticks(Some((AutoOption::Fix(num(2.0)), 3)), vec![], vec![]);
    let mut s = String::new();
    a.common.x_axis.write_out_commands(&mut s, V5);
    assert_eq!(
        s,
        "set xzeroaxis  lc rgb \"black\" lw 1 dt 2\nset logscale x 1.000000000000e1\nset xdata time\nset mxtics default\n\nset xrange [-1.000000000000e0:*] reverse\nset xtics  2.000000000000e0 scale 5.000000000000e-1,5.000000000000e-1\nset xlabel \"time \\\"s\\\"\"\n\n"
    );
}

#[test]
fn no_ticks_commands() {
    let mut a = Axes2D::new();
    a.set_y_ticks(None, vec![], vec![]);
    let mut s = String::new();
    a.common.y_axis.write_out_commands(&mut s, V5);
    assert!(s.contains("unset mytics\n\n"));
    assert!(s.contains("set yrange [*:*]\nunset ytics\n"));
}

#[test]
fn legend_default_text() {
    let mut a = Axes2D::new();
    a.set_legend(graph(0.5), graph(0.9), vec![], vec![]);
    let mut s = String::new();
    a.legend.as_ref().unwrap().write_out(&mut s);
    assert_eq!(
        s,
        "set key at  graph 5.0000000000000000e-1, graph 9.0000000000000002e-1 right top vertical noreverse noinvert\n"
    );
    let mut r = String::new();
    a.reset_state(&mut r);
    assert_eq!(r, "unset key\n");
}

#[test]
fn legend_options_text() {
    let mut a = Axes2D::new();
    a.set_legend(
        graph(0.5),
        graph(0.5),
        vec![
            LegendOption::Horizontal,
            LegendOption::Reverse,
            LegendOption::Title("Key".to_string()),
            LegendOption::MaxRows(3),
        ],
        vec![],
    );
    let mut s = String::new();
    a.legend.as_ref().unwrap().write_out(&mut s);
    assert_eq!(
        s,
        "set key at  graph 5.0000000000000000e-1, graph 5.0000000000000000e-1 right top horizontal reverse noinvert title \"Key\" maxrows 3\n"
    );
}

#[test]
fn arrows_are_numbered_and_reset() {
    let mut a = Axes2D::new();
    a.arrow(graph(0.1), graph(0.2), graph(0.3), graph(0.4), vec![]);
    a.arrow(graph(0.1), graph(0.2), graph(0.3), graph(0.4), vec![PlotOption::LineStyle(DashType::Dot)]);
    assert_eq!(a.arrows[0].tag, 1);
    assert_eq!(a.arrows[1].tag, 2);
    let mut s = String::new();
    a.arrows[1].write_out(&mut s);
    assert_eq!(
        s,
        "set arrow 2 from  graph 1.0000000000000001e-1, graph 2.0000000000000001e-1 to  graph 2.9999999999999999e-1, graph 4.0000000000000002e-1 size graph 0.05,12 lc black lw 1 lt 3\n"
    );
    let mut r = String::new();
    a.reset_state(&mut r);
    assert_eq!(r, "unset arrow 1\nunset arrow 2\n");
}

#[test]
fn labels_are_numbered_and_reset() {
    let mut a = Axes2D::new();
    a.label("first".to_string(), graph(0.5), graph(0.5), vec![]);
    a.label("second".to_string(), graph(0.5), graph(0.5), vec![LabelOption::MarkerSymbol('o')]);
    let mut s = String::new();
    a.common.labels[1].write_out_commands(&mut s);
    assert_eq!(
        s,
        "set label 2 \"second\" at  graph 5.0000000000000000e-1, graph 5.0000000000000000e-1 front point pt 6\n"
    );
    let mut r = String::new();
    a.reset_state(&mut r);
    assert_eq!(r, "unset label 1\nunset label 2\n");
}

#[test]
fn border_text() {
    let mut a = Axes2D::new();
    a.set_border(false, vec![BorderLocation2D::Bottom, BorderLocation2D::Left], vec![PlotOption::ColorOpt(ColorType::RGBString("red".to_string()))]);
    let mut s = String::new();
    a.border_options.write_out(&mut s, V5);
    assert_eq!(s, "set border 3 back  lc rgb \"red\" lw 1\n");
}

#[test]
fn margins_last_value_wins() {
    let mut a = Axes2D::new();
    a.set_margins(vec![MarginSide::MarginLeft(num(0.1)), MarginSide::MarginTop(num(0.9)), MarginSide::MarginLeft(num(0.2))]);
    let mut s = String::new();
    a.common.margins.write_out_commands(&mut s);
    assert_eq!(s, "set lmargin at screen 0.2\nset rmargin\nset tmargin at screen 0.9\nset bmargin\n");
}

#[test]
fn grid_text() {
    let mut a = Axes2D::new();
    a.set_x_grid(true);
    a.set_x_minor_grid(true);
    a.set_y_grid(true);
    let mut s = String::new();
    a.write_out_text(None, &mut s, false, V5);
    assert!(s.contains("set grid xtics mxtics ytics back  lw 1,  lw 1\n"));
}

#[test]
fn data_files_are_numbered_in_directory() {
    assert_eq!(data_file_path("plots", 3), "plots/3.bin");
    assert_eq!(data_file_path("/tmp/d/", 0), "/tmp/d/0.bin");
}

#[test]
fn first_caption_counts() {
    let mut a = Axes2D::new();
    a.lines(
        vec![0f64.to_bits()],
        vec![1f64.to_bits()],
        None,
        vec![PlotOption::Caption("one".to_string()), PlotOption::Caption("two".to_string())],
    );
    let mut s = String::new();
    a.common.elems[0].write_args("-", &mut s, V5);
    assert_eq!(s, " \"-\" binary endian=little record=1 format=\"%float64\" using 1:2 with lines lw 1 t \"one\"");
}

#[test]
fn empty_elements_are_skipped() {
    let mut a = Axes2D::new();
    a.lines(vec![], vec![], None, vec![]);
    a.points(vec![1f64.to_bits()], vec![2f64.to_bits()], None, vec![PlotOption::PointSymbol('x')]);
    let mut s = String::new();
    a.write_out_text(None, &mut s, true, V5);
    assert!(s.ends_with("plot \"-\" binary endian=little record=1 format=\"%float64\" using 1:2 with points pt 2 t \"\"\n"));
}
