use gnuplot::axes2d::Axes2D;
use gnuplot::axes3d::Axes3D;
use gnuplot::axes_common::AxesCommon;
use gnuplot::coordinates::Coordinate;
use gnuplot::figure::Figure;
use gnuplot::number::Real;
use gnuplot::options::{AutoOption, ContourStyle, GnuplotVersion, PaletteType, PlotOption};

const V5: GnuplotVersion = GnuplotVersion { major: 5, minor: 0 };

fn num(v: f64) -> Real {
    let b = v.to_bits();
    let key = if b >> 63 == 0 { Some(b as i64) } else { Some(-((b & 0x7fff_ffff_ffff_ffff) as i64)) };
    Real { key, sci: format!("{:.12e}", v), plain: format!("{}", v) }
}

fn commands(a: &Axes2D, auto_layout: bool) -> String {
    let mut s = String::new();
    a.common.write_out_commands(&mut s, auto_layout, V5);
    s
}

#[test]
fn views_and_custom_contours() {
    let mut a = Axes3D::new();
    a.show_contours_custom(true, true, ContourStyle::Cubic(500), AutoOption::Fix("%g".to_string()), vec![num(1.0), num(2.5)]);
    a.set_view(num(45.0), num(30.0));
    a.set_view_map();
    a.surface(vec![0], 1, 1, None, vec![]);
    let mut s = String::new();
    a.write_out_text(&mut s, false, V5);
    assert!(s.starts_with(
        "set contour both\nset clabel \"%g\"\nset cntrparam cubicspline\nset cntrparam points 100\nset cntrparam \nset cntrparam levels discrete 1.000000000000e0,2.500000000000e0\nset view 4.500000000000e1,3.000000000000e1\nset view map\nset origin\n"
    ));
}

#[test]
fn box_and_whisker_arguments() {
    let mut a = Axes2D::new();
    let b = |v: f64| vec![v.to_bits()];
    a.box_and_whisker(b(1.0), b(2.0), b(0.0), b(5.0), b(3.0), None, vec![PlotOption::WhiskerBars(num(0.5))]);
    let mut s = String::new();
    a.common.elems[0].write_args("-", &mut s, V5);
    assert_eq!(
        s,
        " \"-\" binary endian=little record=1 format=\"%float64\" using 1:2:3:4:5 with candlestick fill transparent solid 1.000000000000e0 lw 1 t \"\" whiskerbars 0.5"
    );
    assert_eq!(a.common.elems[0].data, vec![1f64.to_bits(), 2f64.to_bits(), 0f64.to_bits(), 5f64.to_bits(), 3f64.to_bits()]);
}

#[test]
fn palette_commands() {
    let mut a = Axes2D::new();
    a.set_palette(PaletteType::Gray(num(1.0)));
    assert!(commands(&a, true).contains("set palette gray gamma 1.000000000000e0\n"));
    a.set_palette(PaletteType::CubeHelix(num(0.5), num(-0.75), num(2.0), num(1.0)));
    assert!(commands(&a, true).contains(
        "set palette cubehelix start 5.000000000000e-1 cycles -7.500000000000e-1 saturation 2.000000000000e0 gamma 1.000000000000e0\n"
    ));
    a.set_palette(PaletteType::Custom(vec![(num(0.0), num(0.0), num(0.0), num(0.0)), (num(1.0), num(1.0), num(0.5), num(0.0))]));
    assert!(commands(&a, true).contains(
        "set palette defined (0.000000000000e0 0.000000000000e0 0.000000000000e0 0.000000000000e0,1.000000000000e0 1.000000000000e0 5.000000000000e-1 0.000000000000e0)\n"
    ));
    a.set_palette(PaletteType::Formula(33, 13, 10));
    assert!(commands(&a, true).contains("set palette rgbformulae 33,13,10\n"));
    assert!(a.common.is_writable());
}

#[test]
fn invalid_palettes_are_not_writable() {
    let mut a = Axes2D::new();
    a.set_palette(PaletteType::Formula(37, 0, 0));
    assert!(!a.common.is_writable());
    a.set_palette(PaletteType::Gray(num(0.0)));
    assert!(!a.common.is_writable());
    a.set_palette(PaletteType::Custom(vec![(num(0.0), num(0.0), num(0.0), num(0.0))]));
    assert!(!a.common.is_writable());
    a.set_palette(PaletteType::Custom(vec![(num(1.0), num(0.0), num(0.0), num(0.0)), (num(0.5), num(0.0), num(0.0), num(0.0))]));
    assert!(!a.common.is_writable());
}

#[test]
fn invalid_ticks_are_not_writable() {
    let mut a = Axes2D::new();
    a.set_x_ticks(Some((AutoOption::Fix(num(0.0)), 1)), vec![], vec![]);
    assert!(!a.common.is_writable());
    a.set_x_ticks(Some((AutoOption::Auto, 0x7fff_ffff)), vec![], vec![]);
    assert!(!a.common.is_writable());
    a.set_x_ticks(Some((AutoOption::Auto, 0xffff_ffff)), vec![], vec![]);
    assert!(a.common.is_writable());
    let mut s = String::new();
    a.common.x_axis.write_out_commands(&mut s, V5);
    assert!(s.contains("set mxtics 0\n"));
}

#[test]
fn position_size_and_ratio() {
    let mut a = Axes2D::new();
    assert!(commands(&a, false).starts_with("set origin\nset size\nset size noratio\n"));
    assert!(commands(&a, true).starts_with("set size noratio\n"));
    a.set_pos(num(0.1), num(0.25));
    a.set_size(num(0.5), num(0.5));
    a.set_aspect_ratio(AutoOption::Fix(num(2.0)));
    assert!(commands(&a, true).starts_with(
        "set origin 1.000000000000e-1,2.500000000000e-1\nset size 5.000000000000e-1,5.000000000000e-1\nset size ratio 2.000000000000e0\n"
    ));
}

#[test]
fn labels_of_one_axes_are_removed_before_the_next() {
    let mut fg = Figure::new();
    fg.axes2d().label("note".to_string(), Coordinate::Graph("0".to_string()), Coordinate::Graph("0".to_string()), vec![]);
    fg.axes2d();
    let mut out = Vec::new();
    fg.echo(&mut out);
    let text = String::from_utf8(out).unwrap();
    assert!(text.contains("set label 1 \"note\" at  graph 0, graph 0 front\nset border"));
    assert!(text.contains("plot\nunset label 1\nset origin\n"));
    assert!(text.ends_with("plot\nunset multiplot\n\n"));
}
