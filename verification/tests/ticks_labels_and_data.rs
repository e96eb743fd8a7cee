use gnuplot::axes2d::Axes2D;
use gnuplot::axes3d::Axes3D;
use gnuplot::axes_common::AxesCommon;
use gnuplot::figure::Figure;
use gnuplot::number::Real;
use gnuplot::options::{AlignType, AutoOption, GnuplotVersion, LabelOption};

const V5: GnuplotVersion = GnuplotVersion { major: 5, minor: 0 };

fn num(v: f64) -> Real {
    let key = if v.is_nan() {
        None
    } else {
        let b = v.to_bits();
        if b >> 63 == 0 { Some(b as i64) } else { Some(-((b & 0x7fff_ffff_ffff_ffff) as i64)) }
    };
    Real { key, sci: format!("{:.12e}", v), plain: format!("{}", v) }
}

#[test]
fn axis_labels_keep_their_alignment() {
    let mut a = Axes2D::new();
    a.set_x_label("x".to_string(), vec![LabelOption::TextAlign(AlignType::AlignRight)]);
    let mut s = String::new();
    a.common.x_axis.write_out_commands(&mut s, V5);
    assert!(s.contains("set xlabel \"x\" right\n"));
}

#[test]
fn nan_tick_interval_is_written() {
    let mut a = Axes2D::new();
    a.set_x_ticks(Some((AutoOption::Fix(num(f64::NAN)), 1)), vec![], vec![]);
    assert!(a.common.is_writable());
    let mut s = String::new();
    a.common.x_axis.write_out_commands(&mut s, V5);
    assert!(s.contains("set xrange [*:*]\nset xtics  NaN scale"));
}

#[test]
fn log_axis_takes_any_minor_tick_count() {
    let mut a = Axes2D::new();
    a.set_y_log(Some(num(2.0)));
    a.set_y_ticks(Some((AutoOption::Auto, 0x7fff_ffff)), vec![], vec![]);
    assert!(a.common.is_writable());
    let mut s = String::new();
    a.common.y_axis.write_out_commands(&mut s, V5);
    assert!(s.contains("set logscale y 2.000000000000e0\n"));
    assert!(s.contains("set mytics default\n"));
}

#[test]
fn empty_3d_axes_are_written_as_nothing_whatever_their_settings() {
    let mut fg = Figure::new();
    fg.axes3d().set_x_ticks(Some((AutoOption::Fix(num(-1.0)), 1)), vec![], vec![]);
    assert!(fg.is_writable());
    let a: &mut Axes3D = fg.axes3d();
    a.set_z_ticks(Some((AutoOption::Fix(num(0.0)), 1)), vec![], vec![]);
    let mut out = Vec::new();
    a.write_out(&mut out, false, V5);
    assert!(out.is_empty());
}

#[test]
fn plot_command_is_followed_by_the_data() {
    let mut a = Axes2D::new();
    a.lines(vec![1f64.to_bits()], vec![2f64.to_bits()], None, vec![]);
    let mut out = Vec::new();
    a.common.write_out_elements("plot", None, &mut out, V5);
    let mut expected = b"plot \"-\" binary endian=little record=1 format=\"%float64\" using 1:2 with lines lw 1 t \"\"\n".to_vec();
    expected.extend_from_slice(&1f64.to_le_bytes());
    expected.extend_from_slice(&2f64.to_le_bytes());
    assert_eq!(out, expected);
    let mut to_files = Vec::new();
    a.common.write_out_elements("plot", Some("d"), &mut to_files, V5);
    assert_eq!(String::from_utf8(to_files).unwrap(), "plot \"d/0.bin\" binary endian=little record=1 format=\"%float64\" using 1:2 with lines lw 1 t \"\"\n");
}

#[test]
fn reals_made_from_floats_are_well_formed() {
    for v in [0.0, -0.0, 1.5, -2.25, f64::NAN, f64::INFINITY, f64::NEG_INFINITY, 1e300] {
        assert!(num(v).is_well_formed());
    }
    let bad = Real { key: Some(-3), sci: "3.000000000000e0".to_string(), plain: "3".to_string() };
    assert!(!bad.is_well_formed());
    let bad_nan = Real { key: None, sci: "1".to_string(), plain: "1".to_string() };
    assert!(!bad_nan.is_well_formed());
}
