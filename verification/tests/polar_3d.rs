use gnuplot::axes3d::Axes3D;
use gnuplot::axes_polar::AxesPolar;
use gnuplot::options::{AutoOption, ContourStyle, GnuplotVersion};

const V5: GnuplotVersion = GnuplotVersion { major: 5, minor: 0 };

#[test]
fn polar_axes_switch_polar_mode_around_their_plot() {
    let mut p = AxesPolar::new();
    p.lines(vec![0f64.to_bits()], vec![1f64.to_bits()], None, vec![]);
    let mut out = Vec::new();
    p.write_out(&mut out, true, V5);
    let text_end = out.len() - 16 - "unset polar\n".len();
    let text = String::from_utf8(out[..text_end].to_vec()).unwrap();
    assert!(text.starts_with("set polar\nset size noratio\n"));
    assert!(text.ends_with("plot \"-\" binary endian=little record=1 format=\"%float64\" using 1:2 with lines lw 1 t \"\"\n"));
    let mut data = 0f64.to_le_bytes().to_vec();
    data.extend_from_slice(&1f64.to_le_bytes());
    assert_eq!(&out[text_end..text_end + 16], &data[..]);
    assert_eq!(&out[text_end + 16..], b"unset polar\n");
}

#[test]
fn empty_3d_axes_write_nothing() {
    let a = Axes3D::new();
    let mut out = Vec::new();
    a.write_out(&mut out, false, V5);
    assert!(out.is_empty());
}

#[test]
fn contours_and_surface() {
    let mut a = Axes3D::new();
    a.show_contours(true, false, ContourStyle::Linear, AutoOption::Auto, AutoOption::Fix(5));
    a.surface(vec![0, 0, 0, 0], 2, 2, None, vec![]);
    let mut s = String::new();
    a.write_out_text(&mut s, false, V5);
    assert!(s.starts_with(
        "set contour base\nset clabel\nset cntrparam linear \nset cntrparam \nset cntrparam \nset cntrparam levels 5\n"
    ));
    assert!(s.ends_with("splot \"-\" binary endian=little array=(2,2) format=\"%float64\"  with pm3d t \"\"\n"));
}

#[test]
fn spline_contours_are_clamped() {
    let mut a = Axes3D::new();
    a.show_contours(false, true, ContourStyle::Spline(1, 50), AutoOption::Fix(String::new()), AutoOption::Auto);
    a.surface(vec![0], 1, 1, None, vec![]);
    let mut s = String::new();
    a.write_out_text(&mut s, false, V5);
    assert!(s.starts_with(
        "set contour surface\nunset clabel\nset cntrparam bspline\nset cntrparam points 2\nset cntrparam order 10\nset cntrparam levels auto \n"
    ));
}
