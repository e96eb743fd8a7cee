use gnuplot::axes2d::Axes2D;
use gnuplot::axes_common::PlotType;
use gnuplot::element::{generate_data, PlotElement, NAN_BITS};
use gnuplot::options::GnuplotVersion;

fn bits(v: &[f64]) -> Vec<u64> {
    v.iter().map(|x| x.to_bits()).collect()
}

#[test]
fn data_is_written_little_endian() {
    let mut a = Axes2D::new();
    a.lines(bits(&[1.5, -2.0]), bits(&[0.25, 8.0]), None, vec![]);
    let e = &a.common.elems[0];
    assert_eq!(e.data, bits(&[1.5, 0.25, -2.0, 8.0]));
    let mut out = vec![9u8];
    e.write_data(&mut out);
    let mut expected = vec![9u8];
    for v in [1.5f64, 0.25, -2.0, 8.0] {
        expected.extend_from_slice(&v.to_le_bytes());
    }
    assert_eq!(out, expected);
    // Eight bytes per value: rows times columns values.
    assert_eq!(out.len() - 1, 8 * e.num_rows * e.num_cols);
}

#[test]
fn columns_are_zipped_to_the_shortest() {
    let (data, rows, cols) = generate_data(vec![vec![1, 2, 3], vec![4, 5]], None);
    assert_eq!((data, rows, cols), (vec![1, 4, 2, 5], 2, 2));
    let (data, rows, cols) = generate_data(vec![vec![1, 2, 3], vec![4, 5, 6]], Some(vec![7, 8, 9]));
    assert_eq!((data, rows, cols), (vec![1, 4, 7, 2, 5, 8, 3, 6, 9], 3, 3));
    let (data, rows, cols) = generate_data(vec![vec![1, 2]], Some(vec![]));
    assert_eq!((data, rows, cols), (vec![], 0, 2));
}

#[test]
fn matrix_is_padded_with_nan() {
    let e = PlotElement::new_plot_matrix(PlotType::Image, false, vec![1, 2, 3], 2, 2, None, vec![]);
    assert_eq!(e.data, vec![1, 2, 3, NAN_BITS]);
    assert!(f64::from_bits(NAN_BITS).is_nan());
    let mut s = String::new();
    e.write_args("-", &mut s, GnuplotVersion { major: 5, minor: 0 });
    assert_eq!(s, " \"-\" binary endian=little array=(2,2) format=\"%float64\"  with image t \"\"");
}

#[test]
fn box_error_without_width_gets_negative_widths() {
    let mut a = Axes2D::new();
    a.box_error_low_high(bits(&[1.0, 2.0]), bits(&[3.0, 4.0]), bits(&[2.0, 3.0]), bits(&[4.0, 5.0, 6.0]), None, vec![]);
    let e = &a.common.elems[0];
    assert_eq!(e.num_rows, 2);
    assert_eq!(e.num_cols, 5);
    assert_eq!(e.data, bits(&[1.0, 3.0, 2.0, 4.0, -1.0, 2.0, 4.0, 3.0, 5.0, -1.0]));
}

#[test]
fn fill_between_arguments() {
    let mut a = Axes2D::new();
    a.fill_between(bits(&[1.0]), bits(&[2.0]), bits(&[3.0]), None, vec![]);
    let mut s = String::new();
    a.common.elems[0].write_args("-", &mut s, GnuplotVersion { major: 5, minor: 0 });
    assert_eq!(
        s,
        " \"-\" binary endian=little record=1 format=\"%float64\" using 1:2:3 with filledcurves fill transparent solid 1.000000000000e0 noborder t \"\""
    );
}
