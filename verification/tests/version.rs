use gnuplot::version::parse_version;

fn parsed(s: &str) -> Option<(i32, i32)> {
    parse_version(s).map(|v| (v.major, v.minor))
}

#[test]
fn reads_gnuplot_version_output() {
    assert_eq!(parsed("gnuplot 5.4 patchlevel 2\n"), Some((5, 4)));
    assert_eq!(parsed("gnuplot 4.6"), Some((4, 6)));
    assert_eq!(parsed("gnuplot 6.0.1"), Some((6, 0)));
}

#[test]
fn rejects_other_texts() {
    assert_eq!(parsed("Gnuplot 5.4"), None);
    assert_eq!(parsed("gnuplot 5"), None);
    assert_eq!(parsed("gnuplot  5.4"), None);
    assert_eq!(parsed("gnuplot 5.x"), None);
    assert_eq!(parsed(""), None);
    assert_eq!(parsed("gnuplot 99999999999.1"), None);
}

#[test]
fn numbers_as_from_str_radix_reads_them() {
    assert_eq!(parsed("gnuplot +5.-3"), Some((5, -3)));
    assert_eq!(parsed("gnuplot 2147483647.-2147483648"), Some((2147483647, -2147483648)));
    assert_eq!(parsed("gnuplot 2147483648.0"), None);
    assert_eq!(parsed("gnuplot -.0"), None);
    assert_eq!(parsed("gnuplot 007.010"), Some((7, 10)));
}
