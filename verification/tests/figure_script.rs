use gnuplot::figure::{Figure, SaveFormat};
use gnuplot::options::GnuplotVersion;

fn bits(v: &[f64]) -> Vec<u64> {
    v.iter().map(|x| x.to_bits()).collect()
}

fn le(v: &[f64]) -> Vec<u8> {
    let mut out = Vec::new();
    for x in v {
        out.extend_from_slice(&x.to_le_bytes());
    }
    out
}

fn axis_block(a: &str, ticks_on: bool) -> String {
    let mut s = String::new();
    s.push_str(&format!("unset {}zeroaxis \n", a));
    s.push_str(&format!("unset logscale {}\n", a));
    s.push_str(&format!("set {}data\n", a));
    if ticks_on {
        s.push_str(&format!("set m{}tics 1\n\n", a));
    } else {
        s.push_str(&format!("unset m{}tics\n\n", a));
    }
    s.push_str(&format!("set {}range [*:*]\n", a));
    if ticks_on {
        s.push_str(&format!("set {}tics autofreq scale 5.000000000000e-1,5.000000000000e-1\n", a));
    } else {
        s.push_str(&format!("unset {}tics\n", a));
    }
    s.push_str(&format!("set {}label \"\"\n\n", a));
    s
}

fn fresh_axes_commands() -> String {
    let mut s = String::new();
    s.push_str("set origin\nset size\nset size noratio\n");
    s.push_str("set lmargin\nset rmargin\nset tmargin\nset bmargin\n");
    s.push_str("set palette rgbformulae 7,5,15\n");
    s.push_str(&axis_block("x", true));
    s.push_str(&axis_block("y", true));
    s.push_str(&axis_block("x2", false));
    s.push_str(&axis_block("y2", false));
    // The color bar has no zero axis.
    s.push_str("\nunset logscale cb\nset cbdata\nset mcbtics 1\n\nset cbrange [*:*]\n");
    s.push_str("set cbtics autofreq scale 5.000000000000e-1,5.000000000000e-1\nset cblabel \"\"\n\n");
    s.push_str("set title \"\"\n");
    s
}

#[test]
fn empty_figure_writes_only_pre_commands() {
    let mut fg = Figure::new();
    fg.set_pre_commands("set foo");
    let mut out = Vec::new();
    fg.echo(&mut out);
    assert_eq!(String::from_utf8(out).unwrap(), "set foo\n");
}

#[test]
fn figure_with_lines_script() {
    let mut fg = Figure::new();
    fg.axes2d().lines(bits(&[1.0, 2.0]), bits(&[3.0, 4.0]), None, vec![]);
    let mut out = Vec::new();
    fg.echo(&mut out);

    let mut expected = String::new();
    expected.push_str("\nset encoding utf8\nset termoption dashed\nset termoption enhanced\nset multiplot\nset tics front\n");
    expected.push_str(&fresh_axes_commands());
    expected.push_str("set border 15 front  lc black lw 1\n");
    expected.push_str("plot \"-\" binary endian=little record=2 format=\"%float64\" using 1:2 with lines lw 1 t \"\"\n");
    let mut expected_bytes = expected.into_bytes();
    expected_bytes.extend(le(&[1.0, 3.0, 2.0, 4.0]));
    expected_bytes.extend_from_slice(b"unset multiplot\n\n");
    assert_eq!(String::from_utf8_lossy(&out), String::from_utf8_lossy(&expected_bytes));
    assert_eq!(out, expected_bytes);
}

#[test]
fn terminal_and_output_in_header() {
    let mut fg = Figure::new();
    fg.set_terminal("pngcairo", "out.png");
    fg.set_enhanced_text(false);
    fg.set_post_commands("pause 1");
    fg.new_page();
    let mut out = Vec::new();
    fg.echo(&mut out);
    let text = String::from_utf8(out).unwrap();
    assert_eq!(
        text,
        "\nset encoding utf8\nset terminal pngcairo\nset output \"out.png\"\nset termoption dashed\nset termoption noenhanced\nset multiplot\nset tics front\nunset multiplot\nset multiplot\nunset multiplot\npause 1\n"
    );
}

#[test]
fn multiplot_layout_options() {
    let mut fg = Figure::new();
    fg.set_multiplot_layout(2, 3);
    fg.set_title("Grid");
    fg.new_page();
    let mut out = Vec::new();
    fg.echo(&mut out);
    let text = String::from_utf8(out).unwrap();
    assert!(text.contains("set multiplot layout 2,3 title \"Grid\"\n"));
}

#[test]
fn version_defaults_to_five() {
    let mut fg = Figure::new();
    let v = fg.get_gnuplot_version();
    assert_eq!((v.major, v.minor), (5, 0));
    fg.set_gnuplot_version(Some(GnuplotVersion { major: 4, minor: 6 }));
    let v = fg.get_gnuplot_version();
    assert_eq!((v.major, v.minor), (4, 6));
    fg.set_gnuplot_version(None);
    assert_eq!(fg.get_gnuplot_version().major, 5);
}

#[test]
fn save_target_and_restore() {
    let mut fg = Figure::new();
    fg.set_terminal("wxt", "");
    let former = fg.set_save_target(SaveFormat::Png, "plot.png", 800, 600);
    assert_eq!(fg.terminal, "pngcairo size 800,600");
    assert_eq!(fg.output_file, "plot.png");
    fg.restore_target(former);
    assert_eq!(fg.terminal, "wxt");
    assert_eq!(fg.output_file, "");
    let former = fg.set_save_target(SaveFormat::Pdf, "p.pdf", 4, 3);
    assert_eq!(fg.terminal, "pdfcairo size 4,3");
    fg.restore_target(former);
    let former = fg.set_save_target(SaveFormat::Eps, "a.eps", 1, 2);
    assert_eq!(former.0, "wxt");
    assert_eq!(former.1, "");
    assert_eq!(fg.terminal, "epscairo size 1,2");
}
