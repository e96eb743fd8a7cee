use gnuplot::color::{from_argb, ColorType};
use gnuplot::error_types::GnuplotInitError;
use gnuplot::options::{color_palette, hot_palette, rainbow_palette, PaletteType};
use gnuplot::options::{AutoOption, BorderColor, BorderLocation2D, Color, DashType, FillPatternType, LabelOption, PlotOption, TextColor};

#[test]
fn argb_packing() {
    assert_eq!(from_argb(0x12, 0x34, 0x56, 0x78), 0x1234_5678);
    assert_eq!(from_argb(0, 0, 0, 255), 255);
    assert_eq!(from_argb(255, 255, 255, 255), u32::MAX);
}

#[test]
fn color_commands() {
    assert_eq!(ColorType::RGBInteger(0, 0, 255).command(), "rgb 255");
    assert_eq!(ColorType::ARGBInteger(0, 0, 0, 255).command(), ColorType::RGBInteger(0, 0, 255).command());
    assert_eq!(ColorType::ARGBInteger(1, 0, 0, 0).command(), "rgb 16777216");
    assert_eq!(ColorType::RGBString("blue".to_string()).command(), "rgb \"blue\"");
    assert_eq!(ColorType::Index(7).command(), "7");
    assert_eq!(ColorType::Black.command(), "black");
    assert_eq!(ColorType::Background.command(), "bgnd");
    assert_eq!(ColorType::VariableIndex(vec![1, 2]).command(), "variable");
    assert_eq!(ColorType::VariableRGBInteger(vec![]).command(), "rgb variable");
    assert_eq!(ColorType::SavedColorMap("cm".to_string(), vec![]).command(), "palette cm");
}

#[test]
fn color_kinds() {
    assert!(ColorType::VariableIndex(vec![]).is_variable());
    assert!(!ColorType::Index(1).is_variable());
    assert!(ColorType::RGBString("#80ff0000".to_string()).has_alpha());
    assert!(ColorType::RGBString("0x80ff0000".to_string()).has_alpha());
    assert!(!ColorType::RGBString("#ff0000".to_string()).has_alpha());
    assert!(!ColorType::RGBString("0xff0000".to_string()).has_alpha());
    assert!(ColorType::ARGBInteger(0, 1, 2, 3).has_alpha());
    assert!(!ColorType::RGBInteger(1, 2, 3).has_alpha());
}

#[test]
fn option_numbers() {
    assert_eq!(DashType::Solid.to_int(), 1);
    assert_eq!(DashType::SmallDot.to_int(), 0);
    assert_eq!(DashType::DotDotDash.to_int(), 5);
    assert_eq!(BorderLocation2D::Bottom.to_int(), 1);
    assert_eq!(BorderLocation2D::Right.to_int(), 8);
    assert_eq!(FillPatternType::Pattern8.to_int(), 8);
    assert_eq!(FillPatternType::BigCrosses.to_int(), 1);
}

#[test]
fn auto_option_map() {
    assert!(matches!(AutoOption::Fix(2).map(|x| x * 3), AutoOption::Fix(6)));
    assert!(matches!(AutoOption::<i32>::Auto.map(|x| x * 3), AutoOption::Auto));
}

#[test]
fn color_option_constructors() {
    assert!(matches!(Color(ColorType::Black), PlotOption::ColorOpt(ColorType::Black)));
    assert!(matches!(BorderColor(ColorType::Index(2)), PlotOption::BorderColorOpt(ColorType::Index(2))));
    assert!(matches!(TextColor(ColorType::Background), LabelOption::TextColorOpt(ColorType::Background)));
}

#[test]
fn init_error_message() {
    let e = GnuplotInitError { cause: "not found".to_string() };
    assert_eq!(e.message(), "Couldn't spawn gnuplot. Make sure it is installed and available in PATH.\nCause: not found");
}

#[test]
fn colors_from_plain_values() {
    assert_eq!(ColorType::from((1u8, 2u8, 3u8)).command(), "rgb 66051");
    assert_eq!(ColorType::from((0u8, 0u8, 0u8, 255u8)).command(), "rgb 255");
    assert_eq!(ColorType::from("red".to_string()).command(), "rgb \"red\"");
    assert_eq!(ColorType::from(4u8).command(), "4");
    assert!(ColorType::from(vec![1u8, 2u8]).is_variable());
    assert!(ColorType::from(vec![(1u8, 2u8, 3u8)]).is_variable());
    assert!(ColorType::from(vec![(1u8, 2u8, 3u8, 4u8)]).has_alpha());
}

#[test]
fn integer_palettes() {
    assert!(matches!(color_palette(), PaletteType::Formula(7, 5, 15)));
    assert!(matches!(rainbow_palette(), PaletteType::Formula(33, 13, 10)));
    assert!(matches!(hot_palette(), PaletteType::Formula(34, 35, 36)));
}

#[test]
fn auto_option_map_laws_on_values() {
    assert!(matches!(AutoOption::Fix(4).map(|x| x), AutoOption::Fix(4)));
    let twice = AutoOption::Fix(4).map(|x| x + 1).map(|x| x * 2);
    let once = AutoOption::Fix(4).map(|x| (x + 1) * 2);
    assert!(matches!((twice, once), (AutoOption::Fix(10), AutoOption::Fix(10))));
    assert!(matches!(AutoOption::<i32>::Auto.map(|x| x + 1).map(|x| x * 2), AutoOption::Auto));
}
