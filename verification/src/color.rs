//! Colors of plot elements, borders and text.
use vstd::prelude::*;
use crate::number::Real;
use crate::text::{dec_nat, put, put_u64};

verus! {

/// The ways gnuplot can be told a color.
///
/// As gnuplot's colorspec documents, `RGBInteger(0, 0, 255)` and
/// `ARGBInteger(0, 0, 0, 255)` give the same blue; an alpha of 0 is fully opaque
/// and an alpha of 255 fully transparent.
#[derive(Clone, Debug)]
pub enum ColorType {
    /// A color name (`"blue"`), or `0xRRGGBB`, `0xAARRGGBB`, `#RRGGBB`, `#AARRGGBB`.
    RGBString(String),
    /// Red, green and blue, each 0-255.
    RGBInteger(u8, u8, u8),
    /// Alpha, red, green and blue, each 0-255.
    ARGBInteger(u8, u8, u8, u8),
    /// A red, green and blue triple for each data point.
    VariableRGBInteger(Vec<(u8, u8, u8)>),
    /// An alpha, red, green and blue quadruple for each data point.
    VariableARGBInteger(Vec<(u8, u8, u8, u8)>),
    /// A fraction (0 to 1) of the palette's color range.
    PaletteFracColor(Real),
    /// A value in the color bar's range, picked from the palette.
    PaletteCBColor(Real),
    /// A palette value for each data point.
    VariablePaletteColor(Vec<Real>),
    /// A named color map and a value in it for each data point.
    SavedColorMap(String, Vec<Real>),
    /// The `n`th color of gnuplot's color cycle.
    Index(u8),
    /// An index into gnuplot's color cycle for each data point.
    VariableIndex(Vec<u8>),
    /// The background color.
    Background,
    /// Black.
    Black,
}

/// The 32-bit `0xAARRGGBB` integer of a color.
pub open spec fn argb_value(a: u8, r: u8, g: u8, b: u8) -> nat {
    (a as nat) * 0x1000000 + (r as nat) * 0x10000 + (g as nat) * 0x100 + (b as nat)
}

/// Packs alpha, red, green and blue into one `0xAARRGGBB` integer.
pub fn from_argb(a: u8, r: u8, g: u8, b: u8) -> (v: u32)
    ensures
        v as nat == argb_value(a, r, g, b),
{
    (a as u32) * 0x1000000 + (r as u32) * 0x10000 + (g as u32) * 0x100 + (b as u32)
}

/// Each component can be read back from the packed integer: packing loses nothing.
pub proof fn lemma_argb_components(a: u8, r: u8, g: u8, b: u8)
    ensures
        argb_value(a, r, g, b) / 0x1000000 == a as nat,
        (argb_value(a, r, g, b) / 0x10000) % 0x100 == r as nat,
        (argb_value(a, r, g, b) / 0x100) % 0x100 == g as nat,
        argb_value(a, r, g, b) % 0x100 == b as nat,
{
    let v = argb_value(a, r, g, b);
    assert(v / 0x1000000 == a as nat) by (nonlinear_arith)
        requires v == (a as nat) * 0x1000000 + (r as nat) * 0x10000 + (g as nat) * 0x100 + (b as nat),
            r < 256, g < 256, b < 256;
    assert((v / 0x10000) % 0x100 == r as nat) by (nonlinear_arith)
        requires v == (a as nat) * 0x1000000 + (r as nat) * 0x10000 + (g as nat) * 0x100 + (b as nat),
            r < 256, g < 256, b < 256;
    assert((v / 0x100) % 0x100 == g as nat) by (nonlinear_arith)
        requires v == (a as nat) * 0x1000000 + (r as nat) * 0x10000 + (g as nat) * 0x100 + (b as nat),
            r < 256, g < 256, b < 256;
    assert(v % 0x100 == b as nat) by (nonlinear_arith)
        requires v == (a as nat) * 0x1000000 + (r as nat) * 0x10000 + (g as nat) * 0x100 + (b as nat),
            r < 256, g < 256, b < 256;
}

impl ColorType {
    /// The gnuplot text that selects this color.
    pub open spec fn command_text(&self) -> Seq<char> {
        match self {
            ColorType::RGBString(s) => "rgb \""@ + s@ + "\""@,
            ColorType::RGBInteger(r, g, b) => "rgb "@ + dec_nat(argb_value(0, *r, *g, *b)),
            ColorType::ARGBInteger(a, r, g, b) => "rgb "@ + dec_nat(argb_value(*a, *r, *g, *b)),
            ColorType::VariableRGBInteger(_) => "rgb variable"@,
            ColorType::VariableARGBInteger(_) => "rgb variable"@,
            ColorType::PaletteFracColor(v) => "palette frac "@ + v.plain@,
            ColorType::PaletteCBColor(v) => "palette cb "@ + v.plain@,
            ColorType::VariablePaletteColor(_) => "palette z"@,
            ColorType::SavedColorMap(s, _) => "palette "@ + s@,
            ColorType::VariableIndex(_) => "variable"@,
            ColorType::Background => "bgnd"@,
            ColorType::Index(n) => dec_nat(*n as nat),
            ColorType::Black => "black"@,
        }
    }

    /// Appends the gnuplot text that selects this color.
    pub fn write_command(&self, out: &mut String)
        ensures
            final(out)@ == old(out)@ + self.command_text(),
    {
        let ghost start = out@;
        match self {
            ColorType::RGBString(s) => {
                put(out, "rgb \"");
                put(out, s.as_str());
                put(out, "\"");
            },
            ColorType::RGBInteger(r, g, b) => {
                put(out, "rgb ");
                put_u64(out, from_argb(0, *r, *g, *b) as u64);
            },
            ColorType::ARGBInteger(a, r, g, b) => {
                put(out, "rgb ");
                put_u64(out, from_argb(*a, *r, *g, *b) as u64);
            },
            ColorType::VariableRGBInteger(_) => put(out, "rgb variable"),
            ColorType::VariableARGBInteger(_) => put(out, "rgb variable"),
            ColorType::PaletteFracColor(v) => {
                put(out, "palette frac ");
                put(out, v.plain.as_str());
            },
            ColorType::PaletteCBColor(v) => {
                put(out, "palette cb ");
                put(out, v.plain.as_str());
            },
            ColorType::VariablePaletteColor(_) => put(out, "palette z"),
            ColorType::SavedColorMap(s, _) => {
                put(out, "palette ");
                put(out, s.as_str());
            },
            ColorType::VariableIndex(_) => put(out, "variable"),
            ColorType::Background => put(out, "bgnd"),
            ColorType::Index(n) => put_u64(out, *n as u64),
            ColorType::Black => put(out, "black"),
        }
        assert(out@ =~= start + self.command_text());
    }

    /// The gnuplot text that selects this color.
    pub fn command(&self) -> (res: String)
        ensures
            res@ == self.command_text(),
    {
        let mut res = String::new();
        self.write_command(&mut res);
        assert(res@ =~= self.command_text());
        res
    }

    /// Whether the color gives a separate value for each data point.
    pub open spec fn spec_is_variable(&self) -> bool {
        ||| self is VariableRGBInteger
        ||| self is VariableARGBInteger
        ||| self is VariableIndex
        ||| self is VariablePaletteColor
        ||| self is SavedColorMap
    }

    /// Whether the color gives a separate value for each data point.
    pub fn is_variable(&self) -> (r: bool)
        ensures
            r == self.spec_is_variable(),
    {
        match self {
            ColorType::VariableRGBInteger(_) => true,
            ColorType::VariableARGBInteger(_) => true,
            ColorType::VariableIndex(_) => true,
            ColorType::VariablePaletteColor(_) => true,
            ColorType::SavedColorMap(_, _) => true,
            _ => false,
        }
    }

    /// Whether the color carries an alpha channel: the integer forms with alpha, and
    /// the strings `0xAARRGGBB` (10 characters) and `#AARRGGBB` (9 characters).
    pub open spec fn spec_has_alpha(&self) -> bool {
        match self {
            ColorType::RGBString(s) => {
                ||| s@.len() == 10 && s@[0] == '0' && s@[1] == 'x'
                ||| s@.len() == 9 && s@[0] == '#'
            },
            ColorType::ARGBInteger(_, _, _, _) => true,
            ColorType::VariableARGBInteger(_) => true,
            _ => false,
        }
    }

    /// Whether the color carries an alpha channel.
    pub fn has_alpha(&self) -> (r: bool)
        ensures
            r == self.spec_has_alpha(),
    {
        match self {
            ColorType::RGBString(s) => {
                let t = s.as_str();
                let n = t.unicode_len();
                if n == 10 {
                    t.get_char(0) == '0' && t.get_char(1) == 'x'
                } else if n == 9 {
                    t.get_char(0) == '#'
                } else {
                    false
                }
            },
            ColorType::ARGBInteger(_, _, _, _) => true,
            ColorType::VariableARGBInteger(_) => true,
            _ => false,
        }
    }
}

impl From<String> for ColorType {
    /// The color of a color name or hexadecimal color text, as `RGBString`.
    fn from(value: String) -> (r: ColorType) {
        ColorType::RGBString(value)
    }
}

impl vstd::std_specs::convert::FromSpecImpl<String> for ColorType {
    open spec fn obeys_from_spec() -> bool {
        true
    }

    open spec fn from_spec(v: String) -> ColorType {
        ColorType::RGBString(v)
    }
}

impl From<(u8, u8, u8)> for ColorType {
    /// The color of red, green and blue, as `RGBInteger`.
    fn from(value: (u8, u8, u8)) -> (r: ColorType) {
        ColorType::RGBInteger(value.0, value.1, value.2)
    }
}

impl vstd::std_specs::convert::FromSpecImpl<(u8, u8, u8)> for ColorType {
    open spec fn obeys_from_spec() -> bool {
        true
    }

    open spec fn from_spec(v: (u8, u8, u8)) -> ColorType {
        ColorType::RGBInteger(v.0, v.1, v.2)
    }
}

impl From<(u8, u8, u8, u8)> for ColorType {
    /// The color of alpha, red, green and blue, as `ARGBInteger`.
    fn from(value: (u8, u8, u8, u8)) -> (r: ColorType) {
        ColorType::ARGBInteger(value.0, value.1, value.2, value.3)
    }
}

impl vstd::std_specs::convert::FromSpecImpl<(u8, u8, u8, u8)> for ColorType {
    open spec fn obeys_from_spec() -> bool {
        true
    }

    open spec fn from_spec(v: (u8, u8, u8, u8)) -> ColorType {
        ColorType::ARGBInteger(v.0, v.1, v.2, v.3)
    }
}

impl From<Vec<(u8, u8, u8)>> for ColorType {
    /// The color of a red, green and blue triple for each data point, as `VariableRGBInteger`.
    fn from(value: Vec<(u8, u8, u8)>) -> (r: ColorType) {
        ColorType::VariableRGBInteger(value)
    }
}

impl vstd::std_specs::convert::FromSpecImpl<Vec<(u8, u8, u8)>> for ColorType {
    open spec fn obeys_from_spec() -> bool {
        true
    }

    open spec fn from_spec(v: Vec<(u8, u8, u8)>) -> ColorType {
        ColorType::VariableRGBInteger(v)
    }
}

impl From<Vec<(u8, u8, u8, u8)>> for ColorType {
    /// The color of an alpha, red, green and blue quadruple for each data point, as `VariableARGBInteger`.
    fn from(value: Vec<(u8, u8, u8, u8)>) -> (r: ColorType) {
        ColorType::VariableARGBInteger(value)
    }
}

impl vstd::std_specs::convert::FromSpecImpl<Vec<(u8, u8, u8, u8)>> for ColorType {
    open spec fn obeys_from_spec() -> bool {
        true
    }

    open spec fn from_spec(v: Vec<(u8, u8, u8, u8)>) -> ColorType {
        ColorType::VariableARGBInteger(v)
    }
}

impl From<u8> for ColorType {
    /// The color of a color index, as `Index`.
    fn from(value: u8) -> (r: ColorType) {
        ColorType::Index(value)
    }
}

impl vstd::std_specs::convert::FromSpecImpl<u8> for ColorType {
    open spec fn obeys_from_spec() -> bool {
        true
    }

    open spec fn from_spec(v: u8) -> ColorType {
        ColorType::Index(v)
    }
}

impl From<Vec<u8>> for ColorType {
    /// The color of a color index for each data point, as `VariableIndex`.
    fn from(value: Vec<u8>) -> (r: ColorType) {
        ColorType::VariableIndex(value)
    }
}

impl vstd::std_specs::convert::FromSpecImpl<Vec<u8>> for ColorType {
    open spec fn obeys_from_spec() -> bool {
        true
    }

    open spec fn from_spec(v: Vec<u8>) -> ColorType {
        ColorType::VariableIndex(v)
    }
}

/// An opaque integer color and the same color with alpha 0 select the same color.
pub proof fn lemma_rgb_is_opaque_argb(r: u8, g: u8, b: u8)
    ensures
        ColorType::RGBInteger(r, g, b).command_text()
            == ColorType::ARGBInteger(0, r, g, b).command_text(),
{
}

} // verus!
