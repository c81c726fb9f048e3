//! Fonts: as the toolkit preferences hold them, and as the foreign toolkit is
//! told of them.
//!
//! The foreign toolkit is Qt. Its font weights are the numbers of
//! `QFont::Weight`, from 100 (thin) to 900 (black); its font widths are the
//! percentages of `QFont::Stretch`, from 50 (ultra condensed) to 200 (ultra
//! expanded).

use vstd::prelude::*;
use crate::cstring::{c_string_of, c_string_view, is_c_string, lemma_c_string_of_well_formed};

verus! {

/// Which of the toolkit's fonts is asked for.
#[derive(Clone, Copy, Debug, PartialEq, Eq, Structural)]
pub enum CosmicFontKind {
    Interface,
    Monospace,
}

/// Font style as the foreign toolkit knows it.
#[derive(Clone, Copy, Debug, PartialEq, Eq, Structural)]
pub enum CosmicFontStyle {
    Normal,
    Italic,
    Oblique,
}

/// Font descriptor handed to the foreign toolkit.
///
/// `family` is an owned C string, absent where the family name cannot be framed
/// as one. `weight` and `stretch` are on the foreign toolkit's numeric scales.
#[derive(Clone, Debug, PartialEq, Eq)]
pub struct CosmicFont {
    pub family: Option<Vec<u8>>,
    pub style: CosmicFontStyle,
    pub weight: i32,
    pub stretch: i32,
}

/// A font descriptor as plain mathematical values.
pub struct CosmicFontView {
    pub family: Option<Seq<u8>>,
    pub style: CosmicFontStyle,
    pub weight: int,
    pub stretch: int,
}

impl View for CosmicFont {
    type V = CosmicFontView;

    open spec fn view(&self) -> CosmicFontView {
        CosmicFontView {
            family: c_string_view(self.family),
            style: self.style,
            weight: self.weight as int,
            stretch: self.stretch as int,
        }
    }
}

/// Slant of a configured font.
#[derive(Clone, Copy, Debug, PartialEq, Eq, Structural)]
pub enum FontStyle {
    Normal,
    Italic,
    Oblique,
}

/// Weight of a configured font, lightest first.
#[derive(Clone, Copy, Debug, PartialEq, Eq, Structural)]
pub enum FontWeight {
    Thin,
    ExtraLight,
    Light,
    Normal,
    Medium,
    Semibold,
    Bold,
    ExtraBold,
    Black,
}

/// Width of a configured font, narrowest first.
#[derive(Clone, Copy, Debug, PartialEq, Eq, Structural)]
pub enum FontStretch {
    UltraCondensed,
    ExtraCondensed,
    Condensed,
    SemiCondensed,
    Normal,
    SemiExpanded,
    Expanded,
    ExtraExpanded,
    UltraExpanded,
}

/// One font of the toolkit preferences.
#[derive(Clone, Debug, PartialEq, Eq)]
pub struct FontConfig {
    pub family: String,
    pub weight: FontWeight,
    pub stretch: FontStretch,
    pub style: FontStyle,
}

/// The style of the foreign toolkit that stands for a configured slant.
pub open spec fn foreign_style(style: FontStyle) -> CosmicFontStyle {
    match style {
        FontStyle::Normal => CosmicFontStyle::Normal,
        FontStyle::Italic => CosmicFontStyle::Italic,
        FontStyle::Oblique => CosmicFontStyle::Oblique,
    }
}

/// A weight on the foreign toolkit's scale, which runs from 100 to 900 in steps
/// of 100.
pub open spec fn foreign_weight(weight: FontWeight) -> int {
    match weight {
        FontWeight::Thin => 100,
        FontWeight::ExtraLight => 200,
        FontWeight::Light => 300,
        FontWeight::Normal => 400,
        FontWeight::Medium => 500,
        FontWeight::Semibold => 600,
        FontWeight::Bold => 700,
        FontWeight::ExtraBold => 800,
        FontWeight::Black => 900,
    }
}

/// A width on the foreign toolkit's scale, in percent of the normal width.
pub open spec fn foreign_stretch(stretch: FontStretch) -> int {
    match stretch {
        FontStretch::UltraCondensed => 50,
        FontStretch::ExtraCondensed => 62,
        FontStretch::Condensed => 75,
        FontStretch::SemiCondensed => 87,
        FontStretch::Normal => 100,
        FontStretch::SemiExpanded => 112,
        FontStretch::Expanded => 125,
        FontStretch::ExtraExpanded => 150,
        FontStretch::UltraExpanded => 200,
    }
}

/// The descriptor that the foreign toolkit is given for a configured font.
pub open spec fn describe_font(font: FontConfig) -> CosmicFontView {
    CosmicFontView {
        family: c_string_of(font.family@),
        style: foreign_style(font.style),
        weight: foreign_weight(font.weight),
        stretch: foreign_stretch(font.stretch),
    }
}

/// Every font descriptor lies on the foreign toolkit's scales: the weight is a
/// multiple of 100 from 100 to 900, the stretch one of the nine named widths.
/// The family is present exactly when the family name holds no NUL character,
/// and is then a well-formed C string.
pub proof fn lemma_descriptor_on_scale(font: FontConfig)
    ensures
        100 <= describe_font(font).weight <= 900,
        describe_font(font).weight % 100 == 0,
        set![50int, 62, 75, 87, 100, 112, 125, 150, 200].contains(describe_font(font).stretch),
        describe_font(font).family is Some <==> !font.family@.contains('\0'),
        describe_font(font).family matches Some(bytes) ==> is_c_string(bytes),
{
    if !font.family@.contains('\0') {
        lemma_c_string_of_well_formed(font.family@);
    }
}

} // verus!
