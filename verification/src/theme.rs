//! The loaded theme and toolkit preferences, and what the foreign toolkit reads
//! from them.
//!
//! The host resolves a theme and reads the preferences; a load stores both as
//! one snapshot, and the accessors answer from the snapshot alone. Nothing can
//! be read before the first load.

use vstd::prelude::*;
use crate::cstring::{c_string_of, c_string_view, strdup};
use crate::font::{
    describe_font, CosmicFont, CosmicFontKind, CosmicFontStyle, FontConfig, FontStretch,
    FontStyle, FontWeight,
};

verus! {

/// Which of the desktop's themes a load resolves.
#[derive(Clone, Copy, Debug, PartialEq, Eq, Structural)]
pub enum CosmicThemeKind {
    SystemPreference,
    Dark,
    Light,
}

/// What the foreign toolkit reads from a resolved theme.
#[derive(Clone, Copy, Debug, PartialEq, Eq, Structural)]
pub struct ResolvedTheme {
    pub is_dark: bool,
    pub is_high_contrast: bool,
}

/// The toolkit preferences that the foreign toolkit reads.
#[derive(Clone, Debug, PartialEq, Eq)]
pub struct ToolkitConfig {
    pub icon_theme: String,
    pub interface_font: FontConfig,
    pub monospace_font: FontConfig,
}

/// A theme and the toolkit preferences, as they were when they were loaded.
#[derive(Clone, Debug, PartialEq, Eq)]
pub struct ThemeSnapshot {
    pub theme: ResolvedTheme,
    pub toolkit: ToolkitConfig,
}

/// The snapshot that the accessors read: absent until the first load.
///
/// A load takes the state exclusively, so no reader sees a snapshot that is
/// half written.
#[derive(Debug)]
pub struct ThemeState {
    loaded: Option<ThemeSnapshot>,
}

impl View for ThemeState {
    type V = Option<ThemeSnapshot>;

    closed spec fn view(&self) -> Option<ThemeSnapshot> {
        self.loaded
    }
}

/// The snapshot that a load stores: the resolved theme, and the toolkit
/// preferences that were read, or `fallback` where none could be read.
pub open spec fn snapshot_of(
    theme: ResolvedTheme,
    toolkit: Option<ToolkitConfig>,
    fallback: ToolkitConfig,
) -> ThemeSnapshot {
    ThemeSnapshot {
        theme,
        toolkit: match toolkit {
            Some(read) => read,
            None => fallback,
        },
    }
}

/// The font of the preferences that `kind` asks for.
pub open spec fn font_of(toolkit: ToolkitConfig, kind: CosmicFontKind) -> FontConfig {
    match kind {
        CosmicFontKind::Interface => toolkit.interface_font,
        CosmicFontKind::Monospace => toolkit.monospace_font,
    }
}

impl ThemeState {
    /// A state in which nothing has been loaded yet.
    pub fn new() -> (state: ThemeState)
        ensures
            state@ is None,
    {
        ThemeState { loaded: None }
    }

    /// Whether a snapshot has been loaded, and the accessors may be called.
    pub fn is_loaded(&self) -> (loaded: bool)
        ensures
            loaded == (self@ is Some),
    {
        self.loaded.is_some()
    }
}

/// The theme of the loaded snapshot.
pub fn current_theme(state: &ThemeState) -> (theme: &ResolvedTheme)
    requires
        state@ is Some,
    ensures
        *theme == state@->0.theme,
{
    &state.loaded.as_ref().unwrap().theme
}

/// The toolkit preferences of the loaded snapshot.
pub fn current_tk(state: &ThemeState) -> (toolkit: &ToolkitConfig)
    requires
        state@ is Some,
    ensures
        *toolkit == state@->0.toolkit,
{
    &state.loaded.as_ref().unwrap().toolkit
}

/// Stores a snapshot, replacing the one before it.
///
/// `theme` is the theme that was resolved for the kind asked for, `toolkit` the
/// preferences where they could be read. Where they could not, `fallback`
/// stands in for them, so that a load always succeeds.
pub fn libcosmic_theme_load(
    state: &mut ThemeState,
    theme: ResolvedTheme,
    toolkit: Option<ToolkitConfig>,
    fallback: ToolkitConfig,
)
    ensures
        final(state)@ == Some(snapshot_of(theme, toolkit, fallback)),
{
    let toolkit = match toolkit {
        Some(read) => read,
        None => fallback,
    };
    state.loaded = Some(ThemeSnapshot { theme, toolkit });
}

/// Whether the loaded theme is a dark one.
pub fn libcosmic_theme_is_dark(state: &ThemeState) -> (dark: bool)
    requires
        state@ is Some,
    ensures
        dark == state@->0.theme.is_dark,
{
    current_theme(state).is_dark
}

/// Whether the loaded theme is a high-contrast one.
pub fn libcosmic_theme_is_high_contrast(state: &ThemeState) -> (high_contrast: bool)
    requires
        state@ is Some,
    ensures
        high_contrast == state@->0.theme.is_high_contrast,
{
    current_theme(state).is_high_contrast
}

/// The name of the loaded icon theme, as an owned C string: absent where the
/// name holds a NUL character.
pub fn libcosmic_theme_icon_theme(state: &ThemeState) -> (name: Option<Vec<u8>>)
    requires
        state@ is Some,
    ensures
        c_string_view(name) == c_string_of(state@->0.toolkit.icon_theme@),
{
    let tk = current_tk(state);
    strdup(tk.icon_theme.as_str())
}

/// Writes the descriptor of one of the loaded fonts into `target`, over
/// whatever it held. Without a target nothing is written.
pub fn libcosmic_theme_get_font(
    state: &ThemeState,
    kind: CosmicFontKind,
    target: Option<&mut CosmicFont>,
)
    requires
        state@ is Some,
    ensures
        target matches Some(font) ==> final(font)@ == describe_font(
            font_of(state@->0.toolkit, kind),
        ),
{
    if let Some(target) = target {
        let tk = current_tk(state);
        let font = match kind {
            CosmicFontKind::Interface => &tk.interface_font,
            CosmicFontKind::Monospace => &tk.monospace_font,
        };

        target.family = strdup(font.family.as_str());

        target.style = match font.style {
            FontStyle::Normal => CosmicFontStyle::Normal,
            FontStyle::Italic => CosmicFontStyle::Italic,
            FontStyle::Oblique => CosmicFontStyle::Oblique,
        };

        target.weight = match font.weight {
            FontWeight::Thin => 100,
            FontWeight::ExtraLight => 200,
            FontWeight::Light => 300,
            FontWeight::Normal => 400,
            FontWeight::Medium => 500,
            FontWeight::Semibold => 600,
            FontWeight::Bold => 700,
            FontWeight::ExtraBold => 800,
            FontWeight::Black => 900,
        };

        target.stretch = match font.stretch {
            FontStretch::UltraCondensed => 50,
            FontStretch::ExtraCondensed => 62,
            FontStretch::Condensed => 75,
            FontStretch::SemiCondensed => 87,
            FontStretch::Normal => 100,
            FontStretch::SemiExpanded => 112,
            FontStretch::Expanded => 125,
            FontStretch::ExtraExpanded => 150,
            FontStretch::UltraExpanded => 200,
        };
    }
}

/// What is read after a load is what that load stored, whatever was loaded
/// before it: the theme's two flags, and the toolkit preferences that were
/// read, or the fallback where none were.
pub proof fn lemma_accessors_observe_load(
    state: ThemeState,
    theme: ResolvedTheme,
    toolkit: Option<ToolkitConfig>,
    fallback: ToolkitConfig,
)
    requires
        state@ == Some(snapshot_of(theme, toolkit, fallback)),
    ensures
        state@->0.theme.is_dark == theme.is_dark,
        state@->0.theme.is_high_contrast == theme.is_high_contrast,
        toolkit matches Some(read) ==> state@->0.toolkit == read,
        toolkit is None ==> state@->0.toolkit == fallback,
{
}

} // verus!
