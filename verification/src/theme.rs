//! Theme values that need no color arithmetic: the light/dark mode, the
//! container layers, spacing, and the outcome of loading a theme file.
use vstd::prelude::*;

use vstd::string::StringExecFns;

verus! {

/// The mode of a theme (light or dark).
#[derive(Debug, Clone, Copy, PartialEq, Eq, Hash, Structural)]
pub enum Mode {
    /// No specific mode.
    Unspecified,
    /// Light mode.
    Light,
    /// Dark mode.
    Dark,
}

impl Default for Mode {
    fn default() -> (r: Self)
        ensures
            r == Mode::Unspecified,
    {
        Mode::Unspecified
    }
}

impl Mode {
    /// Returns true if this is dark mode.
    pub fn is_dark(self) -> (r: bool)
        ensures
            r == (self == Mode::Dark),
    {
        matches!(self, Mode::Dark)
    }
}

/// The layer/depth of a container in the UI hierarchy.
#[derive(Debug, Clone, Copy, PartialEq, Eq, Hash, Structural)]
pub enum Layer {
    /// The background layer (outermost).
    Background,
    /// The primary content layer.
    Primary,
    /// The secondary layer (dialogs, popovers).
    Secondary,
}

impl Default for Layer {
    fn default() -> (r: Self)
        ensures
            r == Layer::Background,
    {
        Layer::Background
    }
}

/// Standard spacing values for the theme, from none to extra extra extra
/// large.
#[derive(Debug, Clone, Copy, PartialEq, Eq, Structural)]
pub struct Spacing {
    /// No spacing (0).
    pub none: u16,
    /// Extra extra extra small spacing.
    pub xxxs: u16,
    /// Extra extra small spacing.
    pub xxs: u16,
    /// Extra small spacing.
    pub xs: u16,
    /// Small spacing.
    pub s: u16,
    /// Medium spacing (default).
    pub m: u16,
    /// Large spacing.
    pub l: u16,
    /// Extra large spacing.
    pub xl: u16,
    /// Extra extra large spacing.
    pub xxl: u16,
    /// Extra extra extra large spacing.
    pub xxxl: u16,
}

/// The default spacing scale: 0, 2, 4, 8, 12, 16, 24, 32, 48, 64.
pub open spec fn default_spacing() -> Spacing {
    Spacing { none: 0, xxxs: 2, xxs: 4, xs: 8, s: 12, m: 16, l: 24, xl: 32, xxl: 48, xxxl: 64 }
}

/// The compact spacing scale: 0, 1, 2, 4, 6, 8, 12, 16, 24, 32.
pub open spec fn compact_spacing() -> Spacing {
    Spacing { none: 0, xxxs: 1, xxs: 2, xs: 4, s: 6, m: 8, l: 12, xl: 16, xxl: 24, xxxl: 32 }
}

/// The comfortable spacing scale: 0, 4, 8, 12, 16, 24, 32, 48, 64, 96.
pub open spec fn comfortable_spacing() -> Spacing {
    Spacing { none: 0, xxxs: 4, xxs: 8, xs: 12, s: 16, m: 24, l: 32, xl: 48, xxl: 64, xxxl: 96 }
}

/// Each step of the scale is at least the one before it.
pub open spec fn is_increasing(spacing: Spacing) -> bool {
    spacing.none <= spacing.xxxs <= spacing.xxs <= spacing.xs <= spacing.s <= spacing.m
        <= spacing.l <= spacing.xl <= spacing.xxl <= spacing.xxxl
}

/// Each step of `a` is at most the same step of `b`.
pub open spec fn spacing_le(a: Spacing, b: Spacing) -> bool {
    &&& a.none <= b.none
    &&& a.xxxs <= b.xxxs
    &&& a.xxs <= b.xxs
    &&& a.xs <= b.xs
    &&& a.s <= b.s
    &&& a.m <= b.m
    &&& a.l <= b.l
    &&& a.xl <= b.xl
    &&& a.xxl <= b.xxl
    &&& a.xxxl <= b.xxxl
}

impl Default for Spacing {
    fn default() -> (r: Self)
        ensures
            r == default_spacing(),
    {
        Spacing { none: 0, xxxs: 2, xxs: 4, xs: 8, s: 12, m: 16, l: 24, xl: 32, xxl: 48, xxxl: 64 }
    }
}

impl Spacing {
    /// Create compact spacing (smaller values).
    pub fn compact() -> (r: Self)
        ensures
            r == compact_spacing(),
    {
        Spacing { none: 0, xxxs: 1, xxs: 2, xs: 4, s: 6, m: 8, l: 12, xl: 16, xxl: 24, xxxl: 32 }
    }

    /// Create comfortable spacing (larger values).
    pub fn comfortable() -> (r: Self)
        ensures
            r == comfortable_spacing(),
    {
        Spacing { none: 0, xxxs: 4, xxs: 8, xs: 12, s: 16, m: 24, l: 32, xl: 48, xxl: 64, xxxl: 96 }
    }
}

/// Every spacing scale the theme offers grows from none to the largest step,
/// and compact spacing is never larger than the default, which is never
/// larger than comfortable spacing.
pub proof fn law_spacing_scales_are_ordered()
    ensures
        is_increasing(compact_spacing()),
        is_increasing(default_spacing()),
        is_increasing(comfortable_spacing()),
        spacing_le(compact_spacing(), default_spacing()),
        spacing_le(default_spacing(), comfortable_spacing()),
{
}

/// Error type for theme loading.
#[derive(Debug)]
pub enum LoadError {
    /// File not found.
    NotFound(String),
    /// Failed to read file.
    ReadError(String),
    /// Failed to parse theme file.
    ParseError(String),
    /// Unsupported format.
    UnsupportedFormat(String),
}

impl LoadError {
    /// The error's message: a fixed prefix for its kind, then its detail.
    pub fn message(&self) -> (r: String)
        ensures
            r@ == (match self {
                LoadError::NotFound(p) => "Theme file not found: "@ + p@,
                LoadError::ReadError(m) => "Failed to read theme: "@ + m@,
                LoadError::ParseError(m) => "Failed to parse theme: "@ + m@,
                LoadError::UnsupportedFormat(f) => "Unsupported format: "@ + f@,
            }),
    {
        match self {
            LoadError::NotFound(p) => String::from_str("Theme file not found: ").concat(p.as_str()),
            LoadError::ReadError(m) => String::from_str("Failed to read theme: ").concat(m.as_str()),
            LoadError::ParseError(m) => String::from_str("Failed to parse theme: ").concat(m.as_str()),
            LoadError::UnsupportedFormat(f) => String::from_str("Unsupported format: ").concat(
                f.as_str(),
            ),
        }
    }
}

/// How a theme file is to be loaded.
#[derive(Debug, Clone, Copy, PartialEq, Eq, Structural)]
pub enum ThemeFileFormat {
    /// A RON file (libcosmic format).
    Ron,
}

/// Decides how to load the theme file at a path, from whether the path
/// exists and its extension (empty when it has none or it is not UTF-8):
/// a missing file is [`LoadError::NotFound`] with the path's display form,
/// a `ron` extension is loaded as RON, and any other extension is
/// [`LoadError::UnsupportedFormat`] with that extension.
pub fn theme_file_format(path_display: String, exists: bool, extension: &str) -> (r: Result<
    ThemeFileFormat,
    LoadError,
>)
    ensures
        !exists ==> (r matches Err(LoadError::NotFound(p)) && p == path_display),
        exists && extension@ == "ron"@ ==> r == Ok::<ThemeFileFormat, LoadError>(
            ThemeFileFormat::Ron,
        ),
        exists && extension@ != "ron"@ ==> (r matches Err(LoadError::UnsupportedFormat(e)) && e@
            == extension@),
{
    if !exists {
        return Err(LoadError::NotFound(path_display));
    }
    if crate::text::str_eq(extension, "ron") {
        Ok(ThemeFileFormat::Ron)
    } else {
        Err(LoadError::UnsupportedFormat(String::from_str(extension)))
    }
}

/// The mode of a theme: dark or light.
pub open spec fn mode_for(is_dark: bool) -> Mode {
    if is_dark {
        Mode::Dark
    } else {
        Mode::Light
    }
}

/// The mode of a theme that is dark or not.
pub fn mode_of(is_dark: bool) -> (r: Mode)
    ensures
        r == mode_for(is_dark),
{
    if is_dark {
        Mode::Dark
    } else {
        Mode::Light
    }
}

/// Whether the default theme for a mode is dark: only a light mode asks
/// for the light theme.
pub fn default_is_dark(mode: Mode) -> (r: bool)
    ensures
        r == (mode != Mode::Light),
{
    match mode {
        Mode::Light => false,
        Mode::Dark | Mode::Unspecified => true,
    }
}

/// The name of a theme built from a palette: `Dark` or `Light`.
pub fn theme_name(is_dark: bool) -> (r: &'static str)
    ensures
        r@ == (if is_dark {
            "Dark"@
        } else {
            "Light"@
        }),
{
    if is_dark {
        "Dark"
    } else {
        "Light"
    }
}

/// A theme's mode and the theme its mode asks for agree: the default theme
/// of a theme's own mode is as dark as the theme.
pub proof fn law_mode_round_trip(is_dark: bool)
    ensures
        (mode_for(is_dark) != Mode::Light) == is_dark,
{
}

/// The system configuration directory: `XDG_CONFIG_HOME` when set, else the
/// `.config` directory of `HOME` when set, else `/etc`.
pub open spec fn config_dir_of(xdg_config_home: Option<Seq<char>>, home: Option<Seq<char>>) -> Seq<char> {
    match xdg_config_home {
        Some(x) => x,
        None => match home {
            Some(h) => h + "/.config"@,
            None => "/etc"@,
        },
    }
}

/// The directory of the system's COSMIC theme of the preferred mode.
pub open spec fn cosmic_theme_dir_of(
    xdg_config_home: Option<Seq<char>>,
    home: Option<Seq<char>>,
    prefer_dark: bool,
) -> Seq<char> {
    config_dir_of(xdg_config_home, home) + "/cosmic/"@ + (if prefer_dark {
        "com.system76.CosmicTheme.Dark"@
    } else {
        "com.system76.CosmicTheme.Light"@
    }) + "/v1/"@
}

/// The directory where the system's COSMIC theme of the preferred mode
/// would be, from the `XDG_CONFIG_HOME` and `HOME` variables.
pub fn cosmic_theme_dir(xdg_config_home: Option<String>, home: Option<String>, prefer_dark: bool) -> (r:
    String)
    ensures
        r@ == cosmic_theme_dir_of(
            match xdg_config_home {
                Some(x) => Some(x@),
                None => None,
            },
            match home {
                Some(h) => Some(h@),
                None => None,
            },
            prefer_dark,
        ),
{
    let config_dir = match xdg_config_home {
        Some(x) => x,
        None => match home {
            Some(h) => h.concat("/.config"),
            None => String::from_str("/etc"),
        },
    };
    let name = if prefer_dark {
        "com.system76.CosmicTheme.Dark"
    } else {
        "com.system76.CosmicTheme.Light"
    };
    config_dir.concat("/cosmic/").concat(name).concat("/v1/")
}

/// The neutral level a palette gives for an index: levels run from 0
/// (darkest in a dark palette) to 10, and any larger index is level 10.
pub fn neutral_level(index: u8) -> (r: u8)
    ensures
        r == (if index <= 10 {
            index
        } else {
            10u8
        }),
{
    if index <= 10 {
        index
    } else {
        10
    }
}

/// The neutral levels a container takes from the palette: its background,
/// the background of small widgets on it (checkboxes, toggles), and its
/// text.
#[derive(Debug, Clone, Copy, PartialEq, Eq, Structural)]
pub struct ContainerLevels {
    /// The level of the container's background.
    pub base: u8,
    /// The level of small widgets' background.
    pub small_widget: u8,
    /// The level of text on the container.
    pub on: u8,
}

/// The neutral levels of the container of a layer: in a dark theme, the
/// background, primary and secondary layers sit on levels 2, 3 and 4 with
/// small widgets on 4, 5 and 5; in a light theme on levels 1, 0 and 2 with
/// small widgets on 3, 3 and 4; text is level 9 throughout.
pub open spec fn container_levels_of(layer: Layer, is_dark: bool) -> ContainerLevels {
    if is_dark {
        match layer {
            Layer::Background => ContainerLevels { base: 2, small_widget: 4, on: 9 },
            Layer::Primary => ContainerLevels { base: 3, small_widget: 5, on: 9 },
            Layer::Secondary => ContainerLevels { base: 4, small_widget: 5, on: 9 },
        }
    } else {
        match layer {
            Layer::Background => ContainerLevels { base: 1, small_widget: 3, on: 9 },
            Layer::Primary => ContainerLevels { base: 0, small_widget: 3, on: 9 },
            Layer::Secondary => ContainerLevels { base: 2, small_widget: 4, on: 9 },
        }
    }
}

/// The neutral levels of the container of a layer in a dark or light theme.
pub fn container_levels(layer: Layer, is_dark: bool) -> (r: ContainerLevels)
    ensures
        r == container_levels_of(layer, is_dark),
{
    if is_dark {
        match layer {
            Layer::Background => ContainerLevels { base: 2, small_widget: 4, on: 9 },
            Layer::Primary => ContainerLevels { base: 3, small_widget: 5, on: 9 },
            Layer::Secondary => ContainerLevels { base: 4, small_widget: 5, on: 9 },
        }
    } else {
        match layer {
            Layer::Background => ContainerLevels { base: 1, small_widget: 3, on: 9 },
            Layer::Primary => ContainerLevels { base: 0, small_widget: 3, on: 9 },
            Layer::Secondary => ContainerLevels { base: 2, small_widget: 4, on: 9 },
        }
    }
}

/// The neutral level of text on accent, success, destructive and warning
/// components: the darkest in a dark theme, the lightest in a light one.
pub fn accent_text_level(is_dark: bool) -> (r: u8)
    ensures
        r == (if is_dark {
            0u8
        } else {
            10u8
        }),
{
    if is_dark {
        0
    } else {
        10
    }
}

/// Each layer of a theme stands apart from the next: the background,
/// primary and secondary containers take different neutral levels, in dark
/// and light themes alike.
pub proof fn law_layers_are_distinct(is_dark: bool)
    ensures
        container_levels_of(Layer::Background, is_dark).base != container_levels_of(
            Layer::Primary,
            is_dark,
        ).base,
        container_levels_of(Layer::Primary, is_dark).base != container_levels_of(
            Layer::Secondary,
            is_dark,
        ).base,
        container_levels_of(Layer::Background, is_dark).base != container_levels_of(
            Layer::Secondary,
            is_dark,
        ).base,
{
}

} // verus!
