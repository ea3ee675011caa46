use icy_ui::theme::{accent_text_level, container_levels, neutral_level, ContainerLevels};
use icy_ui::theme::{default_is_dark, mode_of, theme_name};
use icy_ui::theme::cosmic_theme_dir;
use icy_ui::theme::{LoadError, Mode, Spacing, theme_file_format, ThemeFileFormat, Layer};

#[test]
fn test_spacing_default() {
    let spacing = Spacing::default();

    assert_eq!(spacing.none, 0);
    assert!(spacing.xs < spacing.s);
    assert!(spacing.s < spacing.m);
    assert!(spacing.m < spacing.l);
    assert!(spacing.l < spacing.xl);
}

#[test]
fn spacing_scales_have_their_values() {
    let compact = Spacing::compact();
    assert_eq!(
        [compact.none, compact.xxxs, compact.xxs, compact.xs, compact.s, compact.m, compact.l, compact.xl, compact.xxl, compact.xxxl],
        [0, 1, 2, 4, 6, 8, 12, 16, 24, 32]
    );
    let comfortable = Spacing::comfortable();
    assert_eq!(
        [comfortable.none, comfortable.xxxs, comfortable.xxs, comfortable.xs, comfortable.s, comfortable.m, comfortable.l, comfortable.xl, comfortable.xxl, comfortable.xxxl],
        [0, 4, 8, 12, 16, 24, 32, 48, 64, 96]
    );
    let default = Spacing::default();
    assert_eq!(default.xxxl, 64);
    assert_eq!(default.m, 16);
}

#[test]
fn compact_default_comfortable_are_ordered() {
    let (a, b, c) = (Spacing::compact(), Spacing::default(), Spacing::comfortable());
    assert!(a.m <= b.m && b.m <= c.m);
    assert!(a.xxxl <= b.xxxl && b.xxxl <= c.xxxl);
}

#[test]
fn mode_and_layer_defaults() {
    assert_eq!(Mode::default(), Mode::Unspecified);
    assert!(Mode::Dark.is_dark());
    assert!(!Mode::Light.is_dark());
    assert!(!Mode::Unspecified.is_dark());
    assert_eq!(Layer::default(), Layer::Background);
}

#[test]
fn theme_file_format_decisions() {
    match theme_file_format("/x/theme.ron".to_string(), false, "ron") {
        Err(LoadError::NotFound(p)) => assert_eq!(p, "/x/theme.ron"),
        other => panic!("unexpected {:?}", other),
    }
    assert!(matches!(
        theme_file_format("/x/theme.ron".to_string(), true, "ron"),
        Ok(ThemeFileFormat::Ron)
    ));
    match theme_file_format("/x/theme.toml".to_string(), true, "toml") {
        Err(LoadError::UnsupportedFormat(e)) => assert_eq!(e, "toml"),
        other => panic!("unexpected {:?}", other),
    }
}

#[test]
fn load_error_messages() {
    assert_eq!(LoadError::NotFound("a.ron".to_string()).message(), "Theme file not found: a.ron");
    assert_eq!(LoadError::ReadError("io".to_string()).message(), "Failed to read theme: io");
    assert_eq!(LoadError::ParseError("bad".to_string()).message(), "Failed to parse theme: bad");
    assert_eq!(LoadError::UnsupportedFormat("toml".to_string()).message(), "Unsupported format: toml");
}

#[test]
fn theme_modes_and_names() {
    assert_eq!(mode_of(true), Mode::Dark);
    assert_eq!(mode_of(false), Mode::Light);
    assert!(default_is_dark(Mode::Dark));
    assert!(default_is_dark(Mode::Unspecified));
    assert!(!default_is_dark(Mode::Light));
    assert_eq!(theme_name(true), "Dark");
    assert_eq!(theme_name(false), "Light");
}

#[test]
fn cosmic_theme_directories() {
    assert_eq!(
        cosmic_theme_dir(Some("/x".to_string()), Some("/home/u".to_string()), true),
        "/x/cosmic/com.system76.CosmicTheme.Dark/v1/"
    );
    assert_eq!(
        cosmic_theme_dir(None, Some("/home/u".to_string()), false),
        "/home/u/.config/cosmic/com.system76.CosmicTheme.Light/v1/"
    );
    assert_eq!(cosmic_theme_dir(None, None, true), "/etc/cosmic/com.system76.CosmicTheme.Dark/v1/");
}

#[test]
fn palette_levels() {
    assert_eq!(neutral_level(3), 3);
    assert_eq!(neutral_level(10), 10);
    assert_eq!(neutral_level(200), 10);
    assert_eq!(container_levels(Layer::Background, true), ContainerLevels { base: 2, small_widget: 4, on: 9 });
    assert_eq!(container_levels(Layer::Primary, false), ContainerLevels { base: 0, small_widget: 3, on: 9 });
    assert_eq!(container_levels(Layer::Secondary, false), ContainerLevels { base: 2, small_widget: 4, on: 9 });
    for dark in [true, false] {
        let b = container_levels(Layer::Background, dark).base;
        let p = container_levels(Layer::Primary, dark).base;
        let s = container_levels(Layer::Secondary, dark).base;
        assert!(b != p && p != s && b != s);
    }
    assert_eq!(accent_text_level(true), 0);
    assert_eq!(accent_text_level(false), 10);
}
