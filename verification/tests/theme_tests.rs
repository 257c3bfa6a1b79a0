use ratatui::style::{Color as TuiColor, Modifier};
use yazi_fm::theme::{
    ChatTheme, Color, ModeColors, RgbColor, ThemeColors, ThemeDefinition, ThemeRegistry,
    ThemeVariant,
};

fn rgb(r: u8, g: u8, b: u8) -> RgbColor {
    RgbColor { r, g, b }
}

fn colors(seed: u8) -> ThemeColors {
    ThemeColors {
        background: rgb(seed, 0, 0),
        foreground: rgb(seed, 1, 0),
        card: rgb(seed, 2, 0),
        card_foreground: rgb(seed, 3, 0),
        primary: rgb(seed, 4, 0),
        primary_foreground: rgb(seed, 5, 0),
        secondary: rgb(seed, 6, 0),
        secondary_foreground: rgb(seed, 7, 0),
        muted: rgb(seed, 8, 0),
        muted_foreground: rgb(seed, 9, 0),
        accent: rgb(seed, 10, 0),
        accent_foreground: rgb(seed, 11, 0),
        destructive: rgb(seed, 12, 0),
        destructive_foreground: rgb(seed, 13, 0),
        border: rgb(seed, 14, 0),
        input: rgb(seed, 15, 0),
        ring: rgb(seed, 16, 0),
    }
}

fn definition(name: &str, title: &str, seed: u8) -> ThemeDefinition {
    ThemeDefinition {
        name: name.to_string(),
        title: title.to_string(),
        description: format!("{} theme", title),
        dark: colors(seed),
        light: colors(seed + 100),
    }
}

fn registry() -> ThemeRegistry {
    ThemeRegistry {
        themes: vec![
            definition("catppuccin", "Catppuccin", 1),
            definition("mono", "Mono", 2),
            definition("catppuccin", "Catppuccin Again", 3),
        ],
    }
}

#[test]
fn dark_fallback_background_is_black() {
    let theme = ChatTheme::dark_fallback();
    assert_eq!(theme.bg, Color::Rgb(0, 0, 0));
    assert_eq!(theme.variant, ThemeVariant::Dark);
    assert_eq!(theme.primary, Color::Rgb(0, 201, 80));
    assert_eq!(theme.border_focused, theme.primary);
    assert_eq!(theme.shimmer_colors.len(), 5);
    assert_eq!(theme.mode_colors.plan, Color::Rgb(255, 174, 4));
}

#[test]
fn light_fallback_palette() {
    let theme = ChatTheme::light_fallback();
    assert_eq!(theme.variant, ThemeVariant::Light);
    assert_eq!(theme.bg, Color::Rgb(252, 252, 252));
    assert_eq!(theme.destructive, Color::Rgb(229, 75, 79));
    assert_eq!(
        theme.mode_colors,
        ModeColors {
            agent: Color::Rgb(0, 160, 60),
            plan: Color::Rgb(200, 130, 0),
            ask: Color::Rgb(30, 90, 200)
        }
    );
}

#[test]
fn new_is_always_the_dark_palette() {
    for variant in [ThemeVariant::Dark, ThemeVariant::Light] {
        let theme = ChatTheme::new(variant);
        assert_eq!(theme.variant, ThemeVariant::Dark);
        assert_eq!(theme.bg, Color::Rgb(0, 0, 0));
        assert_eq!(theme.card, Color::Rgb(9, 9, 9));
    }
}

#[test]
fn rgb_color_converts_to_color() {
    assert_eq!(Color::from(rgb(1, 2, 3)), Color::Rgb(1, 2, 3));
}

#[test]
fn from_definition_maps_every_colour() {
    let def = definition("x", "X", 7);
    let theme = ChatTheme::from_definition(&def, ThemeVariant::Dark);
    assert_eq!(theme.variant, ThemeVariant::Dark);
    assert_eq!(theme.bg, Color::Rgb(7, 0, 0));
    assert_eq!(theme.fg, Color::Rgb(7, 1, 0));
    assert_eq!(theme.popover, Color::Rgb(7, 2, 0));
    assert_eq!(theme.popover_fg, Color::Rgb(7, 3, 0));
    assert_eq!(theme.border_focused, Color::Rgb(7, 4, 0));
    assert_eq!(theme.user_msg_bg, Color::Rgb(7, 2, 0));
    assert_eq!(theme.ai_msg_bg, Color::Rgb(7, 8, 0));
    assert_eq!(theme.accent_secondary, Color::Rgb(7, 10, 0));
    assert_eq!(
        theme.shimmer_colors,
        vec![
            Color::Rgb(7, 14, 0),
            Color::Rgb(7, 4, 0),
            Color::Rgb(7, 9, 0),
            Color::Rgb(7, 4, 0),
            Color::Rgb(7, 14, 0)
        ]
    );
    assert_eq!(theme.mode_colors.plan, Color::Rgb(7, 16, 0));
    let light = ChatTheme::from_definition(&def, ThemeVariant::Light);
    assert_eq!(light.variant, ThemeVariant::Light);
    assert_eq!(light.bg, Color::Rgb(107, 0, 0));
}

#[test]
fn available_themes_lists_names_and_titles_in_order() {
    let list = ChatTheme::available_themes(&registry());
    assert_eq!(
        list,
        vec![
            ("catppuccin".to_string(), "Catppuccin".to_string()),
            ("mono".to_string(), "Mono".to_string()),
            ("catppuccin".to_string(), "Catppuccin Again".to_string()),
        ]
    );
}

#[test]
fn by_name_finds_the_first_theme_of_that_name() {
    let reg = registry();
    let found = ChatTheme::by_name(&reg, "catppuccin", ThemeVariant::Light).unwrap();
    assert_eq!(found.bg, Color::Rgb(101, 0, 0));
    assert_eq!(found.variant, ThemeVariant::Light);
    let mono = ChatTheme::by_name(&reg, "mono", ThemeVariant::Dark).unwrap();
    assert_eq!(mono.fg, Color::Rgb(2, 1, 0));
}

#[test]
fn by_name_of_unknown_theme_is_none() {
    assert!(ChatTheme::by_name(&registry(), "solarized", ThemeVariant::Dark).is_none());
    assert!(ChatTheme::by_name(&ThemeRegistry { themes: vec![] }, "mono", ThemeVariant::Dark).is_none());
}

#[test]
fn styles_use_the_theme_colours() {
    let theme = ChatTheme::dark_fallback();
    let title = theme.title_style();
    assert_eq!(title.fg, Some(TuiColor::Rgb(255, 255, 255)));
    assert!(title.add_modifier.contains(Modifier::BOLD));
    assert_eq!(theme.border_style(true).fg, Some(TuiColor::Rgb(0, 201, 80)));
    assert_eq!(theme.border_style(false).fg, Some(TuiColor::Rgb(36, 36, 36)));
    assert!(!theme.border_style(false).add_modifier.contains(Modifier::BOLD));
    let accent = theme.accent_style();
    assert_eq!(accent.fg, Some(TuiColor::Rgb(0, 201, 80)));
    assert!(accent.add_modifier.contains(Modifier::BOLD));
}
