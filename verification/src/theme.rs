use vstd::prelude::*;

use crate::style::{
    fg_modifier_style, fg_style, style_from_fg, style_from_fg_modifier, TextModifier,
};
use ratatui::style::Style;

verus! {

/// Whether a palette is the dark or the light one.
#[derive(Debug, Clone, Copy, PartialEq, Eq, Structural)]
pub enum ThemeVariant {
    Dark,
    Light,
}

/// A terminal colour given by its red, green and blue components.
#[derive(Debug, Clone, Copy, PartialEq, Eq, Structural)]
pub enum Color {
    Rgb(u8, u8, u8),
}

/// A colour as the theme registry writes it.
#[derive(Debug, Clone, Copy, PartialEq, Eq, Structural)]
pub struct RgbColor {
    pub r: u8,
    pub g: u8,
    pub b: u8,
}

/// The terminal colour with the components of `c`.
pub open spec fn rgb_of(c: RgbColor) -> Color {
    Color::Rgb(c.r, c.g, c.b)
}

impl From<RgbColor> for Color {
    fn from(rgb: RgbColor) -> (c: Self) {
        Color::Rgb(rgb.r, rgb.g, rgb.b)
    }
}

impl vstd::std_specs::convert::FromSpecImpl<RgbColor> for Color {
    open spec fn obeys_from_spec() -> bool {
        true
    }

    open spec fn from_spec(rgb: RgbColor) -> Self {
        rgb_of(rgb)
    }
}

/// The colours of one variant of a theme in the registry.
#[derive(Debug, Clone, Copy, PartialEq, Eq, Structural)]
pub struct ThemeColors {
    pub background: RgbColor,
    pub foreground: RgbColor,
    pub card: RgbColor,
    pub card_foreground: RgbColor,
    pub primary: RgbColor,
    pub primary_foreground: RgbColor,
    pub secondary: RgbColor,
    pub secondary_foreground: RgbColor,
    pub muted: RgbColor,
    pub muted_foreground: RgbColor,
    pub accent: RgbColor,
    pub accent_foreground: RgbColor,
    pub destructive: RgbColor,
    pub destructive_foreground: RgbColor,
    pub border: RgbColor,
    pub input: RgbColor,
    pub ring: RgbColor,
}

/// One named theme of the registry, with its dark and light colours.
#[derive(Debug, Clone)]
pub struct ThemeDefinition {
    pub name: String,
    pub title: String,
    pub description: String,
    pub dark: ThemeColors,
    pub light: ThemeColors,
}

impl ThemeDefinition {
    /// The colours that this theme has for `variant`.
    pub open spec fn colors_for(&self, variant: ThemeVariant) -> ThemeColors {
        match variant {
            ThemeVariant::Dark => self.dark,
            ThemeVariant::Light => self.light,
        }
    }
}

/// All themes that can be chosen, in the registry's order.
#[derive(Debug)]
pub struct ThemeRegistry {
    pub themes: Vec<ThemeDefinition>,
}

/// Colours of the chat modes.
#[derive(Debug, Clone, Copy, PartialEq, Eq, Structural)]
pub struct ModeColors {
    pub agent: Color,
    pub plan: Color,
    pub ask: Color,
}

/// Why a theme could not be read from its embedded source.
#[derive(Debug, Clone, Copy, PartialEq, Eq, Structural)]
pub enum ThemeSourceError {
    Unavailable,
}

/// The palette that every part of the chat interface draws with.
#[derive(Debug, Clone)]
pub struct ChatTheme {
    pub variant: ThemeVariant,
    pub bg: Color,
    pub fg: Color,
    pub card: Color,
    pub card_fg: Color,
    pub popover: Color,
    pub popover_fg: Color,
    pub primary: Color,
    pub primary_fg: Color,
    pub secondary: Color,
    pub secondary_fg: Color,
    pub muted: Color,
    pub muted_fg: Color,
    pub accent: Color,
    pub accent_fg: Color,
    pub destructive: Color,
    pub destructive_fg: Color,
    pub border: Color,
    pub border_focused: Color,
    pub input: Color,
    pub ring: Color,
    pub user_msg_bg: Color,
    pub ai_msg_bg: Color,
    pub accent_secondary: Color,
    pub shimmer_colors: Vec<Color>,
    pub mode_colors: ModeColors,
}

impl ChatTheme {
    /// Holds when this theme is the one that `colors` describe for `variant`:
    /// the popover takes the card colours, the focused border and the agent mode
    /// take the primary colour, and the legacy fields repeat card, muted and accent.
    pub open spec fn built_from(&self, colors: ThemeColors, variant: ThemeVariant) -> bool {
        &&& self.variant == variant
        &&& self.bg == rgb_of(colors.background)
        &&& self.fg == rgb_of(colors.foreground)
        &&& self.card == rgb_of(colors.card)
        &&& self.card_fg == rgb_of(colors.card_foreground)
        &&& self.popover == rgb_of(colors.card)
        &&& self.popover_fg == rgb_of(colors.card_foreground)
        &&& self.primary == rgb_of(colors.primary)
        &&& self.primary_fg == rgb_of(colors.primary_foreground)
        &&& self.secondary == rgb_of(colors.secondary)
        &&& self.secondary_fg == rgb_of(colors.secondary_foreground)
        &&& self.muted == rgb_of(colors.muted)
        &&& self.muted_fg == rgb_of(colors.muted_foreground)
        &&& self.accent == rgb_of(colors.accent)
        &&& self.accent_fg == rgb_of(colors.accent_foreground)
        &&& self.destructive == rgb_of(colors.destructive)
        &&& self.destructive_fg == rgb_of(colors.destructive_foreground)
        &&& self.border == rgb_of(colors.border)
        &&& self.border_focused == rgb_of(colors.primary)
        &&& self.input == rgb_of(colors.input)
        &&& self.ring == rgb_of(colors.ring)
        &&& self.user_msg_bg == rgb_of(colors.card)
        &&& self.ai_msg_bg == rgb_of(colors.muted)
        &&& self.accent_secondary == rgb_of(colors.accent)
        &&& self.shimmer_colors@ == seq![
            rgb_of(colors.border),
            rgb_of(colors.primary),
            rgb_of(colors.muted_foreground),
            rgb_of(colors.primary),
            rgb_of(colors.border),
        ]
        &&& self.mode_colors == (ModeColors {
            agent: rgb_of(colors.primary),
            plan: rgb_of(colors.ring),
            ask: rgb_of(colors.accent),
        })
    }

    /// Holds when every colour of this theme is the one of the built-in dark palette.
    pub open spec fn is_dark_fallback(&self) -> bool {
        &&& self.variant == ThemeVariant::Dark
        &&& self.bg == Color::Rgb(0, 0, 0)
        &&& self.fg == Color::Rgb(255, 255, 255)
        &&& self.card == Color::Rgb(9, 9, 9)
        &&& self.card_fg == Color::Rgb(255, 255, 255)
        &&& self.popover == Color::Rgb(18, 18, 18)
        &&& self.popover_fg == Color::Rgb(255, 255, 255)
        &&& self.primary == Color::Rgb(0, 201, 80)
        &&& self.primary_fg == Color::Rgb(255, 255, 255)
        &&& self.secondary == Color::Rgb(34, 34, 34)
        &&& self.secondary_fg == Color::Rgb(255, 255, 255)
        &&& self.muted == Color::Rgb(29, 29, 29)
        &&& self.muted_fg == Color::Rgb(164, 164, 164)
        &&& self.accent == Color::Rgb(0, 201, 80)
        &&& self.accent_fg == Color::Rgb(255, 255, 255)
        &&& self.destructive == Color::Rgb(255, 91, 91)
        &&& self.destructive_fg == Color::Rgb(0, 0, 0)
        &&& self.border == Color::Rgb(36, 36, 36)
        &&& self.border_focused == Color::Rgb(0, 201, 80)
        &&& self.input == Color::Rgb(51, 51, 51)
        &&& self.ring == Color::Rgb(164, 164, 164)
        &&& self.user_msg_bg == Color::Rgb(9, 9, 9)
        &&& self.ai_msg_bg == Color::Rgb(18, 18, 18)
        &&& self.accent_secondary == Color::Rgb(0, 201, 80)
        &&& self.shimmer_colors@ == seq![Color::Rgb(36, 36, 36), Color::Rgb(0, 201, 80), Color::Rgb(164, 164, 164), Color::Rgb(0, 201, 80), Color::Rgb(36, 36, 36)]
        &&& self.mode_colors == (ModeColors { agent: Color::Rgb(0, 201, 80), plan: Color::Rgb(255, 174, 4), ask: Color::Rgb(38, 113, 244) })
    }

    /// Holds when every colour of this theme is the one of the built-in light palette.
    pub open spec fn is_light_fallback(&self) -> bool {
        &&& self.variant == ThemeVariant::Light
        &&& self.bg == Color::Rgb(252, 252, 252)
        &&& self.fg == Color::Rgb(0, 0, 0)
        &&& self.card == Color::Rgb(255, 255, 255)
        &&& self.card_fg == Color::Rgb(0, 0, 0)
        &&& self.popover == Color::Rgb(252, 252, 252)
        &&& self.popover_fg == Color::Rgb(0, 0, 0)
        &&& self.primary == Color::Rgb(0, 0, 0)
        &&& self.primary_fg == Color::Rgb(255, 255, 255)
        &&& self.secondary == Color::Rgb(235, 235, 235)
        &&& self.secondary_fg == Color::Rgb(0, 0, 0)
        &&& self.muted == Color::Rgb(245, 245, 245)
        &&& self.muted_fg == Color::Rgb(82, 82, 82)
        &&& self.accent == Color::Rgb(235, 235, 235)
        &&& self.accent_fg == Color::Rgb(0, 0, 0)
        &&& self.destructive == Color::Rgb(229, 75, 79)
        &&& self.destructive_fg == Color::Rgb(255, 255, 255)
        &&& self.border == Color::Rgb(228, 228, 228)
        &&& self.border_focused == Color::Rgb(0, 0, 0)
        &&& self.input == Color::Rgb(235, 235, 235)
        &&& self.ring == Color::Rgb(0, 0, 0)
        &&& self.user_msg_bg == Color::Rgb(255, 255, 255)
        &&& self.ai_msg_bg == Color::Rgb(252, 252, 252)
        &&& self.accent_secondary == Color::Rgb(235, 235, 235)
        &&& self.shimmer_colors@ == seq![Color::Rgb(228, 228, 228), Color::Rgb(235, 235, 235), Color::Rgb(82, 82, 82), Color::Rgb(235, 235, 235), Color::Rgb(228, 228, 228)]
        &&& self.mode_colors == (ModeColors { agent: Color::Rgb(0, 160, 60), plan: Color::Rgb(200, 130, 0), ask: Color::Rgb(30, 90, 200) })
    }

    /// The name and title of every theme of `registry`, in its order.
    pub fn available_themes(registry: &ThemeRegistry) -> (list: Vec<(String, String)>)
        ensures
            list@.len() == registry.themes@.len(),
            forall|i: int|
                0 <= i < list@.len() ==> #[trigger] list@[i] == (
                registry.themes@[i].name,
                registry.themes@[i].title,
            ),
    {
        let mut list: Vec<(String, String)> = Vec::new();
        let mut i: usize = 0;
        while i < registry.themes.len()
            invariant
                i <= registry.themes@.len(),
                list@.len() == i,
                forall|j: int|
                    0 <= j < i ==> #[trigger] list@[j] == (
                    registry.themes@[j].name,
                    registry.themes@[j].title,
                ),
            decreases registry.themes@.len() - i,
        {
            let def = &registry.themes[i];
            list.push((def.name.clone(), def.title.clone()));
            i = i + 1;
        }
        list
    }

    /// The theme that `def` describes for `variant`.
    pub fn from_definition(def: &ThemeDefinition, variant: ThemeVariant) -> (theme: Self)
        ensures
            theme.built_from(def.colors_for(variant), variant),
    {
        let colors = match variant {
            ThemeVariant::Dark => def.dark,
            ThemeVariant::Light => def.light,
        };
        let primary = Color::from(colors.primary);
        let accent = Color::from(colors.accent);
        let shimmer_colors: Vec<Color> = vec![
            Color::from(colors.border),
            primary,
            Color::from(colors.muted_foreground),
            primary,
            Color::from(colors.border),
        ];
        ChatTheme {
            variant,
            bg: Color::from(colors.background),
            fg: Color::from(colors.foreground),
            card: Color::from(colors.card),
            card_fg: Color::from(colors.card_foreground),
            popover: Color::from(colors.card),
            popover_fg: Color::from(colors.card_foreground),
            primary,
            primary_fg: Color::from(colors.primary_foreground),
            secondary: Color::from(colors.secondary),
            secondary_fg: Color::from(colors.secondary_foreground),
            muted: Color::from(colors.muted),
            muted_fg: Color::from(colors.muted_foreground),
            accent,
            accent_fg: Color::from(colors.accent_foreground),
            destructive: Color::from(colors.destructive),
            destructive_fg: Color::from(colors.destructive_foreground),
            border: Color::from(colors.border),
            border_focused: primary,
            input: Color::from(colors.input),
            ring: Color::from(colors.ring),
            user_msg_bg: Color::from(colors.card),
            ai_msg_bg: Color::from(colors.muted),
            accent_secondary: accent,
            shimmer_colors,
            mode_colors: ModeColors {
                agent: primary,
                plan: Color::from(colors.ring),
                ask: Color::from(colors.accent),
            },
        }
    }

    /// The theme of `registry` named `name`, in `variant`: the first one of that
    /// name, or `None` where no theme has it.
    pub fn by_name(registry: &ThemeRegistry, name: &str, variant: ThemeVariant) -> (found: Option<
        Self,
    >)
        ensures
            match found {
                None => forall|i: int|
                    0 <= i < registry.themes@.len() ==> #[trigger] registry.themes@[i].name@
                        != name@,
                Some(theme) => exists|i: int|
                    0 <= i < registry.themes@.len() && #[trigger] registry.themes@[i].name@
                        == name@ && (forall|j: int|
                        0 <= j < i ==> registry.themes@[j].name@ != name@) && theme.built_from(
                        registry.themes@[i].colors_for(variant),
                        variant,
                    ),
            },
    {
        let key: String = name.to_owned();
        let mut i: usize = 0;
        while i < registry.themes.len()
            invariant
                i <= registry.themes@.len(),
                key@ == name@,
                forall|j: int| 0 <= j < i ==> #[trigger] registry.themes@[j].name@ != name@,
            decreases registry.themes@.len() - i,
        {
            if registry.themes[i].name == key {
                let theme = Self::from_definition(&registry.themes[i], variant);
                assert(registry.themes@[i as int].name@ == name@);
                return Some(theme);
            }
            i = i + 1;
        }
        None
    }

    /// The theme for `variant`: the one of the embedded source, which is
    /// always the dark palette, whatever the variant asked for.
    pub fn new(variant: ThemeVariant) -> (theme: Self)
        ensures
            theme.is_dark_fallback(),
    {
        match Self::from_theme_sr(variant) {
            Ok(theme) => theme,
            Err(_) => match variant {
                ThemeVariant::Dark => Self::dark_fallback(),
                ThemeVariant::Light => Self::light_fallback(),
            },
        }
    }

    /// Reads the theme from its embedded source; that source is the dark palette.
    fn from_theme_sr(_variant: ThemeVariant) -> (result: Result<Self, ThemeSourceError>)
        ensures
            result matches Ok(theme) && theme.is_dark_fallback(),
    {
        Ok(Self::dark_fallback())
    }

    /// The built-in dark palette.
    pub fn dark_fallback() -> (theme: Self)
        ensures
            theme.is_dark_fallback(),
    {
        let shimmer_colors: Vec<Color> = vec![Color::Rgb(36, 36, 36), Color::Rgb(0, 201, 80), Color::Rgb(164, 164, 164), Color::Rgb(0, 201, 80), Color::Rgb(36, 36, 36)];
        ChatTheme {
            variant: ThemeVariant::Dark,
            bg: Color::Rgb(0, 0, 0),
            fg: Color::Rgb(255, 255, 255),
            card: Color::Rgb(9, 9, 9),
            card_fg: Color::Rgb(255, 255, 255),
            popover: Color::Rgb(18, 18, 18),
            popover_fg: Color::Rgb(255, 255, 255),
            primary: Color::Rgb(0, 201, 80),
            primary_fg: Color::Rgb(255, 255, 255),
            secondary: Color::Rgb(34, 34, 34),
            secondary_fg: Color::Rgb(255, 255, 255),
            muted: Color::Rgb(29, 29, 29),
            muted_fg: Color::Rgb(164, 164, 164),
            accent: Color::Rgb(0, 201, 80),
            accent_fg: Color::Rgb(255, 255, 255),
            destructive: Color::Rgb(255, 91, 91),
            destructive_fg: Color::Rgb(0, 0, 0),
            border: Color::Rgb(36, 36, 36),
            border_focused: Color::Rgb(0, 201, 80),
            input: Color::Rgb(51, 51, 51),
            ring: Color::Rgb(164, 164, 164),
            user_msg_bg: Color::Rgb(9, 9, 9),
            ai_msg_bg: Color::Rgb(18, 18, 18),
            accent_secondary: Color::Rgb(0, 201, 80),
            shimmer_colors,
            mode_colors: ModeColors { agent: Color::Rgb(0, 201, 80), plan: Color::Rgb(255, 174, 4), ask: Color::Rgb(38, 113, 244) },
        }
    }

    /// The built-in light palette.
    pub fn light_fallback() -> (theme: Self)
        ensures
            theme.is_light_fallback(),
    {
        let shimmer_colors: Vec<Color> = vec![Color::Rgb(228, 228, 228), Color::Rgb(235, 235, 235), Color::Rgb(82, 82, 82), Color::Rgb(235, 235, 235), Color::Rgb(228, 228, 228)];
        ChatTheme {
            variant: ThemeVariant::Light,
            bg: Color::Rgb(252, 252, 252),
            fg: Color::Rgb(0, 0, 0),
            card: Color::Rgb(255, 255, 255),
            card_fg: Color::Rgb(0, 0, 0),
            popover: Color::Rgb(252, 252, 252),
            popover_fg: Color::Rgb(0, 0, 0),
            primary: Color::Rgb(0, 0, 0),
            primary_fg: Color::Rgb(255, 255, 255),
            secondary: Color::Rgb(235, 235, 235),
            secondary_fg: Color::Rgb(0, 0, 0),
            muted: Color::Rgb(245, 245, 245),
            muted_fg: Color::Rgb(82, 82, 82),
            accent: Color::Rgb(235, 235, 235),
            accent_fg: Color::Rgb(0, 0, 0),
            destructive: Color::Rgb(229, 75, 79),
            destructive_fg: Color::Rgb(255, 255, 255),
            border: Color::Rgb(228, 228, 228),
            border_focused: Color::Rgb(0, 0, 0),
            input: Color::Rgb(235, 235, 235),
            ring: Color::Rgb(0, 0, 0),
            user_msg_bg: Color::Rgb(255, 255, 255),
            ai_msg_bg: Color::Rgb(252, 252, 252),
            accent_secondary: Color::Rgb(235, 235, 235),
            shimmer_colors,
            mode_colors: ModeColors { agent: Color::Rgb(0, 160, 60), plan: Color::Rgb(200, 130, 0), ask: Color::Rgb(30, 90, 200) },
        }
    }
    /// Style of titles: the foreground colour, bold.
    pub fn title_style(&self) -> (style: Style)
        ensures
            style == fg_modifier_style(self.fg, TextModifier::Bold),
    {
        style_from_fg_modifier(self.fg, TextModifier::Bold)
    }

    /// Style of borders: the focused border colour when `focused`, else the border colour.
    pub fn border_style(&self, focused: bool) -> (style: Style)
        ensures
            style == fg_style(if focused { self.border_focused } else { self.border }),
    {
        style_from_fg(
            if focused {
                self.border_focused
            } else {
                self.border
            },
        )
    }

    /// Style of accents: the primary colour, bold.
    pub fn accent_style(&self) -> (style: Style)
        ensures
            style == fg_modifier_style(self.primary, TextModifier::Bold),
    {
        style_from_fg_modifier(self.primary, TextModifier::Bold)
    }
}

} // verus!
