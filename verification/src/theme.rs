//! Styles and themes as plain data: colours and flags the display engine
//! turns into escape sequences. Theme values are passed explicitly to the
//! render functions, never read from ambient state.

use vstd::prelude::*;

use crate::colour::Colour;

verus! {

/// A terminal style: background and foreground colours and a bold flag.
#[derive(Clone, Copy, Debug, PartialEq, Eq, Structural)]
pub struct Style {
    pub background: Colour,
    pub foreground: Colour,
    pub bold: bool,
}

impl Style {
    /// A non-bold style.
    pub fn normal(background: Colour, foreground: Colour) -> (r: Style)
        ensures
            r == (Style { background, foreground, bold: false }),
    {
        Style { background, foreground, bold: false }
    }

    /// A bold style.
    pub fn bold(background: Colour, foreground: Colour) -> (r: Style)
        ensures
            r == (Style { background, foreground, bold: true }),
    {
        Style { background, foreground, bold: true }
    }
}

/// A base16 palette. Colours base00 to base07 are shades running darkest
/// to lightest and are used for foregrounds, backgrounds and highlights;
/// base08 to base0f are accent colours.
#[derive(Clone, Copy, Debug, PartialEq, Eq, Structural)]
pub struct Base16Theme {
    pub base00: Colour,
    pub base01: Colour,
    pub base02: Colour,
    pub base03: Colour,
    pub base04: Colour,
    pub base05: Colour,
    pub base06: Colour,
    pub base07: Colour,
    pub base08: Colour,
    pub base09: Colour,
    pub base0a: Colour,
    pub base0b: Colour,
    pub base0c: Colour,
    pub base0d: Colour,
    pub base0e: Colour,
    pub base0f: Colour,
}

/// The built-in icy palette, a dark theme in shades of cyan.
pub fn icy() -> (r: Base16Theme) {
    Base16Theme {
        base00: Colour { red: 2, green: 16, blue: 18 },
        base01: Colour { red: 3, green: 22, blue: 25 },
        base02: Colour { red: 4, green: 31, blue: 35 },
        base03: Colour { red: 5, green: 46, blue: 52 },
        base04: Colour { red: 6, green: 64, blue: 72 },
        base05: Colour { red: 9, green: 91, blue: 103 },
        base06: Colour { red: 12, green: 124, blue: 140 },
        base07: Colour { red: 16, green: 156, blue: 176 },
        base08: Colour { red: 22, green: 193, blue: 217 },
        base09: Colour { red: 179, green: 235, blue: 242 },
        base0a: Colour { red: 128, green: 222, blue: 234 },
        base0b: Colour { red: 77, green: 208, blue: 225 },
        base0c: Colour { red: 38, green: 198, blue: 218 },
        base0d: Colour { red: 0, green: 188, blue: 212 },
        base0e: Colour { red: 0, green: 172, blue: 193 },
        base0f: Colour { red: 1, green: 9, blue: 12 },
    }
}

/// Styles of one issue card.
#[derive(Clone, Copy, Debug, PartialEq, Eq, Structural)]
pub struct IssueCardTheme {
    pub number: Style,
    pub text: Style,
    pub border: Style,
}

impl IssueCardTheme {
    /// The card styles an unfocused pipeline uses.
    pub fn from_base16(theme: &Base16Theme) -> (r: IssueCardTheme) {
        IssueCardTheme {
            number: Style::normal(theme.base0f, theme.base06),
            text: Style::normal(theme.base0f, theme.base05),
            border: Style::normal(theme.base0f, theme.base02),
        }
    }
}

/// Styles of one pipeline column.
#[derive(Clone, Copy, Debug, PartialEq, Eq, Structural)]
pub struct PipelineTheme {
    pub title: Style,
    pub subtitle: Style,
    pub issue: IssueCardTheme,
}

impl PipelineTheme {
    /// The pipeline styles used when the pipeline is not focused.
    pub fn from_base16(theme: &Base16Theme) -> (r: PipelineTheme) {
        PipelineTheme {
            title: Style::bold(theme.base0f, theme.base0d),
            subtitle: Style::normal(theme.base0f, theme.base04),
            issue: IssueCardTheme::from_base16(theme),
        }
    }

    /// The pipeline styles used when the pipeline is focused.
    pub fn focused_from_base16(theme: &Base16Theme) -> (r: PipelineTheme) {
        PipelineTheme {
            title: Style::bold(theme.base00, theme.base0d),
            subtitle: Style::normal(theme.base00, theme.base04),
            issue: IssueCardTheme {
                number: Style::normal(theme.base00, theme.base06),
                text: Style::normal(theme.base00, theme.base05),
                border: Style::normal(theme.base00, theme.base02),
            },
        }
    }
}

/// Styles of the status prompt line.
#[derive(Clone, Copy, Debug, PartialEq, Eq, Structural)]
pub struct PromptTheme {
    pub pending: Style,
    pub ready: Style,
    pub text: Style,
}

impl PromptTheme {
    /// The prompt styles of a base16 palette.
    pub fn from_base16(theme: &Base16Theme) -> (r: PromptTheme) {
        PromptTheme {
            pending: Style::bold(theme.base0e, theme.base00),
            ready: Style::bold(theme.base0e, theme.base00),
            text: Style::bold(theme.base00, theme.base04),
        }
    }
}

/// Styles of the whole application.
#[derive(Clone, Copy, Debug, PartialEq, Eq, Structural)]
pub struct AppTheme {
    pub divider: Style,
    pub prompt: PromptTheme,
    pub pipeline_focused: PipelineTheme,
    pub pipeline_unfocused: PipelineTheme,
}

impl AppTheme {
    /// The application styles of a base16 palette.
    pub fn from_base16(theme: &Base16Theme) -> (r: AppTheme) {
        AppTheme {
            divider: Style::bold(theme.base0f, theme.base0f),
            prompt: PromptTheme::from_base16(theme),
            pipeline_focused: PipelineTheme::focused_from_base16(theme),
            pipeline_unfocused: PipelineTheme::from_base16(theme),
        }
    }
}

} // verus!
