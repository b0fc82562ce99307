//! The colours of the interface, and how a pane without focus fades them.
use vstd::prelude::*;

verus! {

/// A terminal colour.
#[derive(Debug, Clone, Copy, PartialEq, Eq, Structural)]
pub enum Color {
    /// Whatever the terminal uses by default.
    Reset,
    Black,
    Red,
    Green,
    Yellow,
    Blue,
    Magenta,
    Cyan,
    Gray,
    DarkGray,
    LightRed,
    LightGreen,
    LightYellow,
    LightBlue,
    LightMagenta,
    LightCyan,
    White,
    Rgb(u8, u8, u8),
    Indexed(u8),
}

/// Text attributes added by a style.
#[derive(Debug, Clone, Copy, PartialEq, Eq, Structural)]
pub struct Modifier {
    /// Faint text.
    pub dim: bool,
}

impl Modifier {
    /// No attribute.
    pub fn empty() -> (m: Modifier)
        ensures
            !m.dim,
    {
        Modifier { dim: false }
    }

    /// Faint text only.
    pub fn dim() -> (m: Modifier)
        ensures
            m.dim,
    {
        Modifier { dim: true }
    }

    /// Whether every attribute of `other` is among these.
    pub fn contains(&self, other: Modifier) -> (all: bool)
        ensures
            all == (other.dim ==> self.dim),
    {
        !other.dim || self.dim
    }
}

/// How text is drawn: colours, where set, and added attributes.
#[derive(Debug, Clone, Copy, PartialEq, Eq, Structural)]
pub struct Style {
    pub fg: Option<Color>,
    pub bg: Option<Color>,
    pub add_modifier: Modifier,
}

/// A style that sets nothing.
pub open spec fn plain() -> Style {
    Style { fg: None, bg: None, add_modifier: Modifier { dim: false } }
}

impl Style {
    /// A style that sets nothing.
    pub fn new() -> (style: Style)
        ensures
            style == plain(),
    {
        Style { fg: None, bg: None, add_modifier: Modifier::empty() }
    }

    /// This style with the foreground `color`.
    pub fn fg(self, color: Color) -> (style: Style)
        ensures
            style == (Style { fg: Some(color), ..self }),
    {
        Style { fg: Some(color), ..self }
    }

    /// This style with the background `color`.
    pub fn bg(self, color: Color) -> (style: Style)
        ensures
            style == (Style { bg: Some(color), ..self }),
    {
        Style { bg: Some(color), ..self }
    }

    /// This style with the attributes of `modifier` added.
    pub fn add_modifier(self, modifier: Modifier) -> (style: Style)
        ensures
            style == (Style { add_modifier: Modifier { dim: self.add_modifier.dim || modifier.dim }, ..self }),
    {
        Style { add_modifier: Modifier { dim: self.add_modifier.dim || modifier.dim }, ..self }
    }
}

/// The colour slots of the interface.
#[derive(Debug, Clone, Copy, PartialEq, Eq, Structural)]
pub struct Theme {
    pub background: Color,
    pub text: Color,
    pub accent: Color,
    pub surface: Color,
    pub error: Color,
}

/// The theme used when the configuration sets none: white text on black, a
/// green accent, a black surface and red errors.
pub open spec fn spec_default_theme() -> Theme {
    Theme {
        background: Color::Rgb(0x00, 0x00, 0x00),
        text: Color::Rgb(0xff, 0xff, 0xff),
        accent: Color::Rgb(0x1d, 0xb9, 0x54),
        surface: Color::Rgb(0x00, 0x00, 0x00),
        error: Color::Red,
    }
}

impl Default for Theme {
    fn default() -> (theme: Theme)
        ensures
            theme == spec_default_theme(),
    {
        Theme {
            background: Color::Rgb(0x00, 0x00, 0x00),
            text: Color::Rgb(0xff, 0xff, 0xff),
            accent: Color::Rgb(0x1d, 0xb9, 0x54),
            surface: Color::Rgb(0x00, 0x00, 0x00),
            error: Color::Red,
        }
    }
}

/// The channel halfway between `a` and `b`, rounded down.
pub open spec fn mid(a: u8, b: u8) -> u8 {
    ((a + b) / 2) as u8
}

/// `color` blended halfway toward `surface`, when both are RGB colours.
pub open spec fn spec_half(surface: Color, color: Color) -> Option<Color> {
    match (color, surface) {
        (Color::Rgb(r, g, b), Color::Rgb(sr, sg, sb)) => Some(Color::Rgb(mid(r, sr), mid(g, sg), mid(b, sb))),
        _ => None,
    }
}

/// `color` faded: blended halfway toward `surface` where that can be
/// computed, and otherwise kept with the faint attribute.
pub open spec fn spec_faded(surface: Color, color: Color) -> Style {
    match spec_half(surface, color) {
        Some(half) => Style { fg: Some(half), ..plain() },
        None => Style { fg: Some(color), add_modifier: Modifier { dim: true }, ..plain() },
    }
}

/// `color` at full strength when focused, and faded otherwise.
pub open spec fn spec_at_strength(theme: Theme, focused: bool, color: Color) -> Style {
    if focused {
        Style { fg: Some(color), ..plain() }
    } else {
        spec_faded(theme.surface, color)
    }
}

/// The highlight of the selected row.
pub open spec fn spec_selected(theme: Theme, focused: bool) -> Style {
    if focused {
        Style { fg: Some(theme.surface), bg: Some(theme.accent), ..plain() }
    } else {
        let bar = match spec_half(theme.surface, theme.accent) {
            Some(half) => half,
            None => theme.accent,
        };
        Style { fg: Some(theme.text), bg: Some(bar), ..plain() }
    }
}

fn mid_channel(a: u8, b: u8) -> (m: u8)
    ensures
        m == mid(a, b),
{
    let sum: u16 = a as u16 + b as u16;
    (sum / 2) as u8
}

impl Theme {
    /// The style of the whole screen: text on background.
    pub fn base(&self) -> (style: Style)
        ensures
            style == (Style { fg: Some(self.text), bg: Some(self.background), ..plain() }),
    {
        Style::new().fg(self.text).bg(self.background)
    }

    /// The styles of a pane, focused or not.
    pub fn pane(&self, focused: bool) -> (pane: Pane<'_>)
        ensures
            *pane.theme == *self,
            pane.focused == focused,
    {
        Pane { theme: self, focused }
    }

    /// Secondary text.
    pub fn dim(&self) -> (style: Style)
        ensures
            style == spec_faded(self.surface, self.text),
    {
        self.faded(self.text)
    }

    /// Error messages.
    pub fn error(&self) -> (style: Style)
        ensures
            style == (Style { fg: Some(self.error), ..plain() }),
    {
        Style::new().fg(self.error)
    }

    /// `color` blended halfway toward the surface, when both are RGB colours.
    pub fn half(&self, color: Color) -> (half: Option<Color>)
        ensures
            half == spec_half(self.surface, color),
    {
        match (color, self.surface) {
            (Color::Rgb(r, g, b), Color::Rgb(sr, sg, sb)) => Some(
                Color::Rgb(mid_channel(r, sr), mid_channel(g, sg), mid_channel(b, sb)),
            ),
            _ => None,
        }
    }

    /// `color` faded toward the surface.
    pub fn faded(&self, color: Color) -> (style: Style)
        ensures
            style == spec_faded(self.surface, color),
    {
        match self.half(color) {
            Some(half) => Style::new().fg(half),
            None => Style::new().fg(color).add_modifier(Modifier::dim()),
        }
    }
}

/// The styles of one pane of the screen.
pub struct Pane<'a> {
    pub theme: &'a Theme,
    pub focused: bool,
}

impl Pane<'_> {
    /// Body text.
    pub fn text(&self) -> (style: Style)
        ensures
            style == spec_at_strength(*self.theme, self.focused, self.theme.text),
    {
        self.at_strength(self.theme.text)
    }

    /// The border.
    pub fn border(&self) -> (style: Style)
        ensures
            style == spec_at_strength(*self.theme, self.focused, self.theme.accent),
    {
        self.at_strength(self.theme.accent)
    }

    /// The title.
    pub fn title(&self) -> (style: Style)
        ensures
            style == spec_at_strength(*self.theme, self.focused, self.theme.text),
    {
        self.at_strength(self.theme.text)
    }

    /// The row of the track that is playing.
    pub fn playing(&self) -> (style: Style)
        ensures
            style == spec_at_strength(*self.theme, self.focused, self.theme.accent),
    {
        self.at_strength(self.theme.accent)
    }

    /// The selected row: the accent as a bar behind the surface colour when
    /// focused; otherwise the bar faded and the text in the text colour.
    pub fn selected(&self) -> (style: Style)
        ensures
            style == spec_selected(*self.theme, self.focused),
    {
        if self.focused {
            return Style::new().fg(self.theme.surface).bg(self.theme.accent);
        }
        let bar = match self.theme.half(self.theme.accent) {
            Some(half) => half,
            None => self.theme.accent,
        };
        Style::new().fg(self.theme.text).bg(bar)
    }

    /// `color` at full strength when focused, faded otherwise.
    pub fn at_strength(&self, color: Color) -> (style: Style)
        ensures
            style == spec_at_strength(*self.theme, self.focused, color),
    {
        if self.focused {
            Style::new().fg(color)
        } else {
            self.theme.faded(color)
        }
    }
}

} // verus!
