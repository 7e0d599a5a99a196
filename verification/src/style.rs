//! The visual attributes that a run of text carries.

use vstd::prelude::*;

verus! {

/// A terminal colour. `Reset` stands for the terminal's own default.
#[derive(Debug, Clone, Copy, PartialEq, Eq, Structural)]
pub enum Color {
    Reset,
    Black,
    Red,
    Green,
    Yellow,
    Blue,
    Magenta,
    Cyan,
    Gray,
    DarkGray,
    LightRed,
    LightGreen,
    LightYellow,
    LightBlue,
    LightMagenta,
    LightCyan,
    White,
    Rgb(u8, u8, u8),
    Indexed(u8),
}

/// A way of rendering text that can be switched on beside the colours.
#[derive(Debug, Clone, Copy, PartialEq, Eq, Structural)]
pub enum Modifier {
    Bold,
    Dim,
    Italic,
    Underlined,
    SlowBlink,
    RapidBlink,
    Reversed,
    Hidden,
    CrossedOut,
}

impl Modifier {
    /// The bit that stands for this modifier in `Style::modifiers`.
    pub open spec fn mask(self) -> u16 {
        match self {
            Modifier::Bold => 0x0001,
            Modifier::Dim => 0x0002,
            Modifier::Italic => 0x0004,
            Modifier::Underlined => 0x0008,
            Modifier::SlowBlink => 0x0010,
            Modifier::RapidBlink => 0x0020,
            Modifier::Reversed => 0x0040,
            Modifier::Hidden => 0x0080,
            Modifier::CrossedOut => 0x0100,
        }
    }

    /// The bit that stands for this modifier in `Style::modifiers`.
    pub fn bit(self) -> (b: u16)
        ensures
            b == self.mask(),
    {
        match self {
            Modifier::Bold => 0x0001,
            Modifier::Dim => 0x0002,
            Modifier::Italic => 0x0004,
            Modifier::Underlined => 0x0008,
            Modifier::SlowBlink => 0x0010,
            Modifier::RapidBlink => 0x0020,
            Modifier::Reversed => 0x0040,
            Modifier::Hidden => 0x0080,
            Modifier::CrossedOut => 0x0100,
        }
    }
}

/// What a run of text looks like: its two colours and the modifiers that are
/// switched on, one bit each.
#[derive(Debug, Clone, Copy, PartialEq, Eq, Structural)]
pub struct Style {
    pub fg: Color,
    pub bg: Color,
    pub modifiers: u16,
}

impl Style {
    /// The style of text that was given none: the terminal's colours, no
    /// modifier.
    pub open spec fn plain() -> Style {
        Style { fg: Color::Reset, bg: Color::Reset, modifiers: 0 }
    }

    /// Whether `modifier` is switched on.
    pub open spec fn has(self, modifier: Modifier) -> bool {
        self.modifiers & modifier.mask() != 0
    }

    /// The same style with the foreground colour `color`.
    pub fn fg(self, color: Color) -> (s: Style)
        ensures
            s == (Style { fg: color, ..self }),
    {
        Style { fg: color, bg: self.bg, modifiers: self.modifiers }
    }

    /// The same style with the background colour `color`.
    pub fn bg(self, color: Color) -> (s: Style)
        ensures
            s == (Style { bg: color, ..self }),
    {
        Style { fg: self.fg, bg: color, modifiers: self.modifiers }
    }

    /// The same style with `modifier` switched on beside those that were.
    pub fn modifier(self, modifier: Modifier) -> (s: Style)
        ensures
            s == (Style { modifiers: self.modifiers | modifier.mask(), ..self }),
            s.has(modifier),
    {
        let bit = modifier.bit();
        let old_bits = self.modifiers;
        assert((old_bits | bit) & bit != 0) by (bit_vector)
            requires
                bit != 0,
        ;
        Style { fg: self.fg, bg: self.bg, modifiers: old_bits | bit }
    }

    /// Whether `modifier` is switched on.
    pub fn has_modifier(&self, modifier: Modifier) -> (b: bool)
        ensures
            b == self.has(modifier),
    {
        self.modifiers & modifier.bit() != 0
    }
}

impl Default for Style {
    fn default() -> (s: Style)
        ensures
            s == Style::plain(),
    {
        Style { fg: Color::Reset, bg: Color::Reset, modifiers: 0 }
    }
}

} // verus!
