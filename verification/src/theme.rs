//! The colour palette and text styling, as plain values: colours are RGB
//! triples and a style names a foreground, a background and attribute
//! flags. The surrounding application maps them onto its drawing surface.

use vstd::prelude::*;

verus! {

/// A colour as its three channels.
#[derive(Debug, Clone, Copy, PartialEq, Eq, Structural)]
pub struct Rgb {
    /// The red channel.
    pub red: u8,
    /// The green channel.
    pub green: u8,
    /// The blue channel.
    pub blue: u8,
}

/// Builds a colour from its channels.
pub fn rgb(red: u8, green: u8, blue: u8) -> (r: Rgb)
    ensures
        r == (Rgb { red, green, blue }),
{
    Rgb { red, green, blue }
}

/// A styled run of text: colours and attribute flags.
#[derive(Debug, Clone, Copy, PartialEq, Eq, Structural)]
pub struct TextStyle {
    /// The foreground colour, when one is set.
    pub fg: Option<Rgb>,
    /// The background colour, when one is set.
    pub bg: Option<Rgb>,
    /// Bold text.
    pub bold: bool,
    /// Dimmed text.
    pub dim: bool,
    /// Italic text.
    pub italic: bool,
    /// Struck-through text.
    pub crossed_out: bool,
}

/// A complete colour palette for the screen.
pub struct Theme {
    /// The leading colour.
    pub primary: Rgb,
    /// A darker shade of the leading colour.
    pub primary_dark: Rgb,
    /// A lighter shade of the leading colour.
    pub primary_light: Rgb,
    /// The accent colour.
    pub accent: Rgb,
    /// A darker shade of the accent.
    pub accent_dark: Rgb,
    /// The base background.
    pub bg_primary: Rgb,
    /// The secondary background.
    pub bg_secondary: Rgb,
    /// The highlighted background.
    pub bg_highlight: Rgb,
    /// The main text colour.
    pub text_primary: Rgb,
    /// The secondary text colour.
    pub text_secondary: Rgb,
    /// The muted text colour.
    pub text_muted: Rgb,
    /// The colour of good news.
    pub success: Rgb,
    /// The colour of warnings.
    pub warning: Rgb,
    /// The colour of errors.
    pub error: Rgb,
    /// The colour of neutral notices.
    pub info: Rgb,
    /// Priority one.
    pub priority_lowest: Rgb,
    /// Priority two.
    pub priority_low: Rgb,
    /// Priority three.
    pub priority_medium: Rgb,
    /// Priority four.
    pub priority_high: Rgb,
    /// Priority five.
    pub priority_highest: Rgb,
}

impl Theme {
    /// The dark palette with a purple lead and a cyan accent.
    pub fn modern_dark() -> (r: Theme)
        ensures
            r.primary == (Rgb { red: 147, green: 51, blue: 234 }),
            r.accent == (Rgb { red: 34, green: 211, blue: 238 }),
            r.bg_primary == (Rgb { red: 17, green: 24, blue: 39 }),
            r.text_primary == (Rgb { red: 243, green: 244, blue: 246 }),
            r.success == (Rgb { red: 34, green: 197, blue: 94 }),
            r.warning == (Rgb { red: 251, green: 191, blue: 36 }),
            r.error == (Rgb { red: 239, green: 68, blue: 68 }),
            r.priority_lowest == (Rgb { red: 59, green: 130, blue: 246 }),
            r.priority_highest == (Rgb { red: 239, green: 68, blue: 68 }),
    {
        Theme {
            primary: rgb(147, 51, 234),
            primary_dark: rgb(109, 40, 217),
            primary_light: rgb(196, 181, 253),
            accent: rgb(34, 211, 238),
            accent_dark: rgb(14, 165, 233),
            bg_primary: rgb(17, 24, 39),
            bg_secondary: rgb(31, 41, 55),
            bg_highlight: rgb(55, 65, 81),
            text_primary: rgb(243, 244, 246),
            text_secondary: rgb(209, 213, 219),
            text_muted: rgb(107, 114, 128),
            success: rgb(34, 197, 94),
            warning: rgb(251, 191, 36),
            error: rgb(239, 68, 68),
            info: rgb(59, 130, 246),
            priority_lowest: rgb(59, 130, 246),
            priority_low: rgb(34, 197, 94),
            priority_medium: rgb(250, 204, 21),
            priority_high: rgb(251, 146, 60),
            priority_highest: rgb(239, 68, 68),
        }
    }

    /// The light palette with a pink lead and pastel shades.
    pub fn soft_pastel() -> (r: Theme)
        ensures
            r.primary == (Rgb { red: 236, green: 72, blue: 153 }),
            r.accent == (Rgb { red: 147, green: 197, blue: 253 }),
            r.bg_primary == (Rgb { red: 249, green: 250, blue: 251 }),
            r.text_primary == (Rgb { red: 17, green: 24, blue: 39 }),
            r.success == (Rgb { red: 134, green: 239, blue: 172 }),
            r.warning == (Rgb { red: 253, green: 224, blue: 71 }),
            r.error == (Rgb { red: 252, green: 165, blue: 165 }),
            r.priority_lowest == (Rgb { red: 191, green: 219, blue: 254 }),
            r.priority_highest == (Rgb { red: 254, green: 202, blue: 202 }),
    {
        Theme {
            primary: rgb(236, 72, 153),
            primary_dark: rgb(219, 39, 119),
            primary_light: rgb(251, 207, 232),
            accent: rgb(147, 197, 253),
            accent_dark: rgb(96, 165, 250),
            bg_primary: rgb(249, 250, 251),
            bg_secondary: rgb(243, 244, 246),
            bg_highlight: rgb(229, 231, 235),
            text_primary: rgb(17, 24, 39),
            text_secondary: rgb(55, 65, 81),
            text_muted: rgb(107, 114, 128),
            success: rgb(134, 239, 172),
            warning: rgb(253, 224, 71),
            error: rgb(252, 165, 165),
            info: rgb(165, 180, 252),
            priority_lowest: rgb(191, 219, 254),
            priority_low: rgb(167, 243, 208),
            priority_medium: rgb(253, 230, 138),
            priority_high: rgb(254, 215, 170),
            priority_highest: rgb(254, 202, 202),
        }
    }

    /// The neon palette with a magenta lead on deep purple.
    pub fn cyberpunk() -> (r: Theme)
        ensures
            r.primary == (Rgb { red: 255, green: 0, blue: 255 }),
            r.accent == (Rgb { red: 0, green: 255, blue: 255 }),
            r.bg_primary == (Rgb { red: 13, green: 2, blue: 33 }),
            r.text_primary == (Rgb { red: 255, green: 255, blue: 255 }),
            r.success == (Rgb { red: 57, green: 255, blue: 20 }),
            r.warning == (Rgb { red: 255, green: 255, blue: 0 }),
            r.error == (Rgb { red: 255, green: 0, blue: 0 }),
            r.priority_lowest == (Rgb { red: 0, green: 255, blue: 255 }),
            r.priority_highest == (Rgb { red: 255, green: 0, blue: 127 }),
    {
        Theme {
            primary: rgb(255, 0, 255),
            primary_dark: rgb(192, 38, 211),
            primary_light: rgb(255, 182, 255),
            accent: rgb(0, 255, 255),
            accent_dark: rgb(0, 184, 184),
            bg_primary: rgb(13, 2, 33),
            bg_secondary: rgb(25, 7, 51),
            bg_highlight: rgb(49, 10, 101),
            text_primary: rgb(255, 255, 255),
            text_secondary: rgb(0, 255, 255),
            text_muted: rgb(147, 51, 234),
            success: rgb(57, 255, 20),
            warning: rgb(255, 255, 0),
            error: rgb(255, 0, 0),
            info: rgb(0, 149, 255),
            priority_lowest: rgb(0, 255, 255),
            priority_low: rgb(0, 255, 127),
            priority_medium: rgb(255, 255, 0),
            priority_high: rgb(255, 127, 0),
            priority_highest: rgb(255, 0, 127),
        }
    }

    /// The colour a priority level carries: the gradient entry for one to
    /// five, the muted text colour otherwise.
    pub fn priority_color(&self, priority: Option<u8>) -> (r: Rgb)
        ensures
            r == match priority {
                Some(1u8) => self.priority_lowest,
                Some(2u8) => self.priority_low,
                Some(3u8) => self.priority_medium,
                Some(4u8) => self.priority_high,
                Some(5u8) => self.priority_highest,
                _ => self.text_muted,
            },
    {
        match priority {
            Some(p) => {
                if p == 1 {
                    self.priority_lowest
                } else if p == 2 {
                    self.priority_low
                } else if p == 3 {
                    self.priority_medium
                } else if p == 4 {
                    self.priority_high
                } else if p == 5 {
                    self.priority_highest
                } else {
                    self.text_muted
                }
            },
            None => self.text_muted,
        }
    }

    /// The style of a completed task: muted, dimmed, struck through.
    pub fn completed_style(&self) -> (r: TextStyle)
        ensures
            r == (TextStyle {
                fg: Some(self.text_muted),
                bg: None,
                bold: false,
                dim: true,
                italic: false,
                crossed_out: true,
            }),
    {
        TextStyle {
            fg: Some(self.text_muted),
            bg: None,
            bold: false,
            dim: true,
            italic: false,
            crossed_out: true,
        }
    }

    /// The style of the selected row: highlighted background, bold.
    pub fn selected_style(&self) -> (r: TextStyle)
        ensures
            r == (TextStyle {
                fg: Some(self.text_primary),
                bg: Some(self.bg_highlight),
                bold: true,
                dim: false,
                italic: false,
                crossed_out: false,
            }),
    {
        TextStyle {
            fg: Some(self.text_primary),
            bg: Some(self.bg_highlight),
            bold: true,
            dim: false,
            italic: false,
            crossed_out: false,
        }
    }

    /// The border style: bold accent when focused, a quiet highlight
    /// colour otherwise.
    pub fn border_style(&self, focused: bool) -> (r: TextStyle)
        ensures
            focused ==> r == (TextStyle {
                fg: Some(self.accent),
                bg: None,
                bold: true,
                dim: false,
                italic: false,
                crossed_out: false,
            }),
            !focused ==> r == (TextStyle {
                fg: Some(self.bg_highlight),
                bg: None,
                bold: false,
                dim: false,
                italic: false,
                crossed_out: false,
            }),
    {
        if focused {
            TextStyle {
                fg: Some(self.accent),
                bg: None,
                bold: true,
                dim: false,
                italic: false,
                crossed_out: false,
            }
        } else {
            TextStyle {
                fg: Some(self.bg_highlight),
                bg: None,
                bold: false,
                dim: false,
                italic: false,
                crossed_out: false,
            }
        }
    }

    /// The title style: light lead colour, bold.
    pub fn title_style(&self) -> (r: TextStyle)
        ensures
            r == (TextStyle {
                fg: Some(self.primary_light),
                bg: None,
                bold: true,
                dim: false,
                italic: false,
                crossed_out: false,
            }),
    {
        TextStyle {
            fg: Some(self.primary_light),
            bg: None,
            bold: true,
            dim: false,
            italic: false,
            crossed_out: false,
        }
    }

    /// The decorative gradient strip.
    pub fn gradient_bar(&self) -> (r: String)
        ensures
            r@ == "▁▂▃▄▅▆▇█▇▆▅▄▃▂▁"@,
    {
        String::from_str("▁▂▃▄▅▆▇█▇▆▅▄▃▂▁")
    }
}

/// A set of box-drawing characters for one border look.
pub struct BorderSet {
    /// The top-left corner.
    pub top_left: &'static str,
    /// The top-right corner.
    pub top_right: &'static str,
    /// The bottom-left corner.
    pub bottom_left: &'static str,
    /// The bottom-right corner.
    pub bottom_right: &'static str,
    /// The horizontal run.
    pub horizontal: &'static str,
    /// The vertical run.
    pub vertical: &'static str,
}

impl BorderSet {
    /// Rounded corners.
    pub fn rounded() -> (r: BorderSet)
        ensures
            r.top_left@ == "╭"@,
            r.top_right@ == "╮"@,
            r.bottom_left@ == "╰"@,
            r.bottom_right@ == "╯"@,
            r.horizontal@ == "─"@,
            r.vertical@ == "│"@,
    {
        BorderSet {
            top_left: "╭",
            top_right: "╮",
            bottom_left: "╰",
            bottom_right: "╯",
            horizontal: "─",
            vertical: "│",
        }
    }

    /// Double lines.
    pub fn double() -> (r: BorderSet)
        ensures
            r.top_left@ == "╔"@,
            r.top_right@ == "╗"@,
            r.bottom_left@ == "╚"@,
            r.bottom_right@ == "╝"@,
            r.horizontal@ == "═"@,
            r.vertical@ == "║"@,
    {
        BorderSet {
            top_left: "╔",
            top_right: "╗",
            bottom_left: "╚",
            bottom_right: "╝",
            horizontal: "═",
            vertical: "║",
        }
    }

    /// Thick lines.
    pub fn thick() -> (r: BorderSet)
        ensures
            r.top_left@ == "┏"@,
            r.top_right@ == "┓"@,
            r.bottom_left@ == "┗"@,
            r.bottom_right@ == "┛"@,
            r.horizontal@ == "━"@,
            r.vertical@ == "┃"@,
    {
        BorderSet {
            top_left: "┏",
            top_right: "┓",
            bottom_left: "┗",
            bottom_right: "┛",
            horizontal: "━",
            vertical: "┃",
        }
    }
}

/// The glyphs the screen uses for marks and ornaments.
pub struct Icons;

impl Icons {
    /// The unchecked checkbox.
    pub fn checkbox_empty() -> (r: &'static str)
        ensures
            r@ == "□"@,
    {
        "□"
    }

    /// The checked checkbox.
    pub fn checkbox_checked() -> (r: &'static str)
        ensures
            r@ == "▣"@,
    {
        "▣"
    }

    /// The star used for the priority prompt.
    pub fn star() -> (r: &'static str)
        ensures
            r@ == "★"@,
    {
        "★"
    }

    /// The selection arrow.
    pub fn arrow_right() -> (r: &'static str)
        ensures
            r@ == "❯"@,
    {
        "❯"
    }

    /// The bullet mark.
    pub fn bullet() -> (r: &'static str)
        ensures
            r@ == "•"@,
    {
        "•"
    }

    /// The sparkle ornament.
    pub fn sparkle() -> (r: &'static str)
        ensures
            r@ == "◆"@,
    {
        "◆"
    }

    /// The rocket mark of compose mode.
    pub fn rocket() -> (r: &'static str)
        ensures
            r@ == "▶"@,
    {
        "▶"
    }

    /// The lightning ornament.
    pub fn lightning() -> (r: &'static str)
        ensures
            r@ == "⚡"@,
    {
        "⚡"
    }

    /// The diamond mark of title editing.
    pub fn diamond() -> (r: &'static str)
        ensures
            r@ == "◇"@,
    {
        "◇"
    }

    /// The circle mark of browsing.
    pub fn circle() -> (r: &'static str)
        ensures
            r@ == "●"@,
    {
        "●"
    }

    /// The filled square of the priority marker.
    pub fn square() -> (r: &'static str)
        ensures
            r@ == "■"@,
    {
        "■"
    }

    /// The clock mark of due dates.
    pub fn clock() -> (r: &'static str)
        ensures
            r@ == "⏰"@,
    {
        "⏰"
    }
}

} // verus!
