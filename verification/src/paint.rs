//! What the chrome paints: styled runs of text and terminal areas.

use vstd::prelude::*;

verus! {

/// The colour role of a run of text; the host maps roles to its palette.
#[derive(Debug, Clone, Copy, PartialEq, Eq, Structural)]
pub enum Tone {
    /// Accent colour.
    Accent,
    /// Accent colour, bold.
    AccentBold,
    /// Body text colour.
    Text,
    /// Body text colour, bold.
    TextBold,
    /// Dimmed text.
    Muted,
    /// Warning colour.
    Warning,
    /// Border colour.
    Border,
    /// An unselected row of a menu: body text on the menu background.
    Row,
    /// The selected row of a menu: accent on the selection background, bold.
    SelectedRow,
}

/// A run of text in one tone.
#[derive(Debug, Clone)]
pub struct Span {
    pub text: String,
    pub tone: Tone,
}

impl View for Span {
    type V = (Seq<char>, Tone);

    open spec fn view(&self) -> (Seq<char>, Tone) {
        (self.text@, self.tone)
    }
}

/// The runs of a line, by their views.
pub open spec fn line_view(line: Seq<Span>) -> Seq<(Seq<char>, Tone)> {
    line.map_values(|s: Span| s@)
}

/// The lines of a block of text, by their views.
pub open spec fn lines_view(lines: Seq<Vec<Span>>) -> Seq<Seq<(Seq<char>, Tone)>> {
    lines.map_values(|l: Vec<Span>| line_view(l@))
}

/// A rectangle of terminal cells.
#[derive(Debug, Clone, Copy, PartialEq, Eq, Structural)]
pub struct Area {
    pub x: u16,
    pub y: u16,
    pub width: u16,
    pub height: u16,
}

impl Area {
    /// The area lies within the terminal's coordinate range, as every area made
    /// by `Rect::new` does.
    pub open spec fn wf(self) -> bool {
        self.x + self.width <= u16::MAX && self.y + self.height <= u16::MAX
    }

    /// The first row below the area.
    pub open spec fn bottom_spec(self) -> u16 {
        if self.y + self.height <= u16::MAX {
            (self.y + self.height) as u16
        } else {
            u16::MAX
        }
    }
}

/// A line of text to paint in an area, already cut to the area's width.
#[derive(Debug, Clone)]
pub struct Paint {
    pub area: Area,
    pub text: String,
    pub tone: Tone,
}

impl View for Paint {
    type V = (Area, Seq<char>, Tone);

    open spec fn view(&self) -> (Area, Seq<char>, Tone) {
        (self.area, self.text@, self.tone)
    }
}

/// The paints of a plan, by their views.
pub open spec fn paints_view(p: Seq<Paint>) -> Seq<(Area, Seq<char>, Tone)> {
    p.map_values(|x: Paint| x@)
}

} // verus!
