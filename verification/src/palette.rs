use vstd::prelude::*;

use crate::model::{ActivityKind, Status};

verus! {

/// A colour as its red, green and blue channels (fully opaque).
#[derive(Clone, Copy, Debug, PartialEq, Eq, Structural)]
pub struct Rgb {
    pub r: u8,
    pub g: u8,
    pub b: u8,
}

/// The design tokens of the view.
#[derive(Clone, Copy, Debug, PartialEq, Eq, Structural)]
pub enum Tone {
    Bg,
    Surface,
    Surface2,
    Border,
    Text1,
    Text2,
    TextDim,
    Accent,
    Green,
    Red,
    Amber,
    ActiveTint,
}

/// The channels of each design token.
pub open spec fn tone_rgb(t: Tone) -> Rgb {
    match t {
        Tone::Bg => Rgb { r: 0x0E, g: 0x11, b: 0x16 },
        Tone::Surface => Rgb { r: 0x16, g: 0x1B, b: 0x22 },
        Tone::Surface2 => Rgb { r: 0x1C, g: 0x22, b: 0x30 },
        Tone::Border => Rgb { r: 0x2A, g: 0x31, b: 0x3C },
        Tone::Text1 => Rgb { r: 0xE6, g: 0xED, b: 0xF3 },
        Tone::Text2 => Rgb { r: 0x9D, g: 0xA7, b: 0xB3 },
        Tone::TextDim => Rgb { r: 0x6E, g: 0x76, b: 0x81 },
        Tone::Accent => Rgb { r: 0x4C, g: 0x8D, b: 0xFF },
        Tone::Green => Rgb { r: 0x3F, g: 0xB9, b: 0x50 },
        Tone::Red => Rgb { r: 0xF8, g: 0x51, b: 0x49 },
        Tone::Amber => Rgb { r: 0xD2, g: 0x99, b: 0x22 },
        Tone::ActiveTint => Rgb { r: 0x10, g: 0x23, b: 0x1A },
    }
}

impl Tone {
    /// The channels of this token.
    pub fn rgb(self) -> (c: Rgb)
        ensures
            c == tone_rgb(self),
    {
        match self {
            Tone::Bg => Rgb { r: 0x0E, g: 0x11, b: 0x16 },
            Tone::Surface => Rgb { r: 0x16, g: 0x1B, b: 0x22 },
            Tone::Surface2 => Rgb { r: 0x1C, g: 0x22, b: 0x30 },
            Tone::Border => Rgb { r: 0x2A, g: 0x31, b: 0x3C },
            Tone::Text1 => Rgb { r: 0xE6, g: 0xED, b: 0xF3 },
            Tone::Text2 => Rgb { r: 0x9D, g: 0xA7, b: 0xB3 },
            Tone::TextDim => Rgb { r: 0x6E, g: 0x76, b: 0x81 },
            Tone::Accent => Rgb { r: 0x4C, g: 0x8D, b: 0xFF },
            Tone::Green => Rgb { r: 0x3F, g: 0xB9, b: 0x50 },
            Tone::Red => Rgb { r: 0xF8, g: 0x51, b: 0x49 },
            Tone::Amber => Rgb { r: 0xD2, g: 0x99, b: 0x22 },
            Tone::ActiveTint => Rgb { r: 0x10, g: 0x23, b: 0x1A },
        }
    }
}

/// Colour of a block's status bar: active is green, missed red, expired
/// amber, and the rest dim.
pub open spec fn status_tone(status: Status) -> Tone {
    match status {
        Status::Active => Tone::Green,
        Status::Missed => Tone::Red,
        Status::Expired => Tone::Amber,
        Status::Done | Status::Skipped | Status::Pending => Tone::TextDim,
    }
}

/// The colour token for a block status.
pub fn status_color(status: Status) -> (t: Tone)
    ensures
        t == status_tone(status),
{
    match status {
        Status::Active => Tone::Green,
        Status::Missed => Tone::Red,
        Status::Expired => Tone::Amber,
        Status::Done | Status::Skipped | Status::Pending => Tone::TextDim,
    }
}

/// How a block card is drawn.
#[derive(Clone, Copy, Debug, PartialEq, Eq, Structural)]
pub struct CardStyle {
    pub fill: Tone,
    pub stroke: Tone,
    pub status_bar: Tone,
    pub title: Tone,
    pub strikethrough: bool,
}

/// Whether a status ends a block for the timeline: done or skipped.
pub open spec fn is_finished(status: Status) -> bool {
    status == Status::Done || status == Status::Skipped
}

/// The style of a block card: an active block is tinted and titled in green,
/// a selected one sits on the second surface with an accent border, and a
/// finished one has its title struck through in the dim tone.
pub open spec fn card_style(status: Status, is_selected: bool) -> CardStyle {
    CardStyle {
        fill: if status == Status::Active {
            Tone::ActiveTint
        } else if is_selected {
            Tone::Surface2
        } else {
            Tone::Surface
        },
        stroke: if is_selected { Tone::Accent } else { Tone::Border },
        status_bar: status_tone(status),
        title: if is_finished(status) {
            Tone::TextDim
        } else if status == Status::Active {
            Tone::Green
        } else {
            Tone::Text1
        },
        strikethrough: is_finished(status),
    }
}

/// The style of a block card of the given status, selected or not.
pub fn block_card_style(status: Status, is_selected: bool) -> (s: CardStyle)
    ensures
        s == card_style(status, is_selected),
{
    let is_active = status == Status::Active;
    let is_terminal = status == Status::Done || status == Status::Skipped;
    let fill = if is_active {
        Tone::ActiveTint
    } else if is_selected {
        Tone::Surface2
    } else {
        Tone::Surface
    };
    let stroke = if is_selected { Tone::Accent } else { Tone::Border };
    let title = if is_terminal {
        Tone::TextDim
    } else if is_active {
        Tone::Green
    } else {
        Tone::Text1
    };
    CardStyle { fill, stroke, status_bar: status_color(status), title, strikethrough: is_terminal }
}

/// The colour of an activity-feed entry of each kind.
pub open spec fn activity_tone_of(kind: ActivityKind) -> Tone {
    match kind {
        ActivityKind::Success => Tone::Green,
        ActivityKind::Run => Tone::Accent,
        ActivityKind::Error => Tone::Red,
        ActivityKind::Info => Tone::TextDim,
    }
}

/// The colour of an activity-feed entry.
pub fn activity_tone(kind: ActivityKind) -> (t: Tone)
    ensures
        t == activity_tone_of(kind),
{
    match kind {
        ActivityKind::Success => Tone::Green,
        ActivityKind::Run => Tone::Accent,
        ActivityKind::Error => Tone::Red,
        ActivityKind::Info => Tone::TextDim,
    }
}

/// The colour of an agent's status dot: green while it is fine, red otherwise.
pub fn agent_tone(is_ok: bool) -> (t: Tone)
    ensures
        t == (if is_ok { Tone::Green } else { Tone::Red }),
{
    if is_ok {
        Tone::Green
    } else {
        Tone::Red
    }
}

/// The colour of a block's approval state: green when it reads "approved",
/// amber for anything else.
pub fn approval_tone(approval: &str) -> (t: Tone)
    ensures
        t == (if approval@ == "approved"@ { Tone::Green } else { Tone::Amber }),
{
    let given = String::from_str(approval);
    let approved = String::from_str("approved");
    if given == approved {
        Tone::Green
    } else {
        Tone::Amber
    }
}

/// The background and border of a toast: red for errors, otherwise the
/// second surface with an accent border.
pub fn toast_tones(is_error: bool) -> (t: (Tone, Tone))
    ensures
        t == (if is_error { (Tone::Red, Tone::Red) } else { (Tone::Surface2, Tone::Accent) }),
{
    if is_error {
        (Tone::Red, Tone::Red)
    } else {
        (Tone::Surface2, Tone::Accent)
    }
}

} // verus!
