//! Drawing commands for the menu screen. The screen logic decides what to
//! draw as a list of commands; the display driver carries them out: every
//! fill uses the red background colour and every text the white menu font.

use vstd::prelude::*;
use crate::menu::AppMode;

verus! {

/// The fixed texts of the menu screen.
#[derive(Clone, Copy, Debug, PartialEq, Eq, Structural)]
pub enum Label {
    Brightness,
    Color,
    Rgb,
    Mode,
    Value,
    Red,
    Green,
    Blue,
    Underline,
    HintBrightness,
    HintColor,
    HintMode,
    TitleMain,
    TitleBrightness,
    TitleColor,
}

impl Label {
    /// The characters shown for this label.
    pub open spec fn spec_text(self) -> Seq<char> {
        match self {
            Label::Brightness => "BRIGHTNESS : "@,
            Label::Color => "COLOR : "@,
            Label::Rgb => "RGB - "@,
            Label::Mode => "MODE : "@,
            Label::Value => "VALUE : "@,
            Label::Red => "RED        : "@,
            Label::Green => "GREEN  : "@,
            Label::Blue => "BLUE     : "@,
            Label::Underline => "______"@,
            Label::HintBrightness => "Click to adjust the brightness"@,
            Label::HintColor => "Click to adjust the color"@,
            Label::HintMode => "Click to adjust the Mode"@,
            Label::TitleMain => "MAIN"@,
            Label::TitleBrightness => "BRIGHTNESS"@,
            Label::TitleColor => "COLOR"@,
        }
    }

    /// The text shown for this label.
    pub fn text(&self) -> (s: &'static str)
        ensures
            s@ == self.spec_text(),
    {
        match self {
            Label::Brightness => "BRIGHTNESS : ",
            Label::Color => "COLOR : ",
            Label::Rgb => "RGB - ",
            Label::Mode => "MODE : ",
            Label::Value => "VALUE : ",
            Label::Red => "RED        : ",
            Label::Green => "GREEN  : ",
            Label::Blue => "BLUE     : ",
            Label::Underline => "______",
            Label::HintBrightness => "Click to adjust the brightness",
            Label::HintColor => "Click to adjust the color",
            Label::HintMode => "Click to adjust the Mode",
            Label::TitleMain => "MAIN",
            Label::TitleBrightness => "BRIGHTNESS",
            Label::TitleColor => "COLOR",
        }
    }
}

/// One drawing operation on the screen. Positions are those of the display
/// driver: a rectangle's top-left corner, or a text's baseline start.
#[derive(Clone, Copy, Debug, PartialEq, Eq, Structural)]
pub enum DrawCmd {
    /// Fill a `w` x `h` rectangle with the background colour.
    Clear { x: i32, y: i32, w: u32, h: u32 },
    /// Draw a fixed text.
    Text { label: Label, x: i32, y: i32 },
    /// Draw a number in decimal.
    Number { value: u8, x: i32, y: i32 },
    /// Draw a colour as `(r, g, b)`.
    Triple { r: u8, g: u8, b: u8, x: i32, y: i32 },
}

pub open spec fn clear(x: i32, y: i32, w: u32, h: u32) -> DrawCmd {
    DrawCmd::Clear { x, y, w, h }
}

pub open spec fn text(label: Label, x: i32, y: i32) -> DrawCmd {
    DrawCmd::Text { label, x, y }
}

pub open spec fn number(value: u8, x: i32, y: i32) -> DrawCmd {
    DrawCmd::Number { value, x, y }
}

/// The area below the title that every page draws into.
pub open spec fn body_area() -> DrawCmd {
    clear(0, 140, 500, 180)
}

/// The title shown for a page.
pub open spec fn spec_title(m: AppMode) -> Label {
    match m {
        AppMode::Main => Label::TitleMain,
        AppMode::Brightness => Label::TitleBrightness,
        AppMode::Color => Label::TitleColor,
    }
}

/// The title shown for a page.
pub fn title(m: AppMode) -> (l: Label)
    ensures
        l == spec_title(m),
{
    match m {
        AppMode::Main => Label::TitleMain,
        AppMode::Brightness => Label::TitleBrightness,
        AppMode::Color => Label::TitleColor,
    }
}

/// Appends the body-area clear.
pub fn push_body_area(out: &mut Vec<DrawCmd>)
    ensures
        final(out)@ == old(out)@.push(body_area()),
{
    out.push(DrawCmd::Clear { x: 0, y: 140, w: 500, h: 180 });
}

} // verus!
