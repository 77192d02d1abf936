//! The bodies of the menu pages: given what the page last showed and the
//! current controls, the drawing commands that bring the screen up to date.
//! Each body appends its commands to `out` in drawing order.

use vstd::prelude::*;
use crate::draw::{self, push_body_area, DrawCmd, Label};
use crate::menu::{InColor, InMenu};

verus! {

pub open spec fn triple(rgb: (u8, u8, u8), x: i32, y: i32) -> DrawCmd {
    DrawCmd::Triple { r: rgb.0, g: rgb.1, b: rgb.2, x, y }
}

/// The main page: brightness, colour and the mode label.
pub open spec fn spec_main_body(brightness: u8, rgb: (u8, u8, u8)) -> Seq<DrawCmd> {
    seq![
        draw::text(Label::Brightness, 50, 180),
        draw::number(brightness, 250, 180),
        draw::text(Label::Color, 50, 230),
        draw::text(Label::Rgb, 200, 230),
        triple(rgb, 280, 230),
        draw::text(Label::Mode, 50, 280),
    ]
}

/// Draws the main page.
pub fn main_body(out: &mut Vec<DrawCmd>, brightness: u8, rgb: (u8, u8, u8))
    ensures
        final(out)@ == old(out)@ + spec_main_body(brightness, rgb),
{
    out.push(DrawCmd::Text { label: Label::Brightness, x: 50, y: 180 });
    out.push(DrawCmd::Number { value: brightness, x: 250, y: 180 });
    out.push(DrawCmd::Text { label: Label::Color, x: 50, y: 230 });
    out.push(DrawCmd::Text { label: Label::Rgb, x: 200, y: 230 });
    out.push(DrawCmd::Triple { r: rgb.0, g: rgb.1, b: rgb.2, x: 280, y: 230 });
    out.push(DrawCmd::Text { label: Label::Mode, x: 50, y: 280 });
}

/// Redraw of the brightness value.
pub open spec fn bri_value(brightness: u8) -> Seq<DrawCmd> {
    seq![draw::clear(200, 150, 100, 40), draw::number(brightness, 250, 180)]
}

/// Appends the redraw of the brightness value.
fn push_bri_value(out: &mut Vec<DrawCmd>, brightness: u8)
    ensures
        final(out)@ == old(out)@ + bri_value(brightness),
{
    out.push(DrawCmd::Clear { x: 200, y: 150, w: 100, h: 40 });
    out.push(DrawCmd::Number { value: brightness, x: 250, y: 180 });
}

/// The brightness page: the commands, the sub-menu the page now shows, and
/// the brightness it now shows.
pub open spec fn spec_bri_body(
    in_menu_t: Option<InMenu>,
    flag_bri: u8,
    in_menu: Option<InMenu>,
    brightness: u8,
) -> (Seq<DrawCmd>, Option<InMenu>, u8) {
    match in_menu {
        None => (seq![draw::text(Label::HintBrightness, 50, 180)], None, flag_bri),
        Some(m) => {
            let enter = m == InMenu::Brightness && in_menu_t is None;
            let opening = if enter {
                seq![draw::body_area(), draw::text(Label::Value, 50, 180)] + bri_value(brightness)
            } else {
                Seq::empty()
            };
            let update = if flag_bri != brightness {
                bri_value(brightness)
            } else {
                Seq::empty()
            };
            (
                opening + update,
                if enter { Some(InMenu::Brightness) } else { in_menu_t },
                brightness,
            )
        },
    }
}

/// Draws the brightness page. `in_menu_t` and `flag_bri` record what the
/// page shows; `in_menu` and `brightness` are the current controls. With
/// the brightness sub-menu newly open the value panel is drawn; with any
/// sub-menu open a changed brightness is redrawn; with none open the hint
/// is drawn.
pub fn bri_body(
    out: &mut Vec<DrawCmd>,
    in_menu_t: &mut Option<InMenu>,
    flag_bri: &mut u8,
    in_menu: Option<InMenu>,
    brightness: u8,
)
    ensures
        ({
            let (cmds, shown, flag) = spec_bri_body(*old(in_menu_t), *old(flag_bri), in_menu, brightness);
            &&& final(out)@ == old(out)@ + cmds
            &&& *final(in_menu_t) == shown
            &&& *final(flag_bri) == flag
        }),
{
    match in_menu {
        Some(m) => {
            if m == InMenu::Brightness {
                if in_menu_t.is_none() {
                    push_body_area(out);
                    out.push(DrawCmd::Text { label: Label::Value, x: 50, y: 180 });
                    push_bri_value(out, brightness);
                    *in_menu_t = Some(InMenu::Brightness);
                }
            }
            if *flag_bri != brightness {
                push_bri_value(out, brightness);
                *flag_bri = brightness;
            }
        },
        None => {
            out.push(DrawCmd::Text { label: Label::HintBrightness, x: 50, y: 180 });
            *in_menu_t = in_menu;
        },
    }
}

/// The channel of `rgb` that `c` selects.
pub open spec fn channel(c: InColor, rgb: (u8, u8, u8)) -> u8 {
    match c {
        InColor::Red => rgb.0,
        InColor::Green => rgb.1,
        InColor::Blue => rgb.2,
    }
}

/// Baseline of the row of channel `c`.
pub open spec fn row_y(c: InColor) -> i32 {
    match c {
        InColor::Red => 180,
        InColor::Green => 230,
        InColor::Blue => 280,
    }
}

/// Redraw of the value of channel `c`.
pub open spec fn color_value(c: InColor, rgb: (u8, u8, u8)) -> Seq<DrawCmd> {
    seq![draw::clear(200, (row_y(c) - 30) as i32, 100, 40), draw::number(channel(c, rgb), 250, row_y(c))]
}

/// Appends the redraw of the value of channel `c`.
fn push_color_value(out: &mut Vec<DrawCmd>, c: InColor, rgb: (u8, u8, u8))
    ensures
        final(out)@ == old(out)@ + color_value(c, rgb),
{
    match c {
        InColor::Red => {
            out.push(DrawCmd::Clear { x: 200, y: 150, w: 100, h: 40 });
            out.push(DrawCmd::Number { value: rgb.0, x: 250, y: 180 });
        },
        InColor::Green => {
            out.push(DrawCmd::Clear { x: 200, y: 200, w: 100, h: 40 });
            out.push(DrawCmd::Number { value: rgb.1, x: 250, y: 230 });
        },
        InColor::Blue => {
            out.push(DrawCmd::Clear { x: 200, y: 250, w: 100, h: 40 });
            out.push(DrawCmd::Number { value: rgb.2, x: 250, y: 280 });
        },
    }
}

/// The three channel labels of the colour sub-menu.
pub open spec fn color_labels() -> Seq<DrawCmd> {
    seq![
        draw::body_area(),
        draw::text(Label::Red, 50, 180),
        draw::text(Label::Green, 50, 230),
        draw::text(Label::Blue, 50, 280),
    ]
}

/// Appends the three channel labels of the colour sub-menu.
pub fn push_color_labels(out: &mut Vec<DrawCmd>)
    ensures
        final(out)@ == old(out)@ + color_labels(),
{
    push_body_area(out);
    out.push(DrawCmd::Text { label: Label::Red, x: 50, y: 180 });
    out.push(DrawCmd::Text { label: Label::Green, x: 50, y: 230 });
    out.push(DrawCmd::Text { label: Label::Blue, x: 50, y: 280 });
}

/// Erases the underlines of the three rows and underlines the selected one.
pub open spec fn underline(sel: Option<InColor>) -> Seq<DrawCmd> {
    seq![draw::clear(30, 185, 150, 20), draw::clear(30, 235, 150, 20), draw::clear(30, 285, 150, 20)] + match sel {
        Some(c) => seq![draw::text(Label::Underline, 50, (row_y(c) + 5) as i32)],
        None => Seq::empty(),
    }
}

/// The part of the colour page that follows the selection: the commands and
/// the selection the page now shows.
pub open spec fn spec_selection(in_col_t: Option<InColor>, in_color: Option<InColor>) -> (Seq<DrawCmd>, Option<InColor>) {
    if in_col_t != in_color {
        (underline(in_color), in_color)
    } else {
        (Seq::empty(), in_col_t)
    }
}

/// Moves the underline when the selected channel changed.
pub fn update_selection(out: &mut Vec<DrawCmd>, in_col_t: &mut Option<InColor>, in_color: Option<InColor>)
    ensures
        ({
            let (cmds, shown) = spec_selection(*old(in_col_t), in_color);
            final(out)@ == old(out)@ + cmds && *final(in_col_t) == shown
        }),
{
    let changed = match (*in_col_t, in_color) {
        (None, None) => false,
        (Some(a), Some(b)) => a != b,
        _ => true,
    };
    if changed {
        out.push(DrawCmd::Clear { x: 30, y: 185, w: 150, h: 20 });
        out.push(DrawCmd::Clear { x: 30, y: 235, w: 150, h: 20 });
        out.push(DrawCmd::Clear { x: 30, y: 285, w: 150, h: 20 });
        match in_color {
            Some(InColor::Red) => {
                out.push(DrawCmd::Text { label: Label::Underline, x: 50, y: 185 });
            },
            Some(InColor::Green) => {
                out.push(DrawCmd::Text { label: Label::Underline, x: 50, y: 235 });
            },
            Some(InColor::Blue) => {
                out.push(DrawCmd::Text { label: Label::Underline, x: 50, y: 285 });
            },
            None => {},
        }
        *in_col_t = in_color;
    }
}

/// The colour page: the commands, the sub-menu, selection and colour the
/// page now shows.
pub open spec fn spec_color_body(
    in_menu_t: Option<InMenu>,
    in_col_t: Option<InColor>,
    flag_rgb: (u8, u8, u8),
    in_menu: Option<InMenu>,
    in_color: Option<InColor>,
    rgb: (u8, u8, u8),
) -> (Seq<DrawCmd>, Option<InMenu>, Option<InColor>, (u8, u8, u8)) {
    match in_menu {
        None => (seq![draw::text(Label::HintColor, 50, 180)], None, in_col_t, flag_rgb),
        Some(m) => if m != InMenu::Color {
            (Seq::empty(), in_menu_t, in_col_t, flag_rgb)
        } else if in_menu_t is None {
            (
                color_labels() + color_value(InColor::Red, rgb) + color_value(InColor::Green, rgb)
                    + color_value(InColor::Blue, rgb),
                Some(InMenu::Color),
                in_col_t,
                flag_rgb,
            )
        } else {
            let (sel_cmds, shown) = spec_selection(in_col_t, in_color);
            match in_color {
                Some(c) => if flag_rgb != rgb {
                    (sel_cmds + color_value(c, rgb), in_menu_t, shown, rgb)
                } else {
                    (sel_cmds, in_menu_t, shown, flag_rgb)
                },
                None => (sel_cmds, in_menu_t, shown, flag_rgb),
            }
        },
    }
}

/// Draws the colour page. `in_menu_t`, `in_col_t` and `flag_rgb_data`
/// record what the page shows; `in_menu`, `in_color` and `rgb` are the
/// current controls. With the colour sub-menu newly open the three channels
/// and their values are drawn; once open, the underline follows the
/// selected channel and a changed colour redraws the selected channel's
/// value; with no sub-menu open the hint is drawn.
pub fn color_body(
    out: &mut Vec<DrawCmd>,
    in_menu_t: &mut Option<InMenu>,
    in_col_t: &mut Option<InColor>,
    flag_rgb_data: &mut (u8, u8, u8),
    in_menu: Option<InMenu>,
    in_color: Option<InColor>,
    rgb: (u8, u8, u8),
)
    ensures
        ({
            let (cmds, shown, sel, flag) = spec_color_body(
                *old(in_menu_t),
                *old(in_col_t),
                *old(flag_rgb_data),
                in_menu,
                in_color,
                rgb,
            );
            &&& final(out)@ == old(out)@ + cmds
            &&& *final(in_menu_t) == shown
            &&& *final(in_col_t) == sel
            &&& *final(flag_rgb_data) == flag
        }),
{
    match in_menu {
        Some(m) => {
            if m == InMenu::Color {
                if in_menu_t.is_none() {
                    push_color_labels(out);
                    push_color_value(out, InColor::Red, rgb);
                    push_color_value(out, InColor::Green, rgb);
                    push_color_value(out, InColor::Blue, rgb);
                    *in_menu_t = Some(InMenu::Color);
                } else {
                    update_selection(out, in_col_t, in_color);
                    if let Some(c) = in_color {
                        let same = flag_rgb_data.0 == rgb.0 && flag_rgb_data.1 == rgb.1
                            && flag_rgb_data.2 == rgb.2;
                        if !same {
                            push_color_value(out, c, rgb);
                            *flag_rgb_data = rgb;
                        }
                    }
                }
            }
        },
        None => {
            out.push(DrawCmd::Text { label: Label::HintColor, x: 50, y: 180 });
            *in_menu_t = in_menu;
        },
    }
}

/// The mode page: the commands and the sub-menu the page now shows.
pub open spec fn spec_mode_body(in_menu_t: Option<InMenu>, in_menu: Option<InMenu>) -> (Seq<DrawCmd>, Option<InMenu>) {
    match in_menu {
        None => (seq![draw::text(Label::HintMode, 50, 180)], None),
        Some(m) => if m == InMenu::Mode && in_menu_t is None {
            (seq![draw::body_area(), draw::text(Label::Mode, 50, 180)], Some(InMenu::Mode))
        } else {
            (Seq::empty(), in_menu_t)
        },
    }
}

/// Draws the mode page: the mode label when the mode sub-menu is newly
/// open, the hint when no sub-menu is open.
pub fn mode_body(out: &mut Vec<DrawCmd>, in_menu_t: &mut Option<InMenu>, in_menu: Option<InMenu>)
    ensures
        ({
            let (cmds, shown) = spec_mode_body(*old(in_menu_t), in_menu);
            final(out)@ == old(out)@ + cmds && *final(in_menu_t) == shown
        }),
{
    match in_menu {
        Some(m) => {
            if m == InMenu::Mode {
                if in_menu_t.is_none() {
                    push_body_area(out);
                    out.push(DrawCmd::Text { label: Label::Mode, x: 50, y: 180 });
                    *in_menu_t = Some(InMenu::Mode);
                }
            }
        },
        None => {
            out.push(DrawCmd::Text { label: Label::HintMode, x: 50, y: 180 });
            *in_menu_t = in_menu;
        },
    }
}

/// With the colour sub-menu shown and a channel selected, the page always
/// ends up recording the current colour, and a colour that differs from the
/// recorded one in any channel ends the commands with the redraw of the
/// selected channel's value; an unchanged colour draws no value.
pub proof fn law_color_value_follows(
    in_menu_t: Option<InMenu>,
    in_col_t: Option<InColor>,
    flag_rgb: (u8, u8, u8),
    in_color: Option<InColor>,
    rgb: (u8, u8, u8),
)
    requires
        in_menu_t is Some,
        in_color is Some,
    ensures
        ({
            let (cmds, shown, sel, flag) = spec_color_body(
                in_menu_t,
                in_col_t,
                flag_rgb,
                Some(InMenu::Color),
                in_color,
                rgb,
            );
            let c = in_color->0;
            let (v, y) = match c {
                InColor::Red => (rgb.0, 180i32),
                InColor::Green => (rgb.1, 230i32),
                InColor::Blue => (rgb.2, 280i32),
            };
            &&& flag == rgb
            &&& shown == in_menu_t
            &&& sel == in_color
            &&& (flag_rgb.0 != rgb.0 || flag_rgb.1 != rgb.1 || flag_rgb.2 != rgb.2) ==> {
                &&& cmds.len() >= 2
                &&& cmds[cmds.len() - 2] == draw::clear(200, (y - 30) as i32, 100, 40)
                &&& cmds[cmds.len() - 1] == draw::number(v, 250, y)
            }
            &&& flag_rgb == rgb ==> cmds == spec_selection(in_col_t, in_color).0
        }),
{
}

} // verus!
