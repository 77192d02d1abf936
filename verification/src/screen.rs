//! One refresh of the menu screen: the page title follows the selected
//! page, the page body is brought up to date while the menu is active, and
//! when the pause ends the menu returns to the main page.

use vstd::prelude::*;
use crate::draw::{self, push_body_area, title, DrawCmd, Label};
use crate::menu::{AppMode, Controls, InColor, InMenu};
use crate::menu_display_fn::{self, bri_body, push_color_labels, update_selection};

verus! {

/// What the screen currently shows.
#[derive(Clone, Copy, Debug, PartialEq, Eq, Structural)]
pub struct Screen {
    /// Page whose title is shown.
    pub menu_t: AppMode,
    /// Sub-menu whose panel is shown.
    pub in_menu_t: Option<InMenu>,
    /// Colour channel that is underlined.
    pub in_color_t: Option<InColor>,
    /// Brightness value shown on the brightness page.
    pub flag_bri: u8,
}

impl Screen {
    /// The screen right after the start-up banner: main title, no panel.
    pub fn new() -> (s: Screen)
        ensures
            s == (Screen { menu_t: AppMode::Main, in_menu_t: None, in_color_t: None, flag_bri: 255 }),
    {
        Screen { menu_t: AppMode::Main, in_menu_t: None, in_color_t: None, flag_bri: 255 }
    }
}

/// The main page as the screen loop draws it: brightness and the colour
/// and mode labels.
pub open spec fn spec_main_body(brightness: u8) -> Seq<DrawCmd> {
    seq![
        draw::text(Label::Brightness, 50, 180),
        draw::number(brightness, 250, 180),
        draw::text(Label::Color, 50, 230),
        draw::text(Label::Mode, 50, 280),
    ]
}

/// Draws the main page as the screen loop shows it.
pub fn main_body(out: &mut Vec<DrawCmd>, brightness: u8)
    ensures
        final(out)@ == old(out)@ + spec_main_body(brightness),
{
    out.push(DrawCmd::Text { label: Label::Brightness, x: 50, y: 180 });
    out.push(DrawCmd::Number { value: brightness, x: 250, y: 180 });
    out.push(DrawCmd::Text { label: Label::Color, x: 50, y: 230 });
    out.push(DrawCmd::Text { label: Label::Mode, x: 50, y: 280 });
}

/// The colour page as the screen loop draws it: the commands, and the
/// sub-menu and selection the page now shows.
pub open spec fn spec_color_body(
    in_menu_t: Option<InMenu>,
    in_col_t: Option<InColor>,
    in_menu: Option<InMenu>,
    in_color: Option<InColor>,
) -> (Seq<DrawCmd>, Option<InMenu>, Option<InColor>) {
    match in_menu {
        None => (seq![draw::text(Label::HintColor, 50, 180)], None, in_col_t),
        Some(m) => if m != InMenu::Color {
            (Seq::empty(), in_menu_t, in_col_t)
        } else if in_menu_t is None {
            (menu_display_fn::color_labels(), Some(InMenu::Color), in_col_t)
        } else {
            let (cmds, shown) = menu_display_fn::spec_selection(in_col_t, in_color);
            (cmds, in_menu_t, shown)
        },
    }
}

/// Draws the colour page as the screen loop shows it: the channel labels
/// when the colour sub-menu is newly open, then the underline following the
/// selected channel; the hint when no sub-menu is open.
pub fn color_body(
    out: &mut Vec<DrawCmd>,
    in_menu_t: &mut Option<InMenu>,
    in_col_t: &mut Option<InColor>,
    in_menu: Option<InMenu>,
    in_color: Option<InColor>,
)
    ensures
        ({
            let (cmds, shown, sel) = spec_color_body(*old(in_menu_t), *old(in_col_t), in_menu, in_color);
            &&& final(out)@ == old(out)@ + cmds
            &&& *final(in_menu_t) == shown
            &&& *final(in_col_t) == sel
        }),
{
    match in_menu {
        Some(m) => {
            if m == InMenu::Color {
                if in_menu_t.is_none() {
                    push_color_labels(out);
                    *in_menu_t = Some(InMenu::Color);
                } else {
                    update_selection(out, in_col_t, in_color);
                }
            }
        },
        None => {
            out.push(DrawCmd::Text { label: Label::HintColor, x: 50, y: 180 });
            *in_menu_t = in_menu;
        },
    }
}

/// Commands, screen and controls after one refresh.
pub open spec fn spec_refresh(scr: Screen, ctl: Controls, pause: bool) -> (Seq<DrawCmd>, Screen, Controls) {
    let area = if scr.in_menu_t != ctl.in_menu { seq![draw::body_area()] } else { Seq::empty() };
    let changed = scr.menu_t != ctl.menu;
    let header = if changed {
        seq![
            draw::clear(120, 80, 250, 40),
            draw::text(draw::spec_title(ctl.menu), 150, 110),
            draw::body_area(),
        ]
    } else {
        Seq::empty()
    };
    let s1 = Screen { menu_t: ctl.menu, in_menu_t: if changed { None } else { scr.in_menu_t }, ..scr };
    let head = area + header;
    if pause {
        match ctl.menu {
            AppMode::Main => (head + spec_main_body(ctl.brightness), s1, ctl),
            AppMode::Brightness => {
                let (cmds, shown, flag) = menu_display_fn::spec_bri_body(
                    s1.in_menu_t,
                    s1.flag_bri,
                    ctl.in_menu,
                    ctl.brightness,
                );
                (head + cmds, Screen { in_menu_t: shown, flag_bri: flag, ..s1 }, ctl)
            },
            AppMode::Color => {
                let (cmds, shown, sel) = spec_color_body(
                    s1.in_menu_t,
                    s1.in_color_t,
                    ctl.in_menu,
                    ctl.in_color,
                );
                (head + cmds, Screen { in_menu_t: shown, in_color_t: sel, ..s1 }, ctl)
            },
        }
    } else {
        (
            head + spec_main_body(ctl.brightness),
            Screen { in_menu_t: None, in_color_t: None, ..s1 },
            Controls { menu: AppMode::Main, in_menu: None, in_color: None, ..ctl },
        )
    }
}

/// Whether two sub-menu values differ.
fn menu_differs(a: Option<InMenu>, b: Option<InMenu>) -> (r: bool)
    ensures
        r == (a != b),
{
    match (a, b) {
        (None, None) => false,
        (Some(x), Some(y)) => x != y,
        _ => true,
    }
}

/// One refresh of the screen. While the menu is active (`pause`) the body
/// of the shown page is brought up to date; otherwise the controls return
/// to the main page with nothing open and the main page is drawn. A change
/// of page redraws the title and clears the body area first.
pub fn refresh(out: &mut Vec<DrawCmd>, scr: &mut Screen, ctl: &mut Controls, pause: bool)
    ensures
        ({
            let (cmds, s, c) = spec_refresh(*old(scr), *old(ctl), pause);
            &&& final(out)@ == old(out)@ + cmds
            &&& *final(scr) == s
            &&& *final(ctl) == c
        }),
{
    if menu_differs(scr.in_menu_t, ctl.in_menu) {
        push_body_area(out);
    }
    let mode = ctl.menu;
    if scr.menu_t != mode {
        scr.in_menu_t = None;
        out.push(DrawCmd::Clear { x: 120, y: 80, w: 250, h: 40 });
        out.push(DrawCmd::Text { label: title(mode), x: 150, y: 110 });
        push_body_area(out);
    }
    scr.menu_t = mode;
    if pause {
        match scr.menu_t {
            AppMode::Main => {
                main_body(out, ctl.brightness);
            },
            AppMode::Brightness => {
                bri_body(out, &mut scr.in_menu_t, &mut scr.flag_bri, ctl.in_menu, ctl.brightness);
            },
            AppMode::Color => {
                color_body(out, &mut scr.in_menu_t, &mut scr.in_color_t, ctl.in_menu, ctl.in_color);
            },
        }
    } else {
        ctl.menu = AppMode::Main;
        main_body(out, ctl.brightness);
        ctl.in_menu = None;
        ctl.in_color = None;
        scr.in_menu_t = None;
        scr.in_color_t = None;
    }
}

/// When the pause ends, one refresh returns the controls to the main page
/// with nothing open and draws the main page.
pub proof fn law_pause_end_resets(scr: Screen, ctl: Controls)
    ensures
        ({
            let (cmds, s, c) = spec_refresh(scr, ctl, false);
            &&& c.menu == AppMode::Main && c.in_menu is None && c.in_color is None
            &&& c.brightness == ctl.brightness && c.pos == ctl.pos
            &&& s.in_menu_t is None && s.in_color_t is None
            &&& cmds.subrange(cmds.len() - 4, cmds.len() as int) == spec_main_body(ctl.brightness)
        }),
{
}

/// With the brightness sub-menu open and the controls unchanged, the screen
/// settles after one refresh: the next one draws nothing.
pub proof fn law_brightness_page_settles(scr: Screen, ctl: Controls)
    requires
        ctl.menu == AppMode::Brightness,
        ctl.in_menu == Some(InMenu::Brightness),
        scr.in_menu_t is None || scr.in_menu_t == ctl.in_menu,
    ensures
        ({
            let (_, s1, c1) = spec_refresh(scr, ctl, true);
            let (cmds2, s2, c2) = spec_refresh(s1, c1, true);
            &&& cmds2 == Seq::<DrawCmd>::empty()
            &&& s2 == s1 && c2 == c1
        }),
{
    let (_, s1, c1) = spec_refresh(scr, ctl, true);
    let (cmds2, s2, c2) = spec_refresh(s1, c1, true);
    assert(cmds2 =~= Seq::<DrawCmd>::empty());
}

/// With the colour sub-menu open and the controls unchanged, the screen
/// settles after two refreshes: the third draws nothing.
pub proof fn law_color_page_settles(scr: Screen, ctl: Controls)
    requires
        ctl.menu == AppMode::Color,
        ctl.in_menu == Some(InMenu::Color),
        scr.in_menu_t is None || scr.in_menu_t == ctl.in_menu,
    ensures
        ({
            let (_, s1, c1) = spec_refresh(scr, ctl, true);
            let (_, s2, c2) = spec_refresh(s1, c1, true);
            let (cmds3, s3, c3) = spec_refresh(s2, c2, true);
            &&& cmds3 == Seq::<DrawCmd>::empty()
            &&& s3 == s2 && c3 == c2
        }),
{
    let (_, s1, c1) = spec_refresh(scr, ctl, true);
    let (_, s2, c2) = spec_refresh(s1, c1, true);
    let (cmds3, s3, c3) = spec_refresh(s2, c2, true);
    assert(cmds3 =~= Seq::<DrawCmd>::empty());
}

/// A refresh keeps the menu consistent: it either leaves the controls alone
/// or returns them to the main page with nothing open.
pub proof fn law_refresh_keeps_menu_wf(scr: Screen, ctl: Controls, pause: bool)
    requires
        crate::menu::menu_wf(ctl),
    ensures
        crate::menu::menu_wf(spec_refresh(scr, ctl, pause).2),
{
}

/// Whenever the shown page differs from the selected one, the refresh
/// starts (after clearing the body area when the open sub-menu changed) by
/// clearing the title area and drawing the selected page's title, for every
/// page; when the page is unchanged no title is drawn.
pub proof fn law_title_follows_page(scr: Screen, ctl: Controls, pause: bool)
    ensures
        ({
            let (cmds, s, _) = spec_refresh(scr, ctl, pause);
            let k: int = if scr.in_menu_t != ctl.in_menu { 1 } else { 0 };
            let t = match ctl.menu {
                AppMode::Main => Label::TitleMain,
                AppMode::Brightness => Label::TitleBrightness,
                AppMode::Color => Label::TitleColor,
            };
            &&& s.menu_t == ctl.menu
            &&& scr.menu_t != ctl.menu ==> {
                &&& cmds.len() >= k + 3
                &&& cmds[k] == draw::clear(120, 80, 250, 40)
                &&& cmds[k + 1] == draw::text(t, 150, 110)
                &&& cmds[k + 2] == draw::body_area()
            }
            &&& scr.menu_t == ctl.menu ==> forall|j: int|
                0 <= j < cmds.len() ==> cmds[j] != draw::clear(120, 80, 250, 40)
        }),
{
    let (cmds, s, _) = spec_refresh(scr, ctl, pause);
    if scr.menu_t == ctl.menu {
        assert forall|j: int| 0 <= j < cmds.len() implies cmds[j] != draw::clear(120, 80, 250, 40) by {
        }
    }
}

} // verus!
