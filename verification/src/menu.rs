//! The menu model shared by the input task and the screen: which top-level
//! page is shown, which sub-menu is open, which colour channel is selected,
//! and what a detent of the knob or a press of its button does to them.

use vstd::prelude::*;

verus! {

/// Top-level page of the menu.
#[derive(Clone, Copy, Debug, PartialEq, Eq, Structural)]
pub enum AppMode {
    Main,
    Brightness,
    Color,
}

/// Sub-menu opened by a button press on a page.
#[derive(Clone, Copy, Debug, PartialEq, Eq, Structural)]
pub enum InMenu {
    Brightness,
    Color,
    Mode,
}

/// Colour channel selected inside the colour sub-menu.
#[derive(Clone, Copy, Debug, PartialEq, Eq, Structural)]
pub enum InColor {
    Red,
    Blue,
    Green,
}

/// What the LED driver is told has changed.
#[derive(Clone, Copy, Debug, PartialEq, Eq, Structural)]
pub enum ChangeLed {
    Brightness,
    Color,
    Mode,
}

/// Direction of one detent of the knob.
#[derive(Clone, Copy, Debug, PartialEq, Eq, Structural)]
pub enum Turn {
    /// The count of quadrature steps rose to the detent threshold.
    Cw,
    /// The count of quadrature steps fell to the negative threshold.
    Ccw,
}

pub open spec fn spec_next(m: AppMode) -> AppMode {
    match m {
        AppMode::Main => AppMode::Brightness,
        AppMode::Brightness => AppMode::Color,
        AppMode::Color => AppMode::Main,
    }
}

pub open spec fn spec_prev(m: AppMode) -> AppMode {
    match m {
        AppMode::Main => AppMode::Color,
        AppMode::Brightness => AppMode::Main,
        AppMode::Color => AppMode::Brightness,
    }
}

impl AppMode {
    /// The page after this one, wrapping from Color to Main.
    pub fn next(&mut self) -> (r: Self)
        ensures
            r == spec_next(*old(self)),
            *final(self) == *old(self),
    {
        match self {
            AppMode::Main => AppMode::Brightness,
            AppMode::Brightness => AppMode::Color,
            AppMode::Color => AppMode::Main,
        }
    }

    /// The page before this one, wrapping from Main to Color.
    pub fn prev(&mut self) -> (r: Self)
        ensures
            r == spec_prev(*old(self)),
            *final(self) == *old(self),
    {
        match self {
            AppMode::Main => AppMode::Color,
            AppMode::Brightness => AppMode::Main,
            AppMode::Color => AppMode::Brightness,
        }
    }
}

/// The values that the input task writes and the screen and LED driver read.
#[derive(Clone, Copy, Debug, PartialEq, Eq, Structural)]
pub struct Controls {
    pub menu: AppMode,
    pub in_menu: Option<InMenu>,
    pub in_color: Option<InColor>,
    pub brightness: u8,
    pub pos: i32,
}

impl Controls {
    /// The state at power-on: main page, nothing open, brightness 0.
    pub fn new() -> (c: Controls)
        ensures
            c == (Controls {
                menu: AppMode::Main,
                in_menu: None,
                in_color: None,
                brightness: 0,
                pos: 0,
            }),
    {
        Controls { menu: AppMode::Main, in_menu: None, in_color: None, brightness: 0, pos: 0 }
    }
}

/// Whether `on_turn` can move `pos` by one in the direction of `turn`
/// without leaving the range of `i32`.
pub open spec fn turn_fits(ctl: Controls, turn: Turn) -> bool {
    ctl.in_menu is None ==> match turn {
        Turn::Cw => ctl.pos > i32::MIN,
        Turn::Ccw => ctl.pos < i32::MAX,
    }
}

/// What one detent does to the controls.
pub open spec fn spec_on_turn(ctl: Controls, turn: Turn) -> Controls {
    match ctl.in_menu {
        Some(InMenu::Brightness) => Controls {
            brightness: match turn {
                Turn::Cw => if ctl.brightness == 255 { 255 } else { (ctl.brightness + 1) as u8 },
                Turn::Ccw => if ctl.brightness == 0 { 0 } else { (ctl.brightness - 1) as u8 },
            },
            ..ctl
        },
        Some(_) => ctl,
        None => match turn {
            Turn::Cw => Controls { menu: spec_next(ctl.menu), pos: (ctl.pos - 1) as i32, ..ctl },
            Turn::Ccw => Controls { menu: spec_prev(ctl.menu), pos: (ctl.pos + 1) as i32, ..ctl },
        },
    }
}

/// Applies one detent of the knob. With the brightness sub-menu open the
/// brightness steps by one (saturating) and the result is `true`: the LED
/// driver must be told. With no sub-menu open the page moves (forward for
/// `Cw`, back for `Ccw`) and `pos` moves the other way. Other sub-menus
/// ignore the knob.
pub fn on_turn(ctl: &mut Controls, turn: Turn) -> (led_changed: bool)
    requires
        turn_fits(*old(ctl), turn),
    ensures
        *final(ctl) == spec_on_turn(*old(ctl), turn),
        led_changed == (old(ctl).in_menu == Some(InMenu::Brightness)),
{
    match ctl.in_menu {
        Some(InMenu::Brightness) => {
            match turn {
                Turn::Cw => {
                    ctl.brightness = ctl.brightness.saturating_add(1);
                },
                Turn::Ccw => {
                    ctl.brightness = ctl.brightness.saturating_sub(1);
                },
            }
            true
        },
        Some(_) => false,
        None => {
            match turn {
                Turn::Cw => {
                    ctl.menu = ctl.menu.next();
                    ctl.pos = ctl.pos - 1;
                },
                Turn::Ccw => {
                    ctl.menu = ctl.menu.prev();
                    ctl.pos = ctl.pos + 1;
                },
            }
            false
        },
    }
}

/// What a press of the knob's button does to the controls.
pub open spec fn spec_on_press(ctl: Controls) -> Controls {
    match ctl.menu {
        AppMode::Brightness => Controls {
            in_menu: if ctl.in_menu is None { Some(InMenu::Brightness) } else { None },
            ..ctl
        },
        AppMode::Color => match ctl.in_menu {
            None => Controls { in_menu: Some(InMenu::Color), in_color: Some(InColor::Red), ..ctl },
            Some(_) => match ctl.in_color {
                Some(InColor::Red) => Controls { in_color: Some(InColor::Green), ..ctl },
                Some(InColor::Green) => Controls { in_color: Some(InColor::Blue), ..ctl },
                Some(InColor::Blue) => Controls { in_color: None, in_menu: None, ..ctl },
                None => ctl,
            },
        },
        AppMode::Main => Controls { in_menu: None, ..ctl },
    }
}

/// Applies one press of the knob's button. On the brightness page it opens
/// or closes the brightness sub-menu. On the colour page it opens the colour
/// sub-menu with red selected, then steps red -> green -> blue, and after
/// blue closes the sub-menu. On the main page it closes any sub-menu.
pub fn on_press(ctl: &mut Controls)
    ensures
        *final(ctl) == spec_on_press(*old(ctl)),
{
    match ctl.menu {
        AppMode::Brightness => {
            match ctl.in_menu {
                None => {
                    ctl.in_menu = Some(InMenu::Brightness);
                },
                Some(_) => {
                    ctl.in_menu = None;
                },
            }
        },
        AppMode::Color => {
            match ctl.in_menu {
                None => {
                    ctl.in_menu = Some(InMenu::Color);
                    ctl.in_color = Some(InColor::Red);
                },
                Some(_) => {
                    match ctl.in_color {
                        Some(InColor::Red) => {
                            ctl.in_color = Some(InColor::Green);
                        },
                        Some(InColor::Green) => {
                            ctl.in_color = Some(InColor::Blue);
                        },
                        Some(InColor::Blue) => {
                            ctl.in_color = None;
                            ctl.in_menu = None;
                        },
                        None => {},
                    }
                },
            }
        },
        AppMode::Main => {
            ctl.in_menu = None;
        },
    }
}

/// Going to the next page and back, or back and forward, returns to the
/// same page, and three steps forward make a full round.
pub proof fn law_next_prev_inverse(m: AppMode)
    ensures
        spec_prev(spec_next(m)) == m,
        spec_next(spec_prev(m)) == m,
        spec_next(spec_next(spec_next(m))) == m,
{
}

/// With no sub-menu open, a detent one way and a detent back restore the
/// page and the position.
pub proof fn law_turn_back_and_forth(ctl: Controls)
    requires
        ctl.in_menu is None,
        ctl.pos > i32::MIN,
    ensures
        turn_fits(spec_on_turn(ctl, Turn::Cw), Turn::Ccw),
        spec_on_turn(spec_on_turn(ctl, Turn::Cw), Turn::Ccw) == ctl,
{
    law_next_prev_inverse(ctl.menu);
}

/// In the brightness sub-menu, a detent up and a detent down restore the
/// brightness when it was below full.
pub proof fn law_brightness_up_down(ctl: Controls)
    requires
        ctl.in_menu == Some(InMenu::Brightness),
        ctl.brightness < 255,
    ensures
        spec_on_turn(spec_on_turn(ctl, Turn::Cw), Turn::Ccw) == ctl,
{
}

/// A button press never moves the page, the brightness or the position.
pub proof fn law_press_keeps_values(ctl: Controls)
    ensures
        spec_on_press(ctl).menu == ctl.menu,
        spec_on_press(ctl).brightness == ctl.brightness,
        spec_on_press(ctl).pos == ctl.pos,
{
}

/// On the colour page, presses open the colour sub-menu on red, then select
/// green, then blue, and the fourth press closes it again.
pub proof fn law_color_press_cycle(ctl: Controls)
    requires
        ctl.menu == AppMode::Color,
        ctl.in_menu is None,
    ensures
        spec_on_press(ctl).in_menu == Some(InMenu::Color),
        spec_on_press(ctl).in_color == Some(InColor::Red),
        spec_on_press(spec_on_press(ctl)).in_color == Some(InColor::Green),
        spec_on_press(spec_on_press(spec_on_press(ctl))).in_color == Some(InColor::Blue),
        spec_on_press(spec_on_press(spec_on_press(spec_on_press(ctl)))) == (Controls {
            in_menu: None,
            in_color: None,
            ..ctl
        }),
{
}

/// On the brightness page, two presses open and close the brightness
/// sub-menu.
pub proof fn law_brightness_press_toggle(ctl: Controls)
    requires
        ctl.menu == AppMode::Brightness,
        ctl.in_menu is None,
    ensures
        spec_on_press(ctl).in_menu == Some(InMenu::Brightness),
        spec_on_press(spec_on_press(ctl)) == ctl,
{
}

/// The consistency of the menu: a colour channel is selected exactly when
/// the colour sub-menu is open, each sub-menu is open only on its own page,
/// and the mode sub-menu is never open.
pub open spec fn menu_wf(ctl: Controls) -> bool {
    &&& (ctl.in_color is Some <==> ctl.in_menu == Some(InMenu::Color))
    &&& ctl.in_menu == Some(InMenu::Color) ==> ctl.menu == AppMode::Color
    &&& ctl.in_menu == Some(InMenu::Brightness) ==> ctl.menu == AppMode::Brightness
    &&& ctl.in_menu != Some(InMenu::Mode)
}

/// The controls at power-on are consistent.
pub proof fn law_menu_wf_initial()
    ensures
        menu_wf(Controls { menu: AppMode::Main, in_menu: None, in_color: None, brightness: 0, pos: 0 }),
{
}

/// Every detent and every press keeps the menu consistent, and a detent
/// never changes the page while a sub-menu is open.
pub proof fn law_events_keep_menu_wf(ctl: Controls, turn: Turn)
    requires
        menu_wf(ctl),
    ensures
        menu_wf(spec_on_turn(ctl, turn)),
        menu_wf(spec_on_press(ctl)),
        ctl.in_menu is Some ==> spec_on_turn(ctl, turn).menu == ctl.menu,
{
}

} // verus!
