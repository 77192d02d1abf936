use rotary_led_menu::draw::{title, DrawCmd, Label};
use rotary_led_menu::menu::{AppMode, Controls, InColor, InMenu};
use rotary_led_menu::menu_display_fn::{bri_body, color_body, main_body, mode_body};
use rotary_led_menu::screen::{refresh, Screen};

fn text(label: Label, x: i32, y: i32) -> DrawCmd {
    DrawCmd::Text { label, x, y }
}

fn clear(x: i32, y: i32, w: u32, h: u32) -> DrawCmd {
    DrawCmd::Clear { x, y, w, h }
}

fn number(value: u8, x: i32, y: i32) -> DrawCmd {
    DrawCmd::Number { value, x, y }
}

#[test]
fn label_texts() {
    assert_eq!(Label::TitleMain.text(), "MAIN");
    assert_eq!(Label::Brightness.text(), "BRIGHTNESS : ");
    assert_eq!(Label::Red.text(), "RED        : ");
    assert_eq!(Label::HintColor.text(), "Click to adjust the color");
    assert_eq!(title(AppMode::Color).text(), "COLOR");
}

#[test]
fn main_body_draws_values() {
    let mut out = Vec::new();
    main_body(&mut out, 42, (1, 2, 3));
    assert_eq!(
        out,
        vec![
            text(Label::Brightness, 50, 180),
            number(42, 250, 180),
            text(Label::Color, 50, 230),
            text(Label::Rgb, 200, 230),
            DrawCmd::Triple { r: 1, g: 2, b: 3, x: 280, y: 230 },
            text(Label::Mode, 50, 280),
        ]
    );
}

#[test]
fn bri_body_hint_when_closed() {
    let mut out = Vec::new();
    let mut shown = Some(InMenu::Brightness);
    let mut flag = 7;
    bri_body(&mut out, &mut shown, &mut flag, None, 9);
    assert_eq!(out, vec![text(Label::HintBrightness, 50, 180)]);
    assert_eq!(shown, None);
    assert_eq!(flag, 7);
}

#[test]
fn bri_body_opens_then_updates() {
    let mut out = Vec::new();
    let mut shown = None;
    let mut flag = 9;
    bri_body(&mut out, &mut shown, &mut flag, Some(InMenu::Brightness), 9);
    assert_eq!(
        out,
        vec![
            clear(0, 140, 500, 180),
            text(Label::Value, 50, 180),
            clear(200, 150, 100, 40),
            number(9, 250, 180),
        ]
    );
    assert_eq!(shown, Some(InMenu::Brightness));
    out.clear();
    bri_body(&mut out, &mut shown, &mut flag, Some(InMenu::Brightness), 9);
    assert!(out.is_empty());
    bri_body(&mut out, &mut shown, &mut flag, Some(InMenu::Brightness), 10);
    assert_eq!(out, vec![clear(200, 150, 100, 40), number(10, 250, 180)]);
    assert_eq!(flag, 10);
}

#[test]
fn color_body_opens_with_all_values() {
    let mut out = Vec::new();
    let mut shown = None;
    let mut sel = None;
    let mut flag = (0, 0, 0);
    color_body(&mut out, &mut shown, &mut sel, &mut flag, Some(InMenu::Color), Some(InColor::Red), (10, 20, 30));
    assert_eq!(
        out,
        vec![
            clear(0, 140, 500, 180),
            text(Label::Red, 50, 180),
            text(Label::Green, 50, 230),
            text(Label::Blue, 50, 280),
            clear(200, 150, 100, 40),
            number(10, 250, 180),
            clear(200, 200, 100, 40),
            number(20, 250, 230),
            clear(200, 250, 100, 40),
            number(30, 250, 280),
        ]
    );
    assert_eq!(shown, Some(InMenu::Color));
    assert_eq!(sel, None);
    assert_eq!(flag, (0, 0, 0));
}

#[test]
fn color_body_underlines_and_redraws_selected_value() {
    let mut out = Vec::new();
    let mut shown = Some(InMenu::Color);
    let mut sel = None;
    let mut flag = (0, 0, 0);
    color_body(&mut out, &mut shown, &mut sel, &mut flag, Some(InMenu::Color), Some(InColor::Green), (10, 20, 30));
    assert_eq!(
        out,
        vec![
            clear(30, 185, 150, 20),
            clear(30, 235, 150, 20),
            clear(30, 285, 150, 20),
            text(Label::Underline, 50, 235),
            clear(200, 200, 100, 40),
            number(20, 250, 230),
        ]
    );
    assert_eq!(sel, Some(InColor::Green));
    assert_eq!(flag, (10, 20, 30));
    out.clear();
    color_body(&mut out, &mut shown, &mut sel, &mut flag, Some(InMenu::Color), Some(InColor::Green), (10, 20, 30));
    assert!(out.is_empty());
}

#[test]
fn color_body_hint_and_other_menu() {
    let mut out = Vec::new();
    let mut shown = Some(InMenu::Color);
    let mut sel = Some(InColor::Blue);
    let mut flag = (0, 0, 0);
    color_body(&mut out, &mut shown, &mut sel, &mut flag, None, None, (1, 1, 1));
    assert_eq!(out, vec![text(Label::HintColor, 50, 180)]);
    assert_eq!(shown, None);
    assert_eq!(sel, Some(InColor::Blue));
    out.clear();
    color_body(&mut out, &mut shown, &mut sel, &mut flag, Some(InMenu::Brightness), None, (1, 1, 1));
    assert!(out.is_empty());
}

#[test]
fn mode_body_opens_once() {
    let mut out = Vec::new();
    let mut shown = None;
    mode_body(&mut out, &mut shown, Some(InMenu::Mode));
    assert_eq!(out, vec![clear(0, 140, 500, 180), text(Label::Mode, 50, 180)]);
    assert_eq!(shown, Some(InMenu::Mode));
    out.clear();
    mode_body(&mut out, &mut shown, Some(InMenu::Mode));
    assert!(out.is_empty());
    mode_body(&mut out, &mut shown, None);
    assert_eq!(out, vec![text(Label::HintMode, 50, 180)]);
    assert_eq!(shown, None);
}

#[test]
fn refresh_main_page() {
    let mut out = Vec::new();
    let mut scr = Screen::new();
    let mut ctl = Controls::new();
    refresh(&mut out, &mut scr, &mut ctl, true);
    assert_eq!(
        out,
        vec![
            text(Label::Brightness, 50, 180),
            number(0, 250, 180),
            text(Label::Color, 50, 230),
            text(Label::Mode, 50, 280),
        ]
    );
}

#[test]
fn refresh_page_change_redraws_title() {
    let mut out = Vec::new();
    let mut scr = Screen::new();
    let mut ctl = Controls { menu: AppMode::Brightness, ..Controls::new() };
    refresh(&mut out, &mut scr, &mut ctl, true);
    assert_eq!(
        out,
        vec![
            clear(120, 80, 250, 40),
            text(Label::TitleBrightness, 150, 110),
            clear(0, 140, 500, 180),
            text(Label::HintBrightness, 50, 180),
        ]
    );
    assert_eq!(scr.menu_t, AppMode::Brightness);
}

#[test]
fn refresh_brightness_page_settles() {
    let mut out = Vec::new();
    let mut scr = Screen { menu_t: AppMode::Brightness, ..Screen::new() };
    let mut ctl = Controls { menu: AppMode::Brightness, in_menu: Some(InMenu::Brightness), brightness: 3, ..Controls::new() };
    refresh(&mut out, &mut scr, &mut ctl, true);
    assert_eq!(
        out,
        vec![
            clear(0, 140, 500, 180),
            clear(0, 140, 500, 180),
            text(Label::Value, 50, 180),
            clear(200, 150, 100, 40),
            number(3, 250, 180),
            clear(200, 150, 100, 40),
            number(3, 250, 180),
        ]
    );
    out.clear();
    refresh(&mut out, &mut scr, &mut ctl, true);
    assert!(out.is_empty());
}

#[test]
fn refresh_color_page_settles_after_two() {
    let mut out = Vec::new();
    let mut scr = Screen { menu_t: AppMode::Color, ..Screen::new() };
    let mut ctl = Controls { menu: AppMode::Color, in_menu: Some(InMenu::Color), in_color: Some(InColor::Red), ..Controls::new() };
    refresh(&mut out, &mut scr, &mut ctl, true);
    refresh(&mut out, &mut scr, &mut ctl, true);
    assert_eq!(scr.in_color_t, Some(InColor::Red));
    out.clear();
    refresh(&mut out, &mut scr, &mut ctl, true);
    assert!(out.is_empty());
}

#[test]
fn refresh_without_pause_resets_menu() {
    let mut out = Vec::new();
    let mut scr = Screen { menu_t: AppMode::Color, in_menu_t: Some(InMenu::Color), in_color_t: Some(InColor::Blue), flag_bri: 1 };
    let mut ctl = Controls { menu: AppMode::Color, in_menu: Some(InMenu::Color), in_color: Some(InColor::Blue), brightness: 5, pos: 2 };
    refresh(&mut out, &mut scr, &mut ctl, false);
    assert_eq!(ctl, Controls { menu: AppMode::Main, in_menu: None, in_color: None, brightness: 5, pos: 2 });
    assert_eq!(scr.in_menu_t, None);
    assert_eq!(scr.in_color_t, None);
    assert_eq!(scr.menu_t, AppMode::Color);
    assert_eq!(&out[out.len() - 4..], &[
        text(Label::Brightness, 50, 180),
        number(5, 250, 180),
        text(Label::Color, 50, 230),
        text(Label::Mode, 50, 280),
    ]);
}
