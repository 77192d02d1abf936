use rotary_led_menu::led_driver::{led_step, LedState};
use rotary_led_menu::led_scal_fn::{
    fill_dynamic, fill_dynamic_color, fill_solid, fill_wave, scale8, scale_rgb, triangle_u8,
    update_breath, wheel, Rgb8, LED_N,
};
use rotary_led_menu::menu::ChangeLed;

fn px(r: u8, g: u8, b: u8) -> Rgb8 {
    Rgb8 { r, g, b }
}

#[test]
fn scale8_exact_values() {
    assert_eq!(scale8(255, 255), 255);
    assert_eq!(scale8(128, 128), 64);
    assert_eq!(scale8(200, 100), 78);
    assert_eq!(scale8(100, 0), 0);
    assert_eq!(scale8(0, 200), 0);
    assert_eq!(scale8(1, 254), 0);
}

#[test]
fn scale8_full_scale_keeps_every_value() {
    for v in 0..=255u8 {
        assert_eq!(scale8(v, 255), v);
        assert_eq!(scale8(v, 0), 0);
    }
}

#[test]
fn scale8_never_brightens_and_is_symmetric() {
    for v in (0..=255u8).step_by(7) {
        for s in (0..=255u8).step_by(11) {
            let r = scale8(v, s);
            assert!(r <= v && r <= s);
            assert_eq!(r, scale8(s, v));
            if s < 255 {
                assert!(scale8(v, s) <= scale8(v, s + 1));
            }
        }
    }
}

#[test]
fn scale_rgb_scales_each_channel() {
    assert_eq!(scale_rgb((255, 128, 10), 128), px(128, 64, 5));
    assert_eq!(scale_rgb((1, 2, 3), 255), px(1, 2, 3));
}

#[test]
fn triangle_exact_values() {
    assert_eq!(triangle_u8(0), 0);
    assert_eq!(triangle_u8(64), 128);
    assert_eq!(triangle_u8(127), 254);
    assert_eq!(triangle_u8(128), 254);
    assert_eq!(triangle_u8(200), 110);
    assert_eq!(triangle_u8(255), 0);
}

#[test]
fn triangle_is_symmetric() {
    for x in 0..=255u8 {
        assert_eq!(triangle_u8(x), triangle_u8(255 - x));
        assert_eq!(triangle_u8(x) % 2, 0);
    }
}

#[test]
fn wheel_exact_values() {
    assert_eq!(wheel(0), px(255, 0, 0));
    assert_eq!(wheel(42), px(129, 126, 0));
    assert_eq!(wheel(85), px(0, 255, 0));
    assert_eq!(wheel(100), px(0, 210, 45));
    assert_eq!(wheel(170), px(0, 0, 255));
    assert_eq!(wheel(200), px(90, 0, 165));
    assert_eq!(wheel(255), px(255, 0, 0));
}

#[test]
fn wheel_channels_sum_to_full() {
    for p in 0..=255u8 {
        let c = wheel(p);
        assert_eq!(c.r as u32 + c.g as u32 + c.b as u32, 255);
        assert!(c.r == 0 || c.g == 0 || c.b == 0);
    }
}

#[test]
fn fill_solid_sets_every_pixel() {
    let mut frame = [px(9, 9, 9); LED_N];
    fill_solid(&mut frame, (1, 2, 3));
    assert!(frame.iter().all(|c| *c == px(1, 2, 3)));
}

#[test]
fn fill_wave_exact_pixels() {
    let mut frame = [px(0, 0, 0); LED_N];
    fill_wave(&mut frame, 0, (255, 255, 255));
    assert_eq!(frame[0], px(50, 50, 50));
    assert_eq!(frame[1], px(58, 58, 58));
    let mut frame = [px(0, 0, 0); LED_N];
    fill_wave(&mut frame, 127, (200, 100, 0));
    // phase 127: triangle 254, lift 204, amp 254
    assert_eq!(frame[0], px(199, 99, 0));
}

#[test]
fn fill_wave_never_dark() {
    for tick in 0..=255u8 {
        let mut frame = [px(0, 0, 0); LED_N];
        fill_wave(&mut frame, tick, (255, 255, 255));
        assert!(frame.iter().all(|c| c.r >= 50));
    }
}

#[test]
fn fill_wave_travels_one_pixel_per_five_ticks() {
    for tick in (0..=255u8).step_by(3) {
        let mut now = [px(0, 0, 0); LED_N];
        let mut later = [px(0, 0, 0); LED_N];
        fill_wave(&mut now, tick, (10, 150, 250));
        fill_wave(&mut later, tick.wrapping_add(5), (10, 150, 250));
        for i in 0..LED_N - 1 {
            assert_eq!(later[i], now[i + 1]);
        }
    }
}

#[test]
fn fill_dynamic_scales_base() {
    let mut frame = [px(0, 0, 0); LED_N];
    fill_dynamic(&mut frame, (200, 100, 50), 128);
    assert!(frame.iter().all(|c| *c == px(100, 50, 25)));
}

#[test]
fn fill_dynamic_color_uses_wheel() {
    let mut frame = [px(0, 0, 0); LED_N];
    fill_dynamic_color(&mut frame, 85);
    assert!(frame.iter().all(|c| *c == px(0, 255, 0)));
}

#[test]
fn update_breath_steps_and_turns() {
    let cases = [
        ((100u8, true), (105u8, true)),
        ((236, true), (240, false)),
        ((253, true), (240, false)),
        ((25, false), (20, true)),
        ((3, false), (20, true)),
        ((100, false), (95, false)),
    ];
    for ((l, u), (l2, u2)) in cases {
        let mut level = l;
        let mut up = u;
        update_breath(&mut level, &mut up);
        assert_eq!((level, up), (l2, u2));
    }
}

#[test]
fn update_breath_stays_in_range() {
    let mut level = 20u8;
    let mut up = true;
    for _ in 0..500 {
        update_breath(&mut level, &mut up);
        assert!((20..=240).contains(&level));
    }
}

#[test]
fn led_step_follows_brightness() {
    let mut st = LedState::new(0);
    let frame = led_step(&mut st, ChangeLed::Brightness, 10).unwrap();
    assert!(frame.iter().all(|c| *c == px(10, 10, 10)));
    assert_eq!(st.flag_bri, 10);
    let frame = led_step(&mut st, ChangeLed::Brightness, 4).unwrap();
    assert!(frame.iter().all(|c| *c == px(4, 4, 4)));
    assert_eq!(led_step(&mut st, ChangeLed::Color, 200), None);
    assert_eq!(led_step(&mut st, ChangeLed::Mode, 200), None);
    assert_eq!(st, LedState { r: 4, g: 4, b: 4, flag_bri: 4 });
}

#[test]
fn led_step_saturates() {
    let mut st = LedState { r: 250, g: 3, b: 100, flag_bri: 50 };
    led_step(&mut st, ChangeLed::Brightness, 60);
    assert_eq!(st, LedState { r: 255, g: 13, b: 110, flag_bri: 60 });
    led_step(&mut st, ChangeLed::Brightness, 40);
    assert_eq!(st, LedState { r: 235, g: 0, b: 90, flag_bri: 40 });
}

#[test]
fn led_step_round_trip_without_clipping() {
    let start = LedState { r: 20, g: 30, b: 40, flag_bri: 100 };
    let mut st = start;
    led_step(&mut st, ChangeLed::Brightness, 110);
    led_step(&mut st, ChangeLed::Brightness, 100);
    assert_eq!(st, start);
}

#[test]
fn led_frames_are_grey_and_follow_brightness() {
    let mut st = LedState::new(0);
    let msgs = [
        (ChangeLed::Brightness, 30u8),
        (ChangeLed::Color, 200),
        (ChangeLed::Brightness, 255),
        (ChangeLed::Brightness, 7),
        (ChangeLed::Mode, 1),
        (ChangeLed::Brightness, 0),
        (ChangeLed::Brightness, 128),
    ];
    for (sig, v) in msgs {
        if let Some(frame) = led_step(&mut st, sig, v) {
            assert!(frame.iter().all(|c| *c == px(v, v, v)));
        }
    }
}

#[test]
fn led_frames_stay_grey_from_any_start_brightness() {
    let mut st = LedState::new(200);
    for v in [250u8, 0, 90, 255, 3, 200] {
        let frame = led_step(&mut st, ChangeLed::Brightness, v).unwrap();
        let c = frame[0];
        assert!(c.r == c.g && c.g == c.b);
        assert!(frame.iter().all(|p| *p == c));
    }
}
