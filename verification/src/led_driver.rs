//! The LED driver's reaction to change notifications: a brightness change
//! shifts all three channels of the strip colour by the same amount.

use vstd::prelude::*;
use crate::led_scal_fn::{self, fill_solid, Rgb8, LED_N};
use crate::menu::ChangeLed;

verus! {

/// Colour currently on the strip and the brightness it was last set for.
#[derive(Clone, Copy, Debug, PartialEq, Eq, Structural)]
pub struct LedState {
    pub r: u8,
    pub g: u8,
    pub b: u8,
    pub flag_bri: u8,
}

impl LedState {
    /// The strip is dark and tracks the brightness `bri` read at start.
    pub fn new(bri: u8) -> (s: LedState)
        ensures
            s == (LedState { r: 0, g: 0, b: 0, flag_bri: bri }),
    {
        LedState { r: 0, g: 0, b: 0, flag_bri: bri }
    }
}

/// `c` moved by `delta`, clamped to `0..=255`.
pub open spec fn shift(c: u8, delta: int) -> u8 {
    if c + delta > 255 {
        255
    } else if c + delta < 0 {
        0
    } else {
        (c + delta) as u8
    }
}

/// The state after a brightness change to `curr`: every channel moves by
/// `curr - flag_bri`, clamped, and `curr` becomes the tracked brightness.
pub open spec fn spec_brightness_change(st: LedState, curr: u8) -> LedState {
    let delta = curr - st.flag_bri;
    LedState {
        r: shift(st.r, delta),
        g: shift(st.g, delta),
        b: shift(st.b, delta),
        flag_bri: curr,
    }
}

/// Handles one notification. On a brightness change, `curr` is the new
/// brightness: the colour moves by the change (saturating) and the frame to
/// send, every pixel in the new colour, is returned. Colour and mode changes
/// are ignored.
pub fn led_step(st: &mut LedState, sig: ChangeLed, curr: u8) -> (frame: Option<[Rgb8; LED_N]>)
    ensures
        sig == ChangeLed::Brightness ==> {
            let s = spec_brightness_change(*old(st), curr);
            &&& *final(st) == s
            &&& frame is Some
            &&& led_scal_fn::uniform(frame->0@, Rgb8 { r: s.r, g: s.g, b: s.b })
        },
        sig != ChangeLed::Brightness ==> *final(st) == *old(st) && frame is None,
{
    match sig {
        ChangeLed::Brightness => {
            if curr > st.flag_bri {
                let diff = curr - st.flag_bri;
                st.r = st.r.saturating_add(diff);
                st.g = st.g.saturating_add(diff);
                st.b = st.b.saturating_add(diff);
            } else if curr < st.flag_bri {
                let diff = st.flag_bri - curr;
                st.r = st.r.saturating_sub(diff);
                st.g = st.g.saturating_sub(diff);
                st.b = st.b.saturating_sub(diff);
            }
            st.flag_bri = curr;
            let mut frame = [Rgb8::new(0, 0, 0); LED_N];
            fill_solid(&mut frame, (st.r, st.g, st.b));
            Some(frame)
        },
        ChangeLed::Color => None,
        ChangeLed::Mode => None,
    }
}

/// A brightness change and its reverse restore the strip colour when no
/// channel was clipped on the way.
pub proof fn law_change_and_back(st: LedState, curr: u8)
    requires
        0 <= st.r + (curr - st.flag_bri) <= 255,
        0 <= st.g + (curr - st.flag_bri) <= 255,
        0 <= st.b + (curr - st.flag_bri) <= 255,
    ensures
        spec_brightness_change(spec_brightness_change(st, curr), st.flag_bri) == st,
{
}

/// Every channel moves the same way as the brightness.
pub proof fn law_channels_follow(st: LedState, curr: u8)
    ensures
        curr >= st.flag_bri ==> {
            let s = spec_brightness_change(st, curr);
            s.r >= st.r && s.g >= st.g && s.b >= st.b
        },
        curr <= st.flag_bri ==> {
            let s = spec_brightness_change(st, curr);
            s.r <= st.r && s.g <= st.g && s.b <= st.b
        },
{
}

/// The strip shows a shade of grey: all three channels are equal.
pub open spec fn grey(st: LedState) -> bool {
    st.r == st.g && st.g == st.b
}

/// The state after one notification.
pub open spec fn spec_led_msg(st: LedState, sig: ChangeLed, curr: u8) -> LedState {
    if sig == ChangeLed::Brightness {
        spec_brightness_change(st, curr)
    } else {
        st
    }
}

/// The state after the notifications `msgs` (signal and brightness read
/// with it), in order.
pub open spec fn led_run(st: LedState, msgs: Seq<(ChangeLed, u8)>) -> LedState
    decreases msgs.len(),
{
    if msgs.len() == 0 {
        st
    } else {
        led_run(spec_led_msg(st, msgs[0].0, msgs[0].1), msgs.drop_first())
    }
}

/// From a grey colour, every sequence of notifications keeps the colour
/// grey, so every frame the driver returns has all pixels equal and grey.
pub proof fn law_frames_stay_grey(st: LedState, msgs: Seq<(ChangeLed, u8)>)
    requires
        grey(st),
    ensures
        grey(led_run(st, msgs)),
    decreases msgs.len(),
{
    if msgs.len() > 0 {
        law_frames_stay_grey(spec_led_msg(st, msgs[0].0, msgs[0].1), msgs.drop_first());
    }
}

/// When the colour equals the tracked brightness in every channel (as from
/// `LedState::new(0)`), it keeps doing so: after any notifications each
/// channel equals the last brightness the driver was told.
pub proof fn law_colour_tracks_brightness(st: LedState, msgs: Seq<(ChangeLed, u8)>)
    requires
        st.r == st.flag_bri && st.g == st.flag_bri && st.b == st.flag_bri,
    ensures
        ({
            let s = led_run(st, msgs);
            s.r == s.flag_bri && s.g == s.flag_bri && s.b == s.flag_bri
        }),
    decreases msgs.len(),
{
    if msgs.len() > 0 {
        law_colour_tracks_brightness(spec_led_msg(st, msgs[0].0, msgs[0].1), msgs.drop_first());
    }
}

} // verus!
