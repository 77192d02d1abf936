//! Colour arithmetic for the LED strip: 8-bit scaling, the triangle wave,
//! the colour wheel and the frame fillers.

use vstd::prelude::*;

verus! {

/// Number of pixels on the strip.
pub const LED_N: usize = 17;

/// One pixel of the strip: red, green and blue intensities.
#[derive(Clone, Copy, Debug, PartialEq, Eq, Structural)]
pub struct Rgb8 {
    pub r: u8,
    pub g: u8,
    pub b: u8,
}

impl Rgb8 {
    /// Builds a pixel from its three channels.
    pub fn new(r: u8, g: u8, b: u8) -> (c: Rgb8)
        ensures
            c == (Rgb8 { r, g, b }),
    {
        Rgb8 { r, g, b }
    }
}

/// `value * scale / 255`, rounded down.
pub open spec fn spec_scale8(value: int, scale: int) -> int {
    (value * scale) / 255
}

/// Each channel of `rgb` scaled by `scale`.
pub open spec fn spec_scale_rgb(rgb: (u8, u8, u8), scale: u8) -> Rgb8 {
    Rgb8 {
        r: spec_scale8(rgb.0 as int, scale as int) as u8,
        g: spec_scale8(rgb.1 as int, scale as int) as u8,
        b: spec_scale8(rgb.2 as int, scale as int) as u8,
    }
}

/// The symmetric triangle wave: rises by 2 per step up to 254 at 127 and 128,
/// then falls back to 0 at 255.
pub open spec fn spec_triangle(x: u8) -> int {
    if x < 128 {
        2 * x
    } else {
        2 * (255 - x)
    }
}

/// The colour wheel: red to green over 0..85, green to blue over 85..170,
/// blue back to red over 170..256.
pub open spec fn spec_wheel(pos: u8) -> Rgb8 {
    if pos < 85 {
        Rgb8 { r: (255 - 3 * pos) as u8, g: (3 * pos) as u8, b: 0 }
    } else if pos < 170 {
        Rgb8 { r: 0, g: (255 - 3 * (pos - 85)) as u8, b: (3 * (pos - 85)) as u8 }
    } else {
        Rgb8 { r: (3 * (pos - 170)) as u8, g: 0, b: (255 - 3 * (pos - 170)) as u8 }
    }
}

/// Phase of pixel `i` of the travelling wave at time `tick`.
pub open spec fn spec_wave_phase(tick: u8, i: int) -> u8 {
    ((tick + 5 * i) % 256) as u8
}

/// Brightness of pixel `i` of the travelling wave: a floor of 50 plus the
/// triangle wave scaled into 0..=205.
pub open spec fn spec_wave_amp(tick: u8, i: int) -> int {
    50 + spec_scale8(spec_triangle(spec_wave_phase(tick, i)), 205)
}

/// Pixel `i` of the travelling wave over the colour `base`.
pub open spec fn spec_wave_pixel(tick: u8, base: (u8, u8, u8), i: int) -> Rgb8 {
    spec_scale_rgb(base, spec_wave_amp(tick, i) as u8)
}

/// A frame whose every pixel is `c`.
pub open spec fn uniform(frame: Seq<Rgb8>, c: Rgb8) -> bool {
    &&& frame.len() == LED_N
    &&& forall|i: int| 0 <= i < LED_N ==> #[trigger] frame[i] == c
}

proof fn lemma_scale8_bounds(value: int, scale: int)
    requires
        0 <= value <= 255,
        0 <= scale <= 255,
    ensures
        0 <= value * scale <= 255 * 255,
        0 <= spec_scale8(value, scale) <= value,
        spec_scale8(value, scale) <= scale,
{
    assert(0 <= value * scale <= value * 255) by (nonlinear_arith)
        requires
            0 <= value <= 255,
            0 <= scale <= 255,
    ;
    assert(value * scale <= 255 * scale) by (nonlinear_arith)
        requires
            0 <= value <= 255,
            0 <= scale <= 255,
    ;
    assert((value * scale) / 255 <= value) by (nonlinear_arith)
        requires
            0 <= value * scale <= value * 255,
            0 <= value,
    ;
    assert((value * scale) / 255 <= scale) by (nonlinear_arith)
        requires
            0 <= value * scale <= 255 * scale,
            0 <= scale,
    ;
    assert(0 <= (value * scale) / 255) by (nonlinear_arith)
        requires
            0 <= value * scale,
    ;
}

/// Scales `value` by `scale / 255`, rounding down.
pub fn scale8(value: u8, scale: u8) -> (r: u8)
    ensures
        r == spec_scale8(value as int, scale as int),
{
    proof {
        lemma_scale8_bounds(value as int, scale as int);
    }
    let prod: u16 = value as u16 * scale as u16;
    (prod / 255) as u8
}

/// Scales each channel of `rgb` by `scale / 255`.
pub fn scale_rgb(rgb: (u8, u8, u8), scale: u8) -> (c: Rgb8)
    ensures
        c == spec_scale_rgb(rgb, scale),
{
    Rgb8::new(scale8(rgb.0, scale), scale8(rgb.1, scale), scale8(rgb.2, scale))
}

/// The triangle wave over one byte: `2 * min(x, 255 - x)`.
pub fn triangle_u8(x: u8) -> (r: u8)
    ensures
        r == spec_triangle(x),
{
    // Both branches double a value below 128, so the doubling never saturates.
    if x < 128 {
        2 * x
    } else {
        2 * (255 - x)
    }
}

/// Sets every pixel of `frame` to `rgb`.
pub fn fill_solid(frame: &mut [Rgb8; LED_N], rgb: (u8, u8, u8))
    ensures
        uniform(final(frame)@, Rgb8 { r: rgb.0, g: rgb.1, b: rgb.2 }),
{
    let c = Rgb8::new(rgb.0, rgb.1, rgb.2);
    let mut i: usize = 0;
    while i < LED_N
        invariant
            i <= LED_N,
            frame@.len() == LED_N,
            forall|j: int| 0 <= j < i ==> #[trigger] frame@[j] == c,
        decreases LED_N - i,
    {
        frame[i] = c;
        i = i + 1;
    }
}

/// Paints a wave that travels along the strip with `tick`: pixel `i` is `base`
/// scaled by `50 + scale8(triangle_u8(tick + 5 * i), 205)`.
pub fn fill_wave(frame: &mut [Rgb8; LED_N], tick: u8, base: (u8, u8, u8))
    ensures
        final(frame)@.len() == LED_N,
        forall|i: int| 0 <= i < LED_N ==> #[trigger] final(frame)@[i] == spec_wave_pixel(tick, base, i),
{
    let mut i: usize = 0;
    while i < LED_N
        invariant
            i <= LED_N,
            frame@.len() == LED_N,
            forall|j: int| 0 <= j < i ==> #[trigger] frame@[j] == spec_wave_pixel(tick, base, j),
        decreases LED_N - i,
    {
        let phase = tick.wrapping_add((i as u8).wrapping_mul(5));
        assert(phase == spec_wave_phase(tick, i as int)) by {
            assert((i as u8) as int == i as int);
        }
        let amp = triangle_u8(phase);
        let lift = scale8(amp, 205);
        proof {
            lemma_scale8_bounds(amp as int, 205);
        }
        let amp = 50u8.saturating_add(lift);
        assert(amp == spec_wave_amp(tick, i as int));
        frame[i] = Rgb8::new(scale8(base.0, amp), scale8(base.1, amp), scale8(base.2, amp));
        i = i + 1;
    }
}

/// Sets every pixel of `frame` to `base` scaled by `level`.
pub fn fill_dynamic(frame: &mut [Rgb8; LED_N], base: (u8, u8, u8), level: u8)
    ensures
        uniform(final(frame)@, spec_scale_rgb(base, level)),
{
    let px = Rgb8::new(scale8(base.0, level), scale8(base.1, level), scale8(base.2, level));
    let mut i: usize = 0;
    while i < LED_N
        invariant
            i <= LED_N,
            frame@.len() == LED_N,
            px == spec_scale_rgb(base, level),
            forall|j: int| 0 <= j < i ==> #[trigger] frame@[j] == px,
        decreases LED_N - i,
    {
        frame[i] = px;
        i = i + 1;
    }
}

/// One step of the breathing animation from `(level, up)`.
pub open spec fn spec_breath(level: u8, up: bool) -> (u8, bool) {
    if up {
        if level + 5 >= 240 {
            (240, false)
        } else {
            ((level + 5) as u8, true)
        }
    } else {
        if level - 5 <= 20 {
            (20, true)
        } else {
            ((level - 5) as u8, false)
        }
    }
}

/// One step of the breathing animation: while rising the level grows by 5
/// and turns to falling once it reaches 240; while falling it shrinks by 5
/// and turns to rising once it reaches 20.
pub fn update_breath(level: &mut u8, up: &mut bool)
    ensures
        (*final(level), *final(up)) == spec_breath(*old(level), *old(up)),
{
    if *up {
        *level = level.saturating_add(5);
        if *level >= 240 {
            *level = 240;
            *up = false;
        }
    } else {
        *level = level.saturating_sub(5);
        if *level <= 20 {
            *level = 20;
            *up = true;
        }
    }
}

/// The colour wheel: `pos` walks red -> green -> blue -> red.
pub fn wheel(pos: u8) -> (c: Rgb8)
    ensures
        c == spec_wheel(pos),
{
    if pos < 85 {
        Rgb8::new(255 - pos * 3, pos * 3, 0)
    } else if pos < 170 {
        let p = pos - 85;
        Rgb8::new(0, 255 - p * 3, p * 3)
    } else {
        let p = pos - 170;
        Rgb8::new(p * 3, 0, 255 - p * 3)
    }
}

/// Sets every pixel of `frame` to the wheel colour at `tick`.
pub fn fill_dynamic_color(frame: &mut [Rgb8; LED_N], tick: u8)
    ensures
        uniform(final(frame)@, spec_wheel(tick)),
{
    let color = wheel(tick);
    let mut i: usize = 0;
    while i < LED_N
        invariant
            i <= LED_N,
            frame@.len() == LED_N,
            color == spec_wheel(tick),
            forall|j: int| 0 <= j < i ==> #[trigger] frame@[j] == color,
        decreases LED_N - i,
    {
        frame[i] = color;
        i = i + 1;
    }
}

/// Scaling by full scale keeps a value and scaling by zero turns it off.
pub proof fn law_scale8_full_and_zero(value: u8)
    ensures
        spec_scale8(value as int, 255) == value,
        spec_scale8(value as int, 0) == 0,
{
    assert((value as int * 255) / 255 == value) by (nonlinear_arith);
}

/// Scaling never brightens: the result is at most the value and at most
/// the scale, and value and scale play the same role.
pub proof fn law_scale8_dims(value: u8, scale: u8)
    ensures
        spec_scale8(value as int, scale as int) <= value,
        spec_scale8(value as int, scale as int) <= scale,
        spec_scale8(value as int, scale as int) == spec_scale8(scale as int, value as int),
{
    lemma_scale8_bounds(value as int, scale as int);
    assert(value as int * scale as int == scale as int * value as int) by (nonlinear_arith);
}

/// A larger scale never gives a darker result.
pub proof fn law_scale8_monotonic(value: u8, s1: u8, s2: u8)
    requires
        s1 <= s2,
    ensures
        spec_scale8(value as int, s1 as int) <= spec_scale8(value as int, s2 as int),
{
    assert(value as int * s1 as int <= value as int * s2 as int) by (nonlinear_arith)
        requires
            s1 <= s2,
    ;
    vstd::arithmetic::div_mod::lemma_div_is_ordered(
        value as int * s1 as int,
        value as int * s2 as int,
        255,
    );
}

/// The triangle wave is symmetric about the middle of the byte range, even,
/// and peaks at 254.
pub proof fn law_triangle_shape(x: u8)
    ensures
        spec_triangle(x) == spec_triangle((255 - x) as u8),
        spec_triangle(x) % 2 == 0,
        0 <= spec_triangle(x) <= 254,
{
}

/// Every wheel colour has channels summing to 255 and at least one channel
/// off.
pub proof fn law_wheel_sum(pos: u8)
    ensures
        spec_wheel(pos).r + spec_wheel(pos).g + spec_wheel(pos).b == 255,
        spec_wheel(pos).r == 0 || spec_wheel(pos).g == 0 || spec_wheel(pos).b == 0,
{
}

/// The wave never goes fully dark: every pixel is lit at least at 50/255
/// and at most at full scale.
pub proof fn law_wave_floor(tick: u8, i: int)
    ensures
        50 <= spec_wave_amp(tick, i) <= 255,
{
    let t = spec_triangle(spec_wave_phase(tick, i));
    lemma_scale8_bounds(t, 205);
}

/// The wave travels along the strip: five ticks later, a pixel shows what
/// its right-hand neighbour shows now.
pub proof fn law_wave_travels(tick: u8, base: (u8, u8, u8), i: int)
    requires
        0 <= i,
    ensures
        spec_wave_pixel(((tick + 5) % 256) as u8, base, i) == spec_wave_pixel(tick, base, i + 1),
{
    assert(spec_wave_phase(((tick + 5) % 256) as u8, i) == spec_wave_phase(tick, i + 1)) by {
        vstd::arithmetic::div_mod::lemma_add_mod_noop(tick + 5, 5 * i, 256);
        vstd::arithmetic::div_mod::lemma_mod_twice(tick + 5, 256);
        vstd::arithmetic::div_mod::lemma_add_mod_noop(((tick + 5) % 256) as int, 5 * i, 256);
    }
}

/// Once the breathing level is within 20..=240 it stays there.
pub proof fn law_breath_bounded(level: u8, up: bool)
    requires
        20 <= level <= 240,
    ensures
        20 <= spec_breath(level, up).0 <= 240,
{
}

/// The breathing level moves by exactly 5 per step away from the turning
/// points: up while rising below 235, down while falling above 25.
pub proof fn law_breath_moves_by_five(level: u8, up: bool)
    ensures
        up && level < 235 ==> spec_breath(level, up) == ((level + 5) as u8, true),
        !up && level > 25 ==> spec_breath(level, up) == ((level - 5) as u8, false),
        up && level >= 235 ==> spec_breath(level, up) == (240u8, false),
        !up && level <= 25 ==> spec_breath(level, up) == (20u8, true),
{
}

/// `n` steps of the breathing animation.
pub open spec fn breath_iter(level: u8, up: bool, n: nat) -> (u8, bool)
    decreases n,
{
    if n == 0 {
        (level, up)
    } else {
        let (l, u) = spec_breath(level, up);
        breath_iter(l, u, (n - 1) as nat)
    }
}

proof fn lemma_breath_iter_add(level: u8, up: bool, a: nat, b: nat)
    ensures
        breath_iter(level, up, a + b) == ({
            let (l, u) = breath_iter(level, up, a);
            breath_iter(l, u, b)
        }),
    decreases a,
{
    if a > 0 {
        let (l, u) = spec_breath(level, up);
        lemma_breath_iter_add(l, u, (a - 1) as nat, b);
        assert((a + b - 1) as nat == ((a - 1) as nat + b));
    }
}

proof fn lemma_breath_rise(k: nat)
    requires
        k < 44,
    ensures
        breath_iter((20 + 5 * k) as u8, true, (44 - k) as nat) == (240u8, false),
    decreases 44 - k,
{
    let n = (44 - k) as nat;
    assert(((n - 1) as nat) == (44 - (k + 1)) as nat);
    if k < 43 {
        lemma_breath_rise(k + 1);
        assert(spec_breath((20 + 5 * k) as u8, true) == ((20 + 5 * (k + 1)) as u8, true));
        assert(breath_iter((20 + 5 * k) as u8, true, n) == breath_iter(
            (20 + 5 * (k + 1)) as u8,
            true,
            (n - 1) as nat,
        ));
    } else {
        reveal_with_fuel(breath_iter, 2);
    }
}

proof fn lemma_breath_fall(k: nat)
    requires
        k < 44,
    ensures
        breath_iter((240 - 5 * k) as u8, false, (44 - k) as nat) == (20u8, true),
    decreases 44 - k,
{
    let n = (44 - k) as nat;
    assert(((n - 1) as nat) == (44 - (k + 1)) as nat);
    if k < 43 {
        lemma_breath_fall(k + 1);
        assert(spec_breath((240 - 5 * k) as u8, false) == ((240 - 5 * (k + 1)) as u8, false));
        assert(breath_iter((240 - 5 * k) as u8, false, n) == breath_iter(
            (240 - 5 * (k + 1)) as u8,
            false,
            (n - 1) as nat,
        ));
    } else {
        reveal_with_fuel(breath_iter, 2);
    }
}

/// One breath: from the bottom the level rises to 240 in 44 steps, falls
/// back to 20 in 44 more, and the animation repeats every 88 steps.
pub proof fn law_breath_period()
    ensures
        breath_iter(20, true, 44) == (240u8, false),
        breath_iter(240, false, 44) == (20u8, true),
        breath_iter(20, true, 88) == (20u8, true),
{
    lemma_breath_rise(0);
    lemma_breath_fall(0);
    lemma_breath_iter_add(20, true, 44, 44);
}

/// The wave's brightness depends only on the phase and is symmetric in it:
/// phases `p` and `255 - p` are equally bright, the wave is at its floor 50
/// at phases 0 and 255, and peaks at 254 at phases 127 and 128.
pub proof fn law_wave_symmetric(t1: u8, i1: int, t2: u8, i2: int)
    ensures
        spec_wave_phase(t2, i2) == 255 - spec_wave_phase(t1, i1) ==> spec_wave_amp(t1, i1) == spec_wave_amp(t2, i2),
        spec_wave_phase(t2, i2) == spec_wave_phase(t1, i1) ==> spec_wave_amp(t1, i1) == spec_wave_amp(t2, i2),
        (spec_wave_phase(t1, i1) == 0 || spec_wave_phase(t1, i1) == 255) ==> spec_wave_amp(t1, i1) == 50,
        (spec_wave_phase(t1, i1) == 127 || spec_wave_phase(t1, i1) == 128) ==> spec_wave_amp(t1, i1) == 254,
{
    law_triangle_shape(spec_wave_phase(t1, i1));
    assert((254 * 205) / 255 == 204);
}

/// Along the rising half of the phase the wave never gets darker, and along
/// the falling half it never gets brighter.
pub proof fn law_wave_rises_then_falls(p: u8, q: u8)
    requires
        p <= q,
    ensures
        q <= 127 ==> spec_scale8(spec_triangle(p), 205) <= spec_scale8(spec_triangle(q), 205),
        128 <= p ==> spec_scale8(spec_triangle(q), 205) <= spec_scale8(spec_triangle(p), 205),
{
    if q <= 127 {
        law_scale8_monotonic(205, spec_triangle(p) as u8, spec_triangle(q) as u8);
        law_scale8_dims(205, spec_triangle(p) as u8);
        law_scale8_dims(205, spec_triangle(q) as u8);
    }
    if 128 <= p {
        law_scale8_monotonic(205, spec_triangle(q) as u8, spec_triangle(p) as u8);
        law_scale8_dims(205, spec_triangle(p) as u8);
        law_scale8_dims(205, spec_triangle(q) as u8);
    }
}

} // verus!
