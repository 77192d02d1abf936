//! Decoding of the quadrature rotary encoder and of its push button.

use vstd::prelude::*;
use crate::menu::Turn;

verus! {

/// Number of quadrature steps that make one detent.
pub const DETENT_STEPS: i8 = 3;

/// The decoder's memory between two samples of the pins.
#[derive(Clone, Copy, Debug, PartialEq, Eq, Structural)]
pub struct Encoder {
    /// Last two-bit pin state, `clk` in bit 1 and `dt` in bit 0.
    pub prev_state: u8,
    /// Quadrature steps counted since the last detent.
    pub acc: i8,
    /// A counter that follows the detents, saturating at 0 and 255.
    pub value: u8,
    /// Last sampled level of the button pin (high when released).
    pub prev_sw: bool,
    /// Set after a press until the button is released again.
    pub btn_block: bool,
}

impl Encoder {
    /// The step counter stays strictly between the two detent thresholds.
    pub open spec fn wf(self) -> bool {
        -DETENT_STEPS < self.acc < DETENT_STEPS
    }

    /// The decoder right after the pins were first sampled.
    pub fn new(clk: bool, dt: bool, sw: bool) -> (e: Encoder)
        ensures
            e == (Encoder {
                prev_state: spec_pin_state(clk, dt),
                acc: 0,
                value: 128,
                prev_sw: sw,
                btn_block: false,
            }),
            e.wf(),
            button_wf(e),
    {
        Encoder { prev_state: pin_state(clk, dt), acc: 0, value: 128, prev_sw: sw, btn_block: false }
    }
}

pub open spec fn spec_pin_state(clk: bool, dt: bool) -> u8 {
    ((if clk { 2int } else { 0int }) + (if dt { 1int } else { 0int })) as u8
}

/// Packs the two encoder pins into one two-bit state: `clk` in bit 1, `dt`
/// in bit 0.
pub fn pin_state(clk: bool, dt: bool) -> (s: u8)
    ensures
        s == spec_pin_state(clk, dt),
        s < 4,
{
    let c = clk as u8;
    let d = dt as u8;
    assert(c == 0 || c == 1);
    assert(d == 0 || d == 1);
    let s = (c << 1) | d;
    assert(s == 2 * c + d) by (bit_vector)
        requires
            c == 0 || c == 1,
            d == 0 || d == 1,
            s == (c << 1) | d,
    ;
    s
}

/// The clockwise successor in the Gray sequence 00 -> 01 -> 11 -> 10 -> 00.
pub open spec fn cw_next(s: u8) -> u8 {
    if s == 0 {
        1
    } else if s == 1 {
        3
    } else if s == 3 {
        2
    } else {
        0
    }
}

/// The step that a transition of the pins counts: +1 for a clockwise
/// neighbour, -1 for a counter-clockwise one, 0 for no move or an invalid
/// jump (bounce).
pub open spec fn spec_step(prev: u8, state: u8) -> int {
    if prev < 4 && state == cw_next(prev) {
        1
    } else if state < 4 && prev == cw_next(state) {
        -1
    } else {
        0
    }
}

/// The quadrature step of one transition of the pins.
pub fn quadrature_step(prev: u8, state: u8) -> (d: i8)
    ensures
        d == spec_step(prev, state),
{
    match (prev, state) {
        (0b00, 0b01) | (0b01, 0b11) | (0b11, 0b10) | (0b10, 0b00) => 1,
        (0b00, 0b10) | (0b10, 0b11) | (0b11, 0b01) | (0b01, 0b00) => -1,
        _ => 0,
    }
}

/// What one sample of the pins does to the decoder, and the detent it makes.
pub open spec fn spec_decode(enc: Encoder, state: u8) -> (Encoder, Option<Turn>) {
    let acc = enc.acc + spec_step(enc.prev_state, state);
    if acc >= DETENT_STEPS {
        (
            Encoder {
                prev_state: state,
                acc: 0,
                value: if enc.value == 255 { 255 } else { (enc.value + 1) as u8 },
                ..enc
            },
            Some(Turn::Cw),
        )
    } else if acc <= -DETENT_STEPS {
        (
            Encoder {
                prev_state: state,
                acc: 0,
                value: if enc.value == 0 { 0 } else { (enc.value - 1) as u8 },
                ..enc
            },
            Some(Turn::Ccw),
        )
    } else {
        (Encoder { prev_state: state, acc: acc as i8, ..enc }, None)
    }
}

/// Feeds one sample of the encoder pins to the decoder. Every third
/// quadrature step in one direction makes a detent, which resets the step
/// count, moves `value` by one (saturating) and is returned.
pub fn decode_turn(enc: &mut Encoder, clk: bool, dt: bool) -> (turn: Option<Turn>)
    requires
        old(enc).wf(),
    ensures
        final(enc).wf(),
        (*final(enc), turn) == spec_decode(*old(enc), spec_pin_state(clk, dt)),
{
    let state = pin_state(clk, dt);
    let d = quadrature_step(enc.prev_state, state);
    enc.acc = enc.acc + d;
    enc.prev_state = state;
    if enc.acc >= DETENT_STEPS {
        enc.acc = 0;
        enc.value = enc.value.saturating_add(1);
        Some(Turn::Cw)
    } else if enc.acc <= -DETENT_STEPS {
        enc.acc = 0;
        enc.value = enc.value.saturating_sub(1);
        Some(Turn::Ccw)
    } else {
        None
    }
}

/// What one sample of the button pin does to the decoder, and whether it is
/// a press.
pub open spec fn spec_button(enc: Encoder, sw: bool) -> (Encoder, bool) {
    let pressed = enc.prev_sw && !sw && !enc.btn_block;
    let block = if pressed {
        true
    } else if !enc.prev_sw && sw {
        false
    } else {
        enc.btn_block
    };
    (Encoder { prev_sw: sw, btn_block: block, ..enc }, pressed)
}

/// Feeds one sample of the button pin (pulled up: high when released) to
/// the decoder. A press is a falling edge while not blocked; it blocks
/// further presses until a rising edge.
pub fn button_edge(enc: &mut Encoder, sw: bool) -> (pressed: bool)
    ensures
        (*final(enc), pressed) == spec_button(*old(enc), sw),
        final(enc).acc == old(enc).acc,
        button_wf(*old(enc)) ==> button_wf(*final(enc)),
{
    let mut pressed = false;
    if enc.prev_sw && !sw && !enc.btn_block {
        enc.btn_block = true;
        pressed = true;
    }
    if !enc.prev_sw && sw {
        enc.btn_block = false;
    }
    enc.prev_sw = sw;
    pressed
}

/// Reversing a transition reverses its step.
pub proof fn law_step_antisymmetric(a: u8, b: u8)
    requires
        a < 4,
        b < 4,
    ensures
        spec_step(a, b) == -spec_step(b, a),
{
}

/// From a fresh count, three clockwise transitions make exactly one
/// clockwise detent, on the third.
pub proof fn law_three_steps_cw(enc: Encoder)
    requires
        enc.acc == 0,
        enc.prev_state < 4,
    ensures
        ({
            let s1 = cw_next(enc.prev_state);
            let s2 = cw_next(s1);
            let s3 = cw_next(s2);
            let (e1, t1) = spec_decode(enc, s1);
            let (e2, t2) = spec_decode(e1, s2);
            let (e3, t3) = spec_decode(e2, s3);
            &&& t1 is None && t2 is None
            &&& t3 == Some(Turn::Cw)
            &&& e3.acc == 0 && e3.prev_state == s3
        }),
{
}

/// From a fresh count, three counter-clockwise transitions make exactly one
/// counter-clockwise detent, on the third.
pub proof fn law_three_steps_ccw(enc: Encoder, s1: u8, s2: u8, s3: u8)
    requires
        enc.acc == 0,
        enc.prev_state < 4,
        s1 < 4 && s2 < 4 && s3 < 4,
        cw_next(s1) == enc.prev_state,
        cw_next(s2) == s1,
        cw_next(s3) == s2,
    ensures
        ({
            let (e1, t1) = spec_decode(enc, s1);
            let (e2, t2) = spec_decode(e1, s2);
            let (e3, t3) = spec_decode(e2, s3);
            &&& t1 is None && t2 is None
            &&& t3 == Some(Turn::Ccw)
            &&& e3.acc == 0 && e3.prev_state == s3
        }),
{
}

/// A sample equal to the last one, or a jump over a state, counts nothing.
pub proof fn law_bounce_ignored(enc: Encoder, state: u8)
    requires
        enc.wf(),
        state == enc.prev_state || (enc.prev_state < 4 && state < 4 && state != cw_next(enc.prev_state)
            && enc.prev_state != cw_next(state)),
    ensures
        spec_decode(enc, state) == ((Encoder { prev_state: state, ..enc }, None::<Turn>)),
{
}

/// One press per push: after a press, no further press is reported until a
/// sample with the button released.
pub proof fn law_one_press_per_push(enc: Encoder)
    ensures
        ({
            let (e1, p1) = spec_button(enc, false);
            p1 ==> !spec_button(e1, false).1
        }),
        enc.btn_block && !enc.prev_sw ==> !spec_button(enc, false).1,
{
}

/// The decoder state after feeding `samples` of the button pin in order,
/// and the number of presses reported on the way.
pub open spec fn button_run(enc: Encoder, samples: Seq<bool>) -> (Encoder, nat)
    decreases samples.len(),
{
    if samples.len() == 0 {
        (enc, 0)
    } else {
        let (e1, pressed) = spec_button(enc, samples[0]);
        let (e2, n) = button_run(e1, samples.drop_first());
        (e2, n + if pressed { 1nat } else { 0nat })
    }
}

/// The number of falling edges (high then low) in `samples`, the level
/// before the first sample being `prev`.
pub open spec fn falling_edges(prev: bool, samples: Seq<bool>) -> nat
    decreases samples.len(),
{
    if samples.len() == 0 {
        0
    } else {
        falling_edges(samples[0], samples.drop_first()) + if prev && !samples[0] { 1nat } else { 0nat }
    }
}

/// The button half of the decoder is consistent: a blocked button was last
/// seen pressed (low).
pub open spec fn button_wf(enc: Encoder) -> bool {
    enc.btn_block ==> !enc.prev_sw
}

/// One press per push over any run of samples: starting from a consistent
/// decoder (as `Encoder::new` makes one), the presses reported are exactly
/// the falling edges of the button pin, none repeated while it is held.
pub proof fn law_presses_are_falling_edges(enc: Encoder, samples: Seq<bool>)
    requires
        button_wf(enc),
    ensures
        button_run(enc, samples).1 == falling_edges(enc.prev_sw, samples),
        button_wf(button_run(enc, samples).0),
    decreases samples.len(),
{
    if samples.len() > 0 {
        let (e1, pressed) = spec_button(enc, samples[0]);
        assert(pressed == (enc.prev_sw && !samples[0]));
        assert(button_wf(e1));
        law_presses_are_falling_edges(e1, samples.drop_first());
    }
}

/// A freshly made decoder is consistent.
pub proof fn law_new_button_wf(clk: bool, dt: bool, sw: bool)
    ensures
        button_wf(Encoder {
            prev_state: spec_pin_state(clk, dt),
            acc: 0,
            value: 128,
            prev_sw: sw,
            btn_block: false,
        }),
{
}

/// The quadrature table: each of the four clockwise neighbours counts +1,
/// each counter-clockwise neighbour -1, and staying put or jumping over a
/// state counts nothing.
pub proof fn law_step_table()
    ensures
        spec_step(0, 1) == 1 && spec_step(1, 3) == 1 && spec_step(3, 2) == 1 && spec_step(2, 0) == 1,
        spec_step(0, 2) == -1 && spec_step(2, 3) == -1 && spec_step(3, 1) == -1 && spec_step(1, 0) == -1,
        forall|a: u8| a < 4 ==> #[trigger] spec_step(a, a) == 0,
        spec_step(0, 3) == 0 && spec_step(3, 0) == 0 && spec_step(1, 2) == 0 && spec_step(2, 1) == 0,
{
}

/// Between detents every sample changes the step count by exactly its
/// quadrature step, and a detent fires exactly when the count reaches +3
/// (clockwise) or -3 (counter-clockwise), after which it restarts from 0 and
/// `value` moves by one (saturating).
pub proof fn law_decode_counts_steps(enc: Encoder, state: u8)
    requires
        enc.wf(),
    ensures
        ({
            let (e, t) = spec_decode(enc, state);
            let n = enc.acc + spec_step(enc.prev_state, state);
            &&& e.prev_state == state
            &&& e.prev_sw == enc.prev_sw && e.btn_block == enc.btn_block
            &&& (-3 < n < 3 ==> t is None && e.acc == n && e.value == enc.value)
            &&& (n >= 3 ==> t == Some(Turn::Cw) && e.acc == 0
                && e.value == if enc.value < 255 { enc.value + 1 } else { 255 })
            &&& (n <= -3 ==> t == Some(Turn::Ccw) && e.acc == 0
                && e.value == if enc.value > 0 { enc.value - 1 } else { 0 })
        }),
{
}

/// A quadrature step followed by its reverse restores the step count and
/// reports no detent, however the knob jiggles.
pub proof fn law_step_and_back(enc: Encoder, s: u8)
    requires
        enc.wf(),
        enc.prev_state < 4,
        s < 4,
        -3 < enc.acc + spec_step(enc.prev_state, s) < 3,
    ensures
        ({
            let (e1, t1) = spec_decode(enc, s);
            let (e2, t2) = spec_decode(e1, enc.prev_state);
            &&& t1 is None && t2 is None
            &&& e2.acc == enc.acc && e2.value == enc.value && e2.prev_state == enc.prev_state
        }),
{
    law_step_antisymmetric(enc.prev_state, s);
}

} // verus!
