use vstd::prelude::*;

use crate::color::{dim, hsv_color, hsv_to_rgb, red, rgb_of, scaled, white, yellow, Rgb};
use crate::state::LedState;

verus! {

/// Number of pixels on the strip.
pub const LED_COUNT: usize = 5;

/// Hue distance between neighbouring pixels of the rainbow.
pub const HUE_SPACING: u8 = 32;

/// How far the rainbow's base hue and the breathing phase move each frame.
pub const FRAME_STEP: u8 = 4;

/// Brightness of the solid colours.
pub const SOLID_LEVEL: u8 = 50;

/// Saturation of the rainbow's pixels.
pub const RAINBOW_SAT: u8 = 255;

/// Value (brightness) of the rainbow's pixels.
pub const RAINBOW_VAL: u8 = 8;

/// Hue of pixel `i` of a rainbow whose first pixel has hue `start`.
pub open spec fn rainbow_hue(start: u8, i: int) -> u8 {
    ((start as int + HUE_SPACING as int * i) % 256) as u8
}

/// The solid colour that `state` shows, before dimming.
pub open spec fn base_color(state: LedState) -> Rgb {
    match state {
        LedState::Error => Rgb { r: 255, g: 0, b: 0 },
        LedState::Warning => Rgb { r: 255, g: 255, b: 0 },
        _ => Rgb { r: 255, g: 255, b: 255 },
    }
}

/// Pixel `i` of the frame for `state`, given the rainbow's base hue and the
/// breathing brightness.
pub open spec fn pixel(state: LedState, hue: u8, breathing_level: u8, i: int) -> Rgb {
    match state {
        LedState::Init => scaled(base_color(state), breathing_level),
        LedState::Party => rgb_of(hsv_to_rgb(rainbow_hue(hue, i), RAINBOW_SAT, RAINBOW_VAL)),
        _ => scaled(base_color(state), SOLID_LEVEL),
    }
}

/// The whole frame for `state`.
pub open spec fn frame(state: LedState, hue: u8, breathing_level: u8) -> Seq<Rgb> {
    Seq::new(LED_COUNT as nat, |i: int| pixel(state, hue, breathing_level, i))
}

/// The hues of a rainbow frame: `start`, then each `HUE_SPACING` further on,
/// modulo 256.
pub fn rainbow_hues(start: u8) -> (r: Vec<u8>)
    ensures
        r@.len() == LED_COUNT,
        forall|i: int| 0 <= i < LED_COUNT ==> r@[i] == rainbow_hue(start, i),
{
    let mut hues: Vec<u8> = Vec::new();
    let mut hue: u8 = start;
    let mut k: usize = 0;
    while k < LED_COUNT
        invariant
            k <= LED_COUNT,
            hues@.len() == k,
            hue == rainbow_hue(start, k as int),
            forall|i: int| 0 <= i < k ==> hues@[i] == rainbow_hue(start, i),
        decreases LED_COUNT - k,
    {
        hues.push(hue);
        hue = hue.wrapping_add(HUE_SPACING);
        k = k + 1;
    }
    hues
}

/// A rainbow frame whose first pixel has hue `starting_hue`, at full
/// saturation and low value.
pub fn rainbow_flow(starting_hue: u8) -> (r: Vec<Rgb>)
    ensures
        r@ == frame(LedState::Party, starting_hue, 0),
{
    let hues = rainbow_hues(starting_hue);
    let mut pixels: Vec<Rgb> = Vec::new();
    let mut k: usize = 0;
    while k < LED_COUNT
        invariant
            k <= LED_COUNT,
            hues@.len() == LED_COUNT,
            forall|i: int| 0 <= i < LED_COUNT ==> hues@[i] == rainbow_hue(starting_hue, i),
            pixels@.len() == k,
            forall|i: int|
                0 <= i < k ==> pixels@[i] == pixel(LedState::Party, starting_hue, 0, i),
        decreases LED_COUNT - k,
    {
        pixels.push(hsv_color(hues[k], RAINBOW_SAT, RAINBOW_VAL));
        k = k + 1;
    }
    assert(pixels@ =~= frame(LedState::Party, starting_hue, 0));
    pixels
}

/// A frame in which every pixel is `color` dimmed to `level`.
pub fn solid_color(color: Rgb, level: u8) -> (r: Vec<Rgb>)
    ensures
        r@.len() == LED_COUNT,
        forall|i: int| 0 <= i < LED_COUNT ==> r@[i] == scaled(color, level),
{
    let mut pixels: Vec<Rgb> = Vec::new();
    let mut k: usize = 0;
    while k < LED_COUNT
        invariant
            k <= LED_COUNT,
            pixels@.len() == k,
            forall|i: int| 0 <= i < k ==> pixels@[i] == color,
        decreases LED_COUNT - k,
    {
        pixels.push(color);
        k = k + 1;
    }
    dim(pixels, level)
}

/// The render loop's animation cursor: the rainbow's base hue and the
/// breathing phase, both 8-bit counters that wrap.
#[derive(Copy, Clone, Debug, PartialEq, Eq, Structural)]
pub struct Animation {
    pub hue: u8,
    pub phase: u8,
}

impl Animation {
    /// The cursor after one frame in `state`: `Init` moves the breathing
    /// phase and `Party` the base hue, each by `FRAME_STEP` modulo 256; the
    /// other states leave it as it is.
    pub open spec fn advanced(self, state: LedState) -> Animation {
        match state {
            LedState::Init => Animation {
                phase: ((self.phase as int + FRAME_STEP as int) % 256) as u8,
                ..self
            },
            LedState::Party => Animation {
                hue: ((self.hue as int + FRAME_STEP as int) % 256) as u8,
                ..self
            },
            _ => self,
        }
    }

    /// The cursor after `n` frames in `state`.
    pub open spec fn advanced_by(self, state: LedState, n: nat) -> Animation
        decreases n,
    {
        if n == 0 {
            self
        } else {
            self.advanced_by(state, (n - 1) as nat).advanced(state)
        }
    }

    /// The cursor at start-up: base hue 0, breathing phase 50.
    pub fn new() -> (r: Animation)
        ensures
            r.hue == 0,
            r.phase == 50,
    {
        Animation { hue: 0, phase: 50 }
    }

    /// Moves the cursor on by one frame in `state`.
    pub fn advance(&mut self, state: LedState)
        ensures
            *final(self) == old(self).advanced(state),
    {
        match state {
            LedState::Init => {
                self.phase = self.phase.wrapping_add(FRAME_STEP);
            },
            LedState::Party => {
                self.hue = self.hue.wrapping_add(FRAME_STEP);
            },
            _ => {},
        }
    }

    /// The frame for `state` at this cursor. `breathing_level` is the
    /// brightness of the breathing white, which `Init` shows; the other states
    /// ignore it.
    pub fn led_strip_colors(&self, state: LedState, breathing_level: u8) -> (r: Vec<Rgb>)
        ensures
            r@ == frame(state, self.hue, breathing_level),
    {
        let r = match state {
            LedState::Init => solid_color(white(), breathing_level),
            LedState::Party => rainbow_flow(self.hue),
            LedState::Clear => solid_color(white(), SOLID_LEVEL),
            LedState::Error => solid_color(red(), SOLID_LEVEL),
            LedState::Warning => solid_color(yellow(), SOLID_LEVEL),
        };
        assert(r@ =~= frame(state, self.hue, breathing_level));
        r
    }

    /// One render step: advances the cursor for `state` and returns the frame
    /// at the new cursor.
    pub fn next_frame(&mut self, state: LedState, breathing_level: u8) -> (r: Vec<Rgb>)
        ensures
            *final(self) == old(self).advanced(state),
            r@ == frame(state, final(self).hue, breathing_level),
    {
        self.advance(state);
        self.led_strip_colors(state, breathing_level)
    }
}

/// In `Clear`, `Error` and `Warning` every pixel of a frame is the same: the
/// state's colour at the solid brightness, whatever the cursor.
pub proof fn lemma_solid_frame(state: LedState, hue: u8, breathing_level: u8, i: int, j: int)
    requires
        state == LedState::Clear || state == LedState::Error || state == LedState::Warning,
        0 <= i < LED_COUNT,
        0 <= j < LED_COUNT,
    ensures
        frame(state, hue, breathing_level)[i] == frame(state, hue, breathing_level)[j],
        frame(state, hue, breathing_level)[i] == scaled(base_color(state), SOLID_LEVEL),
{
}

/// In `Party` the hues of neighbouring pixels differ by exactly 32 modulo 256,
/// each pixel shows its hue, and one frame moves the base hue on by exactly 4
/// modulo 256.
pub proof fn lemma_rainbow_steps(a: Animation, breathing_level: u8, i: int)
    requires
        0 <= i,
        i + 1 < LED_COUNT,
    ensures
        rainbow_hue(a.hue, i + 1) == (rainbow_hue(a.hue, i) as int + 32) % 256,
        frame(LedState::Party, a.hue, breathing_level)[i] == rgb_of(
            hsv_to_rgb(rainbow_hue(a.hue, i), RAINBOW_SAT, RAINBOW_VAL),
        ),
        a.advanced(LedState::Party).hue == (a.hue as int + 4) % 256,
        a.advanced(LedState::Party).phase == a.phase,
{
}

/// After `n` frames in `Init` the breathing phase has moved by `4 * n` modulo
/// 256, and the base hue has not moved.
pub proof fn lemma_breathing_phase(a: Animation, n: nat)
    ensures
        a.advanced_by(LedState::Init, n).phase == (a.phase as int + 4 * n) % 256,
        a.advanced_by(LedState::Init, n).hue == a.hue,
    decreases n,
{
    if n > 0 {
        lemma_breathing_phase(a, (n - 1) as nat);
    }
}

/// In `Init` the breathing phase is periodic: after 64 frames the cursor is
/// back where it started.
pub proof fn lemma_breathing_period(a: Animation)
    ensures
        a.advanced_by(LedState::Init, 64) == a,
{
    lemma_breathing_phase(a, 64);
}

} // verus!
