use vstd::prelude::*;

verus! {

/// One pixel: 8-bit red, green and blue channels.
#[derive(Copy, Clone, Debug, PartialEq, Eq, Structural)]
pub struct Rgb {
    pub r: u8,
    pub g: u8,
    pub b: u8,
}

/// The RGB triple that smart-leds' integer HSV conversion gives for a hue,
/// saturation and value.
pub uninterp spec fn hsv_to_rgb(hue: u8, sat: u8, val: u8) -> (u8, u8, u8);

/// A pixel from its channel triple.
pub open spec fn rgb_of(t: (u8, u8, u8)) -> Rgb {
    Rgb { r: t.0, g: t.1, b: t.2 }
}

/// One channel dimmed to `level`: `c * (level + 1) / 256`, rounded down.
pub open spec fn scale_channel(c: u8, level: u8) -> u8 {
    (c as int * (level as int + 1) / 256) as u8
}

/// A pixel with each channel dimmed to `level`.
pub open spec fn scaled(c: Rgb, level: u8) -> Rgb {
    Rgb {
        r: scale_channel(c.r, level),
        g: scale_channel(c.g, level),
        b: scale_channel(c.b, level),
    }
}

/// Relies on smart_leds::hsv::hsv2rgb: the colour depends on hue, saturation
/// and value alone.
#[verifier::external_body]
pub(crate) fn hsv_color(hue: u8, sat: u8, val: u8) -> (r: Rgb)
    ensures
        r == rgb_of(hsv_to_rgb(hue, sat, val)),
{
    let c = smart_leds::hsv::hsv2rgb(smart_leds::hsv::Hsv { hue, sat, val });
    Rgb { r: c.r, g: c.g, b: c.b }
}

/// Relies on smart_leds::brightness: it yields one pixel per input pixel, in
/// order, each channel `c` becoming `c * (level + 1) / 256`.
#[verifier::external_body]
pub(crate) fn dim(colors: Vec<Rgb>, level: u8) -> (r: Vec<Rgb>)
    ensures
        r@.len() == colors@.len(),
        forall|i: int| 0 <= i < r@.len() ==> r@[i] == scaled(colors@[i], level),
{
    let input = colors.into_iter().map(|c| smart_leds::RGB8 { r: c.r, g: c.g, b: c.b });
    smart_leds::brightness(input, level).map(|c| Rgb { r: c.r, g: c.g, b: c.b }).collect()
}

/// Full white.
pub fn white() -> (r: Rgb)
    ensures
        r == (Rgb { r: 255, g: 255, b: 255 }),
{
    Rgb { r: 255, g: 255, b: 255 }
}

/// Full red.
pub fn red() -> (r: Rgb)
    ensures
        r == (Rgb { r: 255, g: 0, b: 0 }),
{
    Rgb { r: 255, g: 0, b: 0 }
}

/// Full yellow.
pub fn yellow() -> (r: Rgb)
    ensures
        r == (Rgb { r: 255, g: 255, b: 0 }),
{
    Rgb { r: 255, g: 255, b: 0 }
}

} // verus!
