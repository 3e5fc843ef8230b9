//! The iteration-value to color pipeline.
//!
//! Colors interpolate between two endpoints, either in hue / saturation /
//! lightness space or channelwise in RGB space, walking forward or wrapping
//! around the channel's modulus according to a direction.  The HSL to RGB
//! conversion is the standard sector construction, carried out exactly in
//! fixed-point arithmetic, so every hex digit of the output is specified.

use crate::fixed::{
    fx_abs_v, fx_add_v, fx_div_v, fx_mul_v, fx_rem_v, fx_sat, fx_sub_v, Fixed, FX_SCALE,
};
use crate::stats::digit_char;
use vstd::arithmetic::div_mod::lemma_small_mod;
use vstd::prelude::*;

verus! {

/// The color painted behind escaped regions.
pub const BACKGROUND_COLOR: &'static str = "#000000";

/// Default hue endpoint, in raw degrees.
pub const DEFAULT_HUE: i64 = 0;

/// Default saturation, the raw unit.
pub const DEFAULT_SATURATION: i64 = 0x1_0000_0000;

/// Default lightness, one half in raw units.
pub const DEFAULT_LIGHTNESS: i64 = 0x8000_0000;

/// Width of the default hue sweep, in raw degrees.
pub const HUE_RANGE: i64 = 0x12C_0000_0000;

/// Which way an interpolation walks between its endpoints.
#[derive(PartialEq, Eq, Structural, Clone, Copy, Debug)]
pub enum Direction {
    /// The literal forward path from start toward end.
    Positive,
    /// The other way around the channel's modulus.
    Negative,
}

/// Interpolate between raw `start` and `end` by `percent` of the way, in a
/// channel that is cyclic with modulus `max`: equal endpoints stay put, the
/// positive direction walks from start toward end directly, and the negative
/// direction wraps across the modulus.
pub open spec fn range_percent_v(start: int, end: int, dir: Direction, max: int, percent: int) -> int {
    if start == end {
        start
    } else if start < end {
        match dir {
            Direction::Positive => fx_add_v(start, fx_mul_v(fx_sub_v(end, start), percent)),
            Direction::Negative => {
                let hi_start = fx_add_v(start, max);
                fx_rem_v(fx_sub_v(hi_start, fx_mul_v(fx_sub_v(hi_start, end), percent)), max)
            },
        }
    } else {
        match dir {
            Direction::Positive => {
                let hi_end = fx_add_v(end, max);
                fx_rem_v(fx_add_v(start, fx_mul_v(fx_sub_v(hi_end, start), percent)), max)
            },
            Direction::Negative => fx_sub_v(start, fx_mul_v(fx_sub_v(start, end), percent)),
        }
    }
}

/// Interpolate one color channel; see `range_percent_v`.
pub fn range_percent(start: Fixed, end: Fixed, dir: Direction, max: Fixed, percent: Fixed) -> (r:
    Fixed)
    requires
        max@ > 0,
        0 <= percent@ <= FX_SCALE as int,
    ensures
        r@ == range_percent_v(start@, end@, dir, max@, percent@),
{
    if start.raw() == end.raw() {
        start
    } else if start.lt(end) {
        match dir {
            Direction::Positive => start.plus(end.minus(start).times(percent)),
            Direction::Negative => {
                let hi_start = start.plus(max);
                hi_start.minus(hi_start.minus(end).times(percent)).rem_trunc(max)
            },
        }
    } else {
        match dir {
            Direction::Positive => {
                let hi_end = end.plus(max);
                start.plus(hi_end.minus(start).times(percent)).rem_trunc(max)
            },
            Direction::Negative => start.minus(start.minus(end).times(percent)),
        }
    }
}

/// The chroma of a saturation / lightness pair.
pub open spec fn chroma_v(s: int, l: int) -> int {
    let unit = FX_SCALE as int;
    fx_mul_v(fx_sub_v(unit, fx_abs_v(fx_sub_v(fx_mul_v(2 * unit, l), unit))), s)
}

/// The secondary component for a hue, scaled by the chroma `c`.
pub open spec fn x_component_v(c: int, h: int) -> int {
    let unit = FX_SCALE as int;
    fx_mul_v(
        c,
        fx_sub_v(unit, fx_abs_v(fx_sub_v(fx_rem_v(fx_div_v(h, 60 * unit), 2 * unit), unit))),
    )
}

/// The lightness offset added to every channel.
pub open spec fn m_offset_v(c: int, l: int) -> int {
    fx_sub_v(l, fx_div_v(c, 2 * (FX_SCALE as int)))
}

/// A hue reduced into `[0, 360)` degrees when it lies at or above 360.
pub open spec fn safe_hue_v(h: int) -> int {
    if h >= 360 * (FX_SCALE as int) {
        fx_rem_v(h, 360 * (FX_SCALE as int))
    } else {
        h
    }
}

/// Which 60-degree sector a safe hue falls in; hues below zero count as the
/// first sector.
pub open spec fn sector_v(h: int) -> int {
    if h < 0 {
        0
    } else {
        (h / (FX_SCALE as int)) / 60
    }
}

/// One 8-bit channel: the floored 255-fold of `comp + m`, its magnitude
/// reduced modulo 256.
pub open spec fn channel_v(comp: int, m: int) -> int {
    let unit = FX_SCALE as int;
    let f = fx_mul_v(fx_add_v(comp, m), 255 * unit) / unit;
    (if f >= 0 {
        f
    } else {
        -f
    }) % 256
}

/// The three channels of the standard sector construction for a hue given
/// chroma `c`, secondary component `x` and offset `m`.
pub open spec fn sector_rgb_v(sector: int, c: int, x: int, m: int) -> (int, int, int) {
    if sector == 0 {
        (channel_v(c, m), channel_v(x, m), channel_v(0, m))
    } else if sector == 1 {
        (channel_v(x, m), channel_v(c, m), channel_v(0, m))
    } else if sector == 2 {
        (channel_v(0, m), channel_v(c, m), channel_v(x, m))
    } else if sector == 3 {
        (channel_v(0, m), channel_v(x, m), channel_v(c, m))
    } else if sector == 4 {
        (channel_v(x, m), channel_v(0, m), channel_v(c, m))
    } else {
        (channel_v(c, m), channel_v(0, m), channel_v(x, m))
    }
}

/// The RGB triple of an HSL triple, each raw component handed through the
/// sector construction.
pub open spec fn hsl_to_rgb_v(h: int, s: int, l: int) -> (int, int, int) {
    let safe = safe_hue_v(h);
    let c = chroma_v(s, l);
    let x = x_component_v(c, safe);
    let m = m_offset_v(c, l);
    sector_rgb_v(sector_v(safe), c, x, m)
}

/// The zero hue at full saturation and half lightness converts to pure red:
/// the chroma is one, the secondary component and the offset vanish, and
/// the first sector pins the channels at `(255, 0, 0)`.
pub proof fn lemma_zero_hue_is_red()
    ensures
        hsl_to_rgb_v(0, FX_SCALE as int, (FX_SCALE as int) / 2) == (255int, 0int, 0int),
{
    let unit = FX_SCALE as int;
    assert(fx_mul_v(0x2_0000_0000, 0x8000_0000) == 0x1_0000_0000);
    assert(chroma_v(unit, unit / 2) == unit);
    assert(fx_div_v(0, 0x3C_0000_0000) == 0);
    assert(x_component_v(unit, 0) == 0);
    assert(fx_div_v(0x1_0000_0000, 0x2_0000_0000) == 0x8000_0000);
    assert(m_offset_v(unit, unit / 2) == 0);
    assert(safe_hue_v(0) == 0);
    assert(sector_v(0) == 0);
    assert(fx_mul_v(0x1_0000_0000, 0xFF_0000_0000) == 0xFF_0000_0000);
    assert(channel_v(unit, 0) == 255);
    assert(fx_mul_v(0, 0xFF_0000_0000) == 0);
    assert(channel_v(0, 0) == 0);
}

/// The uppercase hex character of a value below 16.
pub open spec fn hex_char(d: nat) -> char {
    if d < 10 {
        digit_char(d)
    } else if d == 10 {
        'A'
    } else if d == 11 {
        'B'
    } else if d == 12 {
        'C'
    } else if d == 13 {
        'D'
    } else if d == 14 {
        'E'
    } else {
        'F'
    }
}

/// Two uppercase hex digits of a byte.
pub open spec fn hex2_str(b: int) -> Seq<char>
    recommends
        0 <= b < 256,
{
    seq![hex_char((b / 16) as nat), hex_char((b % 16) as nat)]
}

/// The `#RRGGBB` display of an RGB triple.
pub open spec fn rgb_string_v(rgb: (int, int, int)) -> Seq<char> {
    seq!['#'] + hex2_str(rgb.0) + hex2_str(rgb.1) + hex2_str(rgb.2)
}

/// The uppercase hex digit string of a value below 16.
fn hex_digit_str(d: u8) -> (r: &'static str)
    requires
        d < 16,
    ensures
        r@ == seq![hex_char(d as nat)],
{
    proof {
        reveal_strlit("A");
        reveal_strlit("B");
        reveal_strlit("C");
        reveal_strlit("D");
        reveal_strlit("E");
        reveal_strlit("F");
    }
    if d < 10 {
        crate::stats::digit_str(d as u64)
    } else {
        match d {
            10 => "A",
            11 => "B",
            12 => "C",
            13 => "D",
            14 => "E",
            _ => "F",
        }
    }
}

/// An 8-bit color with red, green and blue channels.
#[derive(PartialEq, Eq, Structural, Clone, Copy, Debug)]
pub struct RgbColor {
    red: u8,
    green: u8,
    blue: u8,
}

impl View for RgbColor {
    type V = (int, int, int);

    closed spec fn view(&self) -> (int, int, int) {
        (self.red as int, self.green as int, self.blue as int)
    }
}

impl RgbColor {
    /// Build a color from its three channels.
    pub fn new(red: u8, green: u8, blue: u8) -> (r: RgbColor)
        ensures
            r@ == (red as int, green as int, blue as int),
    {
        RgbColor { red, green, blue }
    }

    /// The red channel.
    pub fn red(&self) -> (r: u8)
        ensures
            r as int == self@.0,
    {
        self.red
    }

    /// The green channel.
    pub fn green(&self) -> (r: u8)
        ensures
            r as int == self@.1,
    {
        self.green
    }

    /// The blue channel.
    pub fn blue(&self) -> (r: u8)
        ensures
            r as int == self@.2,
    {
        self.blue
    }

    /// The `#RRGGBB` display of the color.
    pub fn to_string(&self) -> (r: String)
        ensures
            r@ == rgb_string_v(self@),
    {
        proof {
            reveal_strlit("#");
        }
        let mut s = String::new();
        s.append("#");
        s.append(hex_digit_str(self.red / 16));
        s.append(hex_digit_str(self.red % 16));
        s.append(hex_digit_str(self.green / 16));
        s.append(hex_digit_str(self.green % 16));
        s.append(hex_digit_str(self.blue / 16));
        s.append(hex_digit_str(self.blue % 16));
        s
    }
}

/// A color in hue / saturation / lightness space: the hue in raw degrees,
/// saturation and lightness as raw fractions of one.
#[derive(PartialEq, Eq, Structural, Clone, Copy, Debug)]
pub struct HslColor {
    hue: Fixed,
    saturation: Fixed,
    lightness: Fixed,
}

impl View for HslColor {
    type V = (int, int, int);

    closed spec fn view(&self) -> (int, int, int) {
        (self.hue@, self.saturation@, self.lightness@)
    }
}

impl HslColor {
    /// Build a color, reducing the hue modulo 360 degrees and the other two
    /// components modulo one hundred.
    pub fn new(hue: Fixed, saturation: Fixed, lightness: Fixed) -> (r: HslColor)
        ensures
            r@ == (
                fx_rem_v(hue@, 360 * (FX_SCALE as int)),
                fx_rem_v(saturation@, 100 * (FX_SCALE as int)),
                fx_rem_v(lightness@, 100 * (FX_SCALE as int)),
            ),
    {
        let hundred = Fixed::from_int(100);
        HslColor {
            hue: hue.rem_trunc(Fixed::from_int(360)),
            saturation: saturation.rem_trunc(hundred),
            lightness: lightness.rem_trunc(hundred),
        }
    }

    /// The hue, in raw degrees.
    pub fn hue(&self) -> (r: Fixed)
        ensures
            r@ == self@.0,
    {
        self.hue
    }

    /// The saturation, a raw fraction of one.
    pub fn saturation(&self) -> (r: Fixed)
        ensures
            r@ == self@.1,
    {
        self.saturation
    }

    /// The lightness, a raw fraction of one.
    pub fn lightness(&self) -> (r: Fixed)
        ensures
            r@ == self@.2,
    {
        self.lightness
    }

    /// Convert to RGB through the standard sector construction.  Saturation
    /// and lightness must be fractions in `[0, 1]`.
    pub fn to_rgb(&self) -> (r: RgbColor)
        requires
            0 <= self@.1 <= FX_SCALE as int,
            0 <= self@.2 <= FX_SCALE as int,
        ensures
            r@ == hsl_to_rgb_v(self@.0, self@.1, self@.2),
    {
        let deg360 = Fixed::from_int(360);
        let safe = if !self.hue.lt(deg360) {
            self.hue.rem_trunc(deg360)
        } else {
            self.hue
        };
        let one = Fixed::one();
        let two = Fixed::from_int(2);
        let c = one.minus(two.times(self.lightness).minus(one).abs_val()).times(self.saturation);
        let x = c.times(
            one.minus(safe.div_by(Fixed::from_int(60)).rem_trunc(two).minus(one).abs_val()),
        );
        let m = self.lightness.minus(c.div_by(two));
        let hi = safe.to_int_floor();
        let hc: i64 = if hi < 0 {
            0
        } else {
            hi
        };
        let sector = hc / 60;
        let (cr, cg, cb) = if sector == 0 {
            (c, x, Fixed::zero())
        } else if sector == 1 {
            (x, c, Fixed::zero())
        } else if sector == 2 {
            (Fixed::zero(), c, x)
        } else if sector == 3 {
            (Fixed::zero(), x, c)
        } else if sector == 4 {
            (x, Fixed::zero(), c)
        } else {
            (c, Fixed::zero(), x)
        };
        RgbColor::new(channel_byte(cr, m), channel_byte(cg, m), channel_byte(cb, m))
    }
}

/// One channel of the sector construction, as the byte `channel_v` denotes.
fn channel_byte(comp: Fixed, m: Fixed) -> (r: u8)
    ensures
        r as int == channel_v(comp@, m@),
{
    let f = comp.plus(m).times(Fixed::from_int(255)).to_int_floor();
    let fa: i64 = if f >= 0 {
        f
    } else {
        -f
    };
    (fa % 256) as u8
}

/// An interpolation between two HSL endpoints.
#[derive(PartialEq, Eq, Structural, Clone, Copy, Debug)]
pub struct HslRange {
    dir: Direction,
    start: HslColor,
    end: HslColor,
}

impl View for HslRange {
    type V = (Direction, (int, int, int), (int, int, int));

    closed spec fn view(&self) -> (Direction, (int, int, int), (int, int, int)) {
        (self.dir, self.start@, self.end@)
    }
}

impl HslRange {
    /// An interpolation walking forward from `start` to `end`.
    pub fn new(start: HslColor, end: HslColor) -> (r: HslRange)
        ensures
            r@ == (Direction::Positive, start@, end@),
    {
        HslRange { dir: Direction::Positive, start, end }
    }

    /// An interpolation with an explicit direction.
    pub fn new_with_dir(start: HslColor, end: HslColor, dir: Direction) -> (r: HslRange)
        ensures
            r@ == (dir, start@, end@),
    {
        HslRange { dir, start, end }
    }

    /// The direction of the walk.
    pub fn dir(&self) -> (r: Direction)
        ensures
            r == self@.0,
    {
        self.dir
    }

    /// The starting color.
    pub fn start(&self) -> (r: HslColor)
        ensures
            r@ == self@.1,
    {
        self.start
    }

    /// The ending color.
    pub fn end(&self) -> (r: HslColor)
        ensures
            r@ == self@.2,
    {
        self.end
    }

    /// The color `percent` of the way along the range: hue walks a channel
    /// of modulus 360 degrees, saturation and lightness a channel of
    /// modulus one.
    pub fn percent_of(&self, percent: Fixed) -> (r: HslColor)
        requires
            0 <= percent@ <= FX_SCALE as int,
        ensures
            r@ == (
                range_percent_v(self@.1.0, self@.2.0, self@.0, 360 * (FX_SCALE as int), percent@),
                range_percent_v(self@.1.1, self@.2.1, self@.0, FX_SCALE as int, percent@),
                range_percent_v(self@.1.2, self@.2.2, self@.0, FX_SCALE as int, percent@),
            ),
    {
        let one = Fixed::one();
        HslColor {
            hue: range_percent(
                self.start.hue(),
                self.end.hue(),
                self.dir,
                Fixed::from_int(360),
                percent,
            ),
            saturation: range_percent(
                self.start.saturation(),
                self.end.saturation(),
                self.dir,
                one,
                percent,
            ),
            lightness: range_percent(
                self.start.lightness(),
                self.end.lightness(),
                self.dir,
                one,
                percent,
            ),
        }
    }
}

impl Default for HslRange {
    /// The default sweep: full saturation, half lightness, hue climbing
    /// through 300 degrees from red.
    fn default() -> (r: HslRange)
        ensures
            r@ == (
                Direction::Positive,
                (DEFAULT_HUE as int, DEFAULT_SATURATION as int, DEFAULT_LIGHTNESS as int),
                (
                    DEFAULT_HUE as int + HUE_RANGE as int,
                    DEFAULT_SATURATION as int,
                    DEFAULT_LIGHTNESS as int,
                ),
            ),
    {
        proof {
            lemma_small_mod(DEFAULT_HUE as nat, (360 * (FX_SCALE as int)) as nat);
            lemma_small_mod((DEFAULT_HUE + HUE_RANGE) as nat, (360 * (FX_SCALE as int)) as nat);
            lemma_small_mod(DEFAULT_SATURATION as nat, (100 * (FX_SCALE as int)) as nat);
            lemma_small_mod(DEFAULT_LIGHTNESS as nat, (100 * (FX_SCALE as int)) as nat);
        }
        HslRange {
            dir: Direction::Positive,
            start: HslColor::new(
                Fixed::from_raw(DEFAULT_HUE),
                Fixed::from_raw(DEFAULT_SATURATION),
                Fixed::from_raw(DEFAULT_LIGHTNESS),
            ),
            end: HslColor::new(
                Fixed::from_raw(DEFAULT_HUE + HUE_RANGE),
                Fixed::from_raw(DEFAULT_SATURATION),
                Fixed::from_raw(DEFAULT_LIGHTNESS),
            ),
        }
    }
}

/// An interpolation between two RGB endpoints, channel by channel.
#[derive(PartialEq, Eq, Structural, Clone, Copy, Debug)]
pub struct RgbRange {
    dir: Direction,
    start: RgbColor,
    end: RgbColor,
}

impl View for RgbRange {
    type V = (Direction, (int, int, int), (int, int, int));

    closed spec fn view(&self) -> (Direction, (int, int, int), (int, int, int)) {
        (self.dir, self.start@, self.end@)
    }
}

/// One interpolated RGB byte: the floored channel walk, clamped into the
/// byte range as a hardware float-to-byte cast would.
pub open spec fn rgb_channel_v(start: int, end: int, dir: Direction, percent: int) -> int {
    let f = range_percent_v(
        start * (FX_SCALE as int),
        end * (FX_SCALE as int),
        dir,
        256 * (FX_SCALE as int),
        percent,
    ) / (FX_SCALE as int);
    if f < 0 {
        0
    } else if f > 255 {
        255
    } else {
        f
    }
}

/// One interpolated RGB byte; see `rgb_channel_v`.
fn rgb_channel(start: u8, end: u8, dir: Direction, percent: Fixed) -> (r: u8)
    requires
        0 <= percent@ <= FX_SCALE as int,
    ensures
        r as int == rgb_channel_v(start as int, end as int, dir, percent@),
{
    let f = range_percent(
        Fixed::from_int(start as i32),
        Fixed::from_int(end as i32),
        dir,
        Fixed::from_int(256),
        percent,
    ).to_int_floor();
    if f < 0 {
        0
    } else if f > 255 {
        255
    } else {
        f as u8
    }
}

impl RgbRange {
    /// An interpolation walking forward from `start` to `end`.
    pub fn new(start: RgbColor, end: RgbColor) -> (r: RgbRange)
        ensures
            r@ == (Direction::Positive, start@, end@),
    {
        RgbRange { dir: Direction::Positive, start, end }
    }

    /// An interpolation with an explicit direction.
    pub fn new_with_dir(start: RgbColor, end: RgbColor, dir: Direction) -> (r: RgbRange)
        ensures
            r@ == (dir, start@, end@),
    {
        RgbRange { dir, start, end }
    }

    /// The color `percent` of the way along the range, each byte channel
    /// walked in a cycle of modulus 256.
    pub fn percent_of(&self, percent: Fixed) -> (r: RgbColor)
        requires
            0 <= percent@ <= FX_SCALE as int,
        ensures
            r@ == (
                rgb_channel_v(self@.1.0, self@.2.0, self@.0, percent@),
                rgb_channel_v(self@.1.1, self@.2.1, self@.0, percent@),
                rgb_channel_v(self@.1.2, self@.2.2, self@.0, percent@),
            ),
    {
        RgbColor::new(
            rgb_channel(self.start.red(), self.end.red(), self.dir, percent),
            rgb_channel(self.start.green(), self.end.green(), self.dir, percent),
            rgb_channel(self.start.blue(), self.end.blue(), self.dir, percent),
        )
    }
}

/// A choice of interpolation space for the renderer.
#[derive(PartialEq, Eq, Structural, Clone, Copy, Debug)]
pub enum ColorRange {
    /// Interpolate in hue / saturation / lightness space.
    Hsl(HslRange),
    /// Interpolate channelwise in RGB space.
    Rgb(RgbRange),
}

impl Default for ColorRange {
    /// The default interpolation: the default HSL sweep.
    fn default() -> (r: ColorRange)
        ensures
            r matches ColorRange::Hsl(h) && h@ == (
                Direction::Positive,
                (DEFAULT_HUE as int, DEFAULT_SATURATION as int, DEFAULT_LIGHTNESS as int),
                (
                    DEFAULT_HUE as int + HUE_RANGE as int,
                    DEFAULT_SATURATION as int,
                    DEFAULT_LIGHTNESS as int,
                ),
            ),
    {
        ColorRange::Hsl(HslRange::default())
    }
}

/// The hex display of a hue rendered at full saturation and half lightness.
pub open spec fn hue_rgb_v(h: int) -> Seq<char> {
    rgb_string_v(hsl_to_rgb_v(h, FX_SCALE as int, (FX_SCALE as int) / 2))
}

/// Render a nonnegative hue in raw degrees, reduced modulo 360, at full
/// saturation and half lightness, as a `#RRGGBB` string.
pub fn hue_to_rgb(hue: Fixed) -> (r: String)
    requires
        0 <= hue@,
    ensures
        r@ == hue_rgb_v(hue@),
{
    proof {
        let circle = 360 * (FX_SCALE as int);
        if hue@ < circle {
            if hue@ > 0 {
                lemma_small_mod(hue@ as nat, circle as nat);
            }
        } else {
            vstd::arithmetic::div_mod::lemma_mod_bound(hue@, circle);
        }
        lemma_small_mod(DEFAULT_SATURATION as nat, (100 * (FX_SCALE as int)) as nat);
        lemma_small_mod(DEFAULT_LIGHTNESS as nat, (100 * (FX_SCALE as int)) as nat);
    }
    let color = HslColor::new(
        hue,
        Fixed::from_raw(DEFAULT_SATURATION),
        Fixed::from_raw(DEFAULT_LIGHTNESS),
    );
    let rgb = color.to_rgb();
    proof {
        let circle = 360 * (FX_SCALE as int);
        let reduced = fx_rem_v(hue@, circle);
        assert(reduced == hue@ % circle);
        if hue@ >= circle {
            vstd::arithmetic::div_mod::lemma_mod_bound(hue@, circle);
            assert(0 <= reduced < circle);
            assert(safe_hue_v(reduced) == reduced);
            assert(safe_hue_v(hue@) == reduced);
        } else {
            vstd::arithmetic::div_mod::lemma_fundamental_div_mod_converse(
                hue@,
                circle,
                0,
                hue@,
            );
            assert(hue@ % circle == hue@);
            assert(reduced == hue@);
        }
        assert(safe_hue_v(reduced) == safe_hue_v(hue@));
        assert(hsl_to_rgb_v(reduced, FX_SCALE as int, (FX_SCALE as int) / 2) == hsl_to_rgb_v(
            hue@,
            FX_SCALE as int,
            (FX_SCALE as int) / 2,
        ));
    }
    assert(rgb@ == hsl_to_rgb_v(hue@, FX_SCALE as int, (FX_SCALE as int) / 2));
    rgb.to_string()
}

/// The hue a given iteration count maps to: the count's share of the hue
/// sweep, reduced modulo 360 degrees.
pub open spec fn iteration_hue_v(iterations: u32, steps: u32) -> int
    recommends
        steps > 0,
{
    fx_rem_v(
        fx_mul_v(
            fx_sat(iterations as int * (FX_SCALE as int)),
            fx_div_v(HUE_RANGE as int, fx_sat(steps as int * (FX_SCALE as int))),
        ),
        360 * (FX_SCALE as int),
    )
}

/// Map an iteration count out of `steps` to its hue's hex display.
pub fn iterations_as_hue_to_rgb(iterations: u32, steps: u32) -> (r: String)
    requires
        steps > 0,
    ensures
        r@ == hue_rgb_v(iteration_hue_v(iterations, steps)),
{
    let share = Fixed::from_raw(HUE_RANGE).div_by(Fixed::from_int_sat(steps as i64));
    let hue = Fixed::from_int_sat(iterations as i64).times(share).rem_trunc(
        Fixed::from_int(360),
    );
    proof {
        vstd::arithmetic::div_mod::lemma_mod_bound(
            fx_mul_v(
                fx_sat(iterations as int * (FX_SCALE as int)),
                fx_div_v(HUE_RANGE as int, fx_sat(steps as int * (FX_SCALE as int))),
            ),
            360 * (FX_SCALE as int),
        );
    }
    hue_to_rgb(hue)
}

/// The color painted for one raster value: the background for values at or
/// beyond the second-to-last step, the value's hue otherwise.
pub open spec fn color_for_value_v(value: u32, steps: u32) -> Seq<char>
    recommends
        steps > 0,
{
    if value >= steps - 1 {
        BACKGROUND_COLOR@
    } else {
        hue_rgb_v(iteration_hue_v(value, steps))
    }
}

/// Choose the color for one raster value out of a run capped at `steps`.
pub fn color_for_value(value: u32, steps: u32) -> (r: String)
    requires
        steps > 0,
    ensures
        r@ == color_for_value_v(value, steps),
{
    if value >= steps - 1 {
        BACKGROUND_COLOR.to_owned()
    } else {
        iterations_as_hue_to_rgb(value, steps)
    }
}

} // verus!
