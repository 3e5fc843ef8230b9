//! Per-run configuration: viewports, iteration caps, and named palettes.

use crate::colors::{ColorRange, Direction, HslRange, DEFAULT_HUE, DEFAULT_LIGHTNESS, DEFAULT_SATURATION, HUE_RANGE};
use crate::complex::Complex;
use crate::fixed::{fx_div_v, fx_mul_v, fx_rdiv, fx_sat, Fixed, FX_SCALE};
use crate::fractal::FractalType;
use vstd::prelude::*;

verus! {

/// Default Julia viewport's upper-right corner, raw components.
pub const JULIA_DEFAULT_X_MAX: (i64, i64) = (6442450944, 4294967296);

/// Default Julia viewport's lower-left corner, raw components.
pub const JULIA_DEFAULT_X_MIN: (i64, i64) = (-6442450944, -4294967296);

/// Default Julia parameter, raw components.
pub const JULIA_DEFAULT_C: (i64, i64) = (-3435973837, 670014898);

/// Default iteration cap for a Julia run.
pub const JULIA_DEFAULT_ITERATIONS: u32 = 400;

/// Default Mandelbrot viewport's upper-right corner, raw components.
pub const MANDELBROT_DEFAULT_C_MAX: (i64, i64) = (2018634629, 4810363372);

/// Default Mandelbrot viewport's lower-left corner, raw components.
pub const MANDELBROT_DEFAULT_C_MIN: (i64, i64) = (-8589934592, -4810363372);

/// Default iteration cap for a Mandelbrot run.
pub const MANDELBROT_DEFAULT_ITERATIONS: u32 = 400;

/// The raw scalar nearest the ratio `num / den`, for a positive `den`.
pub open spec fn ratio_v(num: int, den: int) -> int
    recommends
        den > 0,
{
    fx_sat(fx_rdiv(num * (FX_SCALE as int), den))
}

/// Configuration of a Julia run: the iteration cap, the viewport corners,
/// and the quadratic parameter.
pub struct JuliaSetCfg {
    /// Iteration cap; values beyond it mean "never escaped".
    pub max_iterations: u32,
    /// Upper-right corner of the viewport.
    pub x_max: Complex,
    /// Lower-left corner of the viewport.
    pub x_min: Complex,
    /// The fixed parameter added at every orbit step.
    pub c: Complex,
    /// Palette selection, if any.
    pub color_cfg_name: Option<String>,
}

impl Default for JuliaSetCfg {
    /// The standard Julia view: three units wide, two tall, around the
    /// origin, with a classic bounded-orbit parameter.
    fn default() -> (r: JuliaSetCfg)
        ensures
            r.max_iterations == JULIA_DEFAULT_ITERATIONS,
            r.x_max@ == (JULIA_DEFAULT_X_MAX.0 as int, JULIA_DEFAULT_X_MAX.1 as int),
            r.x_min@ == (JULIA_DEFAULT_X_MIN.0 as int, JULIA_DEFAULT_X_MIN.1 as int),
            r.c@ == (JULIA_DEFAULT_C.0 as int, JULIA_DEFAULT_C.1 as int),
            r.x_max@ == (ratio_v(3, 2), FX_SCALE as int),
            r.c@ == (ratio_v(-4, 5), ratio_v(39, 250)),
            r.color_cfg_name is None,
    {
        JuliaSetCfg {
            max_iterations: JULIA_DEFAULT_ITERATIONS,
            x_max: Complex::new(Fixed::from_ratio(3, 2), Fixed::from_int(1)),
            x_min: Complex::new(Fixed::from_ratio(-3, 2), Fixed::from_int(-1)),
            c: Complex::new(Fixed::from_ratio(-4, 5), Fixed::from_ratio(39, 250)),
            color_cfg_name: None,
        }
    }
}

/// Configuration of a Mandelbrot run: the iteration cap, the viewport
/// corners, and the orbit power.
pub struct MandelbrotCfg {
    /// Iteration cap; values beyond it mean "never escaped".
    pub max_iterations: u32,
    /// Upper-right corner of the viewport.
    pub c_max: Complex,
    /// Lower-left corner of the viewport.
    pub c_min: Complex,
    /// The power each orbit step raises the point to, at least two.
    pub power: u32,
    /// Palette selection, if any.
    pub color_cfg_name: Option<String>,
}

impl Default for MandelbrotCfg {
    /// The standard Mandelbrot view with quadratic orbits.
    fn default() -> (r: MandelbrotCfg)
        ensures
            r.max_iterations == MANDELBROT_DEFAULT_ITERATIONS,
            r.c_max@ == (MANDELBROT_DEFAULT_C_MAX.0 as int, MANDELBROT_DEFAULT_C_MAX.1 as int),
            r.c_min@ == (MANDELBROT_DEFAULT_C_MIN.0 as int, MANDELBROT_DEFAULT_C_MIN.1 as int),
            r.c_max@ == (ratio_v(47, 100), ratio_v(28, 25)),
            r.c_min@ == (-2 * (FX_SCALE as int), ratio_v(-28, 25)),
            r.power == 2,
            r.color_cfg_name is None,
    {
        MandelbrotCfg {
            max_iterations: MANDELBROT_DEFAULT_ITERATIONS,
            c_max: Complex::new(Fixed::from_ratio(47, 100), Fixed::from_ratio(28, 25)),
            c_min: Complex::new(Fixed::from_int(-2), Fixed::from_ratio(-28, 25)),
            power: 2,
            color_cfg_name: None,
        }
    }
}

/// A set of named color interpolations.
pub struct ColorCfg {
    palettes: Vec<(String, ColorRange)>,
}

impl View for ColorCfg {
    type V = Seq<(Seq<char>, ColorRange)>;

    closed spec fn view(&self) -> Seq<(Seq<char>, ColorRange)> {
        Seq::new(self.palettes@.len(), |i: int| (self.palettes@[i].0@, self.palettes@[i].1))
    }
}

impl ColorCfg {
    /// An empty palette set.
    pub fn new() -> (r: ColorCfg)
        ensures
            r@ =~= Seq::<(Seq<char>, ColorRange)>::empty(),
    {
        ColorCfg { palettes: Vec::new() }
    }

    /// The first palette stored under `name`, if any.
    pub fn get<'a>(&'a self, name: &String) -> (r: Option<&'a ColorRange>)
        ensures
            match r {
                Some(range) => exists|i: int|
                    0 <= i < self@.len() && self@[i].0 == name@ && self@[i].1 == *range,
                None => forall|i: int| 0 <= i < self@.len() ==> self@[i].0 != name@,
            },
    {
        let mut i: usize = 0;
        while i < self.palettes.len()
            invariant
                i <= self.palettes@.len(),
                self@.len() == self.palettes@.len(),
                forall|j: int| 0 <= j < i ==> self@[j].0 != name@,
            decreases self.palettes@.len() - i,
        {
            if self.palettes[i].0 == *name {
                assert(self@[i as int].0 == name@);
                return Some(&self.palettes[i].1);
            }
            i = i + 1;
        }
        None
    }
}

impl Default for ColorCfg {
    /// One palette, the default HSL sweep, stored under the name "default".
    fn default() -> (r: ColorCfg)
        ensures
            r@.len() == 1,
            r@[0].0 == "default"@,
            r@[0].1 matches ColorRange::Hsl(h) && h@ == (
                Direction::Positive,
                (DEFAULT_HUE as int, DEFAULT_SATURATION as int, DEFAULT_LIGHTNESS as int),
                (
                    DEFAULT_HUE as int + HUE_RANGE as int,
                    DEFAULT_SATURATION as int,
                    DEFAULT_LIGHTNESS as int,
                ),
            ),
    {
        let mut palettes: Vec<(String, ColorRange)> = Vec::new();
        palettes.push(("default".to_owned(), ColorRange::Hsl(HslRange::default())));
        ColorCfg { palettes }
    }
}

/// The whole per-run configuration.
pub struct Config {
    /// Whether the host shows throughput statistics.
    pub view_stats: bool,
    /// Named palettes for the renderer.
    pub color_cfg: ColorCfg,
    /// Which fractal family to compute.
    pub active_config: FractalType,
    /// Parameters of a Julia run.
    pub julia_set_cfg: JuliaSetCfg,
    /// Parameters of a Mandelbrot run.
    pub mandelbrot_cfg: MandelbrotCfg,
}

impl Config {
    /// Iteration caps leave room for the sentinel, the power is at least
    /// two, and both viewports have positive width and height.
    pub open spec fn wf(self) -> bool {
        &&& self.julia_set_cfg.max_iterations < u32::MAX
        &&& self.mandelbrot_cfg.max_iterations < u32::MAX
        &&& self.mandelbrot_cfg.power >= 2
        &&& self.mandelbrot_cfg.c_max@.0 > self.mandelbrot_cfg.c_min@.0
        &&& self.mandelbrot_cfg.c_max@.1 > self.mandelbrot_cfg.c_min@.1
        &&& self.julia_set_cfg.x_max@.0 > self.julia_set_cfg.x_min@.0
        &&& self.julia_set_cfg.x_max@.1 > self.julia_set_cfg.x_min@.1
    }

    /// The standard configuration: Mandelbrot active, default viewports,
    /// the default palette, statistics off.
    pub fn std_cfg() -> (r: Config)
        ensures
            r.wf(),
            !r.view_stats,
            r.active_config == FractalType::Mandelbrot,
            r.julia_set_cfg.max_iterations == JULIA_DEFAULT_ITERATIONS,
            r.mandelbrot_cfg.max_iterations == MANDELBROT_DEFAULT_ITERATIONS,
            r.mandelbrot_cfg.power == 2,
    {
        let r = Config {
            view_stats: false,
            color_cfg: ColorCfg::default(),
            active_config: FractalType::Mandelbrot,
            julia_set_cfg: JuliaSetCfg::default(),
            mandelbrot_cfg: MandelbrotCfg::default(),
        };
        r
    }

    /// The canvas height that keeps the active viewport's aspect ratio at
    /// the given canvas width, clamped into the unsigned 32-bit range.
    pub fn get_canvas_height(&self, canvas_width: u32) -> (r: u32)
        requires
            self.wf(),
        ensures
            r as int == (match self.active_config {
                FractalType::Mandelbrot => canvas_height_v(
                    canvas_width,
                    self.mandelbrot_cfg.c_max@,
                    self.mandelbrot_cfg.c_min@,
                ),
                FractalType::JuliaSet => canvas_height_v(
                    canvas_width,
                    self.julia_set_cfg.x_max@,
                    self.julia_set_cfg.x_min@,
                ),
            }),
    {
        let (cmax, cmin) = match self.active_config {
            FractalType::Mandelbrot => (self.mandelbrot_cfg.c_max, self.mandelbrot_cfg.c_min),
            FractalType::JuliaSet => (self.julia_set_cfg.x_max, self.julia_set_cfg.x_min),
        };
        let span_im = cmax.imag_part().minus(cmin.imag_part());
        let span_re = cmax.real_part().minus(cmin.real_part());
        let h = Fixed::from_int_sat(canvas_width as i64).times(span_im).div_by(span_re)
            .to_int_floor();
        if h < 0 {
            0
        } else if h > u32::MAX as i64 {
            u32::MAX
        } else {
            h as u32
        }
    }
}

/// The aspect-keeping canvas height: the canvas width scaled by the ratio of
/// the viewport's height to its width, floored and clamped into 32 bits.
pub open spec fn canvas_height_v(width: u32, cmax: (int, int), cmin: (int, int)) -> int
    recommends
        cmax.0 != cmin.0,
{
    let h = fx_div_v(
        fx_mul_v(fx_sat(width as int * (FX_SCALE as int)), crate::fixed::fx_sub_v(cmax.1, cmin.1)),
        crate::fixed::fx_sub_v(cmax.0, cmin.0),
    ) / (FX_SCALE as int);
    if h < 0 {
        0
    } else if h > u32::MAX as int {
        u32::MAX as int
    } else {
        h
    }
}

impl Default for Config {
    /// The standard configuration.
    fn default() -> (r: Config)
        ensures
            r.wf(),
            r.active_config == FractalType::Mandelbrot,
    {
        Config::std_cfg()
    }
}

} // verus!
