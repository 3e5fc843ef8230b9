//! The incremental fractal engine: kernels, batches, and the calculator.
//!
//! A kernel maps one sample of the plane to its escape iteration count.  The
//! calculator walks the raster row by row, filling a bounded batch of counts
//! per call and stopping early when its time budget runs out, so a
//! cooperative host can interleave other work; a ghost history records every
//! value ever emitted, which is how the batching law is stated.

use crate::clock::MonotonicClock;
use crate::complex::{c_add_v, c_pow_v, c_sq_len_v, Complex};
use crate::config::Config;
use crate::escape::{escape_radius_v, find_escape_radius};
use crate::fixed::{fx_add_v, fx_div_v, fx_mul_v, fx_sat, fx_sqrt_v, fx_sub_v, Fixed, FX_SCALE};
use crate::stats::{sat_add_u64, Stats};
use vstd::arithmetic::div_mod::lemma_fundamental_div_mod_converse;
use vstd::prelude::*;

verus! {

/// Capacity of one batch of iteration counts.
pub const MAX_POINTS: usize = 5000;

/// Time budget of one calculator call, in milliseconds.
pub const MAX_DURATION: u64 = 200;

/// How many iteration units may pass between two looks at the clock.
pub const CHECK_GRANULARITY: u64 = 100;

/// One batch of per-pixel iteration counts, tagged with the raster position
/// of its first sample.
pub struct Points {
    /// Raster column of the first value.
    pub x_start: u32,
    /// Raster row of the first value.
    pub y_start: u32,
    /// How many leading slots of `values` this batch filled.
    pub num_points: usize,
    /// The iteration counts, `MAX_POINTS` slots.
    pub values: Vec<u32>,
}

impl Default for Points {
    /// An empty batch at the raster origin, all slots zeroed.
    fn default() -> (r: Points)
        ensures
            r.x_start == 0,
            r.y_start == 0,
            r.num_points == 0,
            r.values@.len() == MAX_POINTS,
            forall|i: int| 0 <= i < MAX_POINTS ==> r.values@[i] == 0u32,
    {
        let mut values: Vec<u32> = Vec::new();
        let mut i: usize = 0;
        while i < MAX_POINTS
            invariant
                i <= MAX_POINTS,
                values@.len() == i,
                forall|j: int| 0 <= j < i ==> values@[j] == 0u32,
            decreases MAX_POINTS - i,
        {
            values.push(0);
            i = i + 1;
        }
        Points { x_start: 0, y_start: 0, num_points: 0, values }
    }
}

impl Points {
    /// The filled prefix of the batch.
    pub open spec fn batch_seq(&self) -> Seq<u32> {
        self.values@.take(self.num_points as int)
    }
}

/// Which fractal family a configuration selects.
#[derive(Debug, Copy, Clone, PartialEq, Eq, Structural)]
pub enum FractalType {
    /// The generalized-power Mandelbrot set.
    Mandelbrot,
    /// A quadratic Julia set.
    JuliaSet,
}

/// How many orbit steps, one-based, until the orbit first leaves the disk of
/// squared radius `max_sq`, with at most `remaining` steps taken; one more
/// than `remaining` when it never leaves.  Each step raises the point to
/// `power` and adds `c`.
pub open spec fn escape_rel_v(
    z: (int, int),
    c: (int, int),
    power: nat,
    max_sq: int,
    remaining: nat,
) -> int
    decreases remaining,
{
    if remaining == 0 {
        1
    } else {
        let z2 = c_add_v(c_pow_v(z, power), c);
        if c_sq_len_v(z2) >= max_sq {
            1
        } else {
            1 + escape_rel_v(z2, c, power, max_sq, (remaining - 1) as nat)
        }
    }
}

/// The escape count always lies between one and one past the step budget.
pub proof fn lemma_escape_rel_bounds(
    z: (int, int),
    c: (int, int),
    power: nat,
    max_sq: int,
    remaining: nat,
)
    ensures
        1 <= escape_rel_v(z, c, power, max_sq, remaining) <= remaining + 1,
    decreases remaining,
{
    if remaining > 0 {
        let z2 = c_add_v(c_pow_v(z, power), c);
        if !(c_sq_len_v(z2) >= max_sq) {
            lemma_escape_rel_bounds(z2, c, power, max_sq, (remaining - 1) as nat);
        }
    }
}

/// An orbit started at the origin with the origin as parameter stays at the
/// origin forever, so it never leaves a disk of positive squared radius,
/// whatever the step budget.
pub proof fn lemma_origin_orbit_never_escapes(power: nat, max_sq: int, remaining: nat)
    requires
        power >= 1,
        max_sq > 0,
    ensures
        escape_rel_v((0int, 0int), (0int, 0int), power, max_sq, remaining) == remaining + 1,
    decreases remaining,
{
    if remaining > 0 {
        crate::complex::lemma_pow_of_origin(power);
        let z2 = c_add_v(c_pow_v((0int, 0int), power), (0int, 0int));
        assert(z2 == (0int, 0int));
        assert(c_sq_len_v((0int, 0int)) == 0);
        lemma_origin_orbit_never_escapes(power, max_sq, (remaining - 1) as nat);
    }
}

/// The heart of the interior-point behaviour: a Mandelbrot kernel reports
/// the not-escaped sentinel for the origin under every iteration cap, since
/// the origin's orbit is the origin forever and the escape disk derived for
/// it is positive.
pub proof fn lemma_mandelbrot_origin_interior(iterations: u32, power: u32)
    requires
        power >= 1,
    ensures
        (FractalKernel::Mandelbrot { iterations, power }).value_v((0int, 0int)) == iterations
            as int + 1,
{
    assert(c_sq_len_v((0int, 0int)) == 0);
    crate::fixed::lemma_sqrt_exists(0);
    crate::fixed::lemma_sqrt_unique(crate::fixed::int_sqrt(0), 0, 0);
    assert(fx_sqrt_v(0) == 0);
    crate::escape::lemma_escape_radius_at_zero();
    let radius = escape_radius_v(0);
    lemma_origin_orbit_never_escapes(
        power as nat,
        fx_mul_v(radius, radius),
        iterations as nat,
    );
}

/// Run one escape-time orbit: from `z0`, repeatedly raise to `power` and add
/// `c`, and report the first one-based step whose squared magnitude reaches
/// `max_sq`, or `iterations + 1` if none does within the cap.
fn escape_loop(z0: Complex, c: Complex, power: u32, max_sq: Fixed, iterations: u32) -> (r: u32)
    requires
        iterations < u32::MAX,
    ensures
        r as int == escape_rel_v(z0@, c@, power as nat, max_sq@, iterations as nat),
        1 <= r <= iterations + 1,
{
    proof {
        lemma_escape_rel_bounds(z0@, c@, power as nat, max_sq@, iterations as nat);
    }
    let mut x = z0;
    let mut idx: u32 = 1;
    loop
        invariant_except_break
            iterations < u32::MAX,
            1 <= idx <= iterations + 1,
            escape_rel_v(x@, c@, power as nat, max_sq@, (iterations + 1 - idx) as nat) + idx - 1
                == escape_rel_v(z0@, c@, power as nat, max_sq@, iterations as nat),
        ensures
            idx as int == escape_rel_v(z0@, c@, power as nat, max_sq@, iterations as nat),
        decreases iterations + 1 - idx,
    {
        if idx > iterations {
            proof {
                assert(escape_rel_v(x@, c@, power as nat, max_sq@, 0) == 1);
            }
            break ;
        }
        let x2 = x.powi(power).plus(&c);
        let ghost rem = (iterations + 1 - idx) as nat;
        proof {
            assert(escape_rel_v(x@, c@, power as nat, max_sq@, rem) == (if c_sq_len_v(
                c_add_v(c_pow_v(x@, power as nat), c@),
            ) >= max_sq@ {
                1int
            } else {
                1 + escape_rel_v(
                    c_add_v(c_pow_v(x@, power as nat), c@),
                    c@,
                    power as nat,
                    max_sq@,
                    (rem - 1) as nat,
                )
            }));
        }
        if max_sq.le(x2.square_length()) {
            break ;
        }
        x = x2;
        idx = idx + 1;
    }
    idx
}

/// A fractal kernel: everything needed to map one sample to its escape
/// iteration count.
pub enum FractalKernel {
    /// Orbits start at the origin and the sample plays the parameter; the
    /// escape radius is derived per sample.
    Mandelbrot { iterations: u32, power: u32 },
    /// Orbits start at the sample with a fixed quadratic parameter `c`; the
    /// squared escape radius was derived once from `c`.
    JuliaSet { c: Complex, max_sq: Fixed, iterations: u32 },
}

impl FractalKernel {
    /// The iteration cap leaves room for the not-escaped sentinel.
    pub open spec fn wf(self) -> bool {
        self.iterations_of() < u32::MAX
    }

    /// The iteration cap.
    pub open spec fn iterations_of(self) -> u32 {
        match self {
            FractalKernel::Mandelbrot { iterations, .. } => iterations,
            FractalKernel::JuliaSet { iterations, .. } => iterations,
        }
    }

    /// The escape count this kernel assigns to a sample.
    pub open spec fn value_v(self, sample: (int, int)) -> int {
        match self {
            FractalKernel::Mandelbrot { iterations, power } => {
                let radius = escape_radius_v(fx_sqrt_v(c_sq_len_v(sample)));
                escape_rel_v(
                    (0int, 0int),
                    sample,
                    power as nat,
                    fx_mul_v(radius, radius),
                    iterations as nat,
                )
            },
            FractalKernel::JuliaSet { c, max_sq, iterations } => escape_rel_v(
                sample,
                c@,
                2,
                max_sq@,
                iterations as nat,
            ),
        }
    }

    /// The escape iteration count of one sample: the first one-based orbit
    /// step outside the escape disk, or `iterations + 1` for a sample whose
    /// orbit never escapes within the cap.
    pub fn iterate(&self, sample: &Complex) -> (r: u32)
        requires
            self.wf(),
        ensures
            r as int == self.value_v(sample@),
            1 <= r <= self.iterations_of() + 1,
    {
        match self {
            FractalKernel::Mandelbrot { iterations, power } => {
                let max = find_escape_radius(sample.norm());
                let max_sq = max.times(max);
                escape_loop(Complex::zero(), *sample, *power, max_sq, *iterations)
            },
            FractalKernel::JuliaSet { c, max_sq, iterations } => escape_loop(
                *sample,
                *c,
                2,
                *max_sq,
                *iterations,
            ),
        }
    }
}

/// The sum of the values of a batch.
pub open spec fn sum_values(s: Seq<u32>) -> int
    decreases s.len(),
{
    if s.len() == 0 {
        0
    } else {
        sum_values(s.drop_last()) + s.last()
    }
}

/// A 64-bit counter grown by a mathematical amount, saturating at the top.
pub open spec fn sat_grow(a: u64, b: int) -> int {
    if a + b > u64::MAX {
        u64::MAX as int
    } else {
        a + b
    }
}

/// The incremental raster scan driver: owns a kernel, a row-major cursor, a
/// bounded output batch and a ghost history of every value emitted so far.
pub struct FractalCalculator {
    /// The kernel mapping samples to escape counts.
    pub kernel: FractalKernel,
    /// The batch filled by the latest call.
    pub res: Points,
    /// Raster column of the next sample.
    pub x_curr: u32,
    /// Raster row of the next sample.
    pub y_curr: u32,
    /// Raster width in pixels.
    pub width: u32,
    /// Raster height in pixels.
    pub height: u32,
    /// Plane units per pixel, componentwise.
    pub scale: Complex,
    /// The plane coordinate of pixel zero.
    pub offset: Complex,
    /// Whether the cursor has moved past the last row.
    pub done: bool,
    /// Every value emitted since construction, batch after batch.
    pub emitted: Ghost<Seq<u32>>,
}

impl FractalCalculator {
    /// How many raster points the whole run covers.
    pub open spec fn total(self) -> int {
        self.width as int * self.height as int
    }

    /// How many raster points have been emitted so far.
    pub open spec fn processed(self) -> int {
        self.y_curr as int * self.width as int + self.x_curr as int
    }

    /// The plane sample of the pixel at column `x`, row `y`.
    pub open spec fn sample_at(self, x: int, y: int) -> (int, int) {
        (
            fx_add_v(fx_mul_v(fx_sat(x * (FX_SCALE as int)), self.scale@.0), self.offset@.0),
            fx_add_v(fx_mul_v(fx_sat(y * (FX_SCALE as int)), self.scale@.1), self.offset@.1),
        )
    }

    /// The escape count of the `i`-th raster point in row-major order.
    pub open spec fn value_at(self, i: int) -> int {
        self.kernel.value_v(self.sample_at(i % self.width as int, i / self.width as int))
    }

    /// The iteration units one batch reports to a statistics sink: the sum
    /// of its values, except that the value computed in the very step that
    /// finishes the raster is not counted.
    pub open spec fn batch_work(self) -> int {
        if self.done {
            sum_values(self.res.batch_seq().drop_last())
        } else {
            sum_values(self.res.batch_seq())
        }
    }

    /// The full single-pass scan: every raster value in row-major order.
    pub open spec fn full_scan(self) -> Seq<u32> {
        Seq::new(self.total() as nat, |i: int| self.value_at(i) as u32)
    }

    /// Well-formed state: a nonempty raster, a kernel with sentinel room, a
    /// cursor inside the raster (or parked just past it when done), a batch
    /// of full capacity, and a history that matches the scan point for
    /// point.
    pub open spec fn wf(self) -> bool {
        &&& self.width >= 1
        &&& self.height >= 1
        &&& self.kernel.wf()
        &&& self.x_curr < self.width
        &&& (if self.done {
            self.x_curr == 0 && self.y_curr == self.height
        } else {
            self.y_curr < self.height
        })
        &&& self.res.values@.len() == MAX_POINTS
        &&& self.res.num_points <= MAX_POINTS
        &&& self.emitted@.len() == self.processed()
        &&& (forall|i: int|
            0 <= i < self.emitted@.len() ==> self.emitted@[i] as int == self.value_at(i))
    }

    /// A done calculator has covered the raster exactly; an unfinished one
    /// has not.
    pub proof fn lemma_done_iff_covered(self)
        requires
            self.wf(),
        ensures
            self.done <==> self.processed() == self.total(),
    {
        if self.done {
            assert(self.processed() == self.total()) by (nonlinear_arith)
                requires
                    self.x_curr == 0,
                    self.y_curr == self.height,
            ;
        } else {
            assert(self.processed() < self.total()) by (nonlinear_arith)
                requires
                    self.x_curr < self.width,
                    self.y_curr < self.height,
            ;
        }
    }

    /// Once the calculator reports done, the concatenation of every batch it
    /// ever produced -- its emitted history -- is exactly the full
    /// single-pass row-major scan of the raster.
    pub proof fn lemma_batches_cover_raster(self)
        requires
            self.wf(),
            self.done,
        ensures
            self.emitted@ =~= self.full_scan(),
    {
        self.lemma_done_iff_covered();
        assert forall|i: int| 0 <= i < self.total() implies self.emitted@[i]
            == self.full_scan()[i] by {
            assert(self.emitted@[i] as int == self.value_at(i));
        }
    }

    /// Build a calculator for the active configuration over a raster of the
    /// given size.  The scan scale divides the viewport span by the raster
    /// size, the offset is the viewport's lower corner, and the cursor
    /// starts at the origin with an empty history.
    pub fn new(config: &Config, canvas_width: u32, canvas_height: u32) -> (r: FractalCalculator)
        requires
            config.wf(),
            canvas_width >= 1,
            canvas_height >= 1,
        ensures
            r.wf(),
            !r.done,
            r.width == canvas_width,
            r.height == canvas_height,
            r.x_curr == 0,
            r.y_curr == 0,
            r.emitted@ =~= Seq::<u32>::empty(),
            (match config.active_config {
                FractalType::Mandelbrot => {
                    &&& r.kernel == (FractalKernel::Mandelbrot {
                        iterations: config.mandelbrot_cfg.max_iterations,
                        power: config.mandelbrot_cfg.power,
                    })
                    &&& r.scale@ == (
                        fx_div_v(
                            fx_sub_v(config.mandelbrot_cfg.c_max@.0, config.mandelbrot_cfg.c_min@.0),
                            fx_sat(canvas_width as int * (FX_SCALE as int)),
                        ),
                        fx_div_v(
                            fx_sub_v(config.mandelbrot_cfg.c_max@.1, config.mandelbrot_cfg.c_min@.1),
                            fx_sat(canvas_height as int * (FX_SCALE as int)),
                        ),
                    )
                    &&& r.offset@ == config.mandelbrot_cfg.c_min@
                },
                FractalType::JuliaSet => {
                    &&& r.kernel matches FractalKernel::JuliaSet { c, max_sq, iterations }
                        && c == config.julia_set_cfg.c && iterations
                        == config.julia_set_cfg.max_iterations && max_sq@ == fx_mul_v(
                        escape_radius_v(fx_sqrt_v(c_sq_len_v(config.julia_set_cfg.c@))),
                        escape_radius_v(fx_sqrt_v(c_sq_len_v(config.julia_set_cfg.c@))),
                    )
                    &&& r.scale@ == (
                        fx_div_v(
                            fx_sub_v(config.julia_set_cfg.x_max@.0, config.julia_set_cfg.x_min@.0),
                            fx_sat(canvas_width as int * (FX_SCALE as int)),
                        ),
                        fx_div_v(
                            fx_sub_v(config.julia_set_cfg.x_max@.1, config.julia_set_cfg.x_min@.1),
                            fx_sat(canvas_height as int * (FX_SCALE as int)),
                        ),
                    )
                    &&& r.offset@ == config.julia_set_cfg.x_min@
                },
            }),
    {
        proof {
            lemma_scaled_dim_positive(canvas_width as int);
            lemma_scaled_dim_positive(canvas_height as int);
        }
        let w_fx = Fixed::from_int_sat(canvas_width as i64);
        let h_fx = Fixed::from_int_sat(canvas_height as i64);
        let (kernel, scale, offset) = match config.active_config {
            FractalType::Mandelbrot => {
                let cfg = &config.mandelbrot_cfg;
                let kernel = FractalKernel::Mandelbrot {
                    iterations: cfg.max_iterations,
                    power: cfg.power,
                };
                let scale = Complex::new(
                    cfg.c_max.real_part().minus(cfg.c_min.real_part()).div_by(w_fx),
                    cfg.c_max.imag_part().minus(cfg.c_min.imag_part()).div_by(h_fx),
                );
                (kernel, scale, cfg.c_min)
            },
            FractalType::JuliaSet => {
                let cfg = &config.julia_set_cfg;
                let max = find_escape_radius(cfg.c.norm());
                let kernel = FractalKernel::JuliaSet {
                    c: cfg.c,
                    max_sq: max.times(max),
                    iterations: cfg.max_iterations,
                };
                let scale = Complex::new(
                    cfg.x_max.real_part().minus(cfg.x_min.real_part()).div_by(w_fx),
                    cfg.x_max.imag_part().minus(cfg.x_min.imag_part()).div_by(h_fx),
                );
                (kernel, scale, cfg.x_min)
            },
        };
        FractalCalculator {
            kernel,
            res: Points::default(),
            x_curr: 0,
            y_curr: 0,
            width: canvas_width,
            height: canvas_height,
            scale,
            offset,
            done: false,
            emitted: Ghost(Seq::empty()),
        }
    }

    /// Whether the whole raster has been covered; after that, `calculate`
    /// must not be called again.
    pub fn is_done(&self) -> (r: bool)
        ensures
            r == self.done,
    {
        self.done
    }

    /// The batch filled by the latest `calculate` call.
    pub fn points(&self) -> (r: &Points)
        ensures
            *r == self.res,
    {
        &self.res
    }

    /// What one `calculate` call promises.  The batch starts at the old
    /// cursor, holds between one and `MAX_POINTS` values, each of which is
    /// the scan value of the next raster point in row-major order; the
    /// history grows by exactly the batch; `done` is set the instant the
    /// cursor moves past the last row; and a clock that never reaches the
    /// time budget never cuts a batch short.
    pub open spec fn calculate_post(
        self,
        pre: FractalCalculator,
        pre_clock: MonotonicClock,
        post_clock: MonotonicClock,
    ) -> bool {
        let n = self.res.num_points as int;
        &&& self.wf()
        &&& self.kernel == pre.kernel
        &&& self.scale == pre.scale
        &&& self.offset == pre.offset
        &&& self.width == pre.width
        &&& self.height == pre.height
        &&& self.res.x_start == pre.x_curr
        &&& self.res.y_start == pre.y_curr
        &&& 1 <= n <= MAX_POINTS as int
        &&& self.processed() == pre.processed() + n
        &&& (forall|i: int|
            0 <= i < n ==> self.res.values@[i] as int == pre.value_at(pre.processed() + i))
        &&& self.emitted@ == pre.emitted@ + self.res.batch_seq()
        &&& (self.done <==> self.processed() == self.total())
        &&& (pre_clock.always_below(MAX_DURATION) ==> n == (if pre.total() - pre.processed()
            <= MAX_POINTS as int {
            pre.total() - pre.processed()
        } else {
            MAX_POINTS as int
        }))
        &&& (pre_clock.always_below(MAX_DURATION) ==> post_clock.always_below(MAX_DURATION))
    }

    /// Fill the next batch of up to `MAX_POINTS` escape counts, resuming
    /// from the stored cursor, stopping early once the time budget is spent,
    /// and setting `done` when the raster is covered.  Returns the iteration
    /// units worked, as reported to a statistics sink.
    fn run_batch(&mut self, clock: &mut MonotonicClock, start: u64) -> (work: u64)
        requires
            old(self).wf(),
            !old(self).done,
        ensures
            final(self).calculate_post(*old(self), *old(clock), *final(clock)),
            work as int == final(self).batch_work(),
    {
        let ghost pre = *old(self);
        let ghost pre_below = old(clock).always_below(MAX_DURATION);
        proof {
            pre.lemma_done_iff_covered();
        }
        self.res.x_start = self.x_curr;
        self.res.y_start = self.y_curr;
        self.res.num_points = 0;
        let mut x = self.x_curr;
        let mut y = self.y_curr;
        let mut count: usize = 0;
        let mut reached_end = false;
        let mut work: u64 = 0;
        let mut last_check: u64 = 0;
        while count < MAX_POINTS
            invariant_except_break
                self.kernel == pre.kernel,
                self.scale == pre.scale,
                self.offset == pre.offset,
                self.width == pre.width,
                self.height == pre.height,
                self.x_curr == pre.x_curr,
                self.y_curr == pre.y_curr,
                self.done == pre.done,
                self.emitted == pre.emitted,
                pre.wf(),
                !pre.done,
                self.res.x_start == pre.x_curr,
                self.res.y_start == pre.y_curr,
                self.res.values@.len() == MAX_POINTS,
                count <= MAX_POINTS,
                x < self.width,
                y < self.height,
                y as int * self.width as int + x as int == pre.processed() + count,
                !reached_end,
                forall|i: int|
                    0 <= i < count ==> self.res.values@[i] as int == pre.value_at(
                        pre.processed() + i,
                    ),
                work == sum_values(self.res.values@.take(count as int)),
                work <= count as int * 0x1_0000_0000,
                last_check <= work,
                pre_below ==> clock.always_below(MAX_DURATION),
            ensures
                self.kernel == pre.kernel,
                self.scale == pre.scale,
                self.offset == pre.offset,
                self.width == pre.width,
                self.height == pre.height,
                self.x_curr == pre.x_curr,
                self.y_curr == pre.y_curr,
                self.done == pre.done,
                self.emitted == pre.emitted,
                self.res.x_start == pre.x_curr,
                self.res.y_start == pre.y_curr,
                self.res.values@.len() == MAX_POINTS,
                1 <= count <= MAX_POINTS,
                x < self.width,
                y <= self.height,
                y as int * self.width as int + x as int == pre.processed() + count,
                reached_end ==> x == 0 && y == self.height,
                !reached_end ==> y < self.height,
                forall|i: int|
                    0 <= i < count ==> self.res.values@[i] as int == pre.value_at(
                        pre.processed() + i,
                    ),
                reached_end ==> work == sum_values(self.res.values@.take(count as int - 1)),
                !reached_end ==> work == sum_values(self.res.values@.take(count as int)),
                pre_below ==> (reached_end || count == MAX_POINTS),
                pre_below ==> clock.always_below(MAX_DURATION),
            decreases MAX_POINTS - count,
        {
            let ghost idx = pre.processed() + count;
            let sample = Complex::new(
                Fixed::from_int_sat(x as i64).times(self.scale.real_part()).plus(
                    self.offset.real_part(),
                ),
                Fixed::from_int_sat(y as i64).times(self.scale.imag_part()).plus(
                    self.offset.imag_part(),
                ),
            );
            proof {
                lemma_fundamental_div_mod_converse(
                    idx,
                    self.width as int,
                    y as int,
                    x as int,
                );
                assert(sample@ == pre.sample_at(x as int, y as int));
            }
            let curr = self.kernel.iterate(&sample);
            let ghost vals0 = self.res.values@;
            self.res.values.set(count, curr);
            count = count + 1;
            proof {
                assert(self.res.values@.take(count as int - 1) =~= vals0.take(count as int - 1));
                assert(self.res.values@.take(count as int).drop_last() =~= self.res.values@.take(
                    count as int - 1,
                ));
                assert(self.res.values@.take(count as int).last() == curr);
                assert(sum_values(self.res.values@.take(count as int)) == sum_values(
                    self.res.values@.take(count as int - 1),
                ) + curr);
            }
            if x < self.width - 1 {
                x = x + 1;
            } else {
                x = 0;
                y = y + 1;
                proof {
                    assert((y as int) * (self.width as int) == (y as int - 1) * (
                    self.width as int) + self.width as int) by (nonlinear_arith);
                }
                if y >= self.height {
                    reached_end = true;
                    break ;
                }
            }
            work = work + curr as u64;
            if work - last_check > CHECK_GRANULARITY {
                last_check = work;
                let now = clock.now_millis();
                if now >= start && now - start >= MAX_DURATION {
                    break ;
                }
            }
        }
        self.res.num_points = count;
        self.x_curr = x;
        self.y_curr = y;
        if reached_end {
            self.done = true;
        }
        proof {
            self.emitted@ = pre.emitted@ + self.res.values@.take(count as int);
        }
        proof {
            if reached_end {
                assert(self.res.batch_seq().drop_last() =~= self.res.values@.take(
                    count as int - 1,
                ));
            }
            assert forall|i: int| 0 <= i < self.emitted@.len() implies self.emitted@[i] as int
                == self.value_at(i) by {
                assert(self.value_at(i) == pre.value_at(i));
                if i < pre.emitted@.len() {
                    assert(pre.emitted@[i] as int == pre.value_at(i));
                } else {
                    let j = i - pre.processed();
                    assert(self.emitted@[i] == self.res.values@.take(count as int)[j]);
                    assert(self.res.values@[j] as int == pre.value_at(pre.processed() + j));
                }
            }
            if !reached_end {
                assert(self.processed() < self.total()) by (nonlinear_arith)
                    requires
                        self.processed() == self.y_curr as int * self.width as int
                            + self.x_curr as int,
                        self.total() == self.width as int * self.height as int,
                        self.x_curr < self.width,
                        self.y_curr < self.height,
                ;
            } else {
                assert(self.processed() == self.total()) by (nonlinear_arith)
                    requires
                        self.processed() == self.y_curr as int * self.width as int
                            + self.x_curr as int,
                        self.total() == self.width as int * self.height as int,
                        self.x_curr == 0,
                        self.y_curr == self.height,
                ;
            }
        }
        work
    }

    /// Compute the next batch of escape counts; resume from the stored
    /// cursor, stop once the batch is full, the time budget is spent, or the
    /// raster is covered.  The batch is then available through `points`.
    pub fn calculate(&mut self, clock: &mut MonotonicClock)
        requires
            old(self).wf(),
            !old(self).done,
        ensures
            final(self).calculate_post(*old(self), *old(clock), *final(clock)),
    {
        let start = clock.now_millis();
        let ghost mid_clock = *clock;
        let _work = self.run_batch(clock, start);
        proof {
            assert(old(clock).always_below(MAX_DURATION) ==> mid_clock.always_below(
                MAX_DURATION,
            ));
        }
    }

    /// As `calculate`, and fold the work done into a statistics accumulator:
    /// the points counter grows by the batch size and the iterations counter
    /// by the units worked, never beyond the counters' range.
    pub fn calculate_with_stats(&mut self, clock: &mut MonotonicClock, stats: &mut Stats)
        requires
            old(self).wf(),
            !old(self).done,
        ensures
            final(self).calculate_post(*old(self), *old(clock), *final(clock)),
            final(stats).points == sat_add_u64(
                old(stats).points,
                final(self).res.num_points as u64,
            ),
            final(stats).iterations as int == sat_grow(
                old(stats).iterations,
                final(self).batch_work(),
            ),
            final(stats).start_time == old(stats).start_time,
    {
        let start = clock.now_millis();
        let ghost mid_clock = *clock;
        let work = self.run_batch(clock, start);
        let end = clock.now_millis();
        stats.update(work, self.res.num_points as u64, start, end);
        proof {
            assert(old(clock).always_below(MAX_DURATION) ==> mid_clock.always_below(
                MAX_DURATION,
            ));
        }
    }
}

/// A raster dimension of at least one pixel scales to a positive raw value.
proof fn lemma_scaled_dim_positive(d: int)
    requires
        d >= 1,
    ensures
        fx_sat(d * (FX_SCALE as int)) > 0,
{
    assert(d * (FX_SCALE as int) >= FX_SCALE as int) by (nonlinear_arith)
        requires
            d >= 1,
    ;
}

} // verus!
