//! Throughput counters fed by the calculator.
//!
//! A `Stats` value accumulates how many iteration units and points have been
//! produced and how much wall-clock time was spent, against timestamps the
//! caller reads from its clock.  Accumulation saturates instead of wrapping,
//! and the report strings are specified character by character.

use vstd::prelude::*;

verus! {

/// Saturating 64-bit sum.
pub open spec fn sat_add_u64(a: u64, b: u64) -> u64 {
    if a + b > u64::MAX {
        u64::MAX
    } else {
        (a + b) as u64
    }
}

/// The span from `start` to `now`, zero when the clock ran backwards.
pub open spec fn span_millis(start: u64, now: u64) -> u64 {
    if now >= start {
        (now - start) as u64
    } else {
        0
    }
}

/// The character for a single decimal digit.
pub open spec fn digit_char(d: nat) -> char {
    if d == 0 {
        '0'
    } else if d == 1 {
        '1'
    } else if d == 2 {
        '2'
    } else if d == 3 {
        '3'
    } else if d == 4 {
        '4'
    } else if d == 5 {
        '5'
    } else if d == 6 {
        '6'
    } else if d == 7 {
        '7'
    } else if d == 8 {
        '8'
    } else {
        '9'
    }
}

/// The decimal digit string of `n`, most significant digit first.
pub open spec fn dec_str(n: nat) -> Seq<char>
    decreases n,
{
    if n < 10 {
        seq![digit_char(n)]
    } else {
        dec_str(n / 10).push(digit_char(n % 10))
    }
}

/// The decimal digit string of `n`, left-padded with a zero to two places.
pub open spec fn pad2_str(n: nat) -> Seq<char> {
    if n < 10 {
        seq!['0'] + dec_str(n)
    } else {
        dec_str(n)
    }
}

/// The clock display `h:mm:ss` for a span of `ms` milliseconds.
pub open spec fn format_time_v(ms: u64) -> Seq<char> {
    dec_str(ms as nat / 3600000) + seq![':'] + pad2_str((ms as nat % 3600000) / 60000) + seq![':']
        + pad2_str((ms as nat % 60000) / 1000)
}

/// An integer rate per second: `count * 1000 / ms`, zero for an empty span,
/// clamped into 64 bits.
pub open spec fn rate_per_sec(count: u64, ms: u64) -> u64 {
    if ms == 0 {
        0
    } else if (count as int) * 1000 / (ms as int) > u64::MAX {
        u64::MAX
    } else {
        ((count as int) * 1000 / (ms as int)) as u64
    }
}

/// The single-digit decimal string.
pub fn digit_str(d: u64) -> (r: &'static str)
    requires
        d < 10,
    ensures
        r@ == seq![digit_char(d as nat)],
{
    proof {
        reveal_strlit("0");
        reveal_strlit("1");
        reveal_strlit("2");
        reveal_strlit("3");
        reveal_strlit("4");
        reveal_strlit("5");
        reveal_strlit("6");
        reveal_strlit("7");
        reveal_strlit("8");
        reveal_strlit("9");
    }
    match d {
        0 => "0",
        1 => "1",
        2 => "2",
        3 => "3",
        4 => "4",
        5 => "5",
        6 => "6",
        7 => "7",
        8 => "8",
        _ => "9",
    }
}

/// Append the decimal digits of `n` to `s`.
fn push_decimal(s: &mut String, n: u64)
    ensures
        final(s)@ == old(s)@ + dec_str(n as nat),
    decreases n,
{
    if n >= 10 {
        push_decimal(s, n / 10);
    }
    s.append(digit_str(n % 10));
}

/// Append the decimal digits of `n`, zero-padded to two places.
fn push_decimal_pad2(s: &mut String, n: u64)
    ensures
        final(s)@ == old(s)@ + pad2_str(n as nat),
{
    if n < 10 {
        proof {
            reveal_strlit("0");
        }
        s.append("0");
    }
    push_decimal(s, n);
}

/// Throughput counters over one calculator's lifetime.
pub struct Stats {
    /// Reading of the caller's clock when the accumulator was created.
    pub start_time: u64,
    /// Span from creation to the latest update, in milliseconds.
    pub total_time: u64,
    /// Summed spans spent inside the calculator, in milliseconds.
    pub time_in_fractal: u64,
    /// Iteration units worked so far.
    pub iterations: u64,
    /// Points produced so far.
    pub points: u64,
}

impl Stats {
    /// A fresh accumulator; `now` is the caller's current clock reading.
    pub fn new(now: u64) -> (s: Stats)
        ensures
            s.start_time == now,
            s.total_time == 0,
            s.time_in_fractal == 0,
            s.iterations == 0,
            s.points == 0,
    {
        Stats { start_time: now, total_time: 0, time_in_fractal: 0, iterations: 0, points: 0 }
    }

    /// Fold one calculator call into the counters: `start_time` and `now`
    /// bracket the call on the caller's clock.
    pub fn update(&mut self, iterations: u64, points: u64, start_time: u64, now: u64)
        ensures
            final(self).iterations == sat_add_u64(old(self).iterations, iterations),
            final(self).points == sat_add_u64(old(self).points, points),
            final(self).time_in_fractal == sat_add_u64(
                old(self).time_in_fractal,
                span_millis(start_time, now),
            ),
            final(self).total_time == span_millis(old(self).start_time, now),
            final(self).start_time == old(self).start_time,
    {
        self.iterations = self.iterations.saturating_add(iterations);
        self.points = self.points.saturating_add(points);
        let spent: u64 = if now >= start_time {
            now - start_time
        } else {
            0
        };
        self.time_in_fractal = self.time_in_fractal.saturating_add(spent);
        self.total_time = if now >= self.start_time {
            now - self.start_time
        } else {
            0
        };
    }

    /// The clock display `h:mm:ss` for a span of `ms` milliseconds.
    pub fn format_time(ms: u64) -> (r: String)
        ensures
            r@ == format_time_v(ms),
    {
        proof {
            reveal_strlit(":");
        }
        let mut s = String::new();
        push_decimal(&mut s, ms / 3600000);
        s.append(":");
        push_decimal_pad2(&mut s, (ms % 3600000) / 60000);
        s.append(":");
        push_decimal_pad2(&mut s, (ms % 60000) / 1000);
        s
    }

    /// A human-readable report of the counters: totals, the two time spans,
    /// and integer per-second rates over the time spent calculating.
    pub fn format_stats(&self) -> (r: String)
        ensures
            r@ == seq_format_stats(self),
    {
        proof {
            reveal_strlit("Iterations: ");
            reveal_strlit("\nPoints:     ");
            reveal_strlit("\nTime Calc:  ");
            reveal_strlit("\nTot. Time:  ");
            reveal_strlit("\nIter/Sec:   ");
            reveal_strlit("\nPoints/Sec: ");
            reveal_strlit("\n");
        }
        let mut s = String::new();
        s.append("Iterations: ");
        push_decimal(&mut s, self.iterations);
        s.append("\nPoints:     ");
        push_decimal(&mut s, self.points);
        s.append("\nTime Calc:  ");
        let t1 = Stats::format_time(self.time_in_fractal);
        s.append(t1.as_str());
        s.append("\nTot. Time:  ");
        let t2 = Stats::format_time(self.total_time);
        s.append(t2.as_str());
        s.append("\nIter/Sec:   ");
        push_decimal(&mut s, Stats::rate(self.iterations, self.time_in_fractal));
        s.append("\nPoints/Sec: ");
        push_decimal(&mut s, Stats::rate(self.points, self.time_in_fractal));
        s.append("\n");
        s
    }

    /// The integer per-second rate of `count` events over `ms` milliseconds.
    pub fn rate(count: u64, ms: u64) -> (r: u64)
        ensures
            r == rate_per_sec(count, ms),
    {
        if ms == 0 {
            0
        } else {
            let wide = (count as u128) * 1000 / (ms as u128);
            if wide > u64::MAX as u128 {
                u64::MAX
            } else {
                wide as u64
            }
        }
    }
}

/// The exact character sequence `format_stats` produces.
pub open spec fn seq_format_stats(s: &Stats) -> Seq<char> {
    "Iterations: "@ + dec_str(s.iterations as nat) + "\nPoints:     "@ + dec_str(s.points as nat)
        + "\nTime Calc:  "@ + format_time_v(s.time_in_fractal) + "\nTot. Time:  "@ + format_time_v(
        s.total_time,
    ) + "\nIter/Sec:   "@ + dec_str(rate_per_sec(s.iterations, s.time_in_fractal) as nat)
        + "\nPoints/Sec: "@ + dec_str(rate_per_sec(s.points, s.time_in_fractal) as nat) + "\n"@
}

} // verus!
