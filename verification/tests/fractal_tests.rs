use fractal_engine::{
    find_escape_radius, CommandRequest, Complex, Config, ControlMsgRequest, Fixed,
    FractalCalculator, FractalKernel, FractalType, MonotonicClock, Stats,
};

fn quiet_clock() -> MonotonicClock {
    MonotonicClock::manual(vec![0])
}

#[test]
fn mandelbrot_origin_never_escapes() {
    for cap in [10u32, 100, 400] {
        let kernel = FractalKernel::Mandelbrot { iterations: cap, power: 2 };
        let origin = Complex::new(Fixed::from_int(0), Fixed::from_int(0));
        assert_eq!(kernel.iterate(&origin), cap + 1);
    }
}

#[test]
fn mandelbrot_far_sample_escapes_immediately() {
    let kernel = FractalKernel::Mandelbrot { iterations: 400, power: 2 };
    let far = Complex::new(Fixed::from_int(10), Fixed::from_int(10));
    assert_eq!(kernel.iterate(&far), 1);
}

fn julia_kernel(iterations: u32) -> FractalKernel {
    let c = Complex::new(Fixed::from_ratio(-4, 5), Fixed::from_ratio(39, 250));
    let max = find_escape_radius(c.norm());
    FractalKernel::JuliaSet { c, max_sq: max.times(max), iterations }
}

#[test]
fn julia_origin_stays_bounded() {
    // The orbit of the origin under this bounded parameter survives well
    // past a hundred steps in this arithmetic.
    let kernel = julia_kernel(100);
    let origin = Complex::new(Fixed::from_int(0), Fixed::from_int(0));
    assert_eq!(kernel.iterate(&origin), 101);
}

#[test]
fn julia_far_sample_escapes_immediately() {
    let kernel = julia_kernel(400);
    let far = Complex::new(Fixed::from_int(2), Fixed::from_int(2));
    assert_eq!(kernel.iterate(&far), 1);
}

#[test]
fn single_call_covers_a_small_raster() {
    // An 8 by 8 Mandelbrot raster over the standard viewport with a cap of
    // 50 fits into one batch when the clock never reaches the budget.
    let mut config = Config::std_cfg();
    config.mandelbrot_cfg.max_iterations = 50;
    let mut calc = FractalCalculator::new(&config, 8, 8);
    let mut clock = quiet_clock();
    assert!(!calc.is_done());
    calc.calculate(&mut clock);
    let points = calc.points();
    assert_eq!(points.num_points, 64);
    assert_eq!(points.x_start, 0);
    assert_eq!(points.y_start, 0);
    assert!(calc.is_done());
    // The origin pixel maps to the viewport's lower-left corner, far left
    // of the set: it escapes quickly.
    assert!(points.values[0] >= 1 && points.values[0] <= 50);
}

#[test]
fn batches_concatenate_to_the_single_pass() {
    // A clock that alternates between zero and a reading past the budget
    // forces many short batches; their concatenation must equal the single
    // unbounded pass over the same kernel and parameters.
    let mut config = Config::std_cfg();
    config.active_config = FractalType::JuliaSet;
    config.julia_set_cfg.max_iterations = 30;
    let width = 16u32;
    let height = 16u32;

    let mut sliced = FractalCalculator::new(&config, width, height);
    let mut readings: Vec<u64> = Vec::new();
    for _ in 0..2000 {
        readings.push(0);
        readings.push(500);
    }
    let mut choppy_clock = MonotonicClock::manual(readings);
    let mut gathered: Vec<u32> = Vec::new();
    let mut calls = 0usize;
    while !sliced.is_done() {
        calls += 1;
        assert!(calls <= (width * height) as usize, "no forward progress");
        let expected_x = gathered.len() as u32 % width;
        let expected_y = gathered.len() as u32 / width;
        sliced.calculate(&mut choppy_clock);
        let batch = sliced.points();
        assert_eq!(batch.x_start, expected_x);
        assert_eq!(batch.y_start, expected_y);
        assert!(batch.num_points >= 1);
        gathered.extend_from_slice(&batch.values[..batch.num_points]);
    }
    assert_eq!(gathered.len(), (width * height) as usize);

    let mut whole = FractalCalculator::new(&config, width, height);
    let mut patient_clock = quiet_clock();
    whole.calculate(&mut patient_clock);
    let full = whole.points();
    assert!(whole.is_done());
    assert_eq!(full.num_points, (width * height) as usize);
    assert_eq!(&gathered[..], &full.values[..full.num_points]);
}

#[test]
fn time_slicing_cuts_batches_short() {
    let mut config = Config::std_cfg();
    config.mandelbrot_cfg.max_iterations = 400;
    let mut calc = FractalCalculator::new(&config, 64, 64);
    // First reading starts the call at zero; the next look at the clock
    // already reports a reading past the budget.
    let mut clock = MonotonicClock::manual(vec![0, 500, 500, 500]);
    calc.calculate(&mut clock);
    let points = calc.points();
    assert!(points.num_points >= 1);
    assert!(points.num_points < (64 * 64) as usize);
    assert!(!calc.is_done());
}

#[test]
fn stats_follow_the_calculator() {
    let mut config = Config::std_cfg();
    config.mandelbrot_cfg.max_iterations = 50;
    let mut calc = FractalCalculator::new(&config, 8, 8);
    let mut clock = MonotonicClock::manual(vec![0, 10]);
    let mut stats = Stats::new(0);
    calc.calculate_with_stats(&mut clock, &mut stats);
    assert_eq!(stats.points, 64);
    assert!(stats.iterations >= 63);
    assert_eq!(stats.time_in_fractal, 10);
    assert_eq!(stats.total_time, 10);
}

#[test]
fn manual_clock_replays_its_script() {
    let mut clock = MonotonicClock::manual(vec![5, 7]);
    assert_eq!(clock.now_millis(), 5);
    assert_eq!(clock.now_millis(), 7);
    assert_eq!(clock.now_millis(), 7);
    let mut empty = MonotonicClock::manual(Vec::new());
    assert_eq!(empty.now_millis(), 0);
}

#[test]
fn system_clock_reports_small_elapsed_time() {
    let mut clock = MonotonicClock::system();
    let t = clock.now_millis();
    // A freshly created system clock has seen almost no time pass.
    assert!(t < 1000);
}

#[test]
fn message_enums_carry_their_payloads() {
    let cmd = CommandRequest::Start;
    assert_eq!(cmd.clone(), CommandRequest::Start);
    let msg = ControlMsgRequest::CanvasSelectMsg(1, 2, 3, 4);
    assert!(matches!(msg, ControlMsgRequest::CanvasSelectMsg(1, 2, 3, 4)));
    let progress = ControlMsgRequest::FractalProgress(String::from("ok"));
    assert!(matches!(progress, ControlMsgRequest::FractalProgress(ref s) if s == "ok"));
}

#[test]
fn canvas_height_keeps_aspect_ratio() {
    let config = Config::std_cfg();
    // The default Mandelbrot viewport is 2.47 wide and 2.24 tall.
    assert_eq!(config.get_canvas_height(1024), 928);
}
