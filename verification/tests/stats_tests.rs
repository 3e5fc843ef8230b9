use fractal_engine::Stats;

#[test]
fn test_format_time() {
    assert_eq!(Stats::format_time(3600000).as_str(), "1:00:00");
    assert_eq!(Stats::format_time(3665000).as_str(), "1:01:05");
}

#[test]
fn format_time_pads_minutes_and_seconds() {
    assert_eq!(Stats::format_time(0).as_str(), "0:00:00");
    assert_eq!(Stats::format_time(61000).as_str(), "0:01:01");
    assert_eq!(Stats::format_time(35999999).as_str(), "9:59:59");
    assert_eq!(Stats::format_time(36000000).as_str(), "10:00:00");
}

#[test]
fn update_accumulates_counters() {
    let mut stats = Stats::new(100);
    stats.update(500, 64, 100, 200);
    assert_eq!(stats.iterations, 500);
    assert_eq!(stats.points, 64);
    assert_eq!(stats.time_in_fractal, 100);
    assert_eq!(stats.total_time, 100);
    stats.update(250, 32, 250, 300);
    assert_eq!(stats.iterations, 750);
    assert_eq!(stats.points, 96);
    assert_eq!(stats.time_in_fractal, 150);
    assert_eq!(stats.total_time, 200);
}

#[test]
fn update_saturates_instead_of_wrapping() {
    let mut stats = Stats::new(0);
    stats.update(u64::MAX, 1, 0, 1);
    stats.update(1, 1, 1, 2);
    assert_eq!(stats.iterations, u64::MAX);
    assert_eq!(stats.points, 2);
}

#[test]
fn format_stats_reports_all_counters() {
    let mut stats = Stats::new(0);
    stats.update(500, 64, 0, 100);
    let report = stats.format_stats();
    assert_eq!(
        report.as_str(),
        "Iterations: 500\nPoints:     64\nTime Calc:  0:00:00\nTot. Time:  0:00:00\nIter/Sec:   5000\nPoints/Sec: 640\n"
    );
}
