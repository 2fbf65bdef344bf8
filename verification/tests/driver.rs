use lanebench::driver::{Driver, Phase};
use lanebench::lanes::f32x4_to_vec;
use lanebench::pattern::build_vec;
use lanebench::{BenchError, BmarkConfig, KernelType};

fn plus(x: u32, y: u32) -> u32 {
    (f32::from_bits(x) + f32::from_bits(y)).to_bits()
}

fn plus4(x: [u32; 4], y: [u32; 4]) -> [u32; 4] {
    [plus(x[0], y[0]), plus(x[1], y[1]), plus(x[2], y[2]), plus(x[3], y[3])]
}

fn config(dim: usize, accel: &str, iters: usize) -> BmarkConfig {
    let cfg = BmarkConfig::new(dim, accel.to_string(), iters);
    assert!(cfg.is_runnable());
    cfg
}

#[test]
fn a_run_of_three_iterations_gives_three_lines_and_a_summary() {
    let mut driver = Driver::new();
    assert_eq!(driver.phase(), Phase::Configuring);
    assert_eq!(driver.configure(&config(64, "none", 3)), Ok(Phase::Preparing));
    assert_eq!(driver.prepare(), Ok(Phase::Running));

    let samples: [u64; 3] = [11, 29, 21];
    let mut lines: Vec<String> = Vec::new();
    let mut calls = 0;
    while driver.phase() == Phase::Running {
        let c = driver.invoke(plus, plus4).unwrap();
        assert_eq!(c.len(), 64 * 64);
        lines.push(driver.record(samples[calls]).unwrap());
        calls += 1;
    }
    assert_eq!(calls, 3);
    assert_eq!(lines, vec!["Iter:0 time 11 us", "Iter:1 time 29 us", "Iter:2 time 21 us"]);
    assert_eq!(driver.phase(), Phase::Aggregating);
    assert_eq!(driver.total(), 61);
    assert_eq!(driver.summary().unwrap(), "Total:61 us, Avg: 20 us");
    assert_eq!(driver.phase(), Phase::Done);
}

#[test]
fn a_lane_run_doubles_the_pattern() {
    let mut driver = Driver::new();
    assert_eq!(driver.configure(&config(8, "lanes4", 1)), Ok(Phase::Preparing));
    assert_eq!(driver.prepare(), Ok(Phase::Running));
    {
        let (a, b) = driver.operands();
        assert_eq!(a.len(), 16);
        assert_eq!(a, b);
        match a {
            KernelType::F32x4Vec(lanes) => assert_eq!(f32x4_to_vec(lanes), build_vec(8)),
            KernelType::F32Vec(_) => panic!("a lane run has operands in lane form"),
        }
    }
    let out = driver.invoke(plus, plus4).unwrap();
    let values: Vec<f32> = match out {
        KernelType::F32x4Vec(lanes) => f32x4_to_vec(&lanes).iter().map(|b| f32::from_bits(*b)).collect(),
        KernelType::F32Vec(_) => panic!("a lane run answers in lane form"),
    };
    let expected: Vec<f32> = (0..64).map(|k| (2 * k) as f32).collect();
    assert_eq!(values, expected);
    assert_eq!(driver.record(4).unwrap(), "Iter:0 time 4 us");
    assert_eq!(driver.summary().unwrap(), "Total:4 us, Avg: 4 us");
}

#[test]
fn a_scalar_run_has_operands_in_scalar_form() {
    let mut driver = Driver::new();
    driver.configure(&config(5, "none", 2)).unwrap();
    assert_eq!(driver.prepare(), Ok(Phase::Running));
    let (a, b) = driver.operands();
    assert_eq!(a, &KernelType::F32Vec(build_vec(5)));
    assert_eq!(b, &KernelType::F32Vec(build_vec(5)));
    let out = driver.invoke(plus, plus4).unwrap();
    let doubled: Vec<u32> = (0..25).map(|k| ((2 * k) as f32).to_bits()).collect();
    assert_eq!(out, KernelType::F32Vec(doubled));
}

#[test]
fn an_unknown_mode_ends_the_run_before_any_line() {
    let mut driver = Driver::new();
    assert_eq!(driver.configure(&config(64, "cubic", 3)), Err(BenchError::UnsupportedAccelMode));
    assert_eq!(driver.phase(), Phase::Done);
    assert_eq!(driver.prepare(), Ok(Phase::Done));
    assert!(driver.invoke(plus, plus4).is_none());
    assert_eq!(driver.record(5), None);
    assert_eq!(driver.summary(), None);
    assert_eq!(driver.total(), 0);
}

#[test]
fn a_pattern_that_cannot_be_packed_ends_the_run_before_running() {
    let mut driver = Driver::new();
    assert_eq!(driver.configure(&config(5, "lanes4", 3)), Ok(Phase::Preparing));
    assert_eq!(driver.prepare(), Err(BenchError::ShapeError));
    assert_eq!(driver.phase(), Phase::Done);
    assert!(driver.invoke(plus, plus4).is_none());
    assert_eq!(driver.record(5), None);
    assert_eq!(driver.summary(), None);
}

#[test]
fn an_unknown_mode_is_reported_before_the_shape() {
    let mut driver = Driver::new();
    assert_eq!(driver.configure(&config(5, "lanes8", 3)), Err(BenchError::UnsupportedAccelMode));
    assert_eq!(driver.phase(), Phase::Done);
}

#[test]
fn the_shape_is_checked_on_the_length_not_on_the_dimension() {
    // 6 is no multiple of four, 36 is.
    let mut driver = Driver::new();
    driver.configure(&config(6, "lanes4", 1)).unwrap();
    assert_eq!(driver.prepare(), Ok(Phase::Running));
    assert_eq!(driver.operands().0.len(), 9);
    // Scalar runs are never packed, so any dimension will do.
    let mut driver = Driver::new();
    driver.configure(&config(7, "none", 1)).unwrap();
    assert_eq!(driver.prepare(), Ok(Phase::Running));
}

#[test]
fn each_phase_accepts_its_own_operation_only() {
    let mut driver = Driver::new();
    assert_eq!(driver.prepare(), Ok(Phase::Configuring));
    assert!(driver.invoke(plus, plus4).is_none());
    assert_eq!(driver.record(1), None);
    assert_eq!(driver.summary(), None);
    assert_eq!(driver.phase(), Phase::Configuring);

    assert_eq!(driver.configure(&config(2, "none", 2)), Ok(Phase::Preparing));
    assert_eq!(driver.configure(&config(4, "lanes4", 9)), Ok(Phase::Preparing));
    assert!(driver.invoke(plus, plus4).is_none());
    assert_eq!(driver.record(1), None);
    assert_eq!(driver.summary(), None);

    assert_eq!(driver.prepare(), Ok(Phase::Running));
    assert_eq!(driver.operands().0.len(), 4);
    assert_eq!(driver.prepare(), Ok(Phase::Running));
    assert_eq!(driver.configure(&config(4, "lanes4", 9)), Ok(Phase::Running));
    assert_eq!(driver.summary(), None);

    assert_eq!(driver.record(3).unwrap(), "Iter:0 time 3 us");
    assert_eq!(driver.phase(), Phase::Running);
    assert_eq!(driver.record(4).unwrap(), "Iter:1 time 4 us");
    assert_eq!(driver.phase(), Phase::Aggregating);
    assert_eq!(driver.record(5), None);
    assert!(driver.invoke(plus, plus4).is_none());
    assert_eq!(driver.total(), 7);

    assert_eq!(driver.summary().unwrap(), "Total:7 us, Avg: 3 us");
    assert_eq!(driver.phase(), Phase::Done);
    assert_eq!(driver.summary(), None);
    assert_eq!(driver.record(5), None);
    assert_eq!(driver.prepare(), Ok(Phase::Done));
    assert_eq!(driver.configure(&config(2, "none", 2)), Ok(Phase::Done));
    assert_eq!(driver.total(), 7);
}

#[test]
fn invoking_leaves_the_operands_as_they_were() {
    let mut driver = Driver::new();
    driver.configure(&config(4, "lanes4", 3)).unwrap();
    driver.prepare().unwrap();
    let before = (driver.operands().0.clone(), driver.operands().1.clone());
    for i in 0..3 {
        let first = driver.invoke(plus, plus4).unwrap();
        let second = driver.invoke(plus, plus4).unwrap();
        assert_eq!(first, second);
        assert_eq!(driver.operands().0, &before.0);
        assert_eq!(driver.operands().1, &before.1);
        driver.record(i).unwrap();
    }
    assert_eq!(driver.phase(), Phase::Aggregating);
    assert_eq!(driver.operands().0, &before.0);
    assert_eq!(driver.operands().1, &before.1);
}

#[test]
fn the_average_is_rounded_down() {
    let mut driver = Driver::new();
    driver.configure(&config(0, "none", 4)).unwrap();
    driver.prepare().unwrap();
    for micros in [1u64, 2, 3, 5] {
        driver.record(micros).unwrap();
    }
    assert_eq!(driver.summary().unwrap(), "Total:11 us, Avg: 2 us");
}

#[test]
fn long_durations_add_up_without_wrapping() {
    let mut driver = Driver::new();
    driver.configure(&config(2, "none", 3)).unwrap();
    driver.prepare().unwrap();
    for _ in 0..3 {
        driver.record(u64::MAX).unwrap();
    }
    let total = 3 * (u64::MAX as u128);
    assert_eq!(driver.total(), total);
    assert_eq!(driver.summary().unwrap(), format!("Total:{} us, Avg: {} us", total, u64::MAX));
}

#[test]
fn a_timed_run_reports_what_the_clock_gave() {
    let mut driver = Driver::new();
    driver.configure(&config(64, "lanes4", 5)).unwrap();
    driver.prepare().unwrap();
    let mut taken: Vec<u64> = Vec::new();
    let mut lines: Vec<String> = Vec::new();
    while driver.phase() == Phase::Running {
        let start = std::time::Instant::now();
        let out = driver.invoke(plus, plus4).unwrap();
        let micros = u64::try_from(start.elapsed().as_micros()).unwrap();
        assert_eq!(out.len(), 64 * 64 / 4);
        taken.push(micros);
        lines.push(driver.record(micros).unwrap());
    }
    assert_eq!(lines.len(), 5);
    for (i, line) in lines.iter().enumerate() {
        assert_eq!(line, &format!("Iter:{} time {} us", i, taken[i]));
    }
    let total: u128 = taken.iter().map(|t| *t as u128).sum();
    assert_eq!(driver.total(), total);
    assert_eq!(driver.summary().unwrap(), format!("Total:{} us, Avg: {} us", total, total / 5));
    assert_eq!(driver.phase(), Phase::Done);
}
