use cachebench::bench;
use cachebench::clock::CycleCounter;
use cachebench::rng::Rng;

#[test]
fn buffer_length_matches_descriptor() {
    let mut rng = Rng::from_seed(7);
    let data = bench::generate_data(&mut rng, 1000);
    assert_eq!(data.len(), 1000);
    let empty = bench::generate_data(&mut rng, 0);
    assert_eq!(empty.len(), 0);
}

#[test]
fn buffer_holds_generator_outputs_in_order() {
    let mut rng = Rng::from_seed(7);
    let data = bench::generate_data(&mut rng, 5);
    let mut check = Rng::from_seed(7);
    for i in 0..5 {
        assert_eq!(data[i], check.next());
    }
    // The generator state moved on with the fill: the next draw continues
    // the sequence rather than repeating it.
    assert_eq!(rng.next(), check.next());
}

#[test]
fn oracle_scenario_small_buffer() {
    let data: Vec<u64> = vec![10, 20, 30, 40];
    let value = bench::sum_elements(&data);
    assert_eq!(value, 100);
    // Every repetition re-sums to the same oracle value.
    for _ in 0..3 {
        assert_eq!(bench::sum_elements(&data), 100);
    }
    let counter = CycleCounter::new();
    let best = bench::run_case(&counter, &data, 3);
    // After at least one repetition on a real clock the best is a genuine
    // measurement, strictly below the initial u64::MAX.
    assert!(best < u64::MAX);
}

#[test]
fn sum_wraps_silently() {
    assert_eq!(bench::sum_elements(&vec![u64::MAX, 1]), 0);
    assert_eq!(bench::sum_elements(&vec![u64::MAX, u64::MAX]), u64::MAX - 1);
    assert_eq!(bench::sum_elements(&vec![]), 0);
}

#[test]
fn best_update_keeps_minimum() {
    assert_eq!(bench::update_best(10, 5), 5);
    assert_eq!(bench::update_best(5, 10), 5);
    assert_eq!(bench::update_best(5, 5), 5);
    assert_eq!(bench::update_best(u64::MAX, 0), 0);
    // An elapsed count of u64::MAX can never win against the initial best.
    assert_eq!(bench::update_best(u64::MAX, u64::MAX), u64::MAX);
    // Monotonically non-increasing across a run of updates.
    let samples = [400_u64, 200, 300, 100, 500];
    let mut best = u64::MAX;
    for s in samples {
        let next = bench::update_best(best, s);
        assert!(next <= best);
        best = next;
    }
    assert_eq!(best, 100);
}

#[test]
fn zero_repetitions_leave_best_at_max() {
    let counter = CycleCounter::new();
    let data: Vec<u64> = vec![1, 2, 3];
    assert_eq!(bench::run_case(&counter, &data, 0), u64::MAX);
}

#[test]
fn descriptor_table_is_fixed() {
    let descs = bench::descriptors();
    assert_eq!(descs.len(), 4);
    assert_eq!(descs[0].data_len, (32768 - 1024) / 8);
    assert_eq!(descs[1].data_len, (1048576 - 1024) / 8);
    assert_eq!(descs[2].data_len, (17301504 - 1024) / 8);
    assert_eq!(descs[3].data_len, ((17301504 - 1024) / 8) * 8);
    assert_eq!(descs[0].iters, 0xfffff);
    assert_eq!(descs[1].iters, 0xffff);
    assert_eq!(descs[2].iters, 0xfff);
    assert_eq!(descs[3].iters, 0xff);
}

#[test]
fn cycle_counter_weakly_increases() {
    let counter = CycleCounter::new();
    let a = counter.read();
    let b = counter.read();
    assert!(a <= b);
}
