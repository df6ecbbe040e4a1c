//! Rates, ratios, the load-average fixed point, and processor accounting.

use malachite::loadavg::{calc_load, get_avenrun, load_frac, load_int, LoadAvg, EXP_1, FIXED_1};
use malachite::processor::{Processor, ProcessorInfo, ProcessorSchedStatData};
use malachite::rate::{counter_delta, counter_rate, frac_permillion, ratio_per_billion,
    ratio_percent, ratio_permyriad};
use malachite::timeutil::get_secs_since_epoch;

#[test]
fn test_processor_info() {
    let mut info = ProcessorInfo::default();
    let p = &ProcessorInfo {
        user: 51412878,
        nice: 1465,
        system: 43481807,
        idle: 4013677223,
        iowait: 8308571,
        irq: 0,
        softirq: 2255670,
        steal: 3344491,
        guest: 1,
        guest_nice: 2,
    };
    info.set(p);
    assert_eq!(info.work_time(), 100496311);
    assert_eq!(info.total_time(), 4122482105);
}

#[test]
fn test_processor_sched_stat() {
    let mut instance = ProcessorSchedStatData::default();
    let now = get_secs_since_epoch();
    instance.update(264000, now);
    assert_eq!(instance.sched_wait_data, 264000);
}

#[test]
fn test_counter_delta_exact_and_wrapped() {
    // rising counter: the rate is exactly the difference over the interval
    assert_eq!(counter_delta(100, 350), 250);
    assert_eq!(counter_rate(100, 350, 10), 25);
    // wrapped counter: the delta goes through the counter's maximum
    assert_eq!(counter_delta(u64::MAX - 5, 10), 15);
    assert_eq!(counter_rate(u64::MAX - 5, 10, 5), 3);
    // no elapsed time: a defined zero, not a division by zero
    assert_eq!(counter_rate(5, 500, 0), 0);
}

#[test]
fn test_ratio_clamping() {
    assert_eq!(ratio_percent(50, 200), 25);
    // raw arithmetic would exceed 100; the output is clamped
    assert_eq!(ratio_percent(300, 200), 100);
    assert_eq!(ratio_percent(5, 0), 0);
    assert_eq!(ratio_permyriad(1, 3), 3333);
    assert_eq!(ratio_permyriad(7, 3), 10000);
    assert_eq!(ratio_per_billion(46059890, 474627530725), 97044);
    assert_eq!(frac_permillion(3, 2), 1500000);
}

#[test]
fn test_calc_load_kernel_constants() {
    // one decay step from zero toward one runnable task
    let one = calc_load(0, EXP_1, FIXED_1);
    assert_eq!(one, (0 * EXP_1 + FIXED_1 * (FIXED_1 - EXP_1) + FIXED_1 - 1) / FIXED_1);
    assert_eq!(get_avenrun(one, FIXED_1 / 200, 0), one + 10);
    assert_eq!(load_int(2048), 1);
    assert_eq!(load_frac(1024), 50);
}

#[test]
fn test_load_avg_read_text() {
    let mut load = LoadAvg::new();
    load.read_load_avg("1.29 1.24 1.17 2/1455 27921");
    assert_eq!(load.one as f64 / 100.0, 1.29);
    assert_eq!(load.five as f64 / 100.0, 1.24);
    assert_eq!(load.fifteen as f64 / 100.0, 1.17);
    // the accumulators are a separate data path and stay untouched
    assert_eq!(load.operator.one, 0);
}

#[test]
fn test_load_avg_calc_path() {
    let mut load = LoadAvg::new();
    load.calc_load(2);
    assert_eq!(load.operator.one, calc_load(0, EXP_1, 2 * FIXED_1));
    let shown = get_avenrun(load.operator.one, FIXED_1 / 200, 0);
    assert_eq!(load.one, load_int(shown) * 100 + load_frac(shown));
}

#[test]
fn test_processor_usage_ratio_first_sample() {
    let mut p = Processor::new(String::from("7"));
    let info = ProcessorInfo {
        user: 600,
        nice: 0,
        system: 200,
        idle: 150,
        iowait: 50,
        irq: 0,
        softirq: 0,
        steal: 0,
        guest: 0,
        guest_nice: 0,
    };
    p.update_processor_info(&info);
    // work = 800 of total 1000: 80%, in hundredths of a percent
    assert_eq!(p.get_cpu_usage(), 8000);
    assert_eq!(p.get_cpu_sys_usage(), 2000);
    // iowait 50 of 1000, in parts per billion
    assert_eq!(p.get_iowait_ratio(), 50_000_000);
    assert_eq!(p.total_time, 1000);
}

#[test]
fn test_uptime_text() {
    assert_eq!(malachite::timeutil::get_uptime("12345.67 8910.11"), 12345);
    assert_eq!(malachite::timeutil::get_uptime("garbage"), 0);
}

#[test]
fn test_clock_wrappers_tick() {
    let secs = get_secs_since_epoch();
    // well after the epoch on any live machine
    assert!(secs > 1_000_000_000);
    assert!(malachite::timeutil::get_naosecs_since_epoch() > 0);
    assert!(malachite::timeutil::get_microsecs_since_epoch() > 0);
}

#[test]
fn test_load_clean_decision() {
    let mut s = malachite::settings::Settings::default();
    assert_eq!(malachite::settings::clean(&s), (false, false));
    s.ebpf.enable = false;
    assert_eq!(malachite::settings::clean(&s), (true, false));
    s.enable = false;
    assert_eq!(malachite::settings::clean(&s), (true, true));
}
