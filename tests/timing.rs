use led_server::error::{LedError, ESP_ERR_INVALID_STATE};
use led_server::timing::{ticks, TimingProfile, T0H_NS, T0L_NS, T1H_NS, T1L_NS};

#[test]
fn ticks_at_forty_megahertz() {
    assert_eq!(ticks(40_000_000, T0H_NS), 14);
    assert_eq!(ticks(40_000_000, T0L_NS), 40);
    assert_eq!(ticks(40_000_000, T1H_NS), 40);
    assert_eq!(ticks(40_000_000, T1L_NS), 14);
}

#[test]
fn ticks_at_eighty_megahertz() {
    assert_eq!(ticks(80_000_000, 350), 28);
    assert_eq!(ticks(80_000_000, 1000), 80);
}

#[test]
fn ticks_round_to_nearest() {
    // 1.5 ticks rounds up, 1.499999999 rounds down, 0.5 rounds up
    assert_eq!(ticks(3, 500_000_000), 2);
    assert_eq!(ticks(2_999_999_999, 1), 3);
    assert_eq!(ticks(1, 499_999_999), 0);
    assert_eq!(ticks(1, 500_000_000), 1);
    assert_eq!(ticks(26_000_000, 350), 9);
}

#[test]
fn ticks_scale_with_frequency() {
    let base = ticks(10_000_000, 1000);
    assert_eq!(base, 10);
    for k in 1u32..=8 {
        assert_eq!(ticks(10_000_000 * k, 1000), base * k as u64);
    }
    let mut last = 0;
    for f in (0u32..100_000_000).step_by(1_234_567) {
        let t = ticks(f, 350);
        assert!(t >= last);
        last = t;
    }
}

#[test]
fn ticks_do_not_overflow() {
    let expected = ((u32::MAX as u128 * u32::MAX as u128 + 500_000_000) / 1_000_000_000) as u64;
    assert_eq!(ticks(u32::MAX, u32::MAX), expected);
    assert_eq!(ticks(0, u32::MAX), 0);
}

#[test]
fn calibrate_forty_megahertz() {
    let p = TimingProfile::calibrate(40_000_000).unwrap();
    assert_eq!(p, TimingProfile { t0h: 14, t0l: 40, t1h: 40, t1l: 14 });
}

#[test]
fn calibrate_fastest_clock() {
    let p = TimingProfile::calibrate(u32::MAX).unwrap();
    assert_eq!(p, TimingProfile { t0h: 1503, t0l: 4295, t1h: 4295, t1l: 1503 });
}

#[test]
fn calibrate_stopped_clock_fails() {
    assert_eq!(
        TimingProfile::calibrate(0),
        Err(LedError::Configuration(ESP_ERR_INVALID_STATE))
    );
}
