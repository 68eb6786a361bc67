use std::sync::Mutex;

use led_server::channel::{Bringup, ChannelConfig, ChannelState, SetupAction, Stage};
use led_server::encoder::PulseItem;
use led_server::error::{
    classify_transmit, http_status, LedError, ESP_ERR_INVALID_ARG, ESP_ERR_INVALID_STATE,
    ESP_ERR_TIMEOUT, ESP_OK,
};
use led_server::rgb_led::{Led, COLOR_ITEMS};
use led_server::timing::TimingProfile;

const CLOCK_HZ: u32 = 40_000_000;

/// Runs bring-up against a peripheral that answers each action as given.
fn bring_up(
    channel: u32,
    gpio_num: i32,
    replies: &[Result<u32, i32>],
) -> (Result<Led, LedError>, Vec<&'static str>, ChannelState) {
    let (mut b, mut action) = Bringup::start(channel, gpio_num);
    let mut log = Vec::new();
    let mut next = replies.iter();
    loop {
        let name = match action {
            SetupAction::Configure(c) => {
                assert_eq!(c, ChannelConfig::for_light(channel, gpio_num));
                "configure"
            }
            SetupAction::Install(ch) => {
                assert_eq!(ch, channel);
                "install"
            }
            SetupAction::ReadClock(ch) => {
                assert_eq!(ch, channel);
                "read_clock"
            }
            SetupAction::Register(ch) => {
                assert_eq!(ch, channel);
                "register"
            }
            SetupAction::Uninstall(ch) => {
                assert_eq!(ch, channel);
                "uninstall"
            }
            SetupAction::Ready(led) => return (Ok(led), log, b.channel_state()),
            SetupAction::Abort(e) => return (Err(e), log, b.channel_state()),
        };
        log.push(name);
        action = b.step(*next.next().expect("a reply for every action"));
    }
}

fn new_led(channel: u32, gpio_num: i32) -> Led {
    let (led, log, state) = bring_up(channel, gpio_num, &[Ok(0), Ok(0), Ok(CLOCK_HZ), Ok(0)]);
    assert_eq!(log, vec!["configure", "install", "read_clock", "register"]);
    assert_eq!(state, ChannelState::Installed);
    led.unwrap()
}

/// Reads the bytes back out of a full pulse sequence.
fn decode(items: &[PulseItem], p: &TimingProfile) -> Vec<u8> {
    items
        .chunks(8)
        .map(|byte| {
            byte.iter().fold(0u8, |acc, item| {
                let bit = if *item == p.bit1() {
                    1
                } else {
                    assert_eq!(*item, p.bit0());
                    0
                };
                (acc << 1) | bit
            })
        })
        .collect()
}

#[test]
fn light_config_values() {
    let c = ChannelConfig::for_light(0, 8);
    assert_eq!(c.channel, 0);
    assert_eq!(c.gpio_num, 8);
    assert_eq!(c.clk_div, 2);
    assert_eq!(c.mem_block_num, 1);
    assert!(!c.carrier_en);
    assert!(!c.idle_level_high);
    assert!(c.idle_output_en);
    assert!(!c.loop_en);
}

#[test]
fn new_led_is_calibrated_and_off() {
    let led = Led::new(3, CLOCK_HZ).unwrap();
    assert_eq!(led.channel(), 3);
    assert_eq!(led.buffer(), [0, 0, 0]);
    assert_eq!(led.profile(), TimingProfile { t0h: 14, t0l: 40, t1h: 40, t1l: 14 });
}

#[test]
fn new_led_with_stopped_clock_fails() {
    assert_eq!(Led::new(0, 0).unwrap_err(), LedError::Configuration(ESP_ERR_INVALID_STATE));
}

#[test]
fn scenario_channel_zero_pin_eight() {
    let mut led = new_led(0, 8);
    assert_eq!(led.set_color(0, 0, 0, ESP_OK), Ok(()));
    assert_eq!(led.buffer(), [0x00, 0x00, 0x00]);
    assert_eq!(led.set_color(255, 0, 0, ESP_OK), Ok(()));
    assert_eq!(led.buffer(), [0x00, 0xFF, 0x00]);
    let before = led;
    assert_eq!(led.set_color(0, 0, 255, ESP_ERR_TIMEOUT), Err(LedError::TransmitTimeout));
    assert_eq!(led.buffer(), before.buffer());
    assert_eq!(led.profile(), before.profile());
    assert_eq!(led.channel(), before.channel());
}

#[test]
fn set_color_uses_wire_order() {
    let mut led = Led::new(1, CLOCK_HZ).unwrap();
    led.set_color(0x11, 0x22, 0x33, ESP_OK).unwrap();
    assert_eq!(led.buffer(), [0x22, 0x11, 0x33]);
}

#[test]
fn set_color_other_failure_keeps_state() {
    let mut led = Led::new(1, CLOCK_HZ).unwrap();
    led.set_color(1, 2, 3, ESP_OK).unwrap();
    assert_eq!(led.set_color(9, 9, 9, ESP_ERR_INVALID_ARG), Err(LedError::Transmit(ESP_ERR_INVALID_ARG)));
    assert_eq!(led.buffer(), [2, 1, 3]);
}

#[test]
fn pulses_carry_color_in_wire_order() {
    let led = Led::new(0, CLOCK_HZ).unwrap();
    let items = led.pulses(255, 0, 0);
    assert_eq!(items.len(), COLOR_ITEMS);
    assert_eq!(decode(&items, &led.profile()), vec![0x00, 0xFF, 0x00]);
    assert!(items[..8].iter().all(|i| *i == led.profile().bit0()));
    assert!(items[8..16].iter().all(|i| *i == led.profile().bit1()));
}

#[test]
fn translate_follows_wanted_number() {
    let led = Led::new(0, CLOCK_HZ).unwrap().with_color(0xFF, 0x00, 0x0F);
    assert_eq!(led.buffer(), [0x00, 0xFF, 0x0F]);
    let (items, used) = led.translate(8);
    assert_eq!(used, 1);
    assert_eq!(decode(&items, &led.profile()), vec![0x00]);
    let (items, used) = led.translate(64);
    assert_eq!(used, 3);
    assert_eq!(decode(&items, &led.profile()), vec![0x00, 0xFF, 0x0F]);
    let (items, used) = led.translate(0);
    assert_eq!(used, 0);
    assert!(items.is_empty());
}

#[test]
fn repeated_set_color_sends_same_pulses() {
    let mut led = new_led(0, 8);
    let first = led.pulses(12, 34, 56);
    led.set_color(12, 34, 56, ESP_OK).unwrap();
    let after_once = led.buffer();
    let second = led.pulses(12, 34, 56);
    led.set_color(12, 34, 56, ESP_OK).unwrap();
    assert_eq!(first, second);
    assert_eq!(led.buffer(), after_once);
}

#[test]
fn serialized_calls_send_whole_frames() {
    let shared = Mutex::new(new_led(0, 8));
    let colors: Vec<(u8, u8, u8)> = (0u8..16).map(|k| (k, k.wrapping_mul(7), 255 - k)).collect();
    let mut sink: Vec<Vec<PulseItem>> = Vec::new();
    for &(r, g, b) in &colors {
        let mut led = shared.lock().unwrap();
        let batch = led.pulses(r, g, b);
        sink.push(batch);
        led.set_color(r, g, b, ESP_OK).unwrap();
    }
    let led = shared.lock().unwrap();
    assert_eq!(sink.len(), colors.len());
    for (batch, &(r, g, b)) in sink.iter().zip(&colors) {
        assert_eq!(batch.len(), 24);
        assert_eq!(decode(batch, &led.profile()), vec![g, r, b]);
    }
}

#[test]
fn transmit_status_classes() {
    assert_eq!(classify_transmit(ESP_OK), None);
    assert_eq!(classify_transmit(ESP_ERR_TIMEOUT), Some(LedError::TransmitTimeout));
    assert_eq!(classify_transmit(-1), Some(LedError::Transmit(-1)));
}

#[test]
fn http_status_mapping() {
    assert_eq!(http_status(&Ok(())), 200);
    assert_eq!(http_status(&Err(LedError::TransmitTimeout)), 500);
    assert_eq!(http_status(&Err(LedError::PoisonedAccess)), 500);
    assert_eq!(http_status(&Err(LedError::Transmit(5))), 500);
}

#[test]
fn bring_up_configure_failure() {
    let (r, log, state) = bring_up(0, 99, &[Err(ESP_ERR_INVALID_ARG)]);
    assert_eq!(r.unwrap_err(), LedError::Configuration(ESP_ERR_INVALID_ARG));
    assert_eq!(log, vec!["configure"]);
    assert_eq!(state, ChannelState::Unconfigured);
}

#[test]
fn bring_up_install_failure() {
    let (r, log, state) = bring_up(0, 8, &[Ok(0), Err(ESP_ERR_INVALID_STATE)]);
    assert_eq!(r.unwrap_err(), LedError::DriverInstall(ESP_ERR_INVALID_STATE));
    assert_eq!(log, vec!["configure", "install"]);
    assert_eq!(state, ChannelState::Configured);
}

#[test]
fn bring_up_clock_failure_uninstalls() {
    let (r, log, state) = bring_up(0, 8, &[Ok(0), Ok(0), Err(ESP_ERR_INVALID_ARG), Ok(0)]);
    assert_eq!(r.unwrap_err(), LedError::Configuration(ESP_ERR_INVALID_ARG));
    assert_eq!(log, vec!["configure", "install", "read_clock", "uninstall"]);
    assert_eq!(state, ChannelState::Uninstalled);
}

#[test]
fn bring_up_zero_clock_uninstalls() {
    let (r, log, state) = bring_up(2, 8, &[Ok(0), Ok(0), Ok(0), Err(-1)]);
    assert_eq!(r.unwrap_err(), LedError::Configuration(ESP_ERR_INVALID_STATE));
    assert_eq!(log, vec!["configure", "install", "read_clock", "uninstall"]);
    assert_eq!(state, ChannelState::Uninstalled);
}

#[test]
fn bring_up_register_failure_uninstalls() {
    let (r, log, state) = bring_up(0, 8, &[Ok(0), Ok(0), Ok(CLOCK_HZ), Err(ESP_ERR_INVALID_STATE), Ok(0)]);
    assert_eq!(r.unwrap_err(), LedError::DriverInstall(ESP_ERR_INVALID_STATE));
    assert_eq!(log, vec!["configure", "install", "read_clock", "register", "uninstall"]);
    assert_eq!(state, ChannelState::Uninstalled);
}

#[test]
fn bring_up_stages_in_order() {
    let (mut b, _) = Bringup::start(0, 8);
    assert!(matches!(b.stage(), Stage::Configuring));
    b.step(Ok(0));
    assert!(matches!(b.stage(), Stage::Installing));
    b.step(Ok(0));
    assert!(matches!(b.stage(), Stage::ReadingClock));
    b.step(Ok(CLOCK_HZ));
    assert!(matches!(b.stage(), Stage::Registering(_)));
    let a = b.step(Ok(0));
    assert!(matches!(b.stage(), Stage::Finished));
    match a {
        SetupAction::Ready(led) => {
            assert_eq!(led.channel(), 0);
            assert_eq!(led.buffer(), [0, 0, 0]);
        }
        other => panic!("unexpected action {:?}", other),
    }
}
