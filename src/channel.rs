//! Bring-up of the pulse-train channel that drives the light.
//!
//! The peripheral is reached by the caller: [`Bringup`] says which operation
//! to perform next and takes the peripheral's reply, until it hands over a
//! ready controller or an error. A channel that was installed is always
//! uninstalled again before an error is handed over.
use vstd::prelude::*;

use crate::error::LedError;
use crate::rgb_led::{Led, LedState};
use crate::timing::{calibration_error, profile_for};

verus! {

/// Clock divider of the channel.
pub const CLK_DIV: u8 = 2;

/// Memory blocks of the channel.
pub const MEM_BLOCK_NUM: u8 = 1;

/// Carrier frequency, unused while the carrier is off.
pub const CARRIER_FREQ_HZ: u32 = 38000;

/// Carrier duty cycle, unused while the carrier is off.
pub const CARRIER_DUTY_PERCENT: u8 = 33;

/// Where the hardware channel stands in its life.
#[derive(Clone, Copy, Debug, PartialEq, Eq, Structural)]
pub enum ChannelState {
    Unconfigured,
    Configured,
    Installed,
    Uninstalled,
}

/// Transmit configuration of a channel bound to an output pin.
#[derive(Clone, Copy, Debug, PartialEq, Eq, Structural)]
pub struct ChannelConfig {
    pub channel: u32,
    pub gpio_num: i32,
    pub clk_div: u8,
    pub mem_block_num: u8,
    pub carrier_freq_hz: u32,
    pub carrier_level_high: bool,
    pub idle_level_high: bool,
    pub carrier_duty_percent: u8,
    pub carrier_en: bool,
    pub loop_en: bool,
    pub idle_output_en: bool,
    pub loop_count: u32,
}

/// The configuration of the light's channel: transmit only, carrier off,
/// the pin held low while idle, the clock divided by two.
pub open spec fn light_config(channel: u32, gpio_num: i32) -> ChannelConfig {
    ChannelConfig {
        channel,
        gpio_num,
        clk_div: CLK_DIV,
        mem_block_num: MEM_BLOCK_NUM,
        carrier_freq_hz: CARRIER_FREQ_HZ,
        carrier_level_high: true,
        idle_level_high: false,
        carrier_duty_percent: CARRIER_DUTY_PERCENT,
        carrier_en: false,
        loop_en: false,
        idle_output_en: true,
        loop_count: 0,
    }
}

impl ChannelConfig {
    /// The configuration of the light's channel.
    pub fn for_light(channel: u32, gpio_num: i32) -> (r: ChannelConfig)
        ensures
            r == light_config(channel, gpio_num),
    {
        ChannelConfig {
            channel,
            gpio_num,
            clk_div: CLK_DIV,
            mem_block_num: MEM_BLOCK_NUM,
            carrier_freq_hz: CARRIER_FREQ_HZ,
            carrier_level_high: true,
            idle_level_high: false,
            carrier_duty_percent: CARRIER_DUTY_PERCENT,
            carrier_en: false,
            loop_en: false,
            idle_output_en: true,
            loop_count: 0,
        }
    }
}

/// The reply that bring-up waits for.
#[derive(Clone, Copy, Debug)]
pub enum Stage {
    /// The channel's configuration was requested.
    Configuring,
    /// The driver's installation was requested.
    Installing,
    /// The counter clock's rate was requested.
    ReadingClock,
    /// The encoder's registration was requested, for this controller.
    Registering(Led),
    /// The driver's removal was requested, after this error.
    Releasing(LedError),
    /// Bring-up is over.
    Finished,
}

/// What the caller is to do next.
#[derive(Clone, Copy, Debug)]
pub enum SetupAction {
    /// Configure the channel as given.
    Configure(ChannelConfig),
    /// Install the driver on this channel.
    Install(u32),
    /// Read the rate of this channel's counter clock.
    ReadClock(u32),
    /// Register the encoder as this channel's translator.
    Register(u32),
    /// Uninstall the driver from this channel.
    Uninstall(u32),
    /// The channel is up: here is its controller.
    Ready(Led),
    /// Bring-up failed with this error, and no driver is left installed.
    Abort(LedError),
}

/// Bring-up of one channel, as values.
pub struct BringupState {
    pub channel: u32,
    pub gpio_num: i32,
    pub stage: Stage,
    pub state: ChannelState,
}

/// Bring-up of the light's channel: configure, install, read the clock,
/// calibrate, register the encoder.
pub struct Bringup {
    channel: u32,
    gpio_num: i32,
    stage: Stage,
    state: ChannelState,
}

impl View for Bringup {
    type V = BringupState;

    closed spec fn view(&self) -> BringupState {
        BringupState {
            channel: self.channel,
            gpio_num: self.gpio_num,
            stage: self.stage,
            state: self.state,
        }
    }
}

/// The state of the hardware channel while bring-up waits in `stage`. Once
/// bring-up is over the last reply decides it, and `wf` does not ask for this.
pub open spec fn state_in(stage: Stage) -> ChannelState {
    match stage {
        Stage::Configuring => ChannelState::Unconfigured,
        Stage::Installing => ChannelState::Configured,
        Stage::ReadingClock => ChannelState::Installed,
        Stage::Registering(_) => ChannelState::Installed,
        Stage::Releasing(_) => ChannelState::Installed,
        Stage::Finished => ChannelState::Installed,
    }
}

/// The controller for `channel` calibrated against `counter_clk_hz`, with
/// the light off.
pub open spec fn calibrated(led: Led, channel: u32, counter_clk_hz: u32) -> bool {
    led@ == (LedState {
        profile: profile_for(counter_clk_hz as int),
        buffer: seq![0u8, 0u8, 0u8],
        channel,
    })
}

impl BringupState {
    /// The hardware state follows the stage, and a controller waiting for
    /// registration belongs to this channel.
    pub open spec fn wf(self) -> bool {
        &&& (!(self.stage is Finished) ==> self.state == state_in(self.stage))
        &&& (self.stage matches Stage::Registering(led) ==> led@.channel == self.channel)
    }
}

impl Bringup {
    /// Starts bring-up of `channel` on pin `gpio_num`: the first action is
    /// to configure the channel.
    pub fn start(channel: u32, gpio_num: i32) -> (r: (Bringup, SetupAction))
        ensures
            r.0@ == (BringupState {
                channel,
                gpio_num,
                stage: Stage::Configuring,
                state: ChannelState::Unconfigured,
            }),
            r.0@.wf(),
            r.1 == SetupAction::Configure(light_config(channel, gpio_num)),
    {
        let b = Bringup {
            channel,
            gpio_num,
            stage: Stage::Configuring,
            state: ChannelState::Unconfigured,
        };
        (b, SetupAction::Configure(ChannelConfig::for_light(channel, gpio_num)))
    }

    /// Where bring-up stands.
    pub fn stage(&self) -> (r: Stage)
        ensures
            r == self@.stage,
    {
        self.stage
    }

    /// Where the hardware channel stands.
    pub fn channel_state(&self) -> (r: ChannelState)
        ensures
            r == self@.state,
    {
        self.state
    }

    /// Takes the peripheral's reply to the last action and gives the next
    /// one. A reply is `Ok` with the clock rate in hertz where the clock was
    /// read (any value otherwise), or `Err` with the peripheral's status.
    pub fn step(&mut self, reply: Result<u32, i32>) -> (a: SetupAction)
        requires
            old(self)@.wf(),
            !(old(self)@.stage is Finished),
        ensures
            final(self)@.wf(),
            final(self)@.channel == old(self)@.channel,
            final(self)@.gpio_num == old(self)@.gpio_num,
            // the channel is left installed exactly when a controller is handed over
            a is Ready ==> final(self)@.state == ChannelState::Installed,
            a is Abort ==> final(self)@.state != ChannelState::Installed,
            (a is Ready || a is Abort) <==> final(self)@.stage is Finished,
            ({
                let ch = old(self)@.channel;
                match (old(self)@.stage, reply) {
                    (Stage::Configuring, Ok(_)) => final(self)@.stage is Installing && a
                        == SetupAction::Install(ch),
                    (Stage::Configuring, Err(code)) => a == SetupAction::Abort(
                        LedError::Configuration(code),
                    ) && final(self)@.state == ChannelState::Unconfigured,
                    (Stage::Installing, Ok(_)) => final(self)@.stage is ReadingClock && a
                        == SetupAction::ReadClock(ch),
                    (Stage::Installing, Err(code)) => a == SetupAction::Abort(
                        LedError::DriverInstall(code),
                    ) && final(self)@.state == ChannelState::Configured,
                    (Stage::ReadingClock, Ok(hz)) => if hz == 0 {
                        final(self)@.stage == Stage::Releasing(calibration_error()) && a
                            == SetupAction::Uninstall(ch)
                    } else {
                        final(self)@.stage matches Stage::Registering(led) && calibrated(
                            led,
                            ch,
                            hz,
                        ) && a == SetupAction::Register(ch)
                    },
                    (Stage::ReadingClock, Err(code)) => final(self)@.stage == Stage::Releasing(
                        LedError::Configuration(code),
                    ) && a == SetupAction::Uninstall(ch),
                    (Stage::Registering(led), Ok(_)) => a == SetupAction::Ready(led),
                    (Stage::Registering(_), Err(code)) => final(self)@.stage == Stage::Releasing(
                        LedError::DriverInstall(code),
                    ) && a == SetupAction::Uninstall(ch),
                    (Stage::Releasing(e), _) => a == SetupAction::Abort(e)
                        && final(self)@.state == ChannelState::Uninstalled,
                    (Stage::Finished, _) => false,
                }
            }),
    {
        let ch = self.channel;
        match self.stage {
            Stage::Configuring => match reply {
                Ok(_) => {
                    self.stage = Stage::Installing;
                    self.state = ChannelState::Configured;
                    SetupAction::Install(ch)
                },
                Err(code) => {
                    self.stage = Stage::Finished;
                    SetupAction::Abort(LedError::Configuration(code))
                },
            },
            Stage::Installing => match reply {
                Ok(_) => {
                    self.stage = Stage::ReadingClock;
                    self.state = ChannelState::Installed;
                    SetupAction::ReadClock(ch)
                },
                Err(code) => {
                    self.stage = Stage::Finished;
                    SetupAction::Abort(LedError::DriverInstall(code))
                },
            },
            Stage::ReadingClock => match reply {
                Ok(hz) => match Led::new(ch, hz) {
                    Ok(led) => {
                        self.stage = Stage::Registering(led);
                        SetupAction::Register(ch)
                    },
                    Err(e) => {
                        self.stage = Stage::Releasing(e);
                        SetupAction::Uninstall(ch)
                    },
                },
                Err(code) => {
                    self.stage = Stage::Releasing(LedError::Configuration(code));
                    SetupAction::Uninstall(ch)
                },
            },
            Stage::Registering(led) => match reply {
                Ok(_) => {
                    self.stage = Stage::Finished;
                    SetupAction::Ready(led)
                },
                Err(code) => {
                    self.stage = Stage::Releasing(LedError::DriverInstall(code));
                    SetupAction::Uninstall(ch)
                },
            },
            Stage::Releasing(e) => {
                self.stage = Stage::Finished;
                self.state = ChannelState::Uninstalled;
                SetupAction::Abort(e)
            },
            Stage::Finished => vstd::pervasive::unreached(),
        }
    }
}

} // verus!
