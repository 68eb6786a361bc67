//! The light's controller: its calibration, its channel and the color it
//! shows.
use vstd::prelude::*;

use crate::encoder::{encode, encoded, PulseItem};
use crate::error::{classify_transmit, transmit_error, LedError};
use crate::timing::{calibration_error, profile_for, TimingProfile};

verus! {

/// Bytes of one color on the wire.
pub const COLOR_BYTES: usize = 3;

/// Pulses of one color on the wire.
pub const COLOR_ITEMS: usize = 24;

/// Longest wait for the end of a transmission, in microseconds.
pub const TX_TIMEOUT_US: u32 = 1_000_000;

/// A color in the protocol's wire order: green, red, blue.
pub open spec fn wire_order(red: u8, green: u8, blue: u8) -> Seq<u8> {
    seq![green, red, blue]
}

/// What a controller holds, as values.
pub struct LedState {
    pub profile: TimingProfile,
    pub buffer: Seq<u8>,
    pub channel: u32,
}

/// Controller of one RGB light on one pulse-train channel.
///
/// The timing profile is fixed when the controller is made; the color buffer
/// changes only when a transmission of the new color has succeeded.
#[derive(Clone, Copy, Debug)]
pub struct Led {
    profile: TimingProfile,
    buffer: [u8; 3],
    channel: u32,
}

impl View for Led {
    type V = LedState;

    closed spec fn view(&self) -> LedState {
        LedState { profile: self.profile, buffer: self.buffer@, channel: self.channel }
    }
}

/// The pulses that show a color on a light calibrated by `p`.
pub open spec fn color_pulses(p: TimingProfile, red: u8, green: u8, blue: u8) -> Seq<PulseItem> {
    encoded(p, wire_order(red, green, blue))
}

/// A controller after the light has taken a new color.
pub open spec fn showing(s: LedState, red: u8, green: u8, blue: u8) -> LedState {
    LedState { buffer: wire_order(red, green, blue), ..s }
}

impl Led {
    /// A controller for `channel`, calibrated against the counter clock that
    /// the peripheral reports, with the light off. Fails where the clock is
    /// stopped.
    pub fn new(channel: u32, counter_clk_hz: u32) -> (r: Result<Led, LedError>)
        ensures
            counter_clk_hz == 0 <==> r is Err,
            r is Err ==> r->Err_0 == calibration_error(),
            r is Ok ==> r->Ok_0@ == (LedState {
                profile: profile_for(counter_clk_hz as int),
                buffer: seq![0u8, 0u8, 0u8],
                channel,
            }),
    {
        match TimingProfile::calibrate(counter_clk_hz) {
            Ok(profile) => {
                let led = Led { profile, buffer: [0, 0, 0], channel };
                assert(led.buffer@ =~= seq![0u8, 0u8, 0u8]);
                Ok(led)
            },
            Err(e) => Err(e),
        }
    }

    /// The channel the light is driven through.
    pub fn channel(&self) -> (r: u32)
        ensures
            r == self@.channel,
    {
        self.channel
    }

    /// The pulse durations the light is driven with.
    pub fn profile(&self) -> (r: TimingProfile)
        ensures
            r == self@.profile,
    {
        self.profile
    }

    /// The color last shown, in wire order.
    pub fn buffer(&self) -> (r: [u8; 3])
        ensures
            r@ == self@.buffer,
    {
        self.buffer
    }

    /// This controller with the color buffer set to `red`, `green`, `blue`:
    /// the source that a transmission of the color encodes from.
    pub fn with_color(&self, red: u8, green: u8, blue: u8) -> (r: Led)
        ensures
            r@ == showing(self@, red, green, blue),
    {
        let led = Led { profile: self.profile, buffer: [green, red, blue], channel: self.channel };
        assert(led.buffer@ =~= wire_order(red, green, blue));
        led
    }

    /// Encodes the color buffer for the peripheral, which asks for at most
    /// `wanted_num` pulses at a time: returns the pulses and how many bytes of
    /// the buffer they carry.
    pub fn translate(&self, wanted_num: usize) -> (r: (Vec<PulseItem>, usize))
        ensures
            r.1 == (if wanted_num / 8 < 3 { wanted_num / 8 } else { 3 }),
            r.0@ == encoded(self@.profile, self@.buffer.take(r.1 as int)),
    {
        let src: &[u8] = vstd::array::array_as_slice(&self.buffer);
        encode(&self.profile, src, wanted_num)
    }

    /// The full pulse sequence that shows `red`, `green`, `blue`.
    pub fn pulses(&self, red: u8, green: u8, blue: u8) -> (r: Vec<PulseItem>)
        ensures
            r@ == color_pulses(self@.profile, red, green, blue),
            r@.len() == COLOR_ITEMS,
    {
        let frame = self.with_color(red, green, blue);
        let (items, _) = frame.translate(COLOR_ITEMS);
        assert(frame@.buffer.take(3) =~= frame@.buffer);
        items
    }

    /// Completes a change of color, given the status with which the
    /// peripheral ended the transmission of `pulses(red, green, blue)`. On
    /// success the buffer holds the new color in wire order; on a timeout or
    /// another failure the controller is left as it was and the error says
    /// which.
    pub fn set_color(&mut self, red: u8, green: u8, blue: u8, status: i32) -> (r: Result<
        (),
        LedError,
    >)
        ensures
            r is Ok <==> transmit_error(status) is None,
            r is Err ==> Some(r->Err_0) == transmit_error(status),
            r is Ok ==> final(self)@ == showing(old(self)@, red, green, blue),
            r is Err ==> final(self)@ == old(self)@,
    {
        match classify_transmit(status) {
            None => {
                *self = self.with_color(red, green, blue);
                Ok(())
            },
            Some(e) => Err(e),
        }
    }
}

/// Showing a color twice sends the same pulses both times and leaves the
/// controller as showing it once did: the second `set_color` with the same
/// arguments repeats the first.
pub proof fn lemma_set_color_idempotent(s: LedState, red: u8, green: u8, blue: u8)
    ensures
        showing(showing(s, red, green, blue), red, green, blue) == showing(s, red, green, blue),
        color_pulses(showing(s, red, green, blue).profile, red, green, blue) == color_pulses(
            s.profile,
            red,
            green,
            blue,
        ),
{
}

/// A change of color never touches the calibration or the channel, whatever
/// the outcome of its transmission.
pub proof fn lemma_set_color_keeps_setup(s: LedState, red: u8, green: u8, blue: u8)
    ensures
        showing(s, red, green, blue).profile == s.profile,
        showing(s, red, green, blue).channel == s.channel,
{
}

/// The pulses of one color are one complete frame: twenty-four pulses, the
/// first eight carrying green, the next red, the last blue, so that a
/// transmission never mixes two colors.
pub proof fn lemma_frame_of_one_color(p: TimingProfile, red: u8, green: u8, blue: u8, i: int)
    requires
        0 <= i < 24,
    ensures
        color_pulses(p, red, green, blue).len() == 24,
        i < 8 ==> color_pulses(p, red, green, blue)[i] == encoded(p, seq![green])[i],
        8 <= i < 16 ==> color_pulses(p, red, green, blue)[i] == encoded(p, seq![red])[i - 8],
        16 <= i ==> color_pulses(p, red, green, blue)[i] == encoded(p, seq![blue])[i - 16],
{
}

} // verus!
