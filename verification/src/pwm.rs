//! PWM duty-cycle driver.
//!
//! The PWM block has eight channels; each channel owns one counter with a
//! `top` wrap value, a control register with an enable bit, and one compare
//! register holding the duty-cycle thresholds of its two output slices (A in
//! the low half-word, B in the high half-word). A fixed table maps each of
//! the 30 pins to the channel and slice that can drive it: even pins on
//! slice A, odd pins on slice B, adjacent pin pairs sharing a channel, and
//! the assignment repeating from pin 16 on.
//!
//! The driver models the three registers it writes per channel; the
//! surrounding application mirrors each model write onto the memory-mapped
//! block.

use vstd::prelude::*;

verus! {

/// Counter wrap value written by `start_pwm`, fixing the PWM resolution.
pub const DEFAULT_TOP: u16 = 0x8000;

/// Initial compare value written by `start_pwm`: a fully-off duty cycle.
pub const DEFAULT_BOT: u16 = 0x0000;

/// Number of pins the table covers.
pub const NUM_PINS: usize = 30;

/// Number of PWM channels in the block.
pub const NUM_CHANNELS: usize = 8;

/// One of the two output slices of a PWM channel.
#[derive(Copy, Clone)]
pub enum PwmSlice {
    A,
    B,
}

/// One of the eight PWM channels.
#[derive(Copy, Clone)]
pub enum PwmChannel {
    Channel0,
    Channel1,
    Channel2,
    Channel3,
    Channel4,
    Channel5,
    Channel6,
    Channel7,
}

/// Whether a pin's channel has been started.
#[derive(Copy, Clone)]
pub enum PwmStatus {
    Enabled,
    Disabled,
}

impl PwmChannel {
    /// The channel's position in the register block.
    pub open spec fn spec_index(self) -> int {
        match self {
            PwmChannel::Channel0 => 0,
            PwmChannel::Channel1 => 1,
            PwmChannel::Channel2 => 2,
            PwmChannel::Channel3 => 3,
            PwmChannel::Channel4 => 4,
            PwmChannel::Channel5 => 5,
            PwmChannel::Channel6 => 6,
            PwmChannel::Channel7 => 7,
        }
    }

    /// The channel's position in the register block.
    pub fn index(self) -> (i: usize)
        ensures
            i == self.spec_index(),
            i < NUM_CHANNELS,
    {
        match self {
            PwmChannel::Channel0 => 0,
            PwmChannel::Channel1 => 1,
            PwmChannel::Channel2 => 2,
            PwmChannel::Channel3 => 3,
            PwmChannel::Channel4 => 4,
            PwmChannel::Channel5 => 5,
            PwmChannel::Channel6 => 6,
            PwmChannel::Channel7 => 7,
        }
    }
}

/// The channel that can drive a pin: pin pairs 0/1, 2/3, ... share channels
/// 0..8 in order, and the assignment starts over at pin 16.
pub open spec fn channel_of_pin(pin: int) -> int {
    if pin < 16 {
        pin / 2
    } else {
        (pin - 16) / 2
    }
}

/// The slice that drives a pin: even pins sit on slice A, odd pins on B.
pub open spec fn slice_of_pin(pin: int) -> PwmSlice {
    if pin % 2 == 0 {
        PwmSlice::A
    } else {
        PwmSlice::B
    }
}

/// The whole compare register after one slice's threshold is written:
/// slice A occupies the low half-word, slice B the high one, and the
/// whole-register write clears the other slice's threshold to zero.
pub open spec fn cc_written(slice: PwmSlice, value: u16) -> u32 {
    match slice {
        PwmSlice::A => value as u32,
        PwmSlice::B => (value as u32) << 16,
    }
}

/// The channel registers after `start_pwm`: the fixed wrap value, a clear
/// compare register, and the enable bit set.
pub open spec fn started_channel() -> PwmChannelState {
    PwmChannelState { top: DEFAULT_TOP as u32, cc: 0, csr: 1 }
}

/// A pin together with its fixed channel/slice binding.
#[derive(Copy, Clone)]
pub struct PwmPin {
    id: u8,
    slice: PwmSlice,
    channel: PwmChannel,
    status: PwmStatus,
}

/// The modelled registers of one PWM channel: the counter wrap value, the
/// compare register with both slices' thresholds, and the control register
/// whose lowest bit enables the channel.
#[derive(Copy, Clone)]
pub struct PwmChannelState {
    pub top: u32,
    pub cc: u32,
    pub csr: u32,
}

/// Driver for the PWM block. Holds the pin-binding table and the model of
/// the per-channel registers; the surrounding application mirrors each model
/// write onto the memory-mapped block.
pub struct PWMDriver {
    channels: Vec<PwmChannelState>,
    pins: Vec<PwmPin>,
}

impl View for PWMDriver {
    type V = Seq<PwmChannelState>;

    closed spec fn view(&self) -> Seq<PwmChannelState> {
        self.channels@
    }
}

impl PWMDriver {
    /// The model covers the eight channels, and the pin table is exactly the
    /// fixed assignment.
    pub closed spec fn wf(&self) -> bool {
        &&& self.channels@.len() == NUM_CHANNELS
        &&& self.pins@.len() == NUM_PINS
        &&& forall|i: int|
            0 <= i < NUM_PINS ==> (#[trigger] self.pins@[i]).channel.spec_index()
                == channel_of_pin(i)
        &&& forall|i: int|
            0 <= i < NUM_PINS ==> (#[trigger] self.pins@[i]).slice == slice_of_pin(i)
    }

    /// Takes ownership of the PWM block and builds the pin-binding table,
    /// with every modelled register at its documented reset value: the
    /// counter wrap register at its full range, the rest clear.
    pub fn begin() -> (driver: PWMDriver)
        ensures
            driver.wf(),
            forall|c: int|
                0 <= c < NUM_CHANNELS ==> #[trigger] driver@[c] == (PwmChannelState {
                    top: 0xFFFF,
                    cc: 0,
                    csr: 0,
                }),
    {
        let mut channels: Vec<PwmChannelState> = Vec::new();
        let mut c: usize = 0;
        while c < NUM_CHANNELS
            invariant
                c <= NUM_CHANNELS,
                channels@.len() == c,
                forall|j: int|
                    0 <= j < c ==> #[trigger] channels@[j] == (PwmChannelState {
                        top: 0xFFFF,
                        cc: 0,
                        csr: 0,
                    }),
            decreases NUM_CHANNELS - c,
        {
            channels.push(PwmChannelState { top: 0xFFFF, cc: 0, csr: 0 });
            c = c + 1;
        }
        let mut pins: Vec<PwmPin> = Vec::new();
        let mut i: usize = 0;
        while i < NUM_PINS
            invariant
                i <= NUM_PINS,
                pins@.len() == i,
                forall|j: int|
                    0 <= j < i ==> (#[trigger] pins@[j]).channel.spec_index() == channel_of_pin(j),
                forall|j: int| 0 <= j < i ==> (#[trigger] pins@[j]).slice == slice_of_pin(j),
            decreases NUM_PINS - i,
        {
            let slice = if i % 2 == 0 {
                PwmSlice::A
            } else {
                PwmSlice::B
            };
            let channel_index = if i < 16 {
                i / 2
            } else {
                (i - 16) / 2
            };
            let channel = channel_from_index(channel_index);
            pins.push(
                PwmPin { id: i as u8, slice, channel, status: PwmStatus::Disabled },
            );
            i = i + 1;
        }
        PWMDriver { channels, pins }
    }

    /// Starts the channel bound to `pin`: writes the fixed counter wrap
    /// value, clears the bound slice's compare threshold (which, being a
    /// whole-register write, clears the other slice's too), and sets the
    /// enable bit. Repeating the call repeats the same writes, so it is
    /// idempotent.
    pub fn start_pwm(&mut self, pin: usize)
        requires
            old(self).wf(),
            pin < NUM_PINS,
        ensures
            final(self).wf(),
            final(self)@ == old(self)@.update(channel_of_pin(pin as int), started_channel()),
    {
        let channel = self.pins[pin].channel.index();
        self.channels.set(
            channel,
            PwmChannelState { top: DEFAULT_TOP as u32, cc: DEFAULT_BOT as u32, csr: 1 },
        );
    }

    /// Writes a raw duty-cycle threshold into the compare register of the
    /// slice bound to `pin`. Values above the wrap value saturate the duty
    /// cycle at fully on; the driver forwards them unchanged. The counter
    /// and control registers keep their contents, but the whole-register
    /// write clears the sibling slice's threshold.
    pub fn set_pwm_value(&mut self, pin: usize, value: u16)
        requires
            old(self).wf(),
            pin < NUM_PINS,
        ensures
            final(self).wf(),
            final(self)@ == old(self)@.update(
                channel_of_pin(pin as int),
                (PwmChannelState {
                    top: old(self)@[channel_of_pin(pin as int)].top,
                    cc: cc_written(slice_of_pin(pin as int), value),
                    csr: old(self)@[channel_of_pin(pin as int)].csr,
                }),
            ),
    {
        let channel = self.pins[pin].channel.index();
        let cc = match self.pins[pin].slice {
            PwmSlice::A => value as u32,
            PwmSlice::B => (value as u32) << 16,
        };
        let top = self.channels[channel].top;
        let csr = self.channels[channel].csr;
        self.channels.set(channel, PwmChannelState { top, cc, csr });
    }

    /// Reads back a channel's modelled registers: counter wrap value,
    /// compare register, control register.
    pub fn read_info(&self, channel: usize) -> (info: (u32, u32, u32))
        requires
            self.wf(),
            channel < NUM_CHANNELS,
        ensures
            info.0 == self@[channel as int].top,
            info.1 == self@[channel as int].cc,
            info.2 == self@[channel as int].csr,
    {
        let state = self.channels[channel];
        (state.top, state.cc, state.csr)
    }
}

/// The channel at a given position in the register block.
fn channel_from_index(i: usize) -> (channel: PwmChannel)
    requires
        i < NUM_CHANNELS,
    ensures
        channel.spec_index() == i,
{
    if i == 0 {
        PwmChannel::Channel0
    } else if i == 1 {
        PwmChannel::Channel1
    } else if i == 2 {
        PwmChannel::Channel2
    } else if i == 3 {
        PwmChannel::Channel3
    } else if i == 4 {
        PwmChannel::Channel4
    } else if i == 5 {
        PwmChannel::Channel5
    } else if i == 6 {
        PwmChannel::Channel6
    } else {
        PwmChannel::Channel7
    }
}

/// Starting a pin's channel twice leaves the register model exactly as one
/// start does: the written values depend only on the pin's fixed binding,
/// never on the channel's previous state.
pub proof fn lemma_start_pwm_idempotent(channels: Seq<PwmChannelState>, pin: int)
    requires
        0 <= channel_of_pin(pin) < channels.len(),
    ensures
        channels.update(channel_of_pin(pin), started_channel()).update(
            channel_of_pin(pin),
            started_channel(),
        ) == channels.update(channel_of_pin(pin), started_channel()),
{
    assert(channels.update(channel_of_pin(pin), started_channel()).update(
        channel_of_pin(pin),
        started_channel(),
    ) =~= channels.update(channel_of_pin(pin), started_channel()));
}

/// Among the first sixteen pins the binding is one-to-one: two distinct pins
/// never share both a channel and a slice. (From pin 16 on, the hardware
/// repeats the assignment, so pins sixteen apart alias the same output.)
pub proof fn lemma_low_pin_bindings_unique(p1: int, p2: int)
    requires
        0 <= p1 < 16,
        0 <= p2 < 16,
        p1 != p2,
    ensures
        channel_of_pin(p1) != channel_of_pin(p2) || slice_of_pin(p1) != slice_of_pin(p2),
{
    if channel_of_pin(p1) == channel_of_pin(p2) && slice_of_pin(p1) == slice_of_pin(p2) {
        assert(p1 % 2 == p2 % 2);
        assert(p1 / 2 == p2 / 2);
        assert(p1 == 2 * (p1 / 2) + p1 % 2);
        assert(p2 == 2 * (p2 / 2) + p2 % 2);
        assert(false);
    }
}

} // verus!
