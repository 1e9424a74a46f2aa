//! GPIO function-select driver.
//!
//! Each of the 30 user pins has one control register that selects which
//! peripheral drives the pin and can override its output enable and output
//! level. The driver models that register bank as a sequence of 32-bit words;
//! every operation is a single whole-register write, so the word written is a
//! function of the requested mode alone.

use vstd::prelude::*;

verus! {

/// Number of user-accessible pins in the I/O bank.
pub const NUM_GPIO: usize = 30;

/// Reset value of a pin's control register: function select parked on the
/// null function, every override in its pass-through position.
pub const GPIO_CTRL_RESET: u32 = 0x1F;

/// Function-select code for software-controlled I/O.
pub const FUNCSEL_SIO: u32 = 0x05;

/// Function-select code for the PWM peripheral.
pub const FUNCSEL_PWM: u32 = 0x04;

/// Output-override field forcing the pin low (bits 8..10).
pub const OUTOVER_LOW: u32 = 0x200;

/// Output-override field forcing the pin high (bits 8..10).
pub const OUTOVER_HIGH: u32 = 0x300;

/// Output-enable-override field forcing the driver on (bits 12..14).
pub const OEOVER_ENABLE: u32 = 0x3000;

/// The mode requested for a pin: drive it low or high as plain I/O, or hand
/// it to the PWM peripheral.
pub enum CtrlStatus {
    Low,
    High,
    Pwm,
}

/// The control word that a whole-register write leaves behind for the given
/// mode: plain I/O modes select software control, force the output on and
/// pick the level; PWM mode only routes the pin, leaving level control to
/// the PWM peripheral. Every other field falls back to its reset value.
pub open spec fn ctrl_word(status: CtrlStatus) -> u32 {
    match status {
        CtrlStatus::Low => FUNCSEL_SIO | OUTOVER_LOW | OEOVER_ENABLE,
        CtrlStatus::High => FUNCSEL_SIO | OUTOVER_HIGH | OEOVER_ENABLE,
        CtrlStatus::Pwm => FUNCSEL_PWM,
    }
}

/// The register bank after a pin's control register is written for `status`.
pub open spec fn spec_set_pin(bank: Seq<u32>, pin: int, status: CtrlStatus) -> Seq<u32> {
    bank.update(pin, ctrl_word(status))
}

/// Driver for the pin function-select register bank. Holds the model of the
/// 30 control registers; the surrounding application mirrors each write onto
/// the memory-mapped bank.
pub struct GPIODriver {
    ctrl: Vec<u32>,
}

impl View for GPIODriver {
    type V = Seq<u32>;

    closed spec fn view(&self) -> Seq<u32> {
        self.ctrl@
    }
}

impl GPIODriver {
    /// The model covers exactly the 30 control registers.
    pub open spec fn wf(&self) -> bool {
        self@.len() == NUM_GPIO
    }

    /// Takes ownership of the I/O bank, with every control register at its
    /// documented reset value.
    pub fn begin() -> (driver: GPIODriver)
        ensures
            driver.wf(),
            forall|i: int| 0 <= i < NUM_GPIO ==> driver@[i] == GPIO_CTRL_RESET,
    {
        let mut ctrl: Vec<u32> = Vec::new();
        let mut i: usize = 0;
        while i < NUM_GPIO
            invariant
                i <= NUM_GPIO,
                ctrl@.len() == i,
                forall|j: int| 0 <= j < i ==> ctrl@[j] == GPIO_CTRL_RESET,
            decreases NUM_GPIO - i,
        {
            ctrl.push(GPIO_CTRL_RESET);
            i = i + 1;
        }
        GPIODriver { ctrl }
    }

    /// Forces a pin's output enable on without touching its function select:
    /// a whole-register write that leaves every other field at its reset
    /// value. Superseded by `set_pin`, which configures the pin in one write.
    pub fn enable_output(&mut self, pin: usize)
        requires
            old(self).wf(),
            pin < NUM_GPIO,
        ensures
            final(self).wf(),
            final(self)@ == old(self)@.update(pin as int, GPIO_CTRL_RESET | OEOVER_ENABLE),
    {
        self.ctrl.set(pin, GPIO_CTRL_RESET | OEOVER_ENABLE);
    }

    /// Configures a pin in one atomic register write: the new control word
    /// depends only on the requested mode, never on the register's previous
    /// contents, so repeating a call changes nothing further.
    pub fn set_pin(&mut self, pin: usize, status: CtrlStatus)
        requires
            old(self).wf(),
            pin < NUM_GPIO,
        ensures
            final(self).wf(),
            final(self)@ == spec_set_pin(old(self)@, pin as int, status),
    {
        let word = match status {
            CtrlStatus::Low => FUNCSEL_SIO | OUTOVER_LOW | OEOVER_ENABLE,
            CtrlStatus::High => FUNCSEL_SIO | OUTOVER_HIGH | OEOVER_ENABLE,
            CtrlStatus::Pwm => FUNCSEL_PWM,
        };
        self.ctrl.set(pin, word);
    }

    /// Reads back a pin's control register.
    pub fn read_pin(&self, pin: usize) -> (word: u32)
        requires
            self.wf(),
            pin < NUM_GPIO,
        ensures
            word == self@[pin as int],
    {
        self.ctrl[pin]
    }
}

/// Writing a pin's control register twice for the same mode leaves the bank
/// exactly as one write does: `set_pin` is idempotent.
pub proof fn lemma_set_pin_idempotent(bank: Seq<u32>, pin: int, status: CtrlStatus)
    requires
        0 <= pin < bank.len(),
    ensures
        spec_set_pin(spec_set_pin(bank, pin, status), pin, status) == spec_set_pin(
            bank,
            pin,
            status,
        ),
{
    assert(spec_set_pin(spec_set_pin(bank, pin, status), pin, status) =~= spec_set_pin(
        bank,
        pin,
        status,
    ));
}

} // verus!
