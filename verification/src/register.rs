//! The register byte: three selector bits above five payload bits.

use vstd::prelude::*;

verus! {

/// The payload field: the lower five bits of a register byte.
pub const IREG_VAL_MASK: u8 = 0x1f;

/// The selector field: the upper three bits of a register byte.
pub const IREG_REG_MASK: u8 = 0xe0;

/// Full LED current.
pub const BRIGHTNESS_MAX: u8 = 0x1f;

/// About half of the LED current.
pub const BRIGHTNESS_HALF: u8 = 0x18;

/// Low LED current.
pub const BRIGHTNESS_LOW: u8 = 0x0f;

/// No LED current.
pub const BRIGHTNESS_OFF: u8 = 0x00;

/// Selector of the shutdown register.
pub const IREG_SHUTDOWN: u8 = 0x00;

/// Selector of the LED current register.
pub const IREG_LED_CURRENT: u8 = 0x20;

/// Selector of PWM channel 1.
pub const IREG_PWM1: u8 = 0x40;

/// Selector of PWM channel 2.
pub const IREG_PWM2: u8 = 0x60;

/// Selector of PWM channel 3.
pub const IREG_PWM3: u8 = 0x80;

/// Selector of the register that ends dimming upward.
pub const IREG_UPWARD_LEND: u8 = 0xA0;

/// Selector of the register that ends dimming downward.
pub const IREG_DOWNWARD_LEND: u8 = 0xC0;

/// Selector of the register that runs a dimming step.
pub const IREG_DIM_STEP_RUN: u8 = 0xE0;

/// The eight internal registers of the chip.
#[derive(Clone, Copy, Debug, PartialEq, Eq, Structural)]
pub enum Register {
    /// Switches the LED current off.
    Shutdown,
    /// The LED current, common to the three channels.
    LedCurrent,
    /// The duty cycle of PWM channel 1.
    Pwm1,
    /// The duty cycle of PWM channel 2.
    Pwm2,
    /// The duty cycle of PWM channel 3.
    Pwm3,
    /// The current at which dimming upward ends.
    UpwardLend,
    /// The current at which dimming downward ends.
    DownwardLend,
    /// Runs a dimming step on what was written before it.
    DimStepRun,
}

impl Register {
    /// The selector of this register, already in the upper three bits.
    pub open spec fn spec_selector(self) -> u8 {
        match self {
            Register::Shutdown => IREG_SHUTDOWN,
            Register::LedCurrent => IREG_LED_CURRENT,
            Register::Pwm1 => IREG_PWM1,
            Register::Pwm2 => IREG_PWM2,
            Register::Pwm3 => IREG_PWM3,
            Register::UpwardLend => IREG_UPWARD_LEND,
            Register::DownwardLend => IREG_DOWNWARD_LEND,
            Register::DimStepRun => IREG_DIM_STEP_RUN,
        }
    }

    /// The selector of this register, already in the upper three bits.
    #[verifier::when_used_as_spec(spec_selector)]
    pub fn selector(self) -> (s: u8)
        ensures
            s == self.spec_selector(),
    {
        match self {
            Register::Shutdown => IREG_SHUTDOWN,
            Register::LedCurrent => IREG_LED_CURRENT,
            Register::Pwm1 => IREG_PWM1,
            Register::Pwm2 => IREG_PWM2,
            Register::Pwm3 => IREG_PWM3,
            Register::UpwardLend => IREG_UPWARD_LEND,
            Register::DownwardLend => IREG_DOWNWARD_LEND,
            Register::DimStepRun => IREG_DIM_STEP_RUN,
        }
    }

    /// The register that a register byte selects: the one whose selector is
    /// the byte's upper three bits.
    pub open spec fn selected_by(byte: u8) -> Register {
        let field = selector_of(byte);
        if field == IREG_SHUTDOWN {
            Register::Shutdown
        } else if field == IREG_LED_CURRENT {
            Register::LedCurrent
        } else if field == IREG_PWM1 {
            Register::Pwm1
        } else if field == IREG_PWM2 {
            Register::Pwm2
        } else if field == IREG_PWM3 {
            Register::Pwm3
        } else if field == IREG_UPWARD_LEND {
            Register::UpwardLend
        } else if field == IREG_DOWNWARD_LEND {
            Register::DownwardLend
        } else {
            Register::DimStepRun
        }
    }
}

/// The selector field of a byte: its upper three bits, in place.
pub open spec fn selector_of(byte: u8) -> u8 {
    byte & IREG_REG_MASK
}

/// The payload field of a byte: its lower five bits.
pub open spec fn payload_of(byte: u8) -> u8 {
    byte & IREG_VAL_MASK
}

/// The byte that selects the register `selector` names and carries `payload`:
/// the selector field of the one joined with the payload field of the other.
/// Bits of `selector` below the field and bits of `payload` above it are
/// dropped.
pub open spec fn spec_register_byte(selector: u8, payload: u8) -> u8 {
    selector_of(selector) | payload_of(payload)
}

/// Composes a register byte from a selector and a payload, each masked to
/// its own field.
#[verifier::when_used_as_spec(spec_register_byte)]
pub fn register_byte(selector: u8, payload: u8) -> (byte: u8)
    ensures
        byte == spec_register_byte(selector, payload),
{
    (selector & IREG_REG_MASK) | (payload & IREG_VAL_MASK)
}

/// The seven bytes that set brightness and the three colour channels in one
/// write: the LED current, then each PWM channel, with a dimming step run
/// after the current and after each of the first two channels.
pub open spec fn spec_color_frame(bright: u8, red: u8, green: u8, blue: u8) -> Seq<u8> {
    seq![
        spec_register_byte(IREG_LED_CURRENT, bright),
        spec_register_byte(IREG_DIM_STEP_RUN, 0),
        spec_register_byte(IREG_PWM1, red),
        spec_register_byte(IREG_DIM_STEP_RUN, 0),
        spec_register_byte(IREG_PWM2, green),
        spec_register_byte(IREG_DIM_STEP_RUN, 0),
        spec_register_byte(IREG_PWM3, blue),
    ]
}

/// Builds the frame that sets brightness and colour at once.
pub fn color_frame(bright: u8, red: u8, green: u8, blue: u8) -> (frame: [u8; 7])
    ensures
        frame@ == spec_color_frame(bright, red, green, blue),
{
    [
        register_byte(Register::LedCurrent.selector(), bright),
        register_byte(Register::DimStepRun.selector(), 0),
        register_byte(Register::Pwm1.selector(), red),
        register_byte(Register::DimStepRun.selector(), 0),
        register_byte(Register::Pwm2.selector(), green),
        register_byte(Register::DimStepRun.selector(), 0),
        register_byte(Register::Pwm3.selector(), blue),
    ]
}

/// A register byte holds the selector field of what it was given as
/// selector, and the payload field of what it was given as payload: the two
/// fields do not overlap.
pub proof fn lemma_register_byte_fields(selector: u8, payload: u8)
    ensures
        selector_of(spec_register_byte(selector, payload)) == selector_of(selector),
        payload_of(spec_register_byte(selector, payload)) == payload_of(payload),
{
    assert((((selector & 0xe0u8) | (payload & 0x1fu8)) & 0xe0u8) == (selector & 0xe0u8))
        by (bit_vector);
    assert((((selector & 0xe0u8) | (payload & 0x1fu8)) & 0x1fu8) == (payload & 0x1fu8))
        by (bit_vector);
}

/// The register byte as a number: the selector counted in steps of 32, plus
/// the payload modulo 32.
pub proof fn lemma_register_byte_value(selector: u8, payload: u8)
    ensures
        spec_register_byte(selector, payload) == (selector / 32) * 32 + payload % 32,
{
    assert(((selector & 0xe0u8) | (payload & 0x1fu8)) == (selector / 32) * 32 + payload % 32)
        by (bit_vector);
}

/// Bits outside the two fields do not reach the register byte: inputs that
/// agree on the selector field and on the payload field give the same byte.
pub proof fn lemma_register_byte_ignores_other_bits(
    selector_a: u8,
    payload_a: u8,
    selector_b: u8,
    payload_b: u8,
)
    requires
        selector_of(selector_a) == selector_of(selector_b),
        payload_of(payload_a) == payload_of(payload_b),
    ensures
        spec_register_byte(selector_a, payload_a) == spec_register_byte(selector_b, payload_b),
{
}

/// A payload within the five bits is carried whole, and a payload beyond
/// them is cut down to them without an error.
pub proof fn lemma_payload_is_truncated(payload: u8)
    ensures
        payload_of(payload) <= IREG_VAL_MASK,
        payload <= IREG_VAL_MASK ==> payload_of(payload) == payload,
        payload_of(payload) == payload % 32,
{
    assert((payload & 0x1fu8) <= 0x1fu8) by (bit_vector);
    assert(payload <= 0x1fu8 ==> (payload & 0x1fu8) == payload) by (bit_vector);
    assert((payload & 0x1fu8) == payload % 32) by (bit_vector);
}

/// The selector of a register lies wholly in the selector field, so the
/// register byte made from it is the selector plus the payload modulo 32,
/// and that byte selects the same register again.
pub proof fn lemma_selector_fills_its_field(register: Register, payload: u8)
    ensures
        selector_of(register.spec_selector()) == register.spec_selector(),
        payload_of(register.spec_selector()) == 0,
        spec_register_byte(register.spec_selector(), payload) == register.spec_selector()
            + payload % 32,
        Register::selected_by(spec_register_byte(register.spec_selector(), payload)) == register,
{
    let s = register.spec_selector();
    assert(s == 0x00 || s == 0x20 || s == 0x40 || s == 0x60 || s == 0x80 || s == 0xA0 || s == 0xC0
        || s == 0xE0);
    assert((s == 0x00 || s == 0x20 || s == 0x40 || s == 0x60 || s == 0x80 || s == 0xA0 || s
        == 0xC0 || s == 0xE0) ==> (s & 0xe0u8) == s && (s & 0x1fu8) == 0) by (bit_vector);
    lemma_register_byte_fields(s, payload);
    lemma_register_byte_value(s, payload);
}

/// The frame that sets brightness and colour has seven bytes. The first
/// carries `bright` to the LED current register; the third, fifth and
/// seventh carry `red`, `green` and `blue` to PWM channels 1, 2 and 3, each
/// cut to five bits on its own; the bytes between them run a dimming step
/// with payload 0.
pub proof fn lemma_color_frame_layout(bright: u8, red: u8, green: u8, blue: u8)
    ensures
        spec_color_frame(bright, red, green, blue).len() == 7,
        spec_color_frame(bright, red, green, blue) == seq![
            (IREG_LED_CURRENT + bright % 32) as u8,
            IREG_DIM_STEP_RUN,
            (IREG_PWM1 + red % 32) as u8,
            IREG_DIM_STEP_RUN,
            (IREG_PWM2 + green % 32) as u8,
            IREG_DIM_STEP_RUN,
            (IREG_PWM3 + blue % 32) as u8,
        ],
{
    lemma_selector_fills_its_field(Register::LedCurrent, bright);
    lemma_selector_fills_its_field(Register::Pwm1, red);
    lemma_selector_fills_its_field(Register::Pwm2, green);
    lemma_selector_fills_its_field(Register::Pwm3, blue);
    lemma_selector_fills_its_field(Register::DimStepRun, 0);
}

} // verus!
