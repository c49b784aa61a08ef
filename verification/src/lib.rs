//! Driver for the NCP5623C LED current controller on a two-wire bus.
//!
//! The chip has a single 8-bit register. Its upper three bits select one of
//! eight internal registers and its lower five bits carry that register's
//! payload. [`register`] holds this encoding, [`transport`] states what the
//! driver asks of the bus, and [`driver`] turns each operation into exactly
//! one write on it.

pub mod driver;
pub mod error;
pub mod register;
pub mod transport;

pub use driver::{DEFAULT_I2C_ADDRESS, NCP5623C};
pub use error::{comm_result, Error};
pub use register::{
    color_frame, register_byte, Register, BRIGHTNESS_HALF, BRIGHTNESS_LOW, BRIGHTNESS_MAX,
    BRIGHTNESS_OFF, IREG_DIM_STEP_RUN, IREG_DOWNWARD_LEND, IREG_LED_CURRENT, IREG_PWM1,
    IREG_PWM2, IREG_PWM3, IREG_REG_MASK, IREG_SHUTDOWN, IREG_UPWARD_LEND, IREG_VAL_MASK,
};
pub use transport::{Transfer, Transport};
