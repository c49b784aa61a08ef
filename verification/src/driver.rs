//! The device handle and its operations.

use crate::error::{comm_result, lemma_failure_is_passed_on, lemma_result_names_its_outcome};
use crate::error::{spec_comm_result, transport_outcome, Error};
use crate::register::{
    color_frame, register_byte, spec_color_frame, spec_register_byte, Register, IREG_LED_CURRENT,
    IREG_SHUTDOWN,
};
use crate::transport::{Recorded, Transfer, Transport};
use vstd::prelude::*;

verus! {

/// Bus address the chip answers to unless it is told otherwise.
pub const DEFAULT_I2C_ADDRESS: u8 = 0x39;

/// A handle to one NCP5623C: the transport it owns and the bus address it
/// writes to.
///
/// The driver keeps no record of what the chip holds: every operation encodes
/// its arguments and asks the transport for one write. What is kept, as ghost
/// state beside the transport, is the list of those writes, so that the
/// contracts can say what was put on the bus.
pub struct NCP5623C<I2C: Transport> {
    i2c_port: Recorded<I2C>,
    address: u8,
}

/// The frame that switches the LED current off: the shutdown register with
/// payload 0.
pub open spec fn reset_frame() -> Seq<u8> {
    seq![spec_register_byte(IREG_SHUTDOWN, 0)]
}

/// The frame that switches the LED current off is the single byte `0x00`.
pub proof fn lemma_reset_frame()
    ensures
        reset_frame() == seq![0x00u8],
{
    assert(spec_register_byte(0x00, 0) == 0x00) by (bit_vector);
}

/// Every write in `log` went to `address`.
pub open spec fn all_sent_to<E>(log: Seq<Transfer<E>>, address: u8) -> bool {
    forall|i: int| 0 <= i < log.len() ==> (#[trigger] log[i]).address == address
}

impl<I2C: Transport> NCP5623C<I2C> {
    /// The bus address this handle writes to.
    pub closed spec fn address(&self) -> u8 {
        self.address
    }

    /// The writes this handle has asked of its transport since it was made,
    /// oldest first, each with the transport's answer.
    pub closed spec fn sent(&self) -> Seq<Transfer<I2C::Error>> {
        self.i2c_port.sent()
    }

    /// The write of `frame` to this handle's address that ended as `result`
    /// reports.
    pub open spec fn write_of(&self, frame: Seq<u8>, result: Result<(), Error<I2C::Error>>) -> Transfer<
        I2C::Error,
    > {
        Transfer { address: self.address(), bytes: frame, outcome: transport_outcome(result) }
    }

    /// Takes `i2c_port` and makes a handle for the chip at its default
    /// address, `0x39`, as [`NCP5623C::new`] does for a given one.
    pub fn default(i2c_port: I2C) -> (made: Result<Self, Error<I2C::Error>>)
        ensures
            made matches Ok(dev) ==> dev.address() == DEFAULT_I2C_ADDRESS && dev.sent()
                == seq![dev.write_of(reset_frame(), Ok(()))],
    {
        Self::new(i2c_port, DEFAULT_I2C_ADDRESS)
    }

    /// Takes `i2c_port` and makes a handle for the chip at `address`.
    ///
    /// The chip is reset first, so that a handle is only ever returned with
    /// the LED current off. If that write fails, its error is returned and
    /// the transport is dropped with the handle that was never handed out.
    pub fn new(i2c_port: I2C, address: u8) -> (made: Result<Self, Error<I2C::Error>>)
        ensures
            made matches Ok(dev) ==> dev.address() == address && dev.sent() == seq![
                dev.write_of(reset_frame(), Ok(())),
            ],
    {
        let mut inst = NCP5623C { i2c_port: Recorded::take(i2c_port), address };
        let first = inst.reset();
        inst.hand_out(first)
    }

    /// Switches the LED current off: one write of the shutdown register with
    /// payload 0.
    pub fn reset(&mut self) -> (result: Result<(), Error<I2C::Error>>)
        ensures
            final(self).address() == old(self).address(),
            final(self).sent() == old(self).sent().push(old(self).write_of(reset_frame(), result)),
    {
        self.set_register_bits(Register::Shutdown.selector(), 0)
    }

    /// Sets the LED current: one write of the LED current register with the
    /// lower five bits of `current`. Higher bits of `current` are dropped,
    /// not refused.
    pub fn set_brightness(&mut self, current: u8) -> (result: Result<(), Error<I2C::Error>>)
        ensures
            final(self).address() == old(self).address(),
            final(self).sent() == old(self).sent().push(
                old(self).write_of(seq![spec_register_byte(IREG_LED_CURRENT, current)], result),
            ),
    {
        self.set_register_bits(Register::LedCurrent.selector(), current)
    }

    /// Writes one register byte: the upper three bits of `reg` joined with
    /// the lower five bits of `val`. The other bits of both are dropped.
    pub fn set_register_bits(&mut self, reg: u8, val: u8) -> (result: Result<
        (),
        Error<I2C::Error>,
    >)
        ensures
            final(self).address() == old(self).address(),
            final(self).sent() == old(self).sent().push(
                old(self).write_of(seq![spec_register_byte(reg, val)], result),
            ),
    {
        let write_buf = [register_byte(reg, val)];
        assert(write_buf@ =~= seq![spec_register_byte(reg, val)]);
        self.send(write_buf.as_slice())
    }

    /// Sets the LED current and the three colour channels at once: one write
    /// of the seven bytes of [`spec_color_frame`], each payload cut to its
    /// lower five bits.
    pub fn set_color_brightness(&mut self, bright: u8, red: u8, green: u8, blue: u8) -> (result:
        Result<(), Error<I2C::Error>>)
        ensures
            final(self).address() == old(self).address(),
            final(self).sent() == old(self).sent().push(
                old(self).write_of(spec_color_frame(bright, red, green, blue), result),
            ),
    {
        let write_buf = color_frame(bright, red, green, blue);
        self.send(write_buf.as_slice())
    }

    /// Asks the transport for one write of `frame` to this handle's address
    /// and passes the answer on.
    fn send(&mut self, frame: &[u8]) -> (result: Result<(), Error<I2C::Error>>)
        ensures
            final(self).address() == old(self).address(),
            final(self).sent() == old(self).sent().push(old(self).write_of(frame@, result)),
    {
        let outcome = self.i2c_port.write(self.address, frame);
        proof {
            lemma_failure_is_passed_on(outcome);
        }
        comm_result(outcome)
    }

    /// What construction hands back once the first reset has ended as
    /// `first` reports: the handle if it went through, and otherwise the
    /// error of the reset and no handle.
    fn hand_out(self, first: Result<(), Error<I2C::Error>>) -> (made: Result<Self, Error<I2C::Error>>)
        ensures
            made == (match first {
                Ok(()) => Ok::<Self, Error<I2C::Error>>(self),
                Err(e) => Err(e),
            }),
    {
        match first {
            Ok(()) => Ok(self),
            Err(e) => Err(e),
        }
    }

    /// An operation asks the transport for exactly one write, to the handle's
    /// address, whether it succeeds or not, and returns what the transport
    /// answered: a failure is the transport's own error inside `Comm`.
    pub proof fn lemma_one_write_per_operation(
        before: Self,
        after: Self,
        frame: Seq<u8>,
        result: Result<(), Error<I2C::Error>>,
    )
        requires
            after.sent() == before.sent().push(before.write_of(frame, result)),
        ensures
            after.sent().len() == before.sent().len() + 1,
            after.sent().drop_last() == before.sent(),
            after.sent().last().address == before.address(),
            after.sent().last().bytes == frame,
            result == spec_comm_result(after.sent().last().outcome),
    {
        lemma_result_names_its_outcome(result);
    }

    /// A handle that was just made has written to its own address only.
    pub proof fn lemma_fresh_handle_keeps_to_address(dev: Self)
        requires
            dev.sent() == seq![dev.write_of(reset_frame(), Ok(()))],
        ensures
            all_sent_to(dev.sent(), dev.address()),
    {
    }

    /// A handle writes to the address it was made with and to no other: if
    /// that holds of all it has sent, it still holds after one more
    /// operation.
    pub proof fn lemma_operation_keeps_to_address(
        before: Self,
        after: Self,
        frame: Seq<u8>,
        result: Result<(), Error<I2C::Error>>,
    )
        requires
            all_sent_to(before.sent(), before.address()),
            after.address() == before.address(),
            after.sent() == before.sent().push(before.write_of(frame, result)),
        ensures
            all_sent_to(after.sent(), after.address()),
    {
    }
}

} // verus!
