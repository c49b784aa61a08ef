use embedded_hal::blocking::i2c::{Read, Write, WriteRead};
use ncp5623c::{Error, Transport, NCP5623C};
use std::cell::RefCell;
use std::rc::Rc;

/// The error of the bus below.
#[derive(Debug, Clone, Copy, PartialEq, Eq)]
enum BusError {
    NoAcknowledge,
}

/// A bus in the shape a HAL crate gives it: the three blocking I2C traits,
/// with one error type.
struct HalI2c {
    writes: Rc<RefCell<Vec<(u8, Vec<u8>)>>>,
    present: bool,
}

impl Write for HalI2c {
    type Error = BusError;

    fn write(&mut self, address: u8, bytes: &[u8]) -> Result<(), BusError> {
        self.writes.borrow_mut().push((address, bytes.to_vec()));
        if self.present {
            Ok(())
        } else {
            Err(BusError::NoAcknowledge)
        }
    }
}

impl Read for HalI2c {
    type Error = BusError;

    fn read(&mut self, _address: u8, _buffer: &mut [u8]) -> Result<(), BusError> {
        panic!("the driver never reads")
    }
}

impl WriteRead for HalI2c {
    type Error = BusError;

    fn write_read(&mut self, _address: u8, _bytes: &[u8], _buffer: &mut [u8]) -> Result<(), BusError> {
        panic!("the driver never reads")
    }
}

/// Hands the three calls of the driver's transport to the HAL traits.
struct HalBus<I2C>(I2C);

impl<I2C, CommE> Transport for HalBus<I2C>
where
    I2C: Write<Error = CommE> + Read<Error = CommE> + WriteRead<Error = CommE>,
{
    type Error = CommE;

    fn write(&mut self, address: u8, bytes: &[u8]) -> Result<(), CommE> {
        self.0.write(address, bytes)
    }

    fn read(&mut self, address: u8, buffer: &mut [u8]) -> Result<(), CommE> {
        self.0.read(address, buffer)
    }

    fn write_read(&mut self, address: u8, bytes: &[u8], buffer: &mut [u8]) -> Result<(), CommE> {
        self.0.write_read(address, bytes, buffer)
    }
}

fn bus(present: bool) -> (HalBus<HalI2c>, Rc<RefCell<Vec<(u8, Vec<u8>)>>>) {
    let writes = Rc::new(RefCell::new(Vec::new()));
    (HalBus(HalI2c { writes: writes.clone(), present }), writes)
}

#[test]
fn hal_bus_carries_every_operation() {
    let (bus, writes) = bus(true);
    let mut dev = match NCP5623C::default(bus) {
        Ok(dev) => dev,
        Err(e) => panic!("the reset was refused: {:?}", e),
    };
    assert!(dev.set_brightness(0x1F).is_ok());
    assert!(dev.set_register_bits(0xA0, 0x03).is_ok());
    assert!(dev.set_color_brightness(31, 31, 0, 16).is_ok());
    assert!(dev.reset().is_ok());
    assert_eq!(
        *writes.borrow(),
        vec![
            (0x39, vec![0x00]),
            (0x39, vec![0x3F]),
            (0x39, vec![0xA3]),
            (0x39, vec![0x3F, 0xE0, 0x5F, 0xE0, 0x60, 0xE0, 0x90]),
            (0x39, vec![0x00]),
        ]
    );
}

#[test]
fn hal_bus_error_comes_back_as_comm() {
    let (bus, writes) = bus(false);
    match NCP5623C::new(bus, 0x39) {
        Ok(_) => panic!("a handle was made though no device answered"),
        Err(Error::Comm(e)) => assert_eq!(e, BusError::NoAcknowledge),
    }
    assert_eq!(*writes.borrow(), vec![(0x39, vec![0x00])]);
}
