use embedded_hal::i2c::{self, ErrorKind, ErrorType, I2c, Operation, SevenBitAddress};
use lsm9ds1::interface::i2c::{AddressAg, AddressM, Config, I2cInterface};
use lsm9ds1::registers::Register;
use lsm9ds1::Lsm9ds1Error;

/// A dummy I2C bus that sends preset data and records what is sent to it.
pub struct DummyI2c {
    last_addr: SevenBitAddress,
    rx_buffer: Vec<u8>,
    tx_buffer: Vec<u8>,
    fail: bool,
}

/// Errors reported by the dummy I2C bus.
#[derive(Debug)]
pub struct DummyError;

impl i2c::Error for DummyError {
    fn kind(&self) -> ErrorKind {
        ErrorKind::Other
    }
}

impl DummyI2c {
    /// Create a new dummy bus.
    pub fn new() -> Self {
        Self {
            last_addr: 0x00,
            rx_buffer: Vec::new(),
            tx_buffer: vec![0u8],
            fail: false,
        }
    }

    /// Create a new dummy bus with preset tx data.
    pub fn new_with_tx(tx: &[u8]) -> Self {
        let mut i2c = Self::new();
        i2c.set_tx(tx);
        i2c
    }

    /// A bus on which every transaction fails.
    pub fn failing() -> Self {
        let mut i2c = Self::new();
        i2c.fail = true;
        i2c
    }

    /// Last message received by the bus.
    pub fn rx(&self) -> Vec<u8> {
        self.rx_buffer.clone()
    }

    /// Set data to be sent by the bus.
    pub fn set_tx(&mut self, bytes: &[u8]) {
        self.tx_buffer = bytes.to_owned();
    }

    /// Last address accessed via the bus.
    pub fn last_addr(&self) -> u8 {
        self.last_addr
    }
}

impl ErrorType for DummyI2c {
    type Error = DummyError;
}

impl I2c<SevenBitAddress> for DummyI2c {
    fn transaction(
        &mut self,
        address: SevenBitAddress,
        ops: &mut [Operation],
    ) -> Result<(), Self::Error> {
        if self.fail {
            return Err(DummyError);
        }
        self.last_addr = address;

        for op in ops.iter_mut() {
            match op {
                Operation::Read(buf) => {
                    let tx_iter = self.tx_buffer.iter().cycle();
                    for (buf_byte, tx_byte) in buf.iter_mut().zip(tx_iter) {
                        *buf_byte = *tx_byte;
                    }
                }
                Operation::Write(buf) => {
                    self.rx_buffer = Vec::from(*buf);
                }
            }
        }

        Ok(())
    }
}

#[test]
fn read_reg_ag() {
    let i2c = DummyI2c::new();
    let cfg = Config {
        addr_ag: AddressAg::_0x6b,
        addr_m: AddressM::_0x1e,
    };

    let mut interface = I2cInterface::new(i2c, cfg);

    let _ = interface
        .read(Register::WHO_AM_I)
        .expect("Error in I2C interface");

    assert_eq!(interface.bus().last_addr(), 0x6b, "Wrong I2C address");
    assert_eq!(interface.bus().rx(), vec![0x0f], "Wrong register address");
}

#[test]
fn write_reg_ag() {
    let i2c = DummyI2c::new();
    let cfg = Config {
        addr_ag: AddressAg::_0x6a,
        addr_m: AddressM::_0x1c,
    };

    let mut interface = I2cInterface::new(i2c, cfg);

    interface
        .write(Register::WHO_AM_I, 0xff)
        .expect("Error in I2C interface");

    assert_eq!(interface.bus().last_addr(), 0x6a, "Wrong I2C address");
    assert_eq!(
        interface.bus().rx(),
        vec![0x0f, 0xff],
        "Wrong register and/or data"
    );
}

#[test]
fn write_to_dummy_i2c() {
    let mut i2c = DummyI2c::new();

    let addr: u8 = 0xaa;
    let msg = vec![0xbb, 0xcc];
    i2c.write(addr, &msg).expect("Error during I2C write");

    assert_eq!(
        i2c.last_addr(),
        addr,
        "Address received by dummy doesn't match"
    );

    let rx = i2c.rx();
    assert_eq!(msg, rx, "Data received by dummy doesn't match sent message");
}

#[test]
fn read_from_dummy_i2c() {
    let mut i2c = DummyI2c::new_with_tx(&[1, 2, 3]);

    let addr = 0xbb;
    let mut buf = vec![0, 0, 0, 0, 0];

    i2c.read(addr, &mut buf).expect("Error during I2C read");

    assert_eq!(
        i2c.last_addr(),
        addr,
        "Address received by dummy doesn't match"
    );

    assert_eq!(
        buf,
        vec![1, 2, 3, 1, 2],
        "Data read from dummy doesn't match set TX buffer"
    );
}

#[test]
fn read_write_dummy_i2c() {
    let mut i2c = DummyI2c::new_with_tx(&[1, 1, 2, 3, 5, 8, 13]);

    let addr = 0xcc;
    let tx = vec![100, 99, 98];
    let mut rx = vec![0, 0, 0, 0, 0];

    i2c.write_read(addr, &tx, &mut rx)
        .expect("Error during I2C write_read");

    assert_eq!(
        i2c.last_addr(),
        addr,
        "Address reveived by dummy doesn't match"
    );
    assert_eq!(i2c.rx(), tx, "Data received by dummy doesn't match");
    assert_eq!(
        rx,
        vec![1, 1, 2, 3, 5],
        "Data read from dummy doesn't match"
    );
}

#[test]
fn magnetometer_register_goes_to_magnetometer_address() {
    let mut interface = I2cInterface::new(DummyI2c::new(), Config::default());
    interface.write(Register::CTRL_REG3_M, 0x02).unwrap();
    assert_eq!(interface.bus().last_addr(), 0x1e);
    assert_eq!(interface.bus().rx(), vec![0x22, 0x02]);
}

#[test]
fn default_addresses_and_target() {
    let cfg = Config::default();
    assert_eq!(cfg.addr_ag, AddressAg::_0x6b);
    assert_eq!(cfg.addr_m, AddressM::_0x1e);
    assert_eq!(cfg.target(Register::CTRL_REG1_G), (0x6b, 0x10));
    assert_eq!(cfg.target(Register::OUT_X_L_M), (0x1e, 0x28));
}

#[test]
fn read_multiple_fills_buffer_from_start_register() {
    let mut interface = I2cInterface::new(
        DummyI2c::new_with_tx(&[1, 2, 3, 4, 5, 6]),
        Config::default(),
    );
    let mut buf = [0u8; 6];
    interface
        .read_multiple(Register::OUT_X_L_XL, &mut buf)
        .unwrap();
    assert_eq!(buf, [1, 2, 3, 4, 5, 6]);
    assert_eq!(interface.bus().rx(), vec![0x28]);
    assert_eq!(interface.bus().last_addr(), 0x6b);
}

#[test]
fn bus_failure_is_reported_as_its_kind() {
    let mut interface = I2cInterface::new(DummyI2c::failing(), Config::default());
    match interface.write(Register::CTRL_REG4, 0x38) {
        Err(Lsm9ds1Error::I2cError(kind)) => assert_eq!(kind, ErrorKind::Other),
        Ok(()) => panic!("a failing bus must fail the write"),
    }
    assert!(interface.read(Register::WHO_AM_I).is_err());
}

#[test]
fn frames_carry_register_address_and_value() {
    let cfg = Config {
        addr_ag: AddressAg::_0x6a,
        addr_m: AddressM::_0x1c,
    };
    assert_eq!(cfg.write_frame(Register::WHO_AM_I, 0xff), (0x6a, [0x0f, 0xff]));
    assert_eq!(cfg.write_frame(Register::CTRL_REG2_M, 0x60), (0x1c, [0x21, 0x60]));
    assert_eq!(cfg.read_frame(Register::OUT_TEMP_L), (0x6a, [0x15]));
    assert_eq!(cfg.read_frame(Register::WHO_AM_I_M), (0x1c, [0x0f]));
}
