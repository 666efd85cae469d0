use vstd::prelude::*;
use crate::config::{
    apply_masked, encode_fifo_downs, encode_fifo_enable, encode_odr_bw, encode_range,
    fifo_config_byte, masked, max_odr, odr_bw_byte, range_code, Sensor, ACC_RANGE_MASK, GYR_RANGE_MASK, ODR_BW_MASK,
};
use crate::fifo::{decode_spec, decode_with_carry, DecodeResult, FifoConfig};
use crate::register::{Cmd, Register};

verus! {

/// I2C address of the sensor with its address pin low.
pub const ADDRESS: u8 = 0x68;

/// Bytes read past the FIFO's reported length in header mode, so that a trailing
/// sensor-time frame comes out whole.
pub const FIFO_OVER_READ: usize = 25;

/// Bits of the FIFO downsampling register that hold the two shifts.
pub const FIFO_DOWNS_MASK: u8 = 0x77;

/// Bits of the second FIFO configuration register that hold the stream enables,
/// the header mode and the sensor time; the interrupt tag bits are kept.
pub const FIFO_ENABLE_MASK: u8 = 0xF2;

/// One transaction on the bus, as the driver's contracts speak of it.
pub struct Transfer<E> {
    /// The device address.
    pub address: u8,
    /// The bytes written.
    pub bytes: Seq<u8>,
    /// For a write followed by a read, the bytes that were read.
    pub read: Option<Seq<u8>>,
    /// What the transaction returned.
    pub result: Result<(), E>,
}

/// The transactions made on a bus, oldest first.
pub type TransferLog<E> = Seq<Transfer<E>>;

/// The bus the sensor sits on: the transactions the driver needs of it. Users
/// implement it for their I2C peripheral. `log` is the sequence of transactions
/// made so far; each call adds its own at the end, with the bytes it wrote,
/// the bytes it read and its result.
pub trait Bus {
    /// What a failed transaction reports.
    type Error;

    /// The transactions made on the bus so far, oldest first. It exists for
    /// proofs only: compiled code never calls it.
    spec fn log(&self) -> TransferLog<Self::Error>;

    /// Writes `bytes` to the device at `address`, then reads `buffer.len()` bytes
    /// from it into `buffer`.
    fn write_read(&mut self, address: u8, bytes: &[u8], buffer: &mut [u8]) -> (r: Result<(), Self::Error>)
        ensures
            final(buffer)@.len() == old(buffer)@.len(),
            final(self).log() == old(self).log().push(
                Transfer { address, bytes: bytes@, read: Some(final(buffer)@), result: r },
            ),
    ;

    /// Writes `bytes` to the device at `address`.
    fn write(&mut self, address: u8, bytes: &[u8]) -> (r: Result<(), Self::Error>)
        ensures
            final(self).log() == old(self).log().push(
                Transfer { address, bytes: bytes@, read: None, result: r },
            ),
    ;
}

/// `after` is `before` and one more transaction: `bytes` written to the sensor,
/// then `len` bytes read back.
pub open spec fn read_step<E>(before: Seq<Transfer<E>>, after: Seq<Transfer<E>>, bytes: Seq<u8>, len: nat) -> bool {
    &&& after.len() == before.len() + 1
    &&& after == before.push(after.last())
    &&& after.last().address == ADDRESS
    &&& after.last().bytes == bytes
    &&& after.last().read is Some
    &&& after.last().read->Some_0.len() == len
}

/// `after` is `before` and one more transaction: `bytes` written to the sensor.
pub open spec fn write_step<E>(before: Seq<Transfer<E>>, after: Seq<Transfer<E>>, bytes: Seq<u8>) -> bool {
    &&& after.len() == before.len() + 1
    &&& after == before.push(after.last())
    &&& after.last().address == ADDRESS
    &&& after.last().bytes == bytes
    &&& after.last().read is None
}

/// The bytes the last transaction of `log` read.
pub open spec fn last_read<E>(log: Seq<Transfer<E>>) -> Seq<u8> {
    log.last().read->Some_0
}

/// `v` where the bus call succeeded, else the bus error as it came.
pub open spec fn passed<T, E>(res: Result<(), E>, v: T) -> Result<T, E> {
    match res {
        Ok(_) => Ok(v),
        Err(e) => Err(e),
    }
}

/// `v` where the bus call succeeded, else the bus error as a communication error.
pub open spec fn passed_comm<T, E>(res: Result<(), E>, v: T) -> Result<T, Error<E>> {
    match res {
        Ok(_) => Ok(v),
        Err(e) => Err(Error::Communication(e)),
    }
}

/// A read-modify-write of the register at `addr`: one read of its byte `v`; if
/// that succeeded, one write of `[addr, masked(v, mask, field)]`, and `r` is that
/// byte; a bus error ends it as a communication error.
pub open spec fn update_step<E>(
    before: Seq<Transfer<E>>,
    after: Seq<Transfer<E>>,
    addr: u8,
    mask: u8,
    field: u8,
    r: Result<u8, Error<E>>,
) -> bool {
    let mid = after.subrange(0, before.len() + 1 as int);
    &&& after.len() > before.len()
    &&& read_step(before, mid, seq![addr], 1)
    &&& match mid.last().result {
        Err(e) => after == mid && r == Err::<u8, Error<E>>(Error::Communication(e)),
        Ok(_) => {
            let b = masked(last_read(mid)[0], mask, field);
            write_step(mid, after, seq![addr, b]) && r == passed_comm(after.last().result, b)
        },
    }
}

/// A read-modify-write writes the byte it read with the bits of `mask` taken from
/// `field` and every other bit kept; and repeating it, where the second read finds
/// the byte the first one wrote, writes that same byte again.
pub proof fn lemma_update_repeat<E>(
    l0: Seq<Transfer<E>>,
    l1: Seq<Transfer<E>>,
    l2: Seq<Transfer<E>>,
    addr: u8,
    mask: u8,
    field: u8,
    r1: Result<u8, Error<E>>,
    r2: Result<u8, Error<E>>,
)
    requires
        update_step(l0, l1, addr, mask, field, r1),
        update_step(l1, l2, addr, mask, field, r2),
        r1 is Ok,
        last_read(l2.subrange(0, l1.len() + 1 as int))[0] == r1->Ok_0,
    ensures
        r1->Ok_0 & !mask == last_read(l1.subrange(0, l0.len() + 1 as int))[0] & !mask,
        r1->Ok_0 & mask == field & mask,
        l2.subrange(0, l1.len() + 1 as int).last().result is Ok ==> l2.last().bytes == seq![addr, r1->Ok_0],
        r2 is Ok ==> r2 == r1,
{
    let v = last_read(l1.subrange(0, l0.len() + 1 as int))[0];
    crate::config::lemma_apply_masked_idempotent(v, mask, field);
    assert(masked(v, mask, field) & mask == field & mask) by (bit_vector);
}

/// The configuration register of a sensor's data rate and bandwidth.
pub open spec fn conf_register(sensor: Sensor) -> Register {
    match sensor {
        Sensor::Accel => Register::ACC_CONF,
        Sensor::Gyro => Register::GYR_CONF,
    }
}

/// The range register of a sensor, and the bits of it that hold the range.
pub open spec fn range_register(sensor: Sensor) -> (Register, u8) {
    match sensor {
        Sensor::Accel => (Register::ACC_RANGE, ACC_RANGE_MASK),
        Sensor::Gyro => (Register::GYR_RANGE, GYR_RANGE_MASK),
    }
}

/// The FIFO fill level held by the two bytes of the length register: 11 bits.
pub open spec fn fifo_length_spec(lsb: u8, msb: u8) -> int {
    (msb as int % 8) * 256 + lsb as int
}

/// The FIFO fill level from the two bytes of the length register.
pub fn fifo_length_of(lsb: u8, msb: u8) -> (r: u16)
    ensures
        r as int == fifo_length_spec(lsb, msb),
        r < 2048,
{
    (msb % 8) as u16 * 256 + lsb as u16
}

/// Bytes read from the FIFO data register for a reported fill level.
pub open spec fn fifo_read_count(length: int, config: FifoConfig) -> int {
    if config.header_mode { length + FIFO_OVER_READ } else { length }
}

/// Errors of the driver.
#[derive(Clone, Copy, Debug, PartialEq, Eq)]
pub enum Error<E> {
    /// A bus transaction failed.
    Communication(E),
    /// A setting was outside the values the sensor documents; nothing was written.
    InvalidConfiguration,
    /// A write to a register that can only be read; nothing was written.
    ReadOnlyRegister,
    /// Fast offset compensation did not finish within the attempt budget.
    FocTimeout,
}

/// Raw data of three axes as read from the data register: the least and the
/// most significant byte of each.
#[derive(Clone, Copy, Debug, PartialEq, Eq, Structural)]
pub struct DataXYZRaw {
    /// X LSB
    pub x_lsb: u8,
    /// X MSB
    pub x_msb: u8,
    /// Y LSB
    pub y_lsb: u8,
    /// Y MSB
    pub y_msb: u8,
    /// Z LSB
    pub z_lsb: u8,
    /// Z MSB
    pub z_msb: u8,
}

/// The raw data read from the data register.
#[derive(Clone, Copy, Debug, PartialEq, Eq, Structural)]
pub struct Data {
    /// Magnetometer XYZ raw data
    pub mag: DataXYZRaw,
    /// RHALL LSB data
    pub rhall_lsb: u8,
    /// RHALL MSB data
    pub rhall_msb: u8,
    /// Gyroscope XYZ raw data
    pub gyro: DataXYZRaw,
    /// Accelerometer XYZ raw data
    pub accel: DataXYZRaw,
}

/// Bytes of the data register block: magnetometer, hall resistance, gyroscope,
/// accelerometer.
pub const DATA_LEN: usize = 20;

/// The three axes whose bytes start at `i`.
pub open spec fn xyz_raw_at(b: Seq<u8>, i: int) -> DataXYZRaw {
    DataXYZRaw {
        x_lsb: b[i],
        x_msb: b[i + 1],
        y_lsb: b[i + 2],
        y_msb: b[i + 3],
        z_lsb: b[i + 4],
        z_msb: b[i + 5],
    }
}

/// The data block held by the first twenty bytes of `b`.
pub open spec fn data_of(b: Seq<u8>) -> Data {
    Data {
        mag: xyz_raw_at(b, 0),
        rhall_lsb: b[6],
        rhall_msb: b[7],
        gyro: xyz_raw_at(b, 8),
        accel: xyz_raw_at(b, 14),
    }
}

impl Data {
    /// Returns a new Data struct from the data buffer returned
    /// from the Data register.
    pub fn new_from_buffer(buffer: &mut [u8]) -> (r: Self)
        requires
            old(buffer)@.len() >= DATA_LEN,
        ensures
            r == data_of(old(buffer)@),
            final(buffer)@ == old(buffer)@,
    {
        Data {
            mag: DataXYZRaw {
                x_lsb: buffer[0],
                x_msb: buffer[1],
                y_lsb: buffer[2],
                y_msb: buffer[3],
                z_lsb: buffer[4],
                z_msb: buffer[5],
            },
            rhall_lsb: buffer[6],
            rhall_msb: buffer[7],
            gyro: DataXYZRaw {
                x_lsb: buffer[8],
                x_msb: buffer[9],
                y_lsb: buffer[10],
                y_msb: buffer[11],
                z_lsb: buffer[12],
                z_msb: buffer[13],
            },
            accel: DataXYZRaw {
                x_lsb: buffer[14],
                x_msb: buffer[15],
                y_lsb: buffer[16],
                y_msb: buffer[17],
                z_lsb: buffer[18],
                z_msb: buffer[19],
            },
        }
    }
}

/// BMI160 driver
pub struct Bmi160<I2C> {
    i2c: I2C,
}

impl<I2C: Bus> Bmi160<I2C> {
    /// The bus the driver talks over.
    pub closed spec fn bus(self) -> I2C {
        self.i2c
    }

    /// The transactions made on the driver's bus so far.
    pub open spec fn log(self) -> Seq<Transfer<I2C::Error>> {
        self.bus().log()
    }

    /// Create a new driver from the given bus.
    pub fn new(i2c: I2C) -> (r: Result<Self, I2C::Error>)
        ensures
            r is Ok,
            r is Ok ==> r->Ok_0.bus() == i2c,
    {
        Ok(Bmi160 { i2c })
    }

    /// Hands the bus back.
    pub fn release(self) -> (r: I2C)
        ensures
            r == self.bus(),
    {
        self.i2c
    }

    /// Reads one register: writes its address, reads one byte and returns it.
    pub fn read_register(&mut self, register: Register) -> (r: Result<u8, I2C::Error>)
        ensures
            read_step(old(self).log(), final(self).log(), seq![register.spec_addr()], 1),
            r == passed(final(self).log().last().result, last_read(final(self).log())[0]),
    {
        let input = vec![register.addr()];
        let mut output = vec![0u8];
        let res = self.i2c.write_read(ADDRESS, input.as_slice(), output.as_mut_slice());
        assert(input@ =~= seq![register.spec_addr()]);
        match res {
            Ok(()) => Ok(output[0]),
            Err(e) => Err(e),
        }
    }

    /// Get the chip ID
    pub fn get_chip_id(&mut self) -> (r: Result<u8, I2C::Error>)
        ensures
            read_step(old(self).log(), final(self).log(), seq![0x00u8], 1),
            r == passed(final(self).log().last().result, last_read(final(self).log())[0]),
    {
        self.read_register(Register::CHIP_ID)
    }

    /// Read the data (magnetometer, hall resistance, gyroscope, accelerometer)
    /// from the data register block.
    pub fn read_data(&mut self) -> (r: Result<Data, I2C::Error>)
        ensures
            read_step(old(self).log(), final(self).log(), seq![0x04u8], DATA_LEN as nat),
            r == passed(final(self).log().last().result, data_of(last_read(final(self).log()))),
    {
        let input = vec![Register::DATA.addr()];
        let mut buffer = vec![0u8; DATA_LEN];
        let res = self.i2c.write_read(ADDRESS, input.as_slice(), buffer.as_mut_slice());
        assert(input@ =~= seq![0x04u8]);
        match res {
            Ok(()) => {
                let d = Data::new_from_buffer(buffer.as_mut_slice());
                Ok(d)
            },
            Err(e) => Err(e),
        }
    }

    /// Resets and restarts the device.
    pub fn soft_reset(&mut self) -> (r: Result<(), I2C::Error>)
        ensures
            write_step(old(self).log(), final(self).log(), seq![0x7Eu8, 0xB6u8]),
            r == final(self).log().last().result,
    {
        let bytes = vec![Register::CMD.addr(), Cmd::SOFT_RESET.code()];
        let res = self.i2c.write(ADDRESS, bytes.as_slice());
        assert(bytes@ =~= seq![0x7Eu8, 0xB6u8]);
        res
    }

    /// Write to the given register. A register that can only be read is refused
    /// before the bus is touched.
    pub fn write_register(&mut self, register: Register, value: u8) -> (r: Result<(), Error<I2C::Error>>)
        ensures
            register.spec_read_only() ==> r == Err::<(), Error<I2C::Error>>(Error::ReadOnlyRegister)
                && final(self).bus() == old(self).bus(),
            !register.spec_read_only() ==> write_step(old(self).log(), final(self).log(), seq![register.spec_addr(), value])
                && r == passed_comm(final(self).log().last().result, ()),
    {
        if register.read_only() {
            return Err(Error::ReadOnlyRegister);
        }
        let bytes = vec![register.addr(), value];
        let res = self.i2c.write(ADDRESS, bytes.as_slice());
        assert(bytes@ =~= seq![register.spec_addr(), value]);
        match res {
            Ok(()) => Ok(()),
            Err(e) => Err(Error::Communication(e)),
        }
    }

    /// Write to a given register, then read the result
    pub fn write_read_register(&mut self, register: Register, buffer: &mut [u8]) -> (r: Result<(), I2C::Error>)
        ensures
            final(buffer)@.len() == old(buffer)@.len(),
            final(self).log() == old(self).log().push(
                Transfer { address: ADDRESS, bytes: seq![register.spec_addr()], read: Some(final(buffer)@), result: r },
            ),
    {
        let input = vec![register.addr()];
        let res = self.i2c.write_read(ADDRESS, input.as_slice(), buffer);
        assert(input@ =~= seq![register.spec_addr()]);
        res
    }

    /// Sets the bits of `mask` in a register from `field` and keeps the others:
    /// reads the register, then writes the merged byte, which it returns.
    pub fn update_register(&mut self, register: Register, mask: u8, field: u8) -> (r: Result<u8, Error<I2C::Error>>)
        ensures
            register.spec_read_only() ==> r == Err::<u8, Error<I2C::Error>>(Error::ReadOnlyRegister)
                && final(self).bus() == old(self).bus(),
            !register.spec_read_only() ==> update_step(old(self).log(), final(self).log(), register.spec_addr(), mask, field, r),
    {
        if register.read_only() {
            return Err(Error::ReadOnlyRegister);
        }
        let ghost before = self.log();
        let current = match self.read_register(register) {
            Ok(v) => v,
            Err(e) => {
                assert(self.log().subrange(0, before.len() + 1 as int) =~= self.log());
                return Err(Error::Communication(e));
            },
        };
        let ghost mid = self.log();
        let merged = apply_masked(current, mask, field);
        let res = self.write_register(register, merged);
        proof {
            let after = self.log();
            assert(after.subrange(0, before.len() + 1 as int) =~= mid);
        }
        match res {
            Ok(()) => Ok(merged),
            Err(e) => Err(e),
        }
    }

    /// Sets the output data rate and bandwidth codes of `sensor`. Codes outside the
    /// documented ones are refused before the bus is touched.
    pub fn set_odr_bw(&mut self, sensor: Sensor, odr: u8, bandwidth: u8) -> (r: Result<u8, Error<I2C::Error>>)
        ensures
            !(odr <= max_odr(sensor) && bandwidth <= 7) ==> r == Err::<u8, Error<I2C::Error>>(Error::InvalidConfiguration)
                && final(self).bus() == old(self).bus(),
            odr <= max_odr(sensor) && bandwidth <= 7 ==> update_step(old(self).log(), final(self).log(),
                conf_register(sensor).spec_addr(), ODR_BW_MASK, odr_bw_byte(odr, bandwidth), r),
    {
        let field = match encode_odr_bw(sensor, odr, bandwidth) {
            Ok(b) => b,
            Err(_) => {
                return Err(Error::InvalidConfiguration);
            },
        };
        let register = match sensor {
            Sensor::Accel => Register::ACC_CONF,
            Sensor::Gyro => Register::GYR_CONF,
        };
        self.update_register(register, ODR_BW_MASK, field)
    }

    /// Sets the measurement range of `sensor` from its full scale. A full scale
    /// the sensor does not offer is refused before the bus is touched.
    pub fn set_range(&mut self, sensor: Sensor, full_scale: u16) -> (r: Result<u8, Error<I2C::Error>>)
        ensures
            range_code(sensor, full_scale) is None ==> r == Err::<u8, Error<I2C::Error>>(Error::InvalidConfiguration)
                && final(self).bus() == old(self).bus(),
            range_code(sensor, full_scale) is Some ==> update_step(old(self).log(), final(self).log(),
                range_register(sensor).0.spec_addr(), range_register(sensor).1,
                range_code(sensor, full_scale)->Some_0, r),
    {
        let field = match encode_range(sensor, full_scale) {
            Ok(b) => b,
            Err(_) => {
                return Err(Error::InvalidConfiguration);
            },
        };
        match sensor {
            Sensor::Accel => self.update_register(Register::ACC_RANGE, ACC_RANGE_MASK, field),
            Sensor::Gyro => self.update_register(Register::GYR_RANGE, GYR_RANGE_MASK, field),
        }
    }

    /// Writes the FIFO configuration: the downsampling shifts, then the enabled
    /// streams and format, each by a read-modify-write. Shifts above 7 are refused
    /// before the bus is touched; a failed first update ends the call.
    pub fn configure_fifo(&mut self, config: &FifoConfig) -> (r: Result<(), Error<I2C::Error>>)
        ensures
            !(config.accel_downs <= 7 && config.gyro_downs <= 7) ==> r == Err::<(), Error<I2C::Error>>(Error::InvalidConfiguration)
                && final(self).bus() == old(self).bus(),
            config.accel_downs <= 7 && config.gyro_downs <= 7 ==> exists|mid: Seq<Transfer<I2C::Error>>, r1: Result<u8, Error<I2C::Error>>|
                #[trigger] update_step(old(self).log(), mid, 0x45, FIFO_DOWNS_MASK,
                    (config.accel_downs * 16 + config.gyro_downs) as u8, r1)
                && (r1 is Err ==> final(self).log() == mid && r == Err::<(), Error<I2C::Error>>(r1->Err_0))
                && (r1 is Ok ==> exists|r2: Result<u8, Error<I2C::Error>>|
                    #[trigger] update_step(mid, final(self).log(), 0x47, FIFO_ENABLE_MASK,
                        fifo_config_byte(*config) as u8, r2)
                    && (r2 is Ok ==> r is Ok)
                    && (r2 is Err ==> r == Err::<(), Error<I2C::Error>>(r2->Err_0))),
    {
        let downs = match encode_fifo_downs(config.accel_downs, config.gyro_downs) {
            Ok(b) => b,
            Err(_) => {
                return Err(Error::InvalidConfiguration);
            },
        };
        let ghost before = self.log();
        let r1 = self.update_register(Register::FIFO_DOWNS, FIFO_DOWNS_MASK, downs);
        let ghost mid = self.log();
        assert(update_step(before, mid, 0x45, FIFO_DOWNS_MASK,
            (config.accel_downs * 16 + config.gyro_downs) as u8, r1));
        match r1 {
            Ok(_) => {},
            Err(e) => {
                return Err(e);
            },
        }
        let enable = encode_fifo_enable(config);
        let r2 = self.update_register(Register::FIFO_CONFIG_1, FIFO_ENABLE_MASK, enable);
        assert(update_step(mid, self.log(), 0x47, FIFO_ENABLE_MASK, fifo_config_byte(*config) as u8, r2));
        match r2 {
            Ok(_) => Ok(()),
            Err(e) => Err(e),
        }
    }

    /// Reads the fill level of the FIFO in bytes, an 11-bit count.
    pub fn read_fifo_length(&mut self) -> (r: Result<u16, I2C::Error>)
        ensures
            read_step(old(self).log(), final(self).log(), seq![0x22u8], 2),
            final(self).log().last().result is Ok <==> r is Ok,
            r is Ok ==> r->Ok_0 as int == fifo_length_spec(last_read(final(self).log())[0], last_read(final(self).log())[1]),
            r is Err ==> final(self).log().last().result == Err::<(), I2C::Error>(r->Err_0),
    {
        let input = vec![Register::FIFO_LENGTH.addr()];
        let mut output = vec![0u8; 2];
        let res = self.i2c.write_read(ADDRESS, input.as_slice(), output.as_mut_slice());
        assert(input@ =~= seq![0x22u8]);
        match res {
            Ok(()) => Ok(fifo_length_of(output[0], output[1])),
            Err(e) => Err(e),
        }
    }

    /// Drains the FIFO and decodes what it held, behind `carry`, the leftover of
    /// the previous read: reads the fill level, then that many bytes from the FIFO
    /// data register (in header mode a margin more, so that a trailing
    /// sensor-time frame comes out whole).
    pub fn read_fifo(&mut self, config: &FifoConfig, carry: &[u8]) -> (r: Result<DecodeResult, I2C::Error>)
        ensures
            final(self).log().len() > old(self).log().len(),
            ({
                let first = final(self).log()[old(self).log().len() as int];
                let log1 = final(self).log().subrange(0, old(self).log().len() + 1 as int);
                &&& read_step(old(self).log(), log1, seq![0x22u8], 2)
                &&& match first.result {
                    Err(e) => final(self).log() == log1 && r == Err::<DecodeResult, I2C::Error>(e),
                    Ok(_) => {
                        let n = fifo_length_spec(last_read(log1)[0], last_read(log1)[1]);
                        &&& read_step(log1, final(self).log(), seq![0x24u8], fifo_read_count(n, *config) as nat)
                        &&& (final(self).log().last().result is Ok <==> r is Ok)
                        &&& (r is Ok ==> r->Ok_0@ == decode_spec(carry@ + last_read(final(self).log()), *config))
                        &&& (r is Err ==> final(self).log().last().result == Err::<(), I2C::Error>(r->Err_0))
                    },
                }
            }),
    {
        let ghost before = self.log();
        let length = match self.read_fifo_length() {
            Ok(n) => n as usize,
            Err(e) => {
                assert(self.log().subrange(0, before.len() + 1 as int) =~= self.log());
                return Err(e);
            },
        };
        let ghost log1 = self.log();
        let count: usize = if config.header_mode { length + FIFO_OVER_READ } else { length };
        let input = vec![Register::FIFO_DATA.addr()];
        let mut data = vec![0u8; count];
        let res = self.i2c.write_read(ADDRESS, input.as_slice(), data.as_mut_slice());
        assert(input@ =~= seq![0x24u8]);
        assert(self.log().subrange(0, before.len() + 1 as int) =~= log1);
        match res {
            Ok(()) => Ok(decode_with_carry(carry, data.as_slice(), config)),
            Err(e) => Err(e),
        }
    }

    /// Writes the command that starts fast offset compensation.
    pub fn start_foc(&mut self) -> (r: Result<(), I2C::Error>)
        ensures
            write_step(old(self).log(), final(self).log(), seq![0x7Eu8, 0x03u8]),
            r == final(self).log().last().result,
    {
        let bytes = vec![Register::CMD.addr(), Cmd::START_OFC.code()];
        let res = self.i2c.write(ADDRESS, bytes.as_slice());
        assert(bytes@ =~= seq![0x7Eu8, 0x03u8]);
        res
    }

    /// Reads the seven offset compensation bytes.
    pub fn read_offsets(&mut self) -> (r: Result<Vec<u8>, I2C::Error>)
        ensures
            read_step(old(self).log(), final(self).log(), seq![0x71u8], 7),
            final(self).log().last().result is Ok <==> r is Ok,
            r is Ok ==> r->Ok_0@ == last_read(final(self).log()),
            r is Err ==> final(self).log().last().result == Err::<(), I2C::Error>(r->Err_0),
    {
        let input = vec![Register::OFFSET.addr()];
        let mut output = vec![0u8; 7];
        let res = self.i2c.write_read(ADDRESS, input.as_slice(), output.as_mut_slice());
        assert(input@ =~= seq![0x71u8]);
        match res {
            Ok(()) => Ok(output),
            Err(e) => Err(e),
        }
    }
}

} // verus!
