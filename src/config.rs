use vstd::prelude::*;
use crate::fifo::FifoConfig;

verus! {

/// A setting was outside the values the sensor documents.
#[derive(Clone, Copy, Debug, PartialEq, Eq, Structural)]
pub struct InvalidConfiguration;

/// The two sensors whose output data rate, bandwidth and range can be set.
#[derive(Clone, Copy, Debug, PartialEq, Eq, Structural)]
pub enum Sensor {
    Accel,
    Gyro,
}

/// Bits of the data-rate configuration byte that hold the rate and the bandwidth;
/// the top bit (undersampling) is kept.
pub const ODR_BW_MASK: u8 = 0x7F;

/// Bits of the range byte that hold the range.
pub const ACC_RANGE_MASK: u8 = 0x0F;

/// Bits of the gyroscope range byte that hold the range.
pub const GYR_RANGE_MASK: u8 = 0x07;

/// Bit of the status register set when fast offset compensation is done.
pub const STATUS_FOC_RDY: u8 = 0x08;

/// The largest output-data-rate code a sensor accepts.
pub open spec fn max_odr(sensor: Sensor) -> u8 {
    match sensor {
        Sensor::Accel => 15,
        Sensor::Gyro => 13,
    }
}

/// The configuration byte for an output-data-rate code and a bandwidth code:
/// the rate in bits 0 to 3, the bandwidth in bits 4 to 6.
pub open spec fn odr_bw_byte(odr: u8, bandwidth: u8) -> u8 {
    (bandwidth as int * 16 + odr as int) as u8
}

/// Encodes an output data rate and a bandwidth for the configuration register of
/// `sensor`; codes outside the documented ones are refused.
pub fn encode_odr_bw(sensor: Sensor, odr: u8, bandwidth: u8) -> (r: Result<u8, InvalidConfiguration>)
    ensures
        r is Ok <==> odr <= max_odr(sensor) && bandwidth <= 7,
        r is Ok ==> r->Ok_0 == odr_bw_byte(odr, bandwidth),
{
    let max: u8 = match sensor {
        Sensor::Accel => 15,
        Sensor::Gyro => 13,
    };
    if odr > max || bandwidth > 7 {
        Err(InvalidConfiguration)
    } else {
        Ok(bandwidth * 16 + odr)
    }
}

/// The range code of a full scale (in g for the accelerometer, in degrees per
/// second for the gyroscope), where the sensor has one.
pub open spec fn range_code(sensor: Sensor, full_scale: u16) -> Option<u8> {
    match sensor {
        Sensor::Accel => if full_scale == 2 {
            Some(3u8)
        } else if full_scale == 4 {
            Some(5u8)
        } else if full_scale == 8 {
            Some(8u8)
        } else if full_scale == 16 {
            Some(12u8)
        } else {
            None
        },
        Sensor::Gyro => if full_scale == 2000 {
            Some(0u8)
        } else if full_scale == 1000 {
            Some(1u8)
        } else if full_scale == 500 {
            Some(2u8)
        } else if full_scale == 250 {
            Some(3u8)
        } else if full_scale == 125 {
            Some(4u8)
        } else {
            None
        },
    }
}

/// Encodes the measurement range of `sensor`; a full scale that it does not offer
/// is refused.
pub fn encode_range(sensor: Sensor, full_scale: u16) -> (r: Result<u8, InvalidConfiguration>)
    ensures
        r is Ok <==> range_code(sensor, full_scale) is Some,
        r is Ok ==> r->Ok_0 == range_code(sensor, full_scale)->Some_0,
{
    match sensor {
        Sensor::Accel => if full_scale == 2 {
            Ok(3)
        } else if full_scale == 4 {
            Ok(5)
        } else if full_scale == 8 {
            Ok(8)
        } else if full_scale == 16 {
            Ok(12)
        } else {
            Err(InvalidConfiguration)
        },
        Sensor::Gyro => if full_scale == 2000 {
            Ok(0)
        } else if full_scale == 1000 {
            Ok(1)
        } else if full_scale == 500 {
            Ok(2)
        } else if full_scale == 250 {
            Ok(3)
        } else if full_scale == 125 {
            Ok(4)
        } else {
            Err(InvalidConfiguration)
        },
    }
}

/// Encodes the FIFO downsampling byte: the gyroscope shift in bits 0 to 2, the
/// accelerometer shift in bits 4 to 6. Shifts above 7 are refused.
pub fn encode_fifo_downs(accel_downs: u8, gyro_downs: u8) -> (r: Result<u8, InvalidConfiguration>)
    ensures
        r is Ok <==> accel_downs <= 7 && gyro_downs <= 7,
        r is Ok ==> r->Ok_0 == accel_downs * 16 + gyro_downs,
{
    if accel_downs > 7 || gyro_downs > 7 {
        Err(InvalidConfiguration)
    } else {
        Ok(accel_downs * 16 + gyro_downs)
    }
}

/// The byte of the second FIFO configuration register: gyroscope (bit 7),
/// accelerometer (bit 6) and magnetometer (bit 5) streams, header mode (bit 4)
/// and sensor time on flush (bit 1).
pub open spec fn fifo_config_byte(c: FifoConfig) -> int {
    (if c.gyro { 128int } else { 0 }) + (if c.accel { 64int } else { 0 }) + (if c.mag { 32int } else { 0 })
        + (if c.header_mode { 16int } else { 0 }) + (if c.time_on_flush { 2int } else { 0 })
}

/// Encodes which streams the FIFO stores and in which format.
pub fn encode_fifo_enable(c: &FifoConfig) -> (r: u8)
    ensures
        r as int == fifo_config_byte(*c),
{
    let mut r: u8 = 0;
    if c.gyro {
        r = r + 128;
    }
    if c.accel {
        r = r + 64;
    }
    if c.mag {
        r = r + 32;
    }
    if c.header_mode {
        r = r + 16;
    }
    if c.time_on_flush {
        r = r + 2;
    }
    r
}

/// The register byte after the bits of `mask` are set from `field`.
pub open spec fn masked(value: u8, mask: u8, field: u8) -> u8 {
    (value & !mask) | (field & mask)
}

/// Sets the bits of `mask` in `register_value` from `shifted_field`, keeping all
/// other bits.
pub fn apply_masked(register_value: u8, mask: u8, shifted_field: u8) -> (r: u8)
    ensures
        r == masked(register_value, mask, shifted_field),
        r & !mask == register_value & !mask,
        r & mask == shifted_field & mask,
{
    let r = (register_value & !mask) | (shifted_field & mask);
    assert(r & !mask == register_value & !mask && r & mask == shifted_field & mask) by (bit_vector)
        requires
            r == (register_value & !mask) | (shifted_field & mask),
    ;
    r
}

/// Setting the same masked field twice gives the byte that setting it once gives,
/// and that byte is the old one with the mask bits cleared, or-ed with the new
/// field under the mask.
pub proof fn lemma_apply_masked_idempotent(value: u8, mask: u8, field: u8)
    ensures
        masked(masked(value, mask, field), mask, field) == masked(value, mask, field),
        masked(value, mask, field) & !mask == value & !mask,
        masked(value, mask, field) == (value & !mask) | (field & mask),
{
    assert(((((value & !mask) | (field & mask)) & !mask) | (field & mask)) == (value & !mask) | (field & mask))
        by (bit_vector);
    assert(((value & !mask) | (field & mask)) & !mask == value & !mask) by (bit_vector);
}

} // verus!
