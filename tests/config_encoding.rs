use bmi160::{apply_masked, encode_fifo_downs, encode_fifo_enable, encode_odr_bw, encode_range, FifoConfig, InvalidConfiguration, Sensor};

#[test]
fn odr_bw_valid_codes() {
    assert_eq!(encode_odr_bw(Sensor::Accel, 8, 2), Ok(0x28));
    assert_eq!(encode_odr_bw(Sensor::Accel, 15, 7), Ok(0x7F));
    assert_eq!(encode_odr_bw(Sensor::Gyro, 13, 0), Ok(0x0D));
}

#[test]
fn odr_out_of_range_for_gyro() {
    assert_eq!(encode_odr_bw(Sensor::Gyro, 0x0F, 2), Err(InvalidConfiguration));
    assert_eq!(encode_odr_bw(Sensor::Gyro, 14, 0), Err(InvalidConfiguration));
    assert_eq!(encode_odr_bw(Sensor::Accel, 16, 0), Err(InvalidConfiguration));
    assert_eq!(encode_odr_bw(Sensor::Accel, 1, 8), Err(InvalidConfiguration));
}

#[test]
fn range_codes() {
    assert_eq!(encode_range(Sensor::Accel, 2), Ok(3));
    assert_eq!(encode_range(Sensor::Accel, 16), Ok(12));
    assert_eq!(encode_range(Sensor::Gyro, 2000), Ok(0));
    assert_eq!(encode_range(Sensor::Gyro, 125), Ok(4));
    assert_eq!(encode_range(Sensor::Accel, 3), Err(InvalidConfiguration));
    assert_eq!(encode_range(Sensor::Gyro, 2), Err(InvalidConfiguration));
}

#[test]
fn fifo_downs_byte() {
    assert_eq!(encode_fifo_downs(3, 5), Ok(0x35));
    assert_eq!(encode_fifo_downs(8, 0), Err(InvalidConfiguration));
}

#[test]
fn fifo_enable_byte() {
    let c = FifoConfig {
        header_mode: true,
        accel: true,
        gyro: false,
        mag: false,
        time_on_flush: true,
        accel_downs: 0,
        gyro_downs: 0,
    };
    assert_eq!(encode_fifo_enable(&c), 0x52);
}

#[test]
fn masked_write_keeps_other_bits() {
    let v = 0b1010_1010u8;
    let m = 0b0000_1111u8;
    let f = 0b0101_0101u8;
    let once = apply_masked(v, m, f);
    assert_eq!(once, 0b1010_0101);
    assert_eq!(apply_masked(once, m, f), once);
    assert_eq!(once & !m, v & !m);
    assert_eq!(once, (v & !m) | (f & m));
}
