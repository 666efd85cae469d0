//! Driver for a combined accelerometer, gyroscope and magnetometer inertial
//! measurement unit on an I2C bus, with a verified decoder of its FIFO stream.

pub mod config;
pub mod driver;
pub mod encode;
pub mod fifo;
pub mod foc;
pub mod register;
pub mod stream_laws;

pub use crate::config::{
    apply_masked, encode_fifo_downs, encode_fifo_enable, encode_odr_bw, encode_range,
    InvalidConfiguration, Sensor,
};
pub use crate::driver::{
    fifo_length_of, Bmi160, Bus, Data, DataXYZRaw, Error, Transfer, TransferLog, ADDRESS,
    FIFO_OVER_READ,
};
pub use crate::encode::encode_frame;
pub use crate::fifo::{
    decode, decode_with_carry, read_i16, read_u16, read_u24, DecodeError, DecodeResult,
    FifoConfig, Frame,
};
pub use crate::foc::{FocAction, FocController, FocEvent, FocState};
pub use crate::register::{Cmd, Register};
