use bmi160::{fifo_length_of, Bmi160, Bus, Error, TransferLog, FifoConfig, FocAction, FocController, FocEvent, FocState, Frame, Register, Sensor, ADDRESS};

/// A bus that answers reads from a queue and records every transaction.
struct MockBus {
    reads: Vec<Vec<u8>>,
    calls: Vec<(u8, Vec<u8>)>,
    fail: bool,
}

impl MockBus {
    fn new(reads: Vec<Vec<u8>>) -> MockBus {
        MockBus { reads, calls: Vec::new(), fail: false }
    }
}

impl Bus for MockBus {
    type Error = u8;

    fn log(&self) -> TransferLog<u8> {
        panic!("the transfer log is a proof-only view of the bus")
    }

    fn write_read(&mut self, address: u8, bytes: &[u8], buffer: &mut [u8]) -> Result<(), u8> {
        self.calls.push((address, bytes.to_vec()));
        if self.fail {
            return Err(7);
        }
        let next = if self.reads.is_empty() { Vec::new() } else { self.reads.remove(0) };
        for (i, b) in buffer.iter_mut().enumerate() {
            *b = if i < next.len() { next[i] } else { 0x80 };
        }
        Ok(())
    }

    fn write(&mut self, address: u8, bytes: &[u8]) -> Result<(), u8> {
        self.calls.push((address, bytes.to_vec()));
        if self.fail {
            return Err(7);
        }
        Ok(())
    }
}

#[test]
fn chip_id_reads_register_zero() {
    let mut d = Bmi160::new(MockBus::new(vec![vec![0xD1]])).unwrap();
    assert_eq!(d.get_chip_id(), Ok(0xD1));
    let bus = d.release();
    assert_eq!(bus.calls, vec![(ADDRESS, vec![0x00])]);
}

#[test]
fn gyro_rate_out_of_range_touches_no_bus() {
    let mut d = Bmi160::new(MockBus::new(Vec::new())).unwrap();
    assert_eq!(d.set_odr_bw(Sensor::Gyro, 0x0F, 2), Err(Error::InvalidConfiguration));
    let bus = d.release();
    assert!(bus.calls.is_empty());
}

#[test]
fn range_out_of_range_touches_no_bus() {
    let mut d = Bmi160::new(MockBus::new(Vec::new())).unwrap();
    assert_eq!(d.set_range(Sensor::Accel, 3), Err(Error::InvalidConfiguration));
    assert!(d.release().calls.is_empty());
}

#[test]
fn read_only_register_write_is_refused_locally() {
    let mut d = Bmi160::new(MockBus::new(Vec::new())).unwrap();
    assert_eq!(d.write_register(Register::CHIP_ID, 1), Err(Error::ReadOnlyRegister));
    assert!(d.release().calls.is_empty());
}

#[test]
fn register_write_goes_to_bus() {
    let mut d = Bmi160::new(MockBus::new(Vec::new())).unwrap();
    assert_eq!(d.write_register(Register::ACC_RANGE, 5), Ok(()));
    assert_eq!(d.release().calls, vec![(ADDRESS, vec![0x41, 5])]);
}

#[test]
fn bus_failure_is_communication_error() {
    let mut bus = MockBus::new(Vec::new());
    bus.fail = true;
    let mut d = Bmi160::new(bus).unwrap();
    assert_eq!(d.write_register(Register::ACC_RANGE, 5), Err(Error::Communication(7)));
    assert_eq!(d.get_chip_id(), Err(7));
}

#[test]
fn odr_write_keeps_undersampling_bit() {
    let mut d = Bmi160::new(MockBus::new(vec![vec![0x80]])).unwrap();
    assert_eq!(d.set_odr_bw(Sensor::Accel, 8, 2), Ok(0xA8));
    assert_eq!(d.release().calls, vec![(ADDRESS, vec![0x40]), (ADDRESS, vec![0x40, 0xA8])]);
}

#[test]
fn fifo_configuration_writes() {
    let mut d = Bmi160::new(MockBus::new(vec![vec![0x88], vec![0x0C]])).unwrap();
    let c = FifoConfig {
        header_mode: true,
        accel: true,
        gyro: true,
        mag: false,
        time_on_flush: false,
        accel_downs: 1,
        gyro_downs: 2,
    };
    assert_eq!(d.configure_fifo(&c), Ok(()));
    assert_eq!(
        d.release().calls,
        vec![
            (ADDRESS, vec![0x45]),
            (ADDRESS, vec![0x45, 0x88 | 0x12]),
            (ADDRESS, vec![0x47]),
            (ADDRESS, vec![0x47, 0x0C | 0xD0]),
        ]
    );
}

#[test]
fn fifo_read_decodes_stream() {
    let stream = vec![0x84, 0x10, 0x00, 0x20, 0x00, 0x30, 0x00, 0x44, 0x01, 0x02, 0x03];
    let mut d = Bmi160::new(MockBus::new(vec![vec![7, 0], stream])).unwrap();
    let c = FifoConfig {
        header_mode: true,
        accel: true,
        gyro: false,
        mag: false,
        time_on_flush: true,
        accel_downs: 0,
        gyro_downs: 0,
    };
    let r = d.read_fifo(&c, &[]).unwrap();
    assert_eq!(
        r.frames,
        vec![Frame::Accel { x: 16, y: 32, z: 48 }, Frame::SensorTime { ticks: 0x030201 }]
    );
    assert!(r.empty_marker);
    assert!(r.leftover.is_empty());
}

#[test]
fn fifo_length_is_eleven_bits() {
    let mut d = Bmi160::new(MockBus::new(vec![vec![0x34, 0xFA]])).unwrap();
    assert_eq!(d.read_fifo_length(), Ok(0x234));
}

#[test]
fn data_block_is_split_in_order() {
    let block: Vec<u8> = (1..=20).collect();
    let mut d = Bmi160::new(MockBus::new(vec![block])).unwrap();
    let data = d.read_data().unwrap();
    assert_eq!(data.mag.x_lsb, 1);
    assert_eq!(data.mag.z_msb, 6);
    assert_eq!(data.rhall_lsb, 7);
    assert_eq!(data.rhall_msb, 8);
    assert_eq!(data.gyro.x_lsb, 9);
    assert_eq!(data.accel.z_msb, 20);
    assert_eq!(d.release().calls, vec![(ADDRESS, vec![0x04])]);
}

#[test]
fn soft_reset_writes_command() {
    let mut d = Bmi160::new(MockBus::new(Vec::new())).unwrap();
    assert_eq!(d.soft_reset(), Ok(()));
    assert_eq!(d.release().calls, vec![(ADDRESS, vec![0x7E, 0xB6])]);
}

#[test]
fn register_table() {
    assert_eq!(Register::CMD.addr(), 0x7E);
    assert_eq!(Register::STEP_CNT.addr(), 0x78);
    assert!(Register::FIFO_DATA.read_only());
    assert!(!Register::ACC_CONF.read_only());
}

#[test]
fn foc_completes() {
    let mut c = FocController::new(3);
    assert_eq!(c.step(FocEvent::Start), FocAction::WriteStart);
    assert_eq!(c.step(FocEvent::Status(0x00)), FocAction::PollAgain);
    assert_eq!(c.step(FocEvent::Status(0x08)), FocAction::ReadOffsets);
    assert_eq!(c.state, FocState::Complete);
    assert_eq!(c.step(FocEvent::OffsetsRead), FocAction::Finished);
    assert_eq!(c.state, FocState::Idle);
}

#[test]
fn foc_times_out() {
    let mut c = FocController::new(2);
    assert_eq!(c.step(FocEvent::Start), FocAction::WriteStart);
    assert_eq!(c.step(FocEvent::Status(0x00)), FocAction::PollAgain);
    assert_eq!(c.step(FocEvent::Status(0x00)), FocAction::TimedOut);
    assert_eq!(c.state, FocState::Idle);
    assert_eq!(c.step(FocEvent::OffsetsRead), FocAction::Ignore);
}

#[test]
fn command_codes() {
    assert_eq!(bmi160::Cmd::START_OFC.code(), 0x03);
    assert_eq!(bmi160::Cmd::ACC_SET_PMU_MODE_NORMAL.code(), 0x11);
    assert_eq!(bmi160::Cmd::SOFT_RESET.code(), 0xB6);
}

#[test]
fn foc_start_writes_command() {
    let mut d = Bmi160::new(MockBus::new(vec![vec![1, 2, 3, 4, 5, 6, 7]])).unwrap();
    assert_eq!(d.start_foc(), Ok(()));
    assert_eq!(d.read_offsets(), Ok(vec![1, 2, 3, 4, 5, 6, 7]));
    assert_eq!(d.release().calls, vec![(ADDRESS, vec![0x7E, 0x03]), (ADDRESS, vec![0x71])]);
}

#[test]
fn fifo_length_masks_high_bits() {
    assert_eq!(fifo_length_of(0x34, 0xFA), 0x234);
    assert_eq!(fifo_length_of(0xFF, 0x07), 2047);
    assert_eq!(fifo_length_of(0x00, 0x08), 0);
}

#[test]
fn register_read_returns_byte_and_error_unchanged() {
    let mut d = Bmi160::new(MockBus::new(vec![vec![0x5A]])).unwrap();
    assert_eq!(d.read_register(Register::STATUS), Ok(0x5A));
    assert_eq!(d.release().calls, vec![(ADDRESS, vec![0x1B])]);
    let mut bus = MockBus::new(Vec::new());
    bus.fail = true;
    let mut d = Bmi160::new(bus).unwrap();
    assert_eq!(d.read_data(), Err(7));
    assert_eq!(d.release().calls, vec![(ADDRESS, vec![0x04])]);
}

#[test]
fn write_read_register_fills_buffer() {
    let mut d = Bmi160::new(MockBus::new(vec![vec![9, 8, 7]])).unwrap();
    let mut buf = [0u8; 3];
    assert_eq!(d.write_read_register(Register::TEMPERATURE, &mut buf), Ok(()));
    assert_eq!(buf, [9, 8, 7]);
    assert_eq!(d.release().calls, vec![(ADDRESS, vec![0x20])]);
}

#[test]
fn repeated_masked_update_writes_same_byte() {
    let mut d = Bmi160::new(MockBus::new(vec![vec![0xA5], vec![0xAC]])).unwrap();
    assert_eq!(d.update_register(Register::CONF, 0x0F, 0x0C), Ok(0xAC));
    assert_eq!(d.update_register(Register::CONF, 0x0F, 0x0C), Ok(0xAC));
    assert_eq!(
        d.release().calls,
        vec![(ADDRESS, vec![0x6A]), (ADDRESS, vec![0x6A, 0xAC]), (ADDRESS, vec![0x6A]), (ADDRESS, vec![0x6A, 0xAC])]
    );
}
