use vstd::prelude::*;

verus! {

/// Register map of the sensor, from the register table of the data sheet.
#[allow(non_camel_case_types)]
#[derive(Clone, Copy, Debug, PartialEq, Eq, Structural)]
pub enum Register {
    /// Chip identification code (read only).
    CHIP_ID,
    /// Sensor error flags, reset when read (read only).
    ERROR_REG,
    /// Current power mode of each sensor (read only).
    PMU_STATUS,
    /// Magnetometer, hall resistance, gyroscope and accelerometer data (read only).
    DATA,
    /// 24-bit sensor time counter (read only).
    SENSORTIME,
    /// Sensor status flags (read only).
    STATUS,
    /// Interrupt status flags (read only).
    INT_STATUS,
    /// Sensor temperature (read only).
    TEMPERATURE,
    /// Fill level of the FIFO in bytes (read only).
    FIFO_LENGTH,
    /// FIFO data readout (read only).
    FIFO_DATA,
    /// Accelerometer output data rate, bandwidth and read mode.
    ACC_CONF,
    /// Accelerometer g-range.
    ACC_RANGE,
    /// Gyroscope output data rate, bandwidth and read mode.
    GYR_CONF,
    /// Gyroscope angular rate range.
    GYR_RANGE,
    /// Magnetometer interface output data rate.
    MAG_CONF,
    /// Downsampling ratios of accelerometer and gyroscope data for the FIFO.
    FIFO_DOWNS,
    /// FIFO watermark level.
    FIFO_CONFIG,
    /// FIFO mode of operation: enabled streams, header mode and sensor time.
    FIFO_CONFIG_1,
    /// Indirect addressing of the magnetometer.
    MAG_IF,
    /// Interrupt engine enables.
    INT_EN,
    /// Electrical behaviour of the interrupt pins.
    INT_OUT_CTRL,
    /// Interrupt reset bit and latch mode.
    INT_LATCH,
    /// Mapping of interrupt signals to the pins.
    INT_MAP,
    /// Data source of the interrupt groups.
    INT_DATA,
    /// Low-g and high-g interrupt configuration.
    INT_LOWHIGH,
    /// Any-motion and no-motion interrupt configuration.
    INT_MOTION,
    /// Tap interrupt configuration.
    INT_TAP,
    /// Orientation interrupt configuration.
    INT_ORIENT,
    /// Flat interrupt configuration.
    INT_FLAT,
    /// Fast offset compensation settings.
    FOC_CONF,
    /// Sensor configuration.
    CONF,
    /// Digital interface settings.
    IF_CONF,
    /// Trigger conditions of the gyroscope power modes.
    PMU_TRIGGER,
    /// Self-test configuration and trigger.
    SELF_TEST,
    /// Non-volatile interface settings.
    NV_CONF,
    /// Offset compensation values of accelerometer and gyroscope.
    OFFSET,
    /// Step counter (read only).
    STEP_CNT,
    /// Step detector configuration.
    STEP_CONF,
    /// Command register (write only).
    CMD,
}

impl Register {
    /// The 8-bit bus address of the register.
    pub open spec fn spec_addr(self) -> u8 {
        match self {
            Register::CHIP_ID => 0x00,
            Register::ERROR_REG => 0x02,
            Register::PMU_STATUS => 0x03,
            Register::DATA => 0x04,
            Register::SENSORTIME => 0x18,
            Register::STATUS => 0x1B,
            Register::INT_STATUS => 0x1C,
            Register::TEMPERATURE => 0x20,
            Register::FIFO_LENGTH => 0x22,
            Register::FIFO_DATA => 0x24,
            Register::ACC_CONF => 0x40,
            Register::ACC_RANGE => 0x41,
            Register::GYR_CONF => 0x42,
            Register::GYR_RANGE => 0x43,
            Register::MAG_CONF => 0x44,
            Register::FIFO_DOWNS => 0x45,
            Register::FIFO_CONFIG => 0x46,
            Register::FIFO_CONFIG_1 => 0x47,
            Register::MAG_IF => 0x4B,
            Register::INT_EN => 0x50,
            Register::INT_OUT_CTRL => 0x53,
            Register::INT_LATCH => 0x54,
            Register::INT_MAP => 0x55,
            Register::INT_DATA => 0x58,
            Register::INT_LOWHIGH => 0x5A,
            Register::INT_MOTION => 0x5F,
            Register::INT_TAP => 0x63,
            Register::INT_ORIENT => 0x65,
            Register::INT_FLAT => 0x67,
            Register::FOC_CONF => 0x69,
            Register::CONF => 0x6A,
            Register::IF_CONF => 0x6B,
            Register::PMU_TRIGGER => 0x6C,
            Register::SELF_TEST => 0x6D,
            Register::NV_CONF => 0x70,
            Register::OFFSET => 0x71,
            Register::STEP_CNT => 0x78,
            Register::STEP_CONF => 0x7A,
            Register::CMD => 0x7E,
        }
    }

    /// Whether the register can only be read.
    pub open spec fn spec_read_only(self) -> bool {
        match self {
            Register::CHIP_ID | Register::ERROR_REG | Register::PMU_STATUS | Register::DATA
            | Register::SENSORTIME | Register::STATUS | Register::INT_STATUS
            | Register::TEMPERATURE | Register::FIFO_LENGTH | Register::FIFO_DATA
            | Register::STEP_CNT => true,
            _ => false,
        }
    }

    /// Get register address
    pub fn addr(&self) -> (r: u8)
        ensures
            r == self.spec_addr(),
    {
        match self {
            Register::CHIP_ID => 0x00,
            Register::ERROR_REG => 0x02,
            Register::PMU_STATUS => 0x03,
            Register::DATA => 0x04,
            Register::SENSORTIME => 0x18,
            Register::STATUS => 0x1B,
            Register::INT_STATUS => 0x1C,
            Register::TEMPERATURE => 0x20,
            Register::FIFO_LENGTH => 0x22,
            Register::FIFO_DATA => 0x24,
            Register::ACC_CONF => 0x40,
            Register::ACC_RANGE => 0x41,
            Register::GYR_CONF => 0x42,
            Register::GYR_RANGE => 0x43,
            Register::MAG_CONF => 0x44,
            Register::FIFO_DOWNS => 0x45,
            Register::FIFO_CONFIG => 0x46,
            Register::FIFO_CONFIG_1 => 0x47,
            Register::MAG_IF => 0x4B,
            Register::INT_EN => 0x50,
            Register::INT_OUT_CTRL => 0x53,
            Register::INT_LATCH => 0x54,
            Register::INT_MAP => 0x55,
            Register::INT_DATA => 0x58,
            Register::INT_LOWHIGH => 0x5A,
            Register::INT_MOTION => 0x5F,
            Register::INT_TAP => 0x63,
            Register::INT_ORIENT => 0x65,
            Register::INT_FLAT => 0x67,
            Register::FOC_CONF => 0x69,
            Register::CONF => 0x6A,
            Register::IF_CONF => 0x6B,
            Register::PMU_TRIGGER => 0x6C,
            Register::SELF_TEST => 0x6D,
            Register::NV_CONF => 0x70,
            Register::OFFSET => 0x71,
            Register::STEP_CNT => 0x78,
            Register::STEP_CONF => 0x7A,
            Register::CMD => 0x7E,
        }
    }

    /// Is the register read-only?
    pub fn read_only(self) -> (r: bool)
        ensures
            r == self.spec_read_only(),
    {
        match self {
            Register::CHIP_ID | Register::ERROR_REG | Register::PMU_STATUS | Register::DATA
            | Register::SENSORTIME | Register::STATUS | Register::INT_STATUS
            | Register::TEMPERATURE | Register::FIFO_LENGTH | Register::FIFO_DATA
            | Register::STEP_CNT => true,
            _ => false,
        }
    }
}

/// Commands that can be written to the command register.
#[allow(non_camel_case_types)]
#[derive(Clone, Copy, Debug, PartialEq, Eq, Structural)]
pub enum Cmd {
    /// Starts fast offset compensation of accelerometer and gyroscope as configured
    /// in the FOC configuration register, and stores the result in the offset register.
    START_OFC,
    /// Sets the power mode of the accelerometer to suspend.
    ACC_SET_PMU_MODE_SUSPEND,
    /// Sets the power mode of the accelerometer to normal.
    ACC_SET_PMU_MODE_NORMAL,
    /// Sets the power mode of the accelerometer to low power.
    ACC_SET_PMU_MODE_LOW_POWER,
    /// Resets the device and restarts it.
    SOFT_RESET,
}

impl Cmd {
    /// The byte that triggers the command.
    pub open spec fn spec_code(self) -> u8 {
        match self {
            Cmd::START_OFC => 0x03,
            Cmd::ACC_SET_PMU_MODE_SUSPEND => 0x10,
            Cmd::ACC_SET_PMU_MODE_NORMAL => 0x11,
            Cmd::ACC_SET_PMU_MODE_LOW_POWER => 0x12,
            Cmd::SOFT_RESET => 0xB6,
        }
    }

    /// The byte to write to the command register.
    pub fn code(self) -> (r: u8)
        ensures
            r == self.spec_code(),
    {
        match self {
            Cmd::START_OFC => 0x03,
            Cmd::ACC_SET_PMU_MODE_SUSPEND => 0x10,
            Cmd::ACC_SET_PMU_MODE_NORMAL => 0x11,
            Cmd::ACC_SET_PMU_MODE_LOW_POWER => 0x12,
            Cmd::SOFT_RESET => 0xB6,
        }
    }
}

} // verus!
