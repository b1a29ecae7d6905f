use lsm303::accelerometer;
use lsm303::accelerometer::{Rate, Scale};
use lsm303::common::Vector3;
use lsm303::magnetometer;
use lsm303::magnetometer::{FluxDensity, Gain};
use lsm303::registers::{
    BDU, CRA_REG_M, CRB_REG_M, CTRL_REG1_A, CTRL_REG4_A, FS, GN, HR, MR_REG_M, ODR, SIM,
};
use lsm303::transport::{block_outcome, read_outcome, write_outcome, Bus};
use lsm303::{Accelerometer, Error, ErrorKind, Magnetometer, Transport};

/// What the chip was asked to do.
#[derive(Clone, Copy, Debug, PartialEq, Eq)]
enum Transfer {
    ReadByte(u8),
    WriteByte(u8, u8),
    ReadBlock(u8, u8),
}

/// The fault of the transfer with this index.
#[derive(Clone, Copy, Debug, PartialEq, Eq)]
struct Fault(usize);

/// A chip made of 256 registers that answers block reads with `block`,
/// records every transfer, and fails the transfer whose index is `fail_at`.
#[derive(Debug)]
struct Chip {
    registers: [u8; 256],
    block: Vec<u8>,
    transfers: Vec<Transfer>,
    fail_at: Option<usize>,
}

impl Chip {
    fn new() -> Chip {
        Chip { registers: [0; 256], block: Vec::new(), transfers: Vec::new(), fail_at: None }
    }

    fn with_register(mut self, register: u8, value: u8) -> Chip {
        self.registers[usize::from(register)] = value;
        self
    }

    fn with_block(mut self, block: &[u8]) -> Chip {
        self.block = block.to_vec();
        self
    }

    fn failing_at(mut self, index: usize) -> Chip {
        self.fail_at = Some(index);
        self
    }

    fn record(&mut self, transfer: Transfer) -> Result<(), Fault> {
        let index = self.transfers.len();
        self.transfers.push(transfer);
        if self.fail_at == Some(index) {
            Err(Fault(index))
        } else {
            Ok(())
        }
    }
}

impl Transport for Chip {
    type Fault = Fault;

    fn read_byte(&mut self, register: u8) -> Result<u8, Fault> {
        self.record(Transfer::ReadByte(register))?;
        Ok(self.registers[usize::from(register)])
    }

    fn write_byte(&mut self, register: u8, value: u8) -> Result<(), Fault> {
        self.record(Transfer::WriteByte(register, value))?;
        self.registers[usize::from(register)] = value;
        Ok(())
    }

    fn read_block(&mut self, register: u8, length: u8) -> Result<Vec<u8>, Fault> {
        self.record(Transfer::ReadBlock(register, length))?;
        Ok(self.block.clone())
    }
}

fn caused(kind: ErrorKind, index: usize) -> Error<Fault> {
    Error { kind, cause: Some(Fault(index)) }
}

const ALL_SCALES: [Scale; 4] = [Scale::Scale2G, Scale::Scale4G, Scale::Scale8G, Scale::Scale16G];

const ALL_GAINS: [Gain; 7] = [
    Gain::Gain_1_3,
    Gain::Gain_1_9,
    Gain::Gain_2_5,
    Gain::Gain_4_0,
    Gain::Gain_4_7,
    Gain::Gain_5_6,
    Gain::Gain_8_1,
];

#[test]
fn outcomes_of_the_three_transfers() {
    assert_eq!(read_outcome::<Fault>(Ok(0x5A)), Ok(0x5A));
    assert_eq!(read_outcome(Err(Fault(7))), Err(caused(ErrorKind::FailedToReadRegister, 7)));
    assert_eq!(write_outcome::<Fault>(Ok(())), Ok(()));
    assert_eq!(write_outcome(Err(Fault(8))), Err(caused(ErrorKind::FailedToWriteRegister, 8)));
    assert_eq!(block_outcome::<Fault>(Ok(vec![1, 2, 3])), Ok(vec![1, 2, 3]));
    assert_eq!(block_outcome(Err(Fault(9))), Err(caused(ErrorKind::I2C, 9)));
}

#[test]
fn error_constructors() {
    let plain: Error<Fault> = Error::from_kind(ErrorKind::NotEnoughData);
    assert_eq!(plain, Error { kind: ErrorKind::NotEnoughData, cause: None });
    assert_eq!(plain.kind(), ErrorKind::NotEnoughData);
    let bus = Error::caused_by(ErrorKind::I2C, Fault(3));
    assert_eq!(bus, Error { kind: ErrorKind::I2C, cause: Some(Fault(3)) });
    assert_eq!(bus.kind(), ErrorKind::I2C);
}

#[test]
fn bus_reads_and_writes_single_registers() {
    let mut bus = Bus::new(Chip::new().with_register(0x23, 0x81));
    assert_eq!(bus.read_register(0x23), Ok(0x81));
    assert_eq!(bus.write_register(0x24, 0x42), Ok(()));
    assert_eq!(bus.read_register(0x24), Ok(0x42));
    let chip = bus.into_device();
    assert_eq!(
        chip.transfers,
        vec![Transfer::ReadByte(0x23), Transfer::WriteByte(0x24, 0x42), Transfer::ReadByte(0x24)]
    );
}

#[test]
fn bus_failures_name_the_transfer_that_failed() {
    let mut bus = Bus::new(Chip::new().failing_at(0));
    assert_eq!(bus.read_register(0x23), Err(caused(ErrorKind::FailedToReadRegister, 0)));
    let mut bus = Bus::new(Chip::new().failing_at(0));
    assert_eq!(bus.write_register(0x23, 1), Err(caused(ErrorKind::FailedToWriteRegister, 0)));
    assert_eq!(bus.device().registers[0x23], 0);
    let mut bus = Bus::new(Chip::new().failing_at(0));
    assert_eq!(bus.read_block(0x28, 6), Err(caused(ErrorKind::I2C, 0)));
}

#[test]
fn bus_block_read_hands_on_whatever_came() {
    let mut bus = Bus::new(Chip::new().with_block(&[1, 2, 3]));
    assert_eq!(bus.read_block(0x03, 6), Ok(vec![1, 2, 3]));
    assert_eq!(bus.device().transfers, vec![Transfer::ReadBlock(0x03, 6)]);
}

#[test]
fn modify_register_reads_then_writes() {
    let mut bus = Bus::new(Chip::new().with_register(0x23, 0b1011_0110));
    assert_eq!(bus.modify_register(0x23, FS, 0x10), Ok(()));
    let chip = bus.into_device();
    assert_eq!(chip.registers[0x23], 0b1001_0110);
    assert_eq!(
        chip.transfers,
        vec![Transfer::ReadByte(0x23), Transfer::WriteByte(0x23, 0b1001_0110)]
    );
}

#[test]
fn modify_register_writes_nothing_when_the_read_fails() {
    let mut bus = Bus::new(Chip::new().with_register(0x23, 0xFF).failing_at(0));
    assert_eq!(
        bus.modify_register(0x23, FS, 0x10),
        Err(caused(ErrorKind::FailedToReadRegister, 0))
    );
    let chip = bus.into_device();
    assert_eq!(chip.registers[0x23], 0xFF);
    assert_eq!(chip.transfers, vec![Transfer::ReadByte(0x23)]);
}

#[test]
fn modify_register_reports_a_failed_write() {
    let mut bus = Bus::new(Chip::new().with_register(0x23, 0xFF).failing_at(1));
    assert_eq!(
        bus.modify_register(0x23, FS, 0x10),
        Err(caused(ErrorKind::FailedToWriteRegister, 1))
    );
    let chip = bus.into_device();
    assert_eq!(chip.registers[0x23], 0xFF);
    assert_eq!(chip.transfers, vec![Transfer::ReadByte(0x23), Transfer::WriteByte(0x23, 0xDF)]);
}

#[test]
fn a_flag_set_by_modify_register_survives_a_scale_change() {
    let mut bus = Bus::new(Chip::new());
    assert_eq!(bus.modify_register(CTRL_REG4_A, 0, SIM), Ok(()));
    let mut accelerometer = Accelerometer::from_i2c_device(bus.into_device()).unwrap();
    assert_eq!(accelerometer.device().registers[0x23], HR | SIM);
    for scale in ALL_SCALES {
        assert_eq!(accelerometer.set_scale(scale), Ok(()));
        let register = accelerometer.device().registers[0x23];
        assert_eq!(register & HR, HR);
        assert_eq!(register & SIM, SIM);
        assert_eq!(register & FS, scale.setting());
        assert_eq!(register, HR | SIM | scale.setting());
    }
}

#[test]
fn accelerometer_start_sets_rate_axes_and_high_resolution() {
    let accelerometer = Accelerometer::from_i2c_device(Chip::new()).unwrap();
    assert_eq!(accelerometer.scale(), Scale::Scale2G);
    assert_eq!(accelerometer.rate(), Rate::Rate10Hz);
    let chip = accelerometer.into_device();
    assert_eq!(chip.registers[usize::from(CTRL_REG1_A)], 0x27);
    assert_eq!(chip.registers[usize::from(CTRL_REG4_A)], 0x08);
    assert_eq!(
        chip.transfers,
        vec![
            Transfer::WriteByte(0x20, 0x27),
            Transfer::ReadByte(0x23),
            Transfer::WriteByte(0x23, 0x08),
        ]
    );
}

#[test]
fn accelerometer_start_leaves_the_other_bits_of_ctrl_reg4_alone() {
    let chip = Chip::new().with_register(CTRL_REG4_A, 0b1011_0111);
    let accelerometer = Accelerometer::from_i2c_device(chip).unwrap();
    let chip = accelerometer.into_device();
    assert_eq!(chip.registers[usize::from(CTRL_REG4_A)], 0b1011_1111);
}

#[test]
fn accelerometer_start_stops_at_the_first_failure() {
    let failed = Accelerometer::from_i2c_device(Chip::new().failing_at(0));
    assert_eq!(failed.err(), Some(caused(ErrorKind::FailedToWriteRegister, 0)));
    let failed = Accelerometer::from_i2c_device(Chip::new().failing_at(1));
    assert_eq!(failed.err(), Some(caused(ErrorKind::FailedToReadRegister, 1)));
    let failed = Accelerometer::from_i2c_device(Chip::new().failing_at(2));
    assert_eq!(failed.err(), Some(caused(ErrorKind::FailedToWriteRegister, 2)));
    assert!(Accelerometer::from_i2c_device(Chip::new().failing_at(3)).is_ok());
}

#[test]
fn accelerometer_new_takes_what_opening_came_to() {
    let unopened: Result<Accelerometer<Chip>, Error<Fault>> = Accelerometer::new(Err(Fault(42)));
    assert_eq!(unopened.err(), Some(caused(ErrorKind::FailedToOpenDevice, 42)));
    let opened = Accelerometer::new(Ok(Chip::new())).unwrap();
    assert_eq!(opened.scale(), Scale::Scale2G);
    assert_eq!(opened.device().transfers.len(), 3);
    let failed = Accelerometer::new(Ok(Chip::new().failing_at(1)));
    assert_eq!(failed.err(), Some(caused(ErrorKind::FailedToReadRegister, 1)));
}

#[test]
fn set_scale_writes_the_full_scale_field() {
    let mut accelerometer = Accelerometer::from_i2c_device(Chip::new()).unwrap();
    assert_eq!(accelerometer.set_scale(Scale::Scale4G), Ok(()));
    assert_eq!(accelerometer.scale(), Scale::Scale4G);
    assert_eq!(accelerometer.device().registers[0x23], 0b0001_1000);
    assert_eq!(accelerometer.set_scale(Scale::Scale8G), Ok(()));
    assert_eq!(accelerometer.scale(), Scale::Scale8G);
    assert_eq!(accelerometer.device().registers[0x23], 0b0010_1000);
    assert_eq!(accelerometer.set_scale(Scale::Scale16G), Ok(()));
    assert_eq!(accelerometer.scale(), Scale::Scale16G);
    assert_eq!(accelerometer.device().registers[0x23], 0b0011_1000);
    assert_eq!(accelerometer.set_scale(Scale::Scale2G), Ok(()));
    assert_eq!(accelerometer.scale(), Scale::Scale2G);
    assert_eq!(accelerometer.device().registers[0x23], 0b0000_1000);
    assert_eq!(accelerometer.rate(), Rate::Rate10Hz);
    assert_eq!(
        accelerometer.device().transfers[3..5],
        [Transfer::ReadByte(0x23), Transfer::WriteByte(0x23, 0b0001_1000)]
    );
}

#[test]
fn set_scale_keeps_reserved_bits() {
    let chip = Chip::new().with_register(CTRL_REG4_A, BDU | 0b0000_0110 | SIM);
    let mut accelerometer = Accelerometer::from_i2c_device(chip).unwrap();
    assert_eq!(accelerometer.set_scale(Scale::Scale16G), Ok(()));
    assert_eq!(accelerometer.device().registers[0x23], 0b1011_1111);
    assert_eq!(accelerometer.set_scale(Scale::Scale2G), Ok(()));
    assert_eq!(accelerometer.device().registers[0x23], 0b1000_1111);
}

#[test]
fn set_scale_keeps_the_old_scale_when_the_read_fails() {
    let mut accelerometer = Accelerometer::from_i2c_device(Chip::new().failing_at(3)).unwrap();
    assert_eq!(
        accelerometer.set_scale(Scale::Scale8G),
        Err(caused(ErrorKind::FailedToReadRegister, 3))
    );
    assert_eq!(accelerometer.scale(), Scale::Scale2G);
    assert_eq!(accelerometer.device().transfers.len(), 4);
    assert_eq!(accelerometer.device().registers[0x23], 0x08);
}

#[test]
fn set_scale_keeps_the_old_scale_when_the_write_fails() {
    let mut accelerometer = Accelerometer::from_i2c_device(Chip::new().failing_at(6)).unwrap();
    assert_eq!(accelerometer.set_scale(Scale::Scale4G), Ok(()));
    assert_eq!(
        accelerometer.set_scale(Scale::Scale16G),
        Err(caused(ErrorKind::FailedToWriteRegister, 6))
    );
    assert_eq!(accelerometer.scale(), Scale::Scale4G);
    assert_eq!(accelerometer.device().transfers[6], Transfer::WriteByte(0x23, 0b0011_1000));
    assert_eq!(accelerometer.device().registers[0x23], 0b0001_1000);
}

#[test]
fn set_rate_clears_the_rate_field_and_keeps_the_rate() {
    let mut accelerometer = Accelerometer::from_i2c_device(Chip::new()).unwrap();
    assert_eq!(accelerometer.device().registers[0x20] & ODR, 0x20);
    assert_eq!(accelerometer.set_rate(Rate::Rate100Hz), Ok(()));
    assert_eq!(accelerometer.rate(), Rate::Rate100Hz);
    assert_eq!(accelerometer.scale(), Scale::Scale2G);
    assert_eq!(accelerometer.device().registers[0x20], 0x07);
    assert_eq!(
        accelerometer.device().transfers[3..],
        [Transfer::ReadByte(0x20), Transfer::WriteByte(0x20, 0x07)]
    );
}

#[test]
fn set_rate_keeps_the_old_rate_on_failure() {
    let mut accelerometer = Accelerometer::from_i2c_device(Chip::new().failing_at(3)).unwrap();
    assert_eq!(
        accelerometer.set_rate(Rate::Rate400Hz),
        Err(caused(ErrorKind::FailedToReadRegister, 3))
    );
    assert_eq!(accelerometer.rate(), Rate::Rate10Hz);
    let mut accelerometer = Accelerometer::from_i2c_device(Chip::new().failing_at(4)).unwrap();
    assert_eq!(
        accelerometer.set_rate(Rate::PowerDown),
        Err(caused(ErrorKind::FailedToWriteRegister, 4))
    );
    assert_eq!(accelerometer.rate(), Rate::Rate10Hz);
    assert_eq!(accelerometer.device().registers[0x20], 0x27);
}

#[test]
fn read_acceleration_end_to_end() {
    let chip = Chip::new().with_block(&[0x00, 0x01, 0x00, 0x02, 0x00, 0x03]);
    let mut accelerometer = Accelerometer::from_i2c_device(chip).unwrap();
    assert_eq!(accelerometer.read_acceleration(), Ok(Vector3 { x: 16, y: 32, z: 48 }));
    assert_eq!(accelerometer.device().transfers[3..], [Transfer::ReadBlock(0xA8, 6)]);
    assert_eq!(accelerometer.scale(), Scale::Scale2G);
}

#[test]
fn read_acceleration_of_the_block_00_10_00_20_00_30() {
    let chip = Chip::new().with_block(&[0x00, 0x10, 0x00, 0x20, 0x00, 0x30]);
    let mut accelerometer = Accelerometer::from_i2c_device(chip).unwrap();
    assert_eq!(accelerometer.read_acceleration(), Ok(Vector3 { x: 256, y: 512, z: 768 }));
}

#[test]
fn read_acceleration_follows_the_scale() {
    let chip = Chip::new().with_block(&[0x00, 0x01, 0xF0, 0xFF, 0x00, 0x03]);
    let mut accelerometer = Accelerometer::from_i2c_device(chip).unwrap();
    assert_eq!(accelerometer.read_acceleration(), Ok(Vector3 { x: 16, y: -1, z: 48 }));
    accelerometer.set_scale(Scale::Scale4G).unwrap();
    assert_eq!(accelerometer.read_acceleration(), Ok(Vector3 { x: 32, y: -2, z: 96 }));
    accelerometer.set_scale(Scale::Scale8G).unwrap();
    assert_eq!(accelerometer.read_acceleration(), Ok(Vector3 { x: 64, y: -4, z: 192 }));
    accelerometer.set_scale(Scale::Scale16G).unwrap();
    assert_eq!(accelerometer.read_acceleration(), Ok(Vector3 { x: 192, y: -12, z: 576 }));
}

#[test]
fn read_acceleration_converts_at_the_old_scale_after_a_failed_change() {
    let chip = Chip::new().with_block(&[0x00, 0x01, 0x00, 0x02, 0x00, 0x03]).failing_at(4);
    let mut accelerometer = Accelerometer::from_i2c_device(chip).unwrap();
    assert!(accelerometer.set_scale(Scale::Scale16G).is_err());
    assert_eq!(accelerometer.read_acceleration(), Ok(Vector3 { x: 16, y: 32, z: 48 }));
}

#[test]
fn read_acceleration_refuses_a_short_block() {
    for length in 0..6 {
        let block = [0x00, 0x10, 0x00, 0x20, 0x00, 0x30];
        let chip = Chip::new().with_block(&block[..length]);
        let mut accelerometer = Accelerometer::from_i2c_device(chip).unwrap();
        assert_eq!(
            accelerometer.read_acceleration(),
            Err(Error { kind: ErrorKind::NotEnoughData, cause: None })
        );
    }
}

#[test]
fn read_acceleration_hands_on_a_bus_fault() {
    let chip = Chip::new().with_block(&[0; 6]).failing_at(3);
    let mut accelerometer = Accelerometer::from_i2c_device(chip).unwrap();
    assert_eq!(accelerometer.read_acceleration(), Err(caused(ErrorKind::I2C, 3)));
    assert_eq!(accelerometer.read_acceleration(), Ok(Vector3 { x: 0, y: 0, z: 0 }));
}

#[test]
fn magnetometer_start_sets_mode_rate_and_gain() {
    let magnetometer = Magnetometer::from_i2c_device(Chip::new()).unwrap();
    assert_eq!(magnetometer.gain(), Gain::Gain_1_3);
    let chip = magnetometer.into_device();
    assert_eq!(chip.registers[usize::from(MR_REG_M)], 0x00);
    assert_eq!(chip.registers[usize::from(CRA_REG_M)], 0x90);
    assert_eq!(chip.registers[usize::from(CRB_REG_M)], 0x20);
    assert_eq!(
        chip.transfers,
        vec![
            Transfer::WriteByte(0x02, 0x00),
            Transfer::WriteByte(0x00, 0x90),
            Transfer::ReadByte(0x01),
            Transfer::WriteByte(0x01, 0x20),
        ]
    );
}

#[test]
fn magnetometer_start_stops_at_the_first_failure() {
    let failed = Magnetometer::from_i2c_device(Chip::new().failing_at(0));
    assert_eq!(failed.err(), Some(caused(ErrorKind::FailedToWriteRegister, 0)));
    let failed = Magnetometer::from_i2c_device(Chip::new().failing_at(1));
    assert_eq!(failed.err(), Some(caused(ErrorKind::FailedToWriteRegister, 1)));
    let failed = Magnetometer::from_i2c_device(Chip::new().failing_at(2));
    assert_eq!(failed.err(), Some(caused(ErrorKind::FailedToReadRegister, 2)));
    let failed = Magnetometer::from_i2c_device(Chip::new().failing_at(3));
    assert_eq!(failed.err(), Some(caused(ErrorKind::FailedToWriteRegister, 3)));
    assert!(Magnetometer::from_i2c_device(Chip::new().failing_at(4)).is_ok());
}

#[test]
fn magnetometer_new_takes_what_opening_came_to() {
    let unopened: Result<Magnetometer<Chip>, Error<Fault>> = Magnetometer::new(Err(Fault(5)));
    assert_eq!(unopened.err(), Some(caused(ErrorKind::FailedToOpenDevice, 5)));
    let opened = Magnetometer::new(Ok(Chip::new())).unwrap();
    assert_eq!(opened.gain(), Gain::Gain_1_3);
    assert_eq!(opened.device().transfers.len(), 4);
}

#[test]
fn set_gain_writes_the_gain_field() {
    let chip = Chip::new().with_register(CRB_REG_M, 0b1111_0101);
    let mut magnetometer = Magnetometer::from_i2c_device(chip).unwrap();
    assert_eq!(magnetometer.device().registers[0x01], 0b0011_0101);
    let patterns = [0b001u8, 0b010, 0b011, 0b100, 0b101, 0b110, 0b111];
    for (gain, pattern) in ALL_GAINS.iter().zip(patterns) {
        assert_eq!(magnetometer.set_gain(*gain), Ok(()));
        assert_eq!(magnetometer.gain(), *gain);
        let register = magnetometer.device().registers[0x01];
        assert_eq!(register & GN, pattern << 5);
        assert_eq!(register & !GN, 0b0001_0101);
    }
}

#[test]
fn set_gain_keeps_the_old_gain_when_the_write_fails() {
    let mut magnetometer = Magnetometer::from_i2c_device(Chip::new().failing_at(7)).unwrap();
    assert_eq!(magnetometer.set_gain(Gain::Gain_4_0), Ok(()));
    assert_eq!(
        magnetometer.set_gain(Gain::Gain_8_1),
        Err(caused(ErrorKind::FailedToWriteRegister, 7))
    );
    assert_eq!(magnetometer.gain(), Gain::Gain_4_0);
    assert_eq!(magnetometer.device().transfers[7], Transfer::WriteByte(0x01, 0xE0));
    assert_eq!(magnetometer.device().registers[0x01], 0x80);
}

#[test]
fn set_gain_keeps_the_old_gain_when_the_read_fails() {
    let mut magnetometer = Magnetometer::from_i2c_device(Chip::new().failing_at(4)).unwrap();
    assert_eq!(
        magnetometer.set_gain(Gain::Gain_2_5),
        Err(caused(ErrorKind::FailedToReadRegister, 4))
    );
    assert_eq!(magnetometer.gain(), Gain::Gain_1_3);
    assert_eq!(magnetometer.device().transfers.len(), 5);
}

#[test]
fn read_magnetic_field_reorders_the_axes() {
    let chip = Chip::new().with_block(&[0x00, 100, 0x00, 200, 0x01, 0x2C]);
    let mut magnetometer = Magnetometer::from_i2c_device(chip).unwrap();
    let field = magnetometer.read_magnetic_field().unwrap();
    assert_eq!(field.x, FluxDensity { counts: 100, counts_per_gauss: 1100 });
    assert_eq!(field.y, FluxDensity { counts: 300, counts_per_gauss: 1100 });
    assert_eq!(field.z, FluxDensity { counts: 200, counts_per_gauss: 980 });
    assert_eq!(magnetometer.device().transfers[4..], [Transfer::ReadBlock(0x03, 6)]);
}

#[test]
fn read_magnetic_field_follows_the_gain() {
    let chip = Chip::new().with_block(&[0xFF, 0x9C, 0x00, 200, 0x01, 0x2C]);
    let mut magnetometer = Magnetometer::from_i2c_device(chip).unwrap();
    magnetometer.set_gain(Gain::Gain_5_6).unwrap();
    let field = magnetometer.read_magnetic_field().unwrap();
    assert_eq!(field.x, FluxDensity { counts: -100, counts_per_gauss: 330 });
    assert_eq!(field.y, FluxDensity { counts: 300, counts_per_gauss: 330 });
    assert_eq!(field.z, FluxDensity { counts: 200, counts_per_gauss: 295 });
}

#[test]
fn read_magnetic_field_converts_at_the_old_gain_after_a_failed_change() {
    let chip = Chip::new().with_block(&[0x00, 100, 0x00, 200, 0x01, 0x2C]).failing_at(5);
    let mut magnetometer = Magnetometer::from_i2c_device(chip).unwrap();
    assert!(magnetometer.set_gain(Gain::Gain_8_1).is_err());
    let field = magnetometer.read_magnetic_field().unwrap();
    assert_eq!(field.x.counts_per_gauss, 1100);
    assert_eq!(field.z.counts_per_gauss, 980);
}

#[test]
fn read_magnetic_field_refuses_a_short_block() {
    for length in 0..6 {
        let block = [0x00, 100, 0x00, 200, 0x01, 0x2C];
        let chip = Chip::new().with_block(&block[..length]);
        let mut magnetometer = Magnetometer::from_i2c_device(chip).unwrap();
        assert_eq!(
            magnetometer.read_magnetic_field(),
            Err(Error { kind: ErrorKind::NotEnoughData, cause: None })
        );
        assert_eq!(magnetometer.gain(), Gain::Gain_1_3);
    }
}

#[test]
fn read_magnetic_field_hands_on_a_bus_fault() {
    let chip = Chip::new().with_block(&[0; 6]).failing_at(4);
    let mut magnetometer = Magnetometer::from_i2c_device(chip).unwrap();
    assert_eq!(magnetometer.read_magnetic_field(), Err(caused(ErrorKind::I2C, 4)));
}

#[test]
fn the_bus_handle_can_be_used_directly() {
    let mut accelerometer = Accelerometer::from_i2c_device(Chip::new()).unwrap();
    assert_eq!(accelerometer.device_mut().write_byte(0x21, 0x55), Ok(()));
    assert_eq!(accelerometer.device().registers[0x21], 0x55);
    assert_eq!(accelerometer.scale(), Scale::Scale2G);
    assert_eq!(accelerometer.set_scale(Scale::Scale4G), Ok(()));
    assert_eq!(accelerometer.device().registers[0x21], 0x55);
    let mut magnetometer = Magnetometer::from_i2c_device(Chip::new()).unwrap();
    assert_eq!(magnetometer.device_mut().read_byte(0x01), Ok(0x20));
    assert_eq!(magnetometer.gain(), Gain::Gain_1_3);
    let mut bus = Bus::new(Chip::new());
    assert_eq!(bus.device_mut().write_byte(0x10, 1), Ok(()));
    assert_eq!(bus.read_register(0x10), Ok(1));
}

#[test]
fn accelerometer_start_on_a_bus_makes_its_three_transfers() {
    let mut bus = Bus::new(Chip::new().with_register(CTRL_REG4_A, 0b0100_0001));
    assert_eq!(accelerometer::start(&mut bus), Ok(()));
    let chip = bus.into_device();
    assert_eq!(chip.registers[0x20], 0x27);
    assert_eq!(chip.registers[0x23], 0b0100_1001);
    assert_eq!(
        chip.transfers,
        vec![
            Transfer::WriteByte(0x20, 0x27),
            Transfer::ReadByte(0x23),
            Transfer::WriteByte(0x23, 0b0100_1001),
        ]
    );
}

#[test]
fn accelerometer_start_makes_no_transfer_after_the_one_that_failed() {
    let mut bus = Bus::new(Chip::new().failing_at(0));
    assert_eq!(
        accelerometer::start(&mut bus),
        Err(caused(ErrorKind::FailedToWriteRegister, 0))
    );
    assert_eq!(bus.device().transfers, vec![Transfer::WriteByte(0x20, 0x27)]);
    assert_eq!(bus.device().registers[0x23], 0);

    let mut bus = Bus::new(Chip::new().failing_at(1));
    assert_eq!(accelerometer::start(&mut bus), Err(caused(ErrorKind::FailedToReadRegister, 1)));
    assert_eq!(
        bus.device().transfers,
        vec![Transfer::WriteByte(0x20, 0x27), Transfer::ReadByte(0x23)]
    );
    assert_eq!(bus.device().registers[0x23], 0);

    let mut bus = Bus::new(Chip::new().failing_at(2));
    assert_eq!(
        accelerometer::start(&mut bus),
        Err(caused(ErrorKind::FailedToWriteRegister, 2))
    );
    assert_eq!(bus.device().transfers.len(), 3);
    assert_eq!(bus.device().registers[0x23], 0);
}

#[test]
fn accelerometer_start_can_be_made_again_on_the_same_bus() {
    let mut bus = Bus::new(Chip::new().failing_at(1));
    assert!(accelerometer::start(&mut bus).is_err());
    assert_eq!(accelerometer::start(&mut bus), Ok(()));
    assert_eq!(bus.device().transfers.len(), 5);
    assert_eq!(bus.device().registers[0x23], 0x08);
}

#[test]
fn magnetometer_start_on_a_bus_makes_its_four_transfers() {
    let mut bus = Bus::new(Chip::new().with_register(CRB_REG_M, 0b1100_0011));
    assert_eq!(magnetometer::start(&mut bus), Ok(()));
    let chip = bus.into_device();
    assert_eq!(chip.registers[0x02], 0x00);
    assert_eq!(chip.registers[0x00], 0x90);
    assert_eq!(chip.registers[0x01], 0b0010_0011);
    assert_eq!(
        chip.transfers,
        vec![
            Transfer::WriteByte(0x02, 0x00),
            Transfer::WriteByte(0x00, 0x90),
            Transfer::ReadByte(0x01),
            Transfer::WriteByte(0x01, 0b0010_0011),
        ]
    );
}

#[test]
fn magnetometer_start_makes_no_transfer_after_the_one_that_failed() {
    let kinds = [
        ErrorKind::FailedToWriteRegister,
        ErrorKind::FailedToWriteRegister,
        ErrorKind::FailedToReadRegister,
        ErrorKind::FailedToWriteRegister,
    ];
    for (index, kind) in kinds.iter().enumerate() {
        let mut bus = Bus::new(Chip::new().failing_at(index));
        assert_eq!(magnetometer::start(&mut bus), Err(caused(*kind, index)));
        assert_eq!(bus.device().transfers.len(), index + 1);
        assert_eq!(bus.device().registers[0x01], 0);
    }
    let mut bus = Bus::new(Chip::new().failing_at(4));
    assert_eq!(magnetometer::start(&mut bus), Ok(()));
    assert_eq!(bus.device().transfers.len(), 4);
}
