//! Interface to the magnetometer.

use vstd::prelude::*;

use crate::common::Vector3;
use crate::errors::{Error, ErrorKind};
use crate::registers::{
    modified, CrbRegM, MagGain, CRA_REG_M, CRB_REG_M, DO2, GN, MR_REG_M, OUT_X_H_M, TEMP_EN,
};
use crate::transport::{
    is_register_update, last_written, lemma_last_written_append, lemma_last_written_by_update, Bus,
    Exchange, Transport,
};
use crate::wire::{big_endian_sample, decode_big_endian, RawSample, SAMPLE_LENGTH};

verus! {

/// The I2C address of the magnetometer.
pub const I2C_ADDRESS: u16 = 0x1E;

/// What `MR_REG_M` is set to when the sensor is started: no mode flag, which
/// is continuous conversion.
pub const START_MR_REG_M: u8 = 0x00;

/// What `CRA_REG_M` is set to when the sensor is started: the temperature
/// sensor enabled and an output rate of 15 Hz, `TEMP_EN | DO2`.
pub const START_CRA_REG_M: u8 = 0x90;

/// The allowed settings for the gain on the magnetometer.
#[allow(non_camel_case_types)]
#[derive(Clone, Copy, Debug, PartialEq, Eq, Structural)]
pub enum Gain {
    /// +/- 1.3 Gauss
    Gain_1_3,
    /// +/- 1.9 Gauss
    Gain_1_9,
    /// +/- 2.5 Gauss
    Gain_2_5,
    /// +/- 4.0 Gauss
    Gain_4_0,
    /// +/- 4.7 Gauss
    Gain_4_7,
    /// +/- 5.6 Gauss
    Gain_5_6,
    /// +/- 8.1 Gauss
    Gain_8_1,
}

/// A magnetic flux density, held exactly: `counts / counts_per_gauss` gauss.
#[derive(Clone, Copy, Debug, PartialEq, Eq, Structural)]
pub struct FluxDensity {
    /// The count that the chip reported.
    pub counts: i16,
    /// How many counts the chip reports for one gauss on this axis.
    pub counts_per_gauss: u16,
}

impl FluxDensity {
    /// The value stands for a flux density: there is a count to the gauss.
    /// What `convert` and the sensor hand out is always well formed.
    pub open spec fn well_formed(self) -> bool {
        self.counts_per_gauss > 0
    }

    /// Whether `self` and `other` are the same flux density, whatever counts
    /// and sensitivities they are held in.
    pub open spec fn same_value(self, other: FluxDensity) -> bool {
        self.counts * other.counts_per_gauss == other.counts * self.counts_per_gauss
    }
}

/// The output type of the magnetometer.
pub type MagneticField = Vector3<FluxDensity>;

impl Gain {
    /// The same gain as the gain field of `CRB_REG_M` names it.
    pub open spec fn spec_register_setting(self) -> MagGain {
        match self {
            Gain::Gain_1_3 => MagGain::Gain_1_3,
            Gain::Gain_1_9 => MagGain::Gain_1_9,
            Gain::Gain_2_5 => MagGain::Gain_2_5,
            Gain::Gain_4_0 => MagGain::Gain_4_0,
            Gain::Gain_4_7 => MagGain::Gain_4_7,
            Gain::Gain_5_6 => MagGain::Gain_5_6,
            Gain::Gain_8_1 => MagGain::Gain_8_1,
        }
    }

    /// The same gain as the gain field of `CRB_REG_M` names it.
    #[verifier::when_used_as_spec(spec_register_setting)]
    pub fn register_setting(self) -> (setting: MagGain)
        ensures
            setting == self.spec_register_setting(),
    {
        match self {
            Gain::Gain_1_3 => MagGain::Gain_1_3,
            Gain::Gain_1_9 => MagGain::Gain_1_9,
            Gain::Gain_2_5 => MagGain::Gain_2_5,
            Gain::Gain_4_0 => MagGain::Gain_4_0,
            Gain::Gain_4_7 => MagGain::Gain_4_7,
            Gain::Gain_5_6 => MagGain::Gain_5_6,
            Gain::Gain_8_1 => MagGain::Gain_8_1,
        }
    }

    /// Counts per gauss on the X and Y axes at this gain.
    pub open spec fn spec_counts_per_gauss_xy(self) -> u16 {
        match self {
            Gain::Gain_1_3 => 1100,
            Gain::Gain_1_9 => 855,
            Gain::Gain_2_5 => 670,
            Gain::Gain_4_0 => 450,
            Gain::Gain_4_7 => 400,
            Gain::Gain_5_6 => 330,
            Gain::Gain_8_1 => 230,
        }
    }

    /// Counts per gauss on the Z axis at this gain. The Z axis is less
    /// sensitive than the other two.
    pub open spec fn spec_counts_per_gauss_z(self) -> u16 {
        match self {
            Gain::Gain_1_3 => 980,
            Gain::Gain_1_9 => 760,
            Gain::Gain_2_5 => 600,
            Gain::Gain_4_0 => 400,
            Gain::Gain_4_7 => 355,
            Gain::Gain_5_6 => 295,
            Gain::Gain_8_1 => 205,
        }
    }

    /// Counts per gauss on the X and Y axes at this gain.
    #[verifier::when_used_as_spec(spec_counts_per_gauss_xy)]
    pub fn counts_per_gauss_xy(self) -> (counts: u16)
        ensures
            counts == self.spec_counts_per_gauss_xy(),
    {
        match self {
            Gain::Gain_1_3 => 1100,
            Gain::Gain_1_9 => 855,
            Gain::Gain_2_5 => 670,
            Gain::Gain_4_0 => 450,
            Gain::Gain_4_7 => 400,
            Gain::Gain_5_6 => 330,
            Gain::Gain_8_1 => 230,
        }
    }

    /// Counts per gauss on the Z axis at this gain.
    #[verifier::when_used_as_spec(spec_counts_per_gauss_z)]
    pub fn counts_per_gauss_z(self) -> (counts: u16)
        ensures
            counts == self.spec_counts_per_gauss_z(),
    {
        match self {
            Gain::Gain_1_3 => 980,
            Gain::Gain_1_9 => 760,
            Gain::Gain_2_5 => 600,
            Gain::Gain_4_0 => 400,
            Gain::Gain_4_7 => 355,
            Gain::Gain_5_6 => 295,
            Gain::Gain_8_1 => 205,
        }
    }
}

/// The field that `raw` stands for at `gain`. The chip sends the axes in the
/// order X, Z, Y: the second value is the Z axis and the third is the Y axis.
/// X and Y share one sensitivity, Z has its own.
pub open spec fn spec_convert(raw: RawSample, gain: Gain) -> MagneticField {
    Vector3 {
        x: FluxDensity { counts: raw.first, counts_per_gauss: gain.counts_per_gauss_xy() },
        y: FluxDensity { counts: raw.third, counts_per_gauss: gain.counts_per_gauss_xy() },
        z: FluxDensity { counts: raw.second, counts_per_gauss: gain.counts_per_gauss_z() },
    }
}

/// Turns a raw sample into a magnetic field.
#[verifier::when_used_as_spec(spec_convert)]
pub fn convert(raw: RawSample, gain: Gain) -> (field: MagneticField)
    ensures
        field == spec_convert(raw, gain),
        field.x.well_formed(),
        field.y.well_formed(),
        field.z.well_formed(),
{
    let scale_xy: u16 = gain.counts_per_gauss_xy();
    let scale_z: u16 = gain.counts_per_gauss_z();

    // Yes indeed, the registers are ordered as X, Z, Y.
    let x = FluxDensity { counts: raw.first, counts_per_gauss: scale_xy };
    let z = FluxDensity { counts: raw.second, counts_per_gauss: scale_z };
    let y = FluxDensity { counts: raw.third, counts_per_gauss: scale_xy };

    Vector3 { x, y, z }
}

/// What a sample block read from `OUT_X_H_M` means at `gain`: the block is six
/// bytes, upper byte first, in the order X, Z, Y. A shorter block is
/// `NotEnoughData`, and nothing is made up for the bytes that are missing.
pub open spec fn spec_decode(block: Seq<u8>, gain: Gain) -> Result<MagneticField, ErrorKind> {
    if block.len() < 6 {
        Err(ErrorKind::NotEnoughData)
    } else {
        Ok(convert(big_endian_sample(block), gain))
    }
}

/// Turns a sample block read from `OUT_X_H_M` into a magnetic field.
pub fn decode(block: &[u8], gain: Gain) -> (field: Result<MagneticField, ErrorKind>)
    ensures
        field == spec_decode(block@, gain),
{
    match decode_big_endian(block) {
        Ok(raw) => Ok(convert(raw, gain)),
        Err(kind) => Err(kind),
    }
}

/// At every gain the Z axis has fewer counts to the gauss than X and Y have.
/// So one and the same count, unless it is zero, stands for one flux density
/// on X or Y and for another on Z.
pub proof fn lemma_z_differs_from_xy(counts: i16, gain: Gain)
    ensures
        0 < gain.counts_per_gauss_z() < gain.counts_per_gauss_xy(),
        counts != 0 ==> !(FluxDensity {
            counts,
            counts_per_gauss: gain.counts_per_gauss_xy(),
        }).same_value(FluxDensity { counts, counts_per_gauss: gain.counts_per_gauss_z() }),
{
    let xy: int = gain.counts_per_gauss_xy() as int;
    let z: int = gain.counts_per_gauss_z() as int;
    if counts != 0 {
        assert(counts * z != counts * xy) by (nonlinear_arith)
            requires
                counts != 0,
                z < xy,
        ;
    }
}

/// The second value on the wire becomes the third axis and the third value
/// the second: exchanging them in the raw sample exchanges the counts of Y
/// and Z, and X is not touched.
pub proof fn lemma_wire_order(raw: RawSample, gain: Gain)
    ensures
        convert(raw, gain).x.counts == raw.first,
        convert(raw, gain).y.counts == raw.third,
        convert(raw, gain).z.counts == raw.second,
        convert(raw, gain).x.counts_per_gauss == gain.counts_per_gauss_xy(),
        convert(raw, gain).y.counts_per_gauss == gain.counts_per_gauss_xy(),
        convert(raw, gain).z.counts_per_gauss == gain.counts_per_gauss_z(),
{
}

/// The transfers `added` start the magnetometer, and `result` is how that
/// went. `MR_REG_M` is written, then `CRA_REG_M`, then the gain field of
/// `CRB_REG_M` is set to +/- 1.3 gauss by a read-modify-write. The first
/// transfer that fails is the last one made, and its failure is the result.
pub open spec fn is_start<F>(added: Seq<Exchange<F>>, result: Result<(), Error<F>>) -> bool {
    &&& added.len() >= 1
    &&& added[0] matches Exchange::WriteByte { register, value, outcome }
    &&& register == MR_REG_M
    &&& value == START_MR_REG_M
    &&& match outcome {
        Ok(()) => {
            &&& added.len() >= 2
            &&& added[1] matches Exchange::WriteByte { register, value, outcome }
            &&& register == CRA_REG_M
            &&& value == START_CRA_REG_M
            &&& match outcome {
                Ok(()) => is_register_update(
                    added.skip(2),
                    CRB_REG_M,
                    GN,
                    MagGain::Gain_1_3.setting(),
                    result,
                ),
                Err(fault) => {
                    &&& added.len() == 2
                    &&& result == Err::<(), Error<F>>(
                        Error::caused_by(ErrorKind::FailedToWriteRegister, fault),
                    )
                },
            }
        },
        Err(fault) => {
            &&& added.len() == 1
            &&& result == Err::<(), Error<F>>(
                Error::caused_by(ErrorKind::FailedToWriteRegister, fault),
            )
        },
    }
}

/// The transfers `added` read one sample, and `result` is what the sample
/// comes to at `gain`: one read of six bytes from `OUT_X_H_M`. A fault of the
/// bus is handed on as `I2C`; a block of fewer than six bytes is
/// `NotEnoughData`; any other block is decoded.
pub open spec fn is_sample_read<F>(
    added: Seq<Exchange<F>>,
    gain: Gain,
    result: Result<MagneticField, Error<F>>,
) -> bool {
    &&& added.len() == 1
    &&& added[0] matches Exchange::ReadBlock { register, length, block }
    &&& register == OUT_X_H_M
    &&& length == SAMPLE_LENGTH
    &&& result == match block {
        Ok(bytes) => match spec_decode(bytes, gain) {
            Ok(field) => Ok(field),
            Err(kind) => Err(Error::from_kind(kind)),
        },
        Err(fault) => Err(Error::caused_by(ErrorKind::I2C, fault)),
    }
}

/// A start is over with its first transfer that fails. Every transfer but
/// the last went through; the start has succeeded exactly if the last one
/// went through too, and then all four were made; otherwise its result is
/// the failure of the last one, `FailedToWriteRegister` for a write and
/// `FailedToReadRegister` for the read.
pub proof fn lemma_start_ends_at_first_failure<F>(
    added: Seq<Exchange<F>>,
    result: Result<(), Error<F>>,
)
    requires
        is_start(added, result),
    ensures
        1 <= added.len() <= 4,
        forall|i: int| 0 <= i < added.len() - 1 ==> (#[trigger] added[i]).went_through(),
        result == match added.last().failure() {
            Some(error) => Err::<(), Error<F>>(error),
            None => Ok::<(), Error<F>>(()),
        },
        result is Ok ==> added.len() == 4,
        added[0] is WriteByte,
        added.len() >= 2 ==> added[1] is WriteByte,
        added.len() >= 3 ==> added[2] is ReadByte,
        added.len() == 4 ==> added[3] is WriteByte,
{
    if added[0].went_through() && added[1].went_through() {
        let rest = added.skip(2);
        assert(rest[0] == added[2]);
        if rest[0].went_through() {
            assert(rest.skip(1)[0] == added[3]);
        }
    }
}

/// Replaces the gain field of `CRB_REG_M` on `bus` by the setting of `gain`:
/// the register is read, the field is replaced, and the byte is written back.
fn write_gain<Dev: Transport>(bus: &mut Bus<Dev>, gain: Gain) -> (result: Result<
    (),
    Error<Dev::Fault>,
>)
    ensures
        final(bus).continues(old(bus)),
        is_register_update(
            final(bus).since(old(bus)),
            CRB_REG_M,
            GN,
            gain.register_setting().setting(),
            result,
        ),
{
    match bus.read_register(CRB_REG_M) {
        Ok(byte) => {
            let mut flags = CrbRegM::from_bits(byte);
            flags.set_gain(gain.register_setting());
            bus.write_register(CRB_REG_M, flags.bits())
        },
        Err(error) => Err(error),
    }
}

/// Starts the magnetometer on `bus`: puts it into continuous conversion mode,
/// enables the temperature sensor with an output rate of 15 Hz, and sets the
/// gain to +/- 1.3 gauss. The first transfer that fails ends the start, and
/// no transfer follows it.
pub fn start<Dev: Transport>(bus: &mut Bus<Dev>) -> (result: Result<(), Error<Dev::Fault>>)
    ensures
        final(bus).continues(old(bus)),
        is_start(final(bus).since(old(bus)), result),
{
    // Set magnetometer to continuous mode.
    match bus.write_register(MR_REG_M, START_MR_REG_M) {
        Ok(()) => {
            let ghost first = *bus;

            // Enable temperature; set output rate to 15 Hz.
            assert(0x80u8 | 0x10u8 == 0x90u8) by (bit_vector);
            let cra_reg_m: u8 = TEMP_EN | DO2;
            match bus.write_register(CRA_REG_M, cra_reg_m) {
                Ok(()) => {
                    let ghost second = *bus;
                    let result = write_gain(bus, Gain::Gain_1_3);
                    assert(bus.since(old(bus))[1] == second.since(&first)[0]);
                    assert(bus.since(old(bus)).skip(2) =~= bus.since(&second));
                    result
                },
                Err(error) => {
                    assert(bus.since(old(bus))[1] == bus.since(&first)[0]);
                    Err(error)
                },
            }
        },
        Err(error) => Err(error),
    }
}

/// Interface to an LSM303 digital magnetometer.
///
/// The gain that the value holds is the one that the chip was last told to
/// use with success: it changes only when the write that selects it has gone
/// through.
pub struct Magnetometer<Dev: Transport> {
    bus: Bus<Dev>,
    gain: Gain,
}

impl<Dev: Transport> Magnetometer<Dev> {
    /// The bus with its journal.
    pub closed spec fn bus(&self) -> Bus<Dev> {
        self.bus
    }

    /// The gain that samples are converted at.
    pub closed spec fn spec_gain(&self) -> Gain {
        self.gain
    }

    /// Every transfer that this value has made, oldest first.
    pub open spec fn journal(&self) -> Seq<Exchange<Dev::Fault>> {
        self.bus().journal()
    }

    /// The journal of `self` starts with that of `before`.
    pub open spec fn continues(&self, before: &Self) -> bool {
        self.bus().continues(&before.bus())
    }

    /// The transfers that `self` has made beyond those of `before`.
    pub open spec fn since(&self, before: &Self) -> Seq<Exchange<Dev::Fault>> {
        self.bus().since(&before.bus())
    }

    /// The gain held here is the gain that the chip was last given: the last
    /// write to `CRB_REG_M` that went through has put the setting of this
    /// gain into the gain field. Every sensor that was started has this
    /// property and keeps it, as long as the chip is written to through the
    /// sensor alone.
    pub open spec fn mirrors_chip(&self) -> bool {
        last_written(self.journal(), CRB_REG_M) matches Some(byte) && byte & GN
            == self.gain().register_setting().setting()
    }

    /// `result` is a sensor that has just been started, or the failure to
    /// start one: a started sensor is at +/- 1.3 gauss, as the chip is, and
    /// its journal holds the transfers of a start that succeeded and no
    /// others.
    pub open spec fn is_started(result: Result<Self, Error<Dev::Fault>>) -> bool {
        match result {
            Ok(sensor) => {
                &&& is_start(sensor.journal(), Ok::<(), Error<Dev::Fault>>(()))
                &&& sensor.gain() == Gain::Gain_1_3
                &&& sensor.mirrors_chip()
            },
            Err(error) => exists|journal: Seq<Exchange<Dev::Fault>>|
                is_start(journal, Err::<(), Error<Dev::Fault>>(error)),
        }
    }

    /// Initialize the magnetometer, given what opening the I2C device at
    /// `I2C_ADDRESS` came to. A device that could not be opened is
    /// `FailedToOpenDevice`, and no transfer is made.
    pub fn new(opened: Result<Dev, Dev::Fault>) -> (result: Result<Self, Error<Dev::Fault>>)
        ensures
            match opened {
                Ok(device) => Self::is_started(result),
                Err(fault) => result matches Err(error) && error == Error::caused_by(
                    ErrorKind::FailedToOpenDevice,
                    fault,
                ),
            },
    {
        match opened {
            Ok(device) => Self::from_i2c_device(device),
            Err(fault) => Err(Error::caused_by(ErrorKind::FailedToOpenDevice, fault)),
        }
    }

    /// Initialize the magnetometer, given an open I2C device.
    ///
    /// The sensor is started on the device as `start` does it. If the start
    /// fails the device is given up with the failure.
    pub fn from_i2c_device(device: Dev) -> (result: Result<Self, Error<Dev::Fault>>)
        ensures
            Self::is_started(result),
    {
        let mut bus = Bus::new(device);
        let ghost fresh = bus;
        let started = start(&mut bus);
        assert(bus.journal() =~= bus.since(&fresh));
        match started {
            Ok(()) => {
                proof {
                    let journal = bus.journal();
                    lemma_last_written_append(journal.take(2), journal.skip(2), CRB_REG_M);
                    assert(journal =~= journal.take(2) + journal.skip(2));
                    lemma_last_written_by_update(
                        journal.skip(2),
                        CRB_REG_M,
                        GN,
                        MagGain::Gain_1_3.setting(),
                        started,
                        CRB_REG_M,
                    );
                    match journal.skip(2)[0] {
                        Exchange::ReadByte { byte: Ok(current), .. } => {
                            lemma_set_gain_keeps_other_bits(current, Gain::Gain_1_3);
                        },
                        _ => {},
                    }
                }
                Ok(Magnetometer { bus, gain: Gain::Gain_1_3 })
            },
            Err(error) => {
                assert(is_start(bus.journal(), Err::<(), Error<Dev::Fault>>(error)));
                Err(error)
            },
        }
    }

    /// The gain that samples are converted at.
    #[verifier::when_used_as_spec(spec_gain)]
    pub fn gain(&self) -> (gain: Gain)
        ensures
            gain == self.spec_gain(),
    {
        self.gain
    }

    /// Read the magnetometer, returning the magnetic field as a vector at the
    /// current gain.
    pub fn read_magnetic_field(&mut self) -> (result: Result<MagneticField, Error<Dev::Fault>>)
        ensures
            final(self).continues(old(self)),
            is_sample_read(final(self).since(old(self)), old(self).gain(), result),
            final(self).gain() == old(self).gain(),
            old(self).mirrors_chip() ==> final(self).mirrors_chip(),
    {
        let result = match self.bus.read_block(OUT_X_H_M, SAMPLE_LENGTH) {
            Ok(data) => match decode(data.as_slice(), self.gain) {
                Ok(field) => Ok(field),
                Err(kind) => Err(Error::from_kind(kind)),
            },
            Err(error) => Err(error),
        };
        proof {
            reveal_with_fuel(last_written, 2);
            self.bus.lemma_continues(&old(self).bus);
            lemma_last_written_append(old(self).journal(), self.since(old(self)), CRB_REG_M);
        }
        result
    }

    /// Set the gain of the magnetometer.
    ///
    /// `CRB_REG_M` is read, its gain field is replaced, and the byte is
    /// written back. The gain that samples are converted at changes only if
    /// the write went through.
    pub fn set_gain(&mut self, gain: Gain) -> (result: Result<(), Error<Dev::Fault>>)
        ensures
            final(self).continues(old(self)),
            is_register_update(
                final(self).since(old(self)),
                CRB_REG_M,
                GN,
                gain.register_setting().setting(),
                result,
            ),
            final(self).gain() == if result is Ok {
                gain
            } else {
                old(self).gain()
            },
            old(self).mirrors_chip() || result is Ok ==> final(self).mirrors_chip(),
    {
        let result = write_gain(&mut self.bus, gain);
        if result.is_ok() {
            self.gain = gain;
        }
        proof {
            let added = self.since(old(self));
            let setting: u8 = gain.register_setting().setting();
            self.bus.lemma_continues(&old(self).bus);
            lemma_last_written_append(old(self).journal(), added, CRB_REG_M);
            lemma_last_written_by_update(added, CRB_REG_M, GN, setting, result, CRB_REG_M);
            match added[0] {
                Exchange::ReadByte { byte: Ok(current), .. } => {
                    lemma_set_gain_keeps_other_bits(current, gain);
                },
                _ => {},
            }
        }
        result
    }

    /// Access the underlying bus handle.
    pub fn device(&self) -> (device: &Dev)
        ensures
            *device == self.bus().spec_device(),
    {
        self.bus.device()
    }

    /// Access the underlying bus handle for transfers of the caller's own.
    /// Refer to the LSM303 datasheet before writing to the chip directly: the
    /// gain kept here does not follow such writes.
    pub fn device_mut(&mut self) -> (device: &mut Dev)
        ensures
            *device == old(self).bus().spec_device(),
            final(self).bus().spec_device() == *final(device),
            final(self).journal() == old(self).journal(),
            final(self).gain() == old(self).gain(),
    {
        self.bus.device_mut()
    }

    /// Gives the bus handle back.
    pub fn into_device(self) -> (device: Dev)
        ensures
            device == self.bus().spec_device(),
    {
        self.bus.into_device()
    }
}

/// A sample read that gets a block of fewer than six bytes fails with
/// `NotEnoughData`: no field is returned for it.
pub proof fn lemma_short_block_is_refused<F>(
    added: Seq<Exchange<F>>,
    gain: Gain,
    result: Result<MagneticField, Error<F>>,
)
    requires
        is_sample_read(added, gain, result),
        added[0] matches Exchange::ReadBlock { block: Ok(bytes), .. } && bytes.len() < 6,
    ensures
        result == Err::<MagneticField, Error<F>>(Error::from_kind(ErrorKind::NotEnoughData)),
{
}

/// A change of gain writes back what was read with nothing but the gain field
/// changed: the field holds the setting of the new gain, and every other bit
/// is as it was read.
pub proof fn lemma_set_gain_keeps_other_bits(current: u8, gain: Gain)
    ensures
        modified(current, GN, gain.register_setting().setting()) & GN
            == gain.register_setting().setting(),
        modified(current, GN, gain.register_setting().setting()) & !GN == current & !GN,
{
    let setting: u8 = gain.register_setting().setting();
    assert({
        &&& ((current & !0xE0u8) | setting) & 0xE0u8 == setting
        &&& ((current & !0xE0u8) | setting) & !0xE0u8 == current & !0xE0u8
    }) by (bit_vector)
        requires
            setting == 0x20 || setting == 0x40 || setting == 0x60 || setting == 0x80 || setting
                == 0xA0 || setting == 0xC0 || setting == 0xE0,
    ;
}

} // verus!
