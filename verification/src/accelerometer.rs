//! Interface to the accelerometer.

use vstd::prelude::*;

use crate::common::Vector3;
use crate::errors::{Error, ErrorKind};
use crate::registers::{
    modified, Xen, Yen, Zen, AUTO_INCREMENT, CTRL_REG1_A, CTRL_REG4_A, FS, FS0, FS1, HR, ODR, ODR1,
    OUT_X_L_A, SIM,
};
use crate::transport::{
    is_register_update, last_written, lemma_last_written_append, lemma_last_written_by_update, Bus,
    Exchange, Transport,
};
use crate::wire::{decode_little_endian, little_endian_sample, RawSample, SAMPLE_LENGTH};

verus! {

/// The I2C address of the accelerometer.
pub const I2C_ADDRESS: u16 = 0x19;

/// Milli-g per count at +/- 16G. It does not continue the doubling of the
/// lower ranges (1, 2, 4), and is kept apart so that it can be changed in
/// one place.
pub const SCALE_16G_MULTIPLIER: i32 = 12;

/// The output type of the accelerometer: each axis in thousandths of the
/// acceleration of free fall.
pub type AccelerationVector = Vector3<i32>;

/// Settings for the scale of the acceleration measurement.
#[derive(Clone, Copy, Debug, PartialEq, Eq, Structural)]
pub enum Scale {
    /// +/- 2G
    Scale2G,
    /// +/- 4G
    Scale4G,
    /// +/- 8G
    Scale8G,
    /// +/- 16G
    Scale16G,
}

/// Available values for the data rate. The default rate is 10 Hz.
///
/// While most rates are valid for both normal and low-power mode, the
/// available options differ at higher rates.
#[derive(Clone, Copy, Debug, PartialEq, Eq, Structural)]
pub enum Rate {
    /// Power down mode
    PowerDown,
    /// Normal / low-power mode (1 Hz)
    Rate1Hz,
    /// Normal / low-power mode (10 Hz)
    Rate10Hz,
    /// Normal / low-power mode (25 Hz)
    Rate25Hz,
    /// Normal / low-power mode (50 Hz)
    Rate50Hz,
    /// Normal / low-power mode (100 Hz)
    Rate100Hz,
    /// Normal / low-power mode (200 Hz)
    Rate200Hz,
    /// Normal / low-power mode (400 Hz)
    Rate400Hz,
    /// Low-power mode (1.620 KHz)
    Rate1620Hz,
    /// Normal (1.344 KHz)
    Rate1344Hz,
    /// Low-power mode (5.376 KHz)
    Rate5376Hz,
}

impl Scale {
    /// The full-scale field of `CTRL_REG4_A` for this scale: the two-bit codes
    /// 00 to 11 in order of growing range, in bits 5 and 4.
    pub open spec fn spec_setting(self) -> u8 {
        match self {
            Scale::Scale2G => 0b00_0000,
            Scale::Scale4G => 0b01_0000,
            Scale::Scale8G => 0b10_0000,
            Scale::Scale16G => 0b11_0000,
        }
    }

    /// The flags of `CTRL_REG4_A` that select this scale.
    #[verifier::when_used_as_spec(spec_setting)]
    pub fn setting(self) -> (flags: u8)
        ensures
            flags == self.spec_setting(),
    {
        match self {
            Scale::Scale2G => 0,
            Scale::Scale4G => FS0,
            Scale::Scale8G => FS1,
            Scale::Scale16G => {
                assert(0x20u8 | 0x10u8 == 0x30u8) by (bit_vector);
                FS1 | FS0
            },
        }
    }

    /// Milli-g per count at this scale.
    pub open spec fn spec_multiplier(self) -> i32 {
        match self {
            Scale::Scale2G => 1,
            Scale::Scale4G => 2,
            Scale::Scale8G => 4,
            Scale::Scale16G => SCALE_16G_MULTIPLIER,
        }
    }

    /// Milli-g per count at this scale.
    #[verifier::when_used_as_spec(spec_multiplier)]
    pub fn multiplier(self) -> (factor: i32)
        ensures
            factor == self.spec_multiplier(),
    {
        match self {
            Scale::Scale2G => 1,
            Scale::Scale4G => 2,
            Scale::Scale8G => 4,
            Scale::Scale16G => SCALE_16G_MULTIPLIER,
        }
    }
}

/// The acceleration in milli-g that the raw value `raw` stands for at `scale`.
/// The chip puts a 12-bit count into the upper bits of the 16-bit value: the
/// low four bits are dropped, rounding towards minus infinity, and the count
/// is multiplied by the milli-g per count of the scale.
pub open spec fn milli_g(raw: i16, scale: Scale) -> int {
    (raw as int / 16) * scale.multiplier()
}

/// The acceleration that `raw` stands for at `scale`, on each axis.
pub open spec fn spec_convert(raw: RawSample, scale: Scale) -> AccelerationVector {
    Vector3 {
        x: milli_g(raw.first, scale) as i32,
        y: milli_g(raw.second, scale) as i32,
        z: milli_g(raw.third, scale) as i32,
    }
}

/// One axis of `convert`. The product cannot overflow: a count has twelve
/// bits and no scale has more than twelve milli-g to the count.
fn scaled(raw: i16, scale: Scale) -> (value: i32)
    ensures
        value == milli_g(raw, scale),
{
    let count: i16 = raw >> 4;
    assert(raw >> 4 == raw / 16 && -2048 <= (raw >> 4) <= 2047) by (bit_vector);
    let factor: i32 = scale.multiplier();
    assert(-2048 * 12 <= count * factor <= 2047 * 12) by (nonlinear_arith)
        requires
            -2048 <= count <= 2047,
            1 <= factor <= 12,
    ;
    count as i32 * factor
}

/// Turns a raw sample into accelerations. The chip sends the axes in the order
/// X, Y, Z, and one scale holds for all three.
#[verifier::when_used_as_spec(spec_convert)]
pub fn convert(raw: RawSample, scale: Scale) -> (acceleration: AccelerationVector)
    ensures
        acceleration == spec_convert(raw, scale),
        acceleration.x == milli_g(raw.first, scale),
        acceleration.y == milli_g(raw.second, scale),
        acceleration.z == milli_g(raw.third, scale),
{
    Vector3 {
        x: scaled(raw.first, scale),
        y: scaled(raw.second, scale),
        z: scaled(raw.third, scale),
    }
}

/// What a sample block read from `OUT_X_L_A` means at `scale`: the block is
/// six bytes, lower byte first, in the order X, Y, Z. A shorter block is
/// `NotEnoughData`, and nothing is made up for the bytes that are missing.
pub open spec fn spec_decode(block: Seq<u8>, scale: Scale) -> Result<
    AccelerationVector,
    ErrorKind,
> {
    if block.len() < 6 {
        Err(ErrorKind::NotEnoughData)
    } else {
        Ok(convert(little_endian_sample(block), scale))
    }
}

/// Turns a sample block read from `OUT_X_L_A` into accelerations.
pub fn decode(block: &[u8], scale: Scale) -> (acceleration: Result<AccelerationVector, ErrorKind>)
    ensures
        acceleration == spec_decode(block@, scale),
{
    match decode_little_endian(block) {
        Ok(raw) => Ok(convert(raw, scale)),
        Err(kind) => Err(kind),
    }
}

/// Each scale gives its multiple of what +/- 2G gives, on every raw value:
/// twice at +/- 4G, four times at +/- 8G and twelve times at +/- 16G. What
/// +/- 2G gives is the count itself, the raw value without its low four bits.
pub proof fn lemma_scale_multiplies_baseline(raw: i16, scale: Scale)
    ensures
        milli_g(raw, Scale::Scale2G) == raw as int / 16,
        milli_g(raw, Scale::Scale4G) == 2 * milli_g(raw, Scale::Scale2G),
        milli_g(raw, Scale::Scale8G) == 4 * milli_g(raw, Scale::Scale2G),
        milli_g(raw, Scale::Scale16G) == 12 * milli_g(raw, Scale::Scale2G),
        milli_g(raw, scale) == scale.multiplier() * milli_g(raw, Scale::Scale2G),
        -2048 <= milli_g(raw, Scale::Scale2G) <= 2047,
{
    let count: int = raw as int / 16;
    let factor: int = scale.multiplier() as int;
    assert(count * 1 == count && count * 2 == 2 * count && count * 4 == 4 * count && count * 12
        == 12 * count);
    assert(count * factor == factor * count) by (nonlinear_arith);
}

/// No two scales share a setting, and every setting lies within the
/// full-scale field.
pub proof fn lemma_scale_settings_distinct(a: Scale, b: Scale)
    ensures
        a.setting() == b.setting() <==> a == b,
        a.setting() & !FS == 0,
{
    let setting: u8 = a.setting();
    assert(setting & !0x30u8 == 0) by (bit_vector)
        requires
            setting == 0x00 || setting == 0x10 || setting == 0x20 || setting == 0x30,
    ;
}

/// What `CTRL_REG1_A` is set to when the sensor is started: a data rate of
/// 10 Hz and all three axes enabled, `ODR1 | Zen | Yen | Xen`.
pub const START_CTRL_REG1_A: u8 = 0x27;

/// The address that a sample is read from: `OUT_X_L_A` with the bit that
/// makes the chip step through the six output registers.
pub const SAMPLE_ADDRESS: u8 = 0xA8;

/// The transfers `added` start the accelerometer, and `result` is how that
/// went. `CTRL_REG1_A` is written first. If that succeeded, `CTRL_REG4_A` is
/// read and written back with the high-resolution flag put in and no other
/// bit changed. The first transfer that fails is the last one made, and its
/// failure is the result.
pub open spec fn is_start<F>(added: Seq<Exchange<F>>, result: Result<(), Error<F>>) -> bool {
    &&& added.len() >= 1
    &&& added[0] matches Exchange::WriteByte { register, value, outcome }
    &&& register == CTRL_REG1_A
    &&& value == START_CTRL_REG1_A
    &&& match outcome {
        Ok(()) => is_register_update(added.skip(1), CTRL_REG4_A, 0, HR, result),
        Err(fault) => {
            &&& added.len() == 1
            &&& result == Err::<(), Error<F>>(
                Error::caused_by(ErrorKind::FailedToWriteRegister, fault),
            )
        },
    }
}

/// The transfers `added` read one sample, and `result` is what the sample
/// comes to at `scale`: one read of six bytes from `SAMPLE_ADDRESS`. A fault
/// of the bus is handed on as `I2C`; a block of fewer than six bytes is
/// `NotEnoughData`; any other block is decoded.
pub open spec fn is_sample_read<F>(
    added: Seq<Exchange<F>>,
    scale: Scale,
    result: Result<AccelerationVector, Error<F>>,
) -> bool {
    &&& added.len() == 1
    &&& added[0] matches Exchange::ReadBlock { register, length, block }
    &&& register == SAMPLE_ADDRESS
    &&& length == SAMPLE_LENGTH
    &&& result == match block {
        Ok(bytes) => match spec_decode(bytes, scale) {
            Ok(acceleration) => Ok(acceleration),
            Err(kind) => Err(Error::from_kind(kind)),
        },
        Err(fault) => Err(Error::caused_by(ErrorKind::I2C, fault)),
    }
}

/// A start is over with its first transfer that fails. Every transfer but
/// the last went through; the start has succeeded exactly if the last one
/// went through too, and then all three were made; otherwise its result is
/// the failure of the last one, `FailedToWriteRegister` for a write and
/// `FailedToReadRegister` for the read. Nothing is written to `CTRL_REG4_A`
/// unless it was read before.
pub proof fn lemma_start_ends_at_first_failure<F>(
    added: Seq<Exchange<F>>,
    result: Result<(), Error<F>>,
)
    requires
        is_start(added, result),
    ensures
        1 <= added.len() <= 3,
        forall|i: int| 0 <= i < added.len() - 1 ==> (#[trigger] added[i]).went_through(),
        result == match added.last().failure() {
            Some(error) => Err::<(), Error<F>>(error),
            None => Ok::<(), Error<F>>(()),
        },
        result is Ok ==> added.len() == 3,
        added[0] is WriteByte,
        added.len() >= 2 ==> added[1] is ReadByte,
        added.len() == 3 ==> added[2] is WriteByte,
{
    if added[0].went_through() {
        let rest = added.skip(1);
        assert(rest[0] == added[1]);
        if rest[0].went_through() {
            assert(rest.skip(1)[0] == added[2]);
        }
    }
}

/// Starts the accelerometer on `bus`: sets the data rate to 10 Hz with all
/// axes enabled, then switches on the high resolution output mode by a
/// read-modify-write that leaves the other bits of `CTRL_REG4_A` alone. The
/// first transfer that fails ends the start, and no transfer follows it.
pub fn start<Dev: Transport>(bus: &mut Bus<Dev>) -> (result: Result<(), Error<Dev::Fault>>)
    ensures
        final(bus).continues(old(bus)),
        is_start(final(bus).since(old(bus)), result),
{
    // Set data rate to 10 Hz, enable all axes.
    assert(0x20u8 | 0x04u8 | 0x02u8 | 0x01u8 == 0x27u8) by (bit_vector);
    let ctrl_reg1_a: u8 = ODR1 | Zen | Yen | Xen;
    match bus.write_register(CTRL_REG1_A, ctrl_reg1_a) {
        Ok(()) => {
            let ghost written = *bus;

            // Enable high resolution output mode.
            let result = bus.modify_register(CTRL_REG4_A, 0, HR);
            assert(bus.since(old(bus)).skip(1) =~= bus.since(&written));
            result
        },
        Err(error) => Err(error),
    }
}

/// Interface to an LSM303 digital accelerometer.
///
/// The scale that the value holds is the one that the chip was last told to
/// use with success: it changes only when the write that selects it has gone
/// through.
pub struct Accelerometer<Dev: Transport> {
    bus: Bus<Dev>,
    scale: Scale,
    rate: Rate,
}

impl<Dev: Transport> Accelerometer<Dev> {
    /// The bus with its journal.
    pub closed spec fn bus(&self) -> Bus<Dev> {
        self.bus
    }

    /// The scale that samples are converted at.
    pub closed spec fn spec_scale(&self) -> Scale {
        self.scale
    }

    /// The data rate that was last asked for.
    pub closed spec fn spec_rate(&self) -> Rate {
        self.rate
    }

    /// Every transfer that this value has made, oldest first.
    pub open spec fn journal(&self) -> Seq<Exchange<Dev::Fault>> {
        self.bus().journal()
    }

    /// The journal of `self` starts with that of `before`.
    pub open spec fn continues(&self, before: &Self) -> bool {
        self.bus().continues(&before.bus())
    }

    /// The transfers that `self` has made beyond those of `before`.
    pub open spec fn since(&self, before: &Self) -> Seq<Exchange<Dev::Fault>> {
        self.bus().since(&before.bus())
    }

    /// The scale held here is the scale that the chip was last given. The
    /// three transfers of the start leave the full-scale field as they find
    /// it, which on a chip that has just been powered is +/- 2G: until a scale
    /// is written, that is the scale. From then on the last write to
    /// `CTRL_REG4_A` that went through has put the setting of this scale into
    /// the full-scale field. Every sensor that was started has this property
    /// and keeps it, as long as the chip is written to through the sensor
    /// alone.
    pub open spec fn mirrors_chip(&self) -> bool {
        &&& self.journal().len() >= 3
        &&& match last_written(self.journal().skip(3), CTRL_REG4_A) {
            Some(byte) => byte & FS == self.scale().setting(),
            None => self.scale() == Scale::Scale2G,
        }
    }

    /// `result` is a sensor that has just been started, or the failure to
    /// start one: a started sensor is at +/- 2G and 10 Hz, and its journal
    /// holds the transfers of a start that succeeded and no others.
    pub open spec fn is_started(result: Result<Self, Error<Dev::Fault>>) -> bool {
        match result {
            Ok(sensor) => {
                &&& is_start(sensor.journal(), Ok::<(), Error<Dev::Fault>>(()))
                &&& sensor.scale() == Scale::Scale2G
                &&& sensor.rate() == Rate::Rate10Hz
                &&& sensor.mirrors_chip()
            },
            Err(error) => exists|journal: Seq<Exchange<Dev::Fault>>|
                is_start(journal, Err::<(), Error<Dev::Fault>>(error)),
        }
    }

    /// Initialize the accelerometer, given what opening the I2C device at
    /// `I2C_ADDRESS` came to. A device that could not be opened is
    /// `FailedToOpenDevice`, and no transfer is made.
    pub fn new(opened: Result<Dev, Dev::Fault>) -> (result: Result<Self, Error<Dev::Fault>>)
        ensures
            match opened {
                Ok(device) => Self::is_started(result),
                Err(fault) => result matches Err(error) && error == Error::caused_by(
                    ErrorKind::FailedToOpenDevice,
                    fault,
                ),
            },
    {
        match opened {
            Ok(device) => Self::from_i2c_device(device),
            Err(fault) => Err(Error::caused_by(ErrorKind::FailedToOpenDevice, fault)),
        }
    }

    /// Initialize the accelerometer, given an open I2C device.
    ///
    /// The sensor is started on the device as `start` does it. If the start
    /// fails the device is given up with the failure.
    pub fn from_i2c_device(device: Dev) -> (result: Result<Self, Error<Dev::Fault>>)
        ensures
            Self::is_started(result),
    {
        let mut bus = Bus::new(device);
        let ghost fresh = bus;
        let started = start(&mut bus);
        assert(bus.journal() =~= bus.since(&fresh));
        match started {
            // Default scale is +/- 2G, default rate is 10 Hz.
            Ok(()) => Ok(Accelerometer { bus, scale: Scale::Scale2G, rate: Rate::Rate10Hz }),
            Err(error) => {
                assert(is_start(bus.journal(), Err::<(), Error<Dev::Fault>>(error)));
                Err(error)
            },
        }
    }

    /// The scale that samples are converted at.
    #[verifier::when_used_as_spec(spec_scale)]
    pub fn scale(&self) -> (scale: Scale)
        ensures
            scale == self.spec_scale(),
    {
        self.scale
    }

    /// The data rate that was last asked for.
    #[verifier::when_used_as_spec(spec_rate)]
    pub fn rate(&self) -> (rate: Rate)
        ensures
            rate == self.spec_rate(),
    {
        self.rate
    }

    /// Read the accelerometer, returning a vector of accelerations in
    /// milli-g at the current scale.
    pub fn read_acceleration(&mut self) -> (result: Result<AccelerationVector, Error<Dev::Fault>>)
        ensures
            final(self).continues(old(self)),
            is_sample_read(final(self).since(old(self)), old(self).scale(), result),
            final(self).scale() == old(self).scale(),
            final(self).rate() == old(self).rate(),
            old(self).mirrors_chip() ==> final(self).mirrors_chip(),
    {
        assert(0x28u8 | 0x80u8 == 0xA8u8) by (bit_vector);
        let result = match self.bus.read_block(OUT_X_L_A | AUTO_INCREMENT, SAMPLE_LENGTH) {
            Ok(data) => match decode(data.as_slice(), self.scale) {
                Ok(acceleration) => Ok(acceleration),
                Err(kind) => Err(Error::from_kind(kind)),
            },
            Err(error) => Err(error),
        };
        proof {
            reveal_with_fuel(last_written, 2);
            self.lemma_written_since(old(self));
        }
        result
    }

    /// Set the scale of the acceleration measurement.
    ///
    /// The full-scale field of `CTRL_REG4_A` is replaced by a
    /// read-modify-write. The scale that samples are converted at changes
    /// only if the write went through.
    pub fn set_scale(&mut self, scale: Scale) -> (result: Result<(), Error<Dev::Fault>>)
        ensures
            final(self).continues(old(self)),
            is_register_update(
                final(self).since(old(self)),
                CTRL_REG4_A,
                FS,
                scale.setting(),
                result,
            ),
            final(self).scale() == if result is Ok {
                scale
            } else {
                old(self).scale()
            },
            final(self).rate() == old(self).rate(),
            old(self).mirrors_chip() ==> final(self).mirrors_chip(),
    {
        let result = self.bus.modify_register(CTRL_REG4_A, FS, scale.setting());
        if result.is_ok() {
            self.scale = scale;
        }
        proof {
            let added = self.since(old(self));
            self.lemma_written_since(old(self));
            lemma_last_written_by_update(added, CTRL_REG4_A, FS, scale.setting(), result, CTRL_REG4_A);
            match added[0] {
                Exchange::ReadByte { byte: Ok(current), .. } => {
                    lemma_set_scale_keeps_other_flags(current, scale);
                },
                _ => {},
            }
        }
        result
    }

    /// Set the rate at which acceleration is measured.
    ///
    /// The output data rate field of `CTRL_REG1_A` is cleared by a
    /// read-modify-write and no rate pattern is put in, whatever `rate` is.
    /// `rate` is kept as the rate that was asked for if the write went through.
    pub fn set_rate(&mut self, rate: Rate) -> (result: Result<(), Error<Dev::Fault>>)
        ensures
            final(self).continues(old(self)),
            is_register_update(final(self).since(old(self)), CTRL_REG1_A, ODR, 0, result),
            final(self).rate() == if result is Ok {
                rate
            } else {
                old(self).rate()
            },
            final(self).scale() == old(self).scale(),
            old(self).mirrors_chip() ==> final(self).mirrors_chip(),
    {
        let result = self.bus.modify_register(CTRL_REG1_A, ODR, 0);
        if result.is_ok() {
            self.rate = rate;
        }
        proof {
            self.lemma_written_since(old(self));
            lemma_last_written_by_update(
                self.since(old(self)),
                CTRL_REG1_A,
                ODR,
                0,
                result,
                CTRL_REG4_A,
            );
        }
        result
    }

    /// What was last written to `CTRL_REG4_A` after the start is looked for
    /// among the transfers made since `before` first.
    proof fn lemma_written_since(&self, before: &Self)
        requires
            self.continues(before),
        ensures
            before.journal().len() >= 3 ==> last_written(self.journal().skip(3), CTRL_REG4_A)
                == match last_written(self.since(before), CTRL_REG4_A) {
                Some(byte) => Some(byte),
                None => last_written(before.journal().skip(3), CTRL_REG4_A),
            },
    {
        if before.journal().len() >= 3 {
            let earlier = before.journal().skip(3);
            let later = self.since(before);
            assert(self.journal().skip(3) =~= earlier + later);
            lemma_last_written_append(earlier, later, CTRL_REG4_A);
        }
    }

    /// Access the underlying bus handle.
    pub fn device(&self) -> (device: &Dev)
        ensures
            *device == self.bus().spec_device(),
    {
        self.bus.device()
    }

    /// Access the underlying bus handle for transfers of the caller's own.
    /// Refer to the LSM303 datasheet before writing to the chip directly: the
    /// scale kept here does not follow such writes.
    pub fn device_mut(&mut self) -> (device: &mut Dev)
        ensures
            *device == old(self).bus().spec_device(),
            final(self).bus().spec_device() == *final(device),
            final(self).journal() == old(self).journal(),
            final(self).scale() == old(self).scale(),
            final(self).rate() == old(self).rate(),
    {
        self.bus.device_mut()
    }

    /// Gives the bus handle back.
    pub fn into_device(self) -> (device: Dev)
        ensures
            device == self.bus().spec_device(),
    {
        self.bus.into_device()
    }
}

/// A sample read that gets a block of fewer than six bytes fails with
/// `NotEnoughData`: no acceleration is returned for it.
pub proof fn lemma_short_block_is_refused<F>(
    added: Seq<Exchange<F>>,
    scale: Scale,
    result: Result<AccelerationVector, Error<F>>,
)
    requires
        is_sample_read(added, scale, result),
        added[0] matches Exchange::ReadBlock { block: Ok(bytes), .. } && bytes.len() < 6,
    ensures
        result == Err::<AccelerationVector, Error<F>>(Error::from_kind(ErrorKind::NotEnoughData)),
{
}

/// A change of scale writes back what was read with nothing but the
/// full-scale field changed: the field holds the setting of the new scale,
/// and every other bit, the high-resolution flag and the SPI mode flag among
/// them, is as it was read.
pub proof fn lemma_set_scale_keeps_other_flags(current: u8, scale: Scale)
    ensures
        modified(current, FS, scale.setting()) & FS == scale.setting(),
        modified(current, FS, scale.setting()) & !FS == current & !FS,
        modified(current, FS, scale.setting()) & HR == current & HR,
        modified(current, FS, scale.setting()) & SIM == current & SIM,
{
    let setting: u8 = scale.setting();
    assert({
        &&& ((current & !0x30u8) | setting) & 0x30u8 == setting
        &&& ((current & !0x30u8) | setting) & !0x30u8 == current & !0x30u8
        &&& ((current & !0x30u8) | setting) & 0x08u8 == current & 0x08u8
        &&& ((current & !0x30u8) | setting) & 0x01u8 == current & 0x01u8
    }) by (bit_vector)
        requires
            setting == 0x00 || setting == 0x10 || setting == 0x20 || setting == 0x30,
    ;
}

} // verus!
