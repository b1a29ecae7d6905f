//! The registers of the LSM303: their addresses, the flags that the driver
//! names in them, and what a read-modify-write does to a byte.
//!
//! A register is always handled as the whole byte. Bits that a layout does
//! not name are never read as flags, and they are written back exactly as
//! they were read, so that a read-modify-write leaves them alone.

use vstd::prelude::*;

verus! {

// Accelerometer register addresses (0x00 - 0x1F and 0x3E - 0x3F are reserved).
pub const CTRL_REG1_A: u8 = 0x20;
pub const CTRL_REG2_A: u8 = 0x21;
pub const CTRL_REG3_A: u8 = 0x22;
pub const CTRL_REG4_A: u8 = 0x23;
pub const CTRL_REG5_A: u8 = 0x24;
pub const CTRL_REG6_A: u8 = 0x25;
pub const REFERENCE_A: u8 = 0x26;
pub const STATUS_REG_A: u8 = 0x27;
pub const OUT_X_L_A: u8 = 0x28;
pub const OUT_X_H_A: u8 = 0x29;
/// Another name of `OUT_X_H_A`.
pub const OUT_X_H_H: u8 = 0x29;
pub const OUT_Y_L_A: u8 = 0x2A;
pub const OUT_Y_H_A: u8 = 0x2B;
pub const OUT_Z_L_A: u8 = 0x2C;
pub const OUT_Z_H_A: u8 = 0x2D;
pub const FIFO_CTRL_REG_A: u8 = 0x2E;
pub const FIFO_SRC_REG_A: u8 = 0x2F;
pub const INT1_CFG_A: u8 = 0x30;
pub const INT1_SOURCE_A: u8 = 0x31;
pub const INT1_THS_A: u8 = 0x32;
pub const INT1_DURATION_A: u8 = 0x33;
pub const INT2_CFG_A: u8 = 0x34;
pub const INT2_SOURCE_A: u8 = 0x35;
pub const INT2_THS_A: u8 = 0x36;
pub const INT2_DURATION_A: u8 = 0x37;
pub const CLICK_CFG_A: u8 = 0x38;
pub const CLICK_SRC_A: u8 = 0x39;
pub const CLICK_THS_A: u8 = 0x3A;
pub const TIME_LIMIT_A: u8 = 0x3B;
pub const TIME_LATENCY_A: u8 = 0x3C;
pub const TIME_WINDOW_A: u8 = 0x3D;

// Magnetometer register addresses (0x0D - 0x30 and 0x33 - 0x3A are reserved).
pub const CRA_REG_M: u8 = 0x00;
pub const CRB_REG_M: u8 = 0x01;
pub const MR_REG_M: u8 = 0x02;
pub const OUT_X_H_M: u8 = 0x03;
pub const OUT_X_L_M: u8 = 0x04;
pub const OUT_Z_H_M: u8 = 0x05;
pub const OUT_Z_L_M: u8 = 0x06;
pub const OUT_Y_H_M: u8 = 0x07;
pub const OUT_Y_L_M: u8 = 0x08;
pub const SR_REG_M: u8 = 0x09;
pub const IRA_REG_M: u8 = 0x0A;
pub const IRB_REG_M: u8 = 0x0B;
pub const IRC_REG_M: u8 = 0x0C;
pub const TEMP_OUT_H_M: u8 = 0x31;
pub const TEMP_OUT_L_M: u8 = 0x32;

/// Set in a register address to make a block read step through the
/// registers that follow it.
pub const AUTO_INCREMENT: u8 = 0x80;

// Flags of CTRL_REG1_A: output data rate, low-power mode, axis enables.
pub const ODR3: u8 = 0x80;
pub const ODR2: u8 = 0x40;
pub const ODR1: u8 = 0x20;
pub const ODR0: u8 = 0x10;
#[allow(non_upper_case_globals)]
pub const LPen: u8 = 0x08;
#[allow(non_upper_case_globals)]
pub const Zen: u8 = 0x04;
#[allow(non_upper_case_globals)]
pub const Yen: u8 = 0x02;
#[allow(non_upper_case_globals)]
pub const Xen: u8 = 0x01;
/// The output data rate field, `ODR3 | ODR2 | ODR1 | ODR0`.
pub const ODR: u8 = 0xF0;

// Flags of CTRL_REG2_A: high-pass filter mode, cutoff and routing.
pub const HPM1: u8 = 0x80;
pub const HPM0: u8 = 0x40;
pub const HPCF2: u8 = 0x20;
pub const HPCF1: u8 = 0x10;
pub const FDS: u8 = 0x08;
pub const HPCLICK: u8 = 0x04;
pub const HPIS2: u8 = 0x02;
pub const HPIS1: u8 = 0x01;

// Flags of CTRL_REG3_A: what is routed to the INT1 pin. Bit 0 is not named.
pub const I1_CLICK: u8 = 0x80;
pub const I1_AOI1: u8 = 0x40;
pub const I1_AOI2: u8 = 0x20;
pub const I1_DRDY1: u8 = 0x10;
pub const I1_DRDY2: u8 = 0x08;
pub const I1_WTM: u8 = 0x04;
pub const I1_OVERRUN: u8 = 0x02;

// Flags of CTRL_REG4_A: block data update, endianness, full scale, high
// resolution, SPI mode. Bits 2 and 1 are not named.
pub const BDU: u8 = 0x80;
pub const BLE: u8 = 0x40;
pub const FS1: u8 = 0x20;
pub const FS0: u8 = 0x10;
pub const HR: u8 = 0x08;
pub const SIM: u8 = 0x01;
/// The full-scale field, `FS1 | FS0`.
pub const FS: u8 = 0x30;

// Flags of CTRL_REG5_A: reboot, FIFO enable, interrupt latching and 4D detection.
// Bits 5 and 4 are not named.
pub const BOOT: u8 = 0x80;
pub const FIFO_EN: u8 = 0x40;
pub const LIR_INT1: u8 = 0x08;
pub const D4D_INT1: u8 = 0x04;
pub const LIR_INT2: u8 = 0x02;
pub const D4D_INT2: u8 = 0x01;

// Flags of CTRL_REG6_A: what is routed to the INT2 pin, and interrupt polarity.
// Bits 2 and 0 are not named.
pub const I2_CLICK: u8 = 0x80;
pub const I2_INT1: u8 = 0x40;
pub const I2_INT2: u8 = 0x20;
pub const BOOT_I1: u8 = 0x10;
pub const P2_ACT: u8 = 0x08;
pub const H_LACTIVE: u8 = 0x02;

// Flags of REFERENCE_A: the bits of the reference value.
#[allow(non_upper_case_globals)]
pub const Ref7: u8 = 0x80;
#[allow(non_upper_case_globals)]
pub const Ref6: u8 = 0x40;
#[allow(non_upper_case_globals)]
pub const Ref5: u8 = 0x20;
#[allow(non_upper_case_globals)]
pub const Ref4: u8 = 0x10;
#[allow(non_upper_case_globals)]
pub const Ref3: u8 = 0x08;
#[allow(non_upper_case_globals)]
pub const Ref2: u8 = 0x04;
#[allow(non_upper_case_globals)]
pub const Ref1: u8 = 0x02;
#[allow(non_upper_case_globals)]
pub const Ref0: u8 = 0x01;

// Flags of STATUS_REG_A: data overrun and data available, for all axes and for each.
pub const ZYXOR: u8 = 0x80;
pub const ZOR: u8 = 0x40;
pub const YOR: u8 = 0x20;
pub const XOR: u8 = 0x10;
pub const ZYXDA: u8 = 0x08;
pub const ZDA: u8 = 0x04;
pub const YDA: u8 = 0x02;
pub const XDA: u8 = 0x01;

// Flags of FIFO_CTRL_REG_A: FIFO mode, trigger selection and threshold.
pub const FM1: u8 = 0x80;
pub const FM0: u8 = 0x40;
pub const TR: u8 = 0x20;
pub const FTH4: u8 = 0x10;
pub const FTH3: u8 = 0x08;
pub const FTH2: u8 = 0x04;
pub const FTH1: u8 = 0x02;
pub const FTH0: u8 = 0x01;

// Flags of FIFO_SRC_REG_A: watermark, overrun, empty, and the number of samples
// stored.
pub const WTM: u8 = 0x80;
pub const OVRN_FIFO: u8 = 0x40;
pub const EMPTY: u8 = 0x20;
pub const FSS4: u8 = 0x10;
pub const FSS3: u8 = 0x08;
pub const FSS2: u8 = 0x04;
pub const FSS1: u8 = 0x02;
pub const FSS0: u8 = 0x01;

// Flags of INT1_CFG_A and INT2_CFG_A: which events raise the interrupt.
pub const AOI: u8 = 0x80;
pub const _6D: u8 = 0x40;
pub const ZHIE: u8 = 0x20;
pub const ZLIO: u8 = 0x10;
pub const YHIE: u8 = 0x08;
pub const YLIE: u8 = 0x04;
pub const XHIE: u8 = 0x02;
pub const XLIE: u8 = 0x01;

// Flags of INT1_SOURCE_A and INT2_SOURCE_A: which events have occurred. Bit 7 is
// not named.
pub const IA: u8 = 0x40;
pub const ZH: u8 = 0x20;
pub const ZL: u8 = 0x10;
pub const YH: u8 = 0x08;
pub const YL: u8 = 0x04;
pub const XH: u8 = 0x02;
pub const XL: u8 = 0x01;

// Flags of INT1_DURATION_A and INT2_DURATION_A: the bits of the duration. Bit 7 is
// not named.
pub const D6: u8 = 0x40;
pub const D5: u8 = 0x20;
pub const D4: u8 = 0x10;
pub const D3: u8 = 0x08;
pub const D2: u8 = 0x04;
pub const D1: u8 = 0x02;
pub const D0: u8 = 0x01;

// Flags of CLICK_CFG_A: double and single click enable for each axis. Bits 7 and 6
// are not named.
pub const ZD: u8 = 0x20;
pub const ZS: u8 = 0x10;
pub const YD: u8 = 0x08;
pub const YS: u8 = 0x04;
pub const XD: u8 = 0x02;
pub const XS: u8 = 0x01;

// Flags of CLICK_SRC_A: what click was detected. `SCLICK` is on bit 5 with `DCLICK`;
// bits 7 and 4 are not named.
#[allow(non_upper_case_globals)]
pub const IA_click: u8 = 0x40;
pub const DCLICK: u8 = 0x20;
pub const SCLICK: u8 = 0x20;
#[allow(non_upper_case_globals)]
pub const Sign: u8 = 0x08;
pub const Z: u8 = 0x04;
pub const Y: u8 = 0x02;
pub const X: u8 = 0x01;

// Flags of CRA_REG_M: temperature sensor enable and output rate.
pub const TEMP_EN: u8 = 0x80;
pub const DO2: u8 = 0x10;
pub const DO1: u8 = 0x08;
pub const DO0: u8 = 0x04;

// Flags of CRB_REG_M: gain. The low five bits are not named.
pub const GN2: u8 = 0x80;
pub const GN1: u8 = 0x40;
pub const GN0: u8 = 0x20;
/// The gain field, `GN2 | GN1 | GN0`.
pub const GN: u8 = 0xE0;

// Flags of MR_REG_M: operating mode. Both clear is continuous conversion.
pub const MD1: u8 = 0x02;
pub const MD0: u8 = 0x01;

// Flags of SR_REG_M: data output register lock and data ready. The upper six
// bits are not named.
pub const LOCK: u8 = 0x02;
pub const DRDY: u8 = 0x01;

/// `byte` with the bits of `clear` taken out and then the bits of `set` put in.
pub open spec fn spec_modified(byte: u8, clear: u8, set: u8) -> u8 {
    (byte & !clear) | set
}

/// The byte to write back in a read-modify-write: `byte` as it was read,
/// without the bits of `clear`, with the bits of `set`.
#[verifier::when_used_as_spec(spec_modified)]
pub fn modified(byte: u8, clear: u8, set: u8) -> (updated: u8)
    ensures
        updated == spec_modified(byte, clear, set),
{
    (byte & !clear) | set
}

/// A read-modify-write touches nothing but the bits it names: every bit
/// outside `clear` and `set` is in the result what it was in `byte`, every bit
/// of `set` is on, and every bit of `clear` that `set` does not hold is off.
pub proof fn lemma_modified_bits(byte: u8, clear: u8, set: u8)
    ensures
        modified(byte, clear, set) & !(clear | set) == byte & !(clear | set),
        modified(byte, clear, set) & set == set,
        modified(byte, clear, set) & (clear & !set) == 0,
{
    assert({
        &&& ((byte & !clear) | set) & !(clear | set) == byte & !(clear | set)
        &&& ((byte & !clear) | set) & set == set
        &&& ((byte & !clear) | set) & (clear & !set) == 0
    }) by (bit_vector);
}

/// A flag that a read-modify-write does not name survives it: where `flag`
/// shares no bit with `clear` or `set`, it is on afterwards exactly if it was
/// on before.
pub proof fn lemma_modified_keeps_flag(byte: u8, clear: u8, set: u8, flag: u8)
    requires
        flag & (clear | set) == 0,
    ensures
        modified(byte, clear, set) & flag == byte & flag,
{
    assert(((byte & !clear) | set) & flag == byte & flag) by (bit_vector)
        requires
            flag & (clear | set) == 0,
    ;
}

/// Replacing a field twice is replacing it once with the later setting.
pub proof fn lemma_modified_twice(byte: u8, field: u8, first: u8, second: u8)
    requires
        first & !field == 0,
    ensures
        modified(modified(byte, field, first), field, second) == modified(byte, field, second),
{
    assert((((byte & !field) | first) & !field) | second == (byte & !field) | second)
        by (bit_vector)
        requires
            first & !field == 0,
    ;
}

/// The allowed settings for the gain on the magnetometer.
#[allow(non_camel_case_types)]
#[derive(Clone, Copy, Debug, PartialEq, Eq, Structural)]
pub enum MagGain {
    /// +/- 1.3 Gauss
    Gain_1_3,
    /// +/- 1.9 Gauss
    Gain_1_9,
    /// +/- 2.5 Gauss
    Gain_2_5,
    /// +/- 4.0 Gauss
    Gain_4_0,
    /// +/- 4.7 Gauss
    Gain_4_7,
    /// +/- 5.6 Gauss
    Gain_5_6,
    /// +/- 8.1 Gauss
    Gain_8_1,
}

impl MagGain {
    /// The gain field of `CRB_REG_M` for this gain: the three-bit codes 001 to
    /// 111 in order of growing range, in bits 7 to 5. Code 000 is not a gain.
    pub open spec fn spec_setting(self) -> u8 {
        match self {
            MagGain::Gain_1_3 => 0b0010_0000,
            MagGain::Gain_1_9 => 0b0100_0000,
            MagGain::Gain_2_5 => 0b0110_0000,
            MagGain::Gain_4_0 => 0b1000_0000,
            MagGain::Gain_4_7 => 0b1010_0000,
            MagGain::Gain_5_6 => 0b1100_0000,
            MagGain::Gain_8_1 => 0b1110_0000,
        }
    }

    /// The flags of `CRB_REG_M` that select this gain.
    #[verifier::when_used_as_spec(spec_setting)]
    pub fn setting(self) -> (flags: u8)
        ensures
            flags == self.spec_setting(),
    {
        proof {
            lemma_gain_flags();
        }
        match self {
            MagGain::Gain_1_3 => GN0,
            MagGain::Gain_1_9 => GN1,
            MagGain::Gain_2_5 => GN1 | GN0,
            MagGain::Gain_4_0 => GN2,
            MagGain::Gain_4_7 => GN2 | GN0,
            MagGain::Gain_5_6 => GN2 | GN1,
            MagGain::Gain_8_1 => GN2 | GN1 | GN0,
        }
    }
}

proof fn lemma_gain_flags()
    ensures
        GN1 | GN0 == 0x60,
        GN2 | GN0 == 0xA0,
        GN2 | GN1 == 0xC0,
        GN2 | GN1 | GN0 == 0xE0,
{
    assert({
        &&& 0x40u8 | 0x20u8 == 0x60u8
        &&& 0x80u8 | 0x20u8 == 0xA0u8
        &&& 0x80u8 | 0x40u8 == 0xC0u8
        &&& 0x80u8 | 0x40u8 | 0x20u8 == 0xE0u8
    }) by (bit_vector);
}

/// No two gains share a setting, and every setting lies within the gain field
/// and is not empty.
pub proof fn lemma_gain_settings_distinct(a: MagGain, b: MagGain)
    ensures
        a.setting() == b.setting() <==> a == b,
        a.setting() & !GN == 0,
        a.setting() != 0,
{
    let setting: u8 = a.setting();
    assert(setting & !0xE0u8 == 0) by (bit_vector)
        requires
            setting == 0x20 || setting == 0x40 || setting == 0x60 || setting == 0x80 || setting
                == 0xA0 || setting == 0xC0 || setting == 0xE0,
    ;
}

/// The contents of `CRB_REG_M`.
#[derive(Clone, Copy, Debug, PartialEq, Eq, Structural)]
pub struct CrbRegM {
    bits: u8,
}

impl View for CrbRegM {
    type V = u8;

    closed spec fn view(&self) -> u8 {
        self.bits
    }
}

impl CrbRegM {
    /// The register with no bit set.
    pub fn empty() -> (register: Self)
        ensures
            register@ == 0,
    {
        CrbRegM { bits: 0 }
    }

    /// The register holding `byte`.
    pub fn from_bits(byte: u8) -> (register: Self)
        ensures
            register@ == byte,
    {
        CrbRegM { bits: byte }
    }

    /// The byte that the register holds.
    pub fn bits(&self) -> (byte: u8)
        ensures
            byte == self@,
    {
        self.bits
    }

    /// Whether every bit of `flags` is set.
    pub fn contains(&self, flags: u8) -> (held: bool)
        ensures
            held == (self@ & flags == flags),
    {
        self.bits & flags == flags
    }

    /// Sets the bits of `flags`.
    pub fn insert(&mut self, flags: u8)
        ensures
            final(self)@ == old(self)@ | flags,
    {
        self.bits = self.bits | flags;
    }

    /// Clears the bits of `flags`.
    pub fn remove(&mut self, flags: u8)
        ensures
            final(self)@ == old(self)@ & !flags,
    {
        self.bits = self.bits & !flags;
    }

    /// Replaces the gain field by the setting of `gain` and leaves the other
    /// bits as they are.
    pub fn set_gain(&mut self, gain: MagGain)
        ensures
            final(self)@ == modified(old(self)@, GN, gain.setting()),
    {
        let mask: u8 = GN2 | GN1 | GN0;
        proof {
            lemma_gain_flags();
        }
        let value: u8 = gain.setting();
        self.remove(mask);
        self.insert(value);
    }
}

} // verus!
