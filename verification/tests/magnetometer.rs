use lsm303::common::Vector3;
use lsm303::errors::ErrorKind;
use lsm303::magnetometer::{
    convert, decode, FluxDensity, Gain, I2C_ADDRESS, START_CRA_REG_M, START_MR_REG_M,
};
use lsm303::registers::{MagGain, DO2, TEMP_EN};
use lsm303::wire::RawSample;

const ALL_GAINS: [Gain; 7] = [
    Gain::Gain_1_3,
    Gain::Gain_1_9,
    Gain::Gain_2_5,
    Gain::Gain_4_0,
    Gain::Gain_4_7,
    Gain::Gain_5_6,
    Gain::Gain_8_1,
];

#[test]
fn magnetometer_constants() {
    assert_eq!(I2C_ADDRESS, 0x3C >> 1);
    assert_eq!(START_MR_REG_M, 0);
    assert_eq!(START_CRA_REG_M, TEMP_EN | DO2);
}

#[test]
fn gains_name_their_register_settings() {
    assert_eq!(Gain::Gain_1_3.register_setting(), MagGain::Gain_1_3);
    assert_eq!(Gain::Gain_1_9.register_setting(), MagGain::Gain_1_9);
    assert_eq!(Gain::Gain_2_5.register_setting(), MagGain::Gain_2_5);
    assert_eq!(Gain::Gain_4_0.register_setting(), MagGain::Gain_4_0);
    assert_eq!(Gain::Gain_4_7.register_setting(), MagGain::Gain_4_7);
    assert_eq!(Gain::Gain_5_6.register_setting(), MagGain::Gain_5_6);
    assert_eq!(Gain::Gain_8_1.register_setting(), MagGain::Gain_8_1);
}

#[test]
fn sensitivity_table_has_two_columns() {
    let xy: Vec<u16> = ALL_GAINS.iter().map(|gain| gain.counts_per_gauss_xy()).collect();
    let z: Vec<u16> = ALL_GAINS.iter().map(|gain| gain.counts_per_gauss_z()).collect();
    assert_eq!(xy, vec![1100, 855, 670, 450, 400, 330, 230]);
    assert_eq!(z, vec![980, 760, 600, 400, 355, 295, 205]);
}

#[test]
fn z_is_less_sensitive_than_x_and_y_at_every_gain() {
    for gain in ALL_GAINS {
        assert!(0 < gain.counts_per_gauss_z());
        assert!(gain.counts_per_gauss_z() < gain.counts_per_gauss_xy());
    }
}

#[test]
fn the_same_count_is_another_field_on_z_than_on_x_and_y() {
    for gain in ALL_GAINS {
        for counts in [1i16, -1, 100, -2048, i16::MAX, i16::MIN] {
            let field = convert(RawSample { first: counts, second: counts, third: counts }, gain);
            assert_eq!(field.x, field.y);
            assert_ne!(field.x, field.z);
            let x = i64::from(field.x.counts) * i64::from(field.z.counts_per_gauss);
            let z = i64::from(field.z.counts) * i64::from(field.x.counts_per_gauss);
            assert_ne!(x, z);
            assert!(x.abs() < z.abs());
        }
    }
}

#[test]
fn wire_order_x_z_y_becomes_x_y_z() {
    let block = [0x00, 100, 0x00, 200, 0x01, 0x2C];
    let field = decode(&block, Gain::Gain_1_3).unwrap();
    assert_eq!(field.x, FluxDensity { counts: 100, counts_per_gauss: 1100 });
    assert_eq!(field.y, FluxDensity { counts: 300, counts_per_gauss: 1100 });
    assert_eq!(field.z, FluxDensity { counts: 200, counts_per_gauss: 980 });
}

#[test]
fn wire_order_holds_at_every_gain() {
    let raw = RawSample { first: 100, second: 200, third: 300 };
    for gain in ALL_GAINS {
        let field = convert(raw, gain);
        assert_eq!(
            field,
            Vector3 {
                x: FluxDensity { counts: 100, counts_per_gauss: gain.counts_per_gauss_xy() },
                y: FluxDensity { counts: 300, counts_per_gauss: gain.counts_per_gauss_xy() },
                z: FluxDensity { counts: 200, counts_per_gauss: gain.counts_per_gauss_z() },
            }
        );
    }
}

#[test]
fn magnetometer_values_are_not_shifted() {
    let block = [0xFF, 0xFF, 0x80, 0x00, 0x7F, 0xFF];
    let field = decode(&block, Gain::Gain_8_1).unwrap();
    assert_eq!(field.x, FluxDensity { counts: -1, counts_per_gauss: 230 });
    assert_eq!(field.y, FluxDensity { counts: 32767, counts_per_gauss: 230 });
    assert_eq!(field.z, FluxDensity { counts: -32768, counts_per_gauss: 205 });
}

#[test]
fn magnetometer_decode_refuses_short_blocks() {
    let block = [0x00, 100, 0x00, 200, 0x01, 0x2C];
    for length in 0..6 {
        for gain in ALL_GAINS {
            assert_eq!(decode(&block[..length], gain), Err(ErrorKind::NotEnoughData));
        }
    }
}
