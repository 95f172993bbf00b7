use max1720x::{
    microvolts, nanoamps, signed, word, Status, MICROVOLTS_PER_STEP, NANOAMPS_PER_STEP,
    STEPS_PER_PERCENT,
};

fn flags(status: &Status) -> [bool; 13] {
    [
        status.por,
        status.imn,
        status.bst,
        status.imx,
        status.dsoci,
        status.vmn,
        status.tmn,
        status.smn,
        status.bi,
        status.vmx,
        status.tmx,
        status.smx,
        status.br,
    ]
}

#[test]
fn word_is_little_endian() {
    assert_eq!(word([0x34, 0x12]), 0x1234);
}

#[test]
fn word_of_extreme_bytes() {
    assert_eq!(word([0x00, 0x00]), 0x0000);
    assert_eq!(word([0xFF, 0x00]), 0x00FF);
    assert_eq!(word([0x00, 0xFF]), 0xFF00);
    assert_eq!(word([0xFF, 0xFF]), 0xFFFF);
}

#[test]
fn word_agrees_with_the_standard_conversion() {
    for low in [0x00u8, 0x01, 0x7F, 0x80, 0xFF] {
        for high in [0x00u8, 0x01, 0x7F, 0x80, 0xFF] {
            assert_eq!(word([low, high]), u16::from_le_bytes([low, high]));
        }
    }
}

#[test]
fn signed_keeps_small_words() {
    assert_eq!(signed(0x0000), 0);
    assert_eq!(signed(0x0001), 1);
    assert_eq!(signed(0x7FFF), 32767);
}

#[test]
fn signed_reads_high_words_as_negative() {
    assert_eq!(signed(0x8000), -32768);
    assert_eq!(signed(0x8001), -32767);
    assert_eq!(signed(0xFFFF), -1);
}

#[test]
fn scale_constants() {
    assert_eq!(MICROVOLTS_PER_STEP, 1250);
    assert_eq!(NANOAMPS_PER_STEP, 156_250);
    assert_eq!(STEPS_PER_PERCENT, 256);
}

#[test]
fn eight_hundred_steps_are_one_volt() {
    assert_eq!(microvolts(800), 1_000_000);
    assert_eq!(f64::from(microvolts(800)) / 1e6, 1.0);
}

#[test]
fn voltage_at_the_ends_of_the_range() {
    assert_eq!(microvolts(0), 0);
    assert_eq!(microvolts(1), 1250);
    assert_eq!(microvolts(0xFFFF), 81_918_750);
}

#[test]
fn zero_current() {
    assert_eq!(nanoamps(0x0000), 0);
}

#[test]
fn minus_one_step_of_current() {
    assert_eq!(nanoamps(0xFFFF), -156_250);
    assert_eq!(nanoamps(0xFFFF) as f64 / 1e9, -0.00015625);
}

#[test]
fn most_negative_current() {
    assert_eq!(nanoamps(0x8000), -5_120_000_000);
    assert_eq!(nanoamps(0x8000) as f64 / 1e9, -5.12);
}

#[test]
fn most_positive_current() {
    assert_eq!(nanoamps(0x7FFF), 5_119_843_750);
    assert_eq!(nanoamps(0x0001), 156_250);
}

#[test]
fn power_on_reset_alone() {
    let status = Status::decode(0x0002);
    assert!(status.por);
    assert_eq!(
        flags(&status),
        [true, false, false, false, false, false, false, false, false, false, false, false, false]
    );
}

#[test]
fn all_ones_sets_every_flag() {
    let status = Status::decode(0xFFFF);
    assert_eq!(flags(&status), [true; 13]);
}

#[test]
fn zero_sets_no_flag() {
    let status = Status::decode(0x0000);
    assert_eq!(flags(&status), [false; 13]);
}

#[test]
fn bits_without_a_flag_are_ignored() {
    let status = Status::decode(0x0031);
    assert_eq!(flags(&status), [false; 13]);
    for w in [0x0002u16, 0x8000, 0x1234, 0xFFFF, 0xABCD] {
        assert_eq!(Status::decode(w), Status::decode(w & 0xFFCE));
        assert_eq!(Status::decode(w), Status::decode(w | 0x0031));
    }
}

#[test]
fn each_flag_has_its_own_bit() {
    let bits: [u16; 13] = [1, 2, 3, 6, 7, 8, 9, 10, 11, 12, 13, 14, 15];
    for (position, bit) in bits.iter().enumerate() {
        let status = Status::decode(1u16 << bit);
        let mut expected = [false; 13];
        expected[position] = true;
        assert_eq!(flags(&status), expected);
    }
}

#[test]
fn flags_are_named_by_their_bits() {
    assert!(Status::decode(1 << 1).por);
    assert!(Status::decode(1 << 2).imn);
    assert!(Status::decode(1 << 3).bst);
    assert!(Status::decode(1 << 6).imx);
    assert!(Status::decode(1 << 7).dsoci);
    assert!(Status::decode(1 << 8).vmn);
    assert!(Status::decode(1 << 9).tmn);
    assert!(Status::decode(1 << 10).smn);
    assert!(Status::decode(1 << 11).bi);
    assert!(Status::decode(1 << 12).vmx);
    assert!(Status::decode(1 << 13).tmx);
    assert!(Status::decode(1 << 14).smx);
    assert!(Status::decode(1 << 15).br);
}

#[test]
fn decoding_twice_gives_the_same_flags() {
    for w in [0x0000u16, 0x0002, 0x00C8, 0x8F0E, 0xFFFF] {
        assert_eq!(Status::decode(w), Status::decode(w));
    }
}
