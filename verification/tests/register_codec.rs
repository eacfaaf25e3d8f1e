//! Tests for the register map: power-on defaults, the address table,
//! and the bit-exact encode/decode rules.
use at42qt1070::register_map::Register;
use at42qt1070::register_map::RegisterMap;
use at42qt1070::register_map::RegisterMapRegister;
use at42qt1070::register_map::REGISTER_COUNT;
use at42qt1070::register_map::{Key, LowPowerMode, MaxOnDuration};

const KEYS: [Key; 7] = [
    Key::Key0,
    Key::Key1,
    Key::Key2,
    Key::Key3,
    Key::Key4,
    Key::Key5,
    Key::Key6,
];

fn all_registers() -> Vec<Register> {
    let mut regs = vec![
        Register::ChipID,
        Register::FirmwareVersion,
        Register::DetectionStatus,
        Register::KeyStatus,
    ];
    for key in KEYS {
        regs.push(Register::KeySignalMs(key));
        regs.push(Register::KeySignalLs(key));
    }
    for key in KEYS {
        regs.push(Register::ReferenceDataMs(key));
        regs.push(Register::ReferenceDataLs(key));
    }
    for key in KEYS {
        regs.push(Register::NthrKey(key));
    }
    for key in KEYS {
        regs.push(Register::AveAksKey(key));
    }
    for key in KEYS {
        regs.push(Register::DIKey(key));
    }
    regs.push(Register::FoMcGuard);
    regs.push(Register::LowPowerMode);
    regs.push(Register::MaxOnDuration);
    regs.push(Register::Calibrate);
    regs.push(Register::Reset);
    regs
}

fn defined_mask(reg: &Register) -> u8 {
    match reg {
        Register::DetectionStatus => 0xC1,
        Register::FoMcGuard => 0x3F,
        _ => 0xFF,
    }
}

#[test]
fn default_matches_power_on_reset_values() {
    let map = RegisterMap::default();
    assert_eq!(map.chip_id.major_id, 0x2);
    assert_eq!(map.chip_id.minor_id, 0xE);
    assert_eq!(map.firmware_version, 0x15);
    assert!(!map.detection_status.calibrate);
    assert!(!map.detection_status.overflow);
    assert!(!map.detection_status.touch);
    assert!(!map.key_status.reserved);
    assert_eq!(map.key_status.key, [false; 7]);
    assert_eq!(map.key_signal_ms, [0x00; 7]);
    assert_eq!(map.key_signal_ls, [0x00; 7]);
    assert_eq!(map.reference_data_ms, [0x00; 7]);
    assert_eq!(map.reference_data_ls, [0x00; 7]);
    assert_eq!(map.nthr_key, [0x14; 7]);
    for key in KEYS {
        let ave_aks = map.get_ave_aks_key_register(&key);
        assert_eq!(ave_aks.ave, 0x08);
        assert_eq!(ave_aks.aks, 0x01);
    }
    assert_eq!(map.di_key, [0x04; 7]);
    assert!(!map.fo_mc_guard.fast_out);
    assert!(!map.fo_mc_guard.max_cal);
    assert_eq!(map.fo_mc_guard.guard_channel, 0x00);
    assert_eq!(map.low_power_mode.as_byte(), 2);
    assert_eq!(map.max_on_duration.as_byte(), 180);
    assert_eq!(map.calibrate, 0x00);
    assert_eq!(map.reset, 0x00);
}

#[test]
fn address_table_matches_datasheet() {
    assert_eq!(RegisterMap::get_register_addr(&Register::ChipID), 0x00);
    assert_eq!(
        RegisterMap::get_register_addr(&Register::FirmwareVersion),
        0x01
    );
    assert_eq!(
        RegisterMap::get_register_addr(&Register::DetectionStatus),
        0x02
    );
    assert_eq!(RegisterMap::get_register_addr(&Register::KeyStatus), 0x03);
    for (i, key) in KEYS.iter().enumerate() {
        let i = i as u8;
        assert_eq!(
            RegisterMap::get_register_addr(&Register::KeySignalMs(*key)),
            0x04 + 2 * i
        );
        assert_eq!(
            RegisterMap::get_register_addr(&Register::KeySignalLs(*key)),
            0x05 + 2 * i
        );
        assert_eq!(
            RegisterMap::get_register_addr(&Register::ReferenceDataMs(*key)),
            0x12 + 2 * i
        );
        assert_eq!(
            RegisterMap::get_register_addr(&Register::ReferenceDataLs(*key)),
            0x13 + 2 * i
        );
        assert_eq!(
            RegisterMap::get_register_addr(&Register::NthrKey(*key)),
            0x20 + i
        );
        assert_eq!(
            RegisterMap::get_register_addr(&Register::AveAksKey(*key)),
            0x27 + i
        );
        assert_eq!(
            RegisterMap::get_register_addr(&Register::DIKey(*key)),
            0x2E + i
        );
    }
    assert_eq!(RegisterMap::get_register_addr(&Register::FoMcGuard), 0x35);
    assert_eq!(
        RegisterMap::get_register_addr(&Register::LowPowerMode),
        0x36
    );
    assert_eq!(
        RegisterMap::get_register_addr(&Register::MaxOnDuration),
        0x37
    );
    assert_eq!(RegisterMap::get_register_addr(&Register::Calibrate), 0x38);
    assert_eq!(RegisterMap::get_register_addr(&Register::Reset), 0x39);
}

#[test]
fn address_table_is_injective_and_total() {
    let mut seen = [false; REGISTER_COUNT as usize];
    let regs = all_registers();
    assert_eq!(regs.len(), REGISTER_COUNT as usize);
    for reg in &regs {
        let addr = RegisterMap::get_register_addr(reg) as usize;
        assert!(addr < REGISTER_COUNT as usize);
        assert!(!seen[addr], "two registers share address {addr:#04x}");
        seen[addr] = true;
    }
    assert!(seen.iter().all(|&s| s));
}

#[test]
fn every_register_round_trips_through_its_byte() {
    for reg in all_registers() {
        let mask = defined_mask(&reg);
        for v in 0..=255u8 {
            let mut map = RegisterMap::default();
            map.decode(&reg, v);
            assert_eq!(
                map.reg_as_byte(&reg),
                v & mask,
                "round trip failed for {reg:?} with byte {v:#04x}"
            );
        }
    }
}

#[test]
fn chip_id_decodes_major_in_high_nibble() {
    let mut map = RegisterMap::default();
    map.decode(&Register::ChipID, 0x2E);
    assert_eq!(map.chip_id.major_id, 0x2);
    assert_eq!(map.chip_id.minor_id, 0xE);
}

#[test]
fn detection_status_flags_follow_their_bits() {
    let mut map = RegisterMap::default();
    map.decode(&Register::DetectionStatus, 0x81);
    assert!(map.detection_status.calibrate);
    assert!(!map.detection_status.overflow);
    assert!(map.detection_status.touch);
    map.decode(&Register::DetectionStatus, 0x40);
    assert!(!map.detection_status.calibrate);
    assert!(map.detection_status.overflow);
    assert!(!map.detection_status.touch);
}

#[test]
fn key_status_decodes_one_flag_per_bit() {
    let mut map = RegisterMap::default();
    map.decode(&Register::KeyStatus, 0b0101_0101);
    assert_eq!(
        map.key_status.key,
        [true, false, true, false, true, false, true]
    );
    assert!(!map.key_status.reserved);
    map.decode(&Register::KeyStatus, 0b1000_0010);
    assert_eq!(
        map.key_status.key,
        [false, true, false, false, false, false, false]
    );
    assert!(map.key_status.reserved);
}

#[test]
fn ave_aks_packs_six_and_two_bits() {
    let mut map = RegisterMap::default();
    map.decode(&Register::AveAksKey(Key::Key2), 0b1001_1010);
    let ave_aks = map.get_ave_aks_key_register(&Key::Key2);
    assert_eq!(ave_aks.ave, 0b10_0110);
    assert_eq!(ave_aks.aks, 0b10);
    // The other keys keep their default.
    let untouched = map.get_ave_aks_key_register(&Key::Key3);
    assert_eq!((untouched.ave, untouched.aks), (0x08, 0x01));
}

#[test]
fn fo_mc_guard_packs_flags_and_channel() {
    let mut map = RegisterMap::default();
    map.decode(&Register::FoMcGuard, 0b0011_0100);
    assert!(map.fo_mc_guard.fast_out);
    assert!(map.fo_mc_guard.max_cal);
    assert_eq!(map.fo_mc_guard.guard_channel, 0x4);
    // The two reserved top bits are masked away on both directions.
    map.decode(&Register::FoMcGuard, 0b1100_0111);
    assert!(!map.fo_mc_guard.fast_out);
    assert!(!map.fo_mc_guard.max_cal);
    assert_eq!(map.fo_mc_guard.guard_channel, 0x7);
    assert_eq!(map.reg_as_byte(&Register::FoMcGuard), 0b0000_0111);
}

#[test]
fn decode_touches_only_the_addressed_key() {
    let mut map = RegisterMap::default();
    map.decode(&Register::NthrKey(Key::Key4), 0x99);
    for (i, key) in KEYS.iter().enumerate() {
        let expected = if i == 4 { 0x99 } else { 0x14 };
        assert_eq!(*map.get_nthr_key_register(key), expected);
    }
}

#[test]
fn low_power_mode_from_millis_divides_by_8() {
    assert_eq!(LowPowerMode::from_millis(40).as_byte(), 5);
    assert_eq!(LowPowerMode::from_millis(0).as_byte(), 0);
    assert_eq!(LowPowerMode::from_millis(15).as_byte(), 1);
}

#[test]
fn max_on_duration_from_millis_divides_by_160() {
    assert_eq!(MaxOnDuration::from_millis(320).as_byte(), 2);
    assert_eq!(MaxOnDuration::from_millis(0).as_byte(), 0);
    assert_eq!(MaxOnDuration::from_millis(159).as_byte(), 0);
}

#[test]
fn key_from_byte_clamps_modulo_seven() {
    assert_eq!(Key::from(0), Key::Key0);
    assert_eq!(Key::from(6), Key::Key6);
    assert_eq!(Key::from(7), Key::Key0);
    assert_eq!(Key::from(9), Key::Key2);
    assert_eq!(Key::from(255), Key::Key3);
}

#[test]
fn mutable_register_accessors_write_through() {
    let mut map = RegisterMap::default();
    *map.get_nthr_key_register_mut(&Key::Key1) = 0x33;
    assert_eq!(*map.get_nthr_key_register(&Key::Key1), 0x33);
    *map.get_key_signal_register_mut(&Key::Key5, true) = 0xAB;
    *map.get_key_signal_register_mut(&Key::Key5, false) = 0xCD;
    assert_eq!(*map.get_key_signal_register(&Key::Key5, true), 0xAB);
    assert_eq!(*map.get_key_signal_register(&Key::Key5, false), 0xCD);
    *map.get_reference_data_register_mut(&Key::Key0, true) = 0x01;
    assert_eq!(*map.get_reference_data_register(&Key::Key0, true), 0x01);
    *map.get_di_key_register_mut(&Key::Key6) = 0x0A;
    assert_eq!(*map.get_di_key_register(&Key::Key6), 0x0A);
    map.get_ave_aks_key_register_mut(&Key::Key2).update(0b0001_1110);
    let ave_aks = map.get_ave_aks_key_register(&Key::Key2);
    assert_eq!((ave_aks.ave, ave_aks.aks), (0b111, 0b10));
}
