//! Tests for the driver against mock bus transports: synchronization,
//! write suppression on read-only registers, packed read-modify-write,
//! derived durations and the calibration poll loop.
use at42qt1070::register_map::Key;
use at42qt1070::register_map::Register;
use at42qt1070::At42qt1070;
use at42qt1070::I2cBus;

const DEVICE_ADDR: u8 = 0x1B;

#[derive(Debug, PartialEq, Eq)]
struct MockError;

/// A mock bus backed by a 58-byte register file image.
struct MockBus {
    regs: [u8; 58],
    writes: Vec<Vec<u8>>,
    read_transactions: usize,
    fail: bool,
}

impl MockBus {
    fn new(regs: [u8; 58]) -> MockBus {
        MockBus {
            regs,
            writes: Vec::new(),
            read_transactions: 0,
            fail: false,
        }
    }

    fn bus_transactions(&self) -> usize {
        self.writes.len() + self.read_transactions
    }
}

impl I2cBus for MockBus {
    type BusError = MockError;

    fn write(&mut self, addr: u8, bytes: &[u8]) -> Result<(), MockError> {
        if self.fail {
            return Err(MockError);
        }
        assert_eq!(addr, DEVICE_ADDR);
        self.writes.push(bytes.to_vec());
        if bytes.len() == 2 && (bytes[0] as usize) < 58 {
            self.regs[bytes[0] as usize] = bytes[1];
        }
        Ok(())
    }

    fn write_read(&mut self, addr: u8, tx: &[u8], read_len: usize) -> Result<Vec<u8>, MockError> {
        if self.fail {
            return Err(MockError);
        }
        assert_eq!(addr, DEVICE_ADDR);
        assert_eq!(tx.len(), 1);
        self.read_transactions += 1;
        let start = tx[0] as usize;
        Ok((0..read_len).map(|i| self.regs[(start + i) % 58]).collect())
    }
}

/// A register file image with a distinct, known value in every field.
fn fixture_regs() -> [u8; 58] {
    let mut regs = [0u8; 58];
    regs[0x00] = 0x3A; // chip id: major 0x3, minor 0xA
    regs[0x01] = 0x99; // firmware version
    regs[0x02] = 0x81; // detection status: calibrate + touch
    regs[0x03] = 0xAA; // key status: reserved + keys 1, 3, 5
    for k in 0..7u8 {
        regs[(0x04 + 2 * k) as usize] = 0x10 + k; // signal MS
        regs[(0x05 + 2 * k) as usize] = 0x20 + k; // signal LS
        regs[(0x12 + 2 * k) as usize] = 0x30 + k; // reference MS
        regs[(0x13 + 2 * k) as usize] = 0x40 + k; // reference LS
        regs[(0x20 + k) as usize] = 0x50 + k; // threshold
        regs[(0x27 + k) as usize] = 4 * (k + 1) + 1; // ave k+1, aks 1
        regs[(0x2E + k) as usize] = 0x60 + k; // detection integrator
    }
    regs[0x35] = 0x34; // fast_out + max_cal, guard channel 4
    regs[0x36] = 5; // low power: 40 ms
    regs[0x37] = 2; // max on duration: 320 ms
    regs[0x38] = 0x00;
    regs[0x39] = 0x01;
    regs
}

const KEYS: [Key; 7] = [
    Key::Key0,
    Key::Key1,
    Key::Key2,
    Key::Key3,
    Key::Key4,
    Key::Key5,
    Key::Key6,
];

#[test]
fn sync_all_decodes_every_field_of_a_known_image() {
    let mut driver = At42qt1070::new(MockBus::new(fixture_regs()));
    driver.sync_all().unwrap();

    assert_eq!(driver.read_cached_chip_id(), (0x3, 0xA));
    assert_eq!(driver.read_cached_firmware_version(), 0x99);
    assert_eq!(driver.read_cached_detection_status(), (true, false, true));
    assert_eq!(
        driver.read_cached_full_key_status(),
        [false, true, false, true, false, true, false]
    );
    for (i, key) in KEYS.iter().enumerate() {
        let k = i as u16;
        assert_eq!(driver.read_cached_key_signal(*key), ((0x10 + k) << 8) | (0x20 + k));
        assert_eq!(
            driver.read_cached_reference_data(*key),
            ((0x30 + k) << 8) | (0x40 + k)
        );
        assert_eq!(driver.read_cached_negative_threshold(*key), 0x50 + i as u8);
        assert_eq!(driver.read_cached_ave_aks(*key), (i as u8 + 1, 1));
        assert_eq!(driver.read_cached_detection_integrator(*key), 0x60 + i as u8);
    }
    assert_eq!(driver.read_cached_fo_mc_guard(), (true, true, 0x4));
    assert_eq!(driver.read_cached_low_power_mode(), 40);
    assert_eq!(driver.read_cached_max_on_duration(), Some(320));
    assert_eq!(driver.device_reg(&Register::Calibrate), 0x00);
    assert_eq!(driver.device_reg(&Register::Reset), 0x01);

    // One atomic bus transaction for the whole map.
    let bus = driver.release();
    assert_eq!(bus.read_transactions, 1);
    assert!(bus.writes.is_empty());
}

#[test]
fn writes_to_read_only_registers_are_suppressed() {
    let mut driver = At42qt1070::new(MockBus::new(fixture_regs()));
    driver.sync_all().unwrap();
    let cached_before: Vec<u8> = (0..7)
        .map(|k| driver.device_reg(&Register::KeySignalMs(KEYS[k])))
        .collect();

    let read_only = [
        Register::ChipID,
        Register::FirmwareVersion,
        Register::DetectionStatus,
        Register::KeyStatus,
        Register::KeySignalMs(Key::Key2),
        Register::KeySignalLs(Key::Key2),
        Register::ReferenceDataMs(Key::Key3),
        Register::ReferenceDataLs(Key::Key3),
    ];
    for reg in read_only {
        assert_eq!(driver.write_reg_map_reg(&reg, 0x77), Ok(()));
    }

    // The cache is unchanged from what synchronization last set.
    assert_eq!(driver.read_cached_chip_id(), (0x3, 0xA));
    assert_eq!(driver.read_cached_firmware_version(), 0x99);
    for k in 0..7 {
        assert_eq!(
            driver.device_reg(&Register::KeySignalMs(KEYS[k])),
            cached_before[k]
        );
    }

    // And not one write transaction reached the bus.
    let bus = driver.release();
    assert!(bus.writes.is_empty());
    assert_eq!(bus.read_transactions, 1); // only the initial sync_all
}

#[test]
fn set_negative_threshold_writes_the_key_register() {
    let mut driver = At42qt1070::new(MockBus::new([0; 58]));
    driver.set_negative_threshold(0x42, Key::Key3).unwrap();
    assert_eq!(driver.read_cached_negative_threshold(Key::Key3), 0x42);
    // Other keys keep the power-on default.
    assert_eq!(driver.read_cached_negative_threshold(Key::Key2), 0x14);
    let bus = driver.release();
    assert_eq!(bus.writes, vec![vec![0x23, 0x42]]);
}

#[test]
fn set_detection_integrator_writes_the_key_register() {
    let mut driver = At42qt1070::new(MockBus::new([0; 58]));
    driver.set_detection_integrator(0x0A, Key::Key6).unwrap();
    assert_eq!(driver.read_cached_detection_integrator(Key::Key6), 0x0A);
    let bus = driver.release();
    assert_eq!(bus.writes, vec![vec![0x34, 0x0A]]);
}

#[test]
fn set_ave_keeps_the_cached_suppression_group() {
    let mut driver = At42qt1070::new(MockBus::new([0; 58]));
    driver.set_ave_aks(3, 2, Key::Key1).unwrap();
    assert_eq!(driver.read_cached_ave_aks(Key::Key1), (3, 2));

    driver.set_ave(5, Key::Key1).unwrap();
    assert_eq!(driver.read_cached_ave_aks(Key::Key1), (5, 2));

    // The rebuilt byte reached the bus with the preserved group.
    let bus = driver.release();
    assert_eq!(bus.writes, vec![vec![0x28, (3 << 2) | 2], vec![0x28, (5 << 2) | 2]]);
}

#[test]
fn set_aks_keeps_the_cached_averaging_factor() {
    let mut driver = At42qt1070::new(MockBus::new([0; 58]));
    driver.set_ave_aks(9, 0, Key::Key4).unwrap();
    driver.set_aks(3, Key::Key4).unwrap();
    assert_eq!(driver.read_cached_ave_aks(Key::Key4), (9, 3));
    // Exactly two bus writes: no extra read-back traffic.
    let bus = driver.release();
    assert_eq!(bus.read_transactions, 0);
    assert_eq!(bus.writes.len(), 2);
}

#[test]
fn set_fo_mc_guard_packs_all_three_fields() {
    let mut driver = At42qt1070::new(MockBus::new([0; 58]));
    driver.set_fo_mc_guard(true, false, Some(Key::Key4)).unwrap();
    assert_eq!(driver.read_cached_fo_mc_guard(), (true, false, 4));

    driver.set_fo_mc_guard(false, true, None).unwrap();
    assert_eq!(driver.read_cached_fo_mc_guard(), (false, true, 0x7));

    let bus = driver.release();
    assert_eq!(bus.writes, vec![vec![0x35, 0x24], vec![0x35, 0x17]]);
}

#[test]
fn set_low_power_mode_stores_8ms_units() {
    let mut driver = At42qt1070::new(MockBus::new([0; 58]));
    driver.set_low_power_mode(40).unwrap();
    assert_eq!(driver.read_cached_low_power_mode(), 40);
    let bus = driver.release();
    assert_eq!(bus.writes, vec![vec![0x36, 5]]);
}

#[test]
fn low_power_interval_treats_zero_as_fastest() {
    let mut regs = [0u8; 58];
    regs[0x36] = 0;
    let mut driver = At42qt1070::new(MockBus::new(regs));
    driver.sync_one(&Register::LowPowerMode).unwrap();
    assert_eq!(driver.read_cached_low_power_mode(), 8);

    let mut regs = [0u8; 58];
    regs[0x36] = 5;
    let mut driver = At42qt1070::new(MockBus::new(regs));
    driver.sync_one(&Register::LowPowerMode).unwrap();
    assert_eq!(driver.read_cached_low_power_mode(), 40);
}

#[test]
fn max_on_duration_treats_zero_as_disabled() {
    let mut regs = [0u8; 58];
    regs[0x37] = 0;
    let mut driver = At42qt1070::new(MockBus::new(regs));
    driver.sync_one(&Register::MaxOnDuration).unwrap();
    assert_eq!(driver.read_cached_max_on_duration(), None);

    let mut regs = [0u8; 58];
    regs[0x37] = 2;
    let mut driver = At42qt1070::new(MockBus::new(regs));
    driver.sync_one(&Register::MaxOnDuration).unwrap();
    assert_eq!(driver.read_cached_max_on_duration(), Some(320));
}

#[test]
fn set_max_on_duration_stores_160ms_units_or_zero() {
    let mut driver = At42qt1070::new(MockBus::new([0; 58]));
    driver.set_max_on_duration(Some(320)).unwrap();
    assert_eq!(driver.read_cached_max_on_duration(), Some(320));
    driver.set_max_on_duration(None).unwrap();
    assert_eq!(driver.read_cached_max_on_duration(), None);
    let bus = driver.release();
    assert_eq!(bus.writes, vec![vec![0x37, 2], vec![0x37, 0]]);
}

#[test]
fn start_calibrate_and_reset_write_one() {
    let mut driver = At42qt1070::new(MockBus::new([0; 58]));
    driver.start_calibrate().unwrap();
    driver.start_reset().unwrap();
    assert_eq!(driver.device_reg(&Register::Calibrate), 0x01);
    assert_eq!(driver.device_reg(&Register::Reset), 0x01);
    let bus = driver.release();
    assert_eq!(bus.writes, vec![vec![0x38, 0x01], vec![0x39, 0x01]]);
}

#[test]
fn sync_one_reads_exactly_the_addressed_register() {
    let mut driver = At42qt1070::new(MockBus::new(fixture_regs()));
    driver.sync_one(&Register::NthrKey(Key::Key2)).unwrap();
    assert_eq!(driver.read_cached_negative_threshold(Key::Key2), 0x52);
    // The neighbouring keys keep their power-on defaults.
    assert_eq!(driver.read_cached_negative_threshold(Key::Key1), 0x14);
    assert_eq!(driver.read_cached_negative_threshold(Key::Key3), 0x14);
    let bus = driver.release();
    assert_eq!(bus.read_transactions, 1);
}

#[test]
fn fresh_getters_synchronize_then_report() {
    let mut driver = At42qt1070::new(MockBus::new(fixture_regs()));
    assert_eq!(driver.read_chip_id(), Ok((0x3, 0xA)));
    assert_eq!(driver.read_firmware_version(), Ok(0x99));
    assert_eq!(driver.read_detection_status(), Ok((true, false, true)));
    assert_eq!(driver.read_key_status(Key::Key1), Ok(true));
    assert_eq!(
        driver.read_full_key_status(),
        Ok([false, true, false, true, false, true, false])
    );
    assert_eq!(driver.read_key_signal(Key::Key2), Ok(0x1222));
    assert_eq!(driver.read_reference_data(Key::Key6), Ok(0x3646));
    assert_eq!(driver.read_negative_threshold(Key::Key0), Ok(0x50));
    assert_eq!(driver.read_ave_aks(Key::Key4), Ok((5, 1)));
    assert_eq!(driver.read_detection_integrator(Key::Key5), Ok(0x65));
    assert_eq!(driver.read_fo_mc_guard(), Ok((true, true, 0x4)));
    assert_eq!(driver.read_low_power_mode(), Ok(40));
    assert_eq!(driver.read_max_on_duration(), Ok(Some(320)));
}

#[test]
fn transport_errors_propagate_and_leave_the_cache_alone() {
    let mut bus = MockBus::new(fixture_regs());
    bus.fail = true;
    let mut driver = At42qt1070::new(bus);

    assert_eq!(driver.sync_all(), Err(MockError));
    assert_eq!(driver.sync_one(&Register::ChipID), Err(MockError));
    assert_eq!(driver.set_negative_threshold(0x42, Key::Key3), Err(MockError));
    assert_eq!(driver.read_chip_id(), Err(MockError));

    // Power-on defaults still cached after every failed operation.
    assert_eq!(driver.read_cached_chip_id(), (0x2, 0xE));
    assert_eq!(driver.read_cached_negative_threshold(Key::Key3), 0x14);
}

/// A mock that reports "calibrating" for a fixed number of detection
/// status reads, then reports the flag cleared.
struct CalibratingBus {
    busy_reads: usize,
    reads: usize,
}

impl I2cBus for CalibratingBus {
    type BusError = MockError;

    fn write(&mut self, _addr: u8, _bytes: &[u8]) -> Result<(), MockError> {
        Ok(())
    }

    fn write_read(&mut self, addr: u8, tx: &[u8], read_len: usize) -> Result<Vec<u8>, MockError> {
        assert_eq!(addr, DEVICE_ADDR);
        // Only the detection status register is ever polled.
        assert_eq!(tx.len(), 1);
        assert_eq!(tx[0], 0x02);
        assert_eq!(read_len, 1);
        self.reads += 1;
        if self.reads <= self.busy_reads {
            Ok(vec![0x80])
        } else {
            Ok(vec![0x00])
        }
    }
}

#[test]
fn wait_calibrated_polls_until_the_flag_clears() {
    let mut driver = At42qt1070::new(CalibratingBus {
        busy_reads: 4,
        reads: 0,
    });
    assert_eq!(driver.wait_calibrated_blocking(100), Ok(true));
    assert!(!driver.read_cached_detection_status().0);
    // Four busy polls plus the final clear one: exactly five bus reads.
    let bus = driver.release();
    assert_eq!(bus.reads, 5);
}

#[test]
fn wait_calibrated_gives_up_after_the_poll_budget() {
    let mut driver = At42qt1070::new(CalibratingBus {
        busy_reads: usize::MAX,
        reads: 0,
    });
    assert_eq!(driver.wait_calibrated_blocking(3), Ok(false));
    assert!(driver.read_cached_detection_status().0);
    let bus = driver.release();
    assert_eq!(bus.reads, 3);
}

#[test]
fn wait_calibrated_with_no_budget_answers_from_the_cache() {
    let mut driver = At42qt1070::new(CalibratingBus {
        busy_reads: usize::MAX,
        reads: 0,
    });
    // Power-on cache has the calibrate flag clear, and no poll is made.
    assert_eq!(driver.wait_calibrated_blocking(0), Ok(true));
    let bus = driver.release();
    assert_eq!(bus.reads, 0);
}

#[test]
fn new_does_not_touch_the_bus_and_release_returns_it() {
    let driver = At42qt1070::new(MockBus::new([0; 58]));
    assert_eq!(driver.read_cached_chip_id(), (0x2, 0xE));
    let bus = driver.release();
    assert_eq!(bus.bus_transactions(), 0);
}
