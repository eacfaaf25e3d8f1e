//! Driver for a seven-channel capacitive touch sensing chip that exposes
//! its state and configuration as a block of 58 one-byte registers read
//! and written over a two-wire bus.
//!
//! The driver keeps an in-memory mirror of the register file (a
//! [`register_map::RegisterMap`]), translates typed operations into raw
//! register reads and writes, and suppresses writes to registers the
//! device treats as read-only.
use vstd::prelude::*;

pub mod register_map;

pub use register_map::AveAks;
pub use register_map::ChipId;
pub use register_map::DetectionStatus;
pub use register_map::FastOutDiMaxCalGuardChannel;
pub use register_map::Key;
pub use register_map::KeyStatus;
pub use register_map::LowPowerMode;
pub use register_map::MaxOnDuration;
pub use register_map::REGISTER_COUNT;
pub use register_map::Register;
pub use register_map::RegisterMap;
pub use register_map::RegisterMapRegister;

verus! {

/// The device's fixed 7-bit bus address.
const AT42QT1070_I2C_ADDR: u8 = 0x1B;

/// A blocking master on the two-wire bus the device hangs off.
///
/// The driver is generic over this capability; an implementation wraps
/// the platform's bus peripheral. Each call is a single bus transaction
/// that blocks until it completes or the transport fails; `op_count`
/// counts the transactions issued through the handle, so that contracts
/// can state when the driver leaves the bus untouched.
pub trait I2cBus: Sized {
    /// The transport's error, surfaced to the driver's caller unchanged.
    type BusError;

    /// Number of bus transactions performed through this handle. The
    /// default leaves the count abstract at zero; an implementation
    /// proved against this trait would refine it.
    open spec fn op_count(&self) -> nat {
        0
    }

    /// Write `bytes` to the device at the 7-bit address `addr`, as one
    /// blocking transaction.
    fn write(&mut self, addr: u8, bytes: &[u8]) -> (r: Result<(), Self::BusError>)
        ensures
            final(self).op_count() == old(self).op_count() + 1,
    ;

    /// Write `tx` to the device at the 7-bit address `addr`, then read
    /// exactly `read_len` bytes, as one blocking transaction.
    fn write_read(&mut self, addr: u8, tx: &[u8], read_len: usize) -> (r: Result<
        Vec<u8>,
        Self::BusError,
    >)
        ensures
            final(self).op_count() == old(self).op_count() + 1,
            r matches Ok(v) ==> v@.len() == read_len,
    ;
}

/// The driver: a bus handle plus the cached mirror of the device's
/// register file.
pub struct At42qt1070<I2C> {
    i2c: I2C,
    register_map: RegisterMap,
}

impl<I2C: I2cBus> At42qt1070<I2C> {
    /// The cached image of the device's register file.
    pub closed spec fn map_spec(&self) -> RegisterMap {
        self.register_map
    }

    /// The bus handle the driver owns.
    pub closed spec fn bus_spec(&self) -> I2C {
        self.i2c
    }

    /// Number of bus transactions the driver has issued.
    pub open spec fn bus_ops(&self) -> nat {
        self.bus_spec().op_count()
    }

    /// The cached register file is well formed.
    pub open spec fn wf(&self) -> bool {
        self.map_spec().wf()
    }

    /// Build a driver over a bus handle. The cache starts from the
    /// documented power-on-reset values; the bus is not touched.
    pub fn new(i2c: I2C) -> (r: At42qt1070<I2C>)
        ensures
            r.map_spec() == RegisterMap::power_on_reset(),
            r.bus_spec() == i2c,
            r.wf(),
    {
        let register_map = RegisterMap::default();
        At42qt1070 { i2c, register_map }
    }

    /// Give the bus handle back, consuming the driver.
    pub fn release(self) -> (r: I2C)
        ensures
            r == self.bus_spec(),
    {
        self.i2c
    }

    /// The byte a logical register would encode to from the cache.
    pub fn device_reg(&self, reg: &Register) -> (r: u8)
        ensures
            r == self.map_spec().reg_byte_spec(*reg),
    {
        self.register_map.reg_as_byte(reg)
    }

    /// Read one register byte from the device. Addresses outside the
    /// register file read as zero without touching the bus, as the
    /// device itself has no registers there.
    fn read_reg(&mut self, register_idx: u8) -> (r: Result<u8, I2C::BusError>)
        ensures
            final(self).map_spec() == old(self).map_spec(),
            register_idx < REGISTER_COUNT ==> final(self).bus_ops() == old(self).bus_ops() + 1,
            register_idx >= REGISTER_COUNT ==> final(self).bus_ops() == old(self).bus_ops()
                && r == Ok::<u8, I2C::BusError>(0),
    {
        if register_idx >= REGISTER_COUNT {
            return Ok(0);
        }
        let tx: [u8; 1] = [register_idx];
        let buf = self.i2c.write_read(AT42QT1070_I2C_ADDR, tx.as_slice(), 1)?;
        Ok(buf[0])
    }

    /// Read the whole register file, one bus transaction of 58 bytes
    /// starting at address zero.
    fn read_all_reg(&mut self) -> (r: Result<Vec<u8>, I2C::BusError>)
        ensures
            final(self).map_spec() == old(self).map_spec(),
            final(self).bus_ops() == old(self).bus_ops() + 1,
            r matches Ok(v) ==> v@.len() == REGISTER_COUNT as int,
    {
        let tx: [u8; 1] = [0];
        let buf = self.i2c.write_read(AT42QT1070_I2C_ADDR, tx.as_slice(), REGISTER_COUNT as usize)?;
        Ok(buf)
    }

    /// Write one register byte at a raw physical address.
    fn write_reg(&mut self, reg_addr: u8, value: u8) -> (r: Result<(), I2C::BusError>)
        ensures
            final(self).map_spec() == old(self).map_spec(),
            final(self).bus_ops() == old(self).bus_ops() + 1,
    {
        let tx: [u8; 2] = [reg_addr, value];
        self.i2c.write(AT42QT1070_I2C_ADDR, tx.as_slice())
    }

    /// Write a logical register's byte to the device, unless the device
    /// treats the register as read-only: such writes are silently
    /// dropped, with no bus traffic and no error, matching the device's
    /// own tolerant behaviour. The cache is never touched.
    pub fn write_reg_map_reg(&mut self, reg: &Register, value: u8) -> (r: Result<
        (),
        I2C::BusError,
    >)
        ensures
            final(self).map_spec() == old(self).map_spec(),
            reg.read_only_spec() ==> r is Ok && final(self).bus_ops() == old(self).bus_ops(),
            !reg.read_only_spec() ==> final(self).bus_ops() == old(self).bus_ops() + 1,
    {
        if reg.is_read_only() {
            return Ok(());
        }
        self.write_reg(RegisterMap::get_register_addr(reg), value)
    }

    /// Read one register from the device and decode it into the cache:
    /// exactly the fields that register addresses change, to the decode
    /// of some byte the device returned.
    pub fn sync_one(&mut self, reg: &Register) -> (r: Result<(), I2C::BusError>)
        requires
            old(self).wf(),
        ensures
            final(self).wf(),
            final(self).bus_ops() == old(self).bus_ops() + 1,
            r is Ok ==> exists|v: u8|
                final(self).map_spec() == old(self).map_spec().decoded_spec(*reg, v),
            r is Err ==> final(self).map_spec() == old(self).map_spec(),
    {
        let addr = RegisterMap::get_register_addr(reg);
        let value = self.read_reg(addr)?;
        self.register_map.decode(reg, value);
        Ok(())
    }

    /// Read all 58 registers in one bus transaction and decode every
    /// field, in address order. Partial updates cannot happen: on a
    /// transport error the cache is left as it was.
    pub fn sync_all(&mut self) -> (r: Result<(), I2C::BusError>)
        requires
            old(self).wf(),
        ensures
            final(self).wf(),
            final(self).bus_ops() == old(self).bus_ops() + 1,
            r is Ok ==> exists|bytes: Seq<u8>|
                bytes.len() == REGISTER_COUNT as int && final(self).map_spec().decoded_from(
                    bytes,
                ),
            r is Err ==> final(self).map_spec() == old(self).map_spec(),
    {
        let bytes = self.read_all_reg()?;
        self.register_map.decode_all(&bytes);
        Ok(())
    }
}

/// The guard channel code stored in the packed guard register: the
/// chosen key's number, or 0x7 for no guard channel.
pub open spec fn guard_channel_code(guard: Option<Key>) -> u8 {
    match guard {
        Some(k) => k.idx() as u8,
        None => 0x07,
    }
}

/// The 16-bit value carried by a most/least significant byte pair.
pub open spec fn word_spec(ms: u8, ls: u8) -> u16 {
    ((ms as u16) << 8) | (ls as u16)
}

/// The measurement interval in milliseconds a raw low-power count
/// stands for: 8 ms per count, where the device treats a count of zero
/// as the fastest interval, 8 ms.
pub open spec fn low_power_interval_millis(raw: u8) -> int {
    if raw == 0 {
        8
    } else {
        8 * raw
    }
}

impl<I2C: I2cBus> At42qt1070<I2C> {
    /// Set a key's touch threshold: the cache and the device register
    /// are updated together, or neither on a transport error.
    pub fn set_negative_threshold(&mut self, threshold: u8, key: Key) -> (r: Result<
        (),
        I2C::BusError,
    >)
        requires
            old(self).wf(),
        ensures
            final(self).wf(),
            r is Ok ==> final(self).map_spec() == old(self).map_spec().decoded_spec(
                Register::NthrKey(key),
                threshold,
            ),
            r is Ok ==> final(self).bus_ops() == old(self).bus_ops() + 1,
            r is Err ==> final(self).map_spec() == old(self).map_spec(),
    {
        self.write_reg_map_reg(&Register::NthrKey(key), threshold)?;
        *self.register_map.get_nthr_key_register_mut(&key) = threshold;
        Ok(())
    }

    /// Set a key's averaging factor and suppression group in one write
    /// of their shared byte.
    pub fn set_ave_aks(&mut self, ave: u8, aks: u8, key: Key) -> (r: Result<(), I2C::BusError>)
        requires
            old(self).wf(),
            ave < 0x40,
            aks < 0x04,
        ensures
            final(self).wf(),
            r is Ok ==> final(self).map_spec() == old(self).map_spec().decoded_spec(
                Register::AveAksKey(key),
                (AveAks { ave, aks }).byte_spec(),
            ),
            r is Ok ==> final(self).map_spec().ave_aks_key[key.idx()] == (AveAks { ave, aks }),
            r is Ok ==> final(self).bus_ops() == old(self).bus_ops() + 1,
            r is Err ==> final(self).map_spec() == old(self).map_spec(),
    {
        let value = AveAks { ave, aks }.as_byte();
        self.write_reg_map_reg(&Register::AveAksKey(key), value)?;
        self.register_map.get_ave_aks_key_register_mut(&key).update(value);
        proof {
            AveAks::lemma_decode_after_encode(AveAks { ave, aks });
        }
        Ok(())
    }

    /// Set a key's averaging factor, keeping its suppression group: the
    /// group is read back from the cache, so the shared byte is rebuilt
    /// without extra bus traffic and the group's value is preserved.
    pub fn set_ave(&mut self, ave: u8, key: Key) -> (r: Result<(), I2C::BusError>)
        requires
            old(self).wf(),
            ave < 0x40,
        ensures
            final(self).wf(),
            r is Ok ==> final(self).map_spec().ave_aks_key[key.idx()].ave == ave,
            r is Ok ==> final(self).map_spec().ave_aks_key[key.idx()].aks == old(self).map_spec().ave_aks_key[key.idx()].aks,
            r is Ok ==> final(self).bus_ops() == old(self).bus_ops() + 1,
            r is Err ==> final(self).map_spec() == old(self).map_spec(),
    {
        let aks = self.read_cached_ave_aks(key).1;
        self.set_ave_aks(ave, aks, key)
    }

    /// Set a key's suppression group, keeping its averaging factor: the
    /// factor is read back from the cache, so the shared byte is rebuilt
    /// without extra bus traffic and the factor's value is preserved.
    pub fn set_aks(&mut self, aks: u8, key: Key) -> (r: Result<(), I2C::BusError>)
        requires
            old(self).wf(),
            aks < 0x04,
        ensures
            final(self).wf(),
            r is Ok ==> final(self).map_spec().ave_aks_key[key.idx()].aks == aks,
            r is Ok ==> final(self).map_spec().ave_aks_key[key.idx()].ave == old(self).map_spec().ave_aks_key[key.idx()].ave,
            r is Ok ==> final(self).bus_ops() == old(self).bus_ops() + 1,
            r is Err ==> final(self).map_spec() == old(self).map_spec(),
    {
        let ave = self.read_cached_ave_aks(key).0;
        self.set_ave_aks(ave, aks, key)
    }

    /// Set a key's detection integrator: the number of consecutive
    /// detections required before the key reports a touch.
    pub fn set_detection_integrator(&mut self, di: u8, key: Key) -> (r: Result<
        (),
        I2C::BusError,
    >)
        requires
            old(self).wf(),
        ensures
            final(self).wf(),
            r is Ok ==> final(self).map_spec() == old(self).map_spec().decoded_spec(
                Register::DIKey(key),
                di,
            ),
            r is Ok ==> final(self).bus_ops() == old(self).bus_ops() + 1,
            r is Err ==> final(self).map_spec() == old(self).map_spec(),
    {
        self.write_reg_map_reg(&Register::DIKey(key), di)?;
        *self.register_map.get_di_key_register_mut(&key) = di;
        Ok(())
    }

    /// Set the global fast-outline and maximum-calibration flags and the
    /// guard channel, packed into their shared byte.
    pub fn set_fo_mc_guard(
        &mut self,
        fast_out: bool,
        max_cal: bool,
        guard_channel: Option<Key>,
    ) -> (r: Result<(), I2C::BusError>)
        requires
            old(self).wf(),
        ensures
            final(self).wf(),
            r is Ok ==> final(self).map_spec() == (RegisterMap {
                fo_mc_guard: FastOutDiMaxCalGuardChannel {
                    fast_out,
                    max_cal,
                    guard_channel: guard_channel_code(guard_channel),
                },
                ..old(self).map_spec()
            }),
            r is Ok ==> final(self).bus_ops() == old(self).bus_ops() + 1,
            r is Err ==> final(self).map_spec() == old(self).map_spec(),
    {
        let guard_channel = match guard_channel {
            Some(key) => key.index(),
            None => 0x07,
        };
        let value = FastOutDiMaxCalGuardChannel { fast_out, max_cal, guard_channel }.as_byte();
        self.write_reg_map_reg(&Register::FoMcGuard, value)?;
        self.register_map.fo_mc_guard.update(value);
        proof {
            FastOutDiMaxCalGuardChannel::lemma_decode_after_encode(
                FastOutDiMaxCalGuardChannel { fast_out, max_cal, guard_channel },
            );
        }
        Ok(())
    }

    /// Set the interval between key measurements, given in milliseconds
    /// and stored as a count of 8 ms units (the low byte of the count).
    pub fn set_low_power_mode(&mut self, interval_ms: u64) -> (r: Result<(), I2C::BusError>)
        requires
            old(self).wf(),
        ensures
            final(self).wf(),
            r is Ok ==> final(self).map_spec() == old(self).map_spec().decoded_spec(
                Register::LowPowerMode,
                (interval_ms / 8) as u8,
            ),
            r is Ok ==> final(self).bus_ops() == old(self).bus_ops() + 1,
            r is Err ==> final(self).map_spec() == old(self).map_spec(),
    {
        let duration = (interval_ms / 8) as u8;
        self.write_reg_map_reg(&Register::LowPowerMode, duration)?;
        self.register_map.low_power_mode.update(duration);
        Ok(())
    }

    /// Set or disable the maximum continuous detection time, given in
    /// milliseconds and stored as a count of 160 ms units; `None` (and
    /// any interval shorter than 160 ms) stores zero, which disables the
    /// timeout.
    pub fn set_max_on_duration(&mut self, interval_ms: Option<u64>) -> (r: Result<
        (),
        I2C::BusError,
    >)
        requires
            old(self).wf(),
        ensures
            final(self).wf(),
            r is Ok ==> final(self).map_spec() == old(self).map_spec().decoded_spec(
                Register::MaxOnDuration,
                match interval_ms {
                    Some(ms) => (ms / 160) as u8,
                    None => 0,
                },
            ),
            r is Ok ==> final(self).bus_ops() == old(self).bus_ops() + 1,
            r is Err ==> final(self).map_spec() == old(self).map_spec(),
    {
        let interval = match interval_ms {
            Some(ms) => (ms / 160) as u8,
            None => 0,
        };
        self.write_reg_map_reg(&Register::MaxOnDuration, interval)?;
        self.register_map.max_on_duration.update(interval);
        Ok(())
    }

    /// Ask the device to recalibrate all keys by writing 0x01 to the
    /// one-shot calibrate register.
    pub fn start_calibrate(&mut self) -> (r: Result<(), I2C::BusError>)
        requires
            old(self).wf(),
        ensures
            final(self).wf(),
            r is Ok ==> final(self).map_spec() == old(self).map_spec().decoded_spec(
                Register::Calibrate,
                0x01,
            ),
            r is Ok ==> final(self).bus_ops() == old(self).bus_ops() + 1,
            r is Err ==> final(self).map_spec() == old(self).map_spec(),
    {
        self.write_reg_map_reg(&Register::Calibrate, 0x01)?;
        self.register_map.calibrate = 0x01;
        Ok(())
    }

    /// Ask the device to reset by writing 0x01 to the one-shot reset
    /// register.
    pub fn start_reset(&mut self) -> (r: Result<(), I2C::BusError>)
        requires
            old(self).wf(),
        ensures
            final(self).wf(),
            r is Ok ==> final(self).map_spec() == old(self).map_spec().decoded_spec(
                Register::Reset,
                0x01,
            ),
            r is Ok ==> final(self).bus_ops() == old(self).bus_ops() + 1,
            r is Err ==> final(self).map_spec() == old(self).map_spec(),
    {
        self.write_reg_map_reg(&Register::Reset, 0x01)?;
        self.register_map.reset = 0x01;
        Ok(())
    }

    /// The cached chip identity, as (major id, minor id).
    pub fn read_cached_chip_id(&self) -> (r: (u8, u8))
        ensures
            r.0 == self.map_spec().chip_id.major_id,
            r.1 == self.map_spec().chip_id.minor_id,
    {
        let major_id = self.register_map.chip_id.major_id;
        let minor_id = self.register_map.chip_id.minor_id;
        (major_id, minor_id)
    }

    /// Read the chip identity register from the device, then return the
    /// freshly decoded (major id, minor id).
    pub fn read_chip_id(&mut self) -> (r: Result<(u8, u8), I2C::BusError>)
        requires
            old(self).wf(),
        ensures
            final(self).wf(),
            final(self).bus_ops() == old(self).bus_ops() + 1,
            r matches Ok(t) ==> t.0 == final(self).map_spec().chip_id.major_id && t.1 == final(self).map_spec().chip_id.minor_id,
            r is Ok ==> exists|v: u8|
                final(self).map_spec() == old(self).map_spec().decoded_spec(Register::ChipID, v),
            r is Err ==> final(self).map_spec() == old(self).map_spec(),
    {
        self.sync_one(&Register::ChipID)?;
        Ok(self.read_cached_chip_id())
    }

    /// The cached firmware version byte.
    pub fn read_cached_firmware_version(&self) -> (r: u8)
        ensures
            r == self.map_spec().firmware_version,
    {
        self.register_map.firmware_version
    }

    /// Read the firmware version register from the device, then return
    /// the fresh byte.
    pub fn read_firmware_version(&mut self) -> (r: Result<u8, I2C::BusError>)
        requires
            old(self).wf(),
        ensures
            final(self).wf(),
            final(self).bus_ops() == old(self).bus_ops() + 1,
            r matches Ok(v) ==> v == final(self).map_spec().firmware_version,
            r is Ok ==> exists|v: u8|
                final(self).map_spec() == old(self).map_spec().decoded_spec(
                    Register::FirmwareVersion,
                    v,
                ),
            r is Err ==> final(self).map_spec() == old(self).map_spec(),
    {
        self.sync_one(&Register::FirmwareVersion)?;
        Ok(self.register_map.firmware_version)
    }

    /// The cached detection status flags, as (calibrating, overflow,
    /// touch detected).
    pub fn read_cached_detection_status(&self) -> (r: (bool, bool, bool))
        ensures
            r.0 == self.map_spec().detection_status.calibrate,
            r.1 == self.map_spec().detection_status.overflow,
            r.2 == self.map_spec().detection_status.touch,
    {
        let calibrate = self.register_map.detection_status.calibrate;
        let overflow = self.register_map.detection_status.overflow;
        let touch = self.register_map.detection_status.touch;
        (calibrate, overflow, touch)
    }

    /// Read the detection status register from the device, then return
    /// the fresh flags as (calibrating, overflow, touch detected).
    pub fn read_detection_status(&mut self) -> (r: Result<(bool, bool, bool), I2C::BusError>)
        requires
            old(self).wf(),
        ensures
            final(self).wf(),
            final(self).bus_ops() == old(self).bus_ops() + 1,
            r matches Ok(t) ==> {
                &&& t.0 == final(self).map_spec().detection_status.calibrate
                &&& t.1 == final(self).map_spec().detection_status.overflow
                &&& t.2 == final(self).map_spec().detection_status.touch
            },
            r is Ok ==> exists|v: u8|
                final(self).map_spec() == old(self).map_spec().decoded_spec(
                    Register::DetectionStatus,
                    v,
                ),
            r is Err ==> final(self).map_spec() == old(self).map_spec(),
    {
        self.sync_one(&Register::DetectionStatus)?;
        Ok(self.read_cached_detection_status())
    }

    /// The cached touch flag of one key.
    pub fn read_cached_key_status(&self, key: Key) -> (r: bool)
        ensures
            r == self.map_spec().key_status.key[key.idx()],
    {
        let i = key.index();
        self.register_map.key_status.key[i as usize]
    }

    /// Read the key status register from the device, then return the
    /// fresh touch flag of one key.
    pub fn read_key_status(&mut self, key: Key) -> (r: Result<bool, I2C::BusError>)
        requires
            old(self).wf(),
        ensures
            final(self).wf(),
            final(self).bus_ops() == old(self).bus_ops() + 1,
            r matches Ok(b) ==> b == final(self).map_spec().key_status.key[key.idx()],
            r is Ok ==> exists|v: u8|
                final(self).map_spec() == old(self).map_spec().decoded_spec(
                    Register::KeyStatus,
                    v,
                ),
            r is Err ==> final(self).map_spec() == old(self).map_spec(),
    {
        self.sync_one(&Register::KeyStatus)?;
        Ok(self.read_cached_key_status(key))
    }

    /// The cached touch flags of all seven keys.
    pub fn read_cached_full_key_status(&self) -> (r: [bool; 7])
        ensures
            r == self.map_spec().key_status.key,
    {
        self.register_map.key_status.key
    }

    /// Read the key status register from the device, then return the
    /// fresh touch flags of all seven keys.
    pub fn read_full_key_status(&mut self) -> (r: Result<[bool; 7], I2C::BusError>)
        requires
            old(self).wf(),
        ensures
            final(self).wf(),
            final(self).bus_ops() == old(self).bus_ops() + 1,
            r matches Ok(a) ==> a == final(self).map_spec().key_status.key,
            r is Ok ==> exists|v: u8|
                final(self).map_spec() == old(self).map_spec().decoded_spec(
                    Register::KeyStatus,
                    v,
                ),
            r is Err ==> final(self).map_spec() == old(self).map_spec(),
    {
        self.sync_one(&Register::KeyStatus)?;
        Ok(self.read_cached_full_key_status())
    }

    /// The cached raw analog signal of one key, from its two cached
    /// signal bytes.
    pub fn read_cached_key_signal(&self, key: Key) -> (r: u16)
        ensures
            r == word_spec(
                self.map_spec().key_signal_ms[key.idx()],
                self.map_spec().key_signal_ls[key.idx()],
            ),
    {
        let ms = self.register_map.get_key_signal_register(&key, true);
        let ls = self.register_map.get_key_signal_register(&key, false);
        ((*ms as u16) << 8) | (*ls as u16)
    }

    /// Read both signal bytes of one key from the device, then return
    /// the fresh 16-bit signal value.
    pub fn read_key_signal(&mut self, key: Key) -> (r: Result<u16, I2C::BusError>)
        requires
            old(self).wf(),
        ensures
            final(self).wf(),
            old(self).bus_ops() + 1 <= final(self).bus_ops() <= old(self).bus_ops() + 2,
            r matches Ok(v) ==> v == word_spec(
                final(self).map_spec().key_signal_ms[key.idx()],
                final(self).map_spec().key_signal_ls[key.idx()],
            ),
            r is Ok ==> final(self).bus_ops() == old(self).bus_ops() + 2,
    {
        self.sync_one(&Register::KeySignalMs(key))?;
        self.sync_one(&Register::KeySignalLs(key))?;
        Ok(self.read_cached_key_signal(key))
    }

    /// The cached calibrated reference of one key, from its two cached
    /// reference bytes.
    pub fn read_cached_reference_data(&self, key: Key) -> (r: u16)
        ensures
            r == word_spec(
                self.map_spec().reference_data_ms[key.idx()],
                self.map_spec().reference_data_ls[key.idx()],
            ),
    {
        let ms = self.register_map.get_reference_data_register(&key, true);
        let ls = self.register_map.get_reference_data_register(&key, false);
        ((*ms as u16) << 8) | (*ls as u16)
    }

    /// Read both reference bytes of one key from the device, then
    /// return the fresh 16-bit reference value.
    pub fn read_reference_data(&mut self, key: Key) -> (r: Result<u16, I2C::BusError>)
        requires
            old(self).wf(),
        ensures
            final(self).wf(),
            old(self).bus_ops() + 1 <= final(self).bus_ops() <= old(self).bus_ops() + 2,
            r matches Ok(v) ==> v == word_spec(
                final(self).map_spec().reference_data_ms[key.idx()],
                final(self).map_spec().reference_data_ls[key.idx()],
            ),
            r is Ok ==> final(self).bus_ops() == old(self).bus_ops() + 2,
    {
        self.sync_one(&Register::ReferenceDataMs(key))?;
        self.sync_one(&Register::ReferenceDataLs(key))?;
        Ok(self.read_cached_reference_data(key))
    }

    /// The cached touch threshold of one key.
    pub fn read_cached_negative_threshold(&self, key: Key) -> (r: u8)
        ensures
            r == self.map_spec().nthr_key[key.idx()],
    {
        *self.register_map.get_nthr_key_register(&key)
    }

    /// Read one key's threshold register from the device, then return
    /// the fresh value.
    pub fn read_negative_threshold(&mut self, key: Key) -> (r: Result<u8, I2C::BusError>)
        requires
            old(self).wf(),
        ensures
            final(self).wf(),
            final(self).bus_ops() == old(self).bus_ops() + 1,
            r matches Ok(v) ==> v == final(self).map_spec().nthr_key[key.idx()],
            r is Ok ==> exists|v: u8|
                final(self).map_spec() == old(self).map_spec().decoded_spec(
                    Register::NthrKey(key),
                    v,
                ),
            r is Err ==> final(self).map_spec() == old(self).map_spec(),
    {
        self.sync_one(&Register::NthrKey(key))?;
        Ok(self.read_cached_negative_threshold(key))
    }

    /// The cached averaging factor and suppression group of one key, as
    /// (ave, aks).
    pub fn read_cached_ave_aks(&self, key: Key) -> (r: (u8, u8))
        ensures
            r.0 == self.map_spec().ave_aks_key[key.idx()].ave,
            r.1 == self.map_spec().ave_aks_key[key.idx()].aks,
    {
        let ave_aks = self.register_map.get_ave_aks_key_register(&key);
        (ave_aks.ave, ave_aks.aks)
    }

    /// Read one key's averaging/suppression register from the device,
    /// then return the fresh (ave, aks) pair.
    pub fn read_ave_aks(&mut self, key: Key) -> (r: Result<(u8, u8), I2C::BusError>)
        requires
            old(self).wf(),
        ensures
            final(self).wf(),
            final(self).bus_ops() == old(self).bus_ops() + 1,
            r matches Ok(t) ==> {
                &&& t.0 == final(self).map_spec().ave_aks_key[key.idx()].ave
                &&& t.1 == final(self).map_spec().ave_aks_key[key.idx()].aks
            },
            r is Ok ==> exists|v: u8|
                final(self).map_spec() == old(self).map_spec().decoded_spec(
                    Register::AveAksKey(key),
                    v,
                ),
            r is Err ==> final(self).map_spec() == old(self).map_spec(),
    {
        self.sync_one(&Register::AveAksKey(key))?;
        Ok(self.read_cached_ave_aks(key))
    }

    /// The cached detection integrator count of one key.
    pub fn read_cached_detection_integrator(&self, key: Key) -> (r: u8)
        ensures
            r == self.map_spec().di_key[key.idx()],
    {
        *self.register_map.get_di_key_register(&key)
    }

    /// Read one key's detection integrator register from the device,
    /// then return the fresh value.
    pub fn read_detection_integrator(&mut self, key: Key) -> (r: Result<u8, I2C::BusError>)
        requires
            old(self).wf(),
        ensures
            final(self).wf(),
            final(self).bus_ops() == old(self).bus_ops() + 1,
            r matches Ok(v) ==> v == final(self).map_spec().di_key[key.idx()],
            r is Ok ==> exists|v: u8|
                final(self).map_spec() == old(self).map_spec().decoded_spec(
                    Register::DIKey(key),
                    v,
                ),
            r is Err ==> final(self).map_spec() == old(self).map_spec(),
    {
        self.sync_one(&Register::DIKey(key))?;
        Ok(self.read_cached_detection_integrator(key))
    }

    /// The cached global fast-outline flag, maximum-calibration flag and
    /// guard channel code, as (fast_out, max_cal, guard_channel).
    pub fn read_cached_fo_mc_guard(&self) -> (r: (bool, bool, u8))
        ensures
            r.0 == self.map_spec().fo_mc_guard.fast_out,
            r.1 == self.map_spec().fo_mc_guard.max_cal,
            r.2 == self.map_spec().fo_mc_guard.guard_channel,
    {
        let fo_mc_guard = &self.register_map.fo_mc_guard;
        (fo_mc_guard.fast_out, fo_mc_guard.max_cal, fo_mc_guard.guard_channel)
    }

    /// Read the packed guard register from the device, then return the
    /// fresh (fast_out, max_cal, guard_channel) triple.
    pub fn read_fo_mc_guard(&mut self) -> (r: Result<(bool, bool, u8), I2C::BusError>)
        requires
            old(self).wf(),
        ensures
            final(self).wf(),
            final(self).bus_ops() == old(self).bus_ops() + 1,
            r matches Ok(t) ==> {
                &&& t.0 == final(self).map_spec().fo_mc_guard.fast_out
                &&& t.1 == final(self).map_spec().fo_mc_guard.max_cal
                &&& t.2 == final(self).map_spec().fo_mc_guard.guard_channel
            },
            r is Ok ==> exists|v: u8|
                final(self).map_spec() == old(self).map_spec().decoded_spec(
                    Register::FoMcGuard,
                    v,
                ),
            r is Err ==> final(self).map_spec() == old(self).map_spec(),
    {
        self.sync_one(&Register::FoMcGuard)?;
        Ok(self.read_cached_fo_mc_guard())
    }

    /// The cached measurement interval in milliseconds: 8 ms per raw
    /// count, and 8 ms for a raw count of zero, which the device treats
    /// as the fastest interval.
    pub fn read_cached_low_power_mode(&self) -> (r: u64)
        ensures
            r as int == low_power_interval_millis(self.map_spec().low_power_mode.0),
    {
        let value = self.register_map.low_power_mode.as_byte();
        if value == 0 {
            return 8;
        }
        value as u64 * 8
    }

    /// Read the low-power interval register from the device, then
    /// return the fresh interval in milliseconds.
    pub fn read_low_power_mode(&mut self) -> (r: Result<u64, I2C::BusError>)
        requires
            old(self).wf(),
        ensures
            final(self).wf(),
            final(self).bus_ops() == old(self).bus_ops() + 1,
            r matches Ok(ms) ==> ms as int == low_power_interval_millis(
                final(self).map_spec().low_power_mode.0,
            ),
            r is Ok ==> exists|v: u8|
                final(self).map_spec() == old(self).map_spec().decoded_spec(
                    Register::LowPowerMode,
                    v,
                ),
            r is Err ==> final(self).map_spec() == old(self).map_spec(),
    {
        self.sync_one(&Register::LowPowerMode)?;
        Ok(self.read_cached_low_power_mode())
    }

    /// The cached maximum continuous detection time: `None` when the
    /// raw count is zero (timeout disabled), otherwise the time in
    /// milliseconds at 160 ms per raw count.
    pub fn read_cached_max_on_duration(&self) -> (r: Option<u64>)
        ensures
            self.map_spec().max_on_duration.0 == 0 <==> r is None,
            r matches Some(ms) ==> ms as int == 160 * self.map_spec().max_on_duration.0,
    {
        let value = self.register_map.max_on_duration.as_byte();
        if value == 0 {
            return None;
        }
        Some(value as u64 * 160)
    }

    /// Read the maximum-on-duration register from the device, then
    /// return the fresh timeout.
    pub fn read_max_on_duration(&mut self) -> (r: Result<Option<u64>, I2C::BusError>)
        requires
            old(self).wf(),
        ensures
            final(self).wf(),
            final(self).bus_ops() == old(self).bus_ops() + 1,
            r matches Ok(d) ==> {
                &&& final(self).map_spec().max_on_duration.0 == 0 <==> d is None
                &&& d matches Some(ms) ==> ms as int == 160 * final(self).map_spec().max_on_duration.0
            },
            r is Ok ==> exists|v: u8|
                final(self).map_spec() == old(self).map_spec().decoded_spec(
                    Register::MaxOnDuration,
                    v,
                ),
            r is Err ==> final(self).map_spec() == old(self).map_spec(),
    {
        self.sync_one(&Register::MaxOnDuration)?;
        Ok(self.read_cached_max_on_duration())
    }

    /// Poll the detection status register until the calibrate flag
    /// clears, reading it at most `max_polls` times: `Ok(true)` once the
    /// device reports calibration finished, `Ok(false)` if it was still
    /// calibrating after the last permitted poll, or the transport's
    /// error as soon as a read fails.
    pub fn wait_calibrated_blocking(&mut self, max_polls: usize) -> (r: Result<
        bool,
        I2C::BusError,
    >)
        requires
            old(self).wf(),
        ensures
            final(self).wf(),
            final(self).bus_ops() <= old(self).bus_ops() + max_polls,
            r == Ok::<bool, I2C::BusError>(true)
                ==> !final(self).map_spec().detection_status.calibrate,
            r == Ok::<bool, I2C::BusError>(false)
                ==> final(self).map_spec().detection_status.calibrate,
    {
        let ghost start_ops = self.bus_ops();
        let mut polls: usize = 0;
        while polls < max_polls
            invariant
                self.wf(),
                polls <= max_polls,
                start_ops == old(self).bus_ops(),
                self.bus_ops() <= start_ops + polls,
                polls > 0 ==> self.map_spec().detection_status.calibrate,
            decreases max_polls - polls,
        {
            let status = self.read_detection_status()?;
            if !status.0 {
                return Ok(true);
            }
            polls += 1;
        }
        if polls == 0 {
            // No polls permitted: report the cached state.
            return Ok(!self.read_cached_detection_status().0);
        }
        Ok(false)
    }
}

} // verus!
