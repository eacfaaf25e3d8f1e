//! The cached image of the device's 58 one-byte registers, with the
//! bit-exact encode/decode rules for every register and the logical to
//! physical address mapping.
use vstd::prelude::*;

verus! {

/// Number of one-byte registers in the device's register file.
pub const REGISTER_COUNT: u8 = 58;

/// One of the seven capacitive sensing channels the device monitors.
#[derive(Clone, Copy, Debug, PartialEq, Eq, Structural)]
pub enum Key {
    Key0,
    Key1,
    Key2,
    Key3,
    Key4,
    Key5,
    Key6,
}

impl Key {
    /// The key's position, 0 through 6.
    pub open spec fn idx(self) -> int {
        match self {
            Key::Key0 => 0,
            Key::Key1 => 1,
            Key::Key2 => 2,
            Key::Key3 => 3,
            Key::Key4 => 4,
            Key::Key5 => 5,
            Key::Key6 => 6,
        }
    }

    /// The key's position as a byte.
    pub fn index(self) -> (r: u8)
        ensures
            r as int == self.idx(),
    {
        match self {
            Key::Key0 => 0,
            Key::Key1 => 1,
            Key::Key2 => 2,
            Key::Key3 => 3,
            Key::Key4 => 4,
            Key::Key5 => 5,
            Key::Key6 => 6,
        }
    }
}

/// The key whose position is `v`, for `v` in 0..7.
pub open spec fn key_at(v: int) -> Key {
    if v == 0 {
        Key::Key0
    } else if v == 1 {
        Key::Key1
    } else if v == 2 {
        Key::Key2
    } else if v == 3 {
        Key::Key3
    } else if v == 4 {
        Key::Key4
    } else if v == 5 {
        Key::Key5
    } else {
        Key::Key6
    }
}

impl vstd::std_specs::convert::FromSpecImpl<u8> for Key {
    open spec fn obeys_from_spec() -> bool {
        true
    }

    open spec fn from_spec(v: u8) -> Key {
        key_at(v as int % 7)
    }
}

impl From<u8> for Key {
    /// Out-of-range values are clamped modulo 7, so every byte names a key.
    fn from(val: u8) -> (r: Key)
        ensures
            r == key_at(val as int % 7),
    {
        let val = val % 7;
        if val == 0 {
            Key::Key0
        } else if val == 1 {
            Key::Key1
        } else if val == 2 {
            Key::Key2
        } else if val == 3 {
            Key::Key3
        } else if val == 4 {
            Key::Key4
        } else if val == 5 {
            Key::Key5
        } else {
            Key::Key6
        }
    }
}

/// A register whose byte is decoded into typed fields.
///
/// Encode and decode are mutual inverses: decoding a byte and encoding it
/// back returns the byte masked to the register's defined bits, and a
/// well-formed decoded value survives encode followed by decode unchanged.
pub trait RegisterMapRegister: Sized {
    /// Every decoded field lies within its bit width.
    spec fn wf(&self) -> bool;

    /// The byte this register encodes to.
    spec fn byte_spec(&self) -> u8;

    /// The decoded image of a raw byte.
    spec fn from_byte_spec(val: u8) -> Self;

    /// The bits of the byte that carry a decoded field; reserved bits are
    /// masked to zero on both directions.
    spec fn defined_mask() -> u8;

    /// Encode the register into the byte it would occupy on the device.
    fn as_byte(&self) -> (r: u8)
        ensures
            r == self.byte_spec(),
    ;

    /// Decode a raw byte read from the device, replacing every field.
    fn update(&mut self, val: u8)
        ensures
            *final(self) == Self::from_byte_spec(val),
    ;

    /// Decoding any byte yields well-formed fields.
    proof fn lemma_from_byte_wf(val: u8)
        ensures
            Self::from_byte_spec(val).wf(),
    ;

    /// Encoding a decoded byte returns the byte masked to the defined bits.
    proof fn lemma_encode_after_decode(val: u8)
        ensures
            Self::from_byte_spec(val).byte_spec() == val & Self::defined_mask(),
    ;

    /// A well-formed value round-trips through its byte with no loss.
    proof fn lemma_decode_after_encode(s: Self)
        requires
            s.wf(),
        ensures
            Self::from_byte_spec(s.byte_spec()) == s,
    ;
}

/// Chip identity, two 4-bit nibbles: major id in the high nibble, minor id
/// in the low nibble.
#[derive(Clone, Copy, Debug, PartialEq, Eq, Structural)]
pub struct ChipId {
    pub major_id: u8,
    pub minor_id: u8,
}

impl Default for ChipId {
    /// Power-on-reset identity of the device.
    fn default() -> (r: Self)
        ensures
            r == (ChipId { major_id: 0x2, minor_id: 0xE }),
            r.wf(),
    {
        Self { major_id: 0x2, minor_id: 0xE }
    }
}

impl RegisterMapRegister for ChipId {
    open spec fn wf(&self) -> bool {
        self.major_id < 0x10 && self.minor_id < 0x10
    }

    open spec fn byte_spec(&self) -> u8 {
        (self.major_id << 4) | self.minor_id
    }

    open spec fn from_byte_spec(val: u8) -> Self {
        ChipId { major_id: val >> 4, minor_id: val & 0x0F }
    }

    open spec fn defined_mask() -> u8 {
        0xFF
    }

    fn as_byte(&self) -> (r: u8) {
        (self.major_id << 4) | self.minor_id
    }

    fn update(&mut self, val: u8) {
        self.major_id = val >> 4;
        self.minor_id = val & 0x0F;
    }

    proof fn lemma_from_byte_wf(val: u8) {
        assert(val >> 4 < 0x10 && val & 0x0F < 0x10) by (bit_vector);
    }

    proof fn lemma_encode_after_decode(val: u8) {
        assert((((val >> 4) << 4) | (val & 0x0F)) == val & 0xFF) by (bit_vector);
    }

    proof fn lemma_decode_after_encode(s: Self) {
        let major = s.major_id;
        let minor = s.minor_id;
        assert(major < 0x10 && minor < 0x10 ==> ((major << 4) | minor) >> 4 == major
            && ((major << 4) | minor) & 0x0F == minor) by (bit_vector);
    }
}

/// Device-wide detection state: calibration in progress (bit 7), signal
/// overflow (bit 6), any touch detected (bit 0).
#[derive(Clone, Copy, Debug, PartialEq, Eq, Structural)]
pub struct DetectionStatus {
    pub calibrate: bool,
    pub overflow: bool,
    pub touch: bool,
}

impl Default for DetectionStatus {
    fn default() -> (r: Self)
        ensures
            r == (DetectionStatus { calibrate: false, overflow: false, touch: false }),
    {
        Self { calibrate: false, overflow: false, touch: false }
    }
}

impl RegisterMapRegister for DetectionStatus {
    open spec fn wf(&self) -> bool {
        true
    }

    open spec fn byte_spec(&self) -> u8 {
        (if self.calibrate { 0x80u8 } else { 0u8 })
        | (if self.overflow { 0x40u8 } else { 0u8 })
        | (if self.touch { 0x01u8 } else { 0u8 })
    }

    open spec fn from_byte_spec(val: u8) -> Self {
        DetectionStatus {
            calibrate: val & 0x80 != 0,
            overflow: val & 0x40 != 0,
            touch: val & 0x01 != 0,
        }
    }

    open spec fn defined_mask() -> u8 {
        0xC1
    }

    fn as_byte(&self) -> (r: u8) {
        let calibrate: u8 = if self.calibrate { 0x80 } else { 0 };
        let overflow: u8 = if self.overflow { 0x40 } else { 0 };
        let touch: u8 = if self.touch { 0x01 } else { 0 };
        calibrate | overflow | touch
    }

    fn update(&mut self, val: u8) {
        self.calibrate = val & 0x80 != 0;
        self.overflow = val & 0x40 != 0;
        self.touch = val & 0x01 != 0;
    }

    proof fn lemma_from_byte_wf(val: u8) {
    }

    proof fn lemma_encode_after_decode(val: u8) {
        assert(((if val & 0x80 != 0 { 0x80u8 } else { 0u8 })
            | (if val & 0x40 != 0 { 0x40u8 } else { 0u8 })
            | (if val & 0x01 != 0 { 0x01u8 } else { 0u8 })) == val & 0xC1) by (bit_vector);
    }

    proof fn lemma_decode_after_encode(s: Self) {
        let c = s.calibrate;
        let o = s.overflow;
        let t = s.touch;
        assert({
            let b = (if c { 0x80u8 } else { 0u8 }) | (if o { 0x40u8 } else { 0u8 })
                | (if t { 0x01u8 } else { 0u8 });
            (b & 0x80 != 0) == c && (b & 0x40 != 0) == o && (b & 0x01 != 0) == t
        }) by (bit_vector);
    }
}

/// Per-key touch flags: bit `i` reports key `i`, bit 7 is reserved and is
/// mirrored back on encode.
#[derive(Clone, Copy, Debug)]
#[verifier::ext_equal]
pub struct KeyStatus {
    pub reserved: bool,
    pub key: [bool; 7],
}

/// The per-key flags decoded from a key status byte: entry `i` holds bit `i`.
pub open spec fn key_flags_of(val: u8) -> [bool; 7] {
    let a = vstd::array::spec_array_fill_for_copy_type::<bool, 7>(false);
    let a = vstd::array::spec_array_update(a, 0, val & 0x01 != 0);
    let a = vstd::array::spec_array_update(a, 1, val & 0x02 != 0);
    let a = vstd::array::spec_array_update(a, 2, val & 0x04 != 0);
    let a = vstd::array::spec_array_update(a, 3, val & 0x08 != 0);
    let a = vstd::array::spec_array_update(a, 4, val & 0x10 != 0);
    let a = vstd::array::spec_array_update(a, 5, val & 0x20 != 0);
    vstd::array::spec_array_update(a, 6, val & 0x40 != 0)
}

impl Default for KeyStatus {
    fn default() -> (r: Self)
        ensures
            r.reserved == false,
            forall|i: int| 0 <= i < 7 ==> r.key[i] == false,
    {
        Self { reserved: false, key: [false; 7] }
    }
}

impl RegisterMapRegister for KeyStatus {
    open spec fn wf(&self) -> bool {
        true
    }

    open spec fn byte_spec(&self) -> u8 {
        (if self.reserved { 0x80u8 } else { 0u8 })
        | (if self.key[0] { 0x01u8 } else { 0u8 })
        | (if self.key[1] { 0x02u8 } else { 0u8 })
        | (if self.key[2] { 0x04u8 } else { 0u8 })
        | (if self.key[3] { 0x08u8 } else { 0u8 })
        | (if self.key[4] { 0x10u8 } else { 0u8 })
        | (if self.key[5] { 0x20u8 } else { 0u8 })
        | (if self.key[6] { 0x40u8 } else { 0u8 })
    }

    open spec fn from_byte_spec(val: u8) -> Self {
        KeyStatus { reserved: val & 0x80 != 0, key: key_flags_of(val) }
    }

    open spec fn defined_mask() -> u8 {
        0xFF
    }

    fn as_byte(&self) -> (r: u8) {
        let reserved: u8 = if self.reserved { 0x80 } else { 0 };
        let k0: u8 = if self.key[0] { 0x01 } else { 0 };
        let k1: u8 = if self.key[1] { 0x02 } else { 0 };
        let k2: u8 = if self.key[2] { 0x04 } else { 0 };
        let k3: u8 = if self.key[3] { 0x08 } else { 0 };
        let k4: u8 = if self.key[4] { 0x10 } else { 0 };
        let k5: u8 = if self.key[5] { 0x20 } else { 0 };
        let k6: u8 = if self.key[6] { 0x40 } else { 0 };
        reserved | k0 | k1 | k2 | k3 | k4 | k5 | k6
    }

    fn update(&mut self, val: u8) {
        self.reserved = val & 0x80 != 0;
        self.key[0] = val & 0x01 != 0;
        self.key[1] = val & 0x02 != 0;
        self.key[2] = val & 0x04 != 0;
        self.key[3] = val & 0x08 != 0;
        self.key[4] = val & 0x10 != 0;
        self.key[5] = val & 0x20 != 0;
        self.key[6] = val & 0x40 != 0;
        proof {
            assert(self.key =~= key_flags_of(val));
        }
    }

    proof fn lemma_from_byte_wf(val: u8) {
    }

    proof fn lemma_encode_after_decode(val: u8) {
        assert(((if val & 0x80 != 0 { 0x80u8 } else { 0u8 })
            | (if val & 0x01 != 0 { 0x01u8 } else { 0u8 })
            | (if val & 0x02 != 0 { 0x02u8 } else { 0u8 })
            | (if val & 0x04 != 0 { 0x04u8 } else { 0u8 })
            | (if val & 0x08 != 0 { 0x08u8 } else { 0u8 })
            | (if val & 0x10 != 0 { 0x10u8 } else { 0u8 })
            | (if val & 0x20 != 0 { 0x20u8 } else { 0u8 })
            | (if val & 0x40 != 0 { 0x40u8 } else { 0u8 })) == val & 0xFF) by (bit_vector);
    }

    proof fn lemma_decode_after_encode(s: Self) {
        let r = s.reserved;
        let k0 = s.key[0];
        let k1 = s.key[1];
        let k2 = s.key[2];
        let k3 = s.key[3];
        let k4 = s.key[4];
        let k5 = s.key[5];
        let k6 = s.key[6];
        assert({
            let b = (if r { 0x80u8 } else { 0u8 }) | (if k0 { 0x01u8 } else { 0u8 })
                | (if k1 { 0x02u8 } else { 0u8 }) | (if k2 { 0x04u8 } else { 0u8 })
                | (if k3 { 0x08u8 } else { 0u8 }) | (if k4 { 0x10u8 } else { 0u8 })
                | (if k5 { 0x20u8 } else { 0u8 }) | (if k6 { 0x40u8 } else { 0u8 });
            (b & 0x80 != 0) == r && (b & 0x01 != 0) == k0 && (b & 0x02 != 0) == k1
                && (b & 0x04 != 0) == k2 && (b & 0x08 != 0) == k3 && (b & 0x10 != 0) == k4
                && (b & 0x20 != 0) == k5 && (b & 0x40 != 0) == k6
        }) by (bit_vector);
        assert(Self::from_byte_spec(s.byte_spec()).key =~= s.key);
    }
}

/// Per-key averaging factor (six bits, bits 2..=7) packed with the
/// adjacent key suppression group (two bits, bits 0..=1).
#[derive(Clone, Copy, Debug, PartialEq, Eq, Structural)]
pub struct AveAks {
    pub ave: u8,
    pub aks: u8,
}

impl Default for AveAks {
    /// Power-on-reset averaging factor and suppression group.
    fn default() -> (r: Self)
        ensures
            r == (AveAks { ave: 0x08, aks: 0x01 }),
            r.wf(),
    {
        Self { ave: 0x08, aks: 0x01 }
    }
}

impl RegisterMapRegister for AveAks {
    open spec fn wf(&self) -> bool {
        self.ave < 0x40 && self.aks < 0x04
    }

    open spec fn byte_spec(&self) -> u8 {
        (self.ave << 2) | self.aks
    }

    open spec fn from_byte_spec(val: u8) -> Self {
        AveAks { ave: val >> 2, aks: val & 0x03 }
    }

    open spec fn defined_mask() -> u8 {
        0xFF
    }

    fn as_byte(&self) -> (r: u8) {
        (self.ave << 2) | self.aks
    }

    fn update(&mut self, val: u8) {
        self.ave = val >> 2;
        self.aks = val & 0x03;
    }

    proof fn lemma_from_byte_wf(val: u8) {
        assert(val >> 2 < 0x40 && val & 0x03 < 0x04) by (bit_vector);
    }

    proof fn lemma_encode_after_decode(val: u8) {
        assert((((val >> 2) << 2) | (val & 0x03)) == val & 0xFF) by (bit_vector);
    }

    proof fn lemma_decode_after_encode(s: Self) {
        let ave = s.ave;
        let aks = s.aks;
        assert(ave < 0x40 && aks < 0x04 ==> ((ave << 2) | aks) >> 2 == ave
            && ((ave << 2) | aks) & 0x03 == aks) by (bit_vector);
    }
}

/// Global settings sharing one byte: fast outline (bit 5), maximum
/// calibration (bit 4) and the guard channel number (bits 0..=3, where
/// 0x0..=0x6 name a key and 0x7 means no guard channel).
#[derive(Clone, Copy, Debug, PartialEq, Eq, Structural)]
pub struct FastOutDiMaxCalGuardChannel {
    pub fast_out: bool,
    pub max_cal: bool,
    pub guard_channel: u8,
}

impl Default for FastOutDiMaxCalGuardChannel {
    fn default() -> (r: Self)
        ensures
            r == (FastOutDiMaxCalGuardChannel {
                fast_out: false,
                max_cal: false,
                guard_channel: 0x00,
            }),
            r.wf(),
    {
        Self { fast_out: false, max_cal: false, guard_channel: 0x00 }
    }
}

impl RegisterMapRegister for FastOutDiMaxCalGuardChannel {
    open spec fn wf(&self) -> bool {
        self.guard_channel < 0x10
    }

    open spec fn byte_spec(&self) -> u8 {
        (if self.fast_out { 0x20u8 } else { 0u8 })
        | (if self.max_cal { 0x10u8 } else { 0u8 })
        | self.guard_channel
    }

    open spec fn from_byte_spec(val: u8) -> Self {
        FastOutDiMaxCalGuardChannel {
            fast_out: val & 0x20 != 0,
            max_cal: val & 0x10 != 0,
            guard_channel: val & 0x0F,
        }
    }

    open spec fn defined_mask() -> u8 {
        0x3F
    }

    fn as_byte(&self) -> (r: u8) {
        let fast_out: u8 = if self.fast_out { 0x20 } else { 0 };
        let max_cal: u8 = if self.max_cal { 0x10 } else { 0 };
        fast_out | max_cal | self.guard_channel
    }

    fn update(&mut self, val: u8) {
        self.fast_out = val & 0x20 != 0;
        self.max_cal = val & 0x10 != 0;
        self.guard_channel = val & 0x0F;
    }

    proof fn lemma_from_byte_wf(val: u8) {
        assert(val & 0x0F < 0x10) by (bit_vector);
    }

    proof fn lemma_encode_after_decode(val: u8) {
        assert(((if val & 0x20 != 0 { 0x20u8 } else { 0u8 })
            | (if val & 0x10 != 0 { 0x10u8 } else { 0u8 })
            | (val & 0x0F)) == val & 0x3F) by (bit_vector);
    }

    proof fn lemma_decode_after_encode(s: Self) {
        let fo = s.fast_out;
        let mc = s.max_cal;
        let g = s.guard_channel;
        assert({
            let b = (if fo { 0x20u8 } else { 0u8 }) | (if mc { 0x10u8 } else { 0u8 }) | g;
            g < 0x10 ==> (b & 0x20 != 0) == fo && (b & 0x10 != 0) == mc && b & 0x0F == g
        }) by (bit_vector);
    }
}

/// Interval between key measurements, in units of 8 ms per count; a raw
/// count of zero is treated by the device as the fastest interval (8 ms).
#[derive(Clone, Copy, Debug, PartialEq, Eq, Structural)]
pub struct LowPowerMode(pub u8);

impl Default for LowPowerMode {
    /// Power-on-reset measurement interval (2 counts, 16 ms).
    fn default() -> (r: Self)
        ensures
            r == LowPowerMode(2),
    {
        LowPowerMode(2)
    }
}

impl RegisterMapRegister for LowPowerMode {
    open spec fn wf(&self) -> bool {
        true
    }

    open spec fn byte_spec(&self) -> u8 {
        self.0
    }

    open spec fn from_byte_spec(val: u8) -> Self {
        LowPowerMode(val)
    }

    open spec fn defined_mask() -> u8 {
        0xFF
    }

    fn as_byte(&self) -> (r: u8) {
        self.0
    }

    fn update(&mut self, val: u8) {
        self.0 = val;
    }

    proof fn lemma_from_byte_wf(val: u8) {
    }

    proof fn lemma_encode_after_decode(val: u8) {
        assert(val & 0xFF == val) by (bit_vector);
    }

    proof fn lemma_decode_after_encode(s: Self) {
    }
}

impl LowPowerMode {
    /// The raw count nearest below a duration in milliseconds, at 8 ms per
    /// count; durations of 2048 ms or more truncate to the low byte.
    pub fn from_millis(millis: u16) -> (r: Self)
        ensures
            r == LowPowerMode((millis / 8) as u8),
    {
        LowPowerMode((millis / 8) as u8)
    }
}

/// Longest continuous detection before the device recalibrates, in units
/// of 160 ms per count; a raw count of zero disables the timeout.
#[derive(Clone, Copy, Debug, PartialEq, Eq, Structural)]
pub struct MaxOnDuration(pub u8);

impl Default for MaxOnDuration {
    /// Power-on-reset timeout (180 counts, 28.8 s).
    fn default() -> (r: Self)
        ensures
            r == MaxOnDuration(180),
    {
        MaxOnDuration(180)
    }
}

impl RegisterMapRegister for MaxOnDuration {
    open spec fn wf(&self) -> bool {
        true
    }

    open spec fn byte_spec(&self) -> u8 {
        self.0
    }

    open spec fn from_byte_spec(val: u8) -> Self {
        MaxOnDuration(val)
    }

    open spec fn defined_mask() -> u8 {
        0xFF
    }

    fn as_byte(&self) -> (r: u8) {
        self.0
    }

    fn update(&mut self, val: u8) {
        self.0 = val;
    }

    proof fn lemma_from_byte_wf(val: u8) {
    }

    proof fn lemma_encode_after_decode(val: u8) {
        assert(val & 0xFF == val) by (bit_vector);
    }

    proof fn lemma_decode_after_encode(s: Self) {
    }
}

impl MaxOnDuration {
    /// The raw count nearest below a duration in milliseconds, at 160 ms
    /// per count; durations of 40960 ms or more truncate to the low byte.
    pub fn from_millis(millis: u16) -> (r: Self)
        ensures
            r == MaxOnDuration((millis / 160) as u8),
    {
        MaxOnDuration((millis / 160) as u8)
    }
}

/// A logical register: one of the scalar registers, or one byte of a
/// per-key register group together with the key it belongs to.
#[derive(Clone, Copy, Debug, PartialEq, Eq, Structural)]
pub enum Register {
    ChipID,
    FirmwareVersion,
    DetectionStatus,
    KeyStatus,
    KeySignalMs(Key),
    KeySignalLs(Key),
    ReferenceDataMs(Key),
    ReferenceDataLs(Key),
    NthrKey(Key),
    AveAksKey(Key),
    DIKey(Key),
    FoMcGuard,
    LowPowerMode,
    MaxOnDuration,
    Calibrate,
    Reset,
}

impl Register {
    /// Whether the device ignores writes to this register; writes to such
    /// registers are suppressed instead of sent over the bus.
    pub open spec fn read_only_spec(self) -> bool {
        match self {
            Register::ChipID => true,
            Register::FirmwareVersion => true,
            Register::DetectionStatus => true,
            Register::KeyStatus => true,
            Register::KeySignalMs(_) => true,
            Register::KeySignalLs(_) => true,
            Register::ReferenceDataMs(_) => true,
            Register::ReferenceDataLs(_) => true,
            _ => false,
        }
    }

    /// Whether the device ignores writes to this register.
    pub fn is_read_only(&self) -> (r: bool)
        ensures
            r == self.read_only_spec(),
    {
        match self {
            Register::ChipID | Register::FirmwareVersion | Register::DetectionStatus
            | Register::KeyStatus | Register::KeySignalMs(_) | Register::KeySignalLs(_)
            | Register::ReferenceDataMs(_) | Register::ReferenceDataLs(_) => true,
            _ => false,
        }
    }
}

/// The cached image of the device's register file: the decoded value of
/// every one of the 58 registers.
///
/// Per-key register groups are laid out in ascending key order, as in the
/// device's register table: key 0 first, key 6 last.
#[derive(Clone, Copy, Debug)]
#[verifier::ext_equal]
pub struct RegisterMap {
    pub chip_id: ChipId,
    pub firmware_version: u8,
    pub detection_status: DetectionStatus,
    pub key_status: KeyStatus,
    pub key_signal_ms: [u8; 7],
    pub key_signal_ls: [u8; 7],
    pub reference_data_ms: [u8; 7],
    pub reference_data_ls: [u8; 7],
    pub nthr_key: [u8; 7],
    pub ave_aks_key: [AveAks; 7],
    pub di_key: [u8; 7],
    pub fo_mc_guard: FastOutDiMaxCalGuardChannel,
    pub low_power_mode: LowPowerMode,
    pub max_on_duration: MaxOnDuration,
    pub calibrate: u8,
    pub reset: u8,
}

impl RegisterMap {
    /// The register file as documented for power-on reset.
    pub open spec fn power_on_reset() -> RegisterMap {
        RegisterMap {
            chip_id: ChipId { major_id: 0x2, minor_id: 0xE },
            firmware_version: 0x15,
            detection_status: DetectionStatus { calibrate: false, overflow: false, touch: false },
            key_status: KeyStatus {
                reserved: false,
                key: vstd::array::spec_array_fill_for_copy_type::<bool, 7>(false),
            },
            key_signal_ms: vstd::array::spec_array_fill_for_copy_type::<u8, 7>(0x00),
            key_signal_ls: vstd::array::spec_array_fill_for_copy_type::<u8, 7>(0x00),
            reference_data_ms: vstd::array::spec_array_fill_for_copy_type::<u8, 7>(0x00),
            reference_data_ls: vstd::array::spec_array_fill_for_copy_type::<u8, 7>(0x00),
            nthr_key: vstd::array::spec_array_fill_for_copy_type::<u8, 7>(0x14),
            ave_aks_key: vstd::array::spec_array_fill_for_copy_type::<AveAks, 7>(
                AveAks { ave: 0x08, aks: 0x01 },
            ),
            di_key: vstd::array::spec_array_fill_for_copy_type::<u8, 7>(0x04),
            fo_mc_guard: FastOutDiMaxCalGuardChannel {
                fast_out: false,
                max_cal: false,
                guard_channel: 0x00,
            },
            low_power_mode: LowPowerMode(2),
            max_on_duration: MaxOnDuration(180),
            calibrate: 0x00,
            reset: 0x00,
        }
    }

    /// Every packed register holds fields within their bit widths.
    pub open spec fn wf(self) -> bool {
        &&& self.chip_id.wf()
        &&& self.fo_mc_guard.wf()
        &&& forall|i: int| 0 <= i < 7 ==> self.ave_aks_key[i].wf()
    }
}

impl Default for RegisterMap {
    /// The register file as documented for power-on reset.
    fn default() -> (r: Self)
        ensures
            r == RegisterMap::power_on_reset(),
            r.wf(),
    {
        Self {
            chip_id: ChipId::default(),
            firmware_version: 0x15,
            detection_status: DetectionStatus::default(),
            key_status: KeyStatus { reserved: false, key: [false; 7] },
            key_signal_ms: [0x00; 7],
            key_signal_ls: [0x00; 7],
            reference_data_ms: [0x00; 7],
            reference_data_ls: [0x00; 7],
            nthr_key: [0x14; 7],
            ave_aks_key: [AveAks { ave: 0x08, aks: 0x01 }; 7],
            di_key: [0x04; 7],
            fo_mc_guard: FastOutDiMaxCalGuardChannel::default(),
            low_power_mode: LowPowerMode::default(),
            max_on_duration: MaxOnDuration::default(),
            calibrate: 0x00,
            reset: 0x00,
        }
    }
}

impl RegisterMap {
    /// The physical address of a logical register, per the device's
    /// register table: scalars at 0x00..=0x03, key signal pairs at
    /// 0x04..=0x11, reference data pairs at 0x12..=0x1F, thresholds at
    /// 0x20..=0x26, averaging/suppression at 0x27..=0x2D, detection
    /// integrators at 0x2E..=0x34, then the scalar tail 0x35..=0x39.
    pub open spec fn addr_spec(reg: Register) -> int {
        match reg {
            Register::ChipID => 0x00,
            Register::FirmwareVersion => 0x01,
            Register::DetectionStatus => 0x02,
            Register::KeyStatus => 0x03,
            Register::KeySignalMs(k) => 0x04 + 2 * k.idx(),
            Register::KeySignalLs(k) => 0x05 + 2 * k.idx(),
            Register::ReferenceDataMs(k) => 0x12 + 2 * k.idx(),
            Register::ReferenceDataLs(k) => 0x13 + 2 * k.idx(),
            Register::NthrKey(k) => 0x20 + k.idx(),
            Register::AveAksKey(k) => 0x27 + k.idx(),
            Register::DIKey(k) => 0x2E + k.idx(),
            Register::FoMcGuard => 0x35,
            Register::LowPowerMode => 0x36,
            Register::MaxOnDuration => 0x37,
            Register::Calibrate => 0x38,
            Register::Reset => 0x39,
        }
    }

    /// The logical register stored at a physical address in 0..58; the
    /// inverse of `addr_spec`.
    pub open spec fn register_at_spec(addr: int) -> Register {
        if addr == 0x00 {
            Register::ChipID
        } else if addr == 0x01 {
            Register::FirmwareVersion
        } else if addr == 0x02 {
            Register::DetectionStatus
        } else if addr == 0x03 {
            Register::KeyStatus
        } else if 0x04 <= addr && addr <= 0x11 {
            if (addr - 0x04) % 2 == 0 {
                Register::KeySignalMs(key_at((addr - 0x04) / 2))
            } else {
                Register::KeySignalLs(key_at((addr - 0x05) / 2))
            }
        } else if 0x12 <= addr && addr <= 0x1F {
            if (addr - 0x12) % 2 == 0 {
                Register::ReferenceDataMs(key_at((addr - 0x12) / 2))
            } else {
                Register::ReferenceDataLs(key_at((addr - 0x13) / 2))
            }
        } else if 0x20 <= addr && addr <= 0x26 {
            Register::NthrKey(key_at(addr - 0x20))
        } else if 0x27 <= addr && addr <= 0x2D {
            Register::AveAksKey(key_at(addr - 0x27))
        } else if 0x2E <= addr && addr <= 0x34 {
            Register::DIKey(key_at(addr - 0x2E))
        } else if addr == 0x35 {
            Register::FoMcGuard
        } else if addr == 0x36 {
            Register::LowPowerMode
        } else if addr == 0x37 {
            Register::MaxOnDuration
        } else if addr == 0x38 {
            Register::Calibrate
        } else {
            Register::Reset
        }
    }

    /// The physical address of a logical register.
    pub fn get_register_addr(reg: &Register) -> (r: u8)
        ensures
            r as int == RegisterMap::addr_spec(*reg),
            r < REGISTER_COUNT,
    {
        match reg {
            Register::ChipID => 0x00,
            Register::FirmwareVersion => 0x01,
            Register::DetectionStatus => 0x02,
            Register::KeyStatus => 0x03,
            Register::KeySignalMs(key) => 0x04 + RegisterMap::get_key_register_offset(*key) * 2,
            Register::KeySignalLs(key) => 0x05 + RegisterMap::get_key_register_offset(*key) * 2,
            Register::ReferenceDataMs(key) => 0x12 + RegisterMap::get_key_register_offset(*key)
                * 2,
            Register::ReferenceDataLs(key) => 0x13 + RegisterMap::get_key_register_offset(*key)
                * 2,
            Register::NthrKey(key) => 0x20 + RegisterMap::get_key_register_offset(*key),
            Register::AveAksKey(key) => 0x27 + RegisterMap::get_key_register_offset(*key),
            Register::DIKey(key) => 0x2E + RegisterMap::get_key_register_offset(*key),
            Register::FoMcGuard => 0x35,
            Register::LowPowerMode => 0x36,
            Register::MaxOnDuration => 0x37,
            Register::Calibrate => 0x38,
            Register::Reset => 0x39,
        }
    }

    /// How far into its register group a key's byte lies: groups are laid
    /// out in ascending key order, so the offset is the key's position.
    fn get_key_register_offset(key: Key) -> (r: u8)
        ensures
            r as int == key.idx(),
    {
        key.index()
    }
}

/// The address mapping is total: every logical register lies in the
/// 58-byte register file.
pub proof fn lemma_addr_in_range(reg: Register)
    ensures
        0 <= RegisterMap::addr_spec(reg) < REGISTER_COUNT,
{
}

/// `register_at_spec` undoes `addr_spec`: recovering the register stored
/// at a logical register's address yields that register.
pub proof fn lemma_register_at_addr(reg: Register)
    ensures
        RegisterMap::register_at_spec(RegisterMap::addr_spec(reg)) == reg,
{
}

/// The address mapping is injective: no two distinct logical registers
/// share a physical address.
pub proof fn lemma_addr_injective(r1: Register, r2: Register)
    requires
        RegisterMap::addr_spec(r1) == RegisterMap::addr_spec(r2),
    ensures
        r1 == r2,
{
    lemma_register_at_addr(r1);
    lemma_register_at_addr(r2);
}

impl RegisterMap {
    /// The byte a logical register encodes to.
    pub open spec fn reg_byte_spec(self, reg: Register) -> u8 {
        match reg {
            Register::ChipID => self.chip_id.byte_spec(),
            Register::FirmwareVersion => self.firmware_version,
            Register::DetectionStatus => self.detection_status.byte_spec(),
            Register::KeyStatus => self.key_status.byte_spec(),
            Register::KeySignalMs(k) => self.key_signal_ms[k.idx()],
            Register::KeySignalLs(k) => self.key_signal_ls[k.idx()],
            Register::ReferenceDataMs(k) => self.reference_data_ms[k.idx()],
            Register::ReferenceDataLs(k) => self.reference_data_ls[k.idx()],
            Register::NthrKey(k) => self.nthr_key[k.idx()],
            Register::AveAksKey(k) => self.ave_aks_key[k.idx()].byte_spec(),
            Register::DIKey(k) => self.di_key[k.idx()],
            Register::FoMcGuard => self.fo_mc_guard.byte_spec(),
            Register::LowPowerMode => self.low_power_mode.byte_spec(),
            Register::MaxOnDuration => self.max_on_duration.byte_spec(),
            Register::Calibrate => self.calibrate,
            Register::Reset => self.reset,
        }
    }

    /// The bits of a register's byte that carry a decoded field.
    pub open spec fn reg_mask_spec(reg: Register) -> u8 {
        match reg {
            Register::DetectionStatus => 0xC1,
            Register::FoMcGuard => 0x3F,
            _ => 0xFF,
        }
    }

    /// The map after decoding a raw byte into a logical register: exactly
    /// the fields addressed by the register change.
    pub open spec fn decoded_spec(self, reg: Register, val: u8) -> RegisterMap {
        match reg {
            Register::ChipID => RegisterMap { chip_id: ChipId::from_byte_spec(val), ..self },
            Register::FirmwareVersion => RegisterMap { firmware_version: val, ..self },
            Register::DetectionStatus => RegisterMap {
                detection_status: DetectionStatus::from_byte_spec(val),
                ..self
            },
            Register::KeyStatus => RegisterMap {
                key_status: KeyStatus::from_byte_spec(val),
                ..self
            },
            Register::KeySignalMs(k) => RegisterMap {
                key_signal_ms: vstd::array::spec_array_update(self.key_signal_ms, k.idx(), val),
                ..self
            },
            Register::KeySignalLs(k) => RegisterMap {
                key_signal_ls: vstd::array::spec_array_update(self.key_signal_ls, k.idx(), val),
                ..self
            },
            Register::ReferenceDataMs(k) => RegisterMap {
                reference_data_ms: vstd::array::spec_array_update(
                    self.reference_data_ms,
                    k.idx(),
                    val,
                ),
                ..self
            },
            Register::ReferenceDataLs(k) => RegisterMap {
                reference_data_ls: vstd::array::spec_array_update(
                    self.reference_data_ls,
                    k.idx(),
                    val,
                ),
                ..self
            },
            Register::NthrKey(k) => RegisterMap {
                nthr_key: vstd::array::spec_array_update(self.nthr_key, k.idx(), val),
                ..self
            },
            Register::AveAksKey(k) => RegisterMap {
                ave_aks_key: vstd::array::spec_array_update(
                    self.ave_aks_key,
                    k.idx(),
                    AveAks::from_byte_spec(val),
                ),
                ..self
            },
            Register::DIKey(k) => RegisterMap {
                di_key: vstd::array::spec_array_update(self.di_key, k.idx(), val),
                ..self
            },
            Register::FoMcGuard => RegisterMap {
                fo_mc_guard: FastOutDiMaxCalGuardChannel::from_byte_spec(val),
                ..self
            },
            Register::LowPowerMode => RegisterMap {
                low_power_mode: LowPowerMode::from_byte_spec(val),
                ..self
            },
            Register::MaxOnDuration => RegisterMap {
                max_on_duration: MaxOnDuration::from_byte_spec(val),
                ..self
            },
            Register::Calibrate => RegisterMap { calibrate: val, ..self },
            Register::Reset => RegisterMap { reset: val, ..self },
        }
    }

    /// The cached signal byte of a key: the most significant byte when
    /// `ms` is true, the least significant one otherwise.
    pub fn get_key_signal_register(&self, key: &Key, ms: bool) -> (r: &u8)
        ensures
            ms ==> *r == self.key_signal_ms[key.idx()],
            !ms ==> *r == self.key_signal_ls[key.idx()],
    {
        let i = key.index();
        if ms {
            &self.key_signal_ms[i as usize]
        } else {
            &self.key_signal_ls[i as usize]
        }
    }

    /// Mutable access to the cached signal byte of a key.
    pub fn get_key_signal_register_mut(&mut self, key: &Key, ms: bool) -> (r: &mut u8)
        ensures
            ms ==> *r == old(self).key_signal_ms[key.idx()],
            !ms ==> *r == old(self).key_signal_ls[key.idx()],
            ms ==> *final(self) == (RegisterMap {
                key_signal_ms: vstd::array::spec_array_update(
                    old(self).key_signal_ms,
                    key.idx(),
                    *final(r),
                ),
                ..*old(self)
            }),
            !ms ==> *final(self) == (RegisterMap {
                key_signal_ls: vstd::array::spec_array_update(
                    old(self).key_signal_ls,
                    key.idx(),
                    *final(r),
                ),
                ..*old(self)
            }),
    {
        let i = key.index();
        if ms {
            &mut self.key_signal_ms[i as usize]
        } else {
            &mut self.key_signal_ls[i as usize]
        }
    }

    /// The cached reference data byte of a key: the most significant byte
    /// when `ms` is true, the least significant one otherwise.
    pub fn get_reference_data_register(&self, key: &Key, ms: bool) -> (r: &u8)
        ensures
            ms ==> *r == self.reference_data_ms[key.idx()],
            !ms ==> *r == self.reference_data_ls[key.idx()],
    {
        let i = key.index();
        if ms {
            &self.reference_data_ms[i as usize]
        } else {
            &self.reference_data_ls[i as usize]
        }
    }

    /// Mutable access to the cached reference data byte of a key.
    pub fn get_reference_data_register_mut(&mut self, key: &Key, ms: bool) -> (r: &mut u8)
        ensures
            ms ==> *r == old(self).reference_data_ms[key.idx()],
            !ms ==> *r == old(self).reference_data_ls[key.idx()],
            ms ==> *final(self) == (RegisterMap {
                reference_data_ms: vstd::array::spec_array_update(
                    old(self).reference_data_ms,
                    key.idx(),
                    *final(r),
                ),
                ..*old(self)
            }),
            !ms ==> *final(self) == (RegisterMap {
                reference_data_ls: vstd::array::spec_array_update(
                    old(self).reference_data_ls,
                    key.idx(),
                    *final(r),
                ),
                ..*old(self)
            }),
    {
        let i = key.index();
        if ms {
            &mut self.reference_data_ms[i as usize]
        } else {
            &mut self.reference_data_ls[i as usize]
        }
    }

    /// The cached negative threshold of a key.
    pub fn get_nthr_key_register(&self, key: &Key) -> (r: &u8)
        ensures
            *r == self.nthr_key[key.idx()],
    {
        let i = key.index();
        &self.nthr_key[i as usize]
    }

    /// Mutable access to the cached negative threshold of a key.
    pub fn get_nthr_key_register_mut(&mut self, key: &Key) -> (r: &mut u8)
        ensures
            *r == old(self).nthr_key[key.idx()],
            *final(self) == (RegisterMap {
                nthr_key: vstd::array::spec_array_update(
                    old(self).nthr_key,
                    key.idx(),
                    *final(r),
                ),
                ..*old(self)
            }),
    {
        let i = key.index();
        &mut self.nthr_key[i as usize]
    }

    /// The cached averaging factor and suppression group of a key.
    pub fn get_ave_aks_key_register(&self, key: &Key) -> (r: &AveAks)
        ensures
            *r == self.ave_aks_key[key.idx()],
    {
        let i = key.index();
        &self.ave_aks_key[i as usize]
    }

    /// Mutable access to the cached averaging factor and suppression
    /// group of a key.
    pub fn get_ave_aks_key_register_mut(&mut self, key: &Key) -> (r: &mut AveAks)
        ensures
            *r == old(self).ave_aks_key[key.idx()],
            *final(self) == (RegisterMap {
                ave_aks_key: vstd::array::spec_array_update(
                    old(self).ave_aks_key,
                    key.idx(),
                    *final(r),
                ),
                ..*old(self)
            }),
    {
        let i = key.index();
        &mut self.ave_aks_key[i as usize]
    }

    /// The cached detection integrator count of a key.
    pub fn get_di_key_register(&self, key: &Key) -> (r: &u8)
        ensures
            *r == self.di_key[key.idx()],
    {
        let i = key.index();
        &self.di_key[i as usize]
    }

    /// Mutable access to the cached detection integrator count of a key.
    pub fn get_di_key_register_mut(&mut self, key: &Key) -> (r: &mut u8)
        ensures
            *r == old(self).di_key[key.idx()],
            *final(self) == (RegisterMap {
                di_key: vstd::array::spec_array_update(old(self).di_key, key.idx(), *final(r)),
                ..*old(self)
            }),
    {
        let i = key.index();
        &mut self.di_key[i as usize]
    }

    /// Encode a logical register into the byte it would occupy on the
    /// device, for every register including the read-only ones.
    pub fn reg_as_byte(&self, reg: &Register) -> (r: u8)
        ensures
            r == self.reg_byte_spec(*reg),
    {
        match reg {
            Register::ChipID => self.chip_id.as_byte(),
            Register::FirmwareVersion => self.firmware_version,
            Register::DetectionStatus => self.detection_status.as_byte(),
            Register::KeyStatus => self.key_status.as_byte(),
            Register::KeySignalMs(key) => *self.get_key_signal_register(key, true),
            Register::KeySignalLs(key) => *self.get_key_signal_register(key, false),
            Register::ReferenceDataMs(key) => *self.get_reference_data_register(key, true),
            Register::ReferenceDataLs(key) => *self.get_reference_data_register(key, false),
            Register::NthrKey(key) => *self.get_nthr_key_register(key),
            Register::AveAksKey(key) => self.get_ave_aks_key_register(key).as_byte(),
            Register::DIKey(key) => *self.get_di_key_register(key),
            Register::FoMcGuard => self.fo_mc_guard.as_byte(),
            Register::LowPowerMode => self.low_power_mode.as_byte(),
            Register::MaxOnDuration => self.max_on_duration.as_byte(),
            Register::Calibrate => self.calibrate,
            Register::Reset => self.reset,
        }
    }

    /// Decode a raw byte into a logical register, replacing exactly the
    /// fields that register addresses.
    pub fn decode(&mut self, reg: &Register, val: u8)
        ensures
            *final(self) == old(self).decoded_spec(*reg, val),
            old(self).wf() ==> final(self).wf(),
    {
        match reg {
            Register::ChipID => self.chip_id.update(val),
            Register::FirmwareVersion => self.firmware_version = val,
            Register::DetectionStatus => self.detection_status.update(val),
            Register::KeyStatus => self.key_status.update(val),
            Register::KeySignalMs(key) => {
                let i = key.index();
                self.key_signal_ms[i as usize] = val;
            },
            Register::KeySignalLs(key) => {
                let i = key.index();
                self.key_signal_ls[i as usize] = val;
            },
            Register::ReferenceDataMs(key) => {
                let i = key.index();
                self.reference_data_ms[i as usize] = val;
            },
            Register::ReferenceDataLs(key) => {
                let i = key.index();
                self.reference_data_ls[i as usize] = val;
            },
            Register::NthrKey(key) => {
                let i = key.index();
                self.nthr_key[i as usize] = val;
            },
            Register::AveAksKey(key) => {
                let i = key.index();
                let mut cell = self.ave_aks_key[i as usize];
                cell.update(val);
                self.ave_aks_key[i as usize] = cell;
                proof {
                    AveAks::lemma_from_byte_wf(val);
                }
            },
            Register::DIKey(key) => {
                let i = key.index();
                self.di_key[i as usize] = val;
            },
            Register::FoMcGuard => {
                self.fo_mc_guard.update(val);
                proof {
                    FastOutDiMaxCalGuardChannel::lemma_from_byte_wf(val);
                }
            },
            Register::LowPowerMode => self.low_power_mode.update(val),
            Register::MaxOnDuration => self.max_on_duration.update(val),
            Register::Calibrate => self.calibrate = val,
            Register::Reset => self.reset = val,
        }
        proof {
            if let Register::ChipID = reg {
                ChipId::lemma_from_byte_wf(val);
            }
        }
    }
}

impl RegisterMap {
    /// The map holds exactly the decoded image of a full 58-byte read of
    /// the register file: every field equals the decode of the byte at
    /// its register's address.
    pub open spec fn decoded_from(self, bytes: Seq<u8>) -> bool {
        &&& self.chip_id == ChipId::from_byte_spec(bytes[0x00])
        &&& self.firmware_version == bytes[0x01]
        &&& self.detection_status == DetectionStatus::from_byte_spec(bytes[0x02])
        &&& self.key_status == KeyStatus::from_byte_spec(bytes[0x03])
        &&& forall|k: int|
            0 <= k < 7 ==> #[trigger] self.key_signal_ms[k] == bytes[0x04 + 2 * k]
        &&& forall|k: int|
            0 <= k < 7 ==> #[trigger] self.key_signal_ls[k] == bytes[0x05 + 2 * k]
        &&& forall|k: int|
            0 <= k < 7 ==> #[trigger] self.reference_data_ms[k] == bytes[0x12 + 2 * k]
        &&& forall|k: int|
            0 <= k < 7 ==> #[trigger] self.reference_data_ls[k] == bytes[0x13 + 2 * k]
        &&& forall|k: int| 0 <= k < 7 ==> #[trigger] self.nthr_key[k] == bytes[0x20 + k]
        &&& forall|k: int|
            0 <= k < 7 ==> #[trigger] self.ave_aks_key[k] == AveAks::from_byte_spec(
                bytes[0x27 + k],
            )
        &&& forall|k: int| 0 <= k < 7 ==> #[trigger] self.di_key[k] == bytes[0x2E + k]
        &&& self.fo_mc_guard == FastOutDiMaxCalGuardChannel::from_byte_spec(bytes[0x35])
        &&& self.low_power_mode == LowPowerMode::from_byte_spec(bytes[0x36])
        &&& self.max_on_duration == MaxOnDuration::from_byte_spec(bytes[0x37])
        &&& self.calibrate == bytes[0x38]
        &&& self.reset == bytes[0x39]
    }

    /// Decode a full 58-byte read of the register file, in address order,
    /// replacing every field of the map.
    pub fn decode_all(&mut self, bytes: &Vec<u8>)
        requires
            bytes@.len() == REGISTER_COUNT as int,
        ensures
            final(self).decoded_from(bytes@),
            final(self).wf(),
    {
        self.chip_id.update(bytes[0x00]);
        self.firmware_version = bytes[0x01];
        self.detection_status.update(bytes[0x02]);
        self.key_status.update(bytes[0x03]);
        let mut i: usize = 0;
        while i < 7
            invariant
                i <= 7,
                bytes@.len() == REGISTER_COUNT as int,
                self.chip_id == ChipId::from_byte_spec(bytes@[0x00]),
                self.firmware_version == bytes@[0x01],
                self.detection_status == DetectionStatus::from_byte_spec(bytes@[0x02]),
                self.key_status == KeyStatus::from_byte_spec(bytes@[0x03]),
                forall|k: int|
                    0 <= k < i ==> #[trigger] self.key_signal_ms[k] == bytes@[0x04 + 2 * k],
                forall|k: int|
                    0 <= k < i ==> #[trigger] self.key_signal_ls[k] == bytes@[0x05 + 2 * k],
                forall|k: int|
                    0 <= k < i ==> #[trigger] self.reference_data_ms[k] == bytes@[0x12 + 2 * k],
                forall|k: int|
                    0 <= k < i ==> #[trigger] self.reference_data_ls[k] == bytes@[0x13 + 2 * k],
                forall|k: int| 0 <= k < i ==> #[trigger] self.nthr_key[k] == bytes@[0x20 + k],
                forall|k: int|
                    0 <= k < i ==> #[trigger] self.ave_aks_key[k] == AveAks::from_byte_spec(
                        bytes@[0x27 + k],
                    ),
                forall|k: int| 0 <= k < i ==> #[trigger] self.di_key[k] == bytes@[0x2E + k],
            decreases 7 - i,
        {
            self.key_signal_ms[i] = bytes[0x04 + 2 * i];
            self.key_signal_ls[i] = bytes[0x05 + 2 * i];
            self.reference_data_ms[i] = bytes[0x12 + 2 * i];
            self.reference_data_ls[i] = bytes[0x13 + 2 * i];
            self.nthr_key[i] = bytes[0x20 + i];
            let mut cell = self.ave_aks_key[i];
            cell.update(bytes[0x27 + i]);
            self.ave_aks_key[i] = cell;
            self.di_key[i] = bytes[0x2E + i];
            i += 1;
        }
        self.fo_mc_guard.update(bytes[0x35]);
        self.low_power_mode.update(bytes[0x36]);
        self.max_on_duration.update(bytes[0x37]);
        self.calibrate = bytes[0x38];
        self.reset = bytes[0x39];
        proof {
            ChipId::lemma_from_byte_wf(bytes@[0x00]);
            FastOutDiMaxCalGuardChannel::lemma_from_byte_wf(bytes@[0x35]);
            assert forall|k: int| 0 <= k < 7 implies #[trigger] self.ave_aks_key[k].wf() by {
                AveAks::lemma_from_byte_wf(bytes@[0x27 + k]);
            }
        }
    }
}

/// The byte's value survives one pass through the cache: decoding any
/// raw byte into any register and encoding that register back yields the
/// byte masked to the register's defined bits.
pub proof fn lemma_encode_after_decode_map(m: RegisterMap, reg: Register, val: u8)
    ensures
        m.decoded_spec(reg, val).reg_byte_spec(reg) == val & RegisterMap::reg_mask_spec(reg),
{
    match reg {
        Register::ChipID => ChipId::lemma_encode_after_decode(val),
        Register::DetectionStatus => DetectionStatus::lemma_encode_after_decode(val),
        Register::KeyStatus => KeyStatus::lemma_encode_after_decode(val),
        Register::AveAksKey(_) => AveAks::lemma_encode_after_decode(val),
        Register::FoMcGuard => FastOutDiMaxCalGuardChannel::lemma_encode_after_decode(val),
        Register::LowPowerMode => LowPowerMode::lemma_encode_after_decode(val),
        Register::MaxOnDuration => MaxOnDuration::lemma_encode_after_decode(val),
        _ => {
            assert(val & 0xFF == val) by (bit_vector);
        },
    }
}

/// A well-formed cache survives one pass through the device's byte
/// encoding: encoding any register and decoding the byte back leaves the
/// map unchanged (no information loss).
pub proof fn lemma_decode_after_encode_map(m: RegisterMap, reg: Register)
    requires
        m.wf(),
    ensures
        m.decoded_spec(reg, m.reg_byte_spec(reg)) == m,
{
    match reg {
        Register::ChipID => ChipId::lemma_decode_after_encode(m.chip_id),
        Register::DetectionStatus => DetectionStatus::lemma_decode_after_encode(
            m.detection_status,
        ),
        Register::KeyStatus => KeyStatus::lemma_decode_after_encode(m.key_status),
        Register::AveAksKey(k) => {
            AveAks::lemma_decode_after_encode(m.ave_aks_key[k.idx()]);
            assert(m.decoded_spec(reg, m.reg_byte_spec(reg)).ave_aks_key =~= m.ave_aks_key);
        },
        Register::FoMcGuard => FastOutDiMaxCalGuardChannel::lemma_decode_after_encode(
            m.fo_mc_guard,
        ),
        Register::LowPowerMode => LowPowerMode::lemma_decode_after_encode(m.low_power_mode),
        Register::MaxOnDuration => MaxOnDuration::lemma_decode_after_encode(m.max_on_duration),
        Register::KeySignalMs(k) => {
            assert(m.decoded_spec(reg, m.reg_byte_spec(reg)).key_signal_ms =~= m.key_signal_ms);
        },
        Register::KeySignalLs(k) => {
            assert(m.decoded_spec(reg, m.reg_byte_spec(reg)).key_signal_ls =~= m.key_signal_ls);
        },
        Register::ReferenceDataMs(k) => {
            assert(m.decoded_spec(reg, m.reg_byte_spec(reg)).reference_data_ms
                =~= m.reference_data_ms);
        },
        Register::ReferenceDataLs(k) => {
            assert(m.decoded_spec(reg, m.reg_byte_spec(reg)).reference_data_ls
                =~= m.reference_data_ls);
        },
        Register::NthrKey(k) => {
            assert(m.decoded_spec(reg, m.reg_byte_spec(reg)).nthr_key =~= m.nthr_key);
        },
        Register::DIKey(k) => {
            assert(m.decoded_spec(reg, m.reg_byte_spec(reg)).di_key =~= m.di_key);
        },
        _ => {},
    }
}

/// Writing a new averaging factor through the shared byte, with the
/// suppression group taken from the cache, leaves the suppression group
/// as it was and stores the new averaging factor exactly.
pub proof fn lemma_set_ave_keeps_aks(m: RegisterMap, k: Key, new_ave: u8)
    requires
        m.wf(),
        new_ave < 0x40,
    ensures
        ({
            let packed = AveAks { ave: new_ave, aks: m.ave_aks_key[k.idx()].aks };
            let stored = m.decoded_spec(
                Register::AveAksKey(k),
                packed.byte_spec(),
            ).ave_aks_key[k.idx()];
            stored.ave == new_ave && stored.aks == m.ave_aks_key[k.idx()].aks
        }),
{
    AveAks::lemma_decode_after_encode(AveAks { ave: new_ave, aks: m.ave_aks_key[k.idx()].aks });
}

/// Writing a new suppression group through the shared byte, with the
/// averaging factor taken from the cache, leaves the averaging factor as
/// it was and stores the new suppression group exactly.
pub proof fn lemma_set_aks_keeps_ave(m: RegisterMap, k: Key, new_aks: u8)
    requires
        m.wf(),
        new_aks < 0x04,
    ensures
        ({
            let packed = AveAks { ave: m.ave_aks_key[k.idx()].ave, aks: new_aks };
            let stored = m.decoded_spec(
                Register::AveAksKey(k),
                packed.byte_spec(),
            ).ave_aks_key[k.idx()];
            stored.aks == new_aks && stored.ave == m.ave_aks_key[k.idx()].ave
        }),
{
    AveAks::lemma_decode_after_encode(AveAks { ave: m.ave_aks_key[k.idx()].ave, aks: new_aks });
}

/// The three settings packed into the guard register byte never clobber
/// one another: each is stored and read back exactly.
pub proof fn lemma_fo_mc_guard_fields_exact(fast_out: bool, max_cal: bool, guard_channel: u8)
    requires
        guard_channel < 0x10,
    ensures
        FastOutDiMaxCalGuardChannel::from_byte_spec(
            FastOutDiMaxCalGuardChannel { fast_out, max_cal, guard_channel }.byte_spec(),
        ) == (FastOutDiMaxCalGuardChannel { fast_out, max_cal, guard_channel }),
{
    FastOutDiMaxCalGuardChannel::lemma_decode_after_encode(
        FastOutDiMaxCalGuardChannel { fast_out, max_cal, guard_channel },
    );
}

/// Whatever the identity bits of a byte, masking with the full byte
/// keeps it.
proof fn lemma_full_mask_keeps_byte(v: u8)
    by (bit_vector)
    ensures
        v & 0xFF == v,
{
}

/// A full-map decode agrees with the per-register view: after decoding a
/// 58-byte image, every register re-encodes to the image's byte at that
/// register's address, masked to the register's defined bits.
pub proof fn lemma_decoded_from_agrees_per_register(m: RegisterMap, bytes: Seq<u8>, reg: Register)
    requires
        bytes.len() == REGISTER_COUNT as int,
        m.decoded_from(bytes),
    ensures
        m.reg_byte_spec(reg) == bytes[RegisterMap::addr_spec(reg)]
            & RegisterMap::reg_mask_spec(reg),
{
    let addr = RegisterMap::addr_spec(reg);
    match reg {
        Register::ChipID => ChipId::lemma_encode_after_decode(bytes[addr]),
        Register::DetectionStatus => DetectionStatus::lemma_encode_after_decode(bytes[addr]),
        Register::KeyStatus => KeyStatus::lemma_encode_after_decode(bytes[addr]),
        Register::AveAksKey(_) => AveAks::lemma_encode_after_decode(bytes[addr]),
        Register::FoMcGuard => FastOutDiMaxCalGuardChannel::lemma_encode_after_decode(
            bytes[addr],
        ),
        Register::LowPowerMode => LowPowerMode::lemma_encode_after_decode(bytes[addr]),
        Register::MaxOnDuration => MaxOnDuration::lemma_encode_after_decode(bytes[addr]),
        _ => lemma_full_mask_keeps_byte(bytes[addr]),
    }
}

/// A 58-byte image decodes to exactly one map: full synchronization
/// loses nothing and leaves nothing undetermined.
pub proof fn lemma_decoded_from_unique(m1: RegisterMap, m2: RegisterMap, bytes: Seq<u8>)
    requires
        bytes.len() == REGISTER_COUNT as int,
        m1.decoded_from(bytes),
        m2.decoded_from(bytes),
    ensures
        m1 == m2,
{
    assert(m1.key_signal_ms =~= m2.key_signal_ms);
    assert(m1.key_signal_ls =~= m2.key_signal_ls);
    assert(m1.reference_data_ms =~= m2.reference_data_ms);
    assert(m1.reference_data_ls =~= m2.reference_data_ls);
    assert(m1.nthr_key =~= m2.nthr_key);
    assert(m1.ave_aks_key =~= m2.ave_aks_key);
    assert(m1.di_key =~= m2.di_key);
}

/// The registers the device refuses to have written are exactly those in
/// the status block at the head of the register file, addresses below
/// 0x20: identity, firmware version, detection and key status, and the
/// per-key signal and reference data.
pub proof fn lemma_read_only_is_status_block(reg: Register)
    ensures
        reg.read_only_spec() <==> RegisterMap::addr_spec(reg) < 0x20,
{
}

} // verus!
