//! Register words of the DRV8323RS gate driver and the serial frames that carry them.
//!
//! A frame is a 16-bit word sent most significant byte first: a read flag (bit 15), the
//! register address (bits 14 to 11) and eleven data bits.
use vstd::prelude::*;

verus! {

/// The 16-bit word of a frame, most significant byte first.
pub open spec fn word_of(bytes: [u8; 2]) -> int {
    bytes[0] * 256 + bytes[1]
}

/// Bit `k` of `word`.
pub open spec fn bit(word: int, k: nat) -> bool {
    (word / vstd::arithmetic::power2::pow2(k) as int) % 2 == 1
}

/// `1` for `true`, `0` for `false`.
pub open spec fn flag(b: bool) -> int {
    if b {
        1
    } else {
        0
    }
}

/// The frame of `word`.
pub fn bytes_of(word: u16) -> (r: [u8; 2])
    ensures
        word_of(r) == word,
{
    [(word / 256) as u8, (word % 256) as u8]
}

/// The word of a frame.
pub fn word(bytes: [u8; 2]) -> (r: u16)
    ensures
        r == word_of(bytes),
{
    bytes[0] as u16 * 256 + bytes[1] as u16
}

/// Frame that asks for the register at `address`.
pub fn read_frame(address: u8) -> (r: [u8; 2])
    requires
        address < 16,
    ensures
        word_of(r) == 0x8000 + address * 2048,
{
    bytes_of(0x8000 + address as u16 * 2048)
}

/// Frame that writes the eleven data bits `data` to the register at `address`.
pub fn write_frame(address: u8, data: u16) -> (r: [u8; 2])
    requires
        address < 16,
        data < 2048,
    ensures
        word_of(r) == address * 2048 + data,
{
    bytes_of(address as u16 * 2048 + data)
}

/// The data bits of a reply frame.
pub fn reply_data(frame: [u8; 2]) -> (r: u16)
    ensures
        r == word_of(frame) % 2048,
{
    word(frame) % 2048
}

/// The DRV8323RS on a serial bus of type `T`.
pub struct Drv8323rs<T> {
    /// The bus
    spi: T,
}

impl<T> Drv8323rs<T> {
    /// The driver on `spi`.
    pub fn new(spi: T) -> (r: Self)
        ensures
            r.spec_bus() == spi,
    {
        Self { spi }
    }

    /// The bus.
    pub closed spec fn spec_bus(&self) -> T {
        self.spi
    }

    /// The bus, to carry frames.
    pub fn bus(&mut self) -> (r: &mut T)
        ensures
            *r == old(self).spec_bus(),
            final(self).spec_bus() == *final(r),
    {
        &mut self.spi
    }
}

/// PWM mode of the drive control register.
#[allow(non_camel_case_types)]
#[derive(Debug, Clone, Copy, PartialEq, Eq, Structural)]
pub enum PwmMode {
    /// 6x PWM mode
    _6x,
    /// 3x PWM mode
    _3x,
    /// 1x PWM mode
    _1x,
    /// Independent PWM mode
    Independent,
}

impl PwmMode {
    /// The 2-bit code of the setting.
    pub open spec fn spec_code(&self) -> int {
        match self {
            PwmMode::_6x => 0,
            PwmMode::_3x => 1,
            PwmMode::_1x => 2,
            PwmMode::Independent => 3,
        }
    }

    /// The 2-bit code of the setting.
    pub fn code(&self) -> (r: u16)
        ensures
            r == self.spec_code(),
            r < 4,
    {
        match self {
            PwmMode::_6x => 0,
            PwmMode::_3x => 1,
            PwmMode::_1x => 2,
            PwmMode::Independent => 3,
        }
    }
}

/// Write lock of the high- and low-side drive registers.
#[allow(non_camel_case_types)]
#[derive(Debug, Clone, Copy, PartialEq, Eq, Structural)]
pub enum Lock {
    /// Registers locked against writes
    Lock,
    /// Registers open to writes
    Unlock,
}

impl Lock {
    /// The 3-bit code of the setting.
    pub open spec fn spec_code(&self) -> int {
        match self {
            Lock::Lock => 6,
            Lock::Unlock => 3,
        }
    }

    /// The 3-bit code of the setting.
    pub fn code(&self) -> (r: u16)
        ensures
            r == self.spec_code(),
            r < 8,
    {
        match self {
            Lock::Lock => 6,
            Lock::Unlock => 3,
        }
    }
}

/// Peak gate source current, in mA.
#[allow(non_camel_case_types)]
#[derive(Debug, Clone, Copy, PartialEq, Eq, Structural)]
pub enum SourceCurrent {
    /// 10 mA
    _10,
    /// 30 mA
    _30,
    /// 60 mA
    _60,
    /// 80 mA
    _80,
    /// 120 mA
    _120,
    /// 140 mA
    _140,
    /// 170 mA
    _170,
    /// 190 mA
    _190,
    /// 260 mA
    _260,
    /// 330 mA
    _330,
    /// 370 mA
    _370,
    /// 440 mA
    _440,
    /// 570 mA
    _570,
    /// 680 mA
    _680,
    /// 820 mA
    _820,
    /// 1000 mA
    _1000,
}

impl SourceCurrent {
    /// The 4-bit code of the setting.
    pub open spec fn spec_code(&self) -> int {
        match self {
            SourceCurrent::_10 => 0,
            SourceCurrent::_30 => 1,
            SourceCurrent::_60 => 2,
            SourceCurrent::_80 => 3,
            SourceCurrent::_120 => 4,
            SourceCurrent::_140 => 5,
            SourceCurrent::_170 => 6,
            SourceCurrent::_190 => 7,
            SourceCurrent::_260 => 8,
            SourceCurrent::_330 => 9,
            SourceCurrent::_370 => 10,
            SourceCurrent::_440 => 11,
            SourceCurrent::_570 => 12,
            SourceCurrent::_680 => 13,
            SourceCurrent::_820 => 14,
            SourceCurrent::_1000 => 15,
        }
    }

    /// The 4-bit code of the setting.
    pub fn code(&self) -> (r: u16)
        ensures
            r == self.spec_code(),
            r < 16,
    {
        match self {
            SourceCurrent::_10 => 0,
            SourceCurrent::_30 => 1,
            SourceCurrent::_60 => 2,
            SourceCurrent::_80 => 3,
            SourceCurrent::_120 => 4,
            SourceCurrent::_140 => 5,
            SourceCurrent::_170 => 6,
            SourceCurrent::_190 => 7,
            SourceCurrent::_260 => 8,
            SourceCurrent::_330 => 9,
            SourceCurrent::_370 => 10,
            SourceCurrent::_440 => 11,
            SourceCurrent::_570 => 12,
            SourceCurrent::_680 => 13,
            SourceCurrent::_820 => 14,
            SourceCurrent::_1000 => 15,
        }
    }
}

/// Peak gate sink current, in mA.
#[allow(non_camel_case_types)]
#[derive(Debug, Clone, Copy, PartialEq, Eq, Structural)]
pub enum SinkCurrent {
    /// 20 mA
    _20,
    /// 60 mA
    _60,
    /// 120 mA
    _120,
    /// 160 mA
    _160,
    /// 240 mA
    _240,
    /// 280 mA
    _280,
    /// 340 mA
    _340,
    /// 380 mA
    _380,
    /// 520 mA
    _520,
    /// 660 mA
    _660,
    /// 740 mA
    _740,
    /// 880 mA
    _880,
    /// 1140 mA
    _1140,
    /// 1360 mA
    _1360,
    /// 1640 mA
    _1640,
    /// 2000 mA
    _2000,
}

impl SinkCurrent {
    /// The 4-bit code of the setting.
    pub open spec fn spec_code(&self) -> int {
        match self {
            SinkCurrent::_20 => 0,
            SinkCurrent::_60 => 1,
            SinkCurrent::_120 => 2,
            SinkCurrent::_160 => 3,
            SinkCurrent::_240 => 4,
            SinkCurrent::_280 => 5,
            SinkCurrent::_340 => 6,
            SinkCurrent::_380 => 7,
            SinkCurrent::_520 => 8,
            SinkCurrent::_660 => 9,
            SinkCurrent::_740 => 10,
            SinkCurrent::_880 => 11,
            SinkCurrent::_1140 => 12,
            SinkCurrent::_1360 => 13,
            SinkCurrent::_1640 => 14,
            SinkCurrent::_2000 => 15,
        }
    }

    /// The 4-bit code of the setting.
    pub fn code(&self) -> (r: u16)
        ensures
            r == self.spec_code(),
            r < 16,
    {
        match self {
            SinkCurrent::_20 => 0,
            SinkCurrent::_60 => 1,
            SinkCurrent::_120 => 2,
            SinkCurrent::_160 => 3,
            SinkCurrent::_240 => 4,
            SinkCurrent::_280 => 5,
            SinkCurrent::_340 => 6,
            SinkCurrent::_380 => 7,
            SinkCurrent::_520 => 8,
            SinkCurrent::_660 => 9,
            SinkCurrent::_740 => 10,
            SinkCurrent::_880 => 11,
            SinkCurrent::_1140 => 12,
            SinkCurrent::_1360 => 13,
            SinkCurrent::_1640 => 14,
            SinkCurrent::_2000 => 15,
        }
    }
}

/// Peak gate-current drive time, in ns.
#[allow(non_camel_case_types)]
#[derive(Debug, Clone, Copy, PartialEq, Eq, Structural)]
pub enum TDrive {
    /// 500 ns
    _500,
    /// 1000 ns
    _1000,
    /// 2000 ns
    _2000,
    /// 4000 ns
    _4000,
}

impl TDrive {
    /// The 2-bit code of the setting.
    pub open spec fn spec_code(&self) -> int {
        match self {
            TDrive::_500 => 0,
            TDrive::_1000 => 1,
            TDrive::_2000 => 2,
            TDrive::_4000 => 3,
        }
    }

    /// The 2-bit code of the setting.
    pub fn code(&self) -> (r: u16)
        ensures
            r == self.spec_code(),
            r < 4,
    {
        match self {
            TDrive::_500 => 0,
            TDrive::_1000 => 1,
            TDrive::_2000 => 2,
            TDrive::_4000 => 3,
        }
    }
}

/// Retry time after an over-current fault.
#[allow(non_camel_case_types)]
#[derive(Debug, Clone, Copy, PartialEq, Eq, Structural)]
pub enum TRetry {
    /// 4 ms
    _4ms,
    /// 50 us
    _50us,
}

impl TRetry {
    /// The 1-bit code of the setting.
    pub open spec fn spec_code(&self) -> int {
        match self {
            TRetry::_4ms => 0,
            TRetry::_50us => 1,
        }
    }

    /// The 1-bit code of the setting.
    pub fn code(&self) -> (r: u16)
        ensures
            r == self.spec_code(),
            r < 2,
    {
        match self {
            TRetry::_4ms => 0,
            TRetry::_50us => 1,
        }
    }
}

/// Dead time between high- and low-side switching, in ns.
#[allow(non_camel_case_types)]
#[derive(Debug, Clone, Copy, PartialEq, Eq, Structural)]
pub enum DeadTime {
    /// 50 ns
    _50,
    /// 100 ns
    _100,
    /// 200 ns
    _200,
    /// 400 ns
    _400,
}

impl DeadTime {
    /// The 2-bit code of the setting.
    pub open spec fn spec_code(&self) -> int {
        match self {
            DeadTime::_50 => 0,
            DeadTime::_100 => 1,
            DeadTime::_200 => 2,
            DeadTime::_400 => 3,
        }
    }

    /// The 2-bit code of the setting.
    pub fn code(&self) -> (r: u16)
        ensures
            r == self.spec_code(),
            r < 4,
    {
        match self {
            DeadTime::_50 => 0,
            DeadTime::_100 => 1,
            DeadTime::_200 => 2,
            DeadTime::_400 => 3,
        }
    }
}

/// Response to an over-current event.
#[allow(non_camel_case_types)]
#[derive(Debug, Clone, Copy, PartialEq, Eq, Structural)]
pub enum OcpMode {
    /// Latched shutdown
    Latched,
    /// Automatic retry
    AutoRetry,
    /// Report only
    Report,
    /// No action
    Ignore,
}

impl OcpMode {
    /// The 2-bit code of the setting.
    pub open spec fn spec_code(&self) -> int {
        match self {
            OcpMode::Latched => 0,
            OcpMode::AutoRetry => 1,
            OcpMode::Report => 2,
            OcpMode::Ignore => 3,
        }
    }

    /// The 2-bit code of the setting.
    pub fn code(&self) -> (r: u16)
        ensures
            r == self.spec_code(),
            r < 4,
    {
        match self {
            OcpMode::Latched => 0,
            OcpMode::AutoRetry => 1,
            OcpMode::Report => 2,
            OcpMode::Ignore => 3,
        }
    }
}

/// Over-current deglitch time, in us.
#[allow(non_camel_case_types)]
#[derive(Debug, Clone, Copy, PartialEq, Eq, Structural)]
pub enum DeglitchTime {
    /// 2 us
    _2,
    /// 4 us
    _4,
    /// 6 us
    _6,
    /// 8 us
    _8,
}

impl DeglitchTime {
    /// The 2-bit code of the setting.
    pub open spec fn spec_code(&self) -> int {
        match self {
            DeglitchTime::_2 => 0,
            DeglitchTime::_4 => 1,
            DeglitchTime::_6 => 2,
            DeglitchTime::_8 => 3,
        }
    }

    /// The 2-bit code of the setting.
    pub fn code(&self) -> (r: u16)
        ensures
            r == self.spec_code(),
            r < 4,
    {
        match self {
            DeglitchTime::_2 => 0,
            DeglitchTime::_4 => 1,
            DeglitchTime::_6 => 2,
            DeglitchTime::_8 => 3,
        }
    }
}

/// VDS over-current trip level, in V.
#[allow(non_camel_case_types)]
#[derive(Debug, Clone, Copy, PartialEq, Eq, Structural)]
pub enum VdsLevel {
    /// 0.06 V
    _0_06,
    /// 0.13 V
    _0_13,
    /// 0.20 V
    _0_20,
    /// 0.26 V
    _0_26,
    /// 0.31 V
    _0_31,
    /// 0.45 V
    _0_45,
    /// 0.53 V
    _0_53,
    /// 0.60 V
    _0_60,
    /// 0.68 V
    _0_68,
    /// 0.75 V
    _0_75,
    /// 0.94 V
    _0_94,
    /// 1.13 V
    _1_13,
    /// 1.30 V
    _1_30,
    /// 1.50 V
    _1_50,
    /// 1.70 V
    _1_70,
    /// 1.88 V
    _1_88,
}

impl VdsLevel {
    /// The 4-bit code of the setting.
    pub open spec fn spec_code(&self) -> int {
        match self {
            VdsLevel::_0_06 => 0,
            VdsLevel::_0_13 => 1,
            VdsLevel::_0_20 => 2,
            VdsLevel::_0_26 => 3,
            VdsLevel::_0_31 => 4,
            VdsLevel::_0_45 => 5,
            VdsLevel::_0_53 => 6,
            VdsLevel::_0_60 => 7,
            VdsLevel::_0_68 => 8,
            VdsLevel::_0_75 => 9,
            VdsLevel::_0_94 => 10,
            VdsLevel::_1_13 => 11,
            VdsLevel::_1_30 => 12,
            VdsLevel::_1_50 => 13,
            VdsLevel::_1_70 => 14,
            VdsLevel::_1_88 => 15,
        }
    }

    /// The 4-bit code of the setting.
    pub fn code(&self) -> (r: u16)
        ensures
            r == self.spec_code(),
            r < 16,
    {
        match self {
            VdsLevel::_0_06 => 0,
            VdsLevel::_0_13 => 1,
            VdsLevel::_0_20 => 2,
            VdsLevel::_0_26 => 3,
            VdsLevel::_0_31 => 4,
            VdsLevel::_0_45 => 5,
            VdsLevel::_0_53 => 6,
            VdsLevel::_0_60 => 7,
            VdsLevel::_0_68 => 8,
            VdsLevel::_0_75 => 9,
            VdsLevel::_0_94 => 10,
            VdsLevel::_1_13 => 11,
            VdsLevel::_1_30 => 12,
            VdsLevel::_1_50 => 13,
            VdsLevel::_1_70 => 14,
            VdsLevel::_1_88 => 15,
        }
    }
}

/// Current-sense amplifier gain, in V/V.
#[allow(non_camel_case_types)]
#[derive(Debug, Clone, Copy, PartialEq, Eq, Structural)]
pub enum CsaGain {
    /// 5 V/V
    _5,
    /// 10 V/V
    _10,
    /// 20 V/V
    _20,
    /// 40 V/V
    _40,
}

impl CsaGain {
    /// The 2-bit code of the setting.
    pub open spec fn spec_code(&self) -> int {
        match self {
            CsaGain::_5 => 0,
            CsaGain::_10 => 1,
            CsaGain::_20 => 2,
            CsaGain::_40 => 3,
        }
    }

    /// The 2-bit code of the setting.
    pub fn code(&self) -> (r: u16)
        ensures
            r == self.spec_code(),
            r < 4,
    {
        match self {
            CsaGain::_5 => 0,
            CsaGain::_10 => 1,
            CsaGain::_20 => 2,
            CsaGain::_40 => 3,
        }
    }
}

/// Sense over-current trip level, in V.
#[allow(non_camel_case_types)]
#[derive(Debug, Clone, Copy, PartialEq, Eq, Structural)]
pub enum SenLevel {
    /// 0.25 V
    _0_25,
    /// 0.50 V
    _0_50,
    /// 0.75 V
    _0_75,
    /// 1.00 V
    _1_00,
}

impl SenLevel {
    /// The 2-bit code of the setting.
    pub open spec fn spec_code(&self) -> int {
        match self {
            SenLevel::_0_25 => 0,
            SenLevel::_0_50 => 1,
            SenLevel::_0_75 => 2,
            SenLevel::_1_00 => 3,
        }
    }

    /// The 2-bit code of the setting.
    pub fn code(&self) -> (r: u16)
        ensures
            r == self.spec_code(),
            r < 4,
    {
        match self {
            SenLevel::_0_25 => 0,
            SenLevel::_0_50 => 1,
            SenLevel::_0_75 => 2,
            SenLevel::_1_00 => 3,
        }
    }
}

/// Drive control register.
#[derive(Debug, Clone, Copy, PartialEq, Eq, Structural)]
pub struct DriveControl {
    /// Charge pump under-voltage fault disable
    pub dis_cpuv: bool,
    /// Gate drive fault disable
    pub dis_gdf: bool,
    /// Over-temperature warning reporting
    pub otw_rep: bool,
    /// PWM mode
    pub pwm_mode: PwmMode,
    /// Asynchronous rectification in 1x PWM mode
    pub single_pwm_com: bool,
    /// Direction bit in 1x PWM mode
    pub single_pwm_dir: bool,
    /// All MOSFETs in Hi-Z
    pub coast: bool,
    /// All low-side MOSFETs on
    pub brake: bool,
    /// Clear latched fault bits
    pub clr_flt: bool,
}

impl DriveControl {
    /// Register address.
    pub const ADDRESS: u8 = 2;

    /// The eleven data bits of the register.
    pub open spec fn spec_data(&self) -> int {
        flag(self.dis_cpuv) * 512
            + flag(self.dis_gdf) * 256
            + flag(self.otw_rep) * 128
            + self.pwm_mode.spec_code() * 32
            + flag(self.single_pwm_com) * 16
            + flag(self.single_pwm_dir) * 8
            + flag(self.coast) * 4
            + flag(self.brake) * 2
            + flag(self.clr_flt) * 1
    }

    /// The register with every field cleared.
    pub fn new() -> (r: Self)
        ensures
            r.spec_data() == 0,
    {
        Self {
            dis_cpuv: false,
            dis_gdf: false,
            otw_rep: false,
            pwm_mode: PwmMode::_6x,
            single_pwm_com: false,
            single_pwm_dir: false,
            coast: false,
            brake: false,
            clr_flt: false,
        }
    }

    /// The register with `dis_cpuv` set to `value`.
    pub fn with_dis_cpuv(self, value: bool) -> (r: Self)
        ensures
            r == (Self { dis_cpuv: value, ..self }),
    {
        Self { dis_cpuv: value, ..self }
    }

    /// The register with `dis_gdf` set to `value`.
    pub fn with_dis_gdf(self, value: bool) -> (r: Self)
        ensures
            r == (Self { dis_gdf: value, ..self }),
    {
        Self { dis_gdf: value, ..self }
    }

    /// The register with `otw_rep` set to `value`.
    pub fn with_otw_rep(self, value: bool) -> (r: Self)
        ensures
            r == (Self { otw_rep: value, ..self }),
    {
        Self { otw_rep: value, ..self }
    }

    /// The register with `pwm_mode` set to `value`.
    pub fn with_pwm_mode(self, value: PwmMode) -> (r: Self)
        ensures
            r == (Self { pwm_mode: value, ..self }),
    {
        Self { pwm_mode: value, ..self }
    }

    /// The register with `single_pwm_com` set to `value`.
    pub fn with_single_pwm_com(self, value: bool) -> (r: Self)
        ensures
            r == (Self { single_pwm_com: value, ..self }),
    {
        Self { single_pwm_com: value, ..self }
    }

    /// The register with `single_pwm_dir` set to `value`.
    pub fn with_single_pwm_dir(self, value: bool) -> (r: Self)
        ensures
            r == (Self { single_pwm_dir: value, ..self }),
    {
        Self { single_pwm_dir: value, ..self }
    }

    /// The register with `coast` set to `value`.
    pub fn with_coast(self, value: bool) -> (r: Self)
        ensures
            r == (Self { coast: value, ..self }),
    {
        Self { coast: value, ..self }
    }

    /// The register with `brake` set to `value`.
    pub fn with_brake(self, value: bool) -> (r: Self)
        ensures
            r == (Self { brake: value, ..self }),
    {
        Self { brake: value, ..self }
    }

    /// The register with `clr_flt` set to `value`.
    pub fn with_clr_flt(self, value: bool) -> (r: Self)
        ensures
            r == (Self { clr_flt: value, ..self }),
    {
        Self { clr_flt: value, ..self }
    }

    /// The eleven data bits of the register.
    pub fn data(&self) -> (r: u16)
        ensures
            r == self.spec_data(),
            r < 2048,
    {
        let dis_cpuv: u16 = if self.dis_cpuv {
            512
        } else {
            0
        };
        let dis_gdf: u16 = if self.dis_gdf {
            256
        } else {
            0
        };
        let otw_rep: u16 = if self.otw_rep {
            128
        } else {
            0
        };
        let pwm_mode: u16 = self.pwm_mode.code() * 32;
        let single_pwm_com: u16 = if self.single_pwm_com {
            16
        } else {
            0
        };
        let single_pwm_dir: u16 = if self.single_pwm_dir {
            8
        } else {
            0
        };
        let coast: u16 = if self.coast {
            4
        } else {
            0
        };
        let brake: u16 = if self.brake {
            2
        } else {
            0
        };
        let clr_flt: u16 = if self.clr_flt {
            1
        } else {
            0
        };
        dis_cpuv + dis_gdf + otw_rep + pwm_mode + single_pwm_com + single_pwm_dir + coast + brake + clr_flt
    }

    /// The register as a frame body, most significant byte first.
    pub fn into_bytes(&self) -> (r: [u8; 2])
        ensures
            word_of(r) == self.spec_data(),
    {
        bytes_of(self.data())
    }

    /// Frame that writes the register.
    pub fn write_frame(&self) -> (r: [u8; 2])
        ensures
            word_of(r) == Self::ADDRESS * 2048 + self.spec_data(),
    {
        write_frame(Self::ADDRESS, self.data())
    }
}

/// High-side gate drive register.
#[derive(Debug, Clone, Copy, PartialEq, Eq, Structural)]
pub struct GateHs {
    /// Register lock
    pub lock: Lock,
    /// High-side source current
    pub idrivep_hs: SourceCurrent,
    /// High-side sink current
    pub idriven_hs: SinkCurrent,
}

impl GateHs {
    /// Register address.
    pub const ADDRESS: u8 = 3;

    /// The eleven data bits of the register.
    pub open spec fn spec_data(&self) -> int {
        self.lock.spec_code() * 256
            + self.idrivep_hs.spec_code() * 16
            + self.idriven_hs.spec_code() * 1
    }

    /// The register with every field at its first setting: locked, lowest currents.
    pub fn new() -> (r: Self)
        ensures
            r.spec_data() == Lock::Lock.spec_code() * 256,
    {
        Self {
            lock: Lock::Lock,
            idrivep_hs: SourceCurrent::_10,
            idriven_hs: SinkCurrent::_20,
        }
    }

    /// The register with `lock` set to `value`.
    pub fn with_lock(self, value: Lock) -> (r: Self)
        ensures
            r == (Self { lock: value, ..self }),
    {
        Self { lock: value, ..self }
    }

    /// The register with `idrivep_hs` set to `value`.
    pub fn with_idrivep_hs(self, value: SourceCurrent) -> (r: Self)
        ensures
            r == (Self { idrivep_hs: value, ..self }),
    {
        Self { idrivep_hs: value, ..self }
    }

    /// The register with `idriven_hs` set to `value`.
    pub fn with_idriven_hs(self, value: SinkCurrent) -> (r: Self)
        ensures
            r == (Self { idriven_hs: value, ..self }),
    {
        Self { idriven_hs: value, ..self }
    }

    /// The eleven data bits of the register.
    pub fn data(&self) -> (r: u16)
        ensures
            r == self.spec_data(),
            r < 2048,
    {
        let lock: u16 = self.lock.code() * 256;
        let idrivep_hs: u16 = self.idrivep_hs.code() * 16;
        let idriven_hs: u16 = self.idriven_hs.code() * 1;
        lock + idrivep_hs + idriven_hs
    }

    /// The register as a frame body, most significant byte first.
    pub fn into_bytes(&self) -> (r: [u8; 2])
        ensures
            word_of(r) == self.spec_data(),
    {
        bytes_of(self.data())
    }

    /// Frame that writes the register.
    pub fn write_frame(&self) -> (r: [u8; 2])
        ensures
            word_of(r) == Self::ADDRESS * 2048 + self.spec_data(),
    {
        write_frame(Self::ADDRESS, self.data())
    }
}

/// Low-side gate drive register.
#[derive(Debug, Clone, Copy, PartialEq, Eq, Structural)]
pub struct GateLs {
    /// Cycle-by-cycle over-current clearing
    pub cbc: bool,
    /// Peak gate-current drive time
    pub t_drive: TDrive,
    /// Low-side source current
    pub idrivep_ls: SourceCurrent,
    /// Low-side sink current
    pub idriven_ls: SinkCurrent,
}

impl GateLs {
    /// Register address.
    pub const ADDRESS: u8 = 4;

    /// The eleven data bits of the register.
    pub open spec fn spec_data(&self) -> int {
        flag(self.cbc) * 1024
            + self.t_drive.spec_code() * 256
            + self.idrivep_ls.spec_code() * 16
            + self.idriven_ls.spec_code() * 1
    }

    /// The register with every field cleared.
    pub fn new() -> (r: Self)
        ensures
            r.spec_data() == 0,
    {
        Self {
            cbc: false,
            t_drive: TDrive::_500,
            idrivep_ls: SourceCurrent::_10,
            idriven_ls: SinkCurrent::_20,
        }
    }

    /// The register with `cbc` set to `value`.
    pub fn with_cbc(self, value: bool) -> (r: Self)
        ensures
            r == (Self { cbc: value, ..self }),
    {
        Self { cbc: value, ..self }
    }

    /// The register with `t_drive` set to `value`.
    pub fn with_t_drive(self, value: TDrive) -> (r: Self)
        ensures
            r == (Self { t_drive: value, ..self }),
    {
        Self { t_drive: value, ..self }
    }

    /// The register with `idrivep_ls` set to `value`.
    pub fn with_idrivep_ls(self, value: SourceCurrent) -> (r: Self)
        ensures
            r == (Self { idrivep_ls: value, ..self }),
    {
        Self { idrivep_ls: value, ..self }
    }

    /// The register with `idriven_ls` set to `value`.
    pub fn with_idriven_ls(self, value: SinkCurrent) -> (r: Self)
        ensures
            r == (Self { idriven_ls: value, ..self }),
    {
        Self { idriven_ls: value, ..self }
    }

    /// The eleven data bits of the register.
    pub fn data(&self) -> (r: u16)
        ensures
            r == self.spec_data(),
            r < 2048,
    {
        let cbc: u16 = if self.cbc {
            1024
        } else {
            0
        };
        let t_drive: u16 = self.t_drive.code() * 256;
        let idrivep_ls: u16 = self.idrivep_ls.code() * 16;
        let idriven_ls: u16 = self.idriven_ls.code() * 1;
        cbc + t_drive + idrivep_ls + idriven_ls
    }

    /// The register as a frame body, most significant byte first.
    pub fn into_bytes(&self) -> (r: [u8; 2])
        ensures
            word_of(r) == self.spec_data(),
    {
        bytes_of(self.data())
    }

    /// Frame that writes the register.
    pub fn write_frame(&self) -> (r: [u8; 2])
        ensures
            word_of(r) == Self::ADDRESS * 2048 + self.spec_data(),
    {
        write_frame(Self::ADDRESS, self.data())
    }
}

/// Over-current protection control register.
#[derive(Debug, Clone, Copy, PartialEq, Eq, Structural)]
pub struct OcpControl {
    /// Retry time
    pub t_retry: TRetry,
    /// Dead time
    pub dead_time: DeadTime,
    /// Over-current response
    pub ocp_mode: OcpMode,
    /// Deglitch time
    pub ocp_deg: DeglitchTime,
    /// VDS trip level
    pub vds_lvl: VdsLevel,
}

impl OcpControl {
    /// Register address.
    pub const ADDRESS: u8 = 5;

    /// The eleven data bits of the register.
    pub open spec fn spec_data(&self) -> int {
        self.t_retry.spec_code() * 1024
            + self.dead_time.spec_code() * 256
            + self.ocp_mode.spec_code() * 64
            + self.ocp_deg.spec_code() * 16
            + self.vds_lvl.spec_code() * 1
    }

    /// The register with every field cleared.
    pub fn new() -> (r: Self)
        ensures
            r.spec_data() == 0,
    {
        Self {
            t_retry: TRetry::_4ms,
            dead_time: DeadTime::_50,
            ocp_mode: OcpMode::Latched,
            ocp_deg: DeglitchTime::_2,
            vds_lvl: VdsLevel::_0_06,
        }
    }

    /// The register with `t_retry` set to `value`.
    pub fn with_t_retry(self, value: TRetry) -> (r: Self)
        ensures
            r == (Self { t_retry: value, ..self }),
    {
        Self { t_retry: value, ..self }
    }

    /// The register with `dead_time` set to `value`.
    pub fn with_dead_time(self, value: DeadTime) -> (r: Self)
        ensures
            r == (Self { dead_time: value, ..self }),
    {
        Self { dead_time: value, ..self }
    }

    /// The register with `ocp_mode` set to `value`.
    pub fn with_ocp_mode(self, value: OcpMode) -> (r: Self)
        ensures
            r == (Self { ocp_mode: value, ..self }),
    {
        Self { ocp_mode: value, ..self }
    }

    /// The register with `ocp_deg` set to `value`.
    pub fn with_ocp_deg(self, value: DeglitchTime) -> (r: Self)
        ensures
            r == (Self { ocp_deg: value, ..self }),
    {
        Self { ocp_deg: value, ..self }
    }

    /// The register with `vds_lvl` set to `value`.
    pub fn with_vds_lvl(self, value: VdsLevel) -> (r: Self)
        ensures
            r == (Self { vds_lvl: value, ..self }),
    {
        Self { vds_lvl: value, ..self }
    }

    /// The eleven data bits of the register.
    pub fn data(&self) -> (r: u16)
        ensures
            r == self.spec_data(),
            r < 2048,
    {
        let t_retry: u16 = self.t_retry.code() * 1024;
        let dead_time: u16 = self.dead_time.code() * 256;
        let ocp_mode: u16 = self.ocp_mode.code() * 64;
        let ocp_deg: u16 = self.ocp_deg.code() * 16;
        let vds_lvl: u16 = self.vds_lvl.code() * 1;
        t_retry + dead_time + ocp_mode + ocp_deg + vds_lvl
    }

    /// The register as a frame body, most significant byte first.
    pub fn into_bytes(&self) -> (r: [u8; 2])
        ensures
            word_of(r) == self.spec_data(),
    {
        bytes_of(self.data())
    }

    /// Frame that writes the register.
    pub fn write_frame(&self) -> (r: [u8; 2])
        ensures
            word_of(r) == Self::ADDRESS * 2048 + self.spec_data(),
    {
        write_frame(Self::ADDRESS, self.data())
    }
}

/// Current-sense amplifier control register.
#[derive(Debug, Clone, Copy, PartialEq, Eq, Structural)]
pub struct CsaControl {
    /// Amplifier positive input on the low-side MOSFET source
    pub csa_fet: bool,
    /// Reference voltage divided by two
    pub vref_div: bool,
    /// VDS measured across the low-side shunt
    pub ls_ref: bool,
    /// Amplifier gain
    pub csa_gain: CsaGain,
    /// Sense over-current fault disable
    pub dis_sen: bool,
    /// Phase A amplifier calibration
    pub csa_cal_a: bool,
    /// Phase B amplifier calibration
    pub csa_cal_b: bool,
    /// Phase C amplifier calibration
    pub csa_cal_c: bool,
    /// Sense trip level
    pub sen_lvl: SenLevel,
}

impl CsaControl {
    /// Register address.
    pub const ADDRESS: u8 = 6;

    /// The eleven data bits of the register.
    pub open spec fn spec_data(&self) -> int {
        flag(self.csa_fet) * 1024
            + flag(self.vref_div) * 512
            + flag(self.ls_ref) * 256
            + self.csa_gain.spec_code() * 64
            + flag(self.dis_sen) * 32
            + flag(self.csa_cal_a) * 16
            + flag(self.csa_cal_b) * 8
            + flag(self.csa_cal_c) * 4
            + self.sen_lvl.spec_code() * 1
    }

    /// The register with every field cleared.
    pub fn new() -> (r: Self)
        ensures
            r.spec_data() == 0,
    {
        Self {
            csa_fet: false,
            vref_div: false,
            ls_ref: false,
            csa_gain: CsaGain::_5,
            dis_sen: false,
            csa_cal_a: false,
            csa_cal_b: false,
            csa_cal_c: false,
            sen_lvl: SenLevel::_0_25,
        }
    }

    /// The register with `csa_fet` set to `value`.
    pub fn with_csa_fet(self, value: bool) -> (r: Self)
        ensures
            r == (Self { csa_fet: value, ..self }),
    {
        Self { csa_fet: value, ..self }
    }

    /// The register with `vref_div` set to `value`.
    pub fn with_vref_div(self, value: bool) -> (r: Self)
        ensures
            r == (Self { vref_div: value, ..self }),
    {
        Self { vref_div: value, ..self }
    }

    /// The register with `ls_ref` set to `value`.
    pub fn with_ls_ref(self, value: bool) -> (r: Self)
        ensures
            r == (Self { ls_ref: value, ..self }),
    {
        Self { ls_ref: value, ..self }
    }

    /// The register with `csa_gain` set to `value`.
    pub fn with_csa_gain(self, value: CsaGain) -> (r: Self)
        ensures
            r == (Self { csa_gain: value, ..self }),
    {
        Self { csa_gain: value, ..self }
    }

    /// The register with `dis_sen` set to `value`.
    pub fn with_dis_sen(self, value: bool) -> (r: Self)
        ensures
            r == (Self { dis_sen: value, ..self }),
    {
        Self { dis_sen: value, ..self }
    }

    /// The register with `csa_cal_a` set to `value`.
    pub fn with_csa_cal_a(self, value: bool) -> (r: Self)
        ensures
            r == (Self { csa_cal_a: value, ..self }),
    {
        Self { csa_cal_a: value, ..self }
    }

    /// The register with `csa_cal_b` set to `value`.
    pub fn with_csa_cal_b(self, value: bool) -> (r: Self)
        ensures
            r == (Self { csa_cal_b: value, ..self }),
    {
        Self { csa_cal_b: value, ..self }
    }

    /// The register with `csa_cal_c` set to `value`.
    pub fn with_csa_cal_c(self, value: bool) -> (r: Self)
        ensures
            r == (Self { csa_cal_c: value, ..self }),
    {
        Self { csa_cal_c: value, ..self }
    }

    /// The register with `sen_lvl` set to `value`.
    pub fn with_sen_lvl(self, value: SenLevel) -> (r: Self)
        ensures
            r == (Self { sen_lvl: value, ..self }),
    {
        Self { sen_lvl: value, ..self }
    }

    /// The eleven data bits of the register.
    pub fn data(&self) -> (r: u16)
        ensures
            r == self.spec_data(),
            r < 2048,
    {
        let csa_fet: u16 = if self.csa_fet {
            1024
        } else {
            0
        };
        let vref_div: u16 = if self.vref_div {
            512
        } else {
            0
        };
        let ls_ref: u16 = if self.ls_ref {
            256
        } else {
            0
        };
        let csa_gain: u16 = self.csa_gain.code() * 64;
        let dis_sen: u16 = if self.dis_sen {
            32
        } else {
            0
        };
        let csa_cal_a: u16 = if self.csa_cal_a {
            16
        } else {
            0
        };
        let csa_cal_b: u16 = if self.csa_cal_b {
            8
        } else {
            0
        };
        let csa_cal_c: u16 = if self.csa_cal_c {
            4
        } else {
            0
        };
        let sen_lvl: u16 = self.sen_lvl.code() * 1;
        csa_fet + vref_div + ls_ref + csa_gain + dis_sen + csa_cal_a + csa_cal_b + csa_cal_c + sen_lvl
    }

    /// The register as a frame body, most significant byte first.
    pub fn into_bytes(&self) -> (r: [u8; 2])
        ensures
            word_of(r) == self.spec_data(),
    {
        bytes_of(self.data())
    }

    /// Frame that writes the register.
    pub fn write_frame(&self) -> (r: [u8; 2])
        ensures
            word_of(r) == Self::ADDRESS * 2048 + self.spec_data(),
    {
        write_frame(Self::ADDRESS, self.data())
    }
}

/// Fault status register 1.
#[derive(Debug, Clone, Copy, PartialEq, Eq, Structural)]
pub struct Status1 {
    /// Logic OR of the fault bits; mirrors nFAULT
    pub fault: bool,
    /// VDS over-current fault
    pub vds_ocp: bool,
    /// Gate drive fault
    pub gdf: bool,
    /// Under-voltage lockout
    pub uvlo: bool,
    /// Over-temperature shutdown
    pub otsd: bool,
    /// VDS over-current on the A high-side MOSFET
    pub vds_ha: bool,
    /// VDS over-current on the A low-side MOSFET
    pub vds_la: bool,
    /// VDS over-current on the B high-side MOSFET
    pub vds_hb: bool,
    /// VDS over-current on the B low-side MOSFET
    pub vds_lb: bool,
    /// VDS over-current on the C high-side MOSFET
    pub vds_hc: bool,
    /// VDS over-current on the C low-side MOSFET
    pub vds_lc: bool,
}

impl Status1 {
    /// Register address.
    pub const ADDRESS: u8 = 0;

    /// Frame that asks for the register.
    pub fn read_frame() -> (r: [u8; 2])
        ensures
            word_of(r) == 0x8000 + Self::ADDRESS * 2048,
    {
        read_frame(Self::ADDRESS)
    }

    /// The fault bits of a reply frame; bit 10 is the first field, bit 0 the last.
    pub fn from_bytes(bytes: [u8; 2]) -> (r: Self)
        ensures
            r.fault == bit(word_of(bytes), 10),
            r.vds_ocp == bit(word_of(bytes), 9),
            r.gdf == bit(word_of(bytes), 8),
            r.uvlo == bit(word_of(bytes), 7),
            r.otsd == bit(word_of(bytes), 6),
            r.vds_ha == bit(word_of(bytes), 5),
            r.vds_la == bit(word_of(bytes), 4),
            r.vds_hb == bit(word_of(bytes), 3),
            r.vds_lb == bit(word_of(bytes), 2),
            r.vds_hc == bit(word_of(bytes), 1),
            r.vds_lc == bit(word_of(bytes), 0),
    {
        let w = word(bytes);
        proof {
            vstd::arithmetic::power2::lemma2_to64();
        }
        Self {
            fault: (w / 1024) % 2 == 1,
            vds_ocp: (w / 512) % 2 == 1,
            gdf: (w / 256) % 2 == 1,
            uvlo: (w / 128) % 2 == 1,
            otsd: (w / 64) % 2 == 1,
            vds_ha: (w / 32) % 2 == 1,
            vds_la: (w / 16) % 2 == 1,
            vds_hb: (w / 8) % 2 == 1,
            vds_lb: (w / 4) % 2 == 1,
            vds_hc: (w / 2) % 2 == 1,
            vds_lc: (w / 1) % 2 == 1,
        }
    }
}

/// Fault status register 2.
#[derive(Debug, Clone, Copy, PartialEq, Eq, Structural)]
pub struct Status2 {
    /// Over-current on the phase A sense amplifier
    pub sa_oc: bool,
    /// Over-current on the phase B sense amplifier
    pub sb_oc: bool,
    /// Over-current on the phase C sense amplifier
    pub sc_oc: bool,
    /// Over-temperature warning
    pub otw: bool,
    /// Charge pump under-voltage
    pub cp_uv: bool,
    /// Gate drive fault on the A high-side MOSFET
    pub vgs_ha: bool,
    /// Gate drive fault on the A low-side MOSFET
    pub vgs_la: bool,
    /// Gate drive fault on the B high-side MOSFET
    pub vgs_hb: bool,
    /// Gate drive fault on the B low-side MOSFET
    pub vgs_lb: bool,
    /// Gate drive fault on the C high-side MOSFET
    pub vgs_hc: bool,
    /// Gate drive fault on the C low-side MOSFET
    pub vgs_lc: bool,
}

impl Status2 {
    /// Register address.
    pub const ADDRESS: u8 = 1;

    /// Frame that asks for the register.
    pub fn read_frame() -> (r: [u8; 2])
        ensures
            word_of(r) == 0x8000 + Self::ADDRESS * 2048,
    {
        read_frame(Self::ADDRESS)
    }

    /// The fault bits of a reply frame; bit 10 is the first field, bit 0 the last.
    pub fn from_bytes(bytes: [u8; 2]) -> (r: Self)
        ensures
            r.sa_oc == bit(word_of(bytes), 10),
            r.sb_oc == bit(word_of(bytes), 9),
            r.sc_oc == bit(word_of(bytes), 8),
            r.otw == bit(word_of(bytes), 7),
            r.cp_uv == bit(word_of(bytes), 6),
            r.vgs_ha == bit(word_of(bytes), 5),
            r.vgs_la == bit(word_of(bytes), 4),
            r.vgs_hb == bit(word_of(bytes), 3),
            r.vgs_lb == bit(word_of(bytes), 2),
            r.vgs_hc == bit(word_of(bytes), 1),
            r.vgs_lc == bit(word_of(bytes), 0),
    {
        let w = word(bytes);
        proof {
            vstd::arithmetic::power2::lemma2_to64();
        }
        Self {
            sa_oc: (w / 1024) % 2 == 1,
            sb_oc: (w / 512) % 2 == 1,
            sc_oc: (w / 256) % 2 == 1,
            otw: (w / 128) % 2 == 1,
            cp_uv: (w / 64) % 2 == 1,
            vgs_ha: (w / 32) % 2 == 1,
            vgs_la: (w / 16) % 2 == 1,
            vgs_hb: (w / 8) % 2 == 1,
            vgs_lb: (w / 4) % 2 == 1,
            vgs_hc: (w / 2) % 2 == 1,
            vgs_lc: (w / 1) % 2 == 1,
        }
    }
}

/// Reads of the current-sense register that the start-up health check makes.
pub const DRV_INIT_READS: u32 = 10000;

/// Word that the current-sense amplifier control register holds after power-up.
pub const CSA_CONTROL_RESET: u16 = 0x0283;

/// Tally of the start-up health check: the current-sense amplifier control register is
/// read many times and each reply must hold its power-up value.
pub struct DriverCheck {
    /// Replies seen
    reads: u32,
    /// Replies that differed from the power-up value
    failures: u32,
}

impl DriverCheck {
    /// Replies seen.
    pub closed spec fn spec_reads(&self) -> int {
        self.reads as int
    }

    /// Replies that differed from the power-up value.
    pub closed spec fn spec_failures(&self) -> int {
        self.failures as int
    }

    /// No failure can outnumber the replies.
    pub open spec fn wf(&self) -> bool {
        self.spec_failures() <= self.spec_reads()
    }

    /// A check with no reply seen.
    pub fn new() -> (r: Self)
        ensures
            r.wf(),
            r.spec_reads() == 0,
            r.spec_failures() == 0,
    {
        Self { reads: 0, failures: 0 }
    }

    /// Whether more replies are wanted.
    pub fn wants_more(&self) -> (r: bool)
        ensures
            r == (self.spec_reads() < DRV_INIT_READS),
    {
        self.reads < DRV_INIT_READS
    }

    /// Counts one reply to a read of the current-sense amplifier control register.
    pub fn record(&mut self, reply: [u8; 2])
        requires
            old(self).wf(),
            old(self).spec_reads() < DRV_INIT_READS,
        ensures
            final(self).wf(),
            final(self).spec_reads() == old(self).spec_reads() + 1,
            final(self).spec_failures() == old(self).spec_failures() + if word_of(reply)
                == CSA_CONTROL_RESET {
                0int
            } else {
                1int
            },
    {
        if word(reply) != CSA_CONTROL_RESET {
            self.failures = self.failures + 1;
        }
        self.reads = self.reads + 1;
    }

    /// Replies that differed from the power-up value.
    pub fn failures(&self) -> (r: u32)
        ensures
            r == self.spec_failures(),
    {
        self.failures
    }

    /// The driver answered every read correctly.
    pub fn passed(&self) -> (r: bool)
        ensures
            r == (self.spec_failures() == 0),
    {
        self.failures == 0
    }
}

/// Configuration of the driver for this board: over-temperature reporting on, 6x PWM;
/// gate currents of 80 mA source and 160 mA sink on both sides (rise about 124 ns, fall
/// about 62 ns), shortest drive time; latched over-current shutdown at 0.13 V with 100 ns
/// dead time and 4 us deglitch; current-sense gain of 10 V/V with the reference halved
/// and the lowest sense trip level.
pub fn board_configuration() -> (r: (DriveControl, GateHs, GateLs, OcpControl, CsaControl))
    ensures
        r.0 == (DriveControl {
            dis_cpuv: false,
            dis_gdf: false,
            otw_rep: true,
            pwm_mode: PwmMode::_6x,
            single_pwm_com: false,
            single_pwm_dir: false,
            coast: false,
            brake: false,
            clr_flt: false,
        }),
        r.1 == (GateHs {
            lock: Lock::Unlock,
            idrivep_hs: SourceCurrent::_80,
            idriven_hs: SinkCurrent::_160,
        }),
        r.2 == (GateLs {
            cbc: false,
            t_drive: TDrive::_500,
            idrivep_ls: SourceCurrent::_80,
            idriven_ls: SinkCurrent::_160,
        }),
        r.3 == (OcpControl {
            t_retry: TRetry::_4ms,
            dead_time: DeadTime::_100,
            ocp_mode: OcpMode::Latched,
            ocp_deg: DeglitchTime::_4,
            vds_lvl: VdsLevel::_0_13,
        }),
        r.4 == (CsaControl {
            csa_fet: false,
            vref_div: true,
            ls_ref: false,
            csa_gain: CsaGain::_10,
            dis_sen: false,
            csa_cal_a: false,
            csa_cal_b: false,
            csa_cal_c: false,
            sen_lvl: SenLevel::_0_25,
        }),
{
    let drive_control = DriveControl::new().with_dis_cpuv(false).with_dis_gdf(false).with_otw_rep(
        true,
    ).with_pwm_mode(PwmMode::_6x).with_single_pwm_com(false).with_single_pwm_dir(false).with_coast(
        false,
    ).with_brake(false).with_clr_flt(false);
    let gate_hs = GateHs::new().with_lock(Lock::Unlock).with_idrivep_hs(
        SourceCurrent::_80,
    ).with_idriven_hs(SinkCurrent::_160);
    let gate_ls = GateLs::new().with_cbc(false).with_t_drive(TDrive::_500).with_idrivep_ls(
        SourceCurrent::_80,
    ).with_idriven_ls(SinkCurrent::_160);
    let ocp_control = OcpControl::new().with_t_retry(TRetry::_4ms).with_dead_time(
        DeadTime::_100,
    ).with_ocp_mode(OcpMode::Latched).with_ocp_deg(DeglitchTime::_4).with_vds_lvl(VdsLevel::_0_13);
    let csa_control = CsaControl::new().with_csa_fet(false).with_vref_div(true).with_ls_ref(
        false,
    ).with_csa_gain(CsaGain::_10).with_dis_sen(false).with_csa_cal_a(false).with_csa_cal_b(
        false,
    ).with_csa_cal_c(false).with_sen_lvl(SenLevel::_0_25);
    (drive_control, gate_hs, gate_ls, ocp_control, csa_control)
}

} // verus!
