//! Sample decoding for the LTC1408-12 six-channel simultaneous-sampling ADC.
use vstd::prelude::*;

verus! {

/// Channels of the converter.
pub const CHANNELS: usize = 6;

/// Volts per code step in Q16.16: a 2.5 V span over 4096 codes.
pub const VOLTS_PER_CODE: i32 = 40;

/// The 12-bit code that the byte pair `(b0, b1)` of a channel carries: the low six bits
/// of `b0`, then the high six bits of `b1`.
pub open spec fn code_of(b0: int, b1: int) -> int {
    (b0 % 64) * 64 + b1 / 4
}

/// The LTC1408-12 on a serial bus of type `T`, with its enabled channels.
pub struct Ltc1408_12<T> {
    /// The bus
    spi: T,
    /// Number of enabled channels
    channels: usize,
}

impl<T> Ltc1408_12<T> {
    /// The bus.
    pub closed spec fn spec_bus(&self) -> T {
        self.spi
    }

    /// Enabled channels.
    pub closed spec fn spec_channels(&self) -> int {
        self.channels as int
    }

    /// Between one and six channels are enabled.
    pub open spec fn wf(&self) -> bool {
        1 <= self.spec_channels() <= CHANNELS
    }

    /// The converter on `spi` with `channels` enabled; `None` unless `1..=6` of them are.
    pub fn new(spi: T, channels: usize) -> (r: Option<Self>)
        ensures
            r is Some <==> 1 <= channels <= CHANNELS,
            r matches Some(a) ==> a.wf() && a.spec_channels() == channels && a.spec_bus() == spi,
    {
        if channels > 0 && channels <= CHANNELS {
            Some(Self { spi, channels })
        } else {
            None
        }
    }

    /// Bytes that one conversion returns: two per enabled channel.
    pub fn read_len(&self) -> (r: usize)
        requires
            self.wf(),
        ensures
            r == 2 * self.spec_channels(),
    {
        self.channels * 2
    }

    /// The bus, to read a conversion.
    pub fn bus(&mut self) -> (r: &mut T)
        ensures
            *r == old(self).spec_bus(),
            final(self).spec_bus() == *final(r),
            final(self).spec_channels() == old(self).spec_channels(),
    {
        &mut self.spi
    }
}

/// The 12-bit code of a channel's byte pair.
pub fn buf_to_ch(buf0: u8, buf1: u8) -> (r: u16)
    ensures
        r == code_of(buf0 as int, buf1 as int),
        r < 4096,
{
    (buf0 as u16 % 64) * 64 + buf1 as u16 / 4
}

/// Voltage (Q16.16) of a 12-bit code.
pub fn ch_to_volts(code: u16) -> (r: i32)
    requires
        code < 4096,
    ensures
        r == code * VOLTS_PER_CODE,
{
    code as i32 * VOLTS_PER_CODE
}

/// Voltages (Q16.16) of the six channels of a conversion; channels that were not read
/// hold zero bytes and read as 0 V.
pub fn decode(buf: [u8; 12]) -> (r: [i32; 6])
    ensures
        forall|k: int|
            0 <= k < 6 ==> #[trigger] r[k] == code_of(buf[2 * k] as int, buf[2 * k + 1] as int)
                * VOLTS_PER_CODE,
{
    let mut out: [i32; 6] = [0; 6];
    let mut k: usize = 0;
    while k < 6
        invariant
            k <= 6,
            forall|j: int|
                0 <= j < k ==> #[trigger] out[j] == code_of(buf[2 * j] as int, buf[2 * j + 1] as int)
                    * VOLTS_PER_CODE,
        decreases 6 - k,
    {
        out[k] = ch_to_volts(buf_to_ch(buf[2 * k], buf[2 * k + 1]));
        k += 1;
    }
    out
}

} // verus!
