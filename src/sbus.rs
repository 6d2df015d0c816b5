//! Frames of the Futaba SBUS radio-receiver protocol: sixteen 11-bit channels and four
//! flags, packed least significant bit first between a start and an end byte.
use vstd::prelude::*;
use vstd::arithmetic::power2::{lemma2_to64, pow2};

verus! {

/// Bytes in a frame.
pub const FRAME_LEN: usize = 25;

/// First byte of a frame.
pub const START_BYTE: u8 = 0x0F;

/// Last byte of a frame.
pub const END_BYTE: u8 = 0x00;

/// Byte the receiver is resynchronised on after a bad frame.
pub const SYNC_MARKER: u8 = 0xF0;

/// Why a frame was refused.
#[derive(Debug, Clone, Copy, PartialEq, Eq, Structural)]
pub enum FrameError {
    /// The frame did not start with the start byte or end with the end byte.
    FrameSync,
}

/// Three bytes of the frame from `i`, least significant first.
pub open spec fn window(buf: [u8; 25], i: int) -> int {
    buf[i] as int + 256 * buf[i + 1] + 65536 * buf[i + 2]
}

/// Channel `n` (from zero) of a frame: the 11 bits from bit `8 + 11 * n`.
pub open spec fn channel_of(buf: [u8; 25], n: int) -> int {
    let first = 8 + 11 * n;
    (window(buf, first / 8) / (pow2((first % 8) as nat) as int)) % 2048
}

/// Flag `j` of a frame: bit `j` of byte 23.
pub open spec fn flag_of(buf: [u8; 25], j: nat) -> bool {
    ((buf[23] as int) / (pow2(j) as int)) % 2 == 1
}

/// The buffer holds a frame: the start byte first and the end byte last.
pub open spec fn framed(buf: [u8; 25]) -> bool {
    buf[0] == START_BYTE && buf[24] == END_BYTE
}

/// A decoded frame.
#[derive(Debug, Clone, Copy)]
pub struct Data {
    /// The sixteen proportional channels
    pub channels: [u16; 16],
    /// Digital channel 1
    pub dig_ch1: bool,
    /// Digital channel 2
    pub dig_ch2: bool,
    /// The receiver lost a frame (its red LED)
    pub frame_lost: bool,
    /// The receiver is in failsafe
    pub failsafe_activated: bool,
}

impl Data {
    /// Channel 1.
    pub fn ch1(&self) -> (r: u16)
        ensures
            r == self.channels@[0],
    {
        self.channels[0]
    }

    /// Channel 2.
    pub fn ch2(&self) -> (r: u16)
        ensures
            r == self.channels@[1],
    {
        self.channels[1]
    }

    /// Channel 3.
    pub fn ch3(&self) -> (r: u16)
        ensures
            r == self.channels@[2],
    {
        self.channels[2]
    }

    /// Channel 4.
    pub fn ch4(&self) -> (r: u16)
        ensures
            r == self.channels@[3],
    {
        self.channels[3]
    }

    /// Channel 5.
    pub fn ch5(&self) -> (r: u16)
        ensures
            r == self.channels@[4],
    {
        self.channels[4]
    }

    /// Channel 6.
    pub fn ch6(&self) -> (r: u16)
        ensures
            r == self.channels@[5],
    {
        self.channels[5]
    }

    /// Channel 7.
    pub fn ch7(&self) -> (r: u16)
        ensures
            r == self.channels@[6],
    {
        self.channels[6]
    }

    /// Channel 8.
    pub fn ch8(&self) -> (r: u16)
        ensures
            r == self.channels@[7],
    {
        self.channels[7]
    }

    /// Channel 9.
    pub fn ch9(&self) -> (r: u16)
        ensures
            r == self.channels@[8],
    {
        self.channels[8]
    }

    /// Channel 10.
    pub fn ch10(&self) -> (r: u16)
        ensures
            r == self.channels@[9],
    {
        self.channels[9]
    }

    /// Channel 11.
    pub fn ch11(&self) -> (r: u16)
        ensures
            r == self.channels@[10],
    {
        self.channels[10]
    }

    /// Channel 12.
    pub fn ch12(&self) -> (r: u16)
        ensures
            r == self.channels@[11],
    {
        self.channels[11]
    }

    /// Channel 13.
    pub fn ch13(&self) -> (r: u16)
        ensures
            r == self.channels@[12],
    {
        self.channels[12]
    }

    /// Channel 14.
    pub fn ch14(&self) -> (r: u16)
        ensures
            r == self.channels@[13],
    {
        self.channels[13]
    }

    /// Channel 15.
    pub fn ch15(&self) -> (r: u16)
        ensures
            r == self.channels@[14],
    {
        self.channels[14]
    }

    /// Channel 16.
    pub fn ch16(&self) -> (r: u16)
        ensures
            r == self.channels@[15],
    {
        self.channels[15]
    }
}

/// A receiver on a serial stream of type `T`; frames read from it are decoded with
/// [`decode_frame`].
pub struct Sbus<T> {
    /// The stream
    bus: T,
}

impl<T> Sbus<T> {
    /// The receiver on `bus`.
    pub fn new(bus: T) -> (r: Self)
        ensures
            r.spec_bus() == bus,
    {
        Self { bus }
    }

    /// The stream.
    pub closed spec fn spec_bus(&self) -> T {
        self.bus
    }

    /// The stream, to read frames.
    pub fn bus(&mut self) -> (r: &mut T)
        ensures
            *r == old(self).spec_bus(),
            final(self).spec_bus() == *final(r),
    {
        &mut self.bus
    }
}

/// `2^e` for a shift within a byte.
fn pow2_small(e: u32) -> (r: u32)
    requires
        e < 8,
    ensures
        r == pow2(e as nat),
        r >= 1,
{
    proof {
        lemma2_to64();
    }
    if e == 0 {
        1
    } else if e == 1 {
        2
    } else if e == 2 {
        4
    } else if e == 3 {
        8
    } else if e == 4 {
        16
    } else if e == 5 {
        32
    } else if e == 6 {
        64
    } else {
        128
    }
}

/// Channel `n` (from zero) of a frame.
pub fn channel(buf: [u8; 25], n: usize) -> (r: u16)
    requires
        n < 16,
    ensures
        r == channel_of(buf, n as int),
{
    let first = 8 + 11 * n;
    let i = first / 8;
    let w: u32 = buf[i] as u32 + 256 * buf[i + 1] as u32 + 65536 * buf[i + 2] as u32;
    let d = pow2_small((first % 8) as u32);
    ((w / d) % 2048) as u16
}

/// Decodes a frame, refusing one that lacks its start or end byte.
pub fn decode_frame(buf: [u8; 25]) -> (r: Result<Data, FrameError>)
    ensures
        r is Err <==> !framed(buf),
        r matches Ok(d) ==> {
            &&& forall|n: int| 0 <= n < 16 ==> #[trigger] d.channels@[n] == channel_of(buf, n)
            &&& d.dig_ch1 == flag_of(buf, 0)
            &&& d.dig_ch2 == flag_of(buf, 1)
            &&& d.frame_lost == flag_of(buf, 2)
            &&& d.failsafe_activated == flag_of(buf, 3)
        },
{
    if buf[0] != START_BYTE || buf[24] != END_BYTE {
        return Err(FrameError::FrameSync);
    }
    let mut channels: [u16; 16] = [0; 16];
    let mut n: usize = 0;
    while n < 16
        invariant
            n <= 16,
            forall|j: int| 0 <= j < n ==> #[trigger] channels@[j] == channel_of(buf, j),
        decreases 16 - n,
    {
        channels[n] = channel(buf, n);
        n += 1;
    }
    let flags = buf[23];
    proof {
        lemma2_to64();
    }
    Ok(
        Data {
            channels,
            dig_ch1: flags % 2 == 1,
            dig_ch2: (flags / 2) % 2 == 1,
            frame_lost: (flags / 4) % 2 == 1,
            failsafe_activated: (flags / 8) % 2 == 1,
        },
    )
}

/// Position of the first resynchronisation marker in a refused frame, if any; reading
/// that many bytes more realigns the stream.
pub fn sync_offset(buf: [u8; 25]) -> (r: Option<usize>)
    ensures
        r matches Some(i) ==> i < 25 && buf[i as int] == SYNC_MARKER && forall|j: int|
            0 <= j < i ==> buf[j] != SYNC_MARKER,
        r is None ==> forall|j: int| 0 <= j < 25 ==> buf[j] != SYNC_MARKER,
{
    let mut i: usize = 0;
    while i < 25
        invariant
            i <= 25,
            forall|j: int| 0 <= j < i ==> buf[j] != SYNC_MARKER,
        decreases 25 - i,
    {
        if buf[i] == SYNC_MARKER {
            return Some(i);
        }
        i += 1;
    }
    None
}

} // verus!
