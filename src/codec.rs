use vstd::prelude::*;

verus! {

/// Value of two little-endian bytes read as an unsigned integer.
pub open spec fn le_u16_value(lo: u8, hi: u8) -> int {
    lo as int + 256 * hi as int
}

/// Value of two bytes in the sensor's sign-magnitude format: the high bit of
/// the second byte set means a positive number, clear means a negative one;
/// the remaining fifteen bits are the little-endian magnitude.
pub open spec fn weird_sign_value(lo: u8, hi: u8) -> int {
    if hi >= 128 {
        le_u16_value(lo, (hi - 128) as u8)
    } else {
        -le_u16_value(lo, hi)
    }
}

/// The two bytes that carry a fifteen-bit magnitude in the sign-magnitude
/// format, positive or negative.
pub open spec fn weird_sign_bytes(magnitude: int, positive: bool) -> (u8, u8) {
    let lo = (magnitude % 256) as u8;
    let hi = (magnitude / 256) as u8;
    if positive {
        (lo, (hi + 128) as u8)
    } else {
        (lo, hi)
    }
}

/// Little-endian bytes of a 16-bit value.
pub open spec fn le_bytes_u16(v: u16) -> Seq<u8> {
    seq![(v % 256) as u8, (v / 256) as u8]
}

/// Decodes two little-endian bytes into a `u16`.
pub fn u16_from_le(lo: u8, hi: u8) -> (r: u16)
    ensures
        r as int == le_u16_value(lo, hi),
{
    lo as u16 + 256 * (hi as u16)
}

/// Decodes four little-endian bytes into a `u32`.
pub fn u32_from_le(b0: u8, b1: u8, b2: u8, b3: u8) -> (r: u32)
    ensures
        r as int == b0 as int + 256 * b1 as int + 65536 * b2 as int + 16777216 * b3 as int,
{
    b0 as u32 + 256 * (b1 as u32) + 65536 * (b2 as u32) + 16777216 * (b3 as u32)
}

/// Encodes a `u16` as two little-endian bytes.
pub fn u16_to_le(v: u16) -> (r: [u8; 2])
    ensures
        r@ == le_bytes_u16(v),
{
    let r = [(v % 256) as u8, (v / 256) as u8];
    assert(r@ =~= le_bytes_u16(v));
    r
}

/// Decodes the sensor's sign-magnitude 16-bit format into an ordinary `i16`.
pub fn i16_from_le_weird_sign(data: [u8; 2]) -> (r: i16)
    ensures
        r as int == weird_sign_value(data@[0], data@[1]),
{
    let lo = data[0];
    let hi = data[1];
    if hi >= 128 {
        // the sign bit is set: the magnitude is a positive value
        let hi = hi - 128;
        lo as i16 + 256 * (hi as i16)
    } else {
        -(lo as i16 + 256 * (hi as i16))
    }
}

/// Setting the sign bit over a fifteen-bit magnitude decodes to the magnitude
/// itself, and clearing it decodes to the negated magnitude.
pub proof fn lemma_weird_sign_round_trip(magnitude: int)
    requires
        0 <= magnitude < 32768,
    ensures
        ({
            let (lo, hi) = weird_sign_bytes(magnitude, true);
            weird_sign_value(lo, hi) == magnitude
        }),
        ({
            let (lo, hi) = weird_sign_bytes(magnitude, false);
            weird_sign_value(lo, hi) == -magnitude
        }),
{
}

/// Serial baud rates that the sensor supports.
#[derive(Debug, Clone, Copy, PartialEq, Eq, Structural)]
pub enum BaudRate {
    Baud9600,
    Baud19200,
    Baud38400,
    Baud57600,
    Baud115200,
    Baud230400,
    Baud256000,
    Baud460800,
}

impl BaudRate {
    /// The code that selects this rate in a baud-rate command.
    pub open spec fn code(self) -> u16 {
        match self {
            BaudRate::Baud9600 => 0x01,
            BaudRate::Baud19200 => 0x02,
            BaudRate::Baud38400 => 0x03,
            BaudRate::Baud57600 => 0x04,
            BaudRate::Baud115200 => 0x05,
            BaudRate::Baud230400 => 0x06,
            BaudRate::Baud256000 => 0x07,
            BaudRate::Baud460800 => 0x08,
        }
    }

    /// The code of this rate on the wire.
    pub fn byte_repr(&self) -> (r: u16)
        ensures
            r == self.code(),
    {
        match self {
            BaudRate::Baud9600 => 0x01,
            BaudRate::Baud19200 => 0x02,
            BaudRate::Baud38400 => 0x03,
            BaudRate::Baud57600 => 0x04,
            BaudRate::Baud115200 => 0x05,
            BaudRate::Baud230400 => 0x06,
            BaudRate::Baud256000 => 0x07,
            BaudRate::Baud460800 => 0x08,
        }
    }
}

impl Default for BaudRate {
    fn default() -> (r: BaudRate)
        ensures
            r == BaudRate::Baud256000,
    {
        BaudRate::Baud256000
    }
}

/// Distinct rates have distinct codes.
pub proof fn lemma_baud_code_injective(a: BaudRate, b: BaudRate)
    ensures
        a.code() == b.code() ==> a == b,
{
}

} // verus!
