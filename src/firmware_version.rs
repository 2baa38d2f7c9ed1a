use vstd::prelude::*;

use crate::codec::{u16_from_le, u32_from_le};

verus! {

/// Firmware version reported by the radar.
#[derive(Debug, Clone, Copy, PartialEq, Eq, PartialOrd, Ord, Structural)]
pub struct FirmwareVersion {
    /// Zero-based firmware type; type 0 is shown as "V1"
    pub firmware_type: u16,
    pub major: u16,
    pub minor: u32,
}

impl FirmwareVersion {
    /// The version that eight little-endian bytes describe: type, major, minor.
    pub open spec fn from_bytes_spec(b: Seq<u8>) -> FirmwareVersion {
        FirmwareVersion {
            firmware_type: (b[0] as int + 256 * b[1] as int) as u16,
            major: (b[2] as int + 256 * b[3] as int) as u16,
            minor: (b[4] as int + 256 * b[5] as int + 65536 * b[6] as int + 16777216 * b[7] as int) as u32,
        }
    }

    /// The version as it is shown: `V{type + 1}.{major, two digits at
    /// least}.{minor}`.
    pub open spec fn version_string_spec(self) -> Seq<char> {
        seq!['V'] + decimal(self.firmware_type as nat + 1) + seq!['.'] + pad_two(decimal(self.major as nat))
            + seq!['.'] + decimal(self.minor as nat)
    }

    /// The version as it is shown, such as `V1.02.22062416`.
    pub fn to_version_string(&self) -> (r: String)
        ensures
            r@ == self.version_string_spec(),
    {
        let mut s = String::new();
        push_char(&mut s, 'V');
        push_decimal(&mut s, self.firmware_type as u32 + 1);
        push_char(&mut s, '.');
        if self.major < 10 {
            push_char(&mut s, '0');
        }
        push_decimal(&mut s, self.major as u32);
        push_char(&mut s, '.');
        push_decimal(&mut s, self.minor);
        proof {
            lemma_decimal_len_one(self.major as nat);
        }
        assert(s@ =~= self.version_string_spec());
        s
    }
}

impl<'a> From<&'a [u8; 8]> for FirmwareVersion {
    fn from(data: &'a [u8; 8]) -> (r: FirmwareVersion) {
        FirmwareVersion {
            firmware_type: u16_from_le(data[0], data[1]),
            major: u16_from_le(data[2], data[3]),
            minor: u32_from_le(data[4], data[5], data[6], data[7]),
        }
    }
}

impl<'a> vstd::std_specs::convert::FromSpecImpl<&'a [u8; 8]> for FirmwareVersion {
    open spec fn obeys_from_spec() -> bool {
        true
    }

    open spec fn from_spec(data: &'a [u8; 8]) -> FirmwareVersion {
        FirmwareVersion::from_bytes_spec(data@)
    }
}

/// The decimal digit character of `d`.
pub open spec fn digit_char(d: nat) -> char {
    ((48 + d) as u8) as char
}

/// Decimal digits of `n`, without leading zeros.
pub open spec fn decimal(n: nat) -> Seq<char>
    decreases n,
{
    if n < 10 {
        seq![digit_char(n)]
    } else {
        decimal(n / 10).push(digit_char(n % 10))
    }
}

/// Digits padded with a leading zero to two characters at least.
pub open spec fn pad_two(s: Seq<char>) -> Seq<char> {
    if s.len() < 2 {
        seq!['0'] + s
    } else {
        s
    }
}

proof fn lemma_decimal_len_one(n: nat)
    ensures
        n < 10 <==> decimal(n).len() < 2,
    decreases n,
{
    if n >= 10 {
        lemma_decimal_len_one(n / 10);
    }
}

/// Relies on String::push: appends one character.
#[verifier::external_body]
fn push_char(s: &mut String, c: char)
    ensures
        final(s)@ == old(s)@.push(c),
{
    s.push(c)
}

fn push_decimal(s: &mut String, n: u32)
    ensures
        final(s)@ == old(s)@ + decimal(n as nat),
    decreases n,
{
    if n >= 10 {
        push_decimal(s, n / 10);
    }
    let d = (n % 10) as u8;
    push_char(s, (48 + d) as char);
    assert(s@ =~= old(s)@ + decimal(n as nat));
}

} // verus!
