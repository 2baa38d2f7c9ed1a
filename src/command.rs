use vstd::prelude::*;

use crate::codec::{le_bytes_u16, le_u16_value, u16_from_le, u16_to_le, BaudRate};
use crate::RadarError;

verus! {

/// Marker that opens every command and acknowledgement frame.
pub const COMMAND_HEADER: [u8; 4] = [0xFD, 0xFC, 0xFB, 0xFA];

/// Marker that closes every command and acknowledgement frame.
pub const END_OF_FRAME: [u8; 4] = [0x04, 0x03, 0x02, 0x01];

pub const CMD_ENTER_CONFIG: u16 = 0x0001;
pub const CMD_SET_SINGLE_TARGET: u16 = 0x0080;
pub const CMD_SET_MULTI_TARGET: u16 = 0x0090;
pub const CMD_GET_TRACKING_MODE: u16 = 0x0091;
pub const CMD_GET_FIRMWARE: u16 = 0x00A0;
pub const CMD_SET_BAUD_RATE: u16 = 0x00A1;
pub const CMD_FACTORY_RESTORE: u16 = 0x00A2;
pub const CMD_RESTART: u16 = 0x00A3;
pub const CMD_SET_BLUETOOTH: u16 = 0x00A4;
pub const CMD_GET_MAC: u16 = 0x00A5;
pub const CMD_GET_ZONE_FILTER: u16 = 0x00C1;
pub const CMD_SET_ZONE_FILTER: u16 = 0x00C2;
pub const CMD_EXIT_CONFIG: u16 = 0x00FE;

pub open spec fn command_header() -> Seq<u8> {
    seq![0xFDu8, 0xFCu8, 0xFBu8, 0xFAu8]
}

pub open spec fn command_eof() -> Seq<u8> {
    seq![0x04u8, 0x03u8, 0x02u8, 0x01u8]
}

/// A command frame around a payload: header, the payload's length, the
/// payload and the end marker.
pub open spec fn framed(payload: Seq<u8>) -> Seq<u8> {
    command_header() + le_bytes_u16(payload.len() as u16) + payload + command_eof()
}

/// The frame of a command without data.
pub open spec fn command_frame_spec(command: u16) -> Seq<u8> {
    framed(le_bytes_u16(command))
}

/// The frame of a command with one data word.
pub open spec fn command_data_frame_spec(command: u16, data: u16) -> Seq<u8> {
    framed(le_bytes_u16(command) + le_bytes_u16(data))
}

fn append_bytes(out: &mut Vec<u8>, bytes: &[u8])
    ensures
        final(out)@ == old(out)@ + bytes@,
{
    let mut i: usize = 0;
    while i < bytes.len()
        invariant
            i <= bytes@.len(),
            out@ == old(out)@ + bytes@.take(i as int),
        decreases bytes@.len() - i,
    {
        assert(bytes@.take(i as int + 1) =~= bytes@.take(i as int).push(bytes@[i as int]));
        out.push(bytes[i]);
        i += 1;
    }
    assert(bytes@.take(i as int) =~= bytes@);
}

/// Frames a payload as a command: header, little-endian payload length,
/// payload, end marker.
fn frame_payload(payload: &[u8]) -> (r: Vec<u8>)
    requires
        payload@.len() <= 0xFFFF,
    ensures
        r@ == framed(payload@),
{
    let mut out: Vec<u8> = Vec::new();
    append_bytes(&mut out, COMMAND_HEADER.as_slice());
    let len = u16_to_le(payload.len() as u16);
    append_bytes(&mut out, len.as_slice());
    append_bytes(&mut out, payload);
    append_bytes(&mut out, END_OF_FRAME.as_slice());
    assert(COMMAND_HEADER@ =~= command_header());
    assert(END_OF_FRAME@ =~= command_eof());
    out
}

/// Frame of a command without data.
pub fn write_command(command: u16) -> (r: Vec<u8>)
    ensures
        r@ == command_frame_spec(command),
{
    let code = u16_to_le(command);
    frame_payload(code.as_slice())
}

/// Frame of a command with one data word.
pub fn write_command_data(command: u16, data: u16) -> (r: Vec<u8>)
    ensures
        r@ == command_data_frame_spec(command, data),
{
    let code = u16_to_le(command);
    let word = u16_to_le(data);
    let mut payload: Vec<u8> = Vec::new();
    append_bytes(&mut payload, code.as_slice());
    append_bytes(&mut payload, word.as_slice());
    frame_payload(payload.as_slice())
}

pub fn enter_config_mode() -> (r: Vec<u8>)
    ensures
        r@ == command_data_frame_spec(0x0001, 0x0001),
{
    write_command_data(CMD_ENTER_CONFIG, 0x0001)
}

pub fn exit_config_mode() -> (r: Vec<u8>)
    ensures
        r@ == command_frame_spec(0x00FE),
{
    write_command(CMD_EXIT_CONFIG)
}

pub fn set_single_target_tracking() -> (r: Vec<u8>)
    ensures
        r@ == command_frame_spec(0x0080),
{
    write_command(CMD_SET_SINGLE_TARGET)
}

pub fn set_multi_target_tracking() -> (r: Vec<u8>)
    ensures
        r@ == command_frame_spec(0x0090),
{
    write_command(CMD_SET_MULTI_TARGET)
}

pub fn get_target_tracking_mode() -> (r: Vec<u8>)
    ensures
        r@ == command_frame_spec(0x0091),
{
    write_command(CMD_GET_TRACKING_MODE)
}

pub fn get_firmware_version() -> (r: Vec<u8>)
    ensures
        r@ == command_frame_spec(0x00A0),
{
    write_command(CMD_GET_FIRMWARE)
}

pub fn set_baud_rate(baud_rate: BaudRate) -> (r: Vec<u8>)
    ensures
        r@ == command_data_frame_spec(0x00A1, baud_rate.code()),
{
    write_command_data(CMD_SET_BAUD_RATE, baud_rate.byte_repr())
}

pub fn factory_restore() -> (r: Vec<u8>)
    ensures
        r@ == command_frame_spec(0x00A2),
{
    write_command(CMD_FACTORY_RESTORE)
}

pub fn restart() -> (r: Vec<u8>)
    ensures
        r@ == command_frame_spec(0x00A3),
{
    write_command(CMD_RESTART)
}

pub fn set_bluetooth_enabled(enabled: bool) -> (r: Vec<u8>)
    ensures
        r@ == command_data_frame_spec(0x00A4, if enabled { 1 } else { 0 }),
{
    let data: u16 = if enabled { 0x01 } else { 0x00 };
    write_command_data(CMD_SET_BLUETOOTH, data)
}

pub fn get_mac_address() -> (r: Vec<u8>)
    ensures
        r@ == command_data_frame_spec(0x00A5, 0x0001),
{
    write_command_data(CMD_GET_MAC, 0x0001)
}

pub fn get_zone_filtering() -> (r: Vec<u8>)
    ensures
        r@ == command_data_frame_spec(0x00C1, 0x0001),
{
    write_command_data(CMD_GET_ZONE_FILTER, 0x0001)
}

/// Frame that sets the zone filter: the sub-code followed by the raw region
/// bytes.
pub fn set_zone_filtering(zone_filtering: &[u8]) -> (r: Vec<u8>)
    requires
        zone_filtering@.len() + 2 <= 0xFFFF,
    ensures
        r@ == framed(le_bytes_u16(0x00C2) + zone_filtering@),
{
    let code = u16_to_le(CMD_SET_ZONE_FILTER);
    let mut payload: Vec<u8> = Vec::new();
    append_bytes(&mut payload, code.as_slice());
    append_bytes(&mut payload, zone_filtering);
    frame_payload(payload.as_slice())
}

/// Result of reading one acknowledgement with a payload of `n` bytes from the
/// start of a finite stream whose end stands for a failing transport: the
/// payload or the error, and the number of bytes consumed. Each part is read
/// and checked in turn, and the first one that fails ends the read.
pub open spec fn ack_stream_result(s: Seq<u8>, n: int) -> (Result<Seq<u8>, RadarError>, int) {
    if s.len() < 4 {
        (Err(RadarError::SerialError), s.len() as int)
    } else if s.take(4) != command_header() {
        (Err(RadarError::UnexpectedFrameSize), 4)
    } else if s.len() < 6 {
        (Err(RadarError::SerialError), s.len() as int)
    } else if le_u16_value(s[4], s[5]) != n {
        (Err(RadarError::UnexpectedFrameSize), 6)
    } else if s.len() < 10 + n {
        (Err(RadarError::SerialError), s.len() as int)
    } else if s.subrange(6 + n, 10 + n) != command_eof() {
        (Err(RadarError::UnexpectedFrameSize), 10 + n)
    } else {
        (Ok(s.subrange(6, 6 + n)), 10 + n)
    }
}

fn bytes_equal(a: &[u8], b: &[u8]) -> (r: bool)
    ensures
        r == (a@ == b@),
{
    if a.len() != b.len() {
        return false;
    }
    let mut i: usize = 0;
    while i < a.len()
        invariant
            i <= a@.len(),
            a@.len() == b@.len(),
            forall|j: int| 0 <= j < i ==> a@[j] == b@[j],
        decreases a@.len() - i,
    {
        if a[i] != b[i] {
            return false;
        }
        i += 1;
    }
    assert(a@ =~= b@);
    true
}

/// Whether four bytes are the header of an acknowledgement frame.
pub fn ack_header_matches(bytes: &[u8]) -> (r: bool)
    ensures
        r == (bytes@ == command_header()),
{
    assert(COMMAND_HEADER@ =~= command_header());
    bytes_equal(bytes, COMMAND_HEADER.as_slice())
}

/// Whether the little-endian length field of an acknowledgement announces
/// exactly `n` payload bytes.
pub fn ack_length_matches(lo: u8, hi: u8, n: usize) -> (r: bool)
    ensures
        r == (le_u16_value(lo, hi) == n),
{
    u16_from_le(lo, hi) as usize == n
}

/// Whether four bytes are the end marker of an acknowledgement frame.
pub fn ack_eof_matches(bytes: &[u8]) -> (r: bool)
    ensures
        r == (bytes@ == command_eof()),
{
    assert(END_OF_FRAME@ =~= command_eof());
    bytes_equal(bytes, END_OF_FRAME.as_slice())
}

/// Reads one acknowledgement with a payload of `n` bytes from the start of
/// `stream`: checks the header, the announced length and the end marker, and
/// returns the payload or the error, with the number of bytes consumed. The
/// end of the stream counts as a failing transport.
pub fn ack(stream: &[u8], n: usize) -> (r: (Result<Vec<u8>, RadarError>, usize))
    ensures
        r.1 == ack_stream_result(stream@, n as int).1,
        r.0 is Ok <==> ack_stream_result(stream@, n as int).0 is Ok,
        r.0 is Ok ==> r.0->Ok_0@ == ack_stream_result(stream@, n as int).0->Ok_0,
        r.0 is Err ==> r.0->Err_0 == ack_stream_result(stream@, n as int).0->Err_0,
{
    let len = stream.len();
    if len < 4 {
        return (Err(RadarError::SerialError), len);
    }
    if !ack_header_matches(vstd::slice::slice_subrange(stream, 0, 4)) {
        assert(stream@.subrange(0, 4) =~= stream@.take(4));
        return (Err(RadarError::UnexpectedFrameSize), 4);
    }
    assert(stream@.subrange(0, 4) =~= stream@.take(4));
    if len < 6 {
        return (Err(RadarError::SerialError), len);
    }
    if !ack_length_matches(stream[4], stream[5], n) {
        return (Err(RadarError::UnexpectedFrameSize), 6);
    }
    if len - 6 < n || len - 6 - n < 4 {
        return (Err(RadarError::SerialError), len);
    }
    if !ack_eof_matches(vstd::slice::slice_subrange(stream, 6 + n, 10 + n)) {
        return (Err(RadarError::UnexpectedFrameSize), 10 + n);
    }
    let payload = vstd::slice::slice_to_vec(vstd::slice::slice_subrange(stream, 6, 6 + n));
    (Ok(payload), 10 + n)
}

} // verus!
