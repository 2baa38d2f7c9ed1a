use vstd::prelude::*;

use crate::radar_target::{
    decode_radar_targets, decoded_targets, target_list, RadarTarget, RADAR_DATA_FRAME_SIZE,
};
use crate::RadarError;

verus! {

/// Marker that opens every target data frame.
pub const RADAR_DATA_HEADER: [u8; 4] = [0xAA, 0xFF, 0x03, 0x00];

/// Marker that closes every target data frame.
pub const RADAR_DATA_EOF: [u8; 2] = [0x55, 0xCC];

pub open spec fn data_header() -> Seq<u8> {
    seq![0xAAu8, 0xFFu8, 0x03u8, 0x00u8]
}

pub open spec fn data_eof() -> Seq<u8> {
    seq![0x55u8, 0xCCu8]
}

/// A complete data frame on the wire around a payload.
pub open spec fn data_frame(payload: Seq<u8>) -> Seq<u8> {
    data_header() + payload + data_eof()
}

/// Progress of the header search after one more byte, when `i` header bytes
/// had matched: a mismatching byte that equals the first header byte starts
/// a new match.
pub open spec fn header_step(i: int, b: u8) -> int {
    if b == data_header()[i] {
        i + 1
    } else if b == data_header()[0] {
        1
    } else {
        0
    }
}

/// Number of header bytes matched after reading `s`; four once a header has
/// been seen.
pub open spec fn match_pos(s: Seq<u8>) -> int
    decreases s.len(),
{
    if s.len() == 0 {
        0
    } else {
        let p = match_pos(s.drop_last());
        if p >= 4 {
            4
        } else {
            header_step(p, s.last())
        }
    }
}

/// Length of the shortest prefix of `s` that ends a header, or -1 if the
/// search runs through all of `s`.
pub open spec fn header_end(s: Seq<u8>) -> int
    decreases s.len(),
{
    if s.len() == 0 {
        -1
    } else {
        let e = header_end(s.drop_last());
        if e >= 0 {
            e
        } else if match_pos(s) == 4 {
            s.len() as int
        } else {
            -1
        }
    }
}

/// Result of reading one frame from the start of a finite stream whose end
/// stands for a failing transport: the targets or the error, and the number
/// of bytes consumed.
pub open spec fn stream_frame_result(s: Seq<u8>) -> (Result<Seq<RadarTarget>, RadarError>, int) {
    let h = header_end(s);
    if h < 0 || s.len() < h + 26 {
        (Err(RadarError::SerialError), s.len() as int)
    } else if s.subrange(h + 24, h + 26) == data_eof() {
        (Ok(decoded_targets(s.subrange(h, h + 24))), h + 26)
    } else {
        (Err(RadarError::UnexpectedFrameSize), h + 26)
    }
}

/// One step of the header search: the number of header bytes matched after
/// `byte`, when `i` had matched before.
pub fn header_match_step(i: usize, byte: u8) -> (r: usize)
    requires
        i < 4,
    ensures
        r == header_step(i as int, byte),
{
    proof {
        assert(RADAR_DATA_HEADER@ =~= data_header());
    }
    if byte == RADAR_DATA_HEADER[i] {
        i + 1
    } else if byte == RADAR_DATA_HEADER[0] {
        1
    } else {
        0
    }
}

/// Checks the end-of-frame marker read after a frame payload and decodes the
/// payload's targets.
pub fn decode_frame(payload: &[u8; 24], eof: &[u8; 2]) -> (r: Result<heapless::Vec<RadarTarget, 3>, RadarError>)
    ensures
        eof@ == data_eof() ==> r is Ok && target_list(r->Ok_0) == decoded_targets(payload@),
        eof@ != data_eof() ==> r is Err && r->Err_0 == RadarError::UnexpectedFrameSize,
{
    proof {
        assert(RADAR_DATA_EOF@ =~= data_eof());
    }
    if eof[0] != RADAR_DATA_EOF[0] || eof[1] != RADAR_DATA_EOF[1] {
        proof {
            assert(eof@ != data_eof()) by {
                if eof@ == data_eof() {
                    assert(eof@[0] == data_eof()[0]);
                    assert(eof@[1] == data_eof()[1]);
                }
            }
        }
        return Err(RadarError::UnexpectedFrameSize);
    }
    assert(eof@ =~= data_eof());
    decode_radar_targets(payload)
}

proof fn lemma_match_pos_range(s: Seq<u8>)
    ensures
        0 <= match_pos(s) <= 4,
    decreases s.len(),
{
    if s.len() > 0 {
        lemma_match_pos_range(s.drop_last());
    }
}

proof fn lemma_header_end_extends(s: Seq<u8>, m: int)
    requires
        0 <= m <= s.len(),
        header_end(s.take(m)) >= 0,
    ensures
        header_end(s) == header_end(s.take(m)),
    decreases s.len(),
{
    if m == s.len() {
        assert(s.take(m) =~= s);
    } else {
        assert(s.drop_last().take(m) =~= s.take(m));
        lemma_header_end_extends(s.drop_last(), m);
    }
}

/// Feeding one more byte to a search that has not yet ended.
proof fn lemma_search_one_more(s: Seq<u8>, k: int)
    requires
        0 <= k < s.len(),
        header_end(s.take(k)) < 0,
        match_pos(s.take(k)) < 4,
    ensures
        match_pos(s.take(k + 1)) == header_step(match_pos(s.take(k)), s[k]),
        header_end(s.take(k + 1)) == if match_pos(s.take(k + 1)) == 4 { k + 1 } else { -1 },
{
    assert(s.take(k + 1).drop_last() =~= s.take(k));
    assert(s.take(k + 1).last() == s[k]);
}

/// Bytes that contain no complete header, followed by a header, end the
/// header search exactly at the end of that header.
proof fn lemma_header_after_garbage(garbage: Seq<u8>, tail: Seq<u8>)
    requires
        header_end(garbage) < 0,
        tail.len() >= 4,
        tail.take(4) == data_header(),
    ensures
        header_end(garbage + tail) == garbage.len() + 4,
{
    let s = garbage + tail;
    let n = garbage.len() as int;
    lemma_match_pos_range(garbage);
    assert(s.take(n) =~= garbage);
    assert(tail[0] == 0xAA && tail[1] == 0xFF && tail[2] == 0x03 && tail[3] == 0x00) by {
        assert(tail[0] == tail.take(4)[0]);
        assert(tail[1] == tail.take(4)[1]);
        assert(tail[2] == tail.take(4)[2]);
        assert(tail[3] == tail.take(4)[3]);
    }
    lemma_search_one_more(s, n);
    assert(match_pos(s.take(n + 1)) == 1);
    lemma_search_one_more(s, n + 1);
    assert(match_pos(s.take(n + 2)) == 2);
    lemma_search_one_more(s, n + 2);
    assert(match_pos(s.take(n + 3)) == 3);
    lemma_search_one_more(s, n + 3);
    assert(header_end(s.take(n + 4)) == n + 4);
    lemma_header_end_extends(s, n + 4);
}

/// Resynchronisation: whatever bytes precede a frame, as long as they hold
/// no complete header themselves, and whatever bytes follow it, reading from
/// the start of the stream decodes exactly that frame's targets and consumes
/// the stream up to the end of that frame.
pub proof fn lemma_frame_after_garbage(garbage: Seq<u8>, payload: Seq<u8>, rest: Seq<u8>)
    requires
        header_end(garbage) < 0,
        payload.len() == 24,
    ensures
        ({
            let r = stream_frame_result(garbage + data_frame(payload) + rest);
            &&& r.0 is Ok
            &&& r.0->Ok_0 == decoded_targets(payload)
            &&& r.1 == garbage.len() + 30
        }),
{
    lemma_frame_with_eof(garbage, payload, data_eof(), rest);
}

/// A frame whose end-of-frame marker is wrong, after bytes that hold no
/// complete header, is a framing error, and the bytes up to that marker are
/// consumed.
pub proof fn lemma_corrupt_eof_is_framing_error(
    garbage: Seq<u8>,
    payload: Seq<u8>,
    eof: Seq<u8>,
    rest: Seq<u8>,
)
    requires
        header_end(garbage) < 0,
        payload.len() == 24,
        eof.len() == 2,
        eof != data_eof(),
    ensures
        ({
            let r = stream_frame_result(garbage + (data_header() + payload + eof) + rest);
            &&& r.0 is Err
            &&& r.0->Err_0 == RadarError::UnexpectedFrameSize
            &&& r.1 == garbage.len() + 30
        }),
{
    lemma_frame_with_eof(garbage, payload, eof, rest);
}

proof fn lemma_frame_with_eof(garbage: Seq<u8>, payload: Seq<u8>, eof: Seq<u8>, rest: Seq<u8>)
    requires
        header_end(garbage) < 0,
        payload.len() == 24,
        eof.len() == 2,
    ensures
        ({
            let s = garbage + (data_header() + payload + eof) + rest;
            let h = garbage.len() + 4int;
            &&& header_end(s) == h
            &&& s.len() >= h + 26
            &&& s.subrange(h, h + 24) == payload
            &&& s.subrange(h + 24, h + 26) == eof
        }),
        ({
            let r = stream_frame_result(garbage + (data_header() + payload + eof) + rest);
            &&& r.1 == garbage.len() + 30
            &&& eof == data_eof() ==> r.0 is Ok && r.0->Ok_0 == decoded_targets(payload)
            &&& eof != data_eof() ==> r.0 is Err && r.0->Err_0 == RadarError::UnexpectedFrameSize
        }),
{
    let frame = data_header() + payload + eof;
    let tail = frame + rest;
    let s = garbage + frame + rest;
    let h = garbage.len() + 4int;
    assert(s =~= garbage + tail);
    assert(tail.take(4) =~= data_header());
    lemma_header_after_garbage(garbage, tail);
    assert(s.subrange(h, h + 24) =~= payload);
    assert(s.subrange(h + 24, h + 26) =~= eof);
}

/// Reads one frame from the start of `stream`: searches for the header,
/// then takes the payload and the end-of-frame marker that follow it.
/// Returns the decoded targets or the error, and the number of bytes
/// consumed. The end of the stream counts as a failing transport.
pub fn next_radar_targets_from(stream: &[u8]) -> (r: (Result<heapless::Vec<RadarTarget, 3>, RadarError>, usize))
    ensures
        r.1 == stream_frame_result(stream@).1,
        r.0 is Ok <==> stream_frame_result(stream@).0 is Ok,
        r.0 is Ok ==> target_list(r.0->Ok_0) == stream_frame_result(stream@).0->Ok_0,
        r.0 is Err ==> r.0->Err_0 == stream_frame_result(stream@).0->Err_0,
{
    let mut k: usize = 0;
    let mut i: usize = 0;
    while i < 4
        invariant
            k <= stream@.len(),
            i <= 4,
            i == match_pos(stream@.take(k as int)),
            header_end(stream@.take(k as int)) == if i == 4 { k as int } else { -1 },
        decreases stream@.len() - k, 4 - i,
    {
        if k == stream.len() {
            proof {
                assert(stream@.take(k as int) =~= stream@);
            }
            return (Err(RadarError::SerialError), k);
        }
        proof {
            lemma_search_one_more(stream@, k as int);
            lemma_match_pos_range(stream@.take(k as int + 1));
        }
        i = header_match_step(i, stream[k]);
        k += 1;
    }
    proof {
        lemma_header_end_extends(stream@, k as int);
    }
    if stream.len() - k < RADAR_DATA_FRAME_SIZE + 2 {
        return (Err(RadarError::SerialError), stream.len());
    }
    let mut payload = [0u8; 24];
    let mut j: usize = 0;
    while j < RADAR_DATA_FRAME_SIZE
        invariant
            j <= 24,
            k + 26 <= stream@.len(),
            stream@.len() <= usize::MAX,
            payload@.len() == 24,
            forall|x: int| 0 <= x < j ==> payload@[x] == stream@[k + x],
        decreases 24 - j,
    {
        payload[j] = stream[k + j];
        j += 1;
    }
    assert(payload@ =~= stream@.subrange(k as int, k + 24));
    let eof = [stream[k + 24], stream[k + 25]];
    assert(eof@ =~= stream@.subrange(k + 24, k + 26));
    (decode_frame(&payload, &eof), k + 26)
}

} // verus!
