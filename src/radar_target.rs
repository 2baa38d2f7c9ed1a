use vstd::prelude::*;

use crate::codec::{i16_from_le_weird_sign, le_u16_value, u16_from_le, weird_sign_value};
use crate::RadarError;

verus! {

/// One tracked target as reported by the radar.
#[derive(Debug, Clone, Copy, PartialEq, Eq, Structural)]
pub struct RadarTarget {
    /// X coordinate of the target in mm
    pub x_coordinate: i16,
    /// Y coordinate of the target in mm
    pub y_coordinate: i16,
    /// Speed of the target in cm/s relative to the radar; negative values
    /// mean movement towards the radar
    pub speed: i16,
    /// The resolution of the distance measurement in mm (distance gate size)
    pub resolution: u16,
}

/// Number of bytes that describe one target slot.
pub const SLOT_SIZE: usize = 8;

/// Number of target slots in one data frame.
pub const SLOT_COUNT: usize = 3;

/// Number of payload bytes in one data frame.
pub const RADAR_DATA_FRAME_SIZE: usize = 24;

#[verifier::external_type_specification]
#[verifier::external_body]
#[verifier::reject_recursive_types(T)]
pub struct ExHeaplessVec<T, const N: usize>(heapless::Vec<T, N>);

/// The targets held by a fixed-capacity list, in order.
pub uninterp spec fn target_list(v: heapless::Vec<RadarTarget, 3>) -> Seq<RadarTarget>;

/// Relies on heapless::Vec::new: a new list holds nothing.
#[verifier::external_body]
fn new_target_list() -> (r: heapless::Vec<RadarTarget, 3>)
    ensures
        target_list(r) == Seq::<RadarTarget>::empty(),
{
    heapless::Vec::new()
}

/// Relies on heapless::Vec::push: below capacity the item is appended,
/// at capacity it is handed back and the list is unchanged.
#[verifier::external_body]
fn push_target(v: &mut heapless::Vec<RadarTarget, 3>, t: RadarTarget) -> (r: Result<(), RadarTarget>)
    ensures
        target_list(*old(v)).len() < 3 ==> r is Ok,
        target_list(*old(v)).len() < 3 ==> target_list(*final(v)) == target_list(*old(v)).push(t),
        target_list(*old(v)).len() >= 3 ==> r is Err && r->Err_0 == t,
        target_list(*old(v)).len() >= 3 ==> *final(v) == *old(v),
{
    v.push(t)
}

impl RadarTarget {
    /// A target is untracked when all four fields are zero.
    pub open spec fn spec_untracked(self) -> bool {
        self.x_coordinate == 0 && self.y_coordinate == 0 && self.speed == 0 && self.resolution == 0
    }

    /// The target that eight slot bytes describe.
    pub open spec fn from_slot_bytes(s: Seq<u8>) -> RadarTarget {
        RadarTarget {
            x_coordinate: weird_sign_value(s[0], s[1]) as i16,
            y_coordinate: weird_sign_value(s[2], s[3]) as i16,
            speed: weird_sign_value(s[4], s[5]) as i16,
            resolution: le_u16_value(s[6], s[7]) as u16,
        }
    }

    /// Returns true if there is no target being tracked (all zeroes)
    pub fn is_untracked(&self) -> (r: bool)
        ensures
            r == self.spec_untracked(),
    {
        self.x_coordinate == 0 && self.y_coordinate == 0 && self.speed == 0 && self.resolution == 0
    }

    /// Decodes one eight-byte target slot; any other length is a framing error.
    pub fn from_slot(data: &[u8]) -> (r: Result<RadarTarget, RadarError>)
        ensures
            data@.len() == 8 ==> r is Ok && r->Ok_0 == RadarTarget::from_slot_bytes(data@),
            data@.len() != 8 ==> r is Err && r->Err_0 == RadarError::UnexpectedFrameSize,
    {
        if data.len() != SLOT_SIZE {
            return Err(RadarError::UnexpectedFrameSize);
        }
        Ok(RadarTarget {
            x_coordinate: i16_from_le_weird_sign([data[0], data[1]]),
            y_coordinate: i16_from_le_weird_sign([data[2], data[3]]),
            speed: i16_from_le_weird_sign([data[4], data[5]]),
            resolution: u16_from_le(data[6], data[7]),
        })
    }
}

impl<'a> TryFrom<&'a [u8]> for RadarTarget {
    type Error = RadarError;

    fn try_from(data: &'a [u8]) -> (r: Result<RadarTarget, RadarError>) {
        RadarTarget::from_slot(data)
    }
}

impl<'a> vstd::std_specs::convert::TryFromSpecImpl<&'a [u8]> for RadarTarget {
    open spec fn obeys_try_from_spec() -> bool {
        true
    }

    open spec fn try_from_spec(data: &'a [u8]) -> Result<RadarTarget, RadarError> {
        if data@.len() == 8 {
            Ok(RadarTarget::from_slot_bytes(data@))
        } else {
            Err(RadarError::UnexpectedFrameSize)
        }
    }
}

/// The target described by slot `i` of a frame payload.
pub open spec fn slot_target(payload: Seq<u8>, i: int) -> RadarTarget {
    RadarTarget::from_slot_bytes(payload.subrange(8 * i, 8 * i + 8))
}

/// The targets of the first `n` slots of a payload, untracked ones left out,
/// in slot order.
pub open spec fn tracked_in_slots(payload: Seq<u8>, n: int) -> Seq<RadarTarget>
    decreases n,
{
    if n <= 0 {
        Seq::empty()
    } else {
        let t = slot_target(payload, n - 1);
        let before = tracked_in_slots(payload, n - 1);
        if t.spec_untracked() {
            before
        } else {
            before.push(t)
        }
    }
}

/// The targets of a whole frame payload, untracked slots left out, in slot order.
pub open spec fn decoded_targets(payload: Seq<u8>) -> Seq<RadarTarget> {
    tracked_in_slots(payload, 3)
}

/// A target as a sequence of at most one element: empty when untracked.
pub open spec fn kept(t: RadarTarget) -> Seq<RadarTarget> {
    if t.spec_untracked() {
        Seq::empty()
    } else {
        seq![t]
    }
}

/// An all-zero slot is left out of a frame's targets: what remains are the
/// tracked targets of the other two slots, in slot order, and fewer than three.
pub proof fn lemma_zero_slot_dropped(payload: Seq<u8>, i: int)
    requires
        payload.len() == 24,
        0 <= i < 3,
        payload.subrange(8 * i, 8 * i + 8) == Seq::new(8, |j: int| 0u8),
    ensures
        decoded_targets(payload).len() < 3,
        i == 0 ==> decoded_targets(payload) == kept(slot_target(payload, 1)) + kept(slot_target(payload, 2)),
        i == 1 ==> decoded_targets(payload) == kept(slot_target(payload, 0)) + kept(slot_target(payload, 2)),
        i == 2 ==> decoded_targets(payload) == kept(slot_target(payload, 0)) + kept(slot_target(payload, 1)),
{
    let z = payload.subrange(8 * i, 8 * i + 8);
    assert(z[0] == 0 && z[1] == 0 && z[2] == 0 && z[3] == 0 && z[4] == 0 && z[5] == 0 && z[6] == 0 && z[7] == 0);
    assert(slot_target(payload, i).spec_untracked());
    reveal_with_fuel(tracked_in_slots, 4);
    let k0 = kept(slot_target(payload, 0));
    let k1 = kept(slot_target(payload, 1));
    let k2 = kept(slot_target(payload, 2));
    assert(tracked_in_slots(payload, 1) =~= k0);
    assert(tracked_in_slots(payload, 2) =~= k0 + k1);
    assert(decoded_targets(payload) =~= k0 + k1 + k2);
}

/// Decodes the three target slots of a frame payload, leaving out the
/// untracked ones and keeping slot order.
pub fn decode_radar_targets(data: &[u8; 24]) -> (r: Result<heapless::Vec<RadarTarget, 3>, RadarError>)
    ensures
        r is Ok,
        r matches Ok(v) ==> target_list(v) == decoded_targets(data@),
{
    let mut targets = new_target_list();
    let mut i: usize = 0;
    while i < SLOT_COUNT
        invariant
            0 <= i <= 3,
            data@.len() == 24,
            target_list(targets) == tracked_in_slots(data@, i as int),
            target_list(targets).len() <= i,
        decreases 3 - i,
    {
        let slot = vstd::slice::slice_subrange(data.as_slice(), i * SLOT_SIZE, (i + 1) * SLOT_SIZE);
        let target = RadarTarget::from_slot(slot)?;
        if !target.is_untracked() {
            let _ = push_target(&mut targets, target);
        }
        i += 1;
    }
    Ok(targets)
}

} // verus!
