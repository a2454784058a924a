//! Frame streaming at the C boundary: building full and partial frame
//! envelopes from caller arrays, validating stream calls, and reporting
//! acknowledgements.

use vstd::prelude::*;

use crate::collections::{opt_target, read_target, target_outcome, target_view, LuminateTarget, TargetView};
use crate::colour::{read_rgb_array, LuminateRgb, Rgb};
use crate::status::{LuminateStatus, TargetId};

verus! {

/// The daemon's answer to one uploaded frame, as handed to C.
#[derive(Debug, Clone, Copy, PartialEq, Eq, Structural)]
pub struct LuminateFrameAck {
    /// The sequence number the daemon accepted.
    pub sequence: u64,
    /// Nonzero if the frame was accepted but rate-limited, not forwarded.
    pub dropped: u8,
}

/// The daemon's answer to one uploaded frame.
#[derive(Debug, Clone, Copy, PartialEq, Eq, Structural)]
pub struct FrameAck {
    pub sequence: u64,
    pub dropped: bool,
}

/// The pixels of a frame: every pixel in order, or sparse index/colour
/// pairs.
#[derive(Debug, PartialEq)]
pub enum FramePayload {
    Full(Vec<Rgb>),
    Partial(Vec<(u32, Rgb)>),
}

/// One frame of a streaming session.
#[derive(Debug, PartialEq)]
pub struct FrameEnvelope {
    pub generation: u32,
    pub sequence: u64,
    pub payload: FramePayload,
    pub commit: bool,
}

/// Reports an acknowledgement to C: `dropped` becomes 1 or 0.
pub fn frame_ack(ack: FrameAck) -> (out: LuminateFrameAck)
    ensures
        out.sequence == ack.sequence,
        out.dropped == (if ack.dropped { 1u8 } else { 0u8 }),
{
    LuminateFrameAck { sequence: ack.sequence, dropped: if ack.dropped { 1 } else { 0 } }
}

/// Whether `frame` is the full frame of `count` caller colours.
pub open spec fn is_full_frame(frame: FrameEnvelope, generation: u32, sequence: u64, colours: Option<&[LuminateRgb]>, count: usize, commit: u8) -> bool {
    &&& frame.generation == generation
    &&& frame.sequence == sequence
    &&& frame.commit == (commit != 0)
    &&& frame.payload matches FramePayload::Full(pixels)
    &&& if count == 0 { pixels@.len() == 0 } else { colours matches Some(items) && pixels@ == items@ }
}

/// Builds a full frame from `count` caller colours; a null array with a
/// non-zero count is `NullPointer`. A nonzero `commit` commits the frame.
pub fn full_frame(
    generation: u32,
    sequence: u64,
    colours: Option<&[LuminateRgb]>,
    count: usize,
    commit: u8,
) -> (result: Result<FrameEnvelope, LuminateStatus>)
    requires
        colours matches Some(items) ==> items@.len() == count,
    ensures
        count != 0 && colours is None ==> result == Err::<FrameEnvelope, LuminateStatus>(LuminateStatus::NullPointer),
        !(count != 0 && colours is None) ==> (result matches Ok(frame)
            && is_full_frame(frame, generation, sequence, colours, count, commit)),
{
    let pixels = read_rgb_array(colours, count)?;
    Ok(FrameEnvelope { generation, sequence, payload: FramePayload::Full(pixels), commit: commit != 0 })
}

/// The index/colour pairs of a partial frame.
pub open spec fn zipped(indices: Seq<u32>, colours: Seq<Rgb>) -> Seq<(u32, Rgb)> {
    Seq::new(indices.len(), |i: int| (indices[i], colours[i]))
}

/// Whether `frame` is the partial frame of `count` caller index/colour pairs.
pub open spec fn is_partial_frame(
    frame: FrameEnvelope,
    generation: u32,
    sequence: u64,
    indices: Option<&[u32]>,
    colours: Option<&[LuminateRgb]>,
    count: usize,
    commit: u8,
) -> bool {
    &&& frame.generation == generation
    &&& frame.sequence == sequence
    &&& frame.commit == (commit != 0)
    &&& frame.payload matches FramePayload::Partial(pixels)
    &&& if count == 0 {
        pixels@.len() == 0
    } else {
        indices matches Some(is) && colours matches Some(cs) && pixels@ == zipped(is@, cs@)
    }
}

/// Builds a partial frame from `count` caller index/colour pairs; with a
/// non-zero count, a null index or colour array is `NullPointer`.
pub fn partial_frame(
    generation: u32,
    sequence: u64,
    indices: Option<&[u32]>,
    colours: Option<&[LuminateRgb]>,
    count: usize,
    commit: u8,
) -> (result: Result<FrameEnvelope, LuminateStatus>)
    requires
        indices matches Some(items) ==> items@.len() == count,
        colours matches Some(items) ==> items@.len() == count,
    ensures
        count != 0 && (indices is None || colours is None) ==> result == Err::<FrameEnvelope, LuminateStatus>(LuminateStatus::NullPointer),
        !(count != 0 && (indices is None || colours is None)) ==> (result matches Ok(frame)
            && is_partial_frame(frame, generation, sequence, indices, colours, count, commit)),
{
    if count != 0 && (indices.is_none() || colours.is_none()) {
        return Err(LuminateStatus::NullPointer);
    }
    let mut pixels: Vec<(u32, Rgb)> = Vec::new();
    if count != 0 {
        let is = match indices {
            Some(is) => is,
            None => return Err(LuminateStatus::NullPointer),
        };
        let cs = match colours {
            Some(cs) => cs,
            None => return Err(LuminateStatus::NullPointer),
        };
        let mut i: usize = 0;
        while i < count
            invariant
                is@.len() == count,
                cs@.len() == count,
                0 <= i <= count,
                pixels@ == zipped(is@, cs@).take(i as int),
            decreases count - i,
        {
            pixels.push((is[i], cs[i]));
            assert(pixels@ =~= zipped(is@, cs@).take(i + 1));
            i = i + 1;
        }
        assert(zipped(is@, cs@).take(count as int) =~= zipped(is@, cs@));
    }
    Ok(FrameEnvelope { generation, sequence, payload: FramePayload::Partial(pixels), commit: commit != 0 })
}

/// Decision for a stream call addressed to a target: a null client, then
/// the target, then a null output (when the call has one).
pub open spec fn stream_call_outcome<'a>(client_present: bool, target: Option<LuminateTarget<'a>>, out_present: bool) -> Result<TargetView, LuminateStatus> {
    if !client_present {
        Err(LuminateStatus::NullPointer)
    } else {
        match target_outcome(target) {
            Err(status) => Err(status),
            Ok(t) => if out_present { Ok(t) } else { Err(LuminateStatus::NullPointer) },
        }
    }
}

/// Validates the inputs of `luminate_client_begin_frame_stream`,
/// `luminate_client_end_frame_stream` and the frame uploads; a call without
/// an output passes `out_present` as true.
pub fn stream_call_request(client_present: bool, target: Option<&LuminateTarget>, out_present: bool) -> (result: Result<TargetId, LuminateStatus>)
    ensures
        match result {
            Ok(t) => stream_call_outcome(client_present, opt_target(target), out_present) == Ok::<TargetView, LuminateStatus>(target_view(t)),
            Err(status) => stream_call_outcome(client_present, opt_target(target), out_present) == Err::<TargetView, LuminateStatus>(status),
        },
{
    if !client_present {
        return Err(LuminateStatus::NullPointer);
    }
    let t = read_target(target)?;
    if !out_present {
        return Err(LuminateStatus::NullPointer);
    }
    Ok(t)
}

/// Validates a full-frame upload: the colour array is checked first, then
/// the client, target and acknowledgement output.
pub fn upload_full_request(
    client_present: bool,
    target: Option<&LuminateTarget>,
    generation: u32,
    sequence: u64,
    colours: Option<&[LuminateRgb]>,
    count: usize,
    commit: u8,
    out_present: bool,
) -> (result: Result<(TargetId, FrameEnvelope), LuminateStatus>)
    requires
        colours matches Some(items) ==> items@.len() == count,
    ensures
        count != 0 && colours is None ==> result == Err::<(TargetId, FrameEnvelope), LuminateStatus>(LuminateStatus::NullPointer),
        !(count != 0 && colours is None) ==> match result {
            Ok((t, frame)) => stream_call_outcome(client_present, opt_target(target), out_present)
                == Ok::<TargetView, LuminateStatus>(target_view(t))
                && is_full_frame(frame, generation, sequence, colours, count, commit),
            Err(status) => stream_call_outcome(client_present, opt_target(target), out_present)
                == Err::<TargetView, LuminateStatus>(status),
        },
{
    let frame = full_frame(generation, sequence, colours, count, commit)?;
    let t = stream_call_request(client_present, target, out_present)?;
    Ok((t, frame))
}

/// Validates a partial-frame upload: the index and colour arrays are
/// checked first, then the client, target and acknowledgement output.
pub fn upload_partial_request(
    client_present: bool,
    target: Option<&LuminateTarget>,
    generation: u32,
    sequence: u64,
    indices: Option<&[u32]>,
    colours: Option<&[LuminateRgb]>,
    count: usize,
    commit: u8,
    out_present: bool,
) -> (result: Result<(TargetId, FrameEnvelope), LuminateStatus>)
    requires
        indices matches Some(items) ==> items@.len() == count,
        colours matches Some(items) ==> items@.len() == count,
    ensures
        count != 0 && (indices is None || colours is None)
            ==> result == Err::<(TargetId, FrameEnvelope), LuminateStatus>(LuminateStatus::NullPointer),
        !(count != 0 && (indices is None || colours is None)) ==> match result {
            Ok((t, frame)) => stream_call_outcome(client_present, opt_target(target), out_present)
                == Ok::<TargetView, LuminateStatus>(target_view(t))
                && is_partial_frame(frame, generation, sequence, indices, colours, count, commit),
            Err(status) => stream_call_outcome(client_present, opt_target(target), out_present)
                == Err::<TargetView, LuminateStatus>(status),
        },
{
    let frame = partial_frame(generation, sequence, indices, colours, count, commit)?;
    let t = stream_call_request(client_present, target, out_present)?;
    Ok((t, frame))
}

} // verus!
