//! Turning accepted frames into delivery payloads, and the decisions of the
//! delivery loop.
use vstd::prelude::*;
use crate::channel::FrameEnvelope;

verus! {

pub const NANOS_PER_MILLI: u64 = 1_000_000;

/// The compact JSON text of the object `{data, pts, width, height}`, `data`
/// being an array of the bytes as numbers.
pub uninterp spec fn payload_json(data: Seq<u8>, pts: u64, width: u32, height: u32) -> Seq<char>;

/// Relies on serde_json's `Map::insert`, `Value::from` (for a byte slice and
/// for integers) and `Value`'s `Display`: the compact text of the object
/// built from these four fields, a function of them alone.
#[verifier::external_body]
fn frame_payload_json(data: &Vec<u8>, pts: u64, width: u32, height: u32) -> (r: String)
    ensures
        r@ == payload_json(data@, pts, width, height),
{
    let mut fields = serde_json::Map::new();
    fields.insert(String::from("data"), serde_json::Value::from(data.as_slice()));
    fields.insert(String::from("pts"), serde_json::Value::from(pts));
    fields.insert(String::from("width"), serde_json::Value::from(width));
    fields.insert(String::from("height"), serde_json::Value::from(height));
    serde_json::Value::Object(fields).to_string()
}

/// Whole milliseconds in `nanos` nanoseconds.
pub fn elapsed_to_pts_ms(nanos: u64) -> (ms: u64)
    ensures
        ms == nanos / NANOS_PER_MILLI,
{
    nanos / NANOS_PER_MILLI
}

/// The payload that carries an envelope.
pub open spec fn payload_of(env: FrameEnvelope) -> Seq<char> {
    payload_json(env.data@, env.pts_ms, env.width, env.height)
}

impl FrameEnvelope {
    /// The serialized form of this frame: `{data, pts, width, height}`.
    pub fn payload(&self) -> (r: String)
        ensures
            r@ == payload_of(*self),
    {
        frame_payload_json(&self.data, self.pts_ms, self.width, self.height)
    }
}

/// The payloads of `frames`, in the same order, one per frame.
pub fn payloads(frames: &Vec<FrameEnvelope>) -> (r: Vec<String>)
    ensures
        r@.len() == frames@.len(),
        forall|i: int| 0 <= i < frames@.len() ==> #[trigger] r@[i]@ == payload_of(frames@[i]),
{
    let mut out: Vec<String> = Vec::new();
    let mut i: usize = 0;
    while i < frames.len()
        invariant
            i <= frames@.len(),
            out@.len() == i,
            forall|k: int| 0 <= k < i ==> #[trigger] out@[k]@ == payload_of(frames@[k]),
        decreases frames@.len() - i,
    {
        let p = frames[i].payload();
        out.push(p);
        i = i + 1;
    }
    out
}

/// What the delivery loop does next.
#[derive(Clone, Copy, Debug, PartialEq, Eq, Structural)]
pub enum DeliveryStep {
    /// Frames are waiting: take them and send them.
    Forward,
    /// Nothing is waiting but capture is still running: wait and look again.
    Wait,
    /// Capture has ended and nothing is left: the loop ends.
    Finish,
}

/// Queued frames are always sent first; the loop ends only once capture has
/// ended and the queue is empty.
pub open spec fn delivery_step_of(capturing: bool, pending: nat) -> DeliveryStep {
    if pending > 0 {
        DeliveryStep::Forward
    } else if capturing {
        DeliveryStep::Wait
    } else {
        DeliveryStep::Finish
    }
}

pub fn next_delivery_step(capturing: bool, pending: usize) -> (r: DeliveryStep)
    ensures
        r == delivery_step_of(capturing, pending as nat),
{
    if pending > 0 {
        DeliveryStep::Forward
    } else if capturing {
        DeliveryStep::Wait
    } else {
        DeliveryStep::Finish
    }
}

/// How a single send to the transport went.
#[derive(Clone, Copy, Debug, PartialEq, Eq, Structural)]
pub enum SendOutcome {
    Sent,
    /// This message was lost; the transport still works.
    Failed,
    /// The transport is gone (channel disconnected, socket closed).
    Closed,
}

/// A failed send is skipped; only a closed transport ends the delivery loop.
pub fn keeps_emitting(outcome: SendOutcome) -> (r: bool)
    ensures
        r == (outcome != SendOutcome::Closed),
{
    match outcome {
        SendOutcome::Closed => false,
        _ => true,
    }
}

} // verus!
