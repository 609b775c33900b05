//! The hand-off between the capture side and the delivery side: a FIFO of
//! accepted frames with an explicit overflow policy.
use vstd::prelude::*;

verus! {

/// An accepted frame with its presentation timestamp (milliseconds since the
/// session started) and the session's dimensions.
pub struct FrameEnvelope {
    pub data: Vec<u8>,
    pub pts_ms: u64,
    pub width: u32,
    pub height: u32,
}

/// What happens when a frame arrives at a full queue.
#[derive(Clone, Copy, Debug, PartialEq, Eq, Structural)]
pub enum OverflowPolicy {
    /// No bound: every frame is queued.
    Unbounded,
    /// At most this many frames; a frame arriving at a full queue is discarded.
    RejectNew(usize),
    /// At most this many frames; the oldest queued frame makes room for the new one.
    DropOldest(usize),
}

/// The queue after `env` is offered to `q` under `policy`.
pub open spec fn queued_after(policy: OverflowPolicy, q: Seq<FrameEnvelope>, env: FrameEnvelope) -> Seq<FrameEnvelope> {
    match policy {
        OverflowPolicy::Unbounded => q.push(env),
        OverflowPolicy::RejectNew(cap) => if q.len() < cap { q.push(env) } else { q },
        OverflowPolicy::DropOldest(cap) => if q.len() < cap {
            q.push(env)
        } else if cap == 0 {
            q
        } else {
            q.drop_first().push(env)
        },
    }
}

/// The frame that offering `env` to `q` under `policy` discards, if any.
pub open spec fn discarded_by(policy: OverflowPolicy, q: Seq<FrameEnvelope>, env: FrameEnvelope) -> Option<FrameEnvelope> {
    match policy {
        OverflowPolicy::Unbounded => None,
        OverflowPolicy::RejectNew(cap) => if q.len() < cap { None } else { Some(env) },
        OverflowPolicy::DropOldest(cap) => if q.len() < cap {
            None
        } else if cap == 0 {
            Some(env)
        } else {
            Some(q[0])
        },
    }
}

/// The frames in flight between capture and delivery, oldest first.
pub struct FrameQueue {
    items: Vec<FrameEnvelope>,
    policy: OverflowPolicy,
}

impl View for FrameQueue {
    type V = Seq<FrameEnvelope>;

    closed spec fn view(&self) -> Seq<FrameEnvelope> {
        self.items@
    }
}

impl FrameQueue {
    pub closed spec fn policy_spec(&self) -> OverflowPolicy {
        self.policy
    }

    /// The queue never holds more frames than its policy allows.
    pub open spec fn wf(&self) -> bool {
        match self.policy_spec() {
            OverflowPolicy::Unbounded => true,
            OverflowPolicy::RejectNew(cap) => self@.len() <= cap,
            OverflowPolicy::DropOldest(cap) => self@.len() <= cap,
        }
    }

    pub fn new(policy: OverflowPolicy) -> (r: FrameQueue)
        ensures
            r.wf(),
            r@ == Seq::<FrameEnvelope>::empty(),
            r.policy_spec() == policy,
    {
        FrameQueue { items: Vec::new(), policy }
    }

    pub fn policy(&self) -> (r: OverflowPolicy)
        ensures
            r == self.policy_spec(),
    {
        self.policy
    }

    pub fn len(&self) -> (r: usize)
        ensures
            r == self@.len(),
    {
        self.items.len()
    }

    pub fn is_empty(&self) -> (r: bool)
        ensures
            r == (self@.len() == 0),
    {
        self.items.len() == 0
    }

    /// Appends `env` at the back, as the policy allows; returns the frame
    /// that had to be discarded, if any.
    pub fn push(&mut self, env: FrameEnvelope) -> (discarded: Option<FrameEnvelope>)
        requires
            old(self).wf(),
        ensures
            final(self).wf(),
            final(self).policy_spec() == old(self).policy_spec(),
            final(self)@ == queued_after(old(self).policy_spec(), old(self)@, env),
            discarded == discarded_by(old(self).policy_spec(), old(self)@, env),
    {
        let cap = match self.policy {
            OverflowPolicy::Unbounded => {
                self.items.push(env);
                return None;
            },
            OverflowPolicy::RejectNew(cap) => cap,
            OverflowPolicy::DropOldest(cap) => cap,
        };
        if self.items.len() < cap {
            self.items.push(env);
            return None;
        }
        match self.policy {
            OverflowPolicy::DropOldest(_) => {
                if cap == 0 {
                    Some(env)
                } else {
                    let oldest = self.items.remove(0);
                    self.items.push(env);
                    proof {
                        assert(self.items@ =~= old(self)@.drop_first().push(env));
                    }
                    Some(oldest)
                }
            },
            _ => Some(env),
        }
    }

    /// Takes every queued frame out, oldest first, leaving the queue empty.
    pub fn drain(&mut self) -> (frames: Vec<FrameEnvelope>)
        requires
            old(self).wf(),
        ensures
            final(self).wf(),
            final(self).policy_spec() == old(self).policy_spec(),
            frames@ == old(self)@,
            final(self)@ == Seq::<FrameEnvelope>::empty(),
    {
        let mut frames: Vec<FrameEnvelope> = Vec::new();
        std::mem::swap(&mut frames, &mut self.items);
        proof {
            assert(self.items@ =~= Seq::<FrameEnvelope>::empty());
        }
        frames
    }
}

} // verus!
