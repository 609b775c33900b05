//! Deciding whether a newly captured frame differs enough from the last
//! delivered one to be worth delivering.
use vstd::prelude::*;

verus! {

/// Number of differing bytes up to which two equally long frames count as unchanged.
pub const DIFFERENCE_THRESHOLD: usize = 10_000;

/// Number of positions below `n` at which `a` and `b` hold different bytes.
pub open spec fn diff_count(a: Seq<u8>, b: Seq<u8>, n: int) -> nat
    decreases n,
{
    if n <= 0 {
        0
    } else {
        diff_count(a, b, n - 1) + if a[n - 1] != b[n - 1] { 1nat } else { 0nat }
    }
}

/// Number of positions at which two equally long buffers differ.
pub open spec fn byte_diff(a: Seq<u8>, b: Seq<u8>) -> nat {
    diff_count(a, b, a.len() as int)
}

/// `current` counts as a changed frame relative to `prev`: the lengths differ,
/// or more than `threshold` bytes differ.
pub open spec fn differs_beyond(prev: Seq<u8>, current: Seq<u8>, threshold: nat) -> bool {
    prev.len() != current.len() || byte_diff(prev, current) > threshold
}

/// Whether a frame is delivered, given the last delivered frame (if any).
pub open spec fn accepts(last: Option<Seq<u8>>, frame: Seq<u8>, threshold: nat) -> bool {
    match last {
        None => true,
        Some(prev) => differs_beyond(prev, frame, threshold),
    }
}

/// The count of differences never shrinks as the compared prefix grows.
pub proof fn lemma_diff_count_monotone(a: Seq<u8>, b: Seq<u8>, i: int, j: int)
    requires
        i <= j,
    ensures
        diff_count(a, b, i) <= diff_count(a, b, j),
    decreases j - i,
{
    if i < j {
        lemma_diff_count_monotone(a, b, i, j - 1);
    }
}

/// Compares two frames byte by byte, stopping as soon as more than
/// `threshold` differences have been seen.
pub fn frame_differs(prev: &[u8], current: &[u8], threshold: usize) -> (r: bool)
    ensures
        r == differs_beyond(prev@, current@, threshold as nat),
{
    if prev.len() != current.len() {
        return true;
    }
    let n = prev.len();
    let mut diff: usize = 0;
    let mut i: usize = 0;
    while i < n
        invariant
            n == prev@.len(),
            n == current@.len(),
            i <= n,
            diff as nat == diff_count(prev@, current@, i as int),
            diff <= threshold,
            diff <= i,
        decreases n - i,
    {
        if prev[i] != current[i] {
            diff = diff + 1;
            if diff > threshold {
                proof {
                    lemma_diff_count_monotone(prev@, current@, i + 1, n as int);
                }
                return true;
            }
        }
        i = i + 1;
    }
    false
}

/// Compares two frames with the default threshold.
pub fn is_frame_different(prev: &[u8], current: &[u8]) -> (r: bool)
    ensures
        r == differs_beyond(prev@, current@, DIFFERENCE_THRESHOLD as nat),
{
    frame_differs(prev, current, DIFFERENCE_THRESHOLD)
}

/// Change detection state: the last delivered frame and the threshold.
pub struct FrameDiffer {
    last: Option<Vec<u8>>,
    threshold: usize,
}

impl FrameDiffer {
    /// The last delivered frame, if any.
    pub closed spec fn last_accepted(&self) -> Option<Seq<u8>> {
        match self.last {
            None => None,
            Some(v) => Some(v@),
        }
    }

    pub closed spec fn threshold_spec(&self) -> nat {
        self.threshold as nat
    }

    /// A differ that has delivered nothing yet.
    pub fn new(threshold: usize) -> (r: FrameDiffer)
        ensures
            r.last_accepted() == None::<Seq<u8>>,
            r.threshold_spec() == threshold as nat,
    {
        FrameDiffer { last: None, threshold }
    }

    pub fn threshold(&self) -> (r: usize)
        ensures
            r as nat == self.threshold_spec(),
    {
        self.threshold
    }

    /// Decides whether `frame` is delivered; a delivered frame becomes the
    /// reference for the next comparison.
    pub fn offer(&mut self, frame: &Vec<u8>) -> (accepted: bool)
        ensures
            accepted == accepts(old(self).last_accepted(), frame@, old(self).threshold_spec()),
            final(self).threshold_spec() == old(self).threshold_spec(),
            final(self).last_accepted() == (if accepted {
                Some(frame@)
            } else {
                old(self).last_accepted()
            }),
    {
        let accepted = match &self.last {
            None => true,
            Some(prev) => frame_differs(prev.as_slice(), frame.as_slice(), self.threshold),
        };
        if accepted {
            let kept = frame.clone();
            assert(kept@ =~= frame@);
            self.last = Some(kept);
        }
        accepted
    }
}

/// The first frame of a session is always delivered, whatever it holds.
pub proof fn lemma_first_frame_delivered(frame: Seq<u8>, threshold: nat)
    ensures
        accepts(None, frame, threshold),
{
}

/// With equal lengths, exactly `threshold` differing bytes are suppressed
/// and `threshold + 1` are delivered.
pub proof fn lemma_threshold_is_strict(prev: Seq<u8>, current: Seq<u8>, threshold: nat)
    requires
        prev.len() == current.len(),
    ensures
        byte_diff(prev, current) == threshold ==> !differs_beyond(prev, current, threshold),
        byte_diff(prev, current) == threshold + 1 ==> differs_beyond(prev, current, threshold),
{
}

/// Frames of different lengths are always delivered, whatever they hold.
pub proof fn lemma_length_change_delivered(prev: Seq<u8>, current: Seq<u8>, threshold: nat)
    requires
        prev.len() != current.len(),
    ensures
        accepts(Some(prev), current, threshold),
{
}

} // verus!
