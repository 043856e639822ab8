use vstd::prelude::*;
use crate::scorer::{
    abs_delta, fits, lemma_same_frame_twice_scores_zero, lemma_uniform_delta_magnitude, lumas,
    magnitude_of, score, NOISE_THRESHOLD,
};
use crate::skip::{should_skip, skip_spec, MAX_DIFF};
use crate::timeline::{rescale_spec, OutputCursor, TimeBase};

verus! {

/// Decoder timestamps are grouped into diagnostic buckets of this many units.
pub const LOG_BUCKET_UNITS: u64 = 10000;

/// Diagnostic bucket of a decoder timestamp.
pub open spec fn bucket_of(timestamp: u64) -> u64 {
    timestamp / LOG_BUCKET_UNITS
}

/// What the filter decided about one frame.
#[derive(Clone, Copy, Debug, PartialEq, Eq, Structural)]
pub struct FrameOutcome {
    /// The frame is dropped.
    pub skip: bool,
    /// Change magnitude divided by the threshold.
    pub normalized: u128,
    /// The bucket to report in a diagnostic line, when one is due.
    pub log_bucket: Option<u64>,
    /// Presentation timestamp, in the encoder's time base, for a kept frame.
    pub pts: Option<u128>,
}

/// State carried from frame to frame: the grey baseline of the previous
/// decoded frame, the output cursor, the last bucket logged and the threshold.
pub struct FrameFilter {
    pub baseline: Vec<u8>,
    pub cursor: OutputCursor,
    pub last_logged: Option<u64>,
    pub max_diff: u128,
}

impl FrameFilter {
    pub open spec fn wf(&self) -> bool {
        self.cursor.wf() && self.max_diff > 0
    }

    /// A filter with an empty baseline, a cursor at zero and nothing logged.
    pub fn new(max_diff: u128) -> (r: FrameFilter)
        requires
            max_diff > 0,
        ensures
            r.wf(),
            r.baseline@.len() == 0,
            r.cursor.value == 0,
            r.cursor == OutputCursor::new_spec(),
            r.last_logged.is_none(),
            r.max_diff == max_diff,
    {
        FrameFilter { baseline: Vec::new(), cursor: OutputCursor::new(), last_logged: None, max_diff }
    }

    /// A filter with the default threshold.
    pub fn with_default_threshold() -> (r: FrameFilter)
        ensures
            r.wf(),
            r.baseline@.len() == 0,
            r.cursor == OutputCursor::new_spec(),
            r.last_logged.is_none(),
            r.max_diff == MAX_DIFF,
    {
        FrameFilter::new(MAX_DIFF)
    }

    /// Runs one decoded frame through the filter: score it against the
    /// previous frame, decide whether to keep it, say whether a diagnostic
    /// line is due, and stamp it from the cursor when it is kept.
    pub fn process_frame(&mut self, data: &[u8], timestamp: u64, encoder_time_base: TimeBase) -> (out:
        FrameOutcome)
        requires
            old(self).wf(),
            fits(old(self).baseline@, data@),
            encoder_time_base.wf(),
            old(self).cursor.value + old(self).cursor.step <= u64::MAX,
        ensures
            final(self).wf(),
            final(self).baseline@ == lumas(data@),
            final(self).baseline@.len() == data@.len() / 3,
            final(self).max_diff == old(self).max_diff,
            out.skip == skip_spec(
                magnitude_of(old(self).baseline@, lumas(data@)),
                old(self).max_diff as nat,
            ),
            out.normalized as nat == magnitude_of(old(self).baseline@, lumas(data@))
                / old(self).max_diff as nat,
            out.log_bucket == (if old(self).last_logged == Some(bucket_of(timestamp)) {
                None::<u64>
            } else {
                Some(bucket_of(timestamp))
            }),
            final(self).last_logged == Some(bucket_of(timestamp)),
            out.skip ==> out.pts.is_none() && final(self).cursor == old(self).cursor,
            !out.skip ==> out.pts == Some(
                rescale_spec(
                    old(self).cursor.value as nat,
                    old(self).cursor.time_base,
                    encoder_time_base,
                ) as u128,
            ),
            !out.skip ==> final(self).cursor.value == old(self).cursor.value + old(self).cursor.step,
            final(self).cursor.time_base == old(self).cursor.time_base,
            final(self).cursor.step == old(self).cursor.step,
    {
        let magnitude = score(&mut self.baseline, data);
        let skip = should_skip(magnitude, self.max_diff);
        let normalized = magnitude / self.max_diff;
        let bucket = timestamp / LOG_BUCKET_UNITS;
        let log_bucket = match self.last_logged {
            Some(b) if b == bucket => None,
            _ => Some(bucket),
        };
        self.last_logged = Some(bucket);
        let pts = if skip {
            None
        } else {
            Some(self.cursor.advance(encoder_time_base))
        };
        FrameOutcome { skip, normalized, log_bucket, pts }
    }
}

/// A frame identical to the one before it is always skipped, so a run of
/// identical frames never moves the output cursor after the first one.
pub proof fn lemma_identical_frames_skipped(data: Seq<u8>, max_diff: nat)
    requires
        max_diff > 0,
    ensures
        magnitude_of(lumas(data), lumas(data)) == 0,
        skip_spec(magnitude_of(lumas(data), lumas(data)), max_diff),
{
    lemma_same_frame_twice_scores_zero(data);
}

/// A frame in which every pixel moved by the same `delta` above the noise
/// threshold has magnitude `pixel_count * delta`, and is kept exactly when
/// that product reaches the threshold.
pub proof fn lemma_uniform_change_decision(
    before: Seq<u8>,
    now: Seq<u8>,
    delta: nat,
    max_diff: nat,
)
    requires
        before.len() == now.len(),
        before.len() > 0,
        delta > NOISE_THRESHOLD as nat,
        forall|i: int| 0 <= i < now.len() ==> abs_delta(#[trigger] before[i], now[i]) == delta,
        max_diff > 0,
    ensures
        magnitude_of(before, now) == now.len() * delta,
        skip_spec(magnitude_of(before, now), max_diff) <==> now.len() * delta < max_diff,
{
    lemma_uniform_delta_magnitude(before, now, delta);
}

} // verus!
