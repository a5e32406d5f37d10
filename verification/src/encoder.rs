//! Decoder of the speed dial: from the free-running tick counter of the
//! quadrature encoder to whole detents turned.

use vstd::prelude::*;

verus! {

/// Counter ticks that the encoder gives per detent of the dial.
pub const TICKS_PER_DETENT: i16 = 4;

/// Signed way from `last` to `raw` on the 16-bit counter: their difference
/// modulo 2^16, read as a two's-complement number.
pub open spec fn tick_delta(raw: u16, last: u16) -> int {
    let d = (raw - last) % 0x1_0000;
    if d >= 0x8000 {
        d - 0x1_0000
    } else {
        d
    }
}

/// The way `delta` is at least one detent long, in either direction.
pub open spec fn reaches_detent(delta: int) -> bool {
    delta >= TICKS_PER_DETENT || delta <= -TICKS_PER_DETENT
}

/// Whole detents in `delta` ticks, rounded towards zero.
pub open spec fn detents(delta: int) -> int {
    if delta >= 0 {
        delta / (TICKS_PER_DETENT as int)
    } else {
        -((-delta) / (TICKS_PER_DETENT as int))
    }
}

/// What a poll reports when the counter reads `raw` and the baseline is
/// `last`: the detents turned, or nothing while the way is shorter than one
/// detent.
pub open spec fn detent_event(last: u16, raw: u16) -> Option<i16> {
    if reaches_detent(tick_delta(raw, last)) {
        Some(detents(tick_delta(raw, last)) as i16)
    } else {
        None
    }
}

/// The baseline after such a poll: the count that was read where detents
/// were reported, the old baseline where not.
pub open spec fn next_baseline(last: u16, raw: u16) -> u16 {
    if reaches_detent(tick_delta(raw, last)) {
        raw
    } else {
        last
    }
}

/// The baseline after polls that read `raws`, first to last.
pub open spec fn baseline_after(last: u16, raws: Seq<u16>) -> u16
    decreases raws.len(),
{
    if raws.len() == 0 {
        last
    } else {
        next_baseline(baseline_after(last, raws.drop_last()), raws.last())
    }
}

/// A reading four ticks ahead of the baseline, around the counter's wrap
/// too, reports one detent forward and becomes the baseline.
pub proof fn lemma_forward_detent(last: u16, raw: u16)
    requires
        raw == (last + TICKS_PER_DETENT) % 0x1_0000,
    ensures
        detent_event(last, raw) == Some(1i16),
        next_baseline(last, raw) == raw,
{
}

/// A reading four ticks behind the baseline, around the counter's wrap too,
/// reports one detent backward and becomes the baseline.
pub proof fn lemma_backward_detent(last: u16, raw: u16)
    requires
        raw == (last - TICKS_PER_DETENT) % 0x1_0000,
    ensures
        detent_event(last, raw) == Some(-1i16),
        next_baseline(last, raw) == raw,
{
}

/// A reading less than four ticks from the baseline, in either direction,
/// reports nothing and leaves the baseline.
pub proof fn lemma_short_of_detent(last: u16, raw: u16, ticks: int)
    requires
        -TICKS_PER_DETENT < ticks < TICKS_PER_DETENT,
        raw == (last + ticks) % 0x1_0000,
    ensures
        detent_event(last, raw) is None,
        next_baseline(last, raw) == last,
{
}

/// Debounce: as long as every reading is less than a detent from the
/// baseline, no poll reports and the baseline stays, however many polls
/// there are. Each reading is held against the baseline of the last
/// report, not against the reading before it.
pub proof fn lemma_jitter_reports_nothing(last: u16, raws: Seq<u16>)
    requires
        forall|i: int| 0 <= i < raws.len() ==> !reaches_detent(tick_delta(#[trigger] raws[i], last)),
    ensures
        baseline_after(last, raws) == last,
        forall|i: int| 0 <= i < raws.len() ==> detent_event(last, #[trigger] raws[i]) is None,
    decreases raws.len(),
{
    if raws.len() > 0 {
        lemma_jitter_reports_nothing(last, raws.drop_last());
        assert(raws.last() == raws[raws.len() - 1]);
    }
}

/// A report is never zero detents, has the sign of the way turned, and
/// accounts for all of it but less than one detent.
pub proof fn lemma_report_bounds(last: u16, raw: u16)
    requires
        reaches_detent(tick_delta(raw, last)),
    ensures
        detent_event(last, raw) matches Some(n) && n != 0 && {
            let rest = tick_delta(raw, last) - n * TICKS_PER_DETENT;
            &&& -TICKS_PER_DETENT < rest < TICKS_PER_DETENT
            &&& (n > 0 ==> rest >= 0)
            &&& (n < 0 ==> rest <= 0)
        },
{
}

/// The dial's decoder. It remembers the count at which it last reported.
pub struct RotaryEncoder {
    last_count: u16,
}

impl View for RotaryEncoder {
    type V = u16;

    /// The baseline: the count at the last report.
    closed spec fn view(&self) -> u16 {
        self.last_count
    }
}

impl RotaryEncoder {
    /// A decoder whose baseline is `count`, the counter's reading at
    /// start-up.
    pub fn new(count: u16) -> (encoder: RotaryEncoder)
        ensures
            encoder@ == count,
    {
        RotaryEncoder { last_count: count }
    }

    /// The count at the last report.
    pub fn last_count(&self) -> (count: u16)
        ensures
            count == self@,
    {
        self.last_count
    }

    /// Takes a reading of the counter. Once the counter is a detent or more
    /// away from the baseline, the whole detents turned are reported and the
    /// reading becomes the baseline; until then nothing is reported and the
    /// baseline stays.
    pub fn poll(&mut self, count: u16) -> (moved: Option<i16>)
        ensures
            moved == detent_event(old(self)@, count),
            final(self)@ == next_baseline(old(self)@, count),
            moved is Some ==> moved->0 != 0,
    {
        let wrapped: u16 = count.wrapping_sub(self.last_count);
        let diff: i16 = #[verifier::truncate] (wrapped as i16);
        assert(diff == tick_delta(count, self.last_count)) by {
            assert(diff == if wrapped >= 0x8000 {
                wrapped - 0x1_0000
            } else {
                wrapped as int
            }) by (bit_vector)
                requires
                    diff == wrapped as i16,
            ;
        }
        if diff >= TICKS_PER_DETENT || diff <= -TICKS_PER_DETENT {
            self.last_count = count;
            Some(diff / TICKS_PER_DETENT)
        } else {
            None
        }
    }
}

} // verus!
