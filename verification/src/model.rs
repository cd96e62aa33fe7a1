//! Mathematical model of the session's transcript buffers.
//!
//! The pair of buffers — the confirmed segments and the current provisional
//! text — is modelled as [`BufferModel`]. Each transcription event maps the
//! pair to a new pair through [`transcription_step`]; the rendered transcript
//! is [`render_segments`].

use vstd::prelude::*;

verus! {

/// The two transcript buffers of one session: the confirmed segments,
/// in arrival order, and the provisional text of the in-flight utterance.
#[verifier::ext_equal]
pub struct BufferModel {
    pub confirmed: Seq<Seq<char>>,
    pub current: Seq<char>,
}

impl BufferModel {
    /// Both buffers empty, as at session start.
    pub open spec fn empty() -> BufferModel {
        BufferModel { confirmed: Seq::empty(), current: Seq::empty() }
    }
}

/// The confirmed-append rule: a non-empty text becomes a new confirmed
/// segment; empty text is not recorded.
pub open spec fn append_segment(confirmed: Seq<Seq<char>>, text: Seq<char>) -> Seq<Seq<char>> {
    if text.len() > 0 {
        confirmed.push(text)
    } else {
        confirmed
    }
}

/// Effect of one transcription event on the buffer pair.
///
/// A final event confirms the utterance: its text is appended under the
/// confirmed-append rule and the provisional text is cleared, as one step.
/// A partial event replaces the provisional text wholesale — the recognizer
/// delivers the full in-progress utterance each time, not a delta.
pub open spec fn transcription_step(b: BufferModel, text: Seq<char>, is_final: bool) -> BufferModel {
    if is_final {
        BufferModel { confirmed: append_segment(b.confirmed, text), current: Seq::empty() }
    } else {
        BufferModel { confirmed: b.confirmed, current: text }
    }
}

/// The buffer pair after a sequence of partial events, applied in order.
pub open spec fn apply_partials(b: BufferModel, partials: Seq<Seq<char>>) -> BufferModel
    decreases partials.len(),
{
    if partials.len() == 0 {
        b
    } else {
        transcription_step(apply_partials(b, partials.drop_last()), partials.last(), false)
    }
}

/// Partial events never touch the confirmed segments.
pub proof fn lemma_apply_partials_confirmed(b: BufferModel, partials: Seq<Seq<char>>)
    ensures
        apply_partials(b, partials).confirmed == b.confirmed,
    decreases partials.len(),
{
    if partials.len() > 0 {
        lemma_apply_partials_confirmed(b, partials.drop_last());
    }
}

/// Any run of partial events followed by a final event for the same
/// utterance leaves the provisional text empty and appends exactly the final
/// text as the newest confirmed segment: the partial texts are discarded,
/// not concatenated.
pub proof fn lemma_partials_then_final(b: BufferModel, partials: Seq<Seq<char>>, f: Seq<char>)
    requires
        f.len() > 0,
    ensures
        transcription_step(apply_partials(b, partials), f, true).current == Seq::<char>::empty(),
        transcription_step(apply_partials(b, partials), f, true).confirmed == b.confirmed.push(f),
        transcription_step(apply_partials(b, partials), f, true).confirmed.last() == f,
{
    lemma_apply_partials_confirmed(b, partials);
}

/// The confirmed segments grow monotonically: no transcription event ever
/// removes or rewrites a segment already confirmed, it can only append one.
pub proof fn lemma_step_grows_confirmed(b: BufferModel, text: Seq<char>, is_final: bool)
    ensures
        b.confirmed.is_prefix_of(transcription_step(b, text, is_final).confirmed),
{
    let after = transcription_step(b, text, is_final).confirmed;
    assert(b.confirmed =~= after.subrange(0, b.confirmed.len() as int));
}

/// The rendered transcript: the confirmed segments joined by a line feed.
pub open spec fn render_segments(segs: Seq<Seq<char>>) -> Seq<char>
    decreases segs.len(),
{
    if segs.len() == 0 {
        Seq::empty()
    } else if segs.len() == 1 {
        segs[0]
    } else {
        render_segments(segs.drop_last()) + seq!['\n'] + segs.last()
    }
}

/// Unrolls [`render_segments`] by one segment from the front, as a rendering
/// loop consumes its input.
pub proof fn lemma_render_take_succ(segs: Seq<Seq<char>>, i: int)
    requires
        0 <= i < segs.len(),
    ensures
        render_segments(segs.take(i + 1)) == if i == 0 {
            segs[0]
        } else {
            render_segments(segs.take(i)) + seq!['\n'] + segs[i]
        },
{
    let t = segs.take(i + 1);
    if i > 0 {
        assert(t.drop_last() =~= segs.take(i));
        assert(t.last() == segs[i]);
    }
}

/// Elapsed whole seconds of a session that started at `started_at`, read at
/// `now`: zero with no start mark or a clock that moved backwards, and
/// saturating at the widest value the status record can carry.
pub open spec fn duration_seconds_of(started_at: Option<int>, now: int) -> int {
    match started_at {
        Option::None => 0,
        Option::Some(t) => if now <= t {
            0
        } else if now - t > i32::MAX {
            i32::MAX as int
        } else {
            now - t
        },
    }
}

} // verus!
