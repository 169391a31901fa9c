//! Properties of strip-level inference and of the batch protocol.
use vstd::prelude::*;
use crate::batch::{initial, pending, transition, valid, ActionView, BatchView, EventView, PatchErrorView, StageView};
use crate::strip::{chosen_level, level_from};

verus! {

/// The batch after answering its actions with `events`, in order.
pub open spec fn run(s: BatchView, events: Seq<EventView>) -> BatchView
    decreases events.len(),
{
    if events.len() == 0 {
        s
    } else {
        run(transition(s, events[0]), events.drop_first())
    }
}

/// Where no candidate at or after `i` has an existing path, the level
/// chosen from `i` on is 1.
proof fn lemma_no_match_from(cands: Seq<(nat, Seq<char>)>, exists: Seq<bool>, i: int)
    requires
        0 <= i,
        forall|j: int| i <= j < cands.len() && j < exists.len() ==> !exists[j],
    ensures
        level_from(cands, exists, i) == 1,
    decreases cands.len() - i,
{
    if i < cands.len() && i < exists.len() {
        lemma_no_match_from(cands, exists, i + 1);
    }
}

/// Where no probed path exists, the strip level is 1.
pub proof fn lemma_no_match_defaults_to_one(cands: Seq<(nat, Seq<char>)>, exists: Seq<bool>)
    requires
        forall|i: int| 0 <= i < cands.len() && i < exists.len() ==> !exists[i],
    ensures
        chosen_level(cands, exists) == 1,
{
    lemma_no_match_from(cands, exists, 0);
}

/// Where the first existing path at or after `i` is that of candidate `k`,
/// the level chosen from `i` on is the level of `k`.
proof fn lemma_first_match_from(cands: Seq<(nat, Seq<char>)>, exists: Seq<bool>, i: int, k: int)
    requires
        0 <= i <= k < cands.len(),
        k < exists.len(),
        exists[k],
        forall|j: int| i <= j < k ==> !exists[j],
    ensures
        level_from(cands, exists, i) == cands[k].0,
    decreases k - i,
{
    if i < k {
        lemma_first_match_from(cands, exists, i + 1, k);
    }
}

/// The first probed path that exists decides the strip level: its
/// candidate's level is chosen.
pub proof fn lemma_first_match_wins(cands: Seq<(nat, Seq<char>)>, exists: Seq<bool>, k: int)
    requires
        0 <= k < cands.len(),
        k < exists.len(),
        exists[k],
        forall|j: int| 0 <= j < k ==> !exists[j],
    ensures
        chosen_level(cands, exists) == cands[k].0,
{
    lemma_first_match_from(cands, exists, 0, k);
}

/// A patch whose text does not parse is applied with strip level 1, and no
/// error comes of it.
pub proof fn lemma_unparsable_defaults_to_one(s: BatchView)
    requires
        valid(s),
        s.stage is Reading,
    ensures
        transition(s, EventView::Parsed(None)).stage == StageView::Running(1),
        pending(transition(s, EventView::Parsed(None))) == (ActionView::RunTool {
            strip_level: 1,
            patch: s.patches[s.current as int],
            work_dir: s.work_dir,
        }),
{
}

/// A batch of no patches ends in success at once, without running the tool.
pub proof fn lemma_empty_batch_succeeds(work_dir: Seq<char>, base_dir: Seq<char>)
    ensures
        pending(initial(Seq::empty(), work_dir, base_dir)) == ActionView::Finish(Ok(())),
{
}

/// Once a batch is over, it stays over whatever comes after: it asks for no
/// more reads, probes or tool runs.
pub proof fn lemma_done_is_final(s: BatchView, events: Seq<EventView>)
    requires
        s.stage is Done,
    ensures
        run(s, events) == s,
        pending(run(s, events)) == ActionView::Finish(s.stage->Done_0),
    decreases events.len(),
{
    if events.len() > 0 {
        assert(transition(s, events[0]) == s);
        lemma_done_is_final(s, events.drop_first());
    }
}

/// When the tool fails on the current patch, the batch ends with an error
/// that names that patch, and no later patch is ever handed to the tool.
pub proof fn lemma_tool_failure_stops_batch(s: BatchView, events: Seq<EventView>)
    requires
        valid(s),
        s.stage is Running,
    ensures
        run(transition(s, EventView::ToolExited(false)), events).stage == StageView::Done(
            Err(PatchErrorView::PatchFailed(s.patches[s.current as int])),
        ),
        pending(run(transition(s, EventView::ToolExited(false)), events)) == ActionView::Finish(
            Err(PatchErrorView::PatchFailed(s.patches[s.current as int])),
        ),
{
    lemma_done_is_final(transition(s, EventView::ToolExited(false)), events);
}

/// When the tool cannot be found, the batch ends with that error, and no
/// later patch is read or handed to the tool.
pub proof fn lemma_missing_tool_stops_batch(s: BatchView, events: Seq<EventView>)
    requires
        valid(s),
        s.stage is Running,
    ensures
        run(transition(s, EventView::ToolMissing), events).stage == StageView::Done(
            Err(PatchErrorView::ToolUnavailable),
        ),
        pending(run(transition(s, EventView::ToolMissing), events)) == ActionView::Finish(
            Err(PatchErrorView::ToolUnavailable),
        ),
{
    lemma_done_is_final(transition(s, EventView::ToolMissing), events);
}

/// Every transition keeps a batch valid.
pub proof fn lemma_transition_keeps_valid(s: BatchView, events: Seq<EventView>)
    requires
        valid(s),
    ensures
        valid(run(s, events)),
    decreases events.len(),
{
    if events.len() > 0 {
        lemma_transition_keeps_valid(transition(s, events[0]), events.drop_first());
    }
}

} // verus!
