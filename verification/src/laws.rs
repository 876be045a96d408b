//! What holds of every fetch, whatever the repository and the filesystem do.
//!
//! A run is told by the states that a fetch passes, the events it is given
//! and the actions it gives. The laws below are stated of all runs.

use crate::codec::lz4_frame_payload;
use crate::error::FetchErrorView;
use crate::pipeline::{
    lemma_prefix_grows, lemma_prefix_whole, stepped, ActionView, EventView, FetchView, Stage,
};
use crate::target::{
    escapes_directory, joined, lemma_destination_inside, parent_component_at, target_refusal,
};
use vstd::prelude::*;

verus! {

/// Whether `states`, `events` and `actions` tell a run: it begins at a fetch
/// on which nothing was done, and each event takes one state to the next and
/// gives one action.
pub open spec fn is_run(
    states: Seq<FetchView>,
    events: Seq<EventView>,
    actions: Seq<ActionView>,
) -> bool {
    &&& states.len() == events.len() + 1
    &&& actions.len() == events.len()
    &&& states[0].stage == Stage::Start
    &&& states[0].inv()
    &&& forall|i: int|
        0 <= i < events.len() ==> stepped(states[i], events[i], states[i + 1], #[trigger] actions[i])
}

/// The bytes that `actions` ask to be written to the destination file, in order.
pub open spec fn written(actions: Seq<ActionView>) -> Seq<u8>
    decreases actions.len(),
{
    if actions.len() == 0 {
        Seq::empty()
    } else {
        match actions.last() {
            ActionView::Write { block } => written(actions.drop_last()) + block,
            _ => written(actions.drop_last()),
        }
    }
}

/// The bytes that the repository's stream delivered in the first `k` events
/// of a run: the chunks that arrived while the target's stream was being
/// received, in order.
pub open spec fn streamed_in(states: Seq<FetchView>, events: Seq<EventView>, k: int) -> Seq<u8>
    decreases k,
{
    if k <= 0 {
        Seq::empty()
    } else if states[k - 1].stage == Stage::TargetResolved && events[k - 1] is Chunk {
        streamed_in(states, events, k - 1) + events[k - 1]->Chunk_0
    } else {
        streamed_in(states, events, k - 1)
    }
}

/// Whether an action has the caller touch the destination file.
pub open spec fn touches_file(action: ActionView) -> bool {
    action is OpenFile || action is Write
}

/// Whether an action has the caller ask the repository for the target, read
/// its stream or touch the destination file.
pub open spec fn touches_target(action: ActionView) -> bool {
    action is ReadTarget || action is NextChunk || action is OpenFile || action is Write
}

/// Every transition keeps what holds of a fetch at every moment.
pub proof fn lemma_step_keeps_inv(
    pre: FetchView,
    event: EventView,
    post: FetchView,
    action: ActionView,
)
    requires
        pre.inv(),
        stepped(pre, event, post, action),
    ensures
        post.inv(),
        post.target == pre.target,
        post.outdir == pre.outdir,
        pre.file_requested ==> post.file_requested,
        post.streamed == if pre.stage == Stage::TargetResolved && event is Chunk {
            pre.streamed + event->Chunk_0
        } else {
            pre.streamed
        },
        action matches ActionView::Write { block } ==> post.delivered == pre.delivered + block
            && pre.file_requested,
        action !is Write ==> post.delivered == pre.delivered,
        action is OpenFile ==> post.file_requested,
{
    if (pre.stage == Stage::StreamOpened && event is FileOpened) || (pre.stage
        == Stage::Decompressing && event is BlockWritten) {
        if let Some(payload) = lz4_frame_payload(pre.streamed) {
            let rest = payload.skip(pre.delivered.len() as int);
            if rest.len() == 0 {
                lemma_prefix_whole(payload, pre.delivered);
            } else {
                lemma_prefix_grows(payload, pre.delivered, action->block);
            }
        }
    }
    if pre.stage == Stage::TargetResolved {
        if let Some(payload) = lz4_frame_payload(post.streamed) {
            assert(post.delivered =~= payload.subrange(0, 0));
        }
    }
}

/// At every point of a run: the invariant holds, the target is the one the
/// run began with, what the fetch counts as streamed is what the chunks
/// brought, and what it counts as handed out is what the actions asked to be
/// written.
pub proof fn lemma_run_so_far(
    states: Seq<FetchView>,
    events: Seq<EventView>,
    actions: Seq<ActionView>,
    k: int,
)
    requires
        is_run(states, events, actions),
        0 <= k <= events.len(),
    ensures
        states[k].inv(),
        states[k].target == states[0].target,
        states[k].outdir == states[0].outdir,
        states[k].streamed == streamed_in(states, events, k),
        states[k].delivered == written(actions.take(k)),
        !states[k].file_requested ==> forall|j: int| 0 <= j < k ==> !touches_file(actions[j]),
    decreases k,
{
    if k == 0 {
        assert(actions.take(0) =~= Seq::empty());
        assert(states[0].delivered =~= Seq::empty());
        assert(states[0].streamed =~= Seq::empty());
    } else {
        lemma_run_so_far(states, events, actions, k - 1);
        let last = actions[k - 1];
        assert(stepped(states[k - 1], events[k - 1], states[k], last));
        lemma_step_keeps_inv(states[k - 1], events[k - 1], states[k], last);
        assert(actions.take(k).drop_last() =~= actions.take(k - 1));
        assert(actions.take(k).last() == last);
    }
}

/// Round trip. When a run ends with the image written, the bytes that it
/// asked to be written, in order, are exactly the payload of the LZ4 frame
/// that the chunks of the repository's stream make up, in order.
pub proof fn law_round_trip(
    states: Seq<FetchView>,
    events: Seq<EventView>,
    actions: Seq<ActionView>,
)
    requires
        is_run(states, events, actions),
        states.last().stage == Stage::Written,
    ensures
        lz4_frame_payload(streamed_in(states, events, events.len() as int)) == Some(
            written(actions),
        ),
{
    lemma_run_so_far(states, events, actions, events.len() as int);
    assert(actions.take(events.len() as int) =~= actions);
}

/// Idempotence. Two runs that end with the image written, on streams of the
/// same bytes, ask for the same bytes to be written, however the stream was
/// cut into chunks and the payload into blocks.
pub proof fn law_same_stream_same_image(
    states1: Seq<FetchView>,
    events1: Seq<EventView>,
    actions1: Seq<ActionView>,
    states2: Seq<FetchView>,
    events2: Seq<EventView>,
    actions2: Seq<ActionView>,
)
    requires
        is_run(states1, events1, actions1),
        is_run(states2, events2, actions2),
        states1.last().stage == Stage::Written,
        states2.last().stage == Stage::Written,
        streamed_in(states1, events1, events1.len() as int) == streamed_in(
            states2,
            events2,
            events2.len() as int,
        ),
    ensures
        written(actions1) == written(actions2),
{
    law_round_trip(states1, events1, actions1);
    law_round_trip(states2, events2, actions2);
}

/// A missing target. When the repository answers that it does not list the
/// target, the fetch fails with `TargetMissing`, naming the target, and no
/// action of the run has had the caller touch the destination file.
pub proof fn law_missing_target(
    states: Seq<FetchView>,
    events: Seq<EventView>,
    actions: Seq<ActionView>,
    k: int,
)
    requires
        is_run(states, events, actions),
        0 <= k < events.len(),
        states[k].stage == Stage::RepoLoaded,
        events[k] == EventView::TargetAbsent,
    ensures
        actions[k] == ActionView::Fail(
            FetchErrorView::TargetMissing { target: states[0].target },
        ),
        states[k + 1].stage == Stage::Failed,
        forall|j: int| 0 <= j <= k ==> !touches_file(actions[j]),
{
    lemma_run_so_far(states, events, actions, k);
    lemma_run_so_far(states, events, actions, k + 1);
    assert(stepped(states[k], events[k], states[k + 1], actions[k]));
}

/// In a run whose target's name is refused, the fetch never leaves `Start`
/// but to fail, and gives no action but to say so.
proof fn lemma_refused_name_stops(
    states: Seq<FetchView>,
    events: Seq<EventView>,
    actions: Seq<ActionView>,
    k: int,
)
    requires
        is_run(states, events, actions),
        target_refusal(states[0].target) is Some,
        0 <= k <= events.len(),
    ensures
        states[k].stage == Stage::Start || states[k].stage == Stage::Failed,
        states[k].target == states[0].target,
        forall|j: int| 0 <= j < k ==> actions[j] is Fail || actions[j] is Unexpected,
    decreases k,
{
    if k > 0 {
        lemma_refused_name_stops(states, events, actions, k - 1);
        assert(stepped(states[k - 1], events[k - 1], states[k], actions[k - 1]));
    }
}

/// Path traversal. A target name that leads out of the output directory is
/// refused with `TargetName` as soon as the repository is loaded, and no
/// action of the run has the caller ask for the target, read its stream or
/// touch the destination file.
pub proof fn law_traversal_refused(
    states: Seq<FetchView>,
    events: Seq<EventView>,
    actions: Seq<ActionView>,
)
    requires
        is_run(states, events, actions),
        escapes_directory(states[0].target),
    ensures
        forall|j: int| 0 <= j < actions.len() ==> !touches_target(#[trigger] actions[j]),
        forall|k: int|
            0 <= k < events.len() && states[k].stage == Stage::Start && events[k]
                == EventView::RepositoryLoaded ==> #[trigger] actions[k] == ActionView::Fail(
                FetchErrorView::TargetName {
                    target: states[0].target,
                    cause: "the name leads out of the output directory"@,
                },
            ),
{
    lemma_refused_name_stops(states, events, actions, events.len() as int);
    assert forall|k: int|
        0 <= k < events.len() && states[k].stage == Stage::Start && events[k]
            == EventView::RepositoryLoaded implies #[trigger] actions[k] == ActionView::Fail(
        FetchErrorView::TargetName {
            target: states[0].target,
            cause: "the name leads out of the output directory"@,
        },
    ) by {
        lemma_refused_name_stops(states, events, actions, k);
        assert(stepped(states[k], events[k], states[k + 1], actions[k]));
    }
}

/// Names in use. Whenever a run has the caller ask for the target, read its
/// stream or touch the destination file, the target's name has passed its
/// tests. The name that is asked for is the target's, and the file that is
/// opened is the target's name inside the output directory: its path begins
/// with the directory, and no component `..` begins behind it.
pub proof fn law_only_accepted_names(
    states: Seq<FetchView>,
    events: Seq<EventView>,
    actions: Seq<ActionView>,
    k: int,
)
    requires
        is_run(states, events, actions),
        0 <= k < actions.len(),
        touches_target(actions[k]),
    ensures
        target_refusal(states[0].target) is None,
        actions[k] matches ActionView::ReadTarget { name } ==> name == states[0].target,
        actions[k] matches ActionView::OpenFile { path } ==> {
            &&& path == joined(states[0].outdir, states[0].target)
            &&& states[0].outdir.is_prefix_of(path)
            &&& forall|i: int| states[0].outdir.len() <= i ==> !parent_component_at(path, i)
        },
{
    if target_refusal(states[0].target) is Some {
        lemma_refused_name_stops(states, events, actions, k + 1);
    }
    lemma_run_so_far(states, events, actions, k);
    assert(stepped(states[k], events[k], states[k + 1], actions[k]));
    lemma_destination_inside(states[0].outdir, states[0].target);
}

/// A sound stream is written. While the repository's stream is a sound frame,
/// a pull at the decoder never fails: it hands out the bytes that follow what
/// was handed out before, at least one, as long as any are left, and reports
/// the image written when none is.
pub proof fn law_sound_stream_is_written(
    states: Seq<FetchView>,
    events: Seq<EventView>,
    actions: Seq<ActionView>,
    k: int,
)
    requires
        is_run(states, events, actions),
        0 <= k < events.len(),
        (states[k].stage == Stage::StreamOpened && events[k] == EventView::FileOpened) || (
        states[k].stage == Stage::Decompressing && events[k] == EventView::BlockWritten),
        lz4_frame_payload(states[k].streamed) is Some,
    ensures
        ({
            let payload = lz4_frame_payload(states[k].streamed)->0;
            if states[k].delivered == payload {
                actions[k] == ActionView::Done && states[k + 1].stage == Stage::Written
            } else {
                &&& actions[k] matches ActionView::Write { block }
                &&& block.len() > 0
                &&& states[k + 1].delivered == states[k].delivered + block
                &&& states[k + 1].delivered.is_prefix_of(payload)
                &&& states[k + 1].stage == Stage::Decompressing
            }
        }),
{
    let payload = lz4_frame_payload(states[k].streamed)->0;
    lemma_run_so_far(states, events, actions, k);
    lemma_run_so_far(states, events, actions, k + 1);
    assert(stepped(states[k], events[k], states[k + 1], actions[k]));
    let rest = payload.skip(states[k].delivered.len() as int);
    if rest.len() == 0 {
        lemma_prefix_whole(payload, states[k].delivered);
    } else {
        assert(states[k].delivered.len() < payload.len());
    }
}

/// A stream that is not a sound frame. Such a run never reports the image
/// written: when a pull at the decoder ends it, it ends with
/// `DecompressionError`, naming the target; and a fetch that has failed holds
/// its failure, so that what it left at the destination is not mistaken for
/// an image.
pub proof fn law_unsound_stream_fails(
    states: Seq<FetchView>,
    events: Seq<EventView>,
    actions: Seq<ActionView>,
    k: int,
)
    requires
        is_run(states, events, actions),
        0 <= k <= events.len(),
        lz4_frame_payload(states[k].streamed) is None,
    ensures
        states[k].stage != Stage::Written,
        states[k].stage == Stage::Failed <==> states[k].failure is Some,
        k < events.len() && states[k].stage == Stage::Decompressing && events[k]
            == EventView::BlockWritten ==> {
            ||| actions[k] is Write && states[k + 1].stage == Stage::Decompressing
            ||| actions[k] matches ActionView::Fail(
                FetchErrorView::DecompressionError { target, .. },
            ) && target == states[0].target && states[k + 1].stage == Stage::Failed
        },
{
    lemma_run_so_far(states, events, actions, k);
    if k < events.len() {
        assert(stepped(states[k], events[k], states[k + 1], actions[k]));
    }
}

} // verus!
