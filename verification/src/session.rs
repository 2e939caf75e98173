//! Whole runs of the render loop, and what holds of every one of them.
//!
//! A run is described from the outside by its turns: for each pass, what the
//! store held when the loop read it and what the channel delivered when the
//! loop waited. The channel is a queue, so the turns carry its answers in the
//! order in which they were delivered. `run` folds the loop's own step
//! functions over the turns; the lemmas below are stated about `run` and about
//! the spec functions that the contracts of the store, the fetch worker and
//! the render loop use.

use vstd::prelude::*;
use crate::channel::EventChannel;
use crate::event::AppEvent;
use crate::event::Fatal;
use crate::event::Received;
use crate::fetch::FetchPolicy;
use crate::fetch::FetchWorker;
use crate::fetch::REFRESH_INTERVAL_SECS;
use crate::render_loop::Frame;
use crate::render_loop::Phase;
use crate::render_loop::RenderLoop;
use crate::render_loop::Step;
use crate::render_loop::LOADING_POLL_MILLIS;
use crate::store::SnapshotStore;

verus! {

/// What the outside world contributes to one pass of the render loop.
#[derive(Debug)]
pub struct Turn<T> {
    /// What the store held when the pass read it.
    pub stored: Option<T>,
    /// What the wait at the end of the pass produced.
    pub received: Received,
}

/// What a run has done so far.
pub struct Run<T> {
    /// The frames that were painted, in order.
    pub frames: Seq<Frame<T>>,
    /// The loading counter after the last pass.
    pub counter: usize,
    /// How the loop ended, or `None` if it is still running.
    pub end: Option<Step>,
}

/// Whether an answer of the channel ends the loop.
pub open spec fn decisive(received: Received) -> bool {
    RenderLoop::step_for(received) != Step::Continue
}

/// The run of a loop that starts with `counter` and is given `turns`.
///
/// Each turn is one pass: a frame is painted for what the store held, then
/// the channel's answer decides. The run ends with the first decisive answer;
/// later turns are never reached.
pub open spec fn run<T>(counter: usize, turns: Seq<Turn<T>>) -> Run<T>
    decreases turns.len(),
{
    if turns.len() == 0 {
        Run { frames: Seq::empty(), counter, end: None }
    } else {
        let turn = turns.first();
        let frame = RenderLoop::frame_for(counter, turn.stored);
        let counter_now = RenderLoop::counter_after(counter, turn.stored);
        let step = RenderLoop::step_for(turn.received);
        if step == Step::Continue {
            let rest = run(counter_now, turns.drop_first());
            Run { frames: seq![frame] + rest.frames, counter: rest.counter, end: rest.end }
        } else {
            Run { frames: seq![frame], counter: counter_now, end: Some(step) }
        }
    }
}

/// What a replay has painted, and how it ended.
#[derive(Debug, PartialEq, Eq)]
pub struct Replay<T> {
    /// The frames that were painted, in order.
    pub frames: Vec<Frame<T>>,
    /// How the loop ended, or `None` if it used up its turns and is still
    /// running.
    pub end: Option<Step>,
}

/// Makes the passes of a recorded session, one per turn, without painting
/// and without waiting: each pass takes what the store held and what the
/// channel answered from its turn. The loop is driven exactly as the
/// dashboard drives it, `begin_pass` then `on_received`, and what comes out
/// is the run of those turns.
pub fn replay<T>(render_loop: &mut RenderLoop, turns: Vec<Turn<T>>) -> (played: Replay<T>)
    ensures
        played.frames@ == run(old(render_loop)@, turns@).frames,
        played.end == run(old(render_loop)@, turns@).end,
        final(render_loop)@ == run(old(render_loop)@, turns@).counter,
{
    let ghost start = render_loop@;
    let ghost all = turns@;
    let mut frames: Vec<Frame<T>> = Vec::new();
    proof {
        assert(all.skip(0) == all);
    }
    for turn in recorded: turns.into_iter()
        invariant
            start == old(render_loop)@,
            all == turns@,
            recorded.seq() == all,
            run(start, all).frames == frames@ + run(render_loop@, all.skip(recorded.index())).frames,
            run(start, all).end == run(render_loop@, all.skip(recorded.index())).end,
            run(start, all).counter == run(render_loop@, all.skip(recorded.index())).counter,
    {
        let ghost rest = all.skip(recorded.index());
        let ghost before = frames@;
        proof {
            assert(rest.drop_first() == all.skip(recorded.index() + 1));
        }
        let frame = render_loop.begin_pass(turn.stored);
        frames.push(frame);
        let step = render_loop.on_received(turn.received);
        proof {
            assert(before + (seq![frame] + run(render_loop@, rest.drop_first()).frames)
                == frames@ + run(render_loop@, rest.drop_first()).frames);
        }
        match step {
            Step::Continue => {},
            _ => {
                return Replay { frames, end: Some(step) };
            },
        }
    }
    Replay { frames, end: None }
}

/// Each painted frame shows what the store held in that pass: a ready frame
/// with exactly the stored snapshot where there was one, a loading frame where
/// there was none. No pass is ready before the store holds a value, and every
/// pass is ready once it does.
pub proof fn lemma_frames_follow_store<T>(counter: usize, turns: Seq<Turn<T>>)
    ensures
        ({
            let frames = run(counter, turns).frames;
            &&& frames.len() <= turns.len()
            &&& forall|i: int|
                0 <= i < frames.len() ==> match (#[trigger] turns[i]).stored {
                    Some(snapshot) => frames[i] == Frame::Ready(snapshot),
                    None => frames[i] is Loading,
                }
        }),
    decreases turns.len(),
{
    if turns.len() > 0 && RenderLoop::step_for(turns.first().received) == Step::Continue {
        let frames = run(counter, turns).frames;
        let counter_now = RenderLoop::counter_after(counter, turns.first().stored);
        let rest = run(counter_now, turns.drop_first());
        lemma_frames_follow_store(counter_now, turns.drop_first());
        assert forall|i: int| 0 <= i < frames.len() implies match (#[trigger] turns[i]).stored {
            Some(snapshot) => frames[i] == Frame::Ready(snapshot),
            None => frames[i] is Loading,
        } by {
            if i > 0 {
                assert(turns[i] == turns.drop_first()[i - 1]);
            }
        }
    }
}

/// The loop ends with the first decisive answer of the channel. It has then
/// painted one frame for that turn and one for each turn before it, and none
/// for whatever was queued behind.
pub proof fn lemma_run_ends_at_first_decisive<T>(counter: usize, turns: Seq<Turn<T>>, k: int)
    requires
        0 <= k < turns.len(),
        decisive(turns[k].received),
        forall|j: int| 0 <= j < k ==> !decisive((#[trigger] turns[j]).received),
    ensures
        run(counter, turns).frames.len() == k + 1,
        run(counter, turns).end == Some(RenderLoop::step_for(turns[k].received)),
        run(counter, turns) == run(counter, turns.take(k + 1)),
    decreases k,
{
    if k > 0 {
        lemma_run_ends_at_first_decisive(
            RenderLoop::counter_after(counter, turns.first().stored),
            turns.drop_first(),
            k - 1,
        );
        assert(turns.drop_first().take(k) == turns.take(k + 1).drop_first());
    }
}

/// While the channel gives no decisive answer the loop keeps running: it has
/// painted one frame per turn and has not ended.
pub proof fn lemma_run_goes_on<T>(counter: usize, turns: Seq<Turn<T>>)
    requires
        forall|j: int| 0 <= j < turns.len() ==> !decisive((#[trigger] turns[j]).received),
    ensures
        run(counter, turns).frames.len() == turns.len(),
        run(counter, turns).end is None,
    decreases turns.len(),
{
    if turns.len() > 0 {
        lemma_run_goes_on(
            RenderLoop::counter_after(counter, turns.first().stored),
            turns.drop_first(),
        );
    }
}

/// An exit request that arrives while the store is still empty ends the loop
/// with success. Every frame painted up to then is a loading frame: the loop
/// never has to become ready in order to leave.
pub proof fn lemma_exit_while_loading<T>(counter: usize, turns: Seq<Turn<T>>, k: int)
    requires
        0 <= k < turns.len(),
        forall|j: int| 0 <= j <= k ==> (#[trigger] turns[j]).stored is None,
        forall|j: int| 0 <= j < k ==> !decisive((#[trigger] turns[j]).received),
        turns[k].received == Received::Event(AppEvent::Exit),
    ensures
        ({
            let result = run(counter, turns);
            &&& result.end == Some(Step::Finish)
            &&& result.frames.len() == k + 1
            &&& forall|i: int| 0 <= i <= k ==> #[trigger] result.frames[i] is Loading
        }),
{
    let result = run(counter, turns);
    lemma_run_ends_at_first_decisive(counter, turns, k);
    lemma_frames_follow_store(counter, turns);
    assert forall|i: int| 0 <= i <= k implies #[trigger] result.frames[i] is Loading by {
        assert(turns[i].stored is None);
    }
}

/// An exit request that arrives while the loop is ready ends it with success
/// at the wait that delivers it. The redraw requests that were delivered
/// before it have each been answered with one more ready frame; whatever is
/// queued behind the exit request is never painted.
pub proof fn lemma_exit_while_ready<T>(counter: usize, turns: Seq<Turn<T>>, k: int)
    requires
        0 <= k < turns.len(),
        forall|j: int| 0 <= j <= k ==> (#[trigger] turns[j]).stored is Some,
        forall|j: int|
            0 <= j < k ==> (#[trigger] turns[j]).received == Received::Event(AppEvent::Redraw),
        turns[k].received == Received::Event(AppEvent::Exit),
    ensures
        ({
            let result = run(counter, turns);
            &&& result.end == Some(Step::Finish)
            &&& result.frames.len() == k + 1
            &&& forall|i: int|
                0 <= i <= k ==> #[trigger] result.frames[i] == Frame::Ready(turns[i].stored->0)
            &&& result.counter == counter
        }),
{
    lemma_run_ends_at_first_decisive(counter, turns, k);
    lemma_frames_follow_store(counter, turns);
    lemma_counter_rests_while_ready(counter, turns.take(k + 1));
}

/// The loading counter never goes back during a run.
pub proof fn lemma_counter_never_decreases<T>(counter: usize, turns: Seq<Turn<T>>)
    ensures
        run(counter, turns).counter >= counter,
    decreases turns.len(),
{
    if turns.len() > 0 {
        let turn = turns.first();
        if RenderLoop::step_for(turn.received) == Step::Continue {
            lemma_counter_never_decreases(
                RenderLoop::counter_after(counter, turn.stored),
                turns.drop_first(),
            );
        }
    }
}

/// The loading counter does not move in a run whose passes all found a
/// snapshot in the store.
pub proof fn lemma_counter_rests_while_ready<T>(counter: usize, turns: Seq<Turn<T>>)
    requires
        forall|j: int| 0 <= j < turns.len() ==> (#[trigger] turns[j]).stored is Some,
    ensures
        run(counter, turns).counter == counter,
    decreases turns.len(),
{
    if turns.len() > 0 {
        lemma_counter_rests_while_ready(counter, turns.drop_first());
    }
}

/// A pass is ready exactly when some write to the store has completed before
/// it reads, and then it shows the value of the latest of those writes.
pub proof fn lemma_ready_exactly_after_a_write<T>(counter: usize, writes: Seq<T>)
    ensures
        RenderLoop::frame_for(counter, SnapshotStore::<T>::after_writes(writes)).spec_phase()
            == Phase::Ready <==> writes.len() > 0,
        writes.len() > 0 ==> RenderLoop::frame_for(counter, SnapshotStore::<T>::after_writes(writes))
            == Frame::Ready(writes.last()),
        writes.len() == 0 ==> RenderLoop::frame_for(counter, SnapshotStore::<T>::after_writes(writes))
            == Frame::<T>::Loading(counter),
{
}

/// The turns of a loop whose passes read a store with the given histories of
/// completed writes, one history per pass, and get the given answers.
pub open spec fn turns_reading<T>(histories: Seq<Seq<T>>, answers: Seq<Received>) -> Seq<Turn<T>> {
    Seq::new(
        answers.len(),
        |i: int|
            Turn { stored: SnapshotStore::<T>::after_writes(histories[i]), received: answers[i] },
    )
}

/// The loop goes from loading to ready once and never back. Writes only ever
/// add to the history of the store, so the passes before the first write are
/// loading, the first pass that follows a write is ready, and so is every
/// pass after it.
pub proof fn lemma_loading_then_ready_for_good<T>(
    counter: usize,
    histories: Seq<Seq<T>>,
    answers: Seq<Received>,
)
    requires
        histories.len() == answers.len(),
        forall|i: int, j: int|
            #![trigger histories[i], histories[j]]
            0 <= i <= j < histories.len() ==> histories[i].len() <= histories[j].len(),
    ensures
        ({
            let frames = run(counter, turns_reading(histories, answers)).frames;
            &&& forall|i: int|
                0 <= i < frames.len() ==> (#[trigger] frames[i] is Ready <==> histories[i].len() > 0)
            &&& forall|i: int, j: int|
                #![trigger frames[i], frames[j]]
                0 <= i <= j < frames.len() && frames[i] is Ready ==> frames[j] is Ready
        }),
{
    let turns = turns_reading(histories, answers);
    let frames = run(counter, turns).frames;
    lemma_frames_follow_store(counter, turns);
    assert forall|i: int| 0 <= i < frames.len() implies (#[trigger] frames[i] is Ready
        <==> histories[i].len() > 0) by {
        assert(turns[i].stored == SnapshotStore::<T>::after_writes(histories[i]));
    }
}

/// Once a fetch cycle has published, the next pass of the render loop is
/// ready and shows what was published, whatever the store held before and
/// whichever way the snapshot came about: fetched, or substituted for a
/// failed fetch.
pub proof fn lemma_ready_after_publication<T, E>(
    policy: FetchPolicy,
    fetched: Result<T, E>,
    placeholder: T,
    earlier_writes: Seq<T>,
    counter: usize,
)
    requires
        FetchWorker::published(policy, fetched, placeholder) is Some,
    ensures
        RenderLoop::frame_for(
            counter,
            SnapshotStore::<T>::after_writes(
                earlier_writes.push(FetchWorker::published(policy, fetched, placeholder)->0),
            ),
        ) == Frame::Ready(FetchWorker::published(policy, fetched, placeholder)->0),
        fetched is Ok ==> FetchWorker::published(policy, fetched, placeholder) == Some(fetched->Ok_0),
{
}

/// The turns of a loop that finds `snapshot` in the store on every pass and
/// takes its answers from a channel that holds `queued`: one turn per queued
/// event, in the order of the queue, whatever the state of the senders.
pub open spec fn ready_turns<T>(
    snapshot: T,
    queued: Seq<AppEvent>,
    senders: usize,
    closed_by: Option<Fatal>,
) -> Seq<Turn<T>> {
    Seq::new(
        queued.len(),
        |i: int|
            Turn {
                stored: Some(snapshot),
                received: EventChannel::answer(queued.skip(i), senders, closed_by),
            },
    )
}

/// Redraw requests that are queued while the loop is ready are answered one
/// by one: each with exactly one more frame, and each frame with the snapshot
/// that the store holds. After the last of them the loop is still running.
pub proof fn lemma_each_queued_redraw_repaints<T>(
    counter: usize,
    snapshot: T,
    queued: Seq<AppEvent>,
    senders: usize,
    closed_by: Option<Fatal>,
)
    requires
        forall|j: int| 0 <= j < queued.len() ==> queued[j] == AppEvent::Redraw,
    ensures
        ({
            let result = run(counter, ready_turns(snapshot, queued, senders, closed_by));
            &&& result.frames.len() == queued.len()
            &&& forall|i: int|
                0 <= i < queued.len() ==> #[trigger] result.frames[i] == Frame::Ready(snapshot)
            &&& result.end is None
            &&& result.counter == counter
        }),
{
    let turns = ready_turns(snapshot, queued, senders, closed_by);
    let result = run(counter, turns);
    lemma_run_goes_on(counter, turns);
    lemma_frames_follow_store(counter, turns);
    lemma_counter_rests_while_ready(counter, turns);
    assert forall|i: int| 0 <= i < queued.len() implies #[trigger] result.frames[i]
        == Frame::Ready(snapshot) by {
        assert(turns[i].stored == Some(snapshot));
    }
}

/// The channel is a queue, so an exit request is honoured in its turn: the
/// redraw requests queued in front of it are answered first, each with one
/// frame, then the loop finishes, and nothing that is queued behind the exit
/// request is ever painted.
pub proof fn lemma_exit_is_honoured_in_queue_order<T>(
    counter: usize,
    snapshot: T,
    queued: Seq<AppEvent>,
    senders: usize,
    closed_by: Option<Fatal>,
    k: int,
)
    requires
        0 <= k < queued.len(),
        forall|j: int| 0 <= j < k ==> queued[j] == AppEvent::Redraw,
        queued[k] == AppEvent::Exit,
    ensures
        ({
            let result = run(counter, ready_turns(snapshot, queued, senders, closed_by));
            &&& result.end == Some(Step::Finish)
            &&& result.frames.len() == k + 1
            &&& forall|i: int| 0 <= i <= k ==> #[trigger] result.frames[i] == Frame::Ready(snapshot)
        }),
{
    let turns = ready_turns(snapshot, queued, senders, closed_by);
    lemma_exit_while_ready(counter, turns, k);
}

/// A worker's fatal condition reaches the caller of the render loop. Once a
/// worker has closed the channel with its reason, the first wait that finds
/// the queue drained ends the loop, in either phase, and the loop reports
/// that very reason. A channel that all senders have left without a reason
/// ends the loop as closed.
pub proof fn lemma_closed_channel_ends_the_loop<T>(
    counter: usize,
    turns: Seq<Turn<T>>,
    k: int,
    senders: usize,
    closed_by: Option<Fatal>,
)
    requires
        0 <= k < turns.len(),
        forall|j: int| 0 <= j < k ==> !decisive((#[trigger] turns[j]).received),
        closed_by is Some || senders == 0,
        turns[k].received == EventChannel::answer(Seq::empty(), senders, closed_by),
    ensures
        run(counter, turns).frames.len() == k + 1,
        run(counter, turns).end == Some(
            Step::Abort(
                match closed_by {
                    Some(cause) => cause,
                    None => Fatal::ChannelClosed,
                },
            ),
        ),
{
    lemma_run_ends_at_first_decisive(counter, turns, k);
}

/// While it is loading the loop looks at the store many times between two
/// fetch cycles, so a publication is on the screen well before the next
/// cycle: the pause before a poll is shorter than the pause between fetches.
pub proof fn lemma_loading_poll_is_shorter_than_refresh()
    ensures
        LOADING_POLL_MILLIS < REFRESH_INTERVAL_SECS * 1000,
{
}

} // verus!
