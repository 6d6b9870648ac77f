//! The worker's run loop.
//!
//! The loop itself (waiting, polling, sleeping) is the caller's. What the
//! worker does with each thing it finds on the command queue is decided here:
//! the caller hands in what one look at the queue found and gets back what to
//! do before the next look.

use crate::block::Block;
use crate::block::CompactedBlock;
use crate::cache::new_traversals_lazy_cache;
use crate::cache::LazyEntries;
use crate::cache::TraversalsCacheL2;
use crate::control::Polled;
use crate::control::PostProcessorCommand;
use crate::control::PostProcessorEvent;
use crate::cursor::CursorView;
use crate::cursor::SequenceCursor;
use vstd::prelude::*;

verus! {

/// After this many empty polls in a row the worker reports an empty queue.
pub const EMPTY_CYCLES_BEFORE_EVENT: u64 = 10;

/// Once more blocks than this were processed since the second cache tier was
/// last emptied, it is emptied again.
pub const GARBAGE_COLLECT_EVERY_N_BLOCKS: usize = 100;

/// The capacity hint of the second cache tier.
pub const CACHE_L2_CAPACITY: usize = 1024;

/// How long the worker sleeps after an empty poll, in seconds.
pub const POLL_INTERVAL_SECONDS: u64 = 1;

/// Where the run loop stands.
#[derive(Clone, Copy, Debug, PartialEq, Eq)]
pub enum RunloopState {
    /// The worker waits for the first command, which lets it begin.
    WaitingForStart,
    /// The worker polls the command queue. Between two polls it is idle
    /// (asleep) or processing, as the action of the earlier poll said.
    Polling,
    /// The loop has ended.
    Terminated,
}

/// What the worker does before it looks at the command queue again.
#[derive(Clone, Debug, PartialEq, Eq)]
pub enum Action {
    /// Wait for a command, however long it takes.
    AwaitCommand,
    /// Poll again at once.
    Poll,
    /// Report `event`, if there is one, then sleep for `seconds` and poll.
    Sleep { seconds: u64, event: Option<PostProcessorEvent> },
    /// Write `compacted_blocks` to the block store in one write, then process
    /// `blocks` as one batch, then poll.
    Process { compacted_blocks: Vec<CompactedBlock>, blocks: Vec<Block> },
    /// Leave the loop.
    Exit,
}

/// The run loop's state, as mathematical values.
pub struct RunloopView {
    pub state: RunloopState,
    /// The empty polls since the last command or report.
    pub empty_cycles: nat,
    /// The blocks processed since the second cache tier was last emptied.
    pub garbage_collect_nth_block: nat,
}

impl RunloopView {
    /// A report is due before the count of empty polls reaches ten, and the
    /// cache is emptied before more than a hundred blocks pile up.
    pub open spec fn wf(self) -> bool {
        &&& self.empty_cycles < EMPTY_CYCLES_BEFORE_EVENT
        &&& self.garbage_collect_nth_block <= GARBAGE_COLLECT_EVERY_N_BLOCKS
    }
}

/// What one look at the command queue leads to.
///
/// The first thing that arrives lets the worker begin. If it is blocks to
/// process, they are processed; anything else is used up by the beginning.
/// From then on: blocks to process reset the count of empty polls and are
/// handed on as they came; `Terminate` and a queue without senders end the
/// loop; `Start` is passed over; an empty queue puts the worker to sleep, and
/// every tenth one in a row is reported.
pub open spec fn poll_step(view: RunloopView, polled: Polled) -> (RunloopView, Action) {
    match view.state {
        RunloopState::WaitingForStart => match polled {
            Polled::Empty => (view, Action::AwaitCommand),
            Polled::Command(PostProcessorCommand::ProcessBlocks(compacted_blocks, blocks)) => (
                RunloopView { state: RunloopState::Polling, empty_cycles: 0, ..view },
                Action::Process { compacted_blocks, blocks },
            ),
            _ => (RunloopView { state: RunloopState::Polling, ..view }, Action::Poll),
        },
        RunloopState::Polling => match polled {
            Polled::Command(PostProcessorCommand::ProcessBlocks(compacted_blocks, blocks)) => (
                RunloopView { empty_cycles: 0, ..view },
                Action::Process { compacted_blocks, blocks },
            ),
            Polled::Command(PostProcessorCommand::Terminate) => (
                RunloopView { state: RunloopState::Terminated, ..view },
                Action::Exit,
            ),
            Polled::Command(PostProcessorCommand::Start) => (view, Action::Poll),
            Polled::Empty => if view.empty_cycles + 1 == EMPTY_CYCLES_BEFORE_EVENT {
                (
                    RunloopView { empty_cycles: 0, ..view },
                    Action::Sleep {
                        seconds: POLL_INTERVAL_SECONDS,
                        event: Some(PostProcessorEvent::EmptyQueue),
                    },
                )
            } else {
                (
                    RunloopView { empty_cycles: view.empty_cycles + 1, ..view },
                    Action::Sleep { seconds: POLL_INTERVAL_SECONDS, event: None },
                )
            },
            Polled::Disconnected => (
                RunloopView { state: RunloopState::Terminated, ..view },
                Action::Exit,
            ),
        },
        RunloopState::Terminated => (view, Action::Exit),
    }
}

/// What a processed batch of `processed` blocks does to the count of blocks,
/// and whether the second cache tier is emptied.
pub open spec fn collect_step(view: RunloopView, processed: nat) -> (RunloopView, bool) {
    if view.garbage_collect_nth_block + processed > GARBAGE_COLLECT_EVERY_N_BLOCKS {
        (RunloopView { garbage_collect_nth_block: 0, ..view }, true)
    } else {
        (
            RunloopView {
                garbage_collect_nth_block: view.garbage_collect_nth_block + processed,
                ..view
            },
            false,
        )
    }
}

/// The run loop's state: where it stands and its two counts.
pub struct Runloop {
    state: RunloopState,
    empty_cycles: u64,
    garbage_collect_nth_block: usize,
}

impl View for Runloop {
    type V = RunloopView;

    closed spec fn view(&self) -> RunloopView {
        RunloopView {
            state: self.state,
            empty_cycles: self.empty_cycles as nat,
            garbage_collect_nth_block: self.garbage_collect_nth_block as nat,
        }
    }
}

impl Runloop {
    #[verifier::type_invariant]
    spec fn inv(self) -> bool {
        self@.wf()
    }

    /// A run loop that waits for its first command, with both counts at
    /// zero.
    pub fn new() -> (runloop: Self)
        ensures
            runloop@ == (RunloopView {
                state: RunloopState::WaitingForStart,
                empty_cycles: 0,
                garbage_collect_nth_block: 0,
            }),
    {
        Runloop { state: RunloopState::WaitingForStart, empty_cycles: 0, garbage_collect_nth_block: 0 }
    }

    /// Where the loop stands.
    pub fn state(&self) -> (state: RunloopState)
        ensures
            state == self@.state,
            self@.wf(),
    {
        proof {
            use_type_invariant(self);
        }
        self.state
    }

    /// Takes what one look at the command queue found and says what to do
    /// before the next look.
    pub fn on_poll(&mut self, polled: Polled) -> (action: Action)
        ensures
            (final(self)@, action) == poll_step(old(self)@, polled),
            final(self)@.wf(),
    {
        proof {
            use_type_invariant(&*self);
        }
        match self.state {
            RunloopState::WaitingForStart => match polled {
                Polled::Empty => Action::AwaitCommand,
                Polled::Command(PostProcessorCommand::ProcessBlocks(compacted_blocks, blocks)) => {
                    self.empty_cycles = 0;
                    self.state = RunloopState::Polling;
                    Action::Process { compacted_blocks, blocks }
                },
                _ => {
                    self.state = RunloopState::Polling;
                    Action::Poll
                },
            },
            RunloopState::Polling => match polled {
                Polled::Command(PostProcessorCommand::ProcessBlocks(compacted_blocks, blocks)) => {
                    self.empty_cycles = 0;
                    Action::Process { compacted_blocks, blocks }
                },
                Polled::Command(PostProcessorCommand::Terminate) => {
                    self.state = RunloopState::Terminated;
                    Action::Exit
                },
                Polled::Command(PostProcessorCommand::Start) => Action::Poll,
                Polled::Empty => {
                    if self.empty_cycles + 1 == EMPTY_CYCLES_BEFORE_EVENT {
                        self.empty_cycles = 0;
                        Action::Sleep {
                            seconds: POLL_INTERVAL_SECONDS,
                            event: Some(PostProcessorEvent::EmptyQueue),
                        }
                    } else {
                        self.empty_cycles = self.empty_cycles + 1;
                        Action::Sleep { seconds: POLL_INTERVAL_SECONDS, event: None }
                    }
                },
                Polled::Disconnected => {
                    self.state = RunloopState::Terminated;
                    Action::Exit
                },
            },
            RunloopState::Terminated => Action::Exit,
        }
    }

    /// Counts the blocks of a processed batch, and empties the second cache
    /// tier when more than a hundred have piled up since it was last emptied.
    /// Says whether it did. The tier is emptied as a whole or left as it is.
    pub fn on_processed(&mut self, processed: usize, cache_l2: &mut TraversalsCacheL2) -> (cleared:
        bool)
        ensures
            (final(self)@, cleared) == collect_step(old(self)@, processed as nat),
            final(self)@.wf(),
            cleared ==> final(cache_l2)@ == LazyEntries::empty(),
            !cleared ==> *final(cache_l2) == *old(cache_l2),
            old(cache_l2).wf() ==> final(cache_l2).wf(),
    {
        proof {
            use_type_invariant(&*self);
        }
        if processed > GARBAGE_COLLECT_EVERY_N_BLOCKS - self.garbage_collect_nth_block {
            cache_l2.clear();
            self.garbage_collect_nth_block = 0;
            true
        } else {
            self.garbage_collect_nth_block = self.garbage_collect_nth_block + processed;
            false
        }
    }
}

/// What the worker owns from its start to its end.
pub struct Worker {
    pub runloop: Runloop,
    pub cache_l2: TraversalsCacheL2,
    pub sequence_cursor: SequenceCursor,
}

/// Sets the worker up: a run loop that waits for its first command, an empty
/// second cache tier with the fixed capacity hint, and a cursor that resumes
/// at the number derived from durable storage.
pub fn start_inscription_indexing_processor(next_sequence: u64) -> (worker: Worker)
    ensures
        worker.runloop@ == (RunloopView {
            state: RunloopState::WaitingForStart,
            empty_cycles: 0,
            garbage_collect_nth_block: 0,
        }),
        worker.cache_l2@ == LazyEntries::empty(),
        worker.cache_l2.wf(),
        worker.sequence_cursor@ == (CursorView {
            committed: next_sequence as nat,
            next: next_sequence as nat,
        }),
{
    Worker {
        runloop: Runloop::new(),
        cache_l2: new_traversals_lazy_cache(CACHE_L2_CAPACITY),
        sequence_cursor: SequenceCursor::new(next_sequence),
    }
}

/// The state of the loop after a run of looks at the command queue.
pub open spec fn after_polls(view: RunloopView, polls: Seq<Polled>) -> RunloopView
    decreases polls.len(),
{
    if polls.len() == 0 {
        view
    } else {
        poll_step(after_polls(view, polls.drop_last()), polls.last()).0
    }
}

/// The actions that a run of looks at the command queue leads to, in order.
pub open spec fn actions_of(view: RunloopView, polls: Seq<Polled>) -> Seq<Action>
    decreases polls.len(),
{
    if polls.len() == 0 {
        Seq::empty()
    } else {
        actions_of(view, polls.drop_last()).push(
            poll_step(after_polls(view, polls.drop_last()), polls.last()).1,
        )
    }
}

/// How many of the actions report an empty queue.
pub open spec fn reports(actions: Seq<Action>) -> nat
    decreases actions.len(),
{
    if actions.len() == 0 {
        0
    } else {
        reports(actions.drop_last()) + if actions.last() matches Action::Sleep {
            event: Some(_),
            ..
        } {
            1nat
        } else {
            0nat
        }
    }
}

/// The sets of compacted blocks that the actions have written to the block
/// store, one entry for each write, in order.
pub open spec fn writes(actions: Seq<Action>) -> Seq<Seq<CompactedBlock>>
    decreases actions.len(),
{
    if actions.len() == 0 {
        Seq::empty()
    } else {
        let before = writes(actions.drop_last());
        match actions.last() {
            Action::Process { compacted_blocks, .. } => before.push(compacted_blocks@),
            _ => before,
        }
    }
}

/// The sets of compacted blocks that the commands found on the queue carry,
/// one entry for each `ProcessBlocks`, in order.
pub open spec fn supplied(polls: Seq<Polled>) -> Seq<Seq<CompactedBlock>>
    decreases polls.len(),
{
    if polls.len() == 0 {
        Seq::empty()
    } else {
        let before = supplied(polls.drop_last());
        match polls.last() {
            Polled::Command(PostProcessorCommand::ProcessBlocks(compacted_blocks, _)) => before.push(
                compacted_blocks@,
            ),
            _ => before,
        }
    }
}

/// As long as the loop has not ended, every `ProcessBlocks` command leads to
/// exactly one write to the block store, of exactly the compacted blocks that
/// the command carries, whether or not it carries blocks to process; and
/// nothing else is written. The writes come in the order of the commands.
pub proof fn lemma_one_write_per_command(view: RunloopView, polls: Seq<Polled>)
    requires
        after_polls(view, polls).state != RunloopState::Terminated,
    ensures
        writes(actions_of(view, polls)) == supplied(polls),
    decreases polls.len(),
{
    if polls.len() > 0 {
        let earlier = polls.drop_last();
        lemma_one_write_per_command(view, earlier);
        assert(actions_of(view, polls).drop_last() == actions_of(view, earlier));
    }
}

/// A loop that has ended stays ended, and writes nothing more.
pub proof fn lemma_ended_loop_writes_nothing(view: RunloopView, polls: Seq<Polled>)
    requires
        view.state == RunloopState::Terminated,
    ensures
        after_polls(view, polls) == view,
        writes(actions_of(view, polls)) == Seq::<Seq<CompactedBlock>>::empty(),
    decreases polls.len(),
{
    if polls.len() > 0 {
        let earlier = polls.drop_last();
        lemma_ended_loop_writes_nothing(view, earlier);
        assert(actions_of(view, polls).drop_last() == actions_of(view, earlier));
    }
}

/// `count` looks at the command queue that all find it empty.
pub open spec fn empty_polls(count: nat) -> Seq<Polled> {
    Seq::new(count, |i: int| Polled::Empty)
}

/// Empty polls in a row are reported once for every ten: after `count` of
/// them, begun with `empty_cycles` unreported ones, the worker has reported
/// `(empty_cycles + count) / 10` times. A loop that has just taken a command
/// has none unreported, and reports `count / 10` times.
pub proof fn lemma_empty_polls_report_every_tenth(view: RunloopView, count: nat)
    requires
        view.state == RunloopState::Polling,
        view.wf(),
    ensures
        reports(actions_of(view, empty_polls(count))) == (view.empty_cycles + count) / 10,
        after_polls(view, empty_polls(count)).empty_cycles == (view.empty_cycles + count) % 10,
        after_polls(view, empty_polls(count)).state == RunloopState::Polling,
        after_polls(view, empty_polls(count)).garbage_collect_nth_block
            == view.garbage_collect_nth_block,
    decreases count,
{
    let polls = empty_polls(count);
    if count > 0 {
        let earlier = (count - 1) as nat;
        lemma_empty_polls_report_every_tenth(view, earlier);
        assert(polls.drop_last() == empty_polls(earlier));
        assert(polls.last() == Polled::Empty);
        assert(actions_of(view, polls).drop_last() == actions_of(view, polls.drop_last()));
    }
}

/// The state of the loop after a run of processed batches, each given by the
/// number of its blocks.
pub open spec fn after_batches(view: RunloopView, sizes: Seq<nat>) -> RunloopView
    decreases sizes.len(),
{
    if sizes.len() == 0 {
        view
    } else {
        collect_step(after_batches(view, sizes.drop_last()), sizes.last()).0
    }
}

/// How often the second cache tier was emptied over a run of processed
/// batches.
pub open spec fn times_emptied(view: RunloopView, sizes: Seq<nat>) -> nat
    decreases sizes.len(),
{
    if sizes.len() == 0 {
        0
    } else {
        times_emptied(view, sizes.drop_last()) + if collect_step(
            after_batches(view, sizes.drop_last()),
            sizes.last(),
        ).1 {
            1nat
        } else {
            0nat
        }
    }
}

/// The number of blocks in a run of batches.
pub open spec fn blocks_in(sizes: Seq<nat>) -> nat
    decreases sizes.len(),
{
    if sizes.len() == 0 {
        0
    } else {
        blocks_in(sizes.drop_last()) + sizes.last()
    }
}

/// The second cache tier is emptied neither too often nor too rarely: each
/// time it is emptied, more than a hundred blocks have been processed since
/// the time before, and never do more than a hundred pile up without it.
pub proof fn lemma_cache_emptied_on_schedule(view: RunloopView, sizes: Seq<nat>)
    requires
        view.wf(),
    ensures
        after_batches(view, sizes).wf(),
        after_batches(view, sizes).garbage_collect_nth_block <= 100,
        view.garbage_collect_nth_block + blocks_in(sizes) >= 101 * times_emptied(view, sizes)
            + after_batches(view, sizes).garbage_collect_nth_block,
    decreases sizes.len(),
{
    if sizes.len() > 0 {
        lemma_cache_emptied_on_schedule(view, sizes.drop_last());
    }
}

/// `count` batches of one block each.
pub open spec fn single_blocks(count: nat) -> Seq<nat> {
    Seq::new(count, |i: int| 1nat)
}

/// Fed one block at a time, the second cache tier is emptied exactly once
/// for every 101 blocks: the block that makes it more than a hundred empties
/// it and starts the count anew.
pub proof fn lemma_cache_emptied_every_101_single_blocks(view: RunloopView, count: nat)
    requires
        view.wf(),
    ensures
        times_emptied(view, single_blocks(count)) == (view.garbage_collect_nth_block + count) / 101,
        after_batches(view, single_blocks(count)).garbage_collect_nth_block == (
        view.garbage_collect_nth_block + count) % 101,
    decreases count,
{
    if count > 0 {
        let earlier = (count - 1) as nat;
        lemma_cache_emptied_every_101_single_blocks(view, earlier);
        assert(single_blocks(count).drop_last() == single_blocks(earlier));
        assert(single_blocks(count).last() == 1);
    }
}

} // verus!
