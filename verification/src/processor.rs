//! The block transaction processor.
//!
//! Each block of a batch goes through one database transaction, in the order
//! in which the blocks were delivered. The processor does none of the outside
//! work itself: it says which step comes next (a [`Request`]), the caller
//! performs it and hands back what came of it (a [`Reply`]). A reply that
//! does not answer the pending request changes nothing.

use crate::block::get_inscriptions_revealed_in_block;
use crate::block::get_inscriptions_revealed_in_transactions;
use crate::block::revealed_in_transactions;
use crate::block::Block;
use crate::block::BlockIdentifier;
use crate::block::Transaction;
use crate::cache::TraversalKey;
use crate::cache::TraversalResult;
use crate::cache::TraversalsCacheL1;
use crate::cursor::CursorView;
use crate::cursor::SequenceCursor;
use vstd::prelude::*;

verus! {

/// What the worker logs.
#[derive(Clone, Copy, Debug, PartialEq, Eq)]
pub struct LogConfig {
    /// Whether the augmentation steps log their inner workings.
    pub ordinals_internals: bool,
}

/// The part of the indexer's configuration that the processor reads.
#[derive(Clone, Copy, Debug, PartialEq, Eq)]
pub struct HordConfig {
    pub logs: LogConfig,
}

/// Where the processing of a block stands. Each stage waits for the answer to
/// one request.
#[derive(Clone, Copy, Debug, PartialEq, Eq)]
pub enum Stage {
    /// A transaction is being opened, and the activity at the block's height
    /// looked up in it.
    Opening,
    /// The protocol computation runs.
    Computing,
    /// Inscription data is being attached to the block.
    AugmentingInscriptions { verbose: bool },
    /// Transfer data is being attached to the block.
    AugmentingTransfers { verbose: bool },
    /// The transaction is being closed. `augmented` says whether the block
    /// went through augmentation.
    Resolving { augmented: bool },
    /// The block is being offered to the downstream sink. `persisted` says
    /// whether its transaction was committed.
    Forwarding { persisted: bool },
}

/// The block whose transaction is open.
#[derive(Clone, Debug, PartialEq, Eq)]
pub struct InFlight {
    pub block: Block,
    pub stage: Stage,
    /// Whether ordinal activity was found at the block's height before
    /// anything was written. Meaningful once the stage is past `Opening`.
    pub any_existing_activity: bool,
}

/// What the processor asks its caller to do next.
#[derive(Clone, Copy, Debug, PartialEq, Eq)]
pub enum Request {
    /// Open a transaction on the read-write connection and look up whether
    /// any ordinal activity exists at `height`.
    OpenTransaction { height: u64 },
    /// Run the protocol computation over the current block, the blocks not
    /// yet begun, both cache tiers and the open transaction.
    ComputeRelevance,
    /// Attach inscription data to the current block and write its rows.
    AugmentInscriptions { verbose: bool },
    /// Attach transfer data to the current block.
    AugmentTransfers { verbose: bool },
    /// Commit the open transaction.
    Commit,
    /// Roll the open transaction back.
    Rollback,
    /// Offer the current block to the downstream sink, without blocking.
    Forward { persisted: bool },
    /// The batch is done.
    Done,
}

/// What came of a request.
#[derive(Debug, PartialEq, Eq)]
pub enum Reply {
    /// Answers `OpenTransaction`: whether activity exists at the height.
    Activity(bool),
    /// Answers `ComputeRelevance`: whether any transaction of the block is
    /// relevant, or why the computation failed.
    Relevance(Result<bool, String>),
    /// Answers `AugmentInscriptions`: the block's transactions as they are
    /// now.
    InscriptionsAugmented(Vec<Transaction>),
    /// Answers `AugmentTransfers`: the block's transactions as they are now.
    TransfersAugmented(Vec<Transaction>),
    /// Answers `Commit` and `Rollback`: whether the database did it.
    Resolved(Result<(), String>),
    /// Answers `Forward`.
    Forwarded,
}

/// The request that a block in flight waits on.
pub open spec fn block_request(flight: InFlight) -> Request {
    match flight.stage {
        Stage::Opening => Request::OpenTransaction { height: flight.block.height() },
        Stage::Computing => Request::ComputeRelevance,
        Stage::AugmentingInscriptions { verbose } => Request::AugmentInscriptions { verbose },
        Stage::AugmentingTransfers { verbose } => Request::AugmentTransfers { verbose },
        Stage::Resolving { augmented } => if augmented && !flight.any_existing_activity {
            Request::Commit
        } else {
            Request::Rollback
        },
        Stage::Forwarding { persisted } => Request::Forward { persisted },
    }
}

/// A block with its transactions replaced.
pub open spec fn with_transactions(block: Block, transactions: Vec<Transaction>) -> Block {
    Block { block_identifier: block.block_identifier, transactions }
}

/// The part of a block's processing that lies between the activity check and
/// the closing of the transaction: what the reply to the computation and to
/// each augmentation does to the block and to the cursor.
///
/// Only a block with relevant transactions is augmented. Augmenting with
/// inscription data hands out one sequence number for each inscription that
/// the block then reveals.
pub open spec fn block_step(flight: InFlight, cursor: CursorView, verbose: bool, reply: Reply) -> (
    InFlight,
    CursorView,
) {
    match (flight.stage, reply) {
        (Stage::Computing, Reply::Relevance(Ok(true))) => (
            InFlight { stage: Stage::AugmentingInscriptions { verbose }, ..flight },
            cursor,
        ),
        (Stage::Computing, Reply::Relevance(_)) => (
            InFlight { stage: Stage::Resolving { augmented: false }, ..flight },
            cursor,
        ),
        (
            Stage::AugmentingInscriptions { verbose: chosen },
            Reply::InscriptionsAugmented(transactions),
        ) => (
            InFlight {
                block: with_transactions(flight.block, transactions),
                stage: Stage::AugmentingTransfers { verbose: chosen },
                ..flight
            },
            cursor.advance_by(revealed_in_transactions(transactions@).len()),
        ),
        (Stage::AugmentingTransfers { .. }, Reply::TransfersAugmented(transactions)) => (
            InFlight {
                block: with_transactions(flight.block, transactions),
                stage: Stage::Resolving { augmented: true },
                ..flight
            },
            cursor,
        ),
        _ => (flight, cursor),
    }
}

/// Whether a reply would hand out more sequence numbers than the cursor has
/// left.
pub open spec fn exhausts(stage: Stage, cursor: CursorView, reply: Reply) -> bool {
    stage is AugmentingInscriptions && (reply matches Reply::InscriptionsAugmented(transactions)
        && cursor.next + revealed_in_transactions(transactions@).len() > u64::MAX)
}

/// Takes one reply for a block whose activity check is done and whose
/// transaction is still open. The outcome is `Err` exactly when the reply
/// reports a failed computation, with the reason.
pub fn process_block(
    flight: &mut InFlight,
    sequence_cursor: &mut SequenceCursor,
    hord_config: &HordConfig,
    reply: Reply,
) -> (outcome: Result<(), String>)
    requires
        !exhausts(old(flight).stage, old(sequence_cursor)@, reply),
    ensures
        (*final(flight), final(sequence_cursor)@) == block_step(
            *old(flight),
            old(sequence_cursor)@,
            hord_config.logs.ordinals_internals,
            reply,
        ),
        match outcome {
            Err(reason) => old(flight).stage is Computing && reply == Reply::Relevance(
                Err::<bool, String>(reason),
            ),
            Ok(_) => !(old(flight).stage is Computing && reply matches Reply::Relevance(Err(_))),
        },
{
    match flight.stage {
        Stage::Computing => match reply {
            Reply::Relevance(Ok(true)) => {
                flight.stage =
                Stage::AugmentingInscriptions { verbose: hord_config.logs.ordinals_internals };
                Ok(())
            },
            Reply::Relevance(Ok(false)) => {
                flight.stage = Stage::Resolving { augmented: false };
                Ok(())
            },
            Reply::Relevance(Err(reason)) => {
                flight.stage = Stage::Resolving { augmented: false };
                Err(reason)
            },
            _ => Ok(()),
        },
        Stage::AugmentingInscriptions { verbose } => match reply {
            Reply::InscriptionsAugmented(transactions) => {
                flight.block.transactions = transactions;
                flight.stage = Stage::AugmentingTransfers { verbose };
                let revealed = get_inscriptions_revealed_in_block(&flight.block);
                let ghost before = sequence_cursor@;
                let mut handed: usize = 0;
                while handed < revealed.len()
                    invariant
                        handed <= revealed.len(),
                        sequence_cursor@ == before.advance_by(handed as nat),
                        before.next + revealed.len() <= u64::MAX,
                    decreases revealed.len() - handed,
                {
                    sequence_cursor.advance();
                    handed = handed + 1;
                }
                Ok(())
            },
            _ => Ok(()),
        },
        Stage::AugmentingTransfers { verbose: _ } => match reply {
            Reply::TransfersAugmented(transactions) => {
                flight.block.transactions = transactions;
                flight.stage = Stage::Resolving { augmented: true };
                Ok(())
            },
            _ => Ok(()),
        },
        _ => Ok(()),
    }
}

/// A batch as the processor sees it.
pub struct BatchView {
    /// The blocks not yet begun, in delivered order.
    pub next_blocks: Seq<Block>,
    /// The block whose transaction is open, if any.
    pub current: Option<InFlight>,
    /// The blocks that are through, in delivered order.
    pub updated_blocks: Seq<Block>,
}

/// A block at the start of its processing.
pub open spec fn opening(block: Block) -> InFlight {
    InFlight { block, stage: Stage::Opening, any_existing_activity: false }
}

/// A batch with its first block taken up, if it has one.
pub open spec fn begin(view: BatchView) -> BatchView {
    if view.next_blocks.len() > 0 {
        BatchView {
            next_blocks: view.next_blocks.remove(0),
            current: Some(opening(view.next_blocks[0])),
            updated_blocks: view.updated_blocks,
        }
    } else {
        BatchView { current: None, ..view }
    }
}

/// The request that a batch waits on.
pub open spec fn batch_request(view: BatchView) -> Request {
    match view.current {
        Some(flight) => block_request(flight),
        None => Request::Done,
    }
}

/// Whether the transaction of a block that waits for its resolution is
/// durable after `outcome`: it is if a commit was asked for and done.
pub open spec fn persisted_by(flight: InFlight, outcome: Result<(), String>) -> bool {
    block_request(flight) == Request::Commit && outcome is Ok
}

/// What one reply does to a batch and to the cursor.
///
/// The activity found at a block's height is recorded before anything else
/// happens to the block. When the transaction is closed, the cursor keeps what
/// it handed out only if the commit was asked for and done. A block is added
/// to the blocks that are through once it was forwarded, whatever became of
/// its transaction, and the next block is taken up.
pub open spec fn batch_step(view: BatchView, cursor: CursorView, verbose: bool, reply: Reply) -> (
    BatchView,
    CursorView,
) {
    match view.current {
        None => (view, cursor),
        Some(flight) => match (flight.stage, reply) {
            (Stage::Opening, Reply::Activity(existing)) => (
                BatchView {
                    current: Some(
                        InFlight { stage: Stage::Computing, any_existing_activity: existing, ..flight },
                    ),
                    ..view
                },
                cursor,
            ),
            (Stage::Opening, _) => (view, cursor),
            (Stage::Resolving { .. }, Reply::Resolved(outcome)) => {
                let persisted = persisted_by(flight, outcome);
                (
                    BatchView {
                        current: Some(InFlight { stage: Stage::Forwarding { persisted }, ..flight }),
                        ..view
                    },
                    if persisted {
                        cursor.commit()
                    } else {
                        cursor.rollback()
                    },
                )
            },
            (Stage::Resolving { .. }, _) => (view, cursor),
            (Stage::Forwarding { .. }, Reply::Forwarded) => (
                begin(
                    BatchView {
                        next_blocks: view.next_blocks,
                        current: None,
                        updated_blocks: view.updated_blocks.push(flight.block),
                    },
                ),
                cursor,
            ),
            (Stage::Forwarding { .. }, _) => (view, cursor),
            _ => {
                let (moved, advanced) = block_step(flight, cursor, verbose, reply);
                (BatchView { current: Some(moved), ..view }, advanced)
            },
        },
    }
}

/// Whether a reply to a batch would hand out more sequence numbers than the
/// cursor has left.
pub open spec fn batch_exhausts(view: BatchView, cursor: CursorView, reply: Reply) -> bool {
    view.current matches Some(flight) && exhausts(flight.stage, cursor, reply)
}

/// A batch of blocks under processing.
pub struct Batch {
    next_blocks: Vec<Block>,
    current: Option<InFlight>,
    updated_blocks: Vec<Block>,
}

impl View for Batch {
    type V = BatchView;

    closed spec fn view(&self) -> BatchView {
        BatchView {
            next_blocks: self.next_blocks@,
            current: self.current,
            updated_blocks: self.updated_blocks@,
        }
    }
}

impl Batch {
    /// Takes a command's blocks up for processing, and makes the first cache
    /// tier that lives and dies with the batch: it starts empty. The first
    /// block, if there is one, is in flight at once.
    pub fn new(blocks: Vec<Block>) -> (started: (Self, TraversalsCacheL1))
        ensures
            started.0@ == begin(
                BatchView { next_blocks: blocks@, current: None, updated_blocks: Seq::empty() },
            ),
            started.1@ == Map::<TraversalKey, TraversalResult>::empty(),
            blocks@.len() == 0 ==> batch_request(started.0@) == Request::Done,
    {
        let mut batch = Batch { next_blocks: blocks, current: None, updated_blocks: Vec::new() };
        batch.take_up_next();
        (batch, TraversalsCacheL1::new())
    }

    fn take_up_next(&mut self)
        requires
            old(self)@.current is None,
        ensures
            final(self)@ == begin(old(self)@),
    {
        if self.next_blocks.len() > 0 {
            let block = self.next_blocks.remove(0);
            self.current = Some(
                InFlight { block, stage: Stage::Opening, any_existing_activity: false },
            );
        }
    }

    /// The request that the batch waits on.
    pub fn request(&self) -> (request: Request)
        ensures
            request == batch_request(self@),
    {
        match &self.current {
            None => Request::Done,
            Some(flight) => match flight.stage {
                Stage::Opening => Request::OpenTransaction {
                    height: flight.block.block_identifier.index,
                },
                Stage::Computing => Request::ComputeRelevance,
                Stage::AugmentingInscriptions { verbose } => Request::AugmentInscriptions {
                    verbose,
                },
                Stage::AugmentingTransfers { verbose } => Request::AugmentTransfers { verbose },
                Stage::Resolving { augmented } => if augmented && !flight.any_existing_activity {
                    Request::Commit
                } else {
                    Request::Rollback
                },
                Stage::Forwarding { persisted } => Request::Forward { persisted },
            },
        }
    }

    /// The block in flight, if the batch is not done.
    pub fn current(&self) -> (flight: Option<&InFlight>)
        ensures
            match flight {
                Some(found) => self@.current == Some(*found),
                None => self@.current is None,
            },
    {
        self.current.as_ref()
    }

    /// The blocks not yet begun: the look-ahead of the protocol computation.
    pub fn next_blocks(&self) -> (blocks: &Vec<Block>)
        ensures
            blocks@ == self@.next_blocks,
    {
        &self.next_blocks
    }

    /// Whether the cursor has the sequence numbers left that taking `reply`
    /// would hand out. Only then may the reply be given to
    /// [`process_blocks`].
    pub fn can_take(&self, sequence_cursor: &SequenceCursor, reply: &Reply) -> (enough: bool)
        ensures
            enough == !batch_exhausts(self@, sequence_cursor@, *reply),
    {
        match &self.current {
            Some(flight) => match flight.stage {
                Stage::AugmentingInscriptions { verbose: _ } => match reply {
                    Reply::InscriptionsAugmented(transactions) => {
                        let wanted = get_inscriptions_revealed_in_transactions(transactions).len();
                        let left = u64::MAX - sequence_cursor.pick_next();
                        wanted as u64 <= left
                    },
                    _ => true,
                },
                _ => true,
            },
            None => true,
        }
    }

    /// How many blocks are through.
    pub fn updated_len(&self) -> (count: usize)
        ensures
            count == self@.updated_blocks.len(),
    {
        self.updated_blocks.len()
    }

    /// Ends the batch: the blocks that are through, in delivered order.
    pub fn into_updated_blocks(self) -> (blocks: Vec<Block>)
        ensures
            blocks@ == self@.updated_blocks,
    {
        self.updated_blocks
    }
}

/// Takes one reply for a batch and says what to do next.
pub fn process_blocks(
    batch: &mut Batch,
    sequence_cursor: &mut SequenceCursor,
    hord_config: &HordConfig,
    reply: Reply,
) -> (request: Request)
    requires
        !batch_exhausts(old(batch)@, old(sequence_cursor)@, reply),
    ensures
        (final(batch)@, final(sequence_cursor)@) == batch_step(
            old(batch)@,
            old(sequence_cursor)@,
            hord_config.logs.ordinals_internals,
            reply,
        ),
        request == batch_request(final(batch)@),
{
    match batch.current.take() {
        None => {},
        Some(mut flight) => match flight.stage {
            Stage::Opening => {
                match reply {
                    Reply::Activity(existing) => {
                        flight.stage = Stage::Computing;
                        flight.any_existing_activity = existing;
                    },
                    _ => {},
                }
                batch.current = Some(flight);
            },
            Stage::Resolving { augmented } => {
                match reply {
                    Reply::Resolved(outcome) => {
                        let persisted = augmented && !flight.any_existing_activity
                            && outcome.is_ok();
                        if persisted {
                            sequence_cursor.commit();
                        } else {
                            sequence_cursor.rollback();
                        }
                        flight.stage = Stage::Forwarding { persisted };
                    },
                    _ => {},
                }
                batch.current = Some(flight);
            },
            Stage::Forwarding { persisted: _ } => match reply {
                Reply::Forwarded => {
                    batch.updated_blocks.push(flight.block);
                    batch.take_up_next();
                },
                _ => {
                    batch.current = Some(flight);
                },
            },
            _ => {
                let _ = process_block(&mut flight, sequence_cursor, hord_config, reply);
                batch.current = Some(flight);
            },
        },
    }
    batch.request()
}

/// The batch and the cursor after a run of replies.
pub open spec fn after_replies(
    view: BatchView,
    cursor: CursorView,
    verbose: bool,
    replies: Seq<Reply>,
) -> (BatchView, CursorView)
    decreases replies.len(),
{
    if replies.len() == 0 {
        (view, cursor)
    } else {
        let (earlier, advanced) = after_replies(view, cursor, verbose, replies.drop_last());
        batch_step(earlier, advanced, verbose, replies.last())
    }
}

/// A block at whose height activity was found is never committed. Whatever
/// replies follow the finding, for as long as the block is in flight the
/// processor asks for no commit, durable storage keeps the sequence number
/// it had, and the block is forwarded as not persisted.
pub proof fn lemma_existing_activity_never_commits(
    view: BatchView,
    cursor: CursorView,
    verbose: bool,
    replies: Seq<Reply>,
)
    requires
        view.current matches Some(flight) && flight.stage is Opening,
        replies.len() > 0,
        replies[0] == Reply::Activity(true),
    ensures
        ({
            let (later, advanced) = after_replies(view, cursor, verbose, replies);
            &&& later.updated_blocks.len() >= view.updated_blocks.len()
            &&& later.updated_blocks.len() == view.updated_blocks.len() ==> {
                &&& later.current matches Some(flight) && flight.any_existing_activity
                    && !(flight.stage is Opening)
                &&& batch_request(later) != Request::Commit
                &&& batch_request(later) != Request::Forward { persisted: true }
                &&& advanced.committed == cursor.committed
            }
        }),
    decreases replies.len(),
{
    let earlier = replies.drop_last();
    if earlier.len() == 0 {
        assert(after_replies(view, cursor, verbose, earlier) == (view, cursor));
    } else {
        assert(earlier[0] == replies[0]);
        lemma_existing_activity_never_commits(view, cursor, verbose, earlier);
    }
}

/// A block without earlier activity at its height, with relevant
/// transactions, whose commit the database carries out: durable storage then
/// holds a next sequence number that is greater by exactly the number of
/// inscriptions that the block reveals, nothing is left pending, and the
/// block is forwarded as persisted.
pub proof fn lemma_commit_persists_revealed(
    view: BatchView,
    cursor: CursorView,
    verbose: bool,
    inscribed: Vec<Transaction>,
    transferred: Vec<Transaction>,
)
    requires
        view.current matches Some(flight) && flight.stage is Opening,
        cursor.pending() == 0,
    ensures
        ({
            let checked = batch_step(view, cursor, verbose, Reply::Activity(false));
            let computed = batch_step(checked.0, checked.1, verbose, Reply::Relevance(Ok(true)));
            let numbered = batch_step(
                computed.0,
                computed.1,
                verbose,
                Reply::InscriptionsAugmented(inscribed),
            );
            let augmented = batch_step(
                numbered.0,
                numbered.1,
                verbose,
                Reply::TransfersAugmented(transferred),
            );
            let resolved = batch_step(augmented.0, augmented.1, verbose, Reply::Resolved(Ok(())));
            &&& batch_request(checked.0) == Request::ComputeRelevance
            &&& batch_request(computed.0) == Request::AugmentInscriptions { verbose }
            &&& batch_request(numbered.0) == Request::AugmentTransfers { verbose }
            &&& batch_request(augmented.0) == Request::Commit
            &&& batch_request(resolved.0) == Request::Forward { persisted: true }
            &&& resolved.1.committed == cursor.committed + revealed_in_transactions(
                inscribed@,
            ).len()
            &&& resolved.1.pending() == 0
        }),
{
}

/// Durable storage never goes back to an earlier sequence number. One reply
/// alone raises it: the one that reports a commit done, for a block that was
/// augmented and at whose height no activity was found. Every other way of
/// closing a transaction leaves it as it was and takes back what was handed
/// out.
pub proof fn lemma_committed_never_decreases(
    view: BatchView,
    cursor: CursorView,
    verbose: bool,
    reply: Reply,
)
    requires
        cursor.wf(),
    ensures
        ({
            let (later, advanced) = batch_step(view, cursor, verbose, reply);
            &&& advanced.wf()
            &&& advanced.committed >= cursor.committed
            &&& advanced.committed != cursor.committed ==> {
                &&& view.current matches Some(flight) && flight.stage == (Stage::Resolving {
                    augmented: true,
                }) && !flight.any_existing_activity
                &&& reply matches Reply::Resolved(Ok(_))
                &&& advanced == cursor.commit()
            }
            &&& (view.current matches Some(flight) && flight.stage is Resolving && reply is Resolved
                && advanced.committed == cursor.committed) ==> advanced.pending() == 0
        }),
{
}

/// Whether a transaction is open: the activity at the block's height has been
/// looked up in it, and it has not been committed or rolled back yet.
pub open spec fn transaction_open(view: BatchView) -> bool {
    view.current matches Some(flight) && !(flight.stage is Opening) && !(flight.stage
        is Forwarding)
}

/// One transaction is open at a time, for one block, and it ends in a commit
/// or a rollback. While it is open the processor asks for work inside it or
/// for its end, and touches no other block. It is opened by nothing but the
/// answer to `OpenTransaction`, and closed by nothing but the answer to
/// `Commit` or `Rollback`; the block is forwarded only after that.
pub proof fn lemma_one_transaction_at_a_time(
    view: BatchView,
    cursor: CursorView,
    verbose: bool,
    reply: Reply,
)
    ensures
        ({
            let later = batch_step(view, cursor, verbose, reply).0;
            &&& transaction_open(view) <==> {
                ||| batch_request(view) == Request::ComputeRelevance
                ||| batch_request(view) is AugmentInscriptions
                ||| batch_request(view) is AugmentTransfers
                ||| batch_request(view) == Request::Commit
                ||| batch_request(view) == Request::Rollback
            }
            &&& transaction_open(view) ==> {
                &&& later.current is Some
                &&& later.next_blocks == view.next_blocks
                &&& later.updated_blocks == view.updated_blocks
            }
            &&& transaction_open(view) && !transaction_open(later) ==> {
                &&& batch_request(view) == Request::Commit || batch_request(view)
                    == Request::Rollback
                &&& reply is Resolved
                &&& batch_request(later) is Forward
            }
            &&& !transaction_open(view) && transaction_open(later) ==> {
                &&& batch_request(view) is OpenTransaction
                &&& reply is Activity
                &&& batch_request(later) == Request::ComputeRelevance
            }
        }),
{
}

/// The identifiers of a run of blocks.
pub open spec fn identifiers(blocks: Seq<Block>) -> Seq<BlockIdentifier> {
    blocks.map_values(|block: Block| block.block_identifier)
}

/// The identifiers of all the blocks of a batch: those that are through,
/// then the one in flight, then those not yet begun.
pub open spec fn delivered(view: BatchView) -> Seq<BlockIdentifier> {
    identifiers(view.updated_blocks) + match view.current {
        Some(flight) => seq![flight.block.block_identifier],
        None => Seq::empty(),
    } + identifiers(view.next_blocks)
}

/// Blocks are taken up one at a time and in the order in which they were
/// delivered: no reply reorders, drops or adds a block, and augmentation
/// leaves a block its identifier.
pub proof fn lemma_delivered_order_kept(
    view: BatchView,
    cursor: CursorView,
    verbose: bool,
    reply: Reply,
)
    ensures
        delivered(begin(BatchView { current: None, ..view })) == delivered(
            BatchView { current: None, ..view },
        ),
        delivered(batch_step(view, cursor, verbose, reply).0) == delivered(view),
{
    let idle = BatchView { current: None, ..view };
    assert(delivered(begin(idle)) =~= delivered(idle));
    match view.current {
        None => {},
        Some(flight) => {
            let through = BatchView {
                next_blocks: view.next_blocks,
                current: None,
                updated_blocks: view.updated_blocks.push(flight.block),
            };
            assert(delivered(begin(through)) =~= delivered(through));
            assert(delivered(through) =~= delivered(view));
            assert(delivered(batch_step(view, cursor, verbose, reply).0) =~= delivered(view));
        },
    }
}

/// Over a whole run of replies, whatever they are, the blocks of a batch
/// keep their order, and durable storage never goes back to an earlier
/// sequence number. Once the batch is done, the blocks that are through are
/// the delivered ones, in delivered order.
pub proof fn lemma_run_keeps_order_and_sequence(
    view: BatchView,
    cursor: CursorView,
    verbose: bool,
    replies: Seq<Reply>,
)
    requires
        cursor.wf(),
    ensures
        ({
            let (later, advanced) = after_replies(view, cursor, verbose, replies);
            &&& delivered(later) == delivered(view)
            &&& advanced.wf()
            &&& advanced.committed >= cursor.committed
            &&& batch_request(later) == Request::Done && later.next_blocks.len() == 0
                ==> identifiers(later.updated_blocks) == delivered(view)
        }),
    decreases replies.len(),
{
    if replies.len() > 0 {
        let (earlier, before) = after_replies(view, cursor, verbose, replies.drop_last());
        lemma_run_keeps_order_and_sequence(view, cursor, verbose, replies.drop_last());
        lemma_delivered_order_kept(earlier, before, verbose, replies.last());
        lemma_committed_never_decreases(earlier, before, verbose, replies.last());
    }
    let (later, advanced) = after_replies(view, cursor, verbose, replies);
    if batch_request(later) == Request::Done && later.next_blocks.len() == 0 {
        assert(delivered(later) =~= identifiers(later.updated_blocks));
    }
}

} // verus!
