use inscription_indexing::block::Block;
use inscription_indexing::block::BlockIdentifier;
use inscription_indexing::block::OrdinalInscriptionRevealData;
use inscription_indexing::block::OrdinalInscriptionTransferData;
use inscription_indexing::block::OrdinalOperation;
use inscription_indexing::block::Transaction;
use inscription_indexing::block::TransactionIdentifier;
use inscription_indexing::cursor::SequenceCursor;
use inscription_indexing::processor::process_block;
use inscription_indexing::processor::process_blocks;
use inscription_indexing::processor::Batch;
use inscription_indexing::processor::HordConfig;
use inscription_indexing::processor::InFlight;
use inscription_indexing::processor::LogConfig;
use inscription_indexing::processor::Reply;
use inscription_indexing::processor::Request;
use inscription_indexing::processor::Stage;

fn config(verbose: bool) -> HordConfig {
    HordConfig { logs: LogConfig { ordinals_internals: verbose } }
}

fn raw(tag: u64) -> Transaction {
    Transaction { transaction_identifier: TransactionIdentifier { hash: [tag, 0, 0, 0] }, ordinal_operations: vec![] }
}

fn revealing(tag: u64, numbers: Vec<u64>) -> Transaction {
    Transaction {
        transaction_identifier: TransactionIdentifier { hash: [tag, 0, 0, 0] },
        ordinal_operations: numbers
            .into_iter()
            .map(|number| {
                OrdinalOperation::InscriptionRevealed(OrdinalInscriptionRevealData {
                    inscription_number: number,
                    inscription_input_index: 0,
                    ordinal_number: 9_000 + number,
                    transfers_pre_inscription: 0,
                })
            })
            .collect(),
    }
}

fn with_transfer(mut transaction: Transaction, ordinal: u64) -> Transaction {
    transaction.ordinal_operations.push(OrdinalOperation::InscriptionTransferred(
        OrdinalInscriptionTransferData { ordinal_number: ordinal, post_transfer_output_value: None },
    ));
    transaction
}

fn block(height: u64, transactions: Vec<Transaction>) -> Block {
    Block { block_identifier: BlockIdentifier { index: height, hash: [height, 7, 7, 7] }, transactions }
}

fn flight(stage: Stage, existing: bool) -> InFlight {
    InFlight { block: block(500, vec![raw(1)]), stage, any_existing_activity: existing }
}

#[test]
fn empty_batch_is_done_at_once() {
    let (batch, cache_l1) = Batch::new(vec![]);
    assert_eq!(batch.request(), Request::Done);
    assert_eq!(batch.current(), None);
    assert_eq!(batch.updated_len(), 0);
    assert_eq!(cache_l1.len(), 0);
}

#[test]
fn done_batch_ignores_replies() {
    let (mut batch, _) = Batch::new(vec![]);
    let mut cursor = SequenceCursor::new(3);
    assert_eq!(process_blocks(&mut batch, &mut cursor, &config(false), Reply::Activity(true)), Request::Done);
    assert_eq!(process_blocks(&mut batch, &mut cursor, &config(false), Reply::Forwarded), Request::Done);
    assert_eq!(cursor.pick_next(), 3);
    assert_eq!(batch.into_updated_blocks(), vec![]);
}

#[test]
fn batch_opens_a_transaction_for_the_first_block() {
    let (batch, _) = Batch::new(vec![block(500, vec![raw(1)]), block(501, vec![])]);
    assert_eq!(batch.request(), Request::OpenTransaction { height: 500 });
    assert_eq!(batch.current(), Some(&flight(Stage::Opening, false)));
    assert_eq!(batch.next_blocks(), &vec![block(501, vec![])]);
}

#[test]
fn block_without_relevant_transactions_is_not_committed() {
    let (mut batch, _) = Batch::new(vec![block(500, vec![raw(1)])]);
    let mut cursor = SequenceCursor::new(10);
    let cfg = config(false);
    assert_eq!(batch.request(), Request::OpenTransaction { height: 500 });
    assert_eq!(process_blocks(&mut batch, &mut cursor, &cfg, Reply::Activity(false)), Request::ComputeRelevance);
    assert_eq!(process_blocks(&mut batch, &mut cursor, &cfg, Reply::Relevance(Ok(false))), Request::Rollback);
    assert_eq!(
        process_blocks(&mut batch, &mut cursor, &cfg, Reply::Resolved(Ok(()))),
        Request::Forward { persisted: false }
    );
    assert_eq!(process_blocks(&mut batch, &mut cursor, &cfg, Reply::Forwarded), Request::Done);
    assert_eq!(cursor.committed_next(), 10);
    assert_eq!(cursor.pick_next(), 10);
    assert_eq!(batch.into_updated_blocks(), vec![block(500, vec![raw(1)])]);
}

#[test]
fn relevant_block_is_augmented_and_committed() {
    let (mut batch, _) = Batch::new(vec![block(500, vec![raw(1), raw(2)])]);
    let mut cursor = SequenceCursor::new(10);
    let cfg = config(true);
    process_blocks(&mut batch, &mut cursor, &cfg, Reply::Activity(false));
    assert_eq!(
        process_blocks(&mut batch, &mut cursor, &cfg, Reply::Relevance(Ok(true))),
        Request::AugmentInscriptions { verbose: true }
    );
    let inscribed = vec![revealing(1, vec![10, 11]), revealing(2, vec![12])];
    assert_eq!(
        process_blocks(&mut batch, &mut cursor, &cfg, Reply::InscriptionsAugmented(inscribed.clone())),
        Request::AugmentTransfers { verbose: true }
    );
    assert_eq!(cursor.pick_next(), 13);
    assert_eq!(cursor.committed_next(), 10);
    let transferred = vec![with_transfer(inscribed[0].clone(), 77), inscribed[1].clone()];
    assert_eq!(
        process_blocks(&mut batch, &mut cursor, &cfg, Reply::TransfersAugmented(transferred.clone())),
        Request::Commit
    );
    assert_eq!(
        process_blocks(&mut batch, &mut cursor, &cfg, Reply::Resolved(Ok(()))),
        Request::Forward { persisted: true }
    );
    assert_eq!(cursor.committed_next(), 13);
    assert_eq!(cursor.pick_next(), 13);
    assert_eq!(process_blocks(&mut batch, &mut cursor, &cfg, Reply::Forwarded), Request::Done);
    assert_eq!(batch.into_updated_blocks(), vec![block(500, transferred)]);
}

#[test]
fn reprocessed_height_is_rolled_back() {
    let cfg = config(false);
    let mut cursor = SequenceCursor::new(0);
    let inscribed = vec![revealing(1, vec![0, 1, 2])];

    let (mut first, _) = Batch::new(vec![block(500, vec![raw(1)])]);
    process_blocks(&mut first, &mut cursor, &cfg, Reply::Activity(false));
    process_blocks(&mut first, &mut cursor, &cfg, Reply::Relevance(Ok(true)));
    process_blocks(&mut first, &mut cursor, &cfg, Reply::InscriptionsAugmented(inscribed.clone()));
    process_blocks(&mut first, &mut cursor, &cfg, Reply::TransfersAugmented(inscribed.clone()));
    assert_eq!(first.request(), Request::Commit);
    process_blocks(&mut first, &mut cursor, &cfg, Reply::Resolved(Ok(())));
    process_blocks(&mut first, &mut cursor, &cfg, Reply::Forwarded);
    assert_eq!(cursor.committed_next(), 3);

    let (mut second, _) = Batch::new(vec![block(500, vec![raw(1)])]);
    assert_eq!(second.request(), Request::OpenTransaction { height: 500 });
    process_blocks(&mut second, &mut cursor, &cfg, Reply::Activity(true));
    assert_eq!(
        process_blocks(&mut second, &mut cursor, &cfg, Reply::Relevance(Ok(true))),
        Request::AugmentInscriptions { verbose: false }
    );
    let again = vec![revealing(1, vec![3, 4, 5])];
    process_blocks(&mut second, &mut cursor, &cfg, Reply::InscriptionsAugmented(again.clone()));
    assert_eq!(cursor.pick_next(), 6);
    assert_eq!(
        process_blocks(&mut second, &mut cursor, &cfg, Reply::TransfersAugmented(again.clone())),
        Request::Rollback
    );
    assert_eq!(
        process_blocks(&mut second, &mut cursor, &cfg, Reply::Resolved(Ok(()))),
        Request::Forward { persisted: false }
    );
    assert_eq!(cursor.committed_next(), 3);
    assert_eq!(cursor.pick_next(), 3);
    assert_eq!(process_blocks(&mut second, &mut cursor, &cfg, Reply::Forwarded), Request::Done);
    assert_eq!(second.into_updated_blocks(), vec![block(500, again)]);
}

#[test]
fn existing_activity_without_relevance_rolls_back() {
    let (mut batch, _) = Batch::new(vec![block(9, vec![])]);
    let mut cursor = SequenceCursor::new(4);
    let cfg = config(false);
    process_blocks(&mut batch, &mut cursor, &cfg, Reply::Activity(true));
    assert_eq!(process_blocks(&mut batch, &mut cursor, &cfg, Reply::Relevance(Ok(false))), Request::Rollback);
    assert_eq!(
        process_blocks(&mut batch, &mut cursor, &cfg, Reply::Resolved(Ok(()))),
        Request::Forward { persisted: false }
    );
    assert_eq!(cursor.committed_next(), 4);
}

#[test]
fn failed_computation_skips_augmentation() {
    let (mut batch, _) = Batch::new(vec![block(500, vec![raw(1)]), block(501, vec![])]);
    let mut cursor = SequenceCursor::new(10);
    let cfg = config(false);
    process_blocks(&mut batch, &mut cursor, &cfg, Reply::Activity(false));
    let failure = Reply::Relevance(Err(String::from("traversal failed")));
    assert_eq!(process_blocks(&mut batch, &mut cursor, &cfg, failure), Request::Rollback);
    assert_eq!(
        process_blocks(&mut batch, &mut cursor, &cfg, Reply::Resolved(Ok(()))),
        Request::Forward { persisted: false }
    );
    assert_eq!(
        process_blocks(&mut batch, &mut cursor, &cfg, Reply::Forwarded),
        Request::OpenTransaction { height: 501 }
    );
    assert_eq!(batch.updated_len(), 1);
    assert_eq!(cursor.committed_next(), 10);
}

#[test]
fn failed_commit_is_flagged_and_not_counted_durable() {
    let (mut batch, _) = Batch::new(vec![block(500, vec![raw(1)])]);
    let mut cursor = SequenceCursor::new(10);
    let cfg = config(false);
    process_blocks(&mut batch, &mut cursor, &cfg, Reply::Activity(false));
    process_blocks(&mut batch, &mut cursor, &cfg, Reply::Relevance(Ok(true)));
    let inscribed = vec![revealing(1, vec![10])];
    process_blocks(&mut batch, &mut cursor, &cfg, Reply::InscriptionsAugmented(inscribed.clone()));
    assert_eq!(
        process_blocks(&mut batch, &mut cursor, &cfg, Reply::TransfersAugmented(inscribed.clone())),
        Request::Commit
    );
    let failed = Reply::Resolved(Err(String::from("database is locked")));
    assert_eq!(process_blocks(&mut batch, &mut cursor, &cfg, failed), Request::Forward { persisted: false });
    assert_eq!(cursor.committed_next(), 10);
    assert_eq!(cursor.pick_next(), 10);
    assert_eq!(process_blocks(&mut batch, &mut cursor, &cfg, Reply::Forwarded), Request::Done);
    assert_eq!(batch.into_updated_blocks(), vec![block(500, inscribed)]);
}

#[test]
fn failed_rollback_changes_nothing_more() {
    let (mut batch, _) = Batch::new(vec![block(500, vec![])]);
    let mut cursor = SequenceCursor::new(10);
    let cfg = config(false);
    process_blocks(&mut batch, &mut cursor, &cfg, Reply::Activity(true));
    process_blocks(&mut batch, &mut cursor, &cfg, Reply::Relevance(Ok(true)));
    process_blocks(&mut batch, &mut cursor, &cfg, Reply::InscriptionsAugmented(vec![revealing(1, vec![10, 11])]));
    process_blocks(&mut batch, &mut cursor, &cfg, Reply::TransfersAugmented(vec![revealing(1, vec![10, 11])]));
    let failed = Reply::Resolved(Err(String::from("busy")));
    assert_eq!(process_blocks(&mut batch, &mut cursor, &cfg, failed), Request::Forward { persisted: false });
    assert_eq!(cursor.pick_next(), 10);
}

#[test]
fn reply_that_answers_nothing_is_passed_over() {
    let (mut batch, _) = Batch::new(vec![block(500, vec![raw(1)])]);
    let mut cursor = SequenceCursor::new(10);
    let cfg = config(false);
    let opening = Request::OpenTransaction { height: 500 };
    assert_eq!(process_blocks(&mut batch, &mut cursor, &cfg, Reply::Forwarded), opening);
    assert_eq!(process_blocks(&mut batch, &mut cursor, &cfg, Reply::Relevance(Ok(true))), opening);
    assert_eq!(process_blocks(&mut batch, &mut cursor, &cfg, Reply::Resolved(Ok(()))), opening);
    assert_eq!(
        process_blocks(&mut batch, &mut cursor, &cfg, Reply::InscriptionsAugmented(vec![revealing(1, vec![1])])),
        opening
    );
    assert_eq!(batch.current(), Some(&flight(Stage::Opening, false)));
    assert_eq!(cursor.pick_next(), 10);

    process_blocks(&mut batch, &mut cursor, &cfg, Reply::Activity(false));
    assert_eq!(process_blocks(&mut batch, &mut cursor, &cfg, Reply::Activity(true)), Request::ComputeRelevance);
    assert_eq!(batch.current(), Some(&flight(Stage::Computing, false)));
    process_blocks(&mut batch, &mut cursor, &cfg, Reply::Relevance(Ok(true)));
    assert_eq!(
        process_blocks(&mut batch, &mut cursor, &cfg, Reply::TransfersAugmented(vec![])),
        Request::AugmentInscriptions { verbose: false }
    );
    process_blocks(&mut batch, &mut cursor, &cfg, Reply::InscriptionsAugmented(vec![]));
    process_blocks(&mut batch, &mut cursor, &cfg, Reply::TransfersAugmented(vec![]));
    assert_eq!(process_blocks(&mut batch, &mut cursor, &cfg, Reply::Forwarded), Request::Commit);
    process_blocks(&mut batch, &mut cursor, &cfg, Reply::Resolved(Ok(())));
    assert_eq!(
        process_blocks(&mut batch, &mut cursor, &cfg, Reply::Resolved(Ok(()))),
        Request::Forward { persisted: true }
    );
    assert_eq!(batch.updated_len(), 0);
}

#[test]
fn blocks_go_through_in_delivered_order() {
    let delivered = vec![block(30, vec![]), block(10, vec![]), block(20, vec![])];
    let (mut batch, _) = Batch::new(delivered.clone());
    let mut cursor = SequenceCursor::new(0);
    let cfg = config(false);
    let mut opened = vec![];
    let mut lookahead = vec![];
    loop {
        let reply = match batch.request() {
            Request::OpenTransaction { height } => {
                opened.push(height);
                lookahead.push(batch.next_blocks().len());
                Reply::Activity(false)
            }
            Request::ComputeRelevance => Reply::Relevance(Ok(false)),
            Request::Rollback => Reply::Resolved(Ok(())),
            Request::Forward { persisted: false } => Reply::Forwarded,
            Request::Done => break,
            other => panic!("unexpected request {:?}", other),
        };
        process_blocks(&mut batch, &mut cursor, &cfg, reply);
    }
    assert_eq!(opened, vec![30, 10, 20]);
    assert_eq!(lookahead, vec![2, 1, 0]);
    assert_eq!(batch.into_updated_blocks(), delivered);
}

#[test]
fn cursor_grows_by_the_reveals_of_committed_blocks_only() {
    let (mut batch, _) = Batch::new(vec![block(1, vec![]), block(2, vec![]), block(3, vec![])]);
    let mut cursor = SequenceCursor::new(100);
    let cfg = config(false);
    let reveals = [vec![100u64, 101], vec![102, 103, 104], vec![102]];
    let existing = [false, true, false];
    let mut index = 0;
    loop {
        let reply = match batch.request() {
            Request::OpenTransaction { .. } => Reply::Activity(existing[index]),
            Request::ComputeRelevance => Reply::Relevance(Ok(true)),
            Request::AugmentInscriptions { .. } => {
                Reply::InscriptionsAugmented(vec![revealing(1, reveals[index].clone())])
            }
            Request::AugmentTransfers { .. } => {
                Reply::TransfersAugmented(vec![revealing(1, reveals[index].clone())])
            }
            Request::Commit => {
                assert!(!existing[index]);
                Reply::Resolved(Ok(()))
            }
            Request::Rollback => {
                assert!(existing[index]);
                Reply::Resolved(Ok(()))
            }
            Request::Forward { persisted } => {
                assert_eq!(persisted, !existing[index]);
                index += 1;
                Reply::Forwarded
            }
            Request::Done => break,
        };
        assert!(batch.can_take(&cursor, &reply));
        process_blocks(&mut batch, &mut cursor, &cfg, reply);
    }
    assert_eq!(index, 3);
    assert_eq!(cursor.committed_next(), 103);
    assert_eq!(cursor.pick_next(), 103);
}

#[test]
fn exhausted_cursor_is_detected() {
    let (mut batch, _) = Batch::new(vec![block(1, vec![])]);
    let mut cursor = SequenceCursor::new(u64::MAX - 1);
    let cfg = config(false);
    process_blocks(&mut batch, &mut cursor, &cfg, Reply::Activity(false));
    process_blocks(&mut batch, &mut cursor, &cfg, Reply::Relevance(Ok(true)));
    let two = Reply::InscriptionsAugmented(vec![revealing(1, vec![1, 2])]);
    assert!(!batch.can_take(&cursor, &two));
    let one = Reply::InscriptionsAugmented(vec![revealing(1, vec![1])]);
    assert!(batch.can_take(&cursor, &one));
    assert!(batch.can_take(&cursor, &Reply::Forwarded));
    process_blocks(&mut batch, &mut cursor, &cfg, one);
    assert_eq!(cursor.pick_next(), u64::MAX);
}

#[test]
fn process_block_reports_failed_computation() {
    let mut cursor = SequenceCursor::new(1);
    let mut current = flight(Stage::Computing, false);
    let outcome = process_block(
        &mut current,
        &mut cursor,
        &config(false),
        Reply::Relevance(Err(String::from("no such input"))),
    );
    assert_eq!(outcome, Err(String::from("no such input")));
    assert_eq!(current, flight(Stage::Resolving { augmented: false }, false));
}

#[test]
fn process_block_picks_logging_from_config() {
    let mut cursor = SequenceCursor::new(1);
    let mut quiet = flight(Stage::Computing, true);
    assert_eq!(process_block(&mut quiet, &mut cursor, &config(false), Reply::Relevance(Ok(true))), Ok(()));
    assert_eq!(quiet, flight(Stage::AugmentingInscriptions { verbose: false }, true));
    let mut loud = flight(Stage::Computing, true);
    assert_eq!(process_block(&mut loud, &mut cursor, &config(true), Reply::Relevance(Ok(true))), Ok(()));
    assert_eq!(loud, flight(Stage::AugmentingInscriptions { verbose: true }, true));
}

#[test]
fn process_block_without_relevance_goes_to_resolution() {
    let mut cursor = SequenceCursor::new(1);
    let mut current = flight(Stage::Computing, false);
    assert_eq!(process_block(&mut current, &mut cursor, &config(true), Reply::Relevance(Ok(false))), Ok(()));
    assert_eq!(current, flight(Stage::Resolving { augmented: false }, false));
    assert_eq!(cursor.pick_next(), 1);
}

#[test]
fn process_block_hands_out_one_number_per_reveal() {
    let mut cursor = SequenceCursor::new(50);
    let mut current = flight(Stage::AugmentingInscriptions { verbose: true }, false);
    let inscribed = vec![revealing(1, vec![50, 51]), with_transfer(revealing(2, vec![52]), 3), raw(3)];
    assert_eq!(
        process_block(&mut current, &mut cursor, &config(false), Reply::InscriptionsAugmented(inscribed.clone())),
        Ok(())
    );
    assert_eq!(cursor.pick_next(), 53);
    assert_eq!(cursor.committed_next(), 50);
    assert_eq!(current.stage, Stage::AugmentingTransfers { verbose: true });
    assert_eq!(current.block, block(500, inscribed));
    assert_eq!(
        process_block(&mut current, &mut cursor, &config(false), Reply::TransfersAugmented(vec![raw(9)])),
        Ok(())
    );
    assert_eq!(current.stage, Stage::Resolving { augmented: true });
    assert_eq!(current.block, block(500, vec![raw(9)]));
    assert_eq!(cursor.pick_next(), 53);
}

#[test]
fn process_block_leaves_other_stages_alone() {
    let mut cursor = SequenceCursor::new(1);
    for stage in [
        Stage::Opening,
        Stage::Resolving { augmented: true },
        Stage::Forwarding { persisted: true },
    ] {
        let mut current = flight(stage, false);
        assert_eq!(process_block(&mut current, &mut cursor, &config(true), Reply::Relevance(Ok(true))), Ok(()));
        assert_eq!(current, flight(stage, false));
        assert_eq!(
            process_block(
                &mut current,
                &mut cursor,
                &config(true),
                Reply::InscriptionsAugmented(vec![revealing(1, vec![1])])
            ),
            Ok(())
        );
        assert_eq!(current, flight(stage, false));
    }
    assert_eq!(cursor.pick_next(), 1);
}
