//! Blocks as the worker sees them: a height, and per transaction the ordinal
//! operations that augmentation attaches.

use vstd::prelude::*;

verus! {

/// A 256-bit hash as four 64-bit words, most significant first.
#[derive(Clone, Copy, Debug, PartialEq, Eq)]
pub struct TransactionIdentifier {
    pub hash: [u64; 4],
}

/// What names a block: its height and its hash.
#[derive(Clone, Copy, Debug, PartialEq, Eq)]
pub struct BlockIdentifier {
    /// The block's height.
    pub index: u64,
    pub hash: [u64; 4],
}

/// An inscription revealed by a transaction, with the sequence number it was
/// given.
#[derive(Clone, Copy, Debug, PartialEq, Eq)]
pub struct OrdinalInscriptionRevealData {
    pub inscription_number: u64,
    pub inscription_input_index: usize,
    pub ordinal_number: u64,
    pub transfers_pre_inscription: u32,
}

/// The movement of a satoshi that was inscribed earlier.
#[derive(Clone, Copy, Debug, PartialEq, Eq)]
pub struct OrdinalInscriptionTransferData {
    pub ordinal_number: u64,
    pub post_transfer_output_value: Option<u64>,
}

/// What a transaction does to an inscription.
#[derive(Clone, Copy, Debug, PartialEq, Eq)]
pub enum OrdinalOperation {
    InscriptionRevealed(OrdinalInscriptionRevealData),
    InscriptionTransferred(OrdinalInscriptionTransferData),
}

/// A transaction, with the ordinal operations found in it so far.
#[derive(Clone, Debug, PartialEq, Eq)]
pub struct Transaction {
    pub transaction_identifier: TransactionIdentifier,
    pub ordinal_operations: Vec<OrdinalOperation>,
}

/// A block: its identifier and its transactions in block order. Augmentation
/// changes the transactions and leaves the identifier alone.
#[derive(Clone, Debug, PartialEq, Eq)]
pub struct Block {
    pub block_identifier: BlockIdentifier,
    pub transactions: Vec<Transaction>,
}

/// The persisted summary of a block, which does not depend on what the block
/// inscribes.
#[derive(Clone, Debug, PartialEq, Eq)]
pub struct CompactedBlock {
    pub height: u64,
    pub bytes: Vec<u8>,
}

/// The inscriptions that a run of operations reveals, in order.
pub open spec fn revealed_in_operations(operations: Seq<OrdinalOperation>) -> Seq<
    OrdinalInscriptionRevealData,
>
    decreases operations.len(),
{
    if operations.len() == 0 {
        Seq::empty()
    } else {
        let before = revealed_in_operations(operations.drop_last());
        match operations.last() {
            OrdinalOperation::InscriptionRevealed(data) => before.push(data),
            OrdinalOperation::InscriptionTransferred(_) => before,
        }
    }
}

/// The inscriptions that a run of transactions reveals: those of the first
/// transaction, then those of the second, and so on.
pub open spec fn revealed_in_transactions(transactions: Seq<Transaction>) -> Seq<
    OrdinalInscriptionRevealData,
>
    decreases transactions.len(),
{
    if transactions.len() == 0 {
        Seq::empty()
    } else {
        revealed_in_transactions(transactions.drop_last()) + revealed_in_operations(
            transactions.last().ordinal_operations@,
        )
    }
}

impl Block {
    /// The block's height.
    pub open spec fn height(self) -> u64 {
        self.block_identifier.index
    }

    /// The inscriptions that the block reveals, in transaction order.
    pub open spec fn revealed(self) -> Seq<OrdinalInscriptionRevealData> {
        revealed_in_transactions(self.transactions@)
    }
}

/// Lists the inscriptions revealed by a run of transactions, in the order of
/// the transactions and, within one, of its operations.
pub fn get_inscriptions_revealed_in_transactions(transactions: &Vec<Transaction>) -> (revealed: Vec<
    OrdinalInscriptionRevealData,
>)
    ensures
        revealed@ == revealed_in_transactions(transactions@),
{
    let mut revealed: Vec<OrdinalInscriptionRevealData> = Vec::new();
    let mut t: usize = 0;
    while t < transactions.len()
        invariant
            t <= transactions.len(),
            revealed@ == revealed_in_transactions(transactions@.take(t as int)),
        decreases transactions.len() - t,
    {
        let transaction = &transactions[t];
        let ghost before = revealed@;
        let mut o: usize = 0;
        while o < transaction.ordinal_operations.len()
            invariant
                o <= transaction.ordinal_operations.len(),
                revealed@ == before + revealed_in_operations(
                    transaction.ordinal_operations@.take(o as int),
                ),
            decreases transaction.ordinal_operations.len() - o,
        {
            proof {
                let operations = transaction.ordinal_operations@;
                assert(operations.take(o + 1).drop_last() =~= operations.take(o as int));
            }
            match transaction.ordinal_operations[o] {
                OrdinalOperation::InscriptionRevealed(data) => {
                    revealed.push(data);
                },
                OrdinalOperation::InscriptionTransferred(_) => {},
            }
            o = o + 1;
        }
        proof {
            assert(transaction.ordinal_operations@.take(o as int)
                =~= transaction.ordinal_operations@);
            assert(transactions@.take(t + 1).drop_last() =~= transactions@.take(t as int));
        }
        t = t + 1;
    }
    proof {
        assert(transactions@.take(t as int) =~= transactions@);
    }
    revealed
}

/// Lists the inscriptions revealed in a block, in the order of its
/// transactions and, within one, of its operations.
pub fn get_inscriptions_revealed_in_block(block: &Block) -> (revealed: Vec<
    OrdinalInscriptionRevealData,
>)
    ensures
        revealed@ == block.revealed(),
{
    get_inscriptions_revealed_in_transactions(&block.transactions)
}

} // verus!
