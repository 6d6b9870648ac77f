//! The sequence cursor: the counter that numbers newly revealed inscriptions.
//!
//! The cursor keeps two values. `committed` is the next number as durable
//! storage holds it; `next` is the next number to hand out, which runs ahead
//! of `committed` while a transaction is open. A commit makes the advance
//! durable, a rollback takes it back.

use vstd::prelude::*;

verus! {

/// The two values of a cursor, as mathematical integers.
pub struct CursorView {
    /// The next number as durable storage holds it.
    pub committed: nat,
    /// The next number to hand out.
    pub next: nat,
}

impl CursorView {
    /// The durable value never runs ahead of the working value.
    pub open spec fn wf(self) -> bool {
        self.committed <= self.next
    }

    /// How many numbers were handed out since the last commit or rollback.
    pub open spec fn pending(self) -> int {
        self.next - self.committed
    }

    /// The cursor after `count` numbers were handed out.
    pub open spec fn advance_by(self, count: nat) -> CursorView {
        CursorView { committed: self.committed, next: self.next + count }
    }

    /// The cursor after the open transaction was committed.
    pub open spec fn commit(self) -> CursorView {
        CursorView { committed: self.next, next: self.next }
    }

    /// The cursor after the open transaction was rolled back.
    pub open spec fn rollback(self) -> CursorView {
        CursorView { committed: self.committed, next: self.committed }
    }
}

/// The cursor. It has one owner, who moves it on one number at a time.
pub struct SequenceCursor {
    committed: u64,
    next: u64,
}

impl View for SequenceCursor {
    type V = CursorView;

    closed spec fn view(&self) -> CursorView {
        CursorView { committed: self.committed as nat, next: self.next as nat }
    }
}

impl SequenceCursor {
    #[verifier::type_invariant]
    spec fn inv(self) -> bool {
        self.committed <= self.next
    }

    /// A cursor that resumes at the number derived from durable storage.
    pub fn new(next_from_storage: u64) -> (cursor: Self)
        ensures
            cursor@ == (CursorView { committed: next_from_storage as nat, next: next_from_storage as nat }),
    {
        SequenceCursor { committed: next_from_storage, next: next_from_storage }
    }

    /// Reads the next sequence number without handing it out.
    pub fn pick_next(&self) -> (number: u64)
        ensures
            number == self@.next,
            self@.wf(),
    {
        proof {
            use_type_invariant(self);
        }
        self.next
    }

    /// Reads the next number as durable storage holds it.
    pub fn committed_next(&self) -> (number: u64)
        ensures
            number == self@.committed,
            self@.wf(),
    {
        proof {
            use_type_invariant(self);
        }
        self.committed
    }

    /// Hands out one number: the cursor moves on by one, durable storage is
    /// not touched.
    pub fn advance(&mut self)
        requires
            old(self)@.next < u64::MAX,
        ensures
            final(self)@ == old(self)@.advance_by(1),
    {
        proof {
            use_type_invariant(&*self);
        }
        self.next = self.next + 1;
    }

    /// The open transaction was committed: what was handed out is durable.
    pub fn commit(&mut self)
        ensures
            final(self)@ == old(self)@.commit(),
    {
        self.committed = self.next;
    }

    /// The open transaction was rolled back: the numbers handed out since the
    /// last commit are free again.
    pub fn rollback(&mut self)
        ensures
            final(self)@ == old(self)@.rollback(),
    {
        self.next = self.committed;
    }
}

/// The durable value never decreases, whatever is done to the cursor, and
/// only a commit raises it.
pub proof fn lemma_committed_is_monotonic(cursor: CursorView, count: nat)
    requires
        cursor.wf(),
    ensures
        cursor.advance_by(count).committed == cursor.committed,
        cursor.rollback().committed == cursor.committed,
        cursor.commit().committed >= cursor.committed,
        cursor.advance_by(count).wf(),
        cursor.rollback().wf(),
        cursor.commit().wf(),
{
}

/// What a transaction hands out does not outlive its rollback, and is
/// durable in full after its commit.
pub proof fn lemma_transaction_outcome(cursor: CursorView, count: nat)
    requires
        cursor.wf(),
        cursor.pending() == 0,
    ensures
        cursor.advance_by(count).rollback() == cursor,
        cursor.advance_by(count).commit().committed == cursor.committed + count,
        cursor.advance_by(count).commit().pending() == 0,
{
}

} // verus!
