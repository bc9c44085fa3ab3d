//! The invoice store: the single owner of authoritative invoice state.
//! All other components operate on snapshots and submit status changes
//! through `update_status`, which enforces the legal-transition table:
//! `Pending` may move to `Paid` or `Expired`; both of those are terminal.

use vstd::prelude::*;
use crate::models::{Invoice, InvoiceStatus};

verus! {

/// Failures of the invoice store.
#[derive(Clone, Copy, PartialEq, Eq, Structural, Debug)]
pub enum StoreError {
    DuplicateId,
    NotFound,
    IllegalTransition,
}

/// True when some record in `s` carries the id.
pub open spec fn has_id(s: Seq<Invoice>, id: Seq<char>) -> bool {
    exists|i: int| 0 <= i < s.len() && s[i].id@ == id
}

/// The position of the record carrying the id (unique under `wf`).
pub open spec fn idx_of(s: Seq<Invoice>, id: Seq<char>) -> int {
    choose|i: int| 0 <= i < s.len() && s[i].id@ == id
}

/// The record stored under the id.
pub open spec fn record_of(s: Seq<Invoice>, id: Seq<char>) -> Invoice {
    s[idx_of(s, id)]
}

/// The records still pending, in store order.
pub open spec fn pending_of(s: Seq<Invoice>) -> Seq<Invoice>
    decreases s.len(),
{
    if s.len() == 0 {
        Seq::empty()
    } else if s.last().status == InvoiceStatus::Pending {
        pending_of(s.drop_last()).push(s.last())
    } else {
        pending_of(s.drop_last())
    }
}

/// The decision of `update_status` as a function of the current and the
/// requested status alone: a no-op when they are equal, a commit when the
/// record is still pending, and a refusal to leave a terminal state.
pub open spec fn update_decision(cur: InvoiceStatus, new: InvoiceStatus) -> Result<
    InvoiceStatus,
    StoreError,
> {
    if cur == new {
        Ok(cur)
    } else if cur == InvoiceStatus::Pending {
        Ok(new)
    } else {
        Err(StoreError::IllegalTransition)
    }
}

/// Once a record is in a terminal state, asking for any different status
/// is refused with `IllegalTransition`; in particular `Paid` cannot become
/// `Expired` nor `Expired` become `Paid`.
pub proof fn lemma_terminal_states_closed(cur: InvoiceStatus, new: InvoiceStatus)
    requires
        cur.is_terminal(),
        new != cur,
    ensures
        update_decision(cur, new) == Err::<InvoiceStatus, StoreError>(
            StoreError::IllegalTransition,
        ),
{
}

/// Owns the invoice records. Ids are unique and every record satisfies the
/// invoice invariant.
pub struct InvoiceStore {
    invoices: Vec<Invoice>,
}

impl View for InvoiceStore {
    type V = Seq<Invoice>;

    closed spec fn view(&self) -> Seq<Invoice> {
        self.invoices@
    }
}

impl InvoiceStore {
    /// Ids are pairwise distinct and every record is well formed.
    pub open spec fn wf(&self) -> bool {
        &&& forall|i: int, j: int|
            0 <= i < j < self@.len() ==> self@[i].id@ != self@[j].id@
        &&& forall|i: int| 0 <= i < self@.len() ==> (#[trigger] self@[i]).wf()
    }

    /// An empty store.
    pub fn new() -> (s: Self)
        ensures
            s@ == Seq::<Invoice>::empty(),
            s.wf(),
    {
        InvoiceStore { invoices: Vec::new() }
    }

    /// The position of the record with the given id, if any.
    fn find(&self, id: &String) -> (r: Option<usize>)
        ensures
            match r {
                Some(i) => 0 <= i < self@.len() && self@[i as int].id@ == id@,
                None => !has_id(self@, id@),
            },
    {
        let mut i: usize = 0;
        while i < self.invoices.len()
            invariant
                0 <= i <= self.invoices.len(),
                forall|j: int| 0 <= j < i ==> self.invoices@[j].id@ != id@,
            decreases self.invoices.len() - i,
        {
            if self.invoices[i].id == *id {
                return Some(i);
            }
            i = i + 1;
        }
        None
    }

    /// Inserts a record under a fresh id; an id already present is refused
    /// with `DuplicateId` and the store is unchanged.
    pub fn create(&mut self, inv: Invoice) -> (r: Result<(), StoreError>)
        requires
            old(self).wf(),
            inv.wf(),
        ensures
            final(self).wf(),
            has_id(old(self)@, inv.id@) ==> r == Err::<(), StoreError>(StoreError::DuplicateId)
                && final(self)@ == old(self)@,
            !has_id(old(self)@, inv.id@) ==> r == Ok::<(), StoreError>(())
                && final(self)@ == old(self)@.push(inv),
    {
        match self.find(&inv.id) {
            Some(_) => Err(StoreError::DuplicateId),
            None => {
                self.invoices.push(inv);
                Ok(())
            },
        }
    }

    /// A snapshot of the record under the id, or nothing. Never blocks on
    /// chain or device work.
    pub fn get(&self, id: &String) -> (r: Option<Invoice>)
        requires
            self.wf(),
        ensures
            r is Some <==> has_id(self@, id@),
            r is Some ==> r->Some_0 == record_of(self@, id@),
    {
        match self.find(id) {
            Some(i) => {
                proof {
                    lemma_idx_unique(self@, id@, i as int);
                }
                Some(self.invoices[i].clone())
            },
            None => None,
        }
    }

    /// Applies `update_decision` to the record under the id: commits the
    /// legal transition, treats an already-reached status as a no-op, and
    /// refuses to leave a terminal state, changing nothing on any failure.
    pub fn update_status(&mut self, id: &String, new_status: InvoiceStatus) -> (r: Result<
        (),
        StoreError,
    >)
        requires
            old(self).wf(),
        ensures
            final(self).wf(),
            !has_id(old(self)@, id@) ==> r == Err::<(), StoreError>(StoreError::NotFound)
                && final(self)@ == old(self)@,
            has_id(old(self)@, id@) ==> {
                let i = idx_of(old(self)@, id@);
                match update_decision(old(self)@[i].status, new_status) {
                    Ok(st) => r == Ok::<(), StoreError>(()) && final(self)@ == old(self)@.update(
                        i,
                        old(self)@[i].with_status(st),
                    ),
                    Err(e) => r == Err::<(), StoreError>(e) && final(self)@ == old(self)@,
                }
            },
    {
        match self.find(id) {
            None => Err(StoreError::NotFound),
            Some(i) => {
                proof {
                    lemma_idx_unique(self@, id@, i as int);
                }
                let cur = self.invoices[i].status;
                if cur == new_status {
                    proof {
                        assert(old(self)@.update(
                            i as int,
                            old(self)@[i as int].with_status(cur),
                        ) =~= old(self)@);
                    }
                    Ok(())
                } else if cur == InvoiceStatus::Pending {
                    let rec = self.invoices[i].clone();
                    self.invoices.set(i, rec.with_status_exec(new_status));
                    Ok(())
                } else {
                    Err(StoreError::IllegalTransition)
                }
            },
        }
    }

    /// Snapshots of all records still pending, in store order.
    pub fn get_pending_invoices(&self) -> (r: Vec<Invoice>)
        ensures
            r@ == pending_of(self@),
    {
        let mut out: Vec<Invoice> = Vec::new();
        let mut i: usize = 0;
        while i < self.invoices.len()
            invariant
                0 <= i <= self.invoices.len(),
                out@ == pending_of(self.invoices@.take(i as int)),
            decreases self.invoices.len() - i,
        {
            proof {
                assert(self.invoices@.take(i as int + 1).drop_last() =~= self.invoices@.take(
                    i as int,
                ));
            }
            if self.invoices[i].status == InvoiceStatus::Pending {
                out.push(self.invoices[i].clone());
            }
            i = i + 1;
        }
        proof {
            assert(self.invoices@.take(self.invoices@.len() as int) =~= self.invoices@);
        }
        out
    }
}

/// Under unique ids, the found index is the index `idx_of` picks.
proof fn lemma_idx_unique(s: Seq<Invoice>, id: Seq<char>, i: int)
    requires
        forall|p: int, q: int| 0 <= p < q < s.len() ==> s[p].id@ != s[q].id@,
        0 <= i < s.len(),
        s[i].id@ == id,
    ensures
        idx_of(s, id) == i,
        record_of(s, id) == s[i],
{
    assert(has_id(s, id));
    let j = idx_of(s, id);
    if j < i {
        assert(s[j].id@ != s[i].id@);
    } else if i < j {
        assert(s[i].id@ != s[j].id@);
    }
}

} // verus!
