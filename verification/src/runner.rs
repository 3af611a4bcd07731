//! The sequential run over the identifier list: one recorded outcome — and
//! so one encoded output row — per identifier, in input order.

use vstd::prelude::*;

use crate::record::AuthorizationDetails;
use crate::rows::{
    csv_encode_row, csv_row_of, failure_row, failure_row_spec, nav_failure_row,
    nav_failure_row_spec, success_row, success_row_spec,
};

verus! {

/// The state of one batch run: the identifiers to process, how many have
/// been processed, and the data rows recorded so far (header excluded).
pub struct Runner {
    pub ids: Vec<String>,
    pub next: usize,
    pub rows: Vec<Vec<String>>,
}

impl Runner {
    /// The identifiers as character sequences, in input order.
    pub open spec fn ids_model(&self) -> Seq<Seq<char>> {
        self.ids.deep_view()
    }

    /// The recorded data rows, each a sequence of column texts.
    pub open spec fn rows_model(&self) -> Seq<Seq<Seq<char>>> {
        self.rows.deep_view()
    }

    /// The run's invariant: one recorded row per processed identifier, in
    /// input order, every row with exactly seven columns and carrying its
    /// identifier in the first column.
    pub open spec fn wf(&self) -> bool {
        &&& self.next <= self.ids_model().len()
        &&& self.rows_model().len() == self.next
        &&& forall|i: int|
            0 <= i < self.rows_model().len() ==> (#[trigger] self.rows_model()[i]).len() == 7
        &&& forall|i: int|
            0 <= i < self.rows_model().len() ==> (#[trigger] self.rows_model()[i])[0]
                == self.ids_model()[i]
    }

    /// A fresh run over `ids`: nothing processed, no row recorded.
    pub fn new(ids: Vec<String>) -> (r: Runner)
        ensures
            r.wf(),
            r.ids == ids,
            r.next == 0,
            r.rows_model().len() == 0,
    {
        Runner { ids, next: 0, rows: Vec::new() }
    }

    /// The number of identifiers in the run.
    pub fn total(&self) -> (r: usize)
        ensures
            r == self.ids_model().len(),
    {
        self.ids.len()
    }

    /// The number of identifiers processed so far.
    pub fn processed(&self) -> (r: usize)
        ensures
            r == self.next,
    {
        self.next
    }

    /// Whether every identifier has been processed.
    pub fn done(&self) -> (r: bool)
        ensures
            r == (self.next == self.ids_model().len()),
    {
        self.next == self.ids.len()
    }

    /// The identifier to process next.
    pub fn current_id(&self) -> (r: String)
        requires
            self.next < self.ids_model().len(),
        ensures
            r@ == self.ids_model()[self.next as int],
    {
        self.ids[self.next].clone()
    }

    /// The recorded data rows so far.
    pub fn rows_so_far(&self) -> (r: &Vec<Vec<String>>)
        ensures
            r.deep_view() == self.rows_model(),
    {
        &self.rows
    }

    /// Record a successfully extracted record for the current identifier
    /// and hand back the encoded output row.
    pub fn record_success(&mut self, d: &AuthorizationDetails) -> (out: Vec<u8>)
        requires
            old(self).wf(),
            old(self).next < old(self).ids_model().len(),
            d@.id == old(self).ids_model()[old(self).next as int],
        ensures
            final(self).wf(),
            final(self).ids == old(self).ids,
            final(self).next == old(self).next + 1,
            final(self).rows_model() == old(self).rows_model().push(success_row_spec(d@)),
            out@ == csv_row_of(success_row_spec(d@)),
    {
        let row = success_row(d);
        let out = csv_encode_row(&row);
        self.rows.push(row);
        proof {
            assert(self.ids.len() == self.ids@.len());
        }
        self.next += 1;
        proof {
            assert(self.rows_model() =~= old(self).rows_model().push(success_row_spec(d@)));
        }
        out
    }

    /// Record a navigation failure for the current identifier and hand
    /// back the encoded placeholder row.
    pub fn record_navigation_failure(&mut self) -> (out: Vec<u8>)
        requires
            old(self).wf(),
            old(self).next < old(self).ids_model().len(),
        ensures
            final(self).wf(),
            final(self).ids == old(self).ids,
            final(self).next == old(self).next + 1,
            final(self).rows_model() == old(self).rows_model().push(
                nav_failure_row_spec(old(self).ids_model()[old(self).next as int]),
            ),
            out@ == csv_row_of(
                nav_failure_row_spec(old(self).ids_model()[old(self).next as int]),
            ),
    {
        let id = self.ids[self.next].clone();
        let row = nav_failure_row(id.as_str());
        let out = csv_encode_row(&row);
        self.rows.push(row);
        proof {
            assert(self.ids.len() == self.ids@.len());
        }
        self.next += 1;
        proof {
            assert(self.rows_model() =~= old(self).rows_model().push(
                nav_failure_row_spec(old(self).ids_model()[old(self).next as int]),
            ));
        }
        out
    }

    /// Record any other extraction failure, with its description, for the
    /// current identifier and hand back the encoded placeholder row.
    pub fn record_failure(&mut self, msg: &str) -> (out: Vec<u8>)
        requires
            old(self).wf(),
            old(self).next < old(self).ids_model().len(),
        ensures
            final(self).wf(),
            final(self).ids == old(self).ids,
            final(self).next == old(self).next + 1,
            final(self).rows_model() == old(self).rows_model().push(
                failure_row_spec(old(self).ids_model()[old(self).next as int], msg@),
            ),
            out@ == csv_row_of(
                failure_row_spec(old(self).ids_model()[old(self).next as int], msg@),
            ),
    {
        let id = self.ids[self.next].clone();
        let row = failure_row(id.as_str(), msg);
        let out = csv_encode_row(&row);
        self.rows.push(row);
        proof {
            assert(self.ids.len() == self.ids@.len());
        }
        self.next += 1;
        proof {
            assert(self.rows_model() =~= old(self).rows_model().push(
                failure_row_spec(old(self).ids_model()[old(self).next as int], msg@),
            ));
        }
        out
    }
}

/// Every recorded row, success or placeholder, has exactly seven columns.
pub proof fn lemma_rows_have_seven_columns(r: &Runner)
    requires
        r.wf(),
    ensures
        forall|i: int| 0 <= i < r.rows_model().len() ==> (#[trigger] r.rows_model()[i]).len() == 7,
{
}

/// At every moment of a run the number of recorded data rows equals the
/// number of identifiers processed so far; a finished run has recorded
/// exactly one row per identifier read from the input.
pub proof fn lemma_row_count(r: &Runner)
    requires
        r.wf(),
    ensures
        r.rows_model().len() == r.next,
        r.next == r.ids_model().len() ==> r.rows_model().len() == r.ids_model().len(),
{
}

/// Recorded row `i` carries input identifier `i` in its first column:
/// output order follows input order.
pub proof fn lemma_order_preserved(r: &Runner)
    requires
        r.wf(),
    ensures
        forall|i: int|
            0 <= i < r.rows_model().len() ==> (#[trigger] r.rows_model()[i])[0]
                == r.ids_model()[i],
{
}

} // verus!
