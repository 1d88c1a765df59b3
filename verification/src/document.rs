use vstd::prelude::*;

use crate::row::Row;

verus! {

/// The length of the row at index `y`, or 0 where no such row exists.
/// Navigation treats a missing row exactly like an empty one.
pub open spec fn row_len_at(doc: Seq<Seq<char>>, y: int) -> int {
    if 0 <= y < doc.len() {
        doc[y].len() as int
    } else {
        0
    }
}

/// The index of the last row, with 0 standing in for the empty
/// document: the cursor row is clamped to this bound.
pub open spec fn last_row_index(doc: Seq<Seq<char>>) -> int {
    if doc.len() == 0 {
        0
    } else {
        doc.len() - 1
    }
}

/// An ordered sequence of text rows. Its view is the sequence of the
/// rows' character sequences.
pub struct Document {
    rows: Vec<Row>,
}

impl View for Document {
    type V = Seq<Seq<char>>;

    closed spec fn view(&self) -> Seq<Seq<char>> {
        self.rows@.map(|i: int, r: Row| r@)
    }
}

impl Default for Document {
    /// A document with no rows.
    fn default() -> (doc: Document)
        ensures
            doc@ == Seq::<Seq<char>>::empty(),
    {
        let doc = Document { rows: Vec::new() };
        proof {
            assert(doc@ =~= Seq::<Seq<char>>::empty());
        }
        doc
    }
}

impl Document {
    /// A document made of exactly the given rows, in order.
    pub fn from_rows(rows: Vec<Row>) -> (doc: Document)
        ensures
            doc@.len() == rows@.len(),
            forall|i: int| 0 <= i < rows@.len() ==> doc@[i] == rows@[i]@,
    {
        Document { rows }
    }

    /// The number of rows.
    pub fn len(&self) -> (n: usize)
        ensures
            n == self@.len(),
    {
        self.rows.len()
    }

    /// Whether the document has no rows.
    pub fn is_empty(&self) -> (b: bool)
        ensures
            b == (self@.len() == 0),
    {
        self.rows.len() == 0
    }

    /// The row at `index`, or `None` past the end of the document.
    pub fn row(&self, index: usize) -> (r: Option<&Row>)
        ensures
            index < self@.len() ==> (r matches Some(row) && row@ == self@[index as int]),
            index >= self@.len() ==> r is None,
    {
        if index < self.rows.len() {
            Some(&self.rows[index])
        } else {
            None
        }
    }
}

} // verus!
