//! Numbered tables of rows, as the listings print them.

use vstd::prelude::*;

use crate::text::num_digits;

verus! {

/// A row of a table: it supplies the heading printed above the rows.
pub trait Entry {
    fn header(&self) -> String;
}

/// Rows under named columns.
pub struct Table<E> {
    pub columns: Vec<String>,
    pub entries: Vec<E>,
}

/// A column of values.
pub struct Series {}

/// Width of the number column of a table of `n` rows: the digits of the
/// row count, and at least two.
pub open spec fn number_width(n: nat) -> nat {
    if num_digits(n) < 2 {
        2
    } else {
        num_digits(n)
    }
}

/// Number of decimal digits of `n`.
fn digit_count(n: usize) -> (r: usize)
    ensures
        r == num_digits(n as nat),
    decreases n,
{
    if n < 10 {
        1
    } else {
        let d = digit_count(n / 10);
        proof {
            lemma_digits_small(n as nat / 10);
        }
        d + 1
    }
}

/// A positive number has no more digits than its value.
proof fn lemma_digits_small(n: nat)
    requires
        n >= 1,
    ensures
        num_digits(n) <= n,
    decreases n,
{
    if n >= 10 {
        lemma_digits_small(n / 10);
    }
}

impl<E: Entry> Table<E> {
    /// An empty table with the given column names.
    pub fn new(columns: &[&str]) -> (r: Self)
        ensures
            r.columns@.len() == columns@.len(),
            forall|i: int| 0 <= i < columns@.len() ==> #[trigger] r.columns@[i]@ == columns@[i]@,
            r.entries@.len() == 0,
    {
        let mut cols: Vec<String> = Vec::new();
        let mut i: usize = 0;
        while i < columns.len()
            invariant
                i <= columns@.len(),
                cols@.len() == i,
                forall|j: int| 0 <= j < i ==> #[trigger] cols@[j]@ == columns@[j]@,
            decreases columns@.len() - i,
        {
            cols.push(String::from_str(columns[i]));
            i = i + 1;
        }
        Table { columns: cols, entries: Vec::new() }
    }

    /// Appends a row.
    pub fn insert_row(&mut self, entry: E)
        ensures
            final(self).entries@ == old(self).entries@.push(entry),
            final(self).columns == old(self).columns,
    {
        self.entries.push(entry)
    }

    /// Width of the row-number column; `None` for a table without rows,
    /// which prints nothing.
    pub fn numbered_display(&self) -> (r: Option<usize>)
        ensures
            self.entries@.len() == 0 ==> r is None,
            self.entries@.len() > 0 ==> r == Some(number_width(self.entries@.len()) as usize),
    {
        if self.entries.len() == 0 {
            return None;
        }
        let d = digit_count(self.entries.len());
        if d < 2 {
            Some(2)
        } else {
            Some(d)
        }
    }
}

} // verus!
