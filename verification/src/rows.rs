//! Row and value iteration over a block, and the bridge that turns one row
//! into a typed record: values pulled in column order, either positionally or
//! as name-value pairs, with type-mismatch and nullness errors that identify
//! the offending column.

use vstd::prelude::*;

use crate::block::Block;
use crate::error::DeError;
use crate::value::{Ty, Value};

verus! {

/// An owning iterator over the rows of a block.
#[derive(Debug)]
pub struct IntoRowsIter {
    pub raw: Block,
    pub row: usize,
}

/// A borrowing iterator over the rows of a block.
#[derive(Debug)]
pub struct RowsIter<'a> {
    pub raw: &'a Block,
    pub row: usize,
}

/// An iterator over the values of one row, in schema order.
#[derive(Debug)]
pub struct ValueIter<'a> {
    pub raw: &'a Block,
    pub row: usize,
    pub col: usize,
}

/// A cursor over one row of a block: the current column index and a
/// back-reference to the block. Doubles as the structured-data source for
/// converting the row into a typed record.
#[derive(Debug)]
pub struct RowView<'a> {
    pub raw: &'a Block,
    pub row: usize,
    pub col: usize,
}

/// A row cursor that yields bare values, ignoring column names.
#[derive(Debug)]
pub struct RowViewOfValue<'a>(pub RowView<'a>);

impl Block {
    /// A borrowing iterator over this block's rows, in block order.
    pub fn rows(&self) -> (it: RowsIter<'_>)
        ensures
            it.raw == self,
            it.row == 0,
    {
        RowsIter { raw: self, row: 0 }
    }

    /// An owning iterator over this block's rows, in block order.
    pub fn into_rows(self) -> (it: IntoRowsIter)
        ensures
            it.raw == self,
            it.row == 0,
    {
        IntoRowsIter { raw: self, row: 0 }
    }
}

impl IntoRowsIter {
    /// The view over the next row, or `None` once every row has been
    /// yielded.
    pub fn next<'b>(&'b mut self) -> (r: Option<RowView<'b>>)
        ensures
            final(self).raw == old(self).raw,
            old(self).row >= old(self).raw.spec_nrows() ==> r is None && final(self).row == old(
                self,
            ).row,
            old(self).row < old(self).raw.spec_nrows() ==> (r matches Some(rv) && rv.raw == old(
                self,
            ).raw && rv.row == old(self).row && rv.col == 0 && final(self).row == old(self).row
                + 1),
    {
        if self.row >= self.raw.nrows() {
            None
        } else {
            let row = self.row;
            self.row = row + 1;
            Some(RowView { raw: &self.raw, row, col: 0 })
        }
    }
}

impl<'a> RowsIter<'a> {
    /// The view over the next row, or `None` once every row has been
    /// yielded.
    pub fn next(&mut self) -> (r: Option<RowView<'a>>)
        ensures
            final(self).raw == old(self).raw,
            old(self).row >= old(self).raw.spec_nrows() ==> r is None && final(self).row == old(
                self,
            ).row,
            old(self).row < old(self).raw.spec_nrows() ==> (r matches Some(rv) && rv.raw == old(
                self,
            ).raw && rv.row == old(self).row && rv.col == 0 && final(self).row == old(self).row
                + 1),
    {
        if self.row >= self.raw.nrows() {
            None
        } else {
            let row = self.row;
            self.row = row + 1;
            Some(RowView { raw: self.raw, row, col: 0 })
        }
    }

    /// The values of the row this iterator stands on, ignoring names.
    pub fn values(&self) -> (it: ValueIter<'a>)
        ensures
            it.raw == self.raw,
            it.row == self.row,
            it.col == 0,
    {
        ValueIter { raw: self.raw, row: self.row, col: 0 }
    }

    /// The name-value pairs of the row this iterator stands on.
    pub fn named_values(&self) -> (rv: RowView<'a>)
        ensures
            rv.raw == self.raw,
            rv.row == self.row,
            rv.col == 0,
    {
        RowView { raw: self.raw, row: self.row, col: 0 }
    }
}

impl<'a> ValueIter<'a> {
    /// The cursor points at a row of a well-formed block.
    pub open spec fn wf(&self) -> bool {
        &&& self.raw.wf()
        &&& self.row < self.raw.spec_nrows()
    }

    /// The next value of the row, in schema order.
    pub fn next(&mut self) -> (r: Option<Value>)
        requires
            old(self).wf(),
        ensures
            final(self).raw == old(self).raw,
            final(self).row == old(self).row,
            old(self).col >= old(self).raw.spec_ncols() ==> r is None && final(self).col == old(
                self,
            ).col,
            old(self).col < old(self).raw.spec_ncols() ==> r == Some(
                old(self).raw.cell(old(self).row as int, old(self).col as int),
            ) && final(self).col == old(self).col + 1,
    {
        if self.col >= self.raw.ncols() {
            None
        } else {
            let col = self.col;
            self.col = col + 1;
            Some(self.raw.get_ref_unchecked(self.row, col))
        }
    }
}

/// What pulling a cell as a 32-bit integer yields: the held integer, a
/// nullness error for the NULL marker, and a type mismatch naming the column
/// otherwise.
pub open spec fn pull_i32(c: Value, col: usize) -> Result<i32, DeError> {
    match c {
        Value::Int(v) => Ok(v),
        Value::Null(_) => Err(DeError::Nullness { col }),
        _ => Err(DeError::TypeMismatch { col, expected: Ty::Int, found: c.spec_ty() }),
    }
}

/// What pulling a cell as an optional 32-bit integer yields: NULL becomes
/// absent rather than an error.
pub open spec fn pull_opt_i32(c: Value, col: usize) -> Result<Option<i32>, DeError> {
    match c {
        Value::Int(v) => Ok(Some(v)),
        Value::Null(_) => Ok(None),
        _ => Err(DeError::TypeMismatch { col, expected: Ty::Int, found: c.spec_ty() }),
    }
}

/// What pulling a cell as an unsigned 64-bit integer yields.
pub open spec fn pull_u64(c: Value, col: usize) -> Result<u64, DeError> {
    match c {
        Value::UBigInt(v) => Ok(v),
        Value::Null(_) => Err(DeError::Nullness { col }),
        _ => Err(DeError::TypeMismatch { col, expected: Ty::UBigInt, found: c.spec_ty() }),
    }
}

/// What pulling a cell as an optional unsigned 64-bit integer yields.
pub open spec fn pull_opt_u64(c: Value, col: usize) -> Result<Option<u64>, DeError> {
    match c {
        Value::UBigInt(v) => Ok(Some(v)),
        Value::Null(_) => Ok(None),
        _ => Err(DeError::TypeMismatch { col, expected: Ty::UBigInt, found: c.spec_ty() }),
    }
}

/// What pulling a cell as text yields.
pub open spec fn pull_string(c: Value, col: usize) -> Result<String, DeError> {
    match c {
        Value::VarChar(s) => Ok(s),
        Value::Null(_) => Err(DeError::Nullness { col }),
        _ => Err(DeError::TypeMismatch { col, expected: Ty::VarChar, found: c.spec_ty() }),
    }
}

impl<'a> RowView<'a> {
    /// The cursor points at a row of a well-formed block and has not run past
    /// its columns.
    pub open spec fn wf(&self) -> bool {
        &&& self.raw.wf()
        &&& self.row < self.raw.spec_nrows()
        &&& self.col <= self.raw.spec_ncols()
    }

    /// The next name-value pair of the row, in schema order.
    pub fn next(&mut self) -> (r: Option<(&'a String, Value)>)
        requires
            old(self).wf(),
            old(self).raw.spec_has_names(),
        ensures
            final(self).raw == old(self).raw,
            final(self).row == old(self).row,
            old(self).col >= old(self).raw.spec_ncols() ==> r is None && final(self).col == old(
                self,
            ).col,
            old(self).col < old(self).raw.spec_ncols() ==> (r matches Some(p) && p.0 == old(
                self,
            ).raw.fields@[old(self).col as int] && p.1 == old(self).raw.cell(
                old(self).row as int,
                old(self).col as int,
            ) && final(self).col == old(self).col + 1),
    {
        if self.col >= self.raw.ncols() {
            None
        } else {
            let col = self.col;
            self.col = col + 1;
            let raw = self.raw;
            Some((&raw.fields[col], raw.get_ref_unchecked(self.row, col)))
        }
    }

    /// Lower and upper bound of the pairs still to come; both equal
    /// `ncols() - cursor`.
    pub fn size_hint(&self) -> (r: (usize, Option<usize>))
        ensures
            self.col < self.raw.spec_ncols() ==> r.0 == self.raw.spec_ncols() - self.col && r.1
                == Some(r.0),
            self.col >= self.raw.spec_ncols() ==> r.0 == 0 && r.1 == Some(0usize),
    {
        let max = self.raw.ncols();
        if self.col < max {
            let hint = max - self.col;
            (hint, Some(hint))
        } else {
            (0, Some(0))
        }
    }

    /// This cursor as an iterator over bare values, ignoring names.
    pub fn into_value_iter(self) -> (r: RowViewOfValue<'a>)
        ensures
            r.0 == self,
    {
        RowViewOfValue(self)
    }

    /// The next bare value of the row, advancing the cursor. Unlike
    /// [`RowView::next`] this needs no column names.
    pub fn walk_next(&mut self) -> (r: Option<Value>)
        requires
            old(self).wf(),
        ensures
            final(self).raw == old(self).raw,
            final(self).row == old(self).row,
            old(self).col >= old(self).raw.spec_ncols() ==> r is None && final(self).col == old(
                self,
            ).col,
            old(self).col < old(self).raw.spec_ncols() ==> r == Some(
                old(self).raw.cell(old(self).row as int, old(self).col as int),
            ) && final(self).col == old(self).col + 1,
    {
        if self.col >= self.raw.ncols() {
            None
        } else {
            let col = self.col;
            self.col = col + 1;
            Some(self.raw.get_ref_unchecked(self.row, col))
        }
    }

    /// The name of the column the cursor stands on, without advancing; `None`
    /// past the last named column.
    pub fn peek_name(&self) -> (r: Option<&'a String>)
        ensures
            self.col < self.raw.fields@.len() ==> r == Some(
                &self.raw.fields@[self.col as int],
            ),
            self.col >= self.raw.fields@.len() ==> r is None,
    {
        let raw = self.raw;
        if self.col < raw.fields.len() {
            Some(&raw.fields[self.col])
        } else {
            None
        }
    }

    /// The remaining values of the row as an owned vector, in schema order.
    pub fn into_values(self) -> (r: Vec<Value>)
        requires
            self.wf(),
        ensures
            r@.len() == self.raw.spec_ncols() - self.col,
            forall|i: int|
                0 <= i < r@.len() ==> r@[i] == self.raw.cell(
                    self.row as int,
                    self.col + i,
                ),
    {
        let mut rv = self;
        let mut r: Vec<Value> = Vec::new();
        loop
            invariant
                rv.wf(),
                rv.raw == self.raw,
                rv.row == self.row,
                self.col <= rv.col,
                r@.len() == rv.col - self.col,
                forall|i: int|
                    0 <= i < r@.len() ==> r@[i] == self.raw.cell(self.row as int, self.col + i),
            decreases rv.raw.spec_ncols() - rv.col,
        {
            match rv.walk_next() {
                Some(v) => {
                    r.push(v);
                },
                None => {
                    return r;
                },
            }
        }
    }

    /// Pulls the next cell as a 32-bit integer; see [`pull_i32`].
    pub fn next_i32(&mut self) -> (r: Result<i32, DeError>)
        requires
            old(self).wf(),
        ensures
            final(self).raw == old(self).raw,
            final(self).row == old(self).row,
            old(self).col >= old(self).raw.spec_ncols() ==> r == Err::<i32, DeError>(
                DeError::Exhausted,
            ) && final(self).col == old(self).col,
            old(self).col < old(self).raw.spec_ncols() ==> r == pull_i32(
                old(self).raw.cell(old(self).row as int, old(self).col as int),
                old(self).col,
            ) && final(self).col == old(self).col + 1,
    {
        let c0: usize = self.col;
        match self.walk_next() {
            None => Err(DeError::Exhausted),
            Some(v) => match v {
                Value::Int(x) => Ok(x),
                Value::Null(_) => Err(DeError::Nullness { col: c0 }),
                other => Err(
                    DeError::TypeMismatch { col: c0, expected: Ty::Int, found: other.ty() },
                ),
            },
        }
    }

    /// Pulls the next cell as an optional 32-bit integer; NULL yields
    /// absence. See [`pull_opt_i32`].
    pub fn next_opt_i32(&mut self) -> (r: Result<Option<i32>, DeError>)
        requires
            old(self).wf(),
        ensures
            final(self).raw == old(self).raw,
            final(self).row == old(self).row,
            old(self).col >= old(self).raw.spec_ncols() ==> r == Err::<Option<i32>, DeError>(
                DeError::Exhausted,
            ) && final(self).col == old(self).col,
            old(self).col < old(self).raw.spec_ncols() ==> r == pull_opt_i32(
                old(self).raw.cell(old(self).row as int, old(self).col as int),
                old(self).col,
            ) && final(self).col == old(self).col + 1,
    {
        let c0: usize = self.col;
        match self.walk_next() {
            None => Err(DeError::Exhausted),
            Some(v) => match v {
                Value::Int(x) => Ok(Some(x)),
                Value::Null(_) => Ok(None),
                other => Err(
                    DeError::TypeMismatch { col: c0, expected: Ty::Int, found: other.ty() },
                ),
            },
        }
    }

    /// Pulls the next cell as an unsigned 64-bit integer; see [`pull_u64`].
    pub fn next_u64(&mut self) -> (r: Result<u64, DeError>)
        requires
            old(self).wf(),
        ensures
            final(self).raw == old(self).raw,
            final(self).row == old(self).row,
            old(self).col >= old(self).raw.spec_ncols() ==> r == Err::<u64, DeError>(
                DeError::Exhausted,
            ) && final(self).col == old(self).col,
            old(self).col < old(self).raw.spec_ncols() ==> r == pull_u64(
                old(self).raw.cell(old(self).row as int, old(self).col as int),
                old(self).col,
            ) && final(self).col == old(self).col + 1,
    {
        let c0: usize = self.col;
        match self.walk_next() {
            None => Err(DeError::Exhausted),
            Some(v) => match v {
                Value::UBigInt(x) => Ok(x),
                Value::Null(_) => Err(DeError::Nullness { col: c0 }),
                other => Err(
                    DeError::TypeMismatch {
                        col: c0,
                        expected: Ty::UBigInt,
                        found: other.ty(),
                    },
                ),
            },
        }
    }

    /// Pulls the next cell as an optional unsigned 64-bit integer; see
    /// [`pull_opt_u64`].
    pub fn next_opt_u64(&mut self) -> (r: Result<Option<u64>, DeError>)
        requires
            old(self).wf(),
        ensures
            final(self).raw == old(self).raw,
            final(self).row == old(self).row,
            old(self).col >= old(self).raw.spec_ncols() ==> r == Err::<Option<u64>, DeError>(
                DeError::Exhausted,
            ) && final(self).col == old(self).col,
            old(self).col < old(self).raw.spec_ncols() ==> r == pull_opt_u64(
                old(self).raw.cell(old(self).row as int, old(self).col as int),
                old(self).col,
            ) && final(self).col == old(self).col + 1,
    {
        let c0: usize = self.col;
        match self.walk_next() {
            None => Err(DeError::Exhausted),
            Some(v) => match v {
                Value::UBigInt(x) => Ok(Some(x)),
                Value::Null(_) => Ok(None),
                other => Err(
                    DeError::TypeMismatch {
                        col: c0,
                        expected: Ty::UBigInt,
                        found: other.ty(),
                    },
                ),
            },
        }
    }

    /// Pulls the next cell as owned text; see [`pull_string`].
    pub fn next_string(&mut self) -> (r: Result<String, DeError>)
        requires
            old(self).wf(),
        ensures
            final(self).raw == old(self).raw,
            final(self).row == old(self).row,
            old(self).col >= old(self).raw.spec_ncols() ==> r == Err::<String, DeError>(
                DeError::Exhausted,
            ) && final(self).col == old(self).col,
            old(self).col < old(self).raw.spec_ncols() ==> r == pull_string(
                old(self).raw.cell(old(self).row as int, old(self).col as int),
                old(self).col,
            ) && final(self).col == old(self).col + 1,
    {
        let c0: usize = self.col;
        match self.walk_next() {
            None => Err(DeError::Exhausted),
            Some(v) => match v {
                Value::VarChar(s) => Ok(s),
                Value::Null(_) => Err(DeError::Nullness { col: c0 }),
                other => Err(
                    DeError::TypeMismatch {
                        col: c0,
                        expected: Ty::VarChar,
                        found: other.ty(),
                    },
                ),
            },
        }
    }
}

impl<'a> RowViewOfValue<'a> {
    /// The next bare value of the row.
    pub fn next(&mut self) -> (r: Option<Value>)
        requires
            old(self).0.wf(),
        ensures
            final(self).0.raw == old(self).0.raw,
            final(self).0.row == old(self).0.row,
            old(self).0.col >= old(self).0.raw.spec_ncols() ==> r is None && final(self).0.col
                == old(self).0.col,
            old(self).0.col < old(self).0.raw.spec_ncols() ==> r == Some(
                old(self).0.raw.cell(old(self).0.row as int, old(self).0.col as int),
            ) && final(self).0.col == old(self).0.col + 1,
    {
        self.0.walk_next()
    }
}

} // verus!
