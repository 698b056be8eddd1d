//! A rectangular, column-oriented result set: column names paired one to one
//! with typed columns, all sharing a single row count. Immutable once
//! constructed; row-count and type agreement is enforced at construction, not
//! on every access.

use vstd::prelude::*;

use crate::big_int_unsigned_view::{cell_from_wire, UBigIntView};
use crate::value::{Ty, Value};

verus! {

/// One column of a block: a declared type and one cell per row. Every
/// non-null cell carries the declared type; a null cell carries it as its
/// marker.
#[derive(Debug, Clone)]
pub struct BlockCol {
    pub ty: Ty,
    pub cells: Vec<Value>,
}

impl BlockCol {
    /// Every cell belongs to the declared type.
    pub open spec fn wf(&self) -> bool {
        forall|i: int| 0 <= i < self.cells@.len() ==> (#[trigger] self.cells@[i]).spec_ty()
            == self.ty
    }

    /// A block column holding the rows of a column of unsigned big integers.
    pub fn from_ubigint_view(v: &UBigIntView) -> (r: BlockCol)
        requires
            v.wf(),
        ensures
            r.ty == Ty::UBigInt,
            r.wf(),
            r.cells@.len() == v@.len(),
            forall|i: int|
                0 <= i < v@.len() ==> r.cells@[i] == match v@[i] {
                    Some(x) => Value::UBigInt(x),
                    None => Value::Null(Ty::UBigInt),
                },
    {
        let n = v.len();
        let mut cells: Vec<Value> = Vec::new();
        let mut i: usize = 0;
        while i < n
            invariant
                i <= n,
                v.wf(),
                n == v@.len(),
                cells@.len() == i,
                forall|j: int|
                    0 <= j < i ==> cells@[j] == match v@[j] {
                        Some(x) => Value::UBigInt(x),
                        None => Value::Null(Ty::UBigInt),
                    },
            decreases n - i,
        {
            cells.push(v.get_value_unchecked(i));
            i = i + 1;
        }
        BlockCol { ty: Ty::UBigInt, cells }
    }
}

/// A rectangular result set. The schema (column names) may be absent as a
/// whole; when present it names the columns one to one, and column order
/// defines both row-iteration order and value order within a row.
#[derive(Debug, Clone)]
pub struct Block {
    pub fields: Vec<String>,
    pub cols: Vec<BlockCol>,
    pub nrows: usize,
}

impl Block {
    /// Number of rows.
    pub open spec fn spec_nrows(&self) -> int {
        self.nrows as int
    }

    /// Number of columns.
    pub open spec fn spec_ncols(&self) -> int {
        self.cols@.len() as int
    }

    /// Whether the schema carries column names.
    pub open spec fn spec_has_names(&self) -> bool {
        self.fields@.len() != 0
    }

    /// The cell at `(row, col)`.
    pub open spec fn cell(&self, row: int, col: int) -> Value {
        self.cols@[col].cells@[row]
    }

    /// Names (when present) match the columns one to one, every column holds
    /// exactly `nrows` cells, and every cell carries its column's type.
    pub open spec fn wf(&self) -> bool {
        &&& (self.fields@.len() == self.cols@.len() || self.fields@.len() == 0)
        &&& forall|c: int|
            0 <= c < self.cols@.len() ==> (#[trigger] self.cols@[c]).cells@.len()
                == self.nrows && self.cols@[c].wf()
    }

    /// What `from_parts` accepts: names absent or one per column, columns
    /// agreeing on a row count, and every cell carrying its column's type.
    pub open spec fn parts_wf(fields: Seq<String>, cols: Seq<BlockCol>) -> bool {
        &&& (fields.len() == cols.len() || fields.len() == 0)
        &&& forall|c: int|
            0 <= c < cols.len() ==> (#[trigger] cols[c]).cells@.len() == cols[0].cells@.len()
                && cols[c].wf()
    }

    /// Builds a block, checking that the names (when present) match the
    /// columns one to one, that all columns agree on a row count, and that
    /// every cell carries its column's declared type.
    pub fn from_parts(fields: Vec<String>, cols: Vec<BlockCol>) -> (r: Option<Block>)
        ensures
            r is Some <==> Self::parts_wf(fields@, cols@),
            r matches Some(b) ==> b.wf() && b.fields == fields && b.cols == cols && b.nrows
                as int == (if cols@.len() > 0 {
                cols@[0].cells@.len() as int
            } else {
                0
            }),
    {
        if fields.len() != 0 && fields.len() != cols.len() {
            return None;
        }
        let n = if cols.len() > 0 {
            cols[0].cells.len()
        } else {
            0
        };
        let mut c: usize = 0;
        while c < cols.len()
            invariant
                c <= cols@.len(),
                cols@.len() > 0 ==> n == cols@[0].cells@.len(),
                cols@.len() == 0 ==> n == 0,
                forall|t: int|
                    0 <= t < c ==> (#[trigger] cols@[t]).cells@.len() == n && cols@[t].wf(),
            decreases cols@.len() - c,
        {
            let col = &cols[c];
            if col.cells.len() != n {
                return None;
            }
            let mut i: usize = 0;
            while i < col.cells.len()
                invariant
                    i <= col.cells@.len(),
                    c < cols@.len(),
                    cols@[c as int].ty == col.ty,
                    cols@[c as int].cells@ == col.cells@,
                    forall|j: int|
                        0 <= j < i ==> (#[trigger] col.cells@[j]).spec_ty() == col.ty,
                decreases col.cells@.len() - i,
            {
                if col.cells[i].ty() != col.ty {
                    proof {
                        assert((#[trigger] cols@[c as int]).cells@[i as int].spec_ty()
                            != cols@[c as int].ty);
                        assert(!cols@[c as int].wf());
                    }
                    return None;
                }
                i = i + 1;
            }
            c = c + 1;
        }
        Some(Block { fields, cols, nrows: n })
    }

    /// The bytes one column of unsigned big integers occupies inside a wire
    /// payload of `nrows` rows: its null bitmap, then its value bytes.
    pub open spec fn col_wire_len(nrows: int) -> int {
        (nrows + 7) / 8 + 8 * nrows
    }

    /// What `from_wire_payload` accepts: names absent or one per column, and
    /// a payload that is exactly `ncols` well-formed column encodings of
    /// `nrows` rows each.
    pub open spec fn wire_payload_wf(
        fields: Seq<String>,
        ncols: int,
        nrows: int,
        b: Seq<u8>,
    ) -> bool {
        &&& (fields.len() == ncols || fields.len() == 0)
        &&& b.len() == ncols * Self::col_wire_len(nrows)
        &&& forall|c: int|
            0 <= c < ncols ==> UBigIntView::ingest_wf(
                #[trigger] b.subrange(
                    c * Self::col_wire_len(nrows),
                    (c + 1) * Self::col_wire_len(nrows),
                ),
                nrows,
            )
    }

    /// Reinterprets a wire payload as a block of `ncols` columns of unsigned
    /// big integers and `nrows` rows: per column, in schema order, a null
    /// bitmap of `ceil(nrows / 8)` bytes followed by `nrows * 8` value
    /// bytes. `None` exactly when the names do not fit the column count, the
    /// payload is not exactly `ncols` such column encodings, or a bitmap has
    /// a set padding bit.
    pub fn from_wire_payload(
        fields: Vec<String>,
        ncols: usize,
        nrows: usize,
        payload: &[u8],
    ) -> (r: Option<Block>)
        ensures
            r is Some <==> Self::wire_payload_wf(fields@, ncols as int, nrows as int, payload@),
            r matches Some(b) ==> {
                &&& b.wf()
                &&& b.fields == fields
                &&& b.spec_ncols() == ncols
                &&& b.spec_nrows() == nrows
                &&& forall|c: int, i: int|
                    0 <= c < ncols && 0 <= i < nrows ==> #[trigger] b.cell(i, c)
                        == cell_from_wire(
                        payload@.subrange(
                            c * Self::col_wire_len(nrows as int),
                            (c + 1) * Self::col_wire_len(nrows as int),
                        ),
                        nrows as int,
                        i,
                    )
            },
    {
        let ghost cw = Self::col_wire_len(nrows as int);
        if fields.len() != 0 && fields.len() != ncols {
            return None;
        }
        let nb = nrows / 8 + if nrows % 8 == 0 {
            0usize
        } else {
            1usize
        };
        proof {
            crate::nulls::lemma_ceil8(nrows as int);
        }
        let mut cols: Vec<BlockCol> = Vec::new();
        let mut c: usize = 0;
        let mut pos: usize = 0;
        while c < ncols
            invariant
                c <= ncols,
                cols@.len() == c,
                cw == Self::col_wire_len(nrows as int),
                pos == c * cw,
                pos <= payload@.len(),
                nb == (nrows as int + 7) / 8,
                fields@.len() == ncols || fields@.len() == 0,
                forall|t: int|
                    0 <= t < c ==> UBigIntView::ingest_wf(
                        #[trigger] payload@.subrange(t * cw, (t + 1) * cw),
                        nrows as int,
                    ),
                forall|t: int|
                    0 <= t < c ==> (#[trigger] cols@[t]).cells@.len() == nrows && cols@[t].ty
                        == Ty::UBigInt && cols@[t].wf(),
                forall|t: int, i: int|
                    0 <= t < c && 0 <= i < nrows ==> #[trigger] cols@[t].cells@[i]
                        == cell_from_wire(
                        payload@.subrange(t * cw, (t + 1) * cw),
                        nrows as int,
                        i,
                    ),
            decreases ncols - c,
        {
            proof {
                if Self::wire_payload_wf(fields@, ncols as int, nrows as int, payload@) {
                    assert(payload@.len() - pos == (ncols - c) * cw) by (nonlinear_arith)
                        requires
                            payload@.len() == ncols * cw,
                            pos == c * cw,
                    ;
                    assert((ncols - c) * cw >= cw) by (nonlinear_arith)
                        requires
                            ncols - c >= 1,
                            cw >= 0,
                    ;
                }
            }
            if payload.len() - pos < nb {
                return None;
            }
            let rest = payload.len() - pos - nb;
            proof {
                if Self::wire_payload_wf(fields@, ncols as int, nrows as int, payload@) {
                    assert(nrows <= rest / 8) by (nonlinear_arith)
                        requires
                            rest >= 8 * nrows,
                            nrows >= 0,
                    ;
                }
            }
            if rest / 8 < nrows {
                return None;
            }
            proof {
                assert(8 * nrows <= rest) by (nonlinear_arith)
                    requires
                        nrows <= rest / 8,
                        rest >= 0,
                ;
            }
            let colw = nb + 8 * nrows;
            proof {
                assert(pos + colw == (c + 1) * cw) by (nonlinear_arith)
                    requires
                        pos == c * cw,
                        colw == cw,
                ;
            }
            let seg = vstd::slice::slice_subrange(payload, pos, pos + colw);
            proof {
                if Self::wire_payload_wf(fields@, ncols as int, nrows as int, payload@) {
                    assert(UBigIntView::ingest_wf(
                        payload@.subrange(c as int * cw, (c as int + 1) * cw),
                        nrows as int,
                    ));
                    assert(seg@ == payload@.subrange(c as int * cw, (c as int + 1) * cw));
                }
            }
            let view = match UBigIntView::from_raw_bytes(seg, nrows) {
                Some(v) => v,
                None => {
                    return None;
                },
            };
            let col = BlockCol::from_ubigint_view(&view);
            proof {
                assert forall|i: int| 0 <= i < nrows implies col.cells@[i] == cell_from_wire(
                    seg@,
                    nrows as int,
                    i,
                ) by {
                    crate::big_int_unsigned_view::lemma_ingest_view(view, seg@, nrows as int, i);
                }
            }
            cols.push(col);
            pos = pos + colw;
            c = c + 1;
        }
        if pos != payload.len() {
            proof {
                assert(pos == ncols * cw);
            }
            return None;
        }
        Some(Block { fields, cols, nrows })
    }

    /// Number of rows.
    pub fn nrows(&self) -> (n: usize)
        ensures
            n == self.spec_nrows(),
    {
        self.nrows
    }

    /// Number of columns.
    pub fn ncols(&self) -> (n: usize)
        ensures
            n == self.spec_ncols(),
    {
        self.cols.len()
    }

    /// Whether the schema carries column names.
    pub fn has_names(&self) -> (r: bool)
        ensures
            r == self.spec_has_names(),
    {
        self.fields.len() != 0
    }

    /// The cell at `(row, col)` as an owned value; the caller has checked
    /// both bounds.
    pub fn get_ref_unchecked(&self, row: usize, col: usize) -> (r: Value)
        requires
            self.wf(),
            row < self.spec_nrows(),
            col < self.spec_ncols(),
        ensures
            r == self.cell(row as int, col as int),
    {
        self.cols[col].cells[row].clone()
    }
}

} // verus!
