//! The column view for nullable unsigned 64-bit integers: a null bitmap plus
//! a shared byte buffer holding one little-endian 8-byte value per row.
//! Columns are built by streaming conversion from optional values (the append
//! path) or by reinterpreting bytes received from a transport (the ingest
//! path), and written back out as null-bitmap bytes followed by raw value
//! bytes (the wire contract).

use vstd::bytes::{
    lemma_auto_spec_u64_to_from_le_bytes, spec_u64_from_le_bytes, spec_u64_to_le_bytes,
    u64_from_le_bytes, u64_to_le_bytes,
};
use vstd::prelude::*;
use vstd::slice::{slice_subrange, slice_to_vec};

use crate::buffer::{bytes_as_slice, bytes_from_vec, bytes_len, bytes_slice, bytes_view};
use crate::nulls::{bit_at, lemma_ceil8, NullBits, NullsIter};
use crate::value::{Ty, Value};

verus! {

/// The byte stored in the value buffer for an absent row: the bitmap, not
/// this placeholder, is authoritative for nullness.
pub open spec fn stored_value(v: Option<u64>) -> u64 {
    match v {
        Some(x) => x,
        None => 0u64,
    }
}

/// A column of nullable unsigned 64-bit integers.
#[derive(Debug, Clone)]
pub struct UBigIntView {
    pub nulls: NullBits,
    pub data: bytes::Bytes,
}

impl View for UBigIntView {
    type V = Seq<Option<u64>>;

    open spec fn view(&self) -> Seq<Option<u64>> {
        Seq::new(
            (bytes_view(self.data).len() / 8) as nat,
            |i: int|
                if bit_at(self.nulls@, i) {
                    None
                } else {
                    Some(spec_u64_from_le_bytes(bytes_view(self.data).subrange(8 * i, 8 * i + 8)))
                },
        )
    }
}

/// Rows that fit the value buffer: row `row` occupies bytes `8*row..8*row+8`.
proof fn lemma_row_bytes(row: int, l: int)
    requires
        l % 8 == 0,
        0 <= row < l / 8,
    ensures
        8 * row + 8 <= l,
        8 * (l / 8) == l,
{
    assert(8 * row + 8 <= l && 8 * (l / 8) == l) by (nonlinear_arith)
        requires
            l % 8 == 0,
            0 <= row < l / 8,
    ;
}

/// Eight bytes per row: a buffer of `8 * n` bytes holds `n` rows.
proof fn lemma_times8(n: int)
    requires
        n >= 0,
    ensures
        (8 * n) % 8 == 0,
        (8 * n) / 8 == n,
{
    assert((8 * n) % 8 == 0 && (8 * n) / 8 == n) by (nonlinear_arith)
        requires
            n >= 0,
    ;
}

impl UBigIntView {
    /// Logical row count.
    pub open spec fn spec_len(&self) -> int {
        bytes_view(self.data).len() as int / 8
    }

    /// The stored buffers agree with the logical row count, and every bitmap
    /// bit past the last row is clear.
    pub open spec fn wf(&self) -> bool {
        &&& bytes_view(self.data).len() % 8 == 0
        &&& self.nulls@.len() == (self.spec_len() + 7) / 8
        &&& forall|i: int|
            self.spec_len() <= i < 8 * self.nulls@.len() ==> !bit_at(self.nulls@, i)
    }

    /// The wire encoding of this column: null-bitmap bytes, then raw value
    /// bytes, in that order.
    pub open spec fn wire_seq(&self) -> Seq<u8> {
        self.nulls@ + bytes_view(self.data)
    }

    /// Builds a column from optional values in one pass: the bitmap records
    /// which rows are absent, and the value buffer stores each present value
    /// (and a zero placeholder for each absent one) as 8 little-endian bytes.
    pub fn from_iter(values: &Vec<Option<u64>>) -> (r: UBigIntView)
        ensures
            r.wf(),
            r@ == values@,
    {
        let n = values.len();
        let mut bools: Vec<bool> = Vec::new();
        let mut data: Vec<u8> = Vec::new();
        let mut idx: usize = 0;
        while idx < n
            invariant
                idx <= n,
                n == values@.len(),
                bools@.len() == idx,
                data@.len() == 8 * idx,
                forall|j: int| 0 <= j < idx ==> bools@[j] == (values@[j] is None),
                forall|j: int|
                    0 <= j < idx ==> data@.subrange(8 * j, 8 * j + 8) == spec_u64_to_le_bytes(
                        stored_value(values@[j]),
                    ),
            decreases n - idx,
        {
            let v = values[idx];
            let x = match v {
                Some(x) => x,
                None => 0u64,
            };
            bools.push(v.is_none());
            let ghost dv0 = data@;
            let mut b8 = u64_to_le_bytes(x);
            let ghost b8v = b8@;
            data.append(&mut b8);
            idx = idx + 1;
            proof {
                assert forall|j: int| 0 <= j < idx implies data@.subrange(8 * j, 8 * j + 8)
                    == spec_u64_to_le_bytes(stored_value(values@[j])) by {
                    if j < idx - 1 {
                        assert(data@.subrange(8 * j, 8 * j + 8) =~= dv0.subrange(
                            8 * j,
                            8 * j + 8,
                        ));
                    } else {
                        assert(data@.subrange(8 * j, 8 * j + 8) =~= b8v);
                    }
                }
            }
        }
        let nulls = NullBits::from_bools(&bools);
        let r = UBigIntView { nulls, data: bytes_from_vec(data) };
        proof {
            lemma_times8(n as int);
            lemma_auto_spec_u64_to_from_le_bytes();
            assert forall|i: int| 0 <= i < n implies r@[i] == values@[i] by {
                if values@[i] is Some {
                    assert(spec_u64_from_le_bytes(spec_u64_to_le_bytes(stored_value(values@[i])))
                        == stored_value(values@[i]));
                }
            }
            assert(r@ =~= values@);
        }
        r
    }

    /// Row count, derived from the value buffer's size.
    pub fn len(&self) -> (n: usize)
        ensures
            n == self@.len(),
    {
        bytes_len(&self.data) / 8
    }

    /// The column's logical type.
    pub fn ty(&self) -> (t: Ty)
        ensures
            t == Ty::UBigInt,
    {
        Ty::UBigInt
    }

    /// Builds a column from generic cell values, reading each through
    /// [`Value::spec_to_u64`].
    pub fn from_borrowed_value_iter(values: &Vec<Value>) -> (r: UBigIntView)
        ensures
            r.wf(),
            r@.len() == values@.len(),
            forall|i: int| 0 <= i < values@.len() ==> r@[i] == values@[i].spec_to_u64(),
    {
        let n = values.len();
        let mut opts: Vec<Option<u64>> = Vec::new();
        let mut i: usize = 0;
        while i < n
            invariant
                i <= n,
                n == values@.len(),
                opts@.len() == i,
                forall|j: int| 0 <= j < i ==> opts@[j] == values@[j].spec_to_u64(),
            decreases n - i,
        {
            opts.push(values[i].to_u64());
            i = i + 1;
        }
        UBigIntView::from_iter(&opts)
    }

    /// Whether row `row` is NULL; the caller has checked the bound.
    pub fn is_null_unchecked(&self, row: usize) -> (r: bool)
        requires
            self.wf(),
            row < self@.len(),
        ensures
            r == (self@[row as int] is None),
    {
        proof {
            lemma_ceil8(self.spec_len());
        }
        self.nulls.is_null_unchecked(row)
    }

    /// Whether row `row` is NULL; rows out of bounds are reported not null.
    pub fn is_null(&self, row: usize) -> (r: bool)
        requires
            self.wf(),
        ensures
            r == (row < self@.len() && self@[row as int] is None),
    {
        if row < self.len() {
            self.is_null_unchecked(row)
        } else {
            false
        }
    }

    /// The value at row `row`; the caller has checked the bound.
    pub fn get_unchecked(&self, row: usize) -> (r: Option<u64>)
        requires
            self.wf(),
            row < self@.len(),
        ensures
            r == self@[row as int],
    {
        if self.is_null_unchecked(row) {
            None
        } else {
            let s = bytes_as_slice(&self.data);
            let l = s.len();
            proof {
                lemma_row_bytes(row as int, l as int);
            }
            let sub = slice_subrange(s, 8 * row, 8 * row + 8);
            Some(u64_from_le_bytes(sub))
        }
    }

    /// The value at row `row`, or `None` past the end.
    pub fn get(&self, row: usize) -> (r: Option<u64>)
        requires
            self.wf(),
        ensures
            row < self@.len() ==> r == self@[row as int],
            row >= self@.len() ==> r is None,
    {
        if row < self.len() {
            self.get_unchecked(row)
        } else {
            None
        }
    }

    /// The cell at row `row` as a generic value: the held integer, or the
    /// NULL marker carrying this column's type.
    pub fn get_value_unchecked(&self, row: usize) -> (r: Value)
        requires
            self.wf(),
            row < self@.len(),
        ensures
            r == match self@[row as int] {
                Some(v) => Value::UBigInt(v),
                None => Value::Null(Ty::UBigInt),
            },
    {
        match self.get_unchecked(row) {
            Some(v) => Value::UBigInt(v),
            None => Value::Null(Ty::UBigInt),
        }
    }

    /// The cell at row `row` in raw form: the column's type, the element
    /// width in bytes, and the held value — absent for a NULL row.
    pub fn get_raw_value_unchecked(&self, row: usize) -> (r: (Ty, u32, Option<u64>))
        requires
            self.wf(),
            row < self@.len(),
        ensures
            r.0 == Ty::UBigInt,
            r.1 == 8u32,
            r.2 == self@[row as int],
    {
        if self.is_null_unchecked(row) {
            (Ty::UBigInt, 8, None)
        } else {
            (Ty::UBigInt, 8, self.get_unchecked(row))
        }
    }

    /// The sub-column of rows `range.start..range.end`, with `range.end`
    /// clamped to the row count. `None` when the range starts past the end or
    /// is empty after clamping; otherwise a view over the sub-bitmap and
    /// sub-buffer, copying no value bytes.
    pub fn slice(&self, range: core::ops::Range<usize>) -> (r: Option<UBigIntView>)
        requires
            self.wf(),
        ensures
            ({
                let start = range.start as int;
                let end = if range.end as int > self@.len() {
                    self@.len() as int
                } else {
                    range.end as int
                };
                &&& (start >= self@.len() || end <= start) ==> r is None
                &&& (start < self@.len() && end > start) ==> (r matches Some(v) && v.wf() && v@
                    == self@.subrange(start, end))
            }),
    {
        let len = self.len();
        if range.start >= len {
            return None;
        }
        let end = if range.end >= len {
            len
        } else {
            range.end
        };
        if end <= range.start {
            return None;
        }
        let start = range.start;
        let m = end - start;
        let lbytes = bytes_len(&self.data);
        proof {
            lemma_ceil8(self.spec_len());
            lemma_row_bytes(start as int, lbytes as int);
            lemma_row_bytes(end as int - 1, lbytes as int);
        }
        let nulls = self.nulls.slice(start, end);
        let data = bytes_slice(&self.data, 8 * start, 8 * end);
        let v = UBigIntView { nulls, data };
        proof {
            lemma_times8(m as int);
            assert forall|i: int| 0 <= i < m implies v@[i] == self@[start + i] by {
                assert(bit_at(v.nulls@, i) == bit_at(self.nulls@, start + i));
                if !bit_at(v.nulls@, i) {
                    assert(bytes_view(v.data).subrange(8 * i, 8 * i + 8) =~= bytes_view(
                        self.data,
                    ).subrange(8 * (start + i), 8 * (start + i) + 8));
                }
            }
            assert(v@ =~= self@.subrange(start as int, end as int));
        }
        Some(v)
    }

    /// An iterator over the nullable values of this column, starting at row
    /// zero.
    pub fn iter(&self) -> (it: UBigIntViewIter<'_>)
        ensures
            it.source == self,
            it.row == 0,
    {
        UBigIntViewIter { source: self, row: 0 }
    }

    /// All rows as a vector of nullable values.
    pub fn to_vec(&self) -> (r: Vec<Option<u64>>)
        requires
            self.wf(),
        ensures
            r@ == self@,
    {
        let n = self.len();
        let mut r: Vec<Option<u64>> = Vec::new();
        let mut i: usize = 0;
        while i < n
            invariant
                i <= n,
                n == self@.len(),
                self.wf(),
                r@.len() == i,
                forall|j: int| 0 <= j < i ==> r@[j] == self@[j],
            decreases n - i,
        {
            r.push(self.get_unchecked(i));
            i = i + 1;
        }
        proof {
            assert(r@ =~= self@);
        }
        r
    }

    /// The null flag of every row, in order.
    pub fn to_nulls_vec(&self) -> (r: Vec<bool>)
        requires
            self.wf(),
        ensures
            r@.len() == self@.len(),
            forall|j: int| 0 <= j < self@.len() ==> r@[j] == (self@[j] is None),
    {
        let n = self.len();
        let mut r: Vec<bool> = Vec::new();
        let mut i: usize = 0;
        while i < n
            invariant
                i <= n,
                n == self@.len(),
                self.wf(),
                r@.len() == i,
                forall|j: int| 0 <= j < i ==> r@[j] == (self@[j] is None),
            decreases n - i,
        {
            r.push(self.is_null_unchecked(i));
            i = i + 1;
        }
        r
    }

    /// An iterator over the null flags of this column.
    pub fn is_null_iter(&self) -> (it: NullsIter<'_>)
        requires
            self.wf(),
        ensures
            it.wf(),
            it.nulls == &self.nulls,
            it.row == 0,
            it.len == self@.len(),
    {
        proof {
            lemma_ceil8(self.spec_len());
        }
        NullsIter { nulls: &self.nulls, row: 0, len: self.len() }
    }

    /// Elementwise concatenation: the rows of `self` followed by the rows of
    /// `rhs`, re-derived value by value.
    pub fn concat(&self, rhs: &UBigIntView) -> (r: UBigIntView)
        requires
            self.wf(),
            rhs.wf(),
        ensures
            r.wf(),
            r@ == self@ + rhs@,
    {
        let mut v = self.to_vec();
        let mut w = rhs.to_vec();
        v.append(&mut w);
        UBigIntView::from_iter(&v)
    }

    /// Writes this column's wire encoding — null-bitmap bytes, then raw value
    /// bytes — and returns how many bytes were written.
    pub fn write_raw_into(&self, wtr: &mut Vec<u8>) -> (n: usize)
        requires
            self.wf(),
        ensures
            final(wtr)@ == old(wtr)@ + self.wire_seq(),
            n == self.wire_seq().len(),
    {
        let l0 = wtr.len();
        let nb = bytes_as_slice(&self.nulls.0);
        wtr.extend_from_slice(nb);
        let db = bytes_as_slice(&self.data);
        wtr.extend_from_slice(db);
        proof {
            assert(wtr@ =~= old(wtr)@ + self.wire_seq());
        }
        wtr.len() - l0
    }

    /// What the ingest path accepts for a column of `len` rows: exactly the
    /// bitmap bytes followed by the value bytes, with every padding bit of
    /// the bitmap clear.
    pub open spec fn ingest_wf(b: Seq<u8>, len: int) -> bool {
        &&& b.len() == (len + 7) / 8 + 8 * len
        &&& forall|i: int| len <= i < 8 * ((len + 7) / 8) ==> !bit_at(b, i)
    }

    /// Reinterprets wire bytes as a column of `len` rows: the inverse of
    /// [`UBigIntView::write_raw_into`]. `None` when the input is not exactly
    /// a bitmap for `len` rows followed by `8 * len` value bytes with clear
    /// padding bits.
    pub fn from_raw_bytes(input: &[u8], len: usize) -> (r: Option<UBigIntView>)
        ensures
            r is Some <==> Self::ingest_wf(input@, len as int),
            r matches Some(v) ==> v.wf() && v.spec_len() == len && v.wire_seq() == input@,
    {
        proof {
            lemma_ceil8(len as int);
        }
        let nb = len / 8 + if len % 8 == 0 {
            0usize
        } else {
            1usize
        };
        if input.len() < nb {
            return None;
        }
        let rest = input.len() - nb;
        if rest % 8 != 0 || rest / 8 != len {
            proof {
                lemma_times8(len as int);
            }
            return None;
        }
        proof {
            lemma_times8(len as int);
            assert(input@.len() == nb + 8 * len);
        }
        if len % 8 != 0 {
            let last = input[nb - 1];
            let mut k: usize = len % 8;
            while k < 8
                invariant
                    len % 8 <= k <= 8,
                    len % 8 != 0,
                    nb == (len as int + 7) / 8,
                    nb >= 1,
                    nb <= input@.len(),
                    last == input@[nb - 1],
                    forall|t: int| len % 8 <= t < k ==> #[trigger] ((last >> (t as u8)) & 1)
                        == 0,
                decreases 8 - k,
            {
                if (last >> (k as u8)) & 1 == 1 {
                    proof {
                        crate::nulls::lemma_bit_index(nb - 1, k as int);
                        assert(bit_at(input@, 8 * (nb - 1) + k));
                        assert(8 * (nb - 1) + len % 8 == len);
                        assert(len <= 8 * (nb - 1) + k < 8 * nb);
                    }
                    return None;
                }
                proof {
                    let kk = k as u8;
                    assert((last >> kk) & 1 == 0 || (last >> kk) & 1 == 1) by (bit_vector);
                }
                k = k + 1;
            }
            proof {
                assert forall|i: int| len <= i < 8 * ((len as int + 7) / 8) implies !bit_at(
                    input@,
                    i,
                ) by {
                    crate::nulls::lemma_bit_index(i / 8, i % 8);
                    assert(8 * (nb - 1) + len % 8 == len);
                    assert(i / 8 == nb - 1);
                    assert((last >> ((i % 8) as u8)) & 1 == 0);
                }
            }
        }
        let nulls_v = slice_to_vec(slice_subrange(input, 0, nb));
        let data_v = slice_to_vec(slice_subrange(input, nb, input.len()));
        let v = UBigIntView {
            nulls: NullBits(bytes_from_vec(nulls_v)),
            data: bytes_from_vec(data_v),
        };
        proof {
            lemma_times8(len as int);
            assert forall|i: int| v.spec_len() <= i < 8 * v.nulls@.len() implies !bit_at(
                v.nulls@,
                i,
            ) by {
                assert(bit_at(v.nulls@, i) == bit_at(input@, i));
            }
            assert(v.wire_seq() =~= input@);
        }
        Some(v)
    }
}

/// The cell at row `i` of one column's wire encoding for `n` rows: the
/// bitmap bit at the front decides nullness; the 8 little-endian bytes at
/// the row's offset after the bitmap give the value.
pub open spec fn cell_from_wire(b: Seq<u8>, n: int, i: int) -> Value
    recommends
        UBigIntView::ingest_wf(b, n),
        0 <= i < n,
{
    let nb = (n + 7) / 8;
    if bit_at(b, i) {
        Value::Null(Ty::UBigInt)
    } else {
        Value::UBigInt(spec_u64_from_le_bytes(b.subrange(nb + 8 * i, nb + 8 * i + 8)))
    }
}

/// A column ingested from wire bytes shows at each row exactly what
/// [`cell_from_wire`] reads off those bytes.
pub proof fn lemma_ingest_view(v: UBigIntView, b: Seq<u8>, n: int, i: int)
    requires
        v.wf(),
        v.spec_len() == n,
        v.wire_seq() == b,
        0 <= i < n,
    ensures
        (match v@[i] {
            Some(x) => Value::UBigInt(x),
            None => Value::Null(Ty::UBigInt),
        }) == cell_from_wire(b, n, i),
{
    let nb = (n + 7) / 8;
    crate::nulls::lemma_ceil8(n);
    assert(v.nulls@ =~= b.subrange(0, nb));
    assert(bytes_view(v.data) =~= b.subrange(nb, b.len() as int));
    assert(i / 8 < nb) by (nonlinear_arith)
        requires
            0 <= i,
            i < 8 * nb,
    ;
    assert(v.nulls@[i / 8] == b[i / 8]);
    assert(bit_at(v.nulls@, i) == bit_at(b, i));
    if !bit_at(b, i) {
        assert(bytes_view(v.data).subrange(8 * i, 8 * i + 8) =~= b.subrange(
            nb + 8 * i,
            nb + 8 * i + 8,
        ));
    }
}

/// Writing a column and re-ingesting the written bytes at the same row count
/// reproduces an identical null pattern and identical values for every row:
/// the wire encoding together with the row count determines the column.
pub proof fn lemma_wire_round_trip(a: UBigIntView, b: UBigIntView)
    requires
        a.wf(),
        b.wf(),
        a.spec_len() == b.spec_len(),
        a.wire_seq() == b.wire_seq(),
    ensures
        a@ == b@,
{
    let nb = (a.spec_len() + 7) / 8;
    assert(a.nulls@ =~= a.wire_seq().subrange(0, nb));
    assert(b.nulls@ =~= b.wire_seq().subrange(0, nb));
    assert(bytes_view(a.data) =~= a.wire_seq().subrange(nb, a.wire_seq().len() as int));
    assert(bytes_view(b.data) =~= b.wire_seq().subrange(nb, b.wire_seq().len() as int));
    assert(a@ =~= b@);
}

/// For a valid range, a slice holds exactly rows `start..end` of its source,
/// in order: element `i` of the slice is element `start + i` of the source,
/// so collecting the slice equals skipping `start` rows and taking the next
/// `end - start`.
pub proof fn lemma_slice_law(c: UBigIntView, s: UBigIntView, start: int, end: int)
    requires
        0 <= start < c@.len(),
        start < end <= c@.len(),
        s@ == c@.subrange(start, end),
    ensures
        forall|i: int| 0 <= i < end - start ==> s@[i] == c@[start + i],
        s@ == c@.skip(start).take(end - start),
{
    assert(s@ =~= c@.skip(start).take(end - start));
}

/// An iterator over the nullable values of a column: lazy, finite, and
/// restartable by asking the column for a fresh one.
pub struct UBigIntViewIter<'a> {
    pub source: &'a UBigIntView,
    pub row: usize,
}

impl<'a> UBigIntViewIter<'a> {
    /// The next nullable value, or `None` once every row has been yielded.
    pub fn next(&mut self) -> (r: Option<Option<u64>>)
        requires
            old(self).source.wf(),
        ensures
            final(self).source == old(self).source,
            old(self).row < old(self).source@.len() ==> r == Some(
                old(self).source@[old(self).row as int],
            ) && final(self).row == old(self).row + 1,
            old(self).row >= old(self).source@.len() ==> r is None && final(self).row == old(
                self,
            ).row,
    {
        if self.row < self.source.len() {
            let row = self.row;
            self.row = row + 1;
            Some(self.source.get_unchecked(row))
        } else {
            None
        }
    }

    /// Lower and upper bound of the rows still to come; both equal
    /// `len() - cursor`.
    pub fn size_hint(&self) -> (r: (usize, Option<usize>))
        ensures
            self.row < self.source@.len() ==> r.0 == self.source@.len() - self.row && r.1
                == Some(r.0),
            self.row >= self.source@.len() ==> r.0 == 0 && r.1 == Some(0usize),
    {
        let n = self.source.len();
        if self.row < n {
            let hint = n - self.row;
            (hint, Some(hint))
        } else {
            (0, Some(0))
        }
    }

    /// Exact number of rows still to come.
    pub fn len(&self) -> (n: usize)
        requires
            self.row <= self.source@.len(),
        ensures
            n == self.source@.len() - self.row,
    {
        self.source.len() - self.row
    }
}

} // verus!
