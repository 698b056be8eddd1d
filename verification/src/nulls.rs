//! Packed per-row presence flags: one bit per row, eight rows per byte,
//! least-significant bit first within each byte. A set bit means the row is
//! absent (NULL).

use vstd::prelude::*;

use crate::buffer::{bytes_as_slice, bytes_from_vec, bytes_len, bytes_view};

verus! {

/// Bit `i` of the packed byte sequence: set means row `i` is NULL.
pub open spec fn bit_at(bytes: Seq<u8>, i: int) -> bool
    recommends
        0 <= i < 8 * bytes.len(),
{
    (bytes[i / 8] >> ((i % 8) as u8)) & 1 == 1
}

/// Packed null flags for a column. The logical row count lives with the
/// column that owns the bitmap; padding bits past it are kept at zero.
#[derive(Debug, Clone)]
pub struct NullBits(pub bytes::Bytes);

impl View for NullBits {
    type V = Seq<u8>;

    open spec fn view(&self) -> Seq<u8> {
        bytes_view(self.0)
    }
}

/// Bits of `8 * j + k` for a byte index `j` and a bit offset `k < 8`.
pub(crate) proof fn lemma_bit_index(j: int, k: int)
    requires
        0 <= j,
        0 <= k < 8,
    ensures
        (8 * j + k) / 8 == j,
        (8 * j + k) % 8 == k,
{
    assert((8 * j + k) / 8 == j && (8 * j + k) % 8 == k) by (nonlinear_arith)
        requires
            0 <= j,
            0 <= k < 8,
    ;
}

/// Setting bit `k` of a byte leaves every other bit as it was.
proof fn lemma_set_bit(acc: u8, k: u8)
    requires
        k < 8,
    ensures
        (acc | (1u8 << k)) >> k & 1 == 1,
        forall|k2: u8| k2 < 8 && k2 != k ==> (acc | (1u8 << k)) >> k2 & 1 == acc >> k2 & 1,
{
    assert((acc | (1u8 << k)) >> k & 1 == 1) by (bit_vector)
        requires
            k < 8,
    ;
    assert forall|k2: u8| k2 < 8 && k2 != k implies (acc | (1u8 << k)) >> k2 & 1 == acc >> k2
        & 1 by {
        assert((acc | (1u8 << k)) >> k2 & 1 == acc >> k2 & 1) by (bit_vector)
            requires
                k < 8,
                k2 < 8,
                k2 != k,
        ;
    }
}

/// Rounding a row count up to whole bytes: `(n + 7) / 8` bytes cover `n` rows
/// and fewer than `n + 8` bits.
pub(crate) proof fn lemma_ceil8(n: int)
    requires
        n >= 0,
    ensures
        8 * ((n + 7) / 8) >= n,
        8 * ((n + 7) / 8) < n + 8,
        (n + 7) / 8 == n / 8 + if n % 8 == 0 {
            0int
        } else {
            1int
        },
{
    assert(8 * ((n + 7) / 8) >= n && 8 * ((n + 7) / 8) < n + 8 && (n + 7) / 8 == n / 8 + if n
        % 8 == 0 {
        0int
    } else {
        1int
    }) by (nonlinear_arith)
        requires
            n >= 0,
    ;
}

impl NullBits {
    /// Packs the given flags, eight per byte, into `ceil(n / 8)` bytes; every
    /// padding bit past the last flag stays zero.
    pub fn from_bools(bools: &Vec<bool>) -> (r: NullBits)
        ensures
            r@.len() == (bools@.len() + 7) / 8,
            forall|i: int| 0 <= i < bools@.len() ==> bit_at(r@, i) == bools@[i],
            forall|i: int| bools@.len() <= i < 8 * r@.len() ==> !bit_at(r@, i),
    {
        proof {
            lemma_ceil8(bools@.len() as int);
        }
        let n = bools.len();
        let nb = n / 8 + if n % 8 == 0 {
            0usize
        } else {
            1usize
        };
        proof {
            assert(nb == (n + 7) / 8);
        }
        let mut bytes: Vec<u8> = Vec::new();
        let mut j: usize = 0;
        while j < nb
            invariant
                nb == (n + 7) / 8,
                8 * nb >= n,
                8 * nb < n + 8,
                j <= nb,
                bytes@.len() == j,
                forall|i: int| 0 <= i < 8 * j && i < n ==> bit_at(bytes@, i) == bools@[i],
                forall|i: int| n <= i < 8 * j ==> !bit_at(bytes@, i),
                n == bools@.len(),
            decreases nb - j,
        {
            let base = 8 * j;
            proof {
                assert(8 * j <= 8 * nb - 8);
            }
            let mut acc: u8 = 0;
            proof {
                assert forall|k2: u8| k2 < 8 implies (acc >> k2) & 1 == 0 by {
                    assert((0u8 >> k2) & 1 == 0) by (bit_vector);
                }
            }
            let mut k: usize = 0;
            while k < 8
                invariant
                    k <= 8,
                    j < nb,
                    base == 8 * j,
                    base < n,
                    8 * nb < n + 8,
                    n == bools@.len(),
                    forall|k2: u8|
                        k2 < k ==> (acc >> k2) & 1 == if 8 * j + k2 < n && bools@[8 * j
                            + k2] {
                            1u8
                        } else {
                            0u8
                        },
                    forall|k2: u8| k <= k2 < 8 ==> (acc >> k2) & 1 == 0,
                decreases 8 - k,
            {
                let ghost acc0 = acc;
                let set = k < n - base && bools[base + k];
                if set {
                    proof {
                        lemma_set_bit(acc, k as u8);
                    }
                    acc = acc | (1u8 << (k as u8));
                }
                proof {
                    let kk = k as u8;
                    assert forall|k2: u8| k2 < k + 1 implies (acc >> k2) & 1 == (if 8 * j + k2
                        < n && bools@[8 * j + k2] {
                        1u8
                    } else {
                        0u8
                    }) by {
                        if k2 == kk {
                            if set {
                                assert((acc >> k2) & 1 == 1);
                            } else {
                                assert((acc >> k2) & 1 == (acc0 >> k2) & 1);
                            }
                        } else {
                            assert((acc >> k2) & 1 == (acc0 >> k2) & 1);
                        }
                    }
                    assert forall|k2: u8| k + 1 <= k2 < 8 implies (acc >> k2) & 1 == 0 by {
                        assert((acc >> k2) & 1 == (acc0 >> k2) & 1);
                    }
                }
                k = k + 1;
            }
            bytes.push(acc);
            j = j + 1;
            proof {
                assert forall|i: int| 0 <= i < 8 * j && i < n implies bit_at(bytes@, i)
                    == bools@[i] by {
                    lemma_bit_index(i / 8, i % 8);
                    if i / 8 == j - 1 {
                        assert(bytes@[i / 8] == acc);
                    }
                }
                assert forall|i: int| n <= i < 8 * j implies !bit_at(bytes@, i) by {
                    lemma_bit_index(i / 8, i % 8);
                    if i / 8 == j - 1 {
                        assert(bytes@[i / 8] == acc);
                    }
                }
            }
        }
        NullBits(bytes_from_vec(bytes))
    }

    /// Number of bytes the bitmap holds.
    pub fn byte_len(&self) -> (n: usize)
        ensures
            n == self@.len(),
    {
        bytes_len(&self.0)
    }

    /// Whether row `row` is NULL; the caller has checked that the bitmap
    /// covers the row.
    pub fn is_null_unchecked(&self, row: usize) -> (r: bool)
        requires
            row < 8 * self@.len(),
        ensures
            r == bit_at(self@, row as int),
    {
        let s = bytes_as_slice(&self.0);
        proof {
            lemma_bit_index(row as int / 8, row as int % 8);
        }
        let b = s[row / 8];
        ((b >> ((row % 8) as u8)) & 1) == 1
    }

    /// The null mask restricted to rows `start..end`, repacked so that the
    /// result is byte-aligned at its own bit zero, with zero padding bits.
    pub fn slice(&self, start: usize, end: usize) -> (r: NullBits)
        requires
            start <= end,
            end <= 8 * self@.len(),
        ensures
            r@.len() == ((end - start) + 7) / 8,
            forall|i: int| 0 <= i < end - start ==> bit_at(r@, i) == bit_at(self@, start + i),
            forall|i: int| end - start <= i < 8 * r@.len() ==> !bit_at(r@, i),
    {
        let mut bits: Vec<bool> = Vec::new();
        let mut i: usize = start;
        while i < end
            invariant
                start <= i <= end,
                end <= 8 * self@.len(),
                bits@.len() == i - start,
                forall|t: int| 0 <= t < i - start ==> bits@[t] == bit_at(self@, start + t),
            decreases end - i,
        {
            bits.push(self.is_null_unchecked(i));
            i = i + 1;
        }
        NullBits::from_bools(&bits)
    }
}

/// An iterator over the null flags of the first `len` rows of a bitmap.
pub struct NullsIter<'a> {
    pub nulls: &'a NullBits,
    pub row: usize,
    pub len: usize,
}

impl<'a> NullsIter<'a> {
    /// The bitmap covers every row this iterator will visit.
    pub open spec fn wf(&self) -> bool {
        self.len <= 8 * self.nulls@.len()
    }

    /// The next null flag, or `None` once `len` flags have been yielded.
    pub fn next(&mut self) -> (r: Option<bool>)
        requires
            old(self).wf(),
        ensures
            final(self).nulls == old(self).nulls,
            final(self).len == old(self).len,
            old(self).row < old(self).len ==> r == Some(
                bit_at(old(self).nulls@, old(self).row as int),
            ) && final(self).row == old(self).row + 1,
            old(self).row >= old(self).len ==> r is None && final(self).row == old(self).row,
    {
        if self.row < self.len {
            let row = self.row;
            self.row = row + 1;
            Some(self.nulls.is_null_unchecked(row))
        } else {
            None
        }
    }
}

} // verus!
