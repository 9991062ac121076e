//! A small conforming container: an axis whose slices are marks that name
//! the canonical position or range they stand for. It exists so that the
//! generic dispatch layer can be exercised end to end — the mark a caller
//! receives shows exactly which canonical access reached the storage
//! primitive — and so that the capability traits have a verified
//! implementation in the crate itself.

use vstd::prelude::*;

use crate::normalize::CanonicalRange;
use crate::normalize::OutOfBounds;
use crate::normalize::start_in_window;
use crate::normalize::start_oob;
use crate::normalize::wrap_index;
use crate::tensor_accessor::MultiIndexBundleBase;
use crate::tensor_accessor::TensorAccessor;
use crate::tensor_trait::TensorTrait;

verus! {

/// Largest axis extent a mark container supports: it materializes one mark
/// per canonical position and one per canonical range pair up front, so its
/// extent is kept small.
pub const MARK_CAPACITY: i64 = 16;

/// The scalar slice of a mark axis: it names the canonical position it was
/// handed out for (until a caller overwrites it through a mutable access).
#[derive(Clone, Copy, Debug, PartialEq, Eq, Structural)]
pub struct PosMark {
    pub pos: i64,
}

/// The range slice of a mark axis: it names the canonical half-open range it
/// was handed out for (until a caller overwrites it through a mutable
/// access).
#[derive(Clone, Copy, Debug, PartialEq, Eq, Structural)]
pub struct SpanMark {
    pub start: i64,
    pub end: i64,
}

/// The slice pairing of a mark axis: scalars yield position marks, ranges
/// yield span marks.
pub struct MarkBundle {}

impl MultiIndexBundleBase<i64> for MarkBundle {
    type ScalarSlice = PosMark;

    type RangeSlice = SpanMark;
}

/// Cell of the flattened range-mark table that holds the mark for the
/// canonical range `[start, end)`. The table has one row per canonical start
/// bound and 17 cells per row — one more than the capacity, since an end
/// bound may equal the extent itself.
pub open spec fn flat_span_index(start: int, end: int) -> int {
    start * 17 + end
}

/// One axis of marks. Position marks fill `[0, size)`; the range-mark table
/// is always allocated at full capacity, so every canonical range pair up to
/// the capacity has its own cell.
pub struct MarkAxis {
    size: i64,
    pos_marks: Vec<PosMark>,
    span_marks: Vec<SpanMark>,
}

impl MarkAxis {
    #[verifier::type_invariant]
    spec fn wf(&self) -> bool {
        &&& 0 <= self.size <= MARK_CAPACITY
        &&& self.pos_marks@.len() == self.size as int
        &&& self.span_marks@.len() == 289
    }

    /// A fresh axis of the given extent: every position mark names its own
    /// position, every span mark names its own range pair.
    pub fn new(size: i64) -> (r: MarkAxis)
        requires
            0 <= size <= MARK_CAPACITY,
        ensures
            r.spec_dim_size() == size as int,
            forall|p: int|
                0 <= p < size as int ==> r.spec_scalar_slice(p) == (PosMark { pos: p as i64 }),
            forall|s: int, e: int|
                0 <= s <= size as int && 0 <= e <= size as int ==> r.spec_range_slice(s, e) == (
                SpanMark { start: s as i64, end: e as i64 }),
    {
        let mut pos_marks: Vec<PosMark> = Vec::new();
        let mut p: i64 = 0;
        while p < size
            invariant
                0 <= p <= size <= MARK_CAPACITY,
                pos_marks@.len() == p as int,
                forall|k: int|
                    0 <= k < p as int ==> pos_marks@[k] == (PosMark { pos: k as i64 }),
            decreases size - p,
        {
            pos_marks.push(PosMark { pos: p });
            p = p + 1;
        }
        let mut span_marks: Vec<SpanMark> = Vec::new();
        let mut s: i64 = 0;
        while s < 17
            invariant
                0 <= s <= 17,
                span_marks@.len() == flat_span_index(s as int, 0),
                forall|a: int, b: int|
                    0 <= a && 0 <= b < 17 && flat_span_index(a, b) < span_marks@.len()
                        ==> span_marks@[flat_span_index(a, b)] == (SpanMark {
                        start: a as i64,
                        end: b as i64,
                    }),
            decreases 17 - s,
        {
            let mut e: i64 = 0;
            while e < 17
                invariant
                    0 <= s < 17,
                    0 <= e <= 17,
                    span_marks@.len() == flat_span_index(s as int, e as int),
                    forall|a: int, b: int|
                        0 <= a && 0 <= b < 17 && flat_span_index(a, b) < span_marks@.len()
                            ==> span_marks@[flat_span_index(a, b)] == (
                        SpanMark { start: a as i64, end: b as i64 }),
                decreases 17 - e,
            {
                span_marks.push(SpanMark { start: s, end: e });
                e = e + 1;
            }
            s = s + 1;
        }
        MarkAxis { size, pos_marks, span_marks }
    }
}

impl TensorAccessor<i64> for MarkAxis {
    type MultiIndexBundle = MarkBundle;

    closed spec fn spec_dim_size(&self) -> int {
        self.size as int
    }

    closed spec fn spec_scalar_slice(&self, pos: int) -> PosMark {
        if 0 <= pos < self.pos_marks@.len() {
            self.pos_marks@[pos]
        } else {
            PosMark { pos: pos as i64 }
        }
    }

    closed spec fn spec_range_slice(&self, start: int, end: int) -> SpanMark {
        let cell = flat_span_index(start, end);
        if 0 <= cell < self.span_marks@.len() {
            self.span_marks@[cell]
        } else {
            SpanMark { start: start as i64, end: end as i64 }
        }
    }

    fn index_scalar<'a>(&'a self, pos: i64) -> (r: Result<&'a PosMark, OutOfBounds>)
        ensures
            ({
                let size = self.spec_dim_size();
                if start_in_window(pos as int, size) {
                    r matches Ok(slice) && *slice == self.spec_scalar_slice(
                        wrap_index(pos as int, size),
                    )
                } else {
                    r matches Err(e) && e == start_oob(pos, size)
                }
            }),
    {
        proof {
            use_type_invariant(&*self);
        }
        if pos < -self.size || pos >= self.size {
            return Err(
                OutOfBounds {
                    bound: pos,
                    size: self.size,
                    window_low: -self.size,
                    window_high: self.size - 1,
                },
            );
        }
        let wrapped: i64 = if pos < 0 {
            pos + self.size
        } else {
            pos
        };
        Ok(&self.pos_marks[wrapped as usize])
    }

    fn index_scalar_mut<'a>(&'a mut self, pos: i64) -> (r: Result<&'a mut PosMark, OutOfBounds>)
        ensures
            ({
                let size = old(self).spec_dim_size();
                if start_in_window(pos as int, size) {
                    r is Ok && *r.unwrap() == old(self).spec_scalar_slice(
                        wrap_index(pos as int, size),
                    ) && final(self).spec_dim_size() == size && final(self).spec_scalar_slice(
                        wrap_index(pos as int, size),
                    ) == *final(r.unwrap())
                } else {
                    (r matches Err(e) && e == start_oob(pos, size)) && *final(self) == *old(self)
                }
            }),
    {
        proof {
            use_type_invariant(&*self);
        }
        if pos < -self.size || pos >= self.size {
            return Err(
                OutOfBounds {
                    bound: pos,
                    size: self.size,
                    window_low: -self.size,
                    window_high: self.size - 1,
                },
            );
        }
        let wrapped: i64 = if pos < 0 {
            pos + self.size
        } else {
            pos
        };
        Ok(&mut self.pos_marks[wrapped as usize])
    }

    fn index_range<'a>(&'a self, range: CanonicalRange) -> (r: &'a SpanMark)
        ensures
            *r == self.spec_range_slice(range.start as int, range.end as int),
    {
        proof {
            use_type_invariant(&*self);
        }
        let cell: i64 = range.start * 17 + range.end;
        &self.span_marks[cell as usize]
    }

    fn index_range_mut<'a>(&'a mut self, range: CanonicalRange) -> (r: &'a mut SpanMark)
        ensures
            *r == old(self).spec_range_slice(range.start as int, range.end as int),
            final(self).spec_dim_size() == old(self).spec_dim_size(),
            final(self).spec_range_slice(range.start as int, range.end as int) == *final(r),
    {
        proof {
            use_type_invariant(&*self);
        }
        let cell: i64 = range.start * 17 + range.end;
        &mut self.span_marks[cell as usize]
    }

    fn get_dim_size(&self) -> (r: i64)
        ensures
            r as int == self.spec_dim_size(),
            r >= 0,
    {
        proof {
            use_type_invariant(&*self);
        }
        self.size
    }
}

/// A tensor that owns one mark axis and hands it out as its accessor.
pub struct MarkTensor {
    axis: MarkAxis,
}

impl MarkTensor {
    /// A fresh tensor whose axis has the given extent.
    pub fn new(size: i64) -> (r: MarkTensor)
        requires
            0 <= size <= MARK_CAPACITY,
        ensures
            r.spec_accessor().spec_dim_size() == size as int,
            forall|p: int|
                0 <= p < size as int ==> r.spec_accessor().spec_scalar_slice(p) == (PosMark {
                    pos: p as i64,
                }),
            forall|s: int, e: int|
                0 <= s <= size as int && 0 <= e <= size as int
                    ==> r.spec_accessor().spec_range_slice(s, e) == (SpanMark {
                    start: s as i64,
                    end: e as i64,
                }),
    {
        MarkTensor { axis: MarkAxis::new(size) }
    }
}

impl TensorTrait<i64> for MarkTensor {
    type Accessor = MarkAxis;

    closed spec fn spec_accessor(&self) -> MarkAxis {
        self.axis
    }

    closed spec fn spec_with_accessor(&self, accessor: MarkAxis) -> MarkTensor {
        MarkTensor { axis: accessor }
    }

    fn get_accessor<'a>(&'a self) -> (r: &'a MarkAxis)
        ensures
            *r == self.spec_accessor(),
    {
        &self.axis
    }

    fn get_mut_accessor<'a>(&'a mut self) -> (r: &'a mut MarkAxis)
        ensures
            *r == old(self).spec_accessor(),
            *final(self) == old(self).spec_with_accessor(*final(r)),
    {
        &mut self.axis
    }
}

} // verus!
