//! The accessor capability — the four storage primitives a container must
//! supply for one axis — and the generic dispatch layer that gives every
//! conforming container the full five-shape indexing surface for free.

use vstd::prelude::*;

use crate::normalize::CanonicalRange;
use crate::normalize::OutOfBounds;
use crate::normalize::end_in_window;
use crate::normalize::end_oob;
use crate::normalize::normalize_range;
use crate::normalize::start_in_window;
use crate::normalize::start_oob;
use crate::normalize::wrap_index;

verus! {

/// The pair of result types one axis of a container produces: one for
/// indexing by a scalar, one for indexing by a range. The two may differ in
/// rank — a scalar index into a matrix row yields a vector, a range yields a
/// matrix. Each slice type is meant to implement the tensor capability
/// itself, so that higher-rank indexing composes by chaining single-axis
/// accesses; stating that as a bound here would close a cycle through the
/// three capability traits, so it is left to the implementing types.
pub trait MultiIndexBundleBase<T>: Sized {
    type ScalarSlice;
    type RangeSlice;
}

/// The capability a dimension-aware container implements to receive generic
/// indexing: its current extent along the axis, and the four storage
/// primitives. Range primitives receive only already-canonical, in-bounds
/// ranges; the scalar primitives receive the raw, possibly negative position
/// and validate it themselves, against the same window as a range start.
pub trait TensorAccessor<T>: Sized {
    type MultiIndexBundle: MultiIndexBundleBase<T>;

    /// The extent of the axis being indexed.
    spec fn spec_dim_size(&self) -> int;

    /// The scalar slice this container holds at a canonical (non-negative,
    /// in-bounds) position.
    spec fn spec_scalar_slice(&self, pos: int) -> <Self::MultiIndexBundle as MultiIndexBundleBase<T>>::ScalarSlice;

    /// The range slice this container presents for a canonical half-open
    /// range `[start, end)`.
    spec fn spec_range_slice(&self, start: int, end: int) -> <Self::MultiIndexBundle as MultiIndexBundleBase<T>>::RangeSlice;

    /// Enables accessing a slice of the tensor with a scalar. The position is
    /// the raw request: a negative position counts from the end of the axis.
    fn index_scalar<'a>(&'a self, pos: i64) -> (r: Result<
        &'a <Self::MultiIndexBundle as MultiIndexBundleBase<T>>::ScalarSlice,
        OutOfBounds,
    >)
        ensures
            ({
                let size = self.spec_dim_size();
                if start_in_window(pos as int, size) {
                    r matches Ok(slice) && *slice == self.spec_scalar_slice(
                        wrap_index(pos as int, size),
                    )
                } else {
                    r matches Err(e) && e == start_oob(pos, size)
                }
            }),
    ;

    /// Enables accessing a mutable slice of the tensor with a scalar.
    /// Whatever the caller writes through the borrow is reflected in the
    /// container once the borrow expires; a rejected position leaves the
    /// container untouched.
    fn index_scalar_mut<'a>(&'a mut self, pos: i64) -> (r: Result<
        &'a mut <Self::MultiIndexBundle as MultiIndexBundleBase<T>>::ScalarSlice,
        OutOfBounds,
    >)
        ensures
            ({
                let size = old(self).spec_dim_size();
                if start_in_window(pos as int, size) {
                    r is Ok && *r.unwrap() == old(self).spec_scalar_slice(
                        wrap_index(pos as int, size),
                    ) && final(self).spec_dim_size() == size && final(self).spec_scalar_slice(
                        wrap_index(pos as int, size),
                    ) == *final(r.unwrap())
                } else {
                    (r matches Err(e) && e == start_oob(pos, size)) && *final(self) == *old(self)
                }
            }),
    ;

    /// Enables accessing a slice of the tensor with a range. The range is
    /// already canonical: both bounds lie in `[0, size]`.
    fn index_range<'a>(&'a self, range: CanonicalRange) -> (r: &'a <Self::MultiIndexBundle as MultiIndexBundleBase<T>>::RangeSlice)
        requires
            0 <= range.start <= self.spec_dim_size(),
            0 <= range.end <= self.spec_dim_size(),
        ensures
            *r == self.spec_range_slice(range.start as int, range.end as int),
    ;

    /// Enables accessing a mutable slice of the tensor with a range. The
    /// range is already canonical; whatever the caller writes through the
    /// borrow is what the container presents for that range once the borrow
    /// expires, and the extent of the axis is unchanged.
    fn index_range_mut<'a>(&'a mut self, range: CanonicalRange) -> (r: &'a mut <Self::MultiIndexBundle as MultiIndexBundleBase<T>>::RangeSlice)
        requires
            0 <= range.start <= old(self).spec_dim_size(),
            0 <= range.end <= old(self).spec_dim_size(),
        ensures
            *r == old(self).spec_range_slice(range.start as int, range.end as int),
            final(self).spec_dim_size() == old(self).spec_dim_size(),
            final(self).spec_range_slice(range.start as int, range.end as int) == *final(r),
    ;

    /// Current extent along the axis being indexed. A container reports a
    /// non-negative extent.
    fn get_dim_size(&self) -> (r: i64)
        ensures
            r as int == self.spec_dim_size(),
            r >= 0,
    ;
}

/// Scalar read: hands the raw, possibly negative position straight to the
/// container's scalar primitive, which validates it against the window
/// `[-size, size - 1]` and wraps a negative position to count from the end.
pub fn index_at<'a, T, TA: TensorAccessor<T>>(tensor: &'a TA, pos: i64) -> (r: Result<
    &'a <TA::MultiIndexBundle as MultiIndexBundleBase<T>>::ScalarSlice,
    OutOfBounds,
>)
    ensures
        ({
            let size = tensor.spec_dim_size();
            if start_in_window(pos as int, size) {
                r matches Ok(slice) && *slice == tensor.spec_scalar_slice(
                    wrap_index(pos as int, size),
                )
            } else {
                r matches Err(e) && e == start_oob(pos, size)
            }
        }),
{
    tensor.index_scalar(pos)
}

/// Scalar write access: like the read form, but the returned borrow is
/// exclusive, and what the caller writes through it is reflected in the
/// container.
pub fn index_at_mut<'a, T, TA: TensorAccessor<T>>(tensor: &'a mut TA, pos: i64) -> (r: Result<
    &'a mut <TA::MultiIndexBundle as MultiIndexBundleBase<T>>::ScalarSlice,
    OutOfBounds,
>)
    ensures
        ({
            let size = old(tensor).spec_dim_size();
            if start_in_window(pos as int, size) {
                r is Ok && *r.unwrap() == old(tensor).spec_scalar_slice(
                    wrap_index(pos as int, size),
                ) && final(tensor).spec_dim_size() == size && final(tensor).spec_scalar_slice(
                    wrap_index(pos as int, size),
                ) == *final(r.unwrap())
            } else {
                (r matches Err(e) && e == start_oob(pos, size)) && *final(tensor) == *old(tensor)
            }
        }),
{
    tensor.index_scalar_mut(pos)
}

/// Exact-range read `start..end`: both bounds are normalized against the
/// container's current extent and the canonical result is handed to the
/// range primitive; an illegal bound aborts the access with the same error
/// the normalizer reports, the start bound checked first.
pub fn index_exact<'a, T, TA: TensorAccessor<T>>(tensor: &'a TA, start: i64, end: i64) -> (r:
    Result<&'a <TA::MultiIndexBundle as MultiIndexBundleBase<T>>::RangeSlice, OutOfBounds>)
    ensures
        ({
            let size = tensor.spec_dim_size();
            if !start_in_window(start as int, size) {
                r matches Err(e) && e == start_oob(start, size)
            } else if !end_in_window(end as int, size) {
                r matches Err(e) && e == end_oob(end, size)
            } else {
                r matches Ok(slice) && *slice == tensor.spec_range_slice(
                    wrap_index(start as int, size),
                    wrap_index(end as int, size),
                )
            }
        }),
{
    let size = tensor.get_dim_size();
    match normalize_range(start, end, size) {
        Ok(range) => Ok(tensor.index_range(range)),
        Err(e) => Err(e),
    }
}

/// Exact-range write access `start..end`: as the read form, with an
/// exclusive borrow whose final value is reflected in the container; a
/// rejected bound leaves the container untouched.
pub fn index_exact_mut<'a, T, TA: TensorAccessor<T>>(
    tensor: &'a mut TA,
    start: i64,
    end: i64,
) -> (r: Result<&'a mut <TA::MultiIndexBundle as MultiIndexBundleBase<T>>::RangeSlice, OutOfBounds>)
    ensures
        ({
            let size = old(tensor).spec_dim_size();
            if !start_in_window(start as int, size) {
                (r matches Err(e) && e == start_oob(start, size)) && *final(tensor) == *old(tensor)
            } else if !end_in_window(end as int, size) {
                (r matches Err(e) && e == end_oob(end, size)) && *final(tensor) == *old(tensor)
            } else {
                r is Ok && *r.unwrap() == old(tensor).spec_range_slice(
                    wrap_index(start as int, size),
                    wrap_index(end as int, size),
                ) && final(tensor).spec_dim_size() == size && final(tensor).spec_range_slice(
                    wrap_index(start as int, size),
                    wrap_index(end as int, size),
                ) == *final(r.unwrap())
            }
        }),
{
    let size = tensor.get_dim_size();
    match normalize_range(start, end, size) {
        Ok(range) => Ok(tensor.index_range_mut(range)),
        Err(e) => Err(e),
    }
}

/// Open-start read `start..`: the exact-range form with the dimension size
/// substituted as the end bound, which is always legal, so only the start
/// bound can be rejected.
pub fn index_from<'a, T, TA: TensorAccessor<T>>(tensor: &'a TA, start: i64) -> (r: Result<
    &'a <TA::MultiIndexBundle as MultiIndexBundleBase<T>>::RangeSlice,
    OutOfBounds,
>)
    ensures
        ({
            let size = tensor.spec_dim_size();
            if start_in_window(start as int, size) {
                r matches Ok(slice) && *slice == tensor.spec_range_slice(
                    wrap_index(start as int, size),
                    size,
                )
            } else {
                r matches Err(e) && e == start_oob(start, size)
            }
        }),
{
    let size = tensor.get_dim_size();
    match normalize_range(start, size, size) {
        Ok(range) => Ok(tensor.index_range(range)),
        Err(e) => Err(e),
    }
}

/// Open-start write access `start..`.
pub fn index_from_mut<'a, T, TA: TensorAccessor<T>>(tensor: &'a mut TA, start: i64) -> (r: Result<
    &'a mut <TA::MultiIndexBundle as MultiIndexBundleBase<T>>::RangeSlice,
    OutOfBounds,
>)
    ensures
        ({
            let size = old(tensor).spec_dim_size();
            if start_in_window(start as int, size) {
                r is Ok && *r.unwrap() == old(tensor).spec_range_slice(
                    wrap_index(start as int, size),
                    size,
                ) && final(tensor).spec_dim_size() == size && final(tensor).spec_range_slice(
                    wrap_index(start as int, size),
                    size,
                ) == *final(r.unwrap())
            } else {
                (r matches Err(e) && e == start_oob(start, size)) && *final(tensor) == *old(tensor)
            }
        }),
{
    let size = tensor.get_dim_size();
    match normalize_range(start, size, size) {
        Ok(range) => Ok(tensor.index_range_mut(range)),
        Err(e) => Err(e),
    }
}

/// Open-end read `..end`: the exact-range form with `0` substituted as the
/// start bound. The substituted start is itself rejected on an empty
/// dimension, exactly as an explicit `0` would be.
pub fn index_to<'a, T, TA: TensorAccessor<T>>(tensor: &'a TA, end: i64) -> (r: Result<
    &'a <TA::MultiIndexBundle as MultiIndexBundleBase<T>>::RangeSlice,
    OutOfBounds,
>)
    ensures
        ({
            let size = tensor.spec_dim_size();
            if !start_in_window(0, size) {
                r matches Err(e) && e == start_oob(0, size)
            } else if !end_in_window(end as int, size) {
                r matches Err(e) && e == end_oob(end, size)
            } else {
                r matches Ok(slice) && *slice == tensor.spec_range_slice(
                    0,
                    wrap_index(end as int, size),
                )
            }
        }),
{
    let size = tensor.get_dim_size();
    match normalize_range(0, end, size) {
        Ok(range) => Ok(tensor.index_range(range)),
        Err(e) => Err(e),
    }
}

/// Open-end write access `..end`.
pub fn index_to_mut<'a, T, TA: TensorAccessor<T>>(tensor: &'a mut TA, end: i64) -> (r: Result<
    &'a mut <TA::MultiIndexBundle as MultiIndexBundleBase<T>>::RangeSlice,
    OutOfBounds,
>)
    ensures
        ({
            let size = old(tensor).spec_dim_size();
            if !start_in_window(0, size) {
                (r matches Err(e) && e == start_oob(0, size)) && *final(tensor) == *old(tensor)
            } else if !end_in_window(end as int, size) {
                (r matches Err(e) && e == end_oob(end, size)) && *final(tensor) == *old(tensor)
            } else {
                r is Ok && *r.unwrap() == old(tensor).spec_range_slice(
                    0,
                    wrap_index(end as int, size),
                ) && final(tensor).spec_dim_size() == size && final(tensor).spec_range_slice(
                    0,
                    wrap_index(end as int, size),
                ) == *final(r.unwrap())
            }
        }),
{
    let size = tensor.get_dim_size();
    match normalize_range(0, end, size) {
        Ok(range) => Ok(tensor.index_range_mut(range)),
        Err(e) => Err(e),
    }
}

/// Full-range read `..`: the whole axis, `[0, size)`. Normalization is
/// skipped — the full range is canonical already and always legal, even on
/// an empty dimension — so this access cannot fail.
pub fn index_full<'a, T, TA: TensorAccessor<T>>(tensor: &'a TA) -> (r: &'a <TA::MultiIndexBundle as MultiIndexBundleBase<T>>::RangeSlice)
    ensures
        *r == tensor.spec_range_slice(0, tensor.spec_dim_size()),
{
    let size = tensor.get_dim_size();
    tensor.index_range(CanonicalRange { start: 0, end: size })
}

/// Full-range write access `..`: cannot fail, and what the caller writes
/// through the exclusive borrow is reflected in the container.
pub fn index_full_mut<'a, T, TA: TensorAccessor<T>>(tensor: &'a mut TA) -> (r: &'a mut <TA::MultiIndexBundle as MultiIndexBundleBase<T>>::RangeSlice)
    ensures
        *r == old(tensor).spec_range_slice(0, old(tensor).spec_dim_size()),
        final(tensor).spec_dim_size() == old(tensor).spec_dim_size(),
        final(tensor).spec_range_slice(0, old(tensor).spec_dim_size()) == *final(r),
{
    let size = tensor.get_dim_size();
    tensor.index_range_mut(CanonicalRange { start: 0, end: size })
}

} // verus!
