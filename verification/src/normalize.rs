//! Range normalization: mapping a requested range with optionally negative
//! bounds onto a canonical non-negative half-open range for a dimension of a
//! known size.

use vstd::prelude::*;

verus! {

/// A canonical half-open range `[start, end)`: both bounds already wrapped
/// into the non-negative window of the dimension they were requested against.
/// This is the only range shape a storage primitive ever receives.
#[derive(Clone, Copy, Debug, PartialEq, Eq, Structural)]
pub struct CanonicalRange {
    pub start: i64,
    pub end: i64,
}

/// The single error of this library: a requested position or range bound lay
/// outside the legal window for the current dimension size. It carries the
/// offending bound, the dimension size, and the legal inclusive window, so a
/// caller can produce an actionable message.
#[derive(Clone, Copy, Debug, PartialEq, Eq, Structural)]
pub struct OutOfBounds {
    /// The bound that was rejected, as requested (possibly negative).
    pub bound: i64,
    /// The dimension size the bound was checked against.
    pub size: i64,
    /// Smallest accepted value for this bound.
    pub window_low: i64,
    /// Largest accepted value for this bound.
    pub window_high: i64,
}

/// A start bound (or a scalar position) is legal when it lies in the
/// inclusive window `[-size, size - 1]`.
pub open spec fn start_in_window(pos: int, size: int) -> bool {
    -size <= pos < size
}

/// An end bound is legal when it lies in the inclusive window `[-size, size]`:
/// one wider than the start window, so that the exclusive end can reach past
/// the last element.
pub open spec fn end_in_window(end: int, size: int) -> bool {
    -size <= end <= size
}

/// Python-style wraparound: a negative index counts from the end of the
/// dimension, so `-1` means the last element; a non-negative index stands.
pub open spec fn wrap_index(i: int, size: int) -> int {
    if i < 0 {
        i + size
    } else {
        i
    }
}

/// The error reported for an illegal start bound or scalar position: the
/// legal inclusive window is `[-size, size - 1]`.
pub open spec fn start_oob(bound: i64, size: int) -> OutOfBounds {
    OutOfBounds {
        bound: bound,
        size: size as i64,
        window_low: (-size) as i64,
        window_high: (size - 1) as i64,
    }
}

/// The error reported for an illegal end bound: the legal inclusive window is
/// `[-size, size]`.
pub open spec fn end_oob(bound: i64, size: int) -> OutOfBounds {
    OutOfBounds {
        bound: bound,
        size: size as i64,
        window_low: (-size) as i64,
        window_high: size as i64,
    }
}

/// Maps a requested half-open range, either bound possibly negative, onto the
/// canonical non-negative form for a dimension of extent `size`, or rejects a
/// bound that lies outside its legal window. The start bound is checked
/// first, against `[-size, size - 1]`; the end bound against `[-size, size]`,
/// so `end == size` is accepted and kept, while `end == -1` wraps to
/// `size - 1` ("up to but excluding the last element").
///
/// No check that `start <= end` holds after wrapping is made: an inverted
/// pair is returned as it stands and is to be read as an empty request. This
/// choice is deliberate and is documented here so that containers can rely on
/// it.
pub fn normalize_range(start: i64, end: i64, size: i64) -> (r: Result<CanonicalRange, OutOfBounds>)
    requires
        size >= 0,
    ensures
        ({
            let s = size as int;
            if !start_in_window(start as int, s) {
                r matches Err(e) && e == start_oob(start, s)
            } else if !end_in_window(end as int, s) {
                r matches Err(e) && e == end_oob(end, s)
            } else {
                r matches Ok(c) && c.start == wrap_index(start as int, s) && c.end == wrap_index(
                    end as int,
                    s,
                )
            }
        }),
        r matches Ok(c) ==> 0 <= c.start < size && 0 <= c.end <= size,
{
    if start < -size || start >= size {
        return Err(
            OutOfBounds { bound: start, size: size, window_low: -size, window_high: size - 1 },
        );
    }
    if end < -size || end > size {
        return Err(OutOfBounds { bound: end, size: size, window_low: -size, window_high: size });
    }
    let wrapped_start: i64 = if start < 0 {
        start + size
    } else {
        start
    };
    let wrapped_end: i64 = if end < 0 {
        end + size
    } else {
        end
    };
    Ok(CanonicalRange { start: wrapped_start, end: wrapped_end })
}

/// Law: the full range request, start `0` and end `size`, is always accepted
/// for a non-empty dimension and round-trips to the canonical `[0, size)`
/// unchanged. This is also the exact-range form of the fully open request
/// `..`, with both defaults substituted.
pub proof fn lemma_full_range_round_trip(size: int)
    requires
        size > 0,
    ensures
        start_in_window(0, size),
        end_in_window(size, size),
        wrap_index(0, size) == 0,
        wrap_index(size, size) == size,
{
}

/// Law: the negative-end convention. For a non-empty dimension, the request
/// with start `0` and end `-1` is accepted and normalizes to `[0, size - 1)`:
/// all but the last element.
pub proof fn lemma_negative_end_convention(size: int)
    requires
        size > 0,
    ensures
        start_in_window(0, size),
        end_in_window(-1, size),
        wrap_index(0, size) == 0,
        wrap_index(-1, size) == size - 1,
{
}

/// Law: the open-start request `start..` is exactly the exact-range request
/// with the dimension size substituted as the end bound: that substituted end
/// is always legal and wraps to the size itself, so acceptance is decided by
/// the start bound alone.
pub proof fn lemma_open_start_matches_exact(start: int, size: int)
    requires
        size >= 0,
    ensures
        end_in_window(size, size),
        wrap_index(size, size) == size,
        (start_in_window(start, size) && end_in_window(size, size)) == start_in_window(
            start,
            size,
        ),
{
}

/// Law: the open-end request `..end` is exactly the exact-range request with
/// `0` substituted as the start bound: that substituted start wraps to `0`
/// and is legal precisely for a non-empty dimension, so acceptance is decided
/// by the end bound together with `size > 0`.
pub proof fn lemma_open_end_matches_exact(end: int, size: int)
    requires
        size >= 0,
    ensures
        wrap_index(0, size) == 0,
        (start_in_window(0, size) && end_in_window(end, size)) == (size > 0 && end_in_window(
            end,
            size,
        )),
{
}

} // verus!
