use tensor_indexing::CanonicalRange;
use tensor_indexing::OutOfBounds;
use tensor_indexing::mark::MarkAxis;
use tensor_indexing::mark::MarkTensor;
use tensor_indexing::mark::PosMark;
use tensor_indexing::mark::SpanMark;
use tensor_indexing::normalize_range;
use tensor_indexing::tensor_accessor::index_at;
use tensor_indexing::tensor_accessor::index_at_mut;
use tensor_indexing::tensor_accessor::index_exact;
use tensor_indexing::tensor_accessor::index_exact_mut;
use tensor_indexing::tensor_accessor::index_from;
use tensor_indexing::tensor_accessor::index_from_mut;
use tensor_indexing::tensor_accessor::index_full;
use tensor_indexing::tensor_accessor::index_full_mut;
use tensor_indexing::tensor_accessor::index_to;
use tensor_indexing::tensor_accessor::index_to_mut;
use tensor_indexing::tensor_trait::TensorTrait;

#[test]
fn normalize_exact_range() {
    assert_eq!(normalize_range(1, 3, 5), Ok(CanonicalRange { start: 1, end: 3 }));
    assert_eq!(normalize_range(0, 5, 5), Ok(CanonicalRange { start: 0, end: 5 }));
    assert_eq!(normalize_range(4, 4, 5), Ok(CanonicalRange { start: 4, end: 4 }));
}

#[test]
fn normalize_wraps_negative_bounds() {
    assert_eq!(normalize_range(-2, 5, 5), Ok(CanonicalRange { start: 3, end: 5 }));
    assert_eq!(normalize_range(-5, -1, 5), Ok(CanonicalRange { start: 0, end: 4 }));
    assert_eq!(normalize_range(-1, 5, 5), Ok(CanonicalRange { start: 4, end: 5 }));
}

#[test]
fn normalize_start_out_of_window() {
    let expected = OutOfBounds { bound: 5, size: 5, window_low: -5, window_high: 4 };
    assert_eq!(normalize_range(5, 5, 5), Err(expected));
    let expected_low = OutOfBounds { bound: -6, size: 5, window_low: -5, window_high: 4 };
    assert_eq!(normalize_range(-6, 5, 5), Err(expected_low));
}

#[test]
fn normalize_end_out_of_window() {
    let expected = OutOfBounds { bound: 6, size: 5, window_low: -5, window_high: 5 };
    assert_eq!(normalize_range(0, 6, 5), Err(expected));
    let expected_low = OutOfBounds { bound: -6, size: 5, window_low: -5, window_high: 5 };
    assert_eq!(normalize_range(0, -6, 5), Err(expected_low));
}

#[test]
fn normalize_checks_start_first() {
    let expected = OutOfBounds { bound: 7, size: 5, window_low: -5, window_high: 4 };
    assert_eq!(normalize_range(7, 9, 5), Err(expected));
}

#[test]
fn normalize_rejects_everything_on_empty_dimension() {
    let expected = OutOfBounds { bound: 0, size: 0, window_low: 0, window_high: -1 };
    assert_eq!(normalize_range(0, 0, 0), Err(expected));
}

#[test]
fn normalize_full_range_round_trip() {
    let mut size: i64 = 1;
    while size <= 6 {
        assert_eq!(normalize_range(0, size, size), Ok(CanonicalRange { start: 0, end: size }));
        size += 1;
    }
}

#[test]
fn normalize_negative_end_convention() {
    let mut size: i64 = 1;
    while size <= 6 {
        assert_eq!(
            normalize_range(0, -1, size),
            Ok(CanonicalRange { start: 0, end: size - 1 })
        );
        size += 1;
    }
}

#[test]
fn normalize_keeps_inverted_pair() {
    assert_eq!(normalize_range(3, 1, 5), Ok(CanonicalRange { start: 3, end: 1 }));
    assert_eq!(normalize_range(-1, 0, 5), Ok(CanonicalRange { start: 4, end: 0 }));
}

#[test]
fn scalar_read_passes_raw_position() {
    let axis = MarkAxis::new(5);
    assert_eq!(index_at::<i64, MarkAxis>(&axis, 2), Ok(&PosMark { pos: 2 }));
}

#[test]
fn scalar_read_wraps_negative_position() {
    let axis = MarkAxis::new(5);
    assert_eq!(index_at::<i64, MarkAxis>(&axis, -1), Ok(&PosMark { pos: 4 }));
}

#[test]
fn scalar_read_out_of_window() {
    let axis = MarkAxis::new(5);
    let expected = OutOfBounds { bound: 5, size: 5, window_low: -5, window_high: 4 };
    assert_eq!(index_at::<i64, MarkAxis>(&axis, 5), Err(expected));
}

#[test]
fn exact_range_read_reaches_primitive_canonicalized() {
    let axis = MarkAxis::new(5);
    assert_eq!(
        index_exact::<i64, MarkAxis>(&axis, 1, 3),
        Ok(&SpanMark { start: 1, end: 3 })
    );
}

#[test]
fn open_start_read_substitutes_size_as_end() {
    let axis = MarkAxis::new(5);
    assert_eq!(index_from::<i64, MarkAxis>(&axis, -2), Ok(&SpanMark { start: 3, end: 5 }));
}

#[test]
fn open_end_read_substitutes_zero_as_start() {
    let axis = MarkAxis::new(5);
    assert_eq!(index_to::<i64, MarkAxis>(&axis, -1), Ok(&SpanMark { start: 0, end: 4 }));
}

#[test]
fn full_read_skips_normalization() {
    let axis = MarkAxis::new(5);
    assert_eq!(index_full::<i64, MarkAxis>(&axis), &SpanMark { start: 0, end: 5 });
}

#[test]
fn full_read_accepts_empty_dimension() {
    let axis = MarkAxis::new(0);
    assert_eq!(index_full::<i64, MarkAxis>(&axis), &SpanMark { start: 0, end: 0 });
}

#[test]
fn open_end_rejected_on_empty_dimension() {
    let axis = MarkAxis::new(0);
    let expected = OutOfBounds { bound: 0, size: 0, window_low: 0, window_high: -1 };
    assert_eq!(index_to::<i64, MarkAxis>(&axis, 0), Err(expected));
}

#[test]
fn open_forms_match_exact_form_with_defaults() {
    let axis = MarkAxis::new(5);
    let starts: [i64; 4] = [-5, -1, 0, 4];
    for start in starts {
        assert_eq!(
            index_from::<i64, MarkAxis>(&axis, start),
            index_exact::<i64, MarkAxis>(&axis, start, 5)
        );
    }
    let ends: [i64; 4] = [-5, -1, 0, 5];
    for end in ends {
        assert_eq!(
            index_to::<i64, MarkAxis>(&axis, end),
            index_exact::<i64, MarkAxis>(&axis, 0, end)
        );
    }
    assert_eq!(
        Ok(index_full::<i64, MarkAxis>(&axis)),
        index_exact::<i64, MarkAxis>(&axis, 0, 5)
    );
    assert_eq!(
        index_from::<i64, MarkAxis>(&axis, 6),
        index_exact::<i64, MarkAxis>(&axis, 6, 5)
    );
    assert_eq!(
        index_to::<i64, MarkAxis>(&axis, 6),
        index_exact::<i64, MarkAxis>(&axis, 0, 6)
    );
}

#[test]
fn scalar_write_reaches_storage() {
    let mut axis = MarkAxis::new(5);
    let mark = index_at_mut::<i64, MarkAxis>(&mut axis, -1).unwrap();
    mark.pos = 40;
    assert_eq!(index_at::<i64, MarkAxis>(&axis, 4), Ok(&PosMark { pos: 40 }));
}

#[test]
fn scalar_write_out_of_window_leaves_container() {
    let mut axis = MarkAxis::new(5);
    let expected = OutOfBounds { bound: -6, size: 5, window_low: -5, window_high: 4 };
    assert_eq!(index_at_mut::<i64, MarkAxis>(&mut axis, -6), Err(expected));
    assert_eq!(index_at::<i64, MarkAxis>(&axis, 0), Ok(&PosMark { pos: 0 }));
}

#[test]
fn exact_range_write_reaches_storage() {
    let mut axis = MarkAxis::new(5);
    let mark = index_exact_mut::<i64, MarkAxis>(&mut axis, 1, 3).unwrap();
    mark.start = 10;
    assert_eq!(
        index_exact::<i64, MarkAxis>(&axis, 1, 3),
        Ok(&SpanMark { start: 10, end: 3 })
    );
    assert_eq!(
        index_exact::<i64, MarkAxis>(&axis, 1, 4),
        Ok(&SpanMark { start: 1, end: 4 })
    );
}

#[test]
fn exact_range_write_rejected_bound() {
    let mut axis = MarkAxis::new(5);
    let expected = OutOfBounds { bound: 6, size: 5, window_low: -5, window_high: 5 };
    assert_eq!(index_exact_mut::<i64, MarkAxis>(&mut axis, 0, 6), Err(expected));
}

#[test]
fn open_start_write_reaches_storage() {
    let mut axis = MarkAxis::new(5);
    let mark = index_from_mut::<i64, MarkAxis>(&mut axis, -2).unwrap();
    mark.end = 50;
    assert_eq!(
        index_from::<i64, MarkAxis>(&axis, -2),
        Ok(&SpanMark { start: 3, end: 50 })
    );
}

#[test]
fn open_end_write_reaches_storage() {
    let mut axis = MarkAxis::new(5);
    let mark = index_to_mut::<i64, MarkAxis>(&mut axis, -1).unwrap();
    mark.end = 40;
    assert_eq!(index_to::<i64, MarkAxis>(&axis, -1), Ok(&SpanMark { start: 0, end: 40 }));
}

#[test]
fn full_write_reaches_storage() {
    let mut axis = MarkAxis::new(5);
    let mark = index_full_mut::<i64, MarkAxis>(&mut axis);
    mark.start = 30;
    assert_eq!(index_full::<i64, MarkAxis>(&axis), &SpanMark { start: 30, end: 5 });
}

#[test]
fn tensor_hands_out_its_accessor() {
    let tensor = MarkTensor::new(5);
    let accessor = tensor.get_accessor();
    assert_eq!(
        index_exact::<i64, MarkAxis>(accessor, 1, 3),
        Ok(&SpanMark { start: 1, end: 3 })
    );
}

#[test]
fn tensor_hands_out_its_mutable_accessor() {
    let mut tensor = MarkTensor::new(5);
    let accessor = tensor.get_mut_accessor();
    let mark = index_exact_mut::<i64, MarkAxis>(accessor, 1, 3).unwrap();
    mark.end = 30;
    assert_eq!(
        index_exact::<i64, MarkAxis>(tensor.get_accessor(), 1, 3),
        Ok(&SpanMark { start: 1, end: 30 })
    );
}
