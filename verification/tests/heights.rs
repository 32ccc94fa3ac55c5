use monero_rpc::height::{translate_height_range, HeightBound, HeightRange};

#[test]
fn inclusive_range_steps_start_down() {
    // the node's min bound is exclusive, its max bound inclusive
    let f = translate_height_range(HeightRange {
        start: HeightBound::Included(5),
        end: HeightBound::Included(10),
    });
    assert!(f.filter_by_height);
    assert_eq!(f.min_height, Some(4));
    assert_eq!(f.max_height, Some(10));
}

#[test]
fn half_open_range_steps_both_down() {
    let f = translate_height_range(HeightRange {
        start: HeightBound::Included(5),
        end: HeightBound::Excluded(10),
    });
    assert!(f.filter_by_height);
    assert_eq!(f.min_height, Some(4));
    assert_eq!(f.max_height, Some(9));
}

#[test]
fn unbounded_start_emits_no_min() {
    let f = translate_height_range(HeightRange {
        start: HeightBound::Unbounded,
        end: HeightBound::Excluded(10),
    });
    assert!(f.filter_by_height);
    assert_eq!(f.min_height, None);
    assert_eq!(f.max_height, Some(9));
}

#[test]
fn unbounded_end_emits_no_max() {
    let f = translate_height_range(HeightRange {
        start: HeightBound::Included(5),
        end: HeightBound::Unbounded,
    });
    assert!(f.filter_by_height);
    assert_eq!(f.min_height, Some(4));
    assert_eq!(f.max_height, None);
}

#[test]
fn fully_unbounded_range_still_sets_flag() {
    let f = translate_height_range(HeightRange {
        start: HeightBound::Unbounded,
        end: HeightBound::Unbounded,
    });
    assert!(f.filter_by_height);
    assert_eq!(f.min_height, None);
    assert_eq!(f.max_height, None);
}

#[test]
fn excluded_zero_end_saturates() {
    let f = translate_height_range(HeightRange {
        start: HeightBound::Unbounded,
        end: HeightBound::Excluded(0),
    });
    assert_eq!(f.max_height, Some(0));
}

#[test]
fn excluded_start_passes_through() {
    let f = translate_height_range(HeightRange {
        start: HeightBound::Excluded(7),
        end: HeightBound::Included(9),
    });
    assert_eq!(f.min_height, Some(7));
    assert_eq!(f.max_height, Some(9));
}
