use timestamp::time_point::MAX_OFFSET_NANOS;
use timestamp::{Duration, TimePoint};

#[test]
fn range_reaches_as_far_as_a_duration() {
    assert_eq!(
        MAX_OFFSET_NANOS,
        u64::MAX as i128 * 1_000_000_000 + 999_999_999
    );
    assert!(TimePoint::from_unix_nanos(MAX_OFFSET_NANOS).is_some());
    assert!(TimePoint::from_unix_nanos(-MAX_OFFSET_NANOS).is_some());
    assert_eq!(TimePoint::from_unix_nanos(MAX_OFFSET_NANOS + 1), None);
    assert_eq!(TimePoint::from_unix_nanos(-MAX_OFFSET_NANOS - 1), None);
    assert_eq!(TimePoint::from_unix_nanos(i128::MAX), None);
    assert_eq!(TimePoint::from_unix_nanos(i128::MIN), None);
}

#[test]
fn unix_nanos_gives_the_offset_back() {
    for nanos in [0, 1, -1, 3_200_000_000, -3_200_000_000, MAX_OFFSET_NANOS, -MAX_OFFSET_NANOS] {
        assert_eq!(TimePoint::from_unix_nanos(nanos).unwrap().unix_nanos(), nanos);
    }
    assert_eq!(TimePoint::from_unix_nanos(0), Some(TimePoint::unix_epoch()));
}

#[test]
fn duration_since_epoch_tells_the_direction() {
    assert_eq!(
        TimePoint::unix_epoch().duration_since_epoch(),
        Ok(Duration::from_secs(0))
    );
    let later = TimePoint::from_unix_nanos(3_200_000_000).unwrap();
    assert_eq!(later.duration_since_epoch(), Ok(Duration::from_millis(3_200)));
    let earlier = TimePoint::from_unix_nanos(-200_000_000).unwrap();
    assert_eq!(earlier.duration_since_epoch(), Err(Duration::from_millis(200)));
    let first = TimePoint::from_unix_nanos(-MAX_OFFSET_NANOS).unwrap();
    assert_eq!(
        first.duration_since_epoch(),
        Err(Duration::new(u64::MAX, 999_999_999).unwrap())
    );
    let last = TimePoint::from_unix_nanos(MAX_OFFSET_NANOS).unwrap();
    assert_eq!(
        last.duration_since_epoch(),
        Ok(Duration::new(u64::MAX, 999_999_999).unwrap())
    );
}

#[test]
fn checked_add_moves_later() {
    let t = TimePoint::from_unix_nanos(-200_000_000).unwrap();
    let moved = t.checked_add(Duration::from_millis(3_400)).unwrap();
    assert_eq!(moved.unix_nanos(), 3_200_000_000);
    let last = TimePoint::from_unix_nanos(MAX_OFFSET_NANOS).unwrap();
    assert_eq!(last.checked_add(Duration::from_nanos(1)), None);
    assert_eq!(last.checked_add(Duration::from_secs(0)), Some(last));
    let first = TimePoint::from_unix_nanos(-MAX_OFFSET_NANOS).unwrap();
    let span = Duration::new(u64::MAX, 999_999_999).unwrap();
    assert_eq!(first.checked_add(span), Some(TimePoint::unix_epoch()));
}

#[test]
fn checked_sub_moves_earlier() {
    let t = TimePoint::from_unix_nanos(200_000_000).unwrap();
    let moved = t.checked_sub(Duration::from_millis(3_400)).unwrap();
    assert_eq!(moved.unix_nanos(), -3_200_000_000);
    let first = TimePoint::from_unix_nanos(-MAX_OFFSET_NANOS).unwrap();
    assert_eq!(first.checked_sub(Duration::from_nanos(1)), None);
    assert_eq!(first.checked_sub(Duration::from_secs(0)), Some(first));
    let last = TimePoint::from_unix_nanos(MAX_OFFSET_NANOS).unwrap();
    let span = Duration::new(u64::MAX, 999_999_999).unwrap();
    assert_eq!(last.checked_sub(span), Some(TimePoint::unix_epoch()));
}

#[test]
fn time_points_order_from_earlier_to_later() {
    let before = TimePoint::from_unix_nanos(-1).unwrap();
    let epoch = TimePoint::unix_epoch();
    let after = TimePoint::from_unix_nanos(1).unwrap();
    assert!(before < epoch);
    assert!(epoch < after);
    assert!(before < after);
    assert!(epoch <= TimePoint::from_unix_nanos(0).unwrap());
}

#[test]
fn time_point_order_agrees_with_sorting() {
    let mut points: Vec<TimePoint> = [5, -3, 0, MAX_OFFSET_NANOS, -MAX_OFFSET_NANOS, 1_000_000_000]
        .iter()
        .map(|n| TimePoint::from_unix_nanos(*n).unwrap())
        .collect();
    points.sort();
    let offsets: Vec<i128> = points.iter().map(|t| t.unix_nanos()).collect();
    assert_eq!(
        offsets,
        vec![-MAX_OFFSET_NANOS, -3, 0, 5, 1_000_000_000, MAX_OFFSET_NANOS]
    );
    for pair in points.windows(2) {
        assert_eq!(pair[0].partial_cmp(&pair[1]), Some(pair[0].cmp(&pair[1])));
        assert!(pair[0] < pair[1]);
    }
    assert_eq!(
        TimePoint::unix_epoch().partial_cmp(&TimePoint::from_unix_nanos(0).unwrap()),
        Some(std::cmp::Ordering::Equal)
    );
}
