use augustinus::stats::streak_len;

#[test]
fn streak_counts_leading_positive_days() {
    assert_eq!(streak_len(&vec![5, 1, 0, 3]), 2);
    assert_eq!(streak_len(&vec![]), 0);
    assert_eq!(streak_len(&vec![0]), 0);
    assert_eq!(streak_len(&vec![1, 1, 1]), 3);
    assert_eq!(streak_len(&vec![-2, 7]), 0);
}
