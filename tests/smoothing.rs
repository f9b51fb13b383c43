use node_radar::smoothing::smooth_serie;

#[test]
fn radius_one_averages_consecutive_triples() {
    let pts = smooth_serie(&[10, 20, 30, 40, 50], 3);
    assert_eq!(pts, vec![(0, 20), (1, 30), (2, 40)]);
}

#[test]
fn even_window_size_uses_half_as_radius() {
    let pts = smooth_serie(&[10, 20, 30, 40, 50], 2);
    assert_eq!(pts, vec![(0, 20), (1, 30), (2, 40)]);
}

#[test]
fn series_shrinks_by_twice_the_radius() {
    let series: Vec<u64> = (0..100).collect();
    let pts = smooth_serie(&series, 10);
    assert_eq!(pts.len(), 90);
    assert_eq!(pts[0], (0, 5));
    assert_eq!(pts[89], (89, 94));
}

#[test]
fn short_series_gives_no_points() {
    assert!(smooth_serie(&[1, 2, 3, 4], 4).is_empty());
    assert!(smooth_serie(&[1, 2, 3, 4, 5], 10).is_empty());
    assert!(smooth_serie(&[], 0).is_empty());
}

#[test]
fn window_size_below_two_keeps_every_sample() {
    assert_eq!(smooth_serie(&[4, 8, 15], 1), vec![(0, 4), (1, 8), (2, 15)]);
    assert_eq!(smooth_serie(&[4, 8, 15], 0), vec![(0, 4), (1, 8), (2, 15)]);
}

#[test]
fn constant_series_smooths_to_itself() {
    let series = vec![7u64; 30];
    let pts = smooth_serie(&series, 7);
    assert_eq!(pts.len(), 24);
    assert!(pts.iter().all(|p| p.1 == 7));
}

#[test]
fn mean_rounds_down() {
    assert_eq!(smooth_serie(&[1, 1, 2], 3), vec![(0, 1)]);
}

#[test]
fn largest_samples_do_not_overflow() {
    let pts = smooth_serie(&[u64::MAX, u64::MAX, u64::MAX, u64::MAX], 3);
    assert_eq!(pts, vec![(0, u64::MAX), (1, u64::MAX)]);
}
