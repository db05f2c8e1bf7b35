//! Padding, windows, trend windows and frames on small series.

use spectral_residual::convolver::{padding, Windows};
use spectral_residual::error::DetectError;
use spectral_residual::extrapolator::{extend, index_gap, plan, GradientPair, TrendWindow};
use spectral_residual::layout::{frame, trim};
use spectral_residual::sample::Sample;

fn series(values: &[u32]) -> Vec<Sample> {
    values.iter().map(|b| Sample { bits: *b }).collect()
}

fn raw(samples: &[Sample]) -> Vec<u32> {
    samples.iter().map(|s| s.bits).collect()
}

#[test]
fn padding_splits_the_window_around_its_centre() {
    assert_eq!(padding(1), (0, 0));
    assert_eq!(padding(2), (0, 1));
    assert_eq!(padding(3), (1, 1));
    assert_eq!(padding(4), (1, 2));
    assert_eq!(padding(5), (2, 2));
    assert_eq!(padding(21), (10, 10));
    for w in 1..200 {
        let (left, right) = padding(w);
        assert_eq!(left + right + 1, w);
        assert!(left <= right && right <= left + 1);
    }
}

#[test]
fn windows_of_an_odd_width() {
    let windows = Windows::over(&series(&[1, 2, 3, 4, 5]), 3);
    assert_eq!(windows.len(), 5);
    assert_eq!(windows.width(), 3);
    assert_eq!(raw(windows.window(0)), vec![0, 1, 2]);
    assert_eq!(raw(windows.window(1)), vec![1, 2, 3]);
    assert_eq!(raw(windows.window(4)), vec![4, 5, 0]);
}

#[test]
fn windows_of_an_even_width_lean_to_the_right() {
    let windows = Windows::over(&series(&[1, 2, 3, 4, 5]), 4);
    assert_eq!(windows.len(), 5);
    assert_eq!(raw(windows.window(0)), vec![0, 1, 2, 3]);
    assert_eq!(raw(windows.window(2)), vec![2, 3, 4, 5]);
    assert_eq!(raw(windows.window(3)), vec![3, 4, 5, 0]);
    assert_eq!(raw(windows.window(4)), vec![4, 5, 0, 0]);
}

#[test]
fn windows_wider_than_the_series() {
    let windows = Windows::over(&series(&[7, 9]), 5);
    assert_eq!(windows.len(), 2);
    assert_eq!(raw(windows.window(0)), vec![0, 0, 7, 9, 0]);
    assert_eq!(raw(windows.window(1)), vec![0, 7, 9, 0, 0]);
}

#[test]
fn windows_over_nothing() {
    for w in 1..6 {
        assert_eq!(Windows::over(&[], w).len(), 0);
    }
}

#[test]
fn there_is_one_window_per_sample() {
    let data = series(&[3, 1, 4, 1, 5, 9, 2, 6, 5, 3, 5]);
    for n in 0..=data.len() {
        for w in 1..=30 {
            let windows = Windows::over(&data[..n], w);
            assert_eq!(windows.len(), n);
            for i in 0..n {
                assert_eq!(windows.window(i).len(), w);
            }
        }
    }
}

#[test]
fn the_gap_forwards_is_the_distance() {
    assert_eq!(index_gap(1, 4), 3);
    assert_eq!(index_gap(0, usize::MAX), usize::MAX);
}

#[test]
fn the_gap_backwards_wraps() {
    assert_eq!(index_gap(4, 1), usize::MAX - 2);
    assert_eq!(index_gap(4, 3), usize::MAX);
    assert_eq!(index_gap(4, 1), 1usize.wrapping_sub(4));
    assert_eq!(index_gap(usize::MAX, 0), 1);
}

#[test]
fn a_plan_without_extension_asks_for_nothing() {
    assert_eq!(plan(5, 3, 0), Ok(None));
    assert_eq!(plan(5, 0, 0), Ok(None));
    assert_eq!(plan(5, 77, 0), Ok(None));
    assert_eq!(plan(0, 3, 0), Ok(None));
}

#[test]
fn a_plan_over_fewer_points_than_the_series_has() {
    assert_eq!(
        plan(5, 3, 2),
        Ok(Some(TrendWindow { first: 1, last: 4, anchor: 2, steps: 3 }))
    );
    assert_eq!(
        plan(5, 1, 1),
        Ok(Some(TrendWindow { first: 3, last: 4, anchor: 4, steps: 1 }))
    );
    assert_eq!(
        plan(5, 4, 9),
        Ok(Some(TrendWindow { first: 0, last: 4, anchor: 1, steps: 4 }))
    );
}

#[test]
fn a_plan_over_the_whole_series_pairs_nothing() {
    let window = plan(5, 5, 3).unwrap().unwrap();
    assert_eq!(window, TrendWindow { first: 4, last: 4, anchor: 0, steps: 5 });
    assert!(window.pairs().is_empty());
}

#[test]
fn a_plan_is_refused_without_enough_history() {
    assert_eq!(
        plan(5, 6, 1),
        Err(DetectError::InsufficientHistory { needed: 6, available: 5 })
    );
    assert_eq!(
        plan(0, 1, 1),
        Err(DetectError::InsufficientHistory { needed: 1, available: 0 })
    );
    assert_eq!(plan(5, 0, 1), Err(DetectError::EmptyHistory));
    assert_eq!(plan(0, 0, 1), Err(DetectError::EmptyHistory));
}

#[test]
fn the_pairs_look_back_from_the_last_position() {
    let window = plan(5, 3, 2).unwrap().unwrap();
    assert_eq!(
        window.pairs(),
        vec![
            GradientPair { x1: 4, x2: 1, gap: usize::MAX - 2 },
            GradientPair { x1: 4, x2: 2, gap: usize::MAX - 1 },
            GradientPair { x1: 4, x2: 3, gap: usize::MAX },
        ]
    );
}

#[test]
fn a_window_turned_around_has_no_pairs() {
    let window = TrendWindow { first: 3, last: 1, anchor: 0, steps: 2 };
    assert!(window.pairs().is_empty());
}

#[test]
fn extend_puts_the_value_on_both_sides() {
    let data = series(&[1, 2, 3, 4, 5]);
    assert_eq!(
        raw(&extend(&data, Sample { bits: 3 }, 2)),
        vec![3, 3, 1, 2, 3, 4, 5, 3, 3]
    );
    assert_eq!(raw(&extend(&data, Sample { bits: 3 }, 0)), vec![1, 2, 3, 4, 5]);
    assert_eq!(raw(&extend(&[], Sample { bits: 8 }, 1)), vec![8, 8]);
}

#[test]
fn frame_and_trim_undo_each_other() {
    let data = series(&[10, 20, 30]);
    let framed = frame(&data, Sample { bits: 7 }, 2, 4);
    assert_eq!(raw(&framed), vec![7, 7, 10, 20, 30, 7, 7, 7, 7]);
    assert_eq!(raw(&trim(&framed, 2, 3)), vec![10, 20, 30]);
    assert_eq!(raw(&trim(&framed, 0, 0)), Vec::<u32>::new());
    assert_eq!(raw(&trim(&framed, 8, 1)), vec![7]);
}
