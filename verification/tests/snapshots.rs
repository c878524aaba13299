use fls::channel::{Cmd, TryRecv};
use fls::trace::{plot_points, Break, Trace};
use fls::viewer::{Lost, FLS, REPAINT_AFTER_MS};

fn trace(count: usize, effective_fft_size: usize) -> Trace<[f64; 2]> {
    Trace { breaks: vec![Break { count, effective_fft_size }], psd: vec![[0.5, -3.0]] }
}

#[test]
fn plot_points_drop_the_last_pair_and_reverse() {
    let f = [0.5f32, 0.25, 0.125, 0.0];
    let p = [1.0f32, 2.0, 3.0, 4.0];
    assert_eq!(plot_points(&f, &p), vec![(0.125, 3.0), (0.25, 2.0), (0.5, 1.0)]);
}

#[test]
fn plot_points_of_unequal_lengths_pair_as_far_as_both_reach() {
    let f = [40u32, 30, 20, 10, 0];
    let p = [1u8, 2, 3];
    assert_eq!(plot_points(&f, &p), vec![(30, 2), (40, 1)]);
    assert_eq!(plot_points(&p, &f), vec![(2, 30), (1, 40)]);
}

#[test]
fn plot_points_of_nothing_or_of_the_zero_term_alone_are_empty() {
    let none: [u32; 0] = [];
    assert_eq!(plot_points(&none, &none), vec![]);
    assert_eq!(plot_points(&[0u32], &[9u32]), vec![]);
    assert_eq!(plot_points(&[1u32, 0], &none), vec![]);
}

#[test]
fn plot_points_of_two_pairs_keep_the_first() {
    assert_eq!(plot_points(&[8u32, 0], &[5u32, 6]), vec![(8, 5)]);
}

#[test]
fn samples_are_count_times_size() {
    assert_eq!(Break { count: 3, effective_fft_size: 512 }.samples(), 1536);
    assert_eq!(Break { count: 0, effective_fft_size: 512 }.samples(), 0);
    assert_eq!(
        Break { count: usize::MAX, effective_fft_size: usize::MAX }.samples(),
        (usize::MAX as u128) * (usize::MAX as u128)
    );
}

#[test]
fn viewer_starts_empty() {
    let viewer: FLS<[f64; 2]> = FLS::new();
    assert!(viewer.current().is_none());
    assert_eq!(viewer.samples(), None);
}

#[test]
fn viewer_commands() {
    let viewer: FLS<[f64; 2]> = FLS::new();
    assert_eq!(viewer.on_exit(), Cmd::Exit);
    assert_eq!(viewer.on_reset(), Cmd::Reset);
}

#[test]
fn viewer_takes_a_snapshot_and_asks_for_a_repaint() {
    let mut viewer: FLS<[f64; 2]> = FLS::new();
    assert_eq!(REPAINT_AFTER_MS, 100);
    assert_eq!(viewer.update(TryRecv::Empty), Ok(None));
    assert!(viewer.current().is_none());
    assert_eq!(viewer.update(TryRecv::Item(vec![trace(7, 256), trace(1, 1)])), Ok(Some(100)));
    assert_eq!(viewer.current().as_ref().unwrap().len(), 2);
    assert_eq!(viewer.samples(), Some(1792));
    assert_eq!(viewer.update(TryRecv::Empty), Ok(None));
    assert_eq!(viewer.samples(), Some(1792));
    assert_eq!(viewer.update(TryRecv::Item(vec![trace(2, 8)])), Ok(Some(100)));
    assert_eq!(viewer.samples(), Some(16));
}

#[test]
fn viewer_reports_a_lost_acquisition_and_keeps_its_snapshot() {
    let mut viewer: FLS<[f64; 2]> = FLS::new();
    assert_eq!(viewer.update(TryRecv::Disconnected), Err(Lost));
    assert!(viewer.current().is_none());
    assert_eq!(viewer.update(TryRecv::Item(vec![trace(2, 8)])), Ok(Some(100)));
    assert_eq!(viewer.update(TryRecv::Disconnected), Err(Lost));
    assert_eq!(viewer.samples(), Some(16));
}

#[test]
fn viewer_has_no_samples_without_a_window() {
    let mut viewer: FLS<[f64; 2]> = FLS::new();
    assert!(viewer.update(TryRecv::Item(vec![])).is_ok());
    assert_eq!(viewer.samples(), None);
    let windowless = Trace { breaks: vec![], psd: vec![] };
    assert!(viewer.update(TryRecv::Item(vec![windowless, trace(3, 3)])).is_ok());
    assert_eq!(viewer.samples(), None);
}
