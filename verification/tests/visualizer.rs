use audio_visualizer::amplitude::amplitude_of_sample;
use audio_visualizer::amplitude::extract_block;
use audio_visualizer::geometry::derive_geometry;
use audio_visualizer::state::AmpState;
use audio_visualizer::state::Channel;

#[test]
fn fresh_state_reads_zero() {
    let st = AmpState::new();
    assert_eq!(st.snapshot(), (0, 0));
}

#[test]
fn last_write_wins_per_channel() {
    let mut st = AmpState::new();
    st.publish(Channel::Left, 1);
    st.publish(Channel::Right, 2);
    st.publish(Channel::Left, 3);
    assert_eq!(st.snapshot(), (3, 2));
    st.publish(Channel::Right, 9);
    assert_eq!(st.snapshot(), (3, 9));
}

#[test]
fn snapshot_is_idempotent() {
    let mut st = AmpState::new();
    st.publish(Channel::Left, 123);
    st.publish(Channel::Right, 456);
    let first = st.snapshot();
    let second = st.snapshot();
    assert_eq!(first, second);
    assert_eq!(first, (123, 456));
}

#[test]
fn channels_are_independently_current() {
    let mut st = AmpState::new();
    st.publish(Channel::Left, 100);
    st.publish(Channel::Left, 250);
    assert_eq!(st.snapshot(), (250, 0));

    let mut st2 = AmpState::new();
    st2.publish(Channel::Right, 7);
    st2.publish(Channel::Left, 1);
    st2.publish(Channel::Left, 2);
    assert_eq!(st2.snapshot(), (2, 7));
}

#[test]
fn amplitude_is_magnitude_times_gain() {
    // A raw sample of 0.05 full scale is 50 thousandths; with the gain of
    // 10000 it publishes as 500 pixels, i.e. 500000 thousandths.
    assert_eq!(amplitude_of_sample(50), 500_000);
    assert_eq!(amplitude_of_sample(-50), 500_000);
    assert_eq!(amplitude_of_sample(0), 0);
    assert_eq!(amplitude_of_sample(1), 10_000);
}

#[test]
fn amplitude_handles_extreme_samples() {
    assert_eq!(amplitude_of_sample(i32::MAX), 2_147_483_647u64 * 10_000);
    assert_eq!(amplitude_of_sample(i32::MIN), 2_147_483_648u64 * 10_000);
}

#[test]
fn short_block_publishes_nothing() {
    let mut st = AmpState::new();
    st.publish(Channel::Left, 11);
    st.publish(Channel::Right, 22);
    extract_block(&Vec::new(), 2, &mut st);
    assert_eq!(st.snapshot(), (11, 22));
    extract_block(&vec![42], 2, &mut st);
    assert_eq!(st.snapshot(), (11, 22));
}

#[test]
fn small_block_publishes_first_frame() {
    let mut st = AmpState::new();
    extract_block(&vec![50, -30, 7], 2, &mut st);
    assert_eq!(st.snapshot(), (500_000, 300_000));
}

#[test]
fn long_block_keeps_last_chunk() {
    // With 2 channels the sub-chunk size is 2 * 800 = 1600 samples, so a
    // block of 3300 samples has sub-chunks starting at 0, 1600 and 3200,
    // and the pair published last comes from samples 3200 and 3201.
    let mut samples: Vec<i32> = vec![1; 3300];
    samples[0] = 10;
    samples[1] = 20;
    samples[1600] = 30;
    samples[1601] = 40;
    samples[3200] = 50;
    samples[3201] = -60;
    let mut st = AmpState::new();
    extract_block(&samples, 2, &mut st);
    assert_eq!(st.snapshot(), (500_000, 600_000));
}

#[test]
fn extra_channels_are_ignored() {
    // Three channels: only the first two samples of the sub-chunk's first
    // frame are consumed.
    let mut st = AmpState::new();
    extract_block(&vec![10, -20, 9999, 8, 8, 8], 3, &mut st);
    assert_eq!(st.snapshot(), (100_000, 200_000));
}

#[test]
fn silent_screen_geometry() {
    let g = derive_geometry(800, 600, 0, 0);
    assert_eq!(g.right_bar_start_x_milli, 420_000);
    assert_eq!(g.left_bar_start_x_milli, 180_000);
    assert_eq!(g.bar_width_milli, 200_000);
    assert_eq!(g.max_bar_height_milli, 450_000);
    assert_eq!(g.left_bar_y_milli, 500_000);
    assert_eq!(g.right_bar_y_milli, 500_000);
    assert_eq!(g.left_bar_height_milli, 0);
    assert_eq!(g.right_bar_height_milli, 0);
}

#[test]
fn full_column_geometry() {
    // An amplitude equal to the tallest drawable bar fills the column from
    // its top edge down.
    let g = derive_geometry(800, 600, 450_000, 0);
    assert_eq!(g.left_bar_y_milli, 50_000);
    assert_eq!(g.left_bar_height_milli, 450_000);
    assert_eq!(g.right_bar_y_milli, 500_000);
    assert_eq!(g.right_bar_height_milli, 0);
}

#[test]
fn oversized_amplitude_is_clipped() {
    let g = derive_geometry(800, 600, 600_000, u64::MAX);
    assert_eq!(g.left_bar_y_milli, 50_000);
    assert_eq!(g.left_bar_height_milli, 450_000);
    assert_eq!(g.right_bar_y_milli, 50_000);
    assert_eq!(g.right_bar_height_milli, 450_000);
}

#[test]
fn bar_grows_upward_with_amplitude() {
    let low = derive_geometry(800, 600, 100_000, 0);
    let high = derive_geometry(800, 600, 200_000, 0);
    assert!(high.left_bar_y_milli < low.left_bar_y_milli);
    assert!(high.left_bar_height_milli > low.left_bar_height_milli);
}

#[test]
fn odd_screen_sizes_stay_exact() {
    // 801 wide: half the width is 400.5 pixels, exactly 400500 thousandths;
    // 601 high: three quarters is 450.75 pixels, exactly 450750 thousandths.
    let g = derive_geometry(801, 601, 0, 0);
    assert_eq!(g.right_bar_start_x_milli, 420_500);
    assert_eq!(g.max_bar_height_milli, 450_750);
}

#[test]
fn narrow_screen_puts_left_bar_off_screen() {
    // 100 pixels wide: the left bar starts 170 pixels left of the screen,
    // which the signed fixed-point coordinates represent without wrapping.
    let g = derive_geometry(100, 600, 0, 0);
    assert_eq!(g.right_bar_start_x_milli, 70_000);
    assert_eq!(g.left_bar_start_x_milli, -170_000);
}

#[test]
fn capture_to_render_round_trip() {
    // One block through the extractor, then the render side's view of it.
    let mut st = AmpState::new();
    extract_block(&vec![45, -30, 0, 0], 2, &mut st);
    let (left, right) = st.snapshot();
    let g = derive_geometry(800, 600, left, right);
    assert_eq!(g.left_bar_height_milli, 450_000);
    assert_eq!(g.left_bar_y_milli, 50_000);
    assert_eq!(g.right_bar_height_milli, 300_000);
    assert_eq!(g.right_bar_y_milli, 200_000);
}
