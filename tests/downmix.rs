use native_tools::downmix::take_channel;

#[test]
fn mono_buffer_is_unchanged() {
    let mono: Vec<f32> = vec![0.5, -0.5, 1.0, -1.0];
    assert_eq!(take_channel(&mono, 1, 0), mono);
    // A channel count of zero is treated as mono too.
    assert_eq!(take_channel(&mono, 0, 0), mono);
    let empty: Vec<f32> = Vec::new();
    assert_eq!(take_channel(&empty, 1, 0), empty);
}

#[test]
fn stereo_takes_the_chosen_channel() {
    let stereo: Vec<f32> = vec![0.8, 0.2, -0.6, -0.4];
    assert_eq!(take_channel(&stereo, 2, 0), vec![0.8, -0.6]);
    assert_eq!(take_channel(&stereo, 2, 1), vec![0.2, -0.4]);
}

#[test]
fn quad_single_frame() {
    let quad: Vec<f32> = vec![1.0, 0.5, 0.25, 0.25];
    assert_eq!(take_channel(&quad, 4, 0), vec![1.0]);
    assert_eq!(take_channel(&quad, 4, 3), vec![0.25]);
}

#[test]
fn trailing_partial_frame_is_dropped() {
    let samples: Vec<f32> = vec![0.8, 0.2, -0.6, -0.4, 1.0];
    assert_eq!(take_channel(&samples, 2, 0), vec![0.8, -0.6]);
    assert_eq!(take_channel(&samples, 2, 1), vec![0.2, -0.4]);
    // Fewer samples than one frame give nothing.
    assert!(take_channel(&samples, 6, 5).is_empty());
}

#[test]
fn integer_samples_work_too() {
    let samples: Vec<i16> = vec![1, 2, 3, 4, 5, 6];
    assert_eq!(take_channel(&samples, 3, 1), vec![2, 5]);
}
