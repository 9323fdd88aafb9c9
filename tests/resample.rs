use native_tools::resample::{
    initial_strategy, strategy_after_failure, ResampleStrategy, ResamplerState,
    RESAMPLER_CHUNK_SIZE_DEFAULT, RESAMPLER_CHUNK_SIZE_FALLBACK, TARGET_SAMPLE_RATE,
};

#[test]
fn strategy_chain() {
    assert_eq!(initial_strategy(16000), ResampleStrategy::Passthrough);
    let first = initial_strategy(48000);
    assert_eq!(first, ResampleStrategy::Spectral { chunk_size: 1024 });
    let second = strategy_after_failure(first);
    assert_eq!(second, ResampleStrategy::Spectral { chunk_size: 512 });
    assert_eq!(strategy_after_failure(second), ResampleStrategy::Linear);
    assert_eq!(strategy_after_failure(ResampleStrategy::Linear), ResampleStrategy::Linear);
    assert_eq!(
        strategy_after_failure(ResampleStrategy::Passthrough),
        ResampleStrategy::Passthrough
    );
    assert_eq!(TARGET_SAMPLE_RATE, 16000);
    assert_eq!(RESAMPLER_CHUNK_SIZE_DEFAULT, 1024);
    assert_eq!(RESAMPLER_CHUNK_SIZE_FALLBACK, 512);
}

#[test]
fn spectral_emits_whole_chunks_in_order() {
    let mut state: ResamplerState<i32> =
        ResamplerState::new(48000, ResampleStrategy::Spectral { chunk_size: 4 });
    assert!(state.push_frame(&[1, 2, 3]).is_empty());
    let batches = state.push_frame(&[4, 5, 6, 7, 8, 9, 10]);
    assert_eq!(batches, vec![vec![1, 2, 3, 4], vec![5, 6, 7, 8]]);
    assert!(state.push_frame(&[]).is_empty());
    let last = state.finish(0);
    assert_eq!(last, vec![vec![9, 10, 0, 0]]);
}

#[test]
fn spectral_finish_with_nothing_waiting() {
    let mut state: ResamplerState<i32> =
        ResamplerState::new(44100, ResampleStrategy::Spectral { chunk_size: 2 });
    assert_eq!(state.push_frame(&[1, 2, 3, 4]), vec![vec![1, 2], vec![3, 4]]);
    assert!(state.finish(0).is_empty());
}

#[test]
fn passthrough_keeps_every_sample() {
    let mut state: ResamplerState<f32> = ResamplerState::new(16000, initial_strategy(16000));
    assert_eq!(state.strategy(), ResampleStrategy::Passthrough);
    assert_eq!(state.input_sample_rate(), 16000);
    let mut total = 0usize;
    for n in [0usize, 1, 480, 1024, 7] {
        let frame = vec![0.25f32; n];
        let batches = state.push_frame(&frame);
        assert_eq!(batches, vec![frame.clone()]);
        total += batches.iter().map(|b| b.len()).sum::<usize>();
    }
    assert!(state.finish(0.0).is_empty());
    assert_eq!(total, 1 + 480 + 1024 + 7);
}

#[test]
fn linear_hands_on_each_frame() {
    let mut state: ResamplerState<f32> = ResamplerState::new(44100, ResampleStrategy::Linear);
    assert_eq!(state.push_frame(&[0.1, 0.2]), vec![vec![0.1, 0.2]]);
    assert!(state.finish(0.0).is_empty());
}

#[test]
fn spectral_total_is_input_plus_less_than_one_chunk() {
    // 3000 samples at 48 kHz: two whole chunks while running, one padded at the end.
    let mut state: ResamplerState<f32> = ResamplerState::new(48000, initial_strategy(48000));
    let mut handed: Vec<f32> = Vec::new();
    for _ in 0..6 {
        for b in state.push_frame(&vec![0.5f32; 500]) {
            assert_eq!(b.len(), 1024);
            handed.extend(b);
        }
    }
    assert_eq!(handed.len(), 2048);
    let last = state.finish(0.0);
    assert_eq!(last.len(), 1);
    handed.extend(last.into_iter().flatten());
    assert_eq!(handed.len(), 3072);
    assert!(handed[..3000].iter().all(|&s| s == 0.5));
    assert!(handed[3000..].iter().all(|&s| s == 0.0));
}
