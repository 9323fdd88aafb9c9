use native_tools::framing::{parse_framed_message, MSG_TYPE_AUDIO};
use native_tools::pcm::write_audio_chunk;
use native_tools::resample::{initial_strategy, ResampleStrategy, ResamplerState, TARGET_SAMPLE_RATE};
use native_tools::session::{Action, Command, CommandProcessor};
use rubato::{FftFixedIn, Resampler};

/// `round(clamp(s, -1, 1) * 32767)`, as the recorder quantizes.
fn quantize(data: &[f32]) -> Vec<i16> {
    data.iter()
        .map(|s| (s.clamp(-1.0, 1.0) * 32767.0).round() as i16)
        .collect()
}

fn decode(payload: &[u8]) -> Vec<i16> {
    payload
        .chunks_exact(2)
        .map(|b| i16::from_le_bytes([b[0], b[1]]))
        .collect()
}

#[test]
fn constant_input_at_48k_comes_out_as_steady_pcm() {
    let mut processor = CommandProcessor::new();
    let actions = processor.handle_command(Command::Start { device_name: None });
    assert!(matches!(actions[..], [Action::OpenSession(_)]));
    processor.session_opened();

    let input_rate = 48000u32;
    let strategy = initial_strategy(input_rate);
    let chunk_size = match strategy {
        ResampleStrategy::Spectral { chunk_size } => chunk_size,
        _ => panic!("48 kHz input needs a resampler"),
    };
    let mut resampler =
        FftFixedIn::<f32>::new(input_rate as usize, TARGET_SAMPLE_RATE as usize, chunk_size, 1, 1)
            .unwrap();
    let mut state: ResamplerState<f32> = ResamplerState::new(input_rate, strategy);

    let mut stream: Vec<u8> = Vec::new();
    let mut batches = state.push_frame(&vec![0.5f32; 2048]);
    assert_eq!(batches.len(), 2);
    batches.extend(state.finish(0.0));
    for batch in batches {
        let mut out = resampler.process(&[batch], None).unwrap();
        write_audio_chunk(&mut stream, &quantize(&out.remove(0))).unwrap();
    }

    // The resampler's own latency shows as leading silence, and the step from
    // silence to the input level sits at its end; past that sample, a frame must
    // hold the input level up to the resampler's ringing (10%).
    let delay = resampler.output_delay() + 1;
    let mut emitted = 0;
    let mut at = 0;
    let mut steady = 0;
    while at < stream.len() {
        let (msg, used) = parse_framed_message(&stream[at..]).unwrap();
        assert_eq!(msg.kind, MSG_TYPE_AUDIO);
        let pcm = decode(&msg.payload);
        let skip = delay.saturating_sub(emitted).min(pcm.len());
        let settled = &pcm[skip..];
        if !settled.is_empty() && settled.iter().all(|&v| (v as i32 - 16383).abs() <= 1638) {
            steady += 1;
        }
        emitted += pcm.len();
        at += used;
    }
    assert!(steady >= 1);
}
