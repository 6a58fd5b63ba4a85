use rboy_desktop::audio::{
    cpal_thread, select_config, ConfigRange, CpalPlayer, OutputProbe, RateChoice, SampleFormat,
    SelectedConfig,
};

fn range(channels: u16, sample_format: SampleFormat, min: u32, max: u32) -> ConfigRange {
    ConfigRange { channels, sample_format, min_sample_rate: min, max_sample_rate: max }
}

fn player(sample_rate: u32) -> CpalPlayer<f32> {
    CpalPlayer { buffer: Vec::new(), sample_rate }
}

#[test]
fn takes_the_wanted_rate() {
    let configs = vec![range(2, SampleFormat::F32, 8000, 48000)];
    let selected = SelectedConfig {
        index: 0,
        rate_choice: RateChoice::Wanted,
        sample_rate: 44100,
        sample_format: SampleFormat::F32,
    };
    assert_eq!(select_config(&configs), Some(selected));
}

#[test]
fn the_wanted_rate_may_be_at_the_edge() {
    let low = select_config(&vec![range(2, SampleFormat::F32, 44100, 48000)]).unwrap();
    assert_eq!((low.rate_choice, low.sample_rate), (RateChoice::Wanted, 44100));
    let high = select_config(&vec![range(2, SampleFormat::F32, 8000, 44100)]).unwrap();
    assert_eq!((high.rate_choice, high.sample_rate), (RateChoice::Wanted, 44100));
}

#[test]
fn takes_the_highest_rate_else() {
    let above = select_config(&vec![range(2, SampleFormat::F32, 48000, 96000)]).unwrap();
    assert_eq!((above.rate_choice, above.sample_rate), (RateChoice::Max, 96000));
    let below = select_config(&vec![range(2, SampleFormat::F32, 8000, 22050)]).unwrap();
    assert_eq!((below.rate_choice, below.sample_rate), (RateChoice::Max, 22050));
}

#[test]
fn takes_the_first_usable_range() {
    let configs = vec![
        range(1, SampleFormat::F32, 8000, 48000),
        range(2, SampleFormat::I16, 8000, 48000),
        range(2, SampleFormat::U16, 8000, 48000),
        range(2, SampleFormat::F32, 8000, 22050),
        range(2, SampleFormat::F32, 8000, 48000),
    ];
    let selected = select_config(&configs).unwrap();
    assert_eq!(selected.index, 3);
    assert_eq!(selected.sample_rate, 22050);
}

#[test]
fn no_usable_range() {
    assert_eq!(select_config(&vec![]), None);
    let configs = vec![
        range(6, SampleFormat::F32, 8000, 48000),
        range(2, SampleFormat::I16, 8000, 48000),
    ];
    assert_eq!(select_config(&configs), None);
}

#[test]
fn player_needs_a_device_with_a_usable_range() {
    assert!(CpalPlayer::<f32>::get(OutputProbe::NoDevice).is_none());
    assert!(CpalPlayer::<f32>::get(OutputProbe::NoConfigs).is_none());
    assert!(CpalPlayer::<f32>::get(OutputProbe::Configs(vec![])).is_none());
    let usable = vec![range(2, SampleFormat::F32, 8000, 22050)];
    let (player, selected) = CpalPlayer::<f32>::get(OutputProbe::Configs(usable)).unwrap();
    assert_eq!(player.samples_rate(), 22050);
    assert_eq!(selected.index, 0);
    assert!(player.underflowed());
}

#[test]
fn plays_both_channels() {
    let mut player = player(10);
    player.play(&[0.1, 0.2], &[-0.1, -0.2]);
    assert_eq!(player.buffer, vec![(0.1, -0.1), (0.2, -0.2)]);
    assert!(!player.underflowed());
}

#[test]
fn keeps_at_most_a_second() {
    let mut player = player(3);
    let samples: Vec<f32> = vec![0.0, 1.0, 2.0, 3.0, 4.0, 5.0];
    player.play(&samples, &samples);
    assert_eq!(player.buffer, vec![(0.0, 0.0), (1.0, 1.0), (2.0, 2.0)]);
    player.play(&[9.0], &[9.0]);
    assert_eq!(player.buffer.len(), 3);
    let mut out: Vec<f32> = vec![0.0; 2];
    cpal_thread(&mut out, &mut player, |sample: &f32| *sample);
    player.play(&[7.0, 8.0], &[7.0, 8.0]);
    assert_eq!(player.buffer, vec![(1.0, 1.0), (2.0, 2.0), (7.0, 7.0)]);
}

#[test]
fn keeps_the_oldest_frames() {
    let mut player = player(2);
    player.play(&[1.0, 2.0, 3.0, 4.0], &[5.0, 6.0, 7.0, 8.0]);
    assert_eq!(player.buffer, vec![(1.0, 5.0), (2.0, 6.0)]);
}

#[test]
fn exactly_a_second_fits() {
    let mut player = player(2);
    player.play(&[1.0], &[2.0]);
    player.play(&[3.0], &[4.0]);
    assert_eq!(player.buffer, vec![(1.0, 2.0), (3.0, 4.0)]);
}

#[test]
fn fills_the_output_left_and_right_in_turn() {
    let mut player = player(10);
    player.play(&[1.0, 2.0, 3.0], &[-1.0, -2.0, -3.0]);
    let mut out: Vec<f32> = vec![0.5; 4];
    cpal_thread(&mut out, &mut player, |sample: &f32| *sample);
    assert_eq!(out, vec![1.0, -1.0, 2.0, -2.0]);
    assert_eq!(player.buffer, vec![(3.0, -3.0)]);
}

#[test]
fn leaves_the_rest_of_the_output_alone() {
    let mut player = player(10);
    player.play(&[1.0], &[-1.0]);
    let mut out: Vec<f32> = vec![0.5; 5];
    cpal_thread(&mut out, &mut player, |sample: &f32| *sample);
    assert_eq!(out, vec![1.0, -1.0, 0.5, 0.5, 0.5]);
    assert!(player.underflowed());
}

#[test]
fn half_a_frame_does_not_fit() {
    let mut player = player(10);
    player.play(&[1.0, 2.0], &[-1.0, -2.0]);
    let mut out: Vec<f32> = vec![0.5; 3];
    cpal_thread(&mut out, &mut player, |sample: &f32| *sample);
    assert_eq!(out, vec![1.0, -1.0, 0.5]);
    assert_eq!(player.buffer, vec![(2.0, -2.0)]);
}

#[test]
fn converts_each_sample() {
    let mut player = player(10);
    player.play(&[1.0, 2.0], &[3.0, 4.0]);
    let mut out: Vec<i16> = vec![0; 4];
    cpal_thread(&mut out, &mut player, |sample: &f32| (*sample * 100.0) as i16);
    assert_eq!(out, vec![100, 300, 200, 400]);
}

#[test]
fn sound_comes_out_in_order() {
    let mut player = player(3);
    let mut heard: Vec<f32> = Vec::new();
    let mut kept: Vec<f32> = Vec::new();
    for i in 0..20u32 {
        let before = player.buffer.len();
        let (l, r) = (i as f32, -(i as f32));
        player.play(&[l, l + 0.5], &[r, r - 0.5]);
        let taken = player.buffer.len() - before;
        for frame in &player.buffer[before..before + taken] {
            kept.push(frame.0);
            kept.push(frame.1);
        }
        let mut out: Vec<f32> = vec![0.0; 2];
        cpal_thread(&mut out, &mut player, |sample: &f32| *sample);
        heard.extend(out);
    }
    for frame in &player.buffer {
        heard.push(frame.0);
        heard.push(frame.1);
    }
    assert_eq!(heard, kept);
}
