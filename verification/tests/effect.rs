use biquad::{Biquad, Coefficients, DirectForm1, ToHertz, Type, Q_BUTTERWORTH_F32};
use nam_core::block::{capture, mirror};
use nam_core::engine::{Engine, Stage};
use nam_core::exchange::ModelChannel;
use nam_core::tone::{cascade, Band, Shape, MID_FREQ, TREBLE_FREQ};

const BLOCK: usize = 512;

struct Effect {
    engine: Engine,
    exchange: ModelChannel,
    retired: ModelChannel,
    scratch: Vec<f32>,
    filters: Vec<DirectForm1<f32>>,
}

fn effect(sample_rate_hz: u32, gains_db: [f32; 3]) -> Effect {
    let mut engine = Engine::new();
    engine.initialize(sample_rate_hz, BLOCK as u32);
    let bands = cascade();
    let filters = (0..3)
        .map(|index| {
            let band: Band = bands[index];
            let kind = match band.shape() {
                Shape::LowShelf => Type::LowShelf(gains_db[index]),
                Shape::PeakingEq => Type::PeakingEQ(gains_db[index]),
                Shape::HighShelf => Type::HighShelf(gains_db[index]),
            };
            DirectForm1::<f32>::new(
                Coefficients::<f32>::from_params(
                    kind,
                    ToHertz::<f32>::hz(engine.sample_rate_hz()),
                    ToHertz::<f32>::hz(band.corner_hz()),
                    Q_BUTTERWORTH_F32,
                )
                .expect("the corner lies below half the sample rate"),
            )
        })
        .collect();
    Effect {
        engine,
        exchange: ModelChannel::new(),
        retired: ModelChannel::new(),
        scratch: Vec::with_capacity(BLOCK),
        filters,
    }
}

impl Effect {
    /// One block with no model loaded and the output gain resting at 0 dB,
    /// in place on `left`, as the audio thread runs it.
    fn process(&mut self, left: &mut [f32], right: &mut [f32]) {
        let stage = self.engine.begin_block(&mut self.exchange, &mut self.retired);
        assert_eq!(stage, Stage::PassThrough);
        capture(left, &mut self.scratch);
        assert_eq!(self.engine.bypass(&self.scratch, left), Stage::PassThrough);
        for sample in left.iter_mut() {
            for filter in self.filters.iter_mut() {
                *sample = filter.run(*sample);
            }
            *sample *= 1.0;
        }
        mirror(left, right);
    }

    fn steady_state_gain_db(&mut self, tone_hz: f32) -> (f32, f32) {
        let rate = self.engine.sample_rate_hz() as f32;
        let blocks = 96;
        let mut energy_in = 0.0f64;
        let mut energy_left = 0.0f64;
        let mut energy_right = 0.0f64;
        for block in 0..blocks {
            let input: Vec<f32> = (0..BLOCK)
                .map(|n| {
                    let t = (block * BLOCK + n) as f32 / rate;
                    (2.0 * std::f32::consts::PI * tone_hz * t).sin()
                })
                .collect();
            let mut left = input.clone();
            let mut right = vec![0.0f32; BLOCK];
            self.process(&mut left, &mut right);
            if block >= blocks / 2 {
                energy_in += input.iter().map(|s| (*s as f64).powi(2)).sum::<f64>();
                energy_left += left.iter().map(|s| (*s as f64).powi(2)).sum::<f64>();
                energy_right += right.iter().map(|s| (*s as f64).powi(2)).sum::<f64>();
            }
        }
        (
            (10.0 * (energy_left / energy_in).log10()) as f32,
            (10.0 * (energy_right / energy_in).log10()) as f32,
        )
    }
}

#[test]
fn impulse_without_model_and_flat_gains_comes_out_unchanged_on_both_channels() {
    let mut effect = effect(48_000, [0.0, 0.0, 0.0]);
    let mut input = vec![0.0f32; BLOCK];
    input[0] = 1.0;
    let mut left = input.clone();
    let mut right = vec![0.5f32; BLOCK];
    effect.process(&mut left, &mut right);
    assert_eq!(left, input);
    assert_eq!(right, input);
}

#[test]
fn bass_boost_lifts_low_tones_and_leaves_the_other_bands() {
    let (left, right) = effect(48_000, [6.0, 0.0, 0.0]).steady_state_gain_db(40.0);
    assert!((left - 6.0).abs() <= 0.1, "40 Hz came out at {} dB", left);
    assert_eq!(left, right);

    let (mid, _) = effect(48_000, [6.0, 0.0, 0.0]).steady_state_gain_db(MID_FREQ as f32);
    assert!(mid.abs() <= 0.1, "1500 Hz came out at {} dB", mid);

    let (treble, _) = effect(48_000, [6.0, 0.0, 0.0]).steady_state_gain_db(TREBLE_FREQ as f32);
    assert!(treble.abs() <= 0.1, "3000 Hz came out at {} dB", treble);
}
