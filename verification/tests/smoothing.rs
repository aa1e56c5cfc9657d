use nam_core::smoothing::{Advance, Ramp, OUTPUT_SMOOTHING_MS};

fn db_to_gain(db: f32) -> f32 {
    10.0f32.powf(db / 20.0)
}

#[test]
fn output_gain_glides_for_fifty_milliseconds() {
    assert_eq!(OUTPUT_SMOOTHING_MS, 50);
}

#[test]
fn new_ramp_rests() {
    let mut ramp = Ramp::new();
    assert!(ramp.is_settled());
    assert_eq!(ramp.next(), Advance::Hold);
    assert!(ramp.is_settled());
}

#[test]
fn ramp_length_is_the_time_in_samples() {
    assert_eq!(Ramp::new().retarget(48_000, 50), 2400);
    assert_eq!(Ramp::new().retarget(44_100, 50), 2205);
    assert_eq!(Ramp::new().retarget(96_000, 1), 96);
    assert_eq!(Ramp::new().retarget(1, 1000), 1);
}

#[test]
fn ramp_length_rounds_to_the_nearest_sample() {
    assert_eq!(Ramp::new().retarget(44_100, 1), 44);
    assert_eq!(Ramp::new().retarget(1_500, 1), 2);
    assert_eq!(Ramp::new().retarget(1_499, 1), 1);
    assert_eq!(Ramp::new().retarget(499, 1), 0);
    assert_eq!(Ramp::new().retarget(500, 1), 1);
}

#[test]
fn ramp_length_of_no_time_or_no_rate_is_zero() {
    let mut ramp = Ramp::new();
    assert_eq!(ramp.retarget(48_000, 0), 0);
    assert!(ramp.is_settled());
    assert_eq!(ramp.retarget(0, 50), 0);
    assert_eq!(ramp.next(), Advance::Hold);
}

#[test]
fn ramp_length_of_the_largest_inputs_does_not_overflow() {
    assert_eq!(
        Ramp::new().retarget(u32::MAX, u32::MAX),
        18_446_744_065_119_617
    );
}

#[test]
fn glide_steps_then_arrives_then_holds() {
    let mut ramp = Ramp::new();
    assert_eq!(ramp.retarget(4_000, 1), 4);
    let taken: Vec<Advance> = (0..7).map(|_| ramp.next()).collect();
    assert_eq!(
        taken,
        vec![
            Advance::Step,
            Advance::Step,
            Advance::Step,
            Advance::Arrive,
            Advance::Hold,
            Advance::Hold,
            Advance::Hold
        ]
    );
    assert!(ramp.is_settled());
}

#[test]
fn glide_of_one_step_arrives_at_once() {
    let mut ramp = Ramp::new();
    assert_eq!(ramp.retarget(1_000, 1), 1);
    assert!(!ramp.is_settled());
    assert_eq!(ramp.next(), Advance::Arrive);
    assert_eq!(ramp.next(), Advance::Hold);
}

#[test]
fn retarget_under_way_starts_the_count_again() {
    let mut ramp = Ramp::new();
    ramp.retarget(3_000, 1);
    assert_eq!(ramp.next(), Advance::Step);
    assert_eq!(ramp.retarget(2_000, 1), 2);
    assert_eq!(ramp.next(), Advance::Step);
    assert_eq!(ramp.next(), Advance::Arrive);
    assert_eq!(ramp.next(), Advance::Hold);
}

fn glide(from: f32, to: f32, sample_rate_hz: u32, samples: usize) -> Vec<f32> {
    let mut ramp = Ramp::new();
    let mut current = from;
    let steps = ramp.retarget(sample_rate_hz, OUTPUT_SMOOTHING_MS);
    let factor = (to / from).powf(1.0 / steps as f32);
    (0..samples)
        .map(|_| {
            match ramp.next() {
                Advance::Hold => {}
                Advance::Step => current *= factor,
                Advance::Arrive => current = to,
            }
            current
        })
        .collect()
}

#[test]
fn gain_step_up_rises_steadily_and_arrives_after_the_smoothing_time() {
    let (from, to) = (db_to_gain(-6.0), db_to_gain(6.0));
    let gains = glide(from, to, 48_000, 3000);
    assert!(gains[0] > from);
    for pair in gains[..2400].windows(2) {
        assert!(pair[0] < pair[1], "{} then {}", pair[0], pair[1]);
    }
    assert!(gains.iter().all(|gain| from <= *gain && *gain <= to));
    assert!((gains[2398] / to - 1.0).abs() < 1.0e-2);
    assert_eq!(gains[2399], to);
    assert!(gains[2400..].iter().all(|gain| *gain == to));
    assert!(gains.iter().all(|gain| gain.is_finite()));
}

#[test]
fn gain_step_down_falls_steadily_and_arrives_after_the_smoothing_time() {
    let (from, to) = (db_to_gain(20.0), db_to_gain(-20.0));
    let gains = glide(from, to, 44_100, 2500);
    for pair in gains[..2205].windows(2) {
        assert!(pair[0] > pair[1], "{} then {}", pair[0], pair[1]);
    }
    assert!(gains.iter().all(|gain| to <= *gain && *gain <= from));
    assert_eq!(gains[2204], to);
    assert!(gains[2205..].iter().all(|gain| *gain == to));
    assert!(gains.iter().all(|gain| gain.is_finite()));
}
