use std::cell::RefCell;
use std::rc::Rc;

use granulator::constants::{GRAIN_AMPLITUDE, MAX_GRAINS};
use granulator::fixed::{from_whole, fx_add, fx_mul, fx_neg, ONE};
use granulator::frame::{Frame, SILENT_FRAME};
use granulator::parabolic_envelope::ParabolicEnvelope;
use granulator::{Granulator, GranulatorOptions};

fn fx(x: f64) -> i64 {
    (x * 4294967296.0).round() as i64
}

fn options<const N: usize>() -> GranulatorOptions<fn(i64), N> {
    GranulatorOptions::default()
}

fn active<H: Fn(i64), const N: usize>(engine: &Granulator<H, N>) -> usize {
    engine.grains_pool.iter().filter(|grain| grain.is_active).count()
}

#[test]
fn default_options() {
    let options = options::<16>();
    assert_eq!(options.position, from_whole(8));
    assert_eq!(options.density, fx(50.0));
    assert_eq!(options.duration, fx(3000.0));
    assert_eq!(options.pitch, fx(1.0));
    assert_eq!(options.volume, fx(0.5));
    assert_eq!(options.feedback, fx(0.6));
    assert_eq!(options.wet_dry, fx(1.0));
    assert!(options.new_grain_hook.is_none());
    assert!(options.delay_line_buffer.is_none());
    assert_eq!(GranulatorOptions::<fn(i64), 410000>::default().position, from_whole(205000));
    assert_eq!(GranulatorOptions::<fn(i64), 7>::default().position, from_whole(3));
}

#[test]
fn new_builds_an_idle_engine_with_its_own_buffer() {
    let engine = Granulator::<fn(i64), 16>::new(GranulatorOptions {
        position: fx(4.0),
        density: fx(20.0),
        duration: fx(100.0),
        pitch: fx(2.0),
        volume: fx(0.25),
        feedback: fx(0.75),
        wet_dry: fx(0.5),
        ..GranulatorOptions::default()
    });
    assert_eq!(engine.position, fx(4.0));
    assert_eq!(engine.duration, fx(100.0));
    assert_eq!(engine.pitch, fx(2.0));
    assert_eq!(engine.volume, fx(0.25));
    assert_eq!(engine.feedback, fx(0.75));
    assert_eq!(engine.wet_dry, fx(0.5));
    assert_eq!(engine.scheduler.density, fx(20.0));
    assert_eq!(engine.scheduler.next_onset, 0);
    assert!(engine.onset_due());
    assert!(engine.new_grain_hook.is_none());
    assert_eq!(engine.delay_line.buffer, vec![SILENT_FRAME; 16]);
    assert_eq!(engine.delay_line.write_index, 0);
    assert_eq!(engine.grains_pool.len(), MAX_GRAINS);
    let envelope = ParabolicEnvelope::new(fx(100.0), GRAIN_AMPLITUDE);
    for grain in engine.grains_pool.iter() {
        assert!(!grain.is_active);
        assert_eq!(grain.position, fx(4.0));
        assert_eq!(grain.duration_samples, fx(100.0));
        assert_eq!(grain.pitch, fx(2.0));
        assert_eq!(grain.num_samples_played, 0);
        assert_eq!(grain.envelope.slope, envelope.slope);
        assert_eq!(grain.envelope.curve, envelope.curve);
    }
}

#[test]
fn new_takes_supplied_storage() {
    let storage: Vec<Frame> = (0..4).map(|i| (from_whole(i), from_whole(-i))).collect();
    let engine = Granulator::<fn(i64), 4>::new(GranulatorOptions {
        delay_line_buffer: Some(storage.clone()),
        ..GranulatorOptions::default()
    });
    assert_eq!(engine.delay_line.buffer, storage);
    assert_eq!(engine.delay_line.write_index, 0);
    assert_eq!(engine.position, from_whole(2));
}

#[test]
fn dry_engine_returns_the_inverted_input_at_half_volume() {
    let mut engine = Granulator::<fn(i64), 64>::new(GranulatorOptions {
        wet_dry: 0,
        volume: fx(0.5),
        feedback: 0,
        density: 1,
        ..GranulatorOptions::default()
    });
    for (left, right) in [
        (0.0, 0.0),
        (1.0, -1.0),
        (0.25, 0.75),
        (-0.5, 0.125),
        (0.3, -0.2),
        (-1.0, 1.0),
        (123.5, -77.25),
    ] {
        let output = engine.process((fx(left), fx(right)), fx(0.5));
        assert_eq!(output, (fx_neg(fx(left)) / 2, fx_neg(fx(right)) / 2));
        assert_eq!(output, (fx_mul(fx_neg(fx(left)), fx(0.5)), fx_mul(fx_neg(fx(right)), fx(0.5))));
    }
    assert_eq!(engine.process((fx(0.5), fx(-0.25)), fx(0.5)), (fx(-0.25), fx(0.125)));
}

#[test]
fn dry_engine_without_grains_writes_the_input_to_the_delay_line() {
    let mut engine = Granulator::<fn(i64), 8>::new(GranulatorOptions {
        wet_dry: 0,
        volume: fx(0.5),
        feedback: 0,
        density: 1,
        duration: ONE,
        ..GranulatorOptions::default()
    });
    // The first frame fires the one onset of this window; its grain lasts a
    // single frame.
    engine.process((0, 0), fx(2.0));
    assert_eq!(active(&engine), 0);
    assert!(!engine.onset_due());
    for i in 1..6 {
        let input = (fx(0.125 * i as f64), fx(-0.25 * i as f64));
        let (output, started) = engine.process_frame(input, fx(2.0));
        assert!(!started);
        assert_eq!(output, (fx(-0.0625 * i as f64), fx(0.125 * i as f64)));
        assert_eq!(engine.delay_line.buffer[i], input);
        assert_eq!(active(&engine), 0);
    }
}

#[test]
fn engine_output_frame_by_frame() {
    let storage: Vec<Frame> = (0..8).map(|i| (fx(i as f64 * 0.125), fx(-i as f64 * 0.125))).collect();
    let mut engine = Granulator::<fn(i64), 8>::new(GranulatorOptions {
        position: fx(2.5),
        density: fx(50.0),
        duration: fx(4.0),
        pitch: ONE,
        volume: fx(0.5),
        feedback: fx(0.5),
        wet_dry: ONE,
        new_grain_hook: None,
        delay_line_buffer: Some(storage),
    });
    let frames: [(Frame, Frame, bool, usize, usize); 6] = [
        ((fx(0.25), fx(-0.5)), (1550214758, -1550214758), true, 1, 1),
        ((fx(0.5), fx(0.5)), (2442762649, -2442762649), false, 0, 1),
        ((fx(-0.75), fx(0.125)), (1675288903, -1957146132), true, 1, 2),
        ((0, 0), (1262485503, -698771046), false, 0, 1),
        ((fx(1.0), fx(-1.0)), (799131303, -450332983), true, 1, 2),
        ((fx(0.3), fx(0.2)), (-49603936, -370833096), false, 0, 1),
    ];
    for (input, output, started, countdown, playing) in frames {
        assert_eq!(engine.process_frame(input, fx(0.05)), (output, started));
        assert_eq!(engine.scheduler.next_onset, countdown);
        assert_eq!(active(&engine), playing);
    }
    assert_eq!(engine.delay_line.write_index, 6);
    assert_eq!(
        engine.delay_line.buffer,
        vec![
            (2623956582, -3697698406),
            (4590246297, -295279001),
            (-1545936569, -1420275220),
            (1262485503, -698771046),
            (5094098599, -4745300279),
            (1238886253, 488160363),
            (fx(0.75), fx(-0.75)),
            (fx(0.875), fx(-0.875)),
        ]
    );
}

#[test]
fn process_and_process_frame_agree() {
    let build = || {
        Granulator::<fn(i64), 32>::new(GranulatorOptions {
            duration: fx(12.0),
            pitch: fx(1.5),
            ..GranulatorOptions::default()
        })
    };
    let mut whole = build();
    let mut bare = build();
    for i in 0..200 {
        let input = (fx(((i * 7) % 11) as f64 * 0.0625), fx(((i * 5) % 13) as f64 * -0.03125));
        let draw = fx(0.11 + 0.01 * (i % 9) as f64);
        assert_eq!(whole.process(input, draw), bare.process_frame(input, draw).0);
    }
    assert_eq!(whole.delay_line.buffer, bare.delay_line.buffer);
}

#[test]
fn an_onset_starts_the_first_idle_grain_only() {
    let mut engine = Granulator::<fn(i64), 16>::new(GranulatorOptions {
        duration: fx(1000.0),
        density: fx(1000.0),
        ..GranulatorOptions::default()
    });
    assert_eq!(active(&engine), 0);
    let mut onsets = 0;
    for _ in 0..10 {
        let due = engine.onset_due();
        let (_, started) = engine.process_frame((0, 0), 1);
        assert_eq!(started, due);
        if started {
            onsets += 1;
        }
        assert_eq!(active(&engine), onsets);
        for (i, grain) in engine.grains_pool.iter().enumerate() {
            assert_eq!(grain.is_active, i < onsets);
        }
    }
    assert_eq!(onsets, 5);
}

#[test]
fn a_new_grain_takes_the_current_settings() {
    let mut engine = Granulator::<fn(i64), 16>::new(options());
    engine.set_position(fx(3.0));
    engine.set_duration(fx(40.0));
    engine.set_pitch(fx(2.0));
    engine.process((0, 0), fx(0.001));
    let first = engine.grains_pool[0];
    assert!(first.is_active);
    assert_eq!(first.position, fx(3.0));
    assert_eq!(first.duration_samples, fx(40.0));
    assert_eq!(first.pitch, fx(2.0));
    assert_eq!(first.num_samples_played, fx(2.0));
    // Later settings do not reach the grain in flight.
    engine.set_position(fx(9.0));
    engine.set_duration(fx(7.0));
    engine.set_pitch(fx(0.25));
    engine.process((0, 0), fx(0.001));
    let first = engine.grains_pool[0];
    assert_eq!(first.position, fx(3.0));
    assert_eq!(first.duration_samples, fx(40.0));
    assert_eq!(first.pitch, fx(2.0));
    engine.process((0, 0), fx(0.001));
    let second = engine.grains_pool[1];
    assert!(second.is_active);
    assert_eq!(second.position, fx(9.0));
    assert_eq!(second.duration_samples, fx(7.0));
    assert_eq!(second.pitch, fx(0.25));
}

#[test]
fn onsets_beyond_the_pool_are_dropped() {
    let mut engine = Granulator::<fn(i64), 32>::new(GranulatorOptions {
        duration: fx(100000.0),
        density: fx(1000.0),
        ..GranulatorOptions::default()
    });
    let mut started_total = 0;
    let mut dropped = 0;
    for i in 0..1000 {
        let due = engine.onset_due();
        let input = (fx((i % 5) as f64 * 0.1), fx((i % 3) as f64 * -0.1));
        let (_, started) = engine.process_frame(input, 1);
        if started {
            started_total += 1;
        }
        if due && !started {
            dropped += 1;
        }
        assert!(active(&engine) <= MAX_GRAINS);
        assert_eq!(engine.grains_pool.len(), MAX_GRAINS);
        assert_eq!(engine.delay_line.buffer.len(), 32);
    }
    assert_eq!(started_total, MAX_GRAINS);
    assert_eq!(active(&engine), MAX_GRAINS);
    assert_eq!(dropped, 500 - MAX_GRAINS);
}

#[test]
fn the_observer_hears_of_each_new_grain() {
    let heard = Rc::new(RefCell::new(Vec::new()));
    let sink = heard.clone();
    let mut engine = Granulator::<_, 16>::new(GranulatorOptions {
        duration: fx(3.0),
        density: fx(1000.0),
        new_grain_hook: Some(move |duration: i64| sink.borrow_mut().push(duration)),
        ..GranulatorOptions::default()
    });
    engine.process((0, 0), 1);
    assert_eq!(*heard.borrow(), vec![fx(3.0)]);
    engine.process((0, 0), 1);
    assert_eq!(*heard.borrow(), vec![fx(3.0)]);
    engine.set_duration(fx(5.0));
    engine.process((0, 0), 1);
    assert_eq!(*heard.borrow(), vec![fx(3.0), fx(5.0)]);
    engine.set_new_grain_hook(None);
    for _ in 0..6 {
        engine.process((0, 0), 1);
    }
    assert_eq!(*heard.borrow(), vec![fx(3.0), fx(5.0)]);
}

#[test]
fn the_observer_hears_nothing_of_a_dropped_onset() {
    let heard = Rc::new(RefCell::new(0usize));
    let sink = heard.clone();
    let mut engine = Granulator::<_, 16>::new(GranulatorOptions {
        duration: fx(100000.0),
        density: fx(1000.0),
        new_grain_hook: Some(move |_duration: i64| *sink.borrow_mut() += 1),
        ..GranulatorOptions::default()
    });
    for _ in 0..600 {
        engine.process((0, 0), 1);
    }
    assert_eq!(*heard.borrow(), MAX_GRAINS);
}

#[test]
fn a_plain_function_can_observe() {
    fn observer(_duration: i64) {}
    let mut engine = Granulator::<fn(i64), 16>::new(options());
    engine.set_new_grain_hook(Some(observer));
    assert!(engine.new_grain_hook.is_some());
    engine.process((fx(0.5), fx(0.5)), fx(0.3));
    assert_eq!(active(&engine), 1);
}

#[test]
fn the_mix_is_twice_the_average_of_the_playing_grains() {
    // Every slot holds the same frame, so every grain reads it.
    let sample = (fx(0.5), fx(-0.25));
    let mut engine = Granulator::<fn(i64), 8>::new(GranulatorOptions {
        duration: fx(8.0),
        density: fx(1000.0),
        feedback: 0,
        volume: ONE,
        wet_dry: ONE,
        delay_line_buffer: Some(vec![sample; 8]),
        ..GranulatorOptions::default()
    });
    let mut first = ParabolicEnvelope::new(fx(8.0), GRAIN_AMPLITUDE);
    let mut second = ParabolicEnvelope::new(fx(8.0), GRAIN_AMPLITUDE);
    // One grain plays: the mix is twice its frame.
    let one = first.process();
    let output = engine.process(sample, 1);
    assert_eq!(output, (fx_mul(fx_mul(sample.0, one), 2 * ONE), fx_mul(fx_mul(sample.1, one), 2 * ONE)));
    let one = first.process();
    let output = engine.process(sample, 1);
    assert_eq!(output, (fx_mul(fx_mul(sample.0, one), 2 * ONE), fx_mul(fx_mul(sample.1, one), 2 * ONE)));
    // Two grains play: twice the mean of their frames.
    let one = first.process();
    let two = second.process();
    let output = engine.process(sample, 1);
    let left = (fx_mul(sample.0, one) as i128 + fx_mul(sample.0, two) as i128) / 2;
    let right = (fx_mul(sample.1, one) as i128 + fx_mul(sample.1, two) as i128) / 2;
    assert_eq!(output, (fx_mul(left as i64, 2 * ONE), fx_mul(right as i64, 2 * ONE)));
}

#[test]
fn the_fed_back_mix_is_written_to_the_delay_line() {
    let sample = (fx(0.5), fx(-0.25));
    let mut engine = Granulator::<fn(i64), 8>::new(GranulatorOptions {
        duration: fx(8.0),
        feedback: fx(0.5),
        volume: ONE,
        wet_dry: ONE,
        delay_line_buffer: Some(vec![sample; 8]),
        ..GranulatorOptions::default()
    });
    let input = (fx(0.125), fx(0.0625));
    let mix = engine.process(input, ONE);
    assert_eq!(
        engine.delay_line.buffer[0],
        (fx_add(input.0, fx_mul(mix.0, fx(0.5))), fx_add(input.1, fx_mul(mix.1, fx(0.5))))
    );
    assert_eq!(engine.delay_line.write_index, 1);
}

#[test]
fn output_and_feedback_frames() {
    let mut engine = Granulator::<fn(i64), 8>::new(options());
    engine.set_volume(fx(0.5));
    engine.set_wet_dry(fx(0.25));
    engine.set_feedback(fx(0.5));
    let input = (fx(1.0), fx(-2.0));
    let mix = (fx(0.5), fx(4.0));
    // (-1 * 0.75 + 0.5 * 0.25) * 0.5 and (2 * 0.75 + 4 * 0.25) * 0.5.
    assert_eq!(engine.get_output_frame(input, mix), (fx(-0.3125), fx(1.25)));
    // 1 + 0.5 * 0.5 and -2 + 4 * 0.5.
    assert_eq!(engine.get_feedback_frame(input, mix), (fx(1.25), 0));
    engine.set_wet_dry(ONE);
    assert_eq!(engine.get_output_frame(input, mix), (fx(0.25), fx(2.0)));
    engine.set_wet_dry(0);
    assert_eq!(engine.get_output_frame(input, mix), (fx(-0.5), fx(1.0)));
}

#[test]
fn setters_write_their_field() {
    let mut engine = Granulator::<fn(i64), 8>::new(options());
    engine.set_position(fx(1.5));
    engine.set_density(fx(77.0));
    engine.set_duration(fx(123.0));
    engine.set_pitch(fx(0.75));
    engine.set_volume(fx(0.125));
    engine.set_feedback(fx(0.375));
    engine.set_wet_dry(fx(0.625));
    assert_eq!(engine.position, fx(1.5));
    assert_eq!(engine.scheduler.density, fx(77.0));
    assert_eq!(engine.duration, fx(123.0));
    assert_eq!(engine.pitch, fx(0.75));
    assert_eq!(engine.volume, fx(0.125));
    assert_eq!(engine.feedback, fx(0.375));
    assert_eq!(engine.wet_dry, fx(0.625));
    assert_eq!(engine.scheduler.next_onset, 0);
    assert_eq!(active(&engine), 0);
}

#[test]
fn set_density_reaches_the_next_draw_only() {
    let mut engine = Granulator::<fn(i64), 8>::new(options());
    engine.process((0, 0), ONE);
    assert_eq!(engine.scheduler.next_onset, 20);
    engine.set_density(fx(1000.0));
    assert_eq!(engine.scheduler.next_onset, 20);
    for _ in 0..20 {
        assert!(!engine.onset_due());
        engine.process((0, 0), ONE);
    }
    assert!(engine.onset_due());
    engine.process((0, 0), ONE);
    assert_eq!(engine.scheduler.next_onset, 1);
}

#[test]
fn draw_onset_changes_nothing_but_the_generator() {
    let mut engine = Granulator::<fn(i64), 8>::new(options());
    engine.process((fx(0.5), fx(0.25)), ONE);
    let slots = engine.delay_line.buffer.clone();
    let mut draws = Vec::new();
    for _ in 0..200 {
        let drawn = engine.draw_onset();
        assert!(429496730 <= drawn && drawn < ONE);
        draws.push(drawn);
    }
    assert!(draws.iter().any(|drawn| *drawn != draws[0]));
    assert_eq!(engine.scheduler.next_onset, 20);
    assert_eq!(engine.delay_line.buffer, slots);
    assert_eq!(active(&engine), 1);
}

#[test]
fn synthesize_without_playing_grains_is_silent() {
    let mut engine = Granulator::<fn(i64), 8>::new(GranulatorOptions {
        delay_line_buffer: Some(vec![(ONE, ONE); 8]),
        ..GranulatorOptions::default()
    });
    assert_eq!(engine.synthesize_active_grains(), SILENT_FRAME);
    assert!(engine.activate_grain());
    assert_eq!(active(&engine), 1);
    assert!(engine.synthesize_active_grains() != SILENT_FRAME);
}
