use mesh_viewer::driver::{
    close_requested, Action, Driver, Event, Stage, WindowEvent, FRAME_PAUSE_MILLIS,
};
use mesh_viewer::oscillator::{Direction, Oscillator, STEPS_TO_BOUND, STEP_BITS};

const STEP: f32 = 0.0005;

#[test]
fn step_constants_are_the_named_numbers() {
    assert_eq!(STEP_BITS, 0.0005f32.to_bits());
    assert_eq!(STEPS_TO_BOUND as f32 * f32::from_bits(STEP_BITS), 0.5);
}

#[test]
fn oscillator_needs_room_to_move() {
    assert_eq!(Oscillator::new(0), None);
    let o = Oscillator::new(1000).unwrap();
    assert_eq!(o.position, -1000);
    assert_eq!(o.direction, Direction::Rising);
    assert_eq!(o.limit, 1000);
}

#[test]
fn oscillator_first_step_leaves_the_lower_bound() {
    let mut o = Oscillator::new(1000).unwrap();
    o.advance();
    assert_eq!(o.position, -999);
    assert_eq!(o.direction, Direction::Rising);
}

#[test]
fn oscillator_reverses_within_two_thousand_frames() {
    let mut o = Oscillator::new(1000).unwrap();
    let mut turns = 0;
    for _ in 0..2000 {
        let before = o.direction;
        o.advance();
        if o.direction != before {
            turns += 1;
        }
        let t = o.position as f32 * STEP;
        assert!(-0.5 <= t && t <= 0.5);
        assert!(-1000 <= o.position && o.position <= 1000);
    }
    assert!(turns >= 1);
    assert_eq!(o.position, 1000);
    assert_eq!(o.position as f32 * STEP, 0.5);
    assert_eq!(o.direction, Direction::Falling);
}

#[test]
fn oscillator_comes_back_after_a_full_period() {
    let start = Oscillator::new(3).unwrap();
    let mut o = start;
    let mut seen = Vec::new();
    for _ in 0..12 {
        o.advance();
        seen.push(o.position);
    }
    assert_eq!(seen, vec![-2, -1, 0, 1, 2, 3, 2, 1, 0, -1, -2, -3]);
    assert_eq!(o, start);
}

#[test]
fn oscillator_with_the_tightest_bounds_flips_every_frame() {
    let mut o = Oscillator::new(1).unwrap();
    o.advance();
    assert_eq!((o.position, o.direction), (0, Direction::Rising));
    o.advance();
    assert_eq!((o.position, o.direction), (1, Direction::Falling));
    o.advance();
    assert_eq!((o.position, o.direction), (0, Direction::Falling));
    o.advance();
    assert_eq!((o.position, o.direction), (-1, Direction::Rising));
}

#[test]
fn close_is_found_among_other_events() {
    assert!(!close_requested(&vec![]));
    assert!(!close_requested(&vec![WindowEvent::Other, WindowEvent::Other]));
    assert!(close_requested(&vec![WindowEvent::CloseRequested]));
    assert!(close_requested(&vec![WindowEvent::Other, WindowEvent::CloseRequested, WindowEvent::Other]));
}

#[test]
fn frame_steps_come_in_order() {
    let (mut driver, first) = Driver::launch(None);
    assert_eq!(first, Action::Clear);
    assert_eq!(driver.pending_action(), Action::Clear);
    assert_eq!(driver.step(&Event::Completed), Action::Draw { offset: None });
    assert_eq!(driver.step(&Event::Completed), Action::Present);
    assert_eq!(driver.step(&Event::Completed), Action::Sleep { millis: 17 });
    assert_eq!(FRAME_PAUSE_MILLIS, 17);
    assert_eq!(driver.step(&Event::Completed), Action::Poll);
    assert_eq!(driver.step(&Event::Polled(vec![])), Action::Clear);
    assert_eq!(driver.stage, Stage::Clearing);
    assert!(!driver.is_stopped());
}

#[test]
fn close_request_stops_the_loop_for_good() {
    let (mut driver, _) = Driver::launch(None);
    for _ in 0..4 {
        driver.step(&Event::Completed);
    }
    let polled = Event::Polled(vec![WindowEvent::Other, WindowEvent::CloseRequested]);
    assert_eq!(driver.step(&polled), Action::Stop);
    assert!(driver.is_stopped());
    assert_eq!(driver.step(&Event::Completed), Action::Stop);
    assert_eq!(driver.step(&Event::Polled(vec![])), Action::Stop);
    assert!(driver.is_stopped());
}

#[test]
fn other_events_do_not_stop_the_loop() {
    let (mut driver, _) = Driver::launch(None);
    for frame in 0..5 {
        for _ in 0..4 {
            driver.step(&Event::Completed);
        }
        let polled = Event::Polled(vec![WindowEvent::Other; frame]);
        assert_eq!(driver.step(&polled), Action::Clear);
        assert!(!driver.is_stopped());
    }
}

#[test]
fn reports_nobody_waits_for_change_nothing() {
    let (mut driver, _) = Driver::launch(Oscillator::new(10));
    let before = driver;
    let close = Event::Polled(vec![WindowEvent::CloseRequested]);
    assert_eq!(driver.step(&close), Action::Clear);
    assert_eq!(driver, before);
    for _ in 0..4 {
        driver.step(&Event::Completed);
    }
    let polling = driver;
    assert_eq!(driver.step(&Event::Completed), Action::Poll);
    assert_eq!(driver, polling);
}

#[test]
fn animation_steps_once_a_frame() {
    let (mut driver, _) = Driver::launch(Oscillator::new(1000));
    let mut offsets = Vec::new();
    for _ in 0..3 {
        match driver.step(&Event::Completed) {
            Action::Draw { offset } => offsets.push(offset),
            other => panic!("expected a draw, got {:?}", other),
        }
        driver.step(&Event::Completed);
        driver.step(&Event::Completed);
        driver.step(&Event::Completed);
        driver.step(&Event::Polled(vec![WindowEvent::Other]));
    }
    assert_eq!(offsets, vec![Some(-999), Some(-998), Some(-997)]);
}

#[test]
fn driven_animation_turns_within_two_thousand_frames() {
    let (mut driver, _) = Driver::launch(Oscillator::new(1000));
    let mut last = None;
    for _ in 0..2000 {
        match driver.step(&Event::Completed) {
            Action::Draw { offset: Some(steps) } => {
                assert!(-1000 <= steps && steps <= 1000);
                last = Some(steps);
            }
            other => panic!("expected a draw, got {:?}", other),
        }
        driver.step(&Event::Completed);
        driver.step(&Event::Completed);
        assert_eq!(driver.step(&Event::Completed), Action::Poll);
        if last != Some(1000) {
            driver.step(&Event::Polled(vec![]));
        }
    }
    assert_eq!(last, Some(1000));
    assert_eq!(driver.animation.unwrap().direction, Direction::Falling);
}
