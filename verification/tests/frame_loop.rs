use textured_quad::frame::{
    clear_color, next_frame, transform_steps, FrameCommand, InputEvent, LoopState, TransformStep,
};
use textured_quad::ratio::Ratio;

fn as_float(q: Ratio) -> f32 {
    q.num as f32 / q.den as f32
}

/// The matrix of the frame `t` seconds after the loop began.
fn transform_at(t: f32) -> nalgebra_glm::Mat4 {
    let mut m = nalgebra_glm::identity::<f32, 4>();
    for step in transform_steps() {
        m = match step {
            TransformStep::Scale(k) => {
                let k = as_float(k);
                nalgebra_glm::scale(&m, &nalgebra_glm::vec3(k, k, k))
            }
            TransformStep::RotateAboutZ => {
                nalgebra_glm::rotate(&m, t, &nalgebra_glm::vec3(0.0, 0.0, 1.0))
            }
            TransformStep::Pulse { amplitude, offset } => {
                let k = pulse(amplitude, offset, t);
                nalgebra_glm::scale(&m, &nalgebra_glm::vec3(k, k, k))
            }
        };
    }
    m
}

fn pulse(amplitude: Ratio, offset: Ratio, t: f32) -> f32 {
    t.sin() * as_float(amplitude) + as_float(offset)
}

#[test]
fn quit_ends_the_loop_within_the_iteration() {
    let events = vec![InputEvent::Other, InputEvent::Quit, InputEvent::Other];
    let (state, commands) = next_frame(LoopState::Running, &events);
    assert_eq!(state, LoopState::Quitting);
    assert_eq!(commands, Vec::new());
    let (state, commands) = next_frame(LoopState::Running, &vec![InputEvent::Quit]);
    assert_eq!(state, LoopState::Quitting);
    assert!(commands.is_empty());
}

#[test]
fn quitting_is_final() {
    let (state, commands) = next_frame(LoopState::Quitting, &Vec::new());
    assert_eq!(state, LoopState::Quitting);
    assert!(commands.is_empty());
    let (state, commands) = next_frame(LoopState::Quitting, &vec![InputEvent::Other; 3]);
    assert_eq!(state, LoopState::Quitting);
    assert!(commands.is_empty());
    assert_eq!(LoopState::Quitting.on_event(InputEvent::Other), LoopState::Quitting);
    assert_eq!(LoopState::Quitting.on_event(InputEvent::Quit), LoopState::Quitting);
}

#[test]
fn other_events_are_ignored() {
    assert_eq!(LoopState::Running.on_event(InputEvent::Other), LoopState::Running);
    assert_eq!(LoopState::Running.on_event(InputEvent::Quit), LoopState::Quitting);
    assert_eq!(LoopState::Running.on_events(&vec![InputEvent::Other; 100]), LoopState::Running);
    assert_eq!(LoopState::Running.on_events(&Vec::new()), LoopState::Running);
    let mut late = vec![InputEvent::Other; 100];
    late.push(InputEvent::Quit);
    assert_eq!(LoopState::Running.on_events(&late), LoopState::Quitting);
}

#[test]
fn running_frame_uploads_clears_draws_and_presents() {
    for events in [Vec::new(), vec![InputEvent::Other, InputEvent::Other]] {
        let (state, commands) = next_frame(LoopState::Running, &events);
        assert_eq!(state, LoopState::Running);
        assert_eq!(
            commands,
            vec![
                FrameCommand::UploadTransform,
                FrameCommand::Clear,
                FrameCommand::DrawTriangles { indices: 6 },
                FrameCommand::Present,
            ]
        );
    }
}

#[test]
fn loop_driven_by_frames_stops_at_the_quit() {
    let queue = vec![
        vec![InputEvent::Other],
        Vec::new(),
        vec![InputEvent::Other, InputEvent::Quit],
        vec![InputEvent::Other],
    ];
    let mut state = LoopState::Running;
    let mut drawn = 0;
    let mut iterations = 0;
    for events in &queue {
        iterations += 1;
        let (next, commands) = next_frame(state, events);
        state = next;
        if state == LoopState::Quitting {
            break;
        }
        assert_eq!(commands.len(), 4);
        drawn += 1;
    }
    assert_eq!(state, LoopState::Quitting);
    assert_eq!(iterations, 3);
    assert_eq!(drawn, 2);
}

#[test]
fn transform_is_scale_rotate_pulse() {
    assert_eq!(
        transform_steps(),
        vec![
            TransformStep::Scale(Ratio { num: 1, den: 2 }),
            TransformStep::RotateAboutZ,
            TransformStep::Pulse {
                amplitude: Ratio { num: 1, den: 4 },
                offset: Ratio { num: 3, den: 4 },
            },
        ]
    );
}

#[test]
fn pulse_stays_between_a_half_and_one() {
    let (amplitude, offset) = match transform_steps()[2] {
        TransformStep::Pulse { amplitude, offset } => (amplitude, offset),
        other => panic!("the last step is {:?}", other),
    };
    assert_eq!(as_float(amplitude), 0.25);
    assert_eq!(as_float(offset), 0.75);
    let mut lowest = f32::MAX;
    let mut highest = f32::MIN;
    for i in 0..200_000 {
        let t = i as f32 * 0.01;
        let k = pulse(amplitude, offset, t);
        assert!((0.5..=1.0).contains(&k), "pulse {} at t = {}", k, t);
        lowest = lowest.min(k);
        highest = highest.max(k);
    }
    assert!(lowest < 0.5001 && highest > 0.9999);
    assert_eq!(pulse(amplitude, offset, 0.0), 0.75);
    assert!((pulse(amplitude, offset, std::f32::consts::FRAC_PI_2) - 1.0).abs() < 1e-6);
}

#[test]
fn transform_at_rest_is_a_scale_of_three_eighths() {
    let m = transform_at(0.0);
    let expected = nalgebra_glm::scale(
        &nalgebra_glm::identity::<f32, 4>(),
        &nalgebra_glm::vec3(0.375, 0.375, 0.375),
    );
    for row in 0..4 {
        for column in 0..4 {
            assert!(
                (m[(row, column)] - expected[(row, column)]).abs() < 1e-6,
                "entry ({}, {}) is {}",
                row,
                column,
                m[(row, column)]
            );
        }
    }
    assert_eq!(m[(0, 0)], 0.375);
    assert_eq!(m[(1, 1)], 0.375);
    assert_eq!(m[(2, 2)], 0.375);
    assert_eq!(m[(3, 3)], 1.0);
    assert_eq!(m[(0, 1)], 0.0);
    assert_eq!(m[(1, 0)], 0.0);
}

#[test]
fn transform_a_quarter_turn_on() {
    // A quarter turn after the start the pulse is at its height, so the quad
    // is halved, turned by a right angle and left at that size.
    let t = std::f32::consts::FRAC_PI_2;
    let m = transform_at(t);
    assert!((m[(0, 0)]).abs() < 1e-6);
    assert!((m[(1, 0)] - 0.5).abs() < 1e-6);
    assert!((m[(0, 1)] + 0.5).abs() < 1e-6);
    assert!((m[(1, 1)]).abs() < 1e-6);
    assert!((m[(2, 2)] - 0.5).abs() < 1e-6);
}

#[test]
fn clear_colour_is_a_dark_teal() {
    let rgba: Vec<f32> = clear_color().into_iter().map(as_float).collect();
    assert_eq!(rgba, vec![0.2, 0.3, 0.3, 1.0]);
    assert_eq!(clear_color()[0], Ratio { num: 1, den: 5 });
}
