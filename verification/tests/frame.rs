use raycaster::fixed::ONE;
use raycaster::frame::{Engine, Frame};
use raycaster::input::{Input, Key, KeyAction, KeyEvent};
use raycaster::ray_caster::{Player, RayCaster, START_X, START_Y};

fn press(key: Key) -> KeyEvent {
    KeyEvent { key, action: KeyAction::Press }
}

fn release(key: Key) -> KeyEvent {
    KeyEvent { key, action: KeyAction::Release }
}

fn idle() -> Input {
    Input { rot_left: false, rot_right: false, forward: false, backward: false, view_mode: false }
}

#[test]
fn input_starts_idle() {
    assert_eq!(Input::new(), idle());
    assert_eq!(Input::new().keys(), [false, false, false, false]);
}

#[test]
fn movement_keys_are_sticky() {
    let mut input = Input::new();
    input.apply(press(Key::Forward));
    assert_eq!(input, Input { forward: true, ..idle() });
    input.apply(press(Key::RotateLeft));
    assert_eq!(input, Input { forward: true, rot_left: true, ..idle() });
    input.apply(press(Key::Forward));
    assert_eq!(input, Input { forward: true, rot_left: true, ..idle() });
    input.apply(release(Key::Forward));
    assert_eq!(input, Input { rot_left: true, ..idle() });
    input.apply(release(Key::Forward));
    assert_eq!(input, Input { rot_left: true, ..idle() });
    input.apply(press(Key::RotateRight));
    input.apply(press(Key::Backward));
    assert_eq!(input, Input { rot_left: true, rot_right: true, backward: true, ..idle() });
    input.apply(release(Key::RotateLeft));
    input.apply(release(Key::RotateRight));
    input.apply(release(Key::Backward));
    assert_eq!(input, idle());
}

#[test]
fn keys_come_in_the_order_left_right_forward_backward() {
    assert_eq!(Input { rot_left: true, ..idle() }.keys(), [true, false, false, false]);
    assert_eq!(Input { rot_right: true, ..idle() }.keys(), [false, true, false, false]);
    assert_eq!(Input { forward: true, ..idle() }.keys(), [false, false, true, false]);
    assert_eq!(Input { backward: true, ..idle() }.keys(), [false, false, false, true]);
    assert_eq!(Input { view_mode: true, ..idle() }.keys(), [false, false, false, false]);
}

#[test]
fn the_view_turns_over_on_each_press() {
    let mut input = Input::new();
    input.apply(press(Key::ToggleView));
    assert_eq!(input, Input { view_mode: true, ..idle() });
    input.apply(release(Key::ToggleView));
    assert_eq!(input, Input { view_mode: true, ..idle() });
    input.apply(press(Key::ToggleView));
    assert_eq!(input, idle());
    input.apply(release(Key::ToggleView));
    assert_eq!(input, idle());
}

#[test]
fn drain_takes_events_in_order() {
    let mut input = Input::new();
    input.drain(&vec![press(Key::Forward), release(Key::Forward), press(Key::ToggleView)]);
    assert_eq!(input, Input { view_mode: true, ..idle() });
    input.drain(&vec![release(Key::Backward), press(Key::Backward)]);
    assert_eq!(input, Input { view_mode: true, backward: true, ..idle() });
    input.drain(&Vec::new());
    assert_eq!(input, Input { view_mode: true, backward: true, ..idle() });
    let mut other = Input::new();
    for event in [press(Key::Forward), release(Key::Forward), press(Key::ToggleView), release(Key::Backward), press(Key::Backward)] {
        other.apply(event);
    }
    assert_eq!(other, input);
}

#[test]
fn a_new_engine_is_idle() {
    let engine = Engine::new(RayCaster::new(), 5 * ONE);
    assert_eq!(engine.input(), idle());
    assert_eq!(engine.last_frame(), 5 * ONE);
    assert_eq!(engine.caster().player(), Player { x: START_X, y: START_Y, angle: 0 });
}

#[test]
fn the_landscape_view_leaves_the_world_alone() {
    let mut engine = Engine::new(RayCaster::new(), 0);
    let events = vec![press(Key::Forward), press(Key::RotateRight)];
    assert!(engine.can_run(&events, 120_000));
    let shown = engine.frame(&events, 120_000);
    assert!(matches!(shown, Frame::Landscape));
    assert_eq!(engine.caster().player(), Player { x: START_X, y: START_Y, angle: 0 });
    assert_eq!(engine.input(), Input { forward: true, rot_right: true, ..idle() });
    assert_eq!(engine.last_frame(), 120_000);
}

#[test]
fn the_first_person_view_moves_casts_and_draws() {
    let mut engine = Engine::new(RayCaster::new(), 1_000_000);
    let events = vec![press(Key::ToggleView), press(Key::Backward)];
    // the frame lasts 120 microseconds: S * dt = 0.6
    let now = 1_000_000 + 120_000;
    assert!(engine.can_run(&events, now));
    let shown = engine.frame(&events, now);
    assert_eq!(engine.caster().player(), Player { x: START_X, y: 4_900_000_000, angle: 0 });
    assert_eq!(engine.last_frame(), now);
    let lines = match shown {
        Frame::FirstPerson(lines) => lines,
        Frame::Landscape => panic!("landscape"),
    };
    assert_eq!(lines.len(), 200);
    let rays = engine.caster().ray_cast();
    assert_eq!(rays[100], (8_100_000_000, true));
    assert_eq!(lines, engine.caster().render(&rays));
    // 1 - 8.1 / 16
    assert_eq!(lines[100].y1, 493_750_000);

    // the key stays held over the next frame, which lasts half as long
    let shown = engine.frame(&Vec::new(), now + 60_000);
    assert!(matches!(shown, Frame::FirstPerson(_)));
    assert_eq!(engine.caster().player(), Player { x: START_X, y: 4_600_000_000, angle: 0 });

    // back to the landscape view: time passes, the player stays
    let shown = engine.frame(&vec![press(Key::ToggleView)], now + 1_000_000);
    assert!(matches!(shown, Frame::Landscape));
    assert_eq!(engine.caster().player(), Player { x: START_X, y: 4_600_000_000, angle: 0 });
    assert_eq!(engine.last_frame(), now + 1_000_000);

    // and the time step of the next frame counts from the last frame
    let shown = engine.frame(&vec![press(Key::ToggleView)], now + 1_000_000 + 20_000);
    assert!(matches!(shown, Frame::FirstPerson(_)));
    assert_eq!(engine.caster().player(), Player { x: START_X, y: 4_500_000_000, angle: 0 });
}

#[test]
fn a_frame_with_no_time_moves_nothing() {
    let mut engine = Engine::new(RayCaster::new(), 7);
    let events = vec![press(Key::ToggleView), press(Key::Forward), press(Key::RotateLeft)];
    assert!(engine.can_run(&events, 7));
    let shown = engine.frame(&events, 7);
    assert!(matches!(shown, Frame::FirstPerson(_)));
    assert_eq!(engine.caster().player(), Player { x: START_X, y: START_Y, angle: 0 });
}

#[test]
fn can_run_refuses_a_clock_that_runs_backwards() {
    let engine = Engine::new(RayCaster::new(), 1_000);
    assert!(!engine.can_run(&Vec::new(), 999));
    assert!(engine.can_run(&Vec::new(), 1_000));
    assert!(!engine.can_run(&vec![press(Key::ToggleView)], 999));
}

#[test]
fn can_run_refuses_a_turn_that_cannot_be_stored() {
    let far = Player { x: START_X, y: START_Y, angle: i64::MAX - 10 };
    let caster = RayCaster::assemble(
        raycaster::ray_caster::Config::reference(),
        raycaster::grid::Grid::reference(),
        far,
    )
    .unwrap();
    let engine = Engine::new(caster, 0);
    let turn_right = vec![press(Key::ToggleView), press(Key::RotateRight)];
    assert!(!engine.can_run(&turn_right, 83_776));
    // in the landscape view nothing turns
    assert!(engine.can_run(&vec![press(Key::RotateRight)], 83_776));
    let turn_left = vec![press(Key::ToggleView), press(Key::RotateLeft)];
    assert!(engine.can_run(&turn_left, 83_776));
}
