use frame_loop::controller::{Controller, Frame, LoopState, Outcome, Reaction, PAUSE_MS};
use frame_loop::demo::Demo;
use frame_loop::draw::{Draw, Mesh, Pass, Rgba};
use frame_loop::event::{Action, Event, Key};

const KEY_A: i32 = 65;
const SHIFT: i32 = 1;

fn key(key: Key, action: Action) -> Event {
    Event::Key { key, action, modifiers: 0 }
}

fn space_release() -> Event {
    key(Key::Space, Action::Release)
}

fn escape_release() -> Event {
    key(Key::Escape, Action::Release)
}

fn render(draws: Vec<Draw>) -> Outcome {
    let clear = Rgba { red: 0, green: 0, blue: 0, alpha: 0 };
    Outcome::Render { pass: Pass { clear, draws }, pause_ms: 100 }
}

fn direct_draws() -> Vec<Draw> {
    vec![
        Draw { mesh: Mesh::Direct, offset: 3, count: 3 },
        Draw { mesh: Mesh::Direct, offset: 0, count: 3 },
    ]
}

fn indexed_draws() -> Vec<Draw> {
    vec![
        Draw { mesh: Mesh::Indexed, offset: 0, count: 3 },
        Draw { mesh: Mesh::Indexed, offset: 3, count: 3 },
    ]
}

/// Events that ask neither to quit nor to toggle.
fn other_events() -> Vec<Event> {
    vec![
        Event::Other,
        key(Key::Other(KEY_A), Action::Press),
        key(Key::Other(KEY_A), Action::Release),
        key(Key::Other(KEY_A), Action::Repeat),
        key(Key::Space, Action::Press),
        key(Key::Space, Action::Repeat),
        key(Key::Escape, Action::Press),
        key(Key::Escape, Action::Repeat),
        Event::Key { key: Key::Space, action: Action::Press, modifiers: SHIFT },
    ]
}

#[test]
fn new_controller_is_running_in_direct_mode() {
    let controller = Controller::new();
    assert_eq!(controller.mode, Demo::Direct);
    assert_eq!(controller.state, LoopState::Running);
}

#[test]
fn pause_is_a_tenth_of_a_second() {
    assert_eq!(PAUSE_MS, 100);
}

#[test]
fn close_ends_the_loop() {
    let mut controller = Controller::new();
    assert_eq!(controller.handle_event(Event::Close), Reaction::Quit);
    assert_eq!(controller.state, LoopState::Terminated);
    assert_eq!(controller.mode, Demo::Direct);
}

#[test]
fn escape_release_ends_the_loop() {
    let mut controller = Controller::new();
    assert_eq!(controller.handle_event(escape_release()), Reaction::Quit);
    assert_eq!(controller.state, LoopState::Terminated);
    assert_eq!(controller.mode, Demo::Direct);
}

#[test]
fn space_release_toggles_and_announces_the_new_mode() {
    let mut controller = Controller::new();
    assert_eq!(controller.handle_event(space_release()), Reaction::Toggled(Demo::Indexed));
    assert_eq!(controller.mode, Demo::Indexed);
    assert_eq!(controller.state, LoopState::Running);
    assert_eq!(controller.handle_event(space_release()), Reaction::Toggled(Demo::Direct));
    assert_eq!(controller.mode, Demo::Direct);
    assert_eq!(controller.state, LoopState::Running);
}

#[test]
fn modifiers_do_not_matter() {
    for modifiers in [0, SHIFT, 2, 4, 8, 0x3f, -1] {
        let mut controller = Controller::new();
        let toggle = Event::Key { key: Key::Space, action: Action::Release, modifiers };
        assert_eq!(controller.handle_event(toggle), Reaction::Toggled(Demo::Indexed));
        let quit = Event::Key { key: Key::Escape, action: Action::Release, modifiers };
        assert_eq!(controller.handle_event(quit), Reaction::Quit);
        assert_eq!(controller, Controller { mode: Demo::Indexed, state: LoopState::Terminated });
    }
}

#[test]
fn mode_after_n_space_releases_follows_parity() {
    let mut controller = Controller::new();
    for n in 1..=10u32 {
        controller.handle_event(space_release());
        let expected = if n % 2 == 0 { Demo::Direct } else { Demo::Indexed };
        assert_eq!(controller.mode, expected, "after {} space releases", n);
        assert_eq!(controller.state, LoopState::Running);
    }
}

#[test]
fn other_events_between_toggles_do_not_count() {
    let mut controller = Controller::new();
    let mut toggles = 0u32;
    for round in 0..5 {
        for event in other_events() {
            controller.handle_event(event);
        }
        if round % 2 == 0 {
            controller.handle_event(space_release());
            toggles += 1;
        }
    }
    assert_eq!(toggles, 3);
    assert_eq!(controller.mode, Demo::Indexed);
}

#[test]
fn other_events_change_nothing() {
    for mode in [Demo::Direct, Demo::Indexed] {
        for state in [LoopState::Running, LoopState::Terminated] {
            for event in other_events() {
                let mut controller = Controller { mode, state };
                assert_eq!(controller.handle_event(event), Reaction::Ignored);
                assert_eq!(controller, Controller { mode, state });
                assert_eq!(controller.handle_event(event), Reaction::Ignored);
                assert_eq!(controller, Controller { mode, state });
            }
        }
    }
}

#[test]
fn key_a_pressed_changes_nothing_and_the_frame_is_rendered() {
    let mut controller = Controller::new();
    let frame = controller.step(&vec![key(Key::Other(KEY_A), Action::Press)]);
    assert_eq!(controller, Controller { mode: Demo::Direct, state: LoopState::Running });
    assert_eq!(frame, Frame { notices: vec![], outcome: render(direct_draws()) });
}

#[test]
fn space_release_switches_to_indexed_and_the_loop_goes_on() {
    let mut controller = Controller::new();
    let frame = controller.step(&vec![space_release()]);
    assert_eq!(controller, Controller { mode: Demo::Indexed, state: LoopState::Running });
    assert_eq!(frame, Frame { notices: vec![Demo::Indexed], outcome: render(indexed_draws()) });
}

#[test]
fn close_terminates_without_rendering() {
    let mut controller = Controller::new();
    let frame = controller.step(&vec![Event::Close]);
    assert_eq!(controller.state, LoopState::Terminated);
    assert_eq!(frame, Frame { notices: vec![], outcome: Outcome::Stop });
}

#[test]
fn escape_release_terminates_without_rendering() {
    let mut controller = Controller::new();
    let frame = controller.step(&vec![escape_release()]);
    assert_eq!(controller.state, LoopState::Terminated);
    assert_eq!(frame, Frame { notices: vec![], outcome: Outcome::Stop });
}

#[test]
fn empty_batch_renders_the_current_mode() {
    let mut controller = Controller::new();
    let frame = controller.step(&vec![]);
    assert_eq!(controller, Controller::new());
    assert_eq!(frame, Frame { notices: vec![], outcome: render(direct_draws()) });

    let mut controller = Controller { mode: Demo::Indexed, state: LoopState::Running };
    let frame = controller.step(&vec![]);
    assert_eq!(controller.mode, Demo::Indexed);
    assert_eq!(frame, Frame { notices: vec![], outcome: render(indexed_draws()) });
}

#[test]
fn rendered_frame_clears_to_black_and_pauses() {
    let mut controller = Controller::new();
    match controller.step(&vec![]).outcome {
        Outcome::Render { pass, pause_ms } => {
            assert_eq!(pass.clear, Rgba { red: 0, green: 0, blue: 0, alpha: 0 });
            assert_eq!(pause_ms, 100);
        }
        Outcome::Stop => panic!("a running loop with nothing to handle renders"),
    }
}

#[test]
fn toggles_in_one_batch_are_announced_in_order() {
    let mut controller = Controller::new();
    let batch = vec![space_release(), Event::Other, space_release(), space_release()];
    let frame = controller.step(&batch);
    assert_eq!(frame.notices, vec![Demo::Indexed, Demo::Direct, Demo::Indexed]);
    assert_eq!(frame.outcome, render(indexed_draws()));
    assert_eq!(controller.mode, Demo::Indexed);
}

#[test]
fn toggles_before_a_quit_still_count() {
    let mut controller = Controller::new();
    let frame = controller.step(&vec![space_release(), Event::Close]);
    assert_eq!(frame, Frame { notices: vec![Demo::Indexed], outcome: Outcome::Stop });
    assert_eq!(controller, Controller { mode: Demo::Indexed, state: LoopState::Terminated });
}

#[test]
fn events_after_a_quit_are_not_handled() {
    let mut controller = Controller::new();
    let batch = vec![space_release(), escape_release(), space_release(), space_release()];
    let frame = controller.step(&batch);
    assert_eq!(frame, Frame { notices: vec![Demo::Indexed], outcome: Outcome::Stop });
    assert_eq!(controller, Controller { mode: Demo::Indexed, state: LoopState::Terminated });
}

#[test]
fn terminated_loop_stays_terminated() {
    let mut controller = Controller::new();
    controller.step(&vec![Event::Close]);
    let after_close = controller;
    for batch in [vec![], vec![space_release()], vec![Event::Other], vec![Event::Close]] {
        let frame = controller.step(&batch);
        assert_eq!(frame, Frame { notices: vec![], outcome: Outcome::Stop });
        assert_eq!(controller, after_close);
    }
}

#[test]
fn mode_carries_over_from_frame_to_frame() {
    let mut controller = Controller::new();
    let first = controller.step(&vec![space_release()]);
    assert_eq!(first.outcome, render(indexed_draws()));
    let second = controller.step(&vec![Event::Other]);
    assert_eq!(second, Frame { notices: vec![], outcome: render(indexed_draws()) });
    let third = controller.step(&vec![space_release()]);
    assert_eq!(third, Frame { notices: vec![Demo::Direct], outcome: render(direct_draws()) });
    let last = controller.step(&vec![escape_release()]);
    assert_eq!(last, Frame { notices: vec![], outcome: Outcome::Stop });
    assert_eq!(controller, Controller { mode: Demo::Direct, state: LoopState::Terminated });
}
