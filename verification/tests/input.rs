use std::collections::VecDeque;

use sprite_demo::geometry::{Position, Rect};
use sprite_demo::input::{translate_events, FrameInput, InputEvent, Key, Translation};
use sprite_demo::movement::{update_player, MovementCommand, Player, Velocity};

const KEYS: [Key; 6] = [Key::Up, Key::Down, Key::Left, Key::Right, Key::Escape, Key::Other];

fn down(key: Key) -> InputEvent {
    InputEvent::KeyDown { key, repeat: false }
}

fn up(key: Key) -> InputEvent {
    InputEvent::KeyUp { key, repeat: false }
}

fn commands(list: &[MovementCommand]) -> FrameInput {
    FrameInput::Commands(list.iter().copied().collect::<VecDeque<MovementCommand>>())
}

#[test]
fn a_quit_event_quits() {
    assert_eq!(InputEvent::Quit.translate(), Translation::Quit);
    assert_eq!(translate_events(&vec![InputEvent::Quit]), FrameInput::Quit);
}

#[test]
fn pressing_escape_quits() {
    assert_eq!(down(Key::Escape).translate(), Translation::Quit);
    assert_eq!(
        InputEvent::KeyDown { key: Key::Escape, repeat: true }.translate(),
        Translation::Quit
    );
    assert_eq!(translate_events(&vec![down(Key::Escape)]), FrameInput::Quit);
}

#[test]
fn releasing_escape_does_nothing() {
    assert_eq!(up(Key::Escape).translate(), Translation::Ignored);
    assert_eq!(translate_events(&vec![up(Key::Escape)]), commands(&[]));
}

#[test]
fn a_press_starts_the_player() {
    assert_eq!(down(Key::Up).translate(), Translation::Command(MovementCommand::GoUp));
    assert_eq!(down(Key::Down).translate(), Translation::Command(MovementCommand::GoDown));
    assert_eq!(down(Key::Left).translate(), Translation::Command(MovementCommand::GoLeft));
    assert_eq!(down(Key::Right).translate(), Translation::Command(MovementCommand::GoRight));
}

#[test]
fn a_repeated_press_starts_the_player_too() {
    let held = InputEvent::KeyDown { key: Key::Right, repeat: true };
    assert_eq!(held.translate(), Translation::Command(MovementCommand::GoRight));
    assert_eq!(
        translate_events(&vec![down(Key::Right), held, held]),
        commands(&[MovementCommand::GoRight, MovementCommand::GoRight, MovementCommand::GoRight])
    );
}

#[test]
fn a_release_halts_the_player() {
    assert_eq!(up(Key::Up).translate(), Translation::Command(MovementCommand::HaltUp));
    assert_eq!(up(Key::Down).translate(), Translation::Command(MovementCommand::HaltDown));
    assert_eq!(up(Key::Left).translate(), Translation::Command(MovementCommand::HaltLeft));
    assert_eq!(up(Key::Right).translate(), Translation::Command(MovementCommand::HaltRight));
}

#[test]
fn a_synthetic_release_is_ignored() {
    for key in KEYS {
        let synthetic = InputEvent::KeyUp { key, repeat: true };
        assert_eq!(synthetic.translate(), Translation::Ignored);
    }
    assert_eq!(
        translate_events(&vec![
            down(Key::Left),
            InputEvent::KeyUp { key: Key::Left, repeat: true },
        ]),
        commands(&[MovementCommand::GoLeft])
    );
}

#[test]
fn other_keys_and_other_events_are_ignored() {
    assert_eq!(down(Key::Other).translate(), Translation::Ignored);
    assert_eq!(up(Key::Other).translate(), Translation::Ignored);
    assert_eq!(InputEvent::Other.translate(), Translation::Ignored);
    assert_eq!(
        translate_events(&vec![InputEvent::Other, down(Key::Other), up(Key::Other)]),
        commands(&[])
    );
}

#[test]
fn no_events_give_an_empty_queue() {
    assert_eq!(translate_events(&vec![]), commands(&[]));
}

#[test]
fn commands_come_in_the_order_of_the_events() {
    let events = vec![
        down(Key::Left),
        InputEvent::Other,
        up(Key::Left),
        down(Key::Other),
        down(Key::Up),
        InputEvent::KeyUp { key: Key::Up, repeat: true },
        down(Key::Down),
        up(Key::Right),
    ];
    assert_eq!(
        translate_events(&events),
        commands(&[
            MovementCommand::GoLeft,
            MovementCommand::HaltLeft,
            MovementCommand::GoUp,
            MovementCommand::GoDown,
            MovementCommand::HaltRight,
        ])
    );
}

#[test]
fn a_quit_anywhere_ends_the_frame() {
    let moves = vec![down(Key::Left), up(Key::Left), down(Key::Up)];
    for at in 0..=moves.len() {
        let mut events = moves.clone();
        events.insert(at, InputEvent::Quit);
        assert_eq!(translate_events(&events), FrameInput::Quit);

        let mut events = moves.clone();
        events.insert(at, down(Key::Escape));
        assert_eq!(translate_events(&events), FrameInput::Quit);
    }
}

#[test]
fn held_key_moves_the_player_as_one_press_does() {
    let sprite = Rect::new(0, 0, 26, 36);
    let mut pressed_once = Player::new(Position::new(0, 0), sprite, 20);
    match translate_events(&vec![down(Key::Right)]) {
        FrameInput::Commands(queue) => update_player(&mut pressed_once, &queue),
        FrameInput::Quit => panic!("no event asked to quit"),
    }

    let mut held = Player::new(Position::new(0, 0), sprite, 20);
    let mut events = vec![down(Key::Right)];
    for _ in 0..5 {
        events.push(InputEvent::KeyDown { key: Key::Right, repeat: true });
    }
    match translate_events(&events) {
        FrameInput::Commands(queue) => {
            assert_eq!(queue.len(), 6);
            update_player(&mut held, &queue)
        }
        FrameInput::Quit => panic!("no event asked to quit"),
    }

    assert_eq!(held, pressed_once);
    assert_eq!(held.current_velocity, Velocity { x: 20, y: 0 });
    assert_eq!(held.position, Position { x: 20, y: 0 });
}
