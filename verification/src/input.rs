//! From the input events of one frame to its movement commands.
//!
//! Events are read in the order in which they arrived. A request to quit
//! ends the frame's translation: the loop stops, and the commands of that
//! frame are of no use to anyone. Otherwise each press or release of a
//! direction key gives one command, and every other event gives none.

use std::collections::VecDeque;
use vstd::prelude::*;

use crate::movement::{lemma_repeats_collapse, Direction, MovementCommand, Player};

verus! {

/// The keys that the demo tells apart.
#[derive(Clone, Copy, Debug, PartialEq, Eq, Structural)]
pub enum Key {
    Up,
    Down,
    Left,
    Right,
    Escape,
    /// Any other key, or a key that the platform could not name.
    Other,
}

impl Key {
    /// The direction that a direction key stands for.
    pub open spec fn direction(self) -> Option<Direction> {
        match self {
            Key::Up => Some(Direction::Up),
            Key::Down => Some(Direction::Down),
            Key::Left => Some(Direction::Left),
            Key::Right => Some(Direction::Right),
            Key::Escape => None,
            Key::Other => None,
        }
    }
}

/// An event of the windowing system, reduced to what the demo reads.
#[derive(Clone, Copy, Debug, PartialEq, Eq, Structural)]
pub enum InputEvent {
    /// The window was closed, or the session asks the program to end.
    Quit,
    /// A key went down; `repeat` is set where the key is being held and
    /// the platform repeats it.
    KeyDown { key: Key, repeat: bool },
    /// A key came up; `repeat` is set where the platform synthesised the
    /// release as part of a key repeat.
    KeyUp { key: Key, repeat: bool },
    /// Anything else.
    Other,
}

/// What one event asks for.
#[derive(Clone, Copy, Debug, PartialEq, Eq, Structural)]
pub enum Translation {
    /// End the program.
    Quit,
    /// Hand this command to the player.
    Command(MovementCommand),
    /// Nothing.
    Ignored,
}

impl InputEvent {
    /// What the event asks for.
    ///
    /// Quitting is asked for by a quit event and by pressing escape. A
    /// press of a direction key starts the player in that direction,
    /// repeats included. A release of a direction key halts the player,
    /// unless the release is a synthetic repeat.
    pub open spec fn translation(self) -> Translation {
        match self {
            InputEvent::Quit => Translation::Quit,
            InputEvent::KeyDown { key, repeat } => {
                if key == Key::Escape {
                    Translation::Quit
                } else {
                    match key.direction() {
                        Some(d) => Translation::Command(MovementCommand::start(d)),
                        None => Translation::Ignored,
                    }
                }
            },
            InputEvent::KeyUp { key, repeat } => {
                match key.direction() {
                    Some(d) if !repeat => Translation::Command(MovementCommand::halt(d)),
                    _ => Translation::Ignored,
                }
            },
            InputEvent::Other => Translation::Ignored,
        }
    }

    /// Reads one event.
    pub fn translate(self) -> (t: Translation)
        ensures
            t == self.translation(),
    {
        match self {
            InputEvent::Quit | InputEvent::KeyDown { key: Key::Escape, .. } => Translation::Quit,
            InputEvent::KeyDown { key: Key::Left, .. } => Translation::Command(
                MovementCommand::GoLeft,
            ),
            InputEvent::KeyDown { key: Key::Right, .. } => Translation::Command(
                MovementCommand::GoRight,
            ),
            InputEvent::KeyDown { key: Key::Up, .. } => Translation::Command(
                MovementCommand::GoUp,
            ),
            InputEvent::KeyDown { key: Key::Down, .. } => Translation::Command(
                MovementCommand::GoDown,
            ),
            InputEvent::KeyUp { key: Key::Left, repeat: false } => Translation::Command(
                MovementCommand::HaltLeft,
            ),
            InputEvent::KeyUp { key: Key::Right, repeat: false } => Translation::Command(
                MovementCommand::HaltRight,
            ),
            InputEvent::KeyUp { key: Key::Up, repeat: false } => Translation::Command(
                MovementCommand::HaltUp,
            ),
            InputEvent::KeyUp { key: Key::Down, repeat: false } => Translation::Command(
                MovementCommand::HaltDown,
            ),
            _ => Translation::Ignored,
        }
    }
}

/// Some event of `events` asks to quit.
pub open spec fn asks_to_quit(events: Seq<InputEvent>) -> bool {
    exists|i: int| 0 <= i < events.len() && (#[trigger] events[i]).translation() is Quit
}

/// The commands that `events` give, in the order of the events.
pub open spec fn commands_of(events: Seq<InputEvent>) -> Seq<MovementCommand>
    decreases events.len(),
{
    if events.len() == 0 {
        Seq::empty()
    } else {
        let earlier = commands_of(events.drop_last());
        match events.last().translation() {
            Translation::Command(command) => earlier.push(command),
            _ => earlier,
        }
    }
}

/// What the input of one frame comes to.
#[derive(Debug, PartialEq, Eq)]
pub enum FrameInput {
    /// The program is to end before this frame is updated or drawn.
    Quit,
    /// The frame goes on with these commands, oldest first.
    Commands(VecDeque<MovementCommand>),
}

/// Translates the events that arrived since the last frame.
///
/// The queue of commands is built anew for each frame: nothing of an
/// earlier frame's queue is carried over.
pub fn translate_events(events: &Vec<InputEvent>) -> (input: FrameInput)
    ensures
        input is Quit <==> asks_to_quit(events@),
        input matches FrameInput::Commands(queue) ==> queue@ == commands_of(events@),
{
    let mut queue: VecDeque<MovementCommand> = VecDeque::new();
    let n: usize = events.len();
    let mut i: usize = 0;
    while i < n
        invariant
            n == events@.len(),
            i <= n,
            !asks_to_quit(events@.take(i as int)),
            queue@ == commands_of(events@.take(i as int)),
        decreases n - i,
    {
        let event: InputEvent = events[i];
        proof {
            let next = events@.take(i + 1);
            assert(next.drop_last() == events@.take(i as int));
            assert(next.last() == events@[i as int]);
        }
        match event.translate() {
            Translation::Quit => {
                return FrameInput::Quit;
            },
            Translation::Command(command) => {
                queue.push_back(command);
            },
            Translation::Ignored => {},
        }
        proof {
            let seen = events@.take(i as int);
            let next = events@.take(i + 1);
            assert forall|j: int| 0 <= j < next.len() implies !((#[trigger] next[j]).translation()
                is Quit) by {
                if j < i {
                    assert(seen[j] == next[j]);
                }
            }
        }
        i = i + 1;
    }
    proof {
        assert(events@.take(n as int) == events@);
    }
    FrameInput::Commands(queue)
}

/// Events give their commands in the order of arrival: the commands of
/// two runs of events, one after the other, are the commands of the first
/// followed by those of the second.
pub proof fn lemma_commands_in_arrival_order(first: Seq<InputEvent>, second: Seq<InputEvent>)
    ensures
        commands_of(first + second) == commands_of(first) + commands_of(second),
    decreases second.len(),
{
    if second.len() == 0 {
        assert(first + second =~= first);
    } else {
        assert((first + second).drop_last() =~= first + second.drop_last());
        assert((first + second).last() == second.last());
        lemma_commands_in_arrival_order(first, second.drop_last());
    }
}

/// The presses that holding `key` down gives: the first one when the key
/// goes down, then the platform's repeats, `n` presses in all.
pub open spec fn held_key(key: Key, n: nat) -> Seq<InputEvent> {
    Seq::new(n, |i: int| InputEvent::KeyDown { key, repeat: i > 0 })
}

/// Holding a direction key down gives one start command for each press,
/// repeats included, and never asks to quit.
pub proof fn lemma_held_key_gives_starts(key: Key, d: Direction, n: nat)
    requires
        key.direction() == Some(d),
    ensures
        !asks_to_quit(held_key(key, n)),
        commands_of(held_key(key, n)) == Seq::new(n, |i: int| MovementCommand::start(d)),
    decreases n,
{
    if n == 0 {
        assert(commands_of(held_key(key, n)) =~= Seq::new(n, |i: int| MovementCommand::start(d)));
    } else {
        assert(held_key(key, n).drop_last() =~= held_key(key, (n - 1) as nat));
        lemma_held_key_gives_starts(key, d, (n - 1) as nat);
        assert(commands_of(held_key(key, n)) =~= Seq::new(n, |i: int| MovementCommand::start(d)));
    }
}

/// A direction key that is held down through a frame moves the player as
/// a single press does, however often the platform repeated it.
pub proof fn lemma_key_repeats_collapse(player: Player, key: Key, d: Direction, n: nat)
    requires
        n >= 1,
        key.direction() == Some(d),
    ensures
        player.after_frame(commands_of(held_key(key, n))) == player.after_frame(
            commands_of(held_key(key, 1)),
        ),
        player.after_frame(commands_of(held_key(key, n))) == player.after_frame(
            seq![MovementCommand::start(d)],
        ),
{
    lemma_held_key_gives_starts(key, d, n);
    lemma_held_key_gives_starts(key, d, 1);
    lemma_repeats_collapse(player, MovementCommand::start(d), n);
    lemma_repeats_collapse(player, MovementCommand::start(d), 1);
}

} // verus!
