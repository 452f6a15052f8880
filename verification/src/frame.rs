//! One turn of the loop: the events that arrived become commands, the
//! commands move the player, and the frame counter picks the color that
//! the surface is cleared to.

use vstd::prelude::*;

use crate::input::{
    asks_to_quit, commands_of, held_key, lemma_held_key_gives_starts, lemma_key_repeats_collapse,
    translate_events, FrameInput, InputEvent, Key,
};
use crate::movement::{update_player, Direction, Player};
use crate::render::{clear_color, color_at, counter_after, next_counter, Color};

verus! {

/// All that lives from one frame to the next.
#[derive(Clone, Copy, Debug, PartialEq, Eq)]
pub struct Game {
    pub player: Player,
    /// Counts the frames that were drawn, starting over after 255.
    pub counter: u8,
}

/// What the loop is to do after a frame's events were read.
#[derive(Clone, Copy, Debug, PartialEq, Eq, Structural)]
pub enum FrameOutcome {
    /// Stop, without updating or drawing anything.
    Quit,
    /// Clear the surface to this color, draw the player, and go on.
    Draw { clear: Color },
}

impl Game {
    /// The state after a frame in which `events` arrived. A frame that
    /// was asked to quit changes nothing; any other steps the counter and
    /// moves the player by the commands that the events give.
    pub open spec fn after_events(self, events: Seq<InputEvent>) -> Game {
        if asks_to_quit(events) {
            self
        } else {
            Game {
                player: self.player.after_frame(commands_of(events)),
                counter: counter_after(self.counter),
            }
        }
    }

    /// What the loop is to do after that frame.
    pub open spec fn outcome_of(self, events: Seq<InputEvent>) -> FrameOutcome {
        if asks_to_quit(events) {
            FrameOutcome::Quit
        } else {
            FrameOutcome::Draw { clear: color_at(counter_after(self.counter)) }
        }
    }

    /// The state before the first frame.
    pub fn new(player: Player) -> (game: Game)
        ensures
            game == (Game { player, counter: 0 }),
    {
        Game { player, counter: 0 }
    }

    /// Runs the input and update stages of one frame on the events that
    /// arrived since the last one, and says what to draw.
    pub fn advance(&mut self, events: &Vec<InputEvent>) -> (outcome: FrameOutcome)
        requires
            old(self).player.wf(),
        ensures
            *final(self) == old(self).after_events(events@),
            outcome == old(self).outcome_of(events@),
            final(self).player.wf(),
    {
        match translate_events(events) {
            FrameInput::Quit => FrameOutcome::Quit,
            FrameInput::Commands(commands) => {
                self.counter = next_counter(self.counter);
                update_player(&mut self.player, &commands);
                FrameOutcome::Draw { clear: clear_color(self.counter) }
            },
        }
    }
}

/// A frame through which a direction key is held down ends in the same
/// state, and draws the same, as a frame in which the key was pressed
/// once: the platform's repeats add nothing.
pub proof fn lemma_held_key_frame(game: Game, key: Key, d: Direction, n: nat)
    requires
        n >= 1,
        key.direction() == Some(d),
    ensures
        game.after_events(held_key(key, n)) == game.after_events(held_key(key, 1)),
        game.outcome_of(held_key(key, n)) == game.outcome_of(held_key(key, 1)),
{
    lemma_held_key_gives_starts(key, d, n);
    lemma_held_key_gives_starts(key, d, 1);
    lemma_key_repeats_collapse(game.player, key, d, n);
}

/// A frame in which nothing arrived keeps the player's velocity and
/// facing, moves the player by its velocity, and steps the counter.
pub proof fn lemma_quiet_frame(game: Game)
    ensures
        game.after_events(Seq::empty()).player == game.player.after_frame(Seq::empty()),
        game.after_events(Seq::empty()).player.current_velocity == game.player.current_velocity,
        game.after_events(Seq::empty()).player.direction == game.player.direction,
        game.after_events(Seq::empty()).counter == counter_after(game.counter),
        game.outcome_of(Seq::empty()) is Draw,
{
}

} // verus!
