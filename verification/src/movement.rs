//! The player and the way a frame's movement commands change it.
//!
//! Commands are applied in the order in which they arrived. Each one
//! overwrites the velocity, so the last one decides how the player moves;
//! the position then advances by that velocity, once per frame.

use std::collections::VecDeque;
use vstd::prelude::*;

use crate::geometry::{Position, Rect, COORD_MAX, COORD_MIN};

verus! {

/// Distance that the player covers in one frame while moving.
pub const PLAYER_MOVEMENT_SPEED: i32 = 20;

/// One of the four ways the player can face and move.
#[derive(Clone, Copy, Debug, PartialEq, Eq, Structural)]
pub enum Direction {
    Up,
    Down,
    Left,
    Right,
}

impl Direction {
    /// The step of length one in this direction. The y axis points down
    /// the screen.
    pub open spec fn unit(self) -> (int, int) {
        match self {
            Direction::Up => (0, -1),
            Direction::Down => (0, 1),
            Direction::Left => (-1, 0),
            Direction::Right => (1, 0),
        }
    }
}

/// Distance covered per frame, along each axis.
#[derive(Clone, Copy, Debug, PartialEq, Eq, Structural)]
pub struct Velocity {
    pub x: i32,
    pub y: i32,
}

impl Velocity {
    /// Standing still.
    pub open spec fn zero() -> Velocity {
        Velocity { x: 0, y: 0 }
    }

    /// Moving at `speed` in direction `d`.
    pub open spec fn toward(d: Direction, speed: int) -> Velocity {
        match d {
            Direction::Up => Velocity { x: 0, y: (-speed) as i32 },
            Direction::Down => Velocity { x: 0, y: speed as i32 },
            Direction::Left => Velocity { x: (-speed) as i32, y: 0 },
            Direction::Right => Velocity { x: speed as i32, y: 0 },
        }
    }

    /// At most one axis carries motion.
    pub open spec fn axis_exclusive(self) -> bool {
        self.x == 0 || self.y == 0
    }
}

/// What a key press or release asks of the player.
#[derive(Clone, Copy, Debug, PartialEq, Eq, Structural)]
pub enum MovementCommand {
    GoUp,
    GoDown,
    GoLeft,
    GoRight,
    HaltUp,
    HaltDown,
    HaltRight,
    HaltLeft,
}

impl MovementCommand {
    /// The command that starts the player moving in direction `d`.
    pub open spec fn start(d: Direction) -> MovementCommand {
        match d {
            Direction::Up => MovementCommand::GoUp,
            Direction::Down => MovementCommand::GoDown,
            Direction::Left => MovementCommand::GoLeft,
            Direction::Right => MovementCommand::GoRight,
        }
    }

    /// The halt that releasing the key for direction `d` gives.
    pub open spec fn halt(d: Direction) -> MovementCommand {
        match d {
            Direction::Up => MovementCommand::HaltUp,
            Direction::Down => MovementCommand::HaltDown,
            Direction::Left => MovementCommand::HaltLeft,
            Direction::Right => MovementCommand::HaltRight,
        }
    }

    /// The direction in which the command starts the player moving, and
    /// `None` where the command is a halt.
    pub open spec fn heading(self) -> Option<Direction> {
        match self {
            MovementCommand::GoUp => Some(Direction::Up),
            MovementCommand::GoDown => Some(Direction::Down),
            MovementCommand::GoLeft => Some(Direction::Left),
            MovementCommand::GoRight => Some(Direction::Right),
            MovementCommand::HaltUp => None,
            MovementCommand::HaltDown => None,
            MovementCommand::HaltRight => None,
            MovementCommand::HaltLeft => None,
        }
    }

    /// The command stops the player.
    pub open spec fn is_halt(self) -> bool {
        self.heading() is None
    }
}

/// The one sprite that the keyboard moves.
#[derive(Clone, Copy, Debug, PartialEq, Eq)]
pub struct Player {
    /// Where the player stands, relative to the middle of the viewport.
    pub position: Position,
    /// The region of the texture that shows the player.
    pub sprite: Rect,
    /// Distance covered per frame while moving.
    pub speed: i32,
    pub current_velocity: Velocity,
    /// The way the player faces: the direction of the last start command,
    /// kept when the player halts.
    pub direction: Direction,
}

impl Player {
    /// The speed can be negated, which moving up or left requires.
    pub open spec fn wf(self) -> bool {
        self.speed > i32::MIN
    }

    /// The velocity is what some sequence of commands can leave behind:
    /// the player stands still, or moves at its speed the way it faces.
    pub open spec fn coherent(self) -> bool {
        ||| self.current_velocity == Velocity::zero()
        ||| self.current_velocity == Velocity::toward(self.direction, self.speed as int)
    }

    /// The player after one command. A start command turns the player and
    /// sets it moving at its speed; a halt, whichever key it names, stops
    /// all motion and leaves the facing as it was.
    pub open spec fn after_command(self, command: MovementCommand) -> Player {
        match command.heading() {
            Some(d) => Player {
                direction: d,
                current_velocity: Velocity::toward(d, self.speed as int),
                ..self
            },
            None => Player { current_velocity: Velocity::zero(), ..self },
        }
    }

    /// The player after the commands of `commands`, first to last.
    pub open spec fn after_commands(self, commands: Seq<MovementCommand>) -> Player
        decreases commands.len(),
    {
        if commands.len() == 0 {
            self
        } else {
            self.after_commands(commands.drop_last()).after_command(commands.last())
        }
    }

    /// The player moved by its velocity.
    pub open spec fn advanced(self) -> Player {
        Player {
            position: self.position.shifted(
                self.current_velocity.x as int,
                self.current_velocity.y as int,
            ),
            ..self
        }
    }

    /// The player after a frame in which `commands` arrived: all commands
    /// are applied, then the position advances once.
    pub open spec fn after_frame(self, commands: Seq<MovementCommand>) -> Player {
        self.after_commands(commands).advanced()
    }

    /// A player at rest at `position`, facing right.
    pub fn new(position: Position, sprite: Rect, speed: i32) -> (player: Player)
        ensures
            player == (Player {
                position,
                sprite,
                speed,
                current_velocity: Velocity::zero(),
                direction: Direction::Right,
            }),
    {
        Player {
            position,
            sprite,
            speed,
            current_velocity: Velocity { x: 0, y: 0 },
            direction: Direction::Right,
        }
    }

    /// Applies one command to the velocity and the facing.
    pub fn apply_command(&mut self, command: MovementCommand)
        requires
            old(self).wf(),
        ensures
            *final(self) == old(self).after_command(command),
    {
        match command {
            MovementCommand::GoLeft => {
                self.direction = Direction::Left;
                self.current_velocity = Velocity { x: -self.speed, y: 0 };
            },
            MovementCommand::GoRight => {
                self.direction = Direction::Right;
                self.current_velocity = Velocity { x: self.speed, y: 0 };
            },
            MovementCommand::GoUp => {
                self.direction = Direction::Up;
                self.current_velocity = Velocity { x: 0, y: -self.speed };
            },
            MovementCommand::GoDown => {
                self.direction = Direction::Down;
                self.current_velocity = Velocity { x: 0, y: self.speed };
            },
            MovementCommand::HaltUp
            | MovementCommand::HaltDown
            | MovementCommand::HaltRight
            | MovementCommand::HaltLeft => {
                self.current_velocity = Velocity { x: 0, y: 0 };
            },
        }
    }
}

/// Moves the player through one frame: applies `commands` in order, then
/// advances the position by the velocity they left, once.
///
/// The distance covered is per call, not per unit of time, so the player's
/// pace on screen is the rate at which this function is called.
pub fn update_player(player: &mut Player, commands: &VecDeque<MovementCommand>)
    requires
        old(player).wf(),
    ensures
        *final(player) == old(player).after_frame(commands@),
        final(player).wf(),
        final(player).position.in_bounds(),
        final(player).sprite == old(player).sprite,
        final(player).speed == old(player).speed,
        commands@.len() > 0 ==> final(player).current_velocity == old(player).after_command(
            commands@.last(),
        ).current_velocity,
        commands@.len() > 0 || old(player).coherent() ==> final(player).coherent(),
{
    let n: usize = commands.len();
    let mut i: usize = 0;
    while i < n
        invariant
            n == commands@.len(),
            i <= n,
            player.wf(),
            *player == old(player).after_commands(commands@.take(i as int)),
        decreases n - i,
    {
        let command: MovementCommand = commands[i];
        proof {
            let next = commands@.take(i + 1);
            assert(next.drop_last() == commands@.take(i as int));
            assert(next.last() == commands@[i as int]);
        }
        player.apply_command(command);
        i = i + 1;
    }
    proof {
        assert(commands@.take(n as int) == commands@);
        lemma_commands_keep_the_rest(*old(player), commands@);
        if commands@.len() > 0 {
            lemma_last_command_decides_velocity(*old(player), commands@);
        }
        if commands@.len() > 0 || old(player).coherent() {
            lemma_commands_make_coherent(*old(player), commands@);
        }
    }
    player.position = player.position.offset(player.current_velocity.x, player.current_velocity.y);
}

/// The last command alone decides the velocity: whatever came before it
/// in the frame is overwritten.
pub proof fn lemma_last_command_decides_velocity(player: Player, commands: Seq<MovementCommand>)
    requires
        commands.len() > 0,
    ensures
        player.after_commands(commands).current_velocity == player.after_command(
            commands.last(),
        ).current_velocity,
        player.after_frame(commands).current_velocity == player.after_command(
            commands.last(),
        ).current_velocity,
{
    lemma_commands_keep_the_rest(player, commands.drop_last());
}

/// Commands change the velocity and the facing only: position, sprite and
/// speed pass through any sequence of them.
pub proof fn lemma_commands_keep_the_rest(player: Player, commands: Seq<MovementCommand>)
    ensures
        player.after_commands(commands).position == player.position,
        player.after_commands(commands).sprite == player.sprite,
        player.after_commands(commands).speed == player.speed,
    decreases commands.len(),
{
    if commands.len() > 0 {
        lemma_commands_keep_the_rest(player, commands.drop_last());
    }
}

/// A frame whose last command starts the player in direction `d` leaves
/// the player facing `d` and moving at its speed along `d`, whatever the
/// earlier commands of the frame were.
pub proof fn lemma_last_start_wins(player: Player, commands: Seq<MovementCommand>, d: Direction)
    requires
        player.wf(),
        commands.len() > 0,
        commands.last().heading() == Some(d),
    ensures
        player.after_frame(commands).direction == d,
        player.after_frame(commands).current_velocity == Velocity::toward(d, player.speed as int),
        player.after_frame(commands).current_velocity.x == player.speed * d.unit().0,
        player.after_frame(commands).current_velocity.y == player.speed * d.unit().1,
{
    lemma_commands_keep_the_rest(player, commands.drop_last());
    let speed = player.speed as int;
    assert(speed * 0 == 0 && speed * 1 == speed && speed * (-1) == -speed);
}

/// A frame whose last command is a halt, for whichever key, leaves the
/// player standing still, and the position where it was (moved into
/// bounds, if it was outside).
pub proof fn lemma_last_halt_stops(player: Player, commands: Seq<MovementCommand>)
    requires
        commands.len() > 0,
        commands.last().is_halt(),
    ensures
        player.after_frame(commands).current_velocity == Velocity::zero(),
        player.after_frame(commands).position == player.position.shifted(0, 0),
        player.position.in_bounds() ==> player.after_frame(commands).position == player.position,
{
    lemma_commands_keep_the_rest(player, commands.drop_last());
}

/// A halt does not turn the player: the facing after a frame that ends in
/// a halt is the facing that the earlier commands left.
pub proof fn lemma_halt_keeps_facing(player: Player, commands: Seq<MovementCommand>)
    requires
        commands.len() > 0,
        commands.last().is_halt(),
    ensures
        player.after_frame(commands).direction == player.after_commands(
            commands.drop_last(),
        ).direction,
{
}

/// The facing is never reset: a frame that holds nothing but halts leaves
/// the player facing the way it did.
pub proof fn lemma_only_starts_turn(player: Player, commands: Seq<MovementCommand>)
    requires
        forall|i: int| 0 <= i < commands.len() ==> (#[trigger] commands[i]).is_halt(),
    ensures
        player.after_commands(commands).direction == player.direction,
        player.after_frame(commands).direction == player.direction,
    decreases commands.len(),
{
    if commands.len() > 0 {
        let earlier = commands.drop_last();
        assert forall|i: int| 0 <= i < earlier.len() implies (#[trigger] earlier[i]).is_halt() by {
            assert(earlier[i] == commands[i]);
        }
        lemma_only_starts_turn(player, earlier);
        assert(commands.last() == commands[commands.len() - 1]);
    }
}

/// A frame without commands keeps velocity and facing, and moves the
/// position by the velocity: exactly, unless that takes it out of bounds.
pub proof fn lemma_idle_frame(player: Player)
    ensures
        player.after_frame(Seq::empty()).current_velocity == player.current_velocity,
        player.after_frame(Seq::empty()).direction == player.direction,
        player.after_frame(Seq::empty()).position == player.position.shifted(
            player.current_velocity.x as int,
            player.current_velocity.y as int,
        ),
        COORD_MIN <= player.position.x + player.current_velocity.x <= COORD_MAX
            ==> player.after_frame(Seq::empty()).position.x == player.position.x
            + player.current_velocity.x,
        COORD_MIN <= player.position.y + player.current_velocity.y <= COORD_MAX
            ==> player.after_frame(Seq::empty()).position.y == player.position.y
            + player.current_velocity.y,
{
}

/// Two frames without commands move the position by twice the velocity,
/// wherever neither move takes the position out of bounds.
pub proof fn lemma_two_idle_frames(player: Player)
    requires
        COORD_MIN <= player.position.x + player.current_velocity.x <= COORD_MAX,
        COORD_MIN <= player.position.y + player.current_velocity.y <= COORD_MAX,
        COORD_MIN <= player.position.x + 2 * player.current_velocity.x <= COORD_MAX,
        COORD_MIN <= player.position.y + 2 * player.current_velocity.y <= COORD_MAX,
    ensures
        player.after_frame(Seq::empty()).after_frame(Seq::empty()).position.x == player.position.x
            + 2 * player.current_velocity.x,
        player.after_frame(Seq::empty()).after_frame(Seq::empty()).position.y == player.position.y
            + 2 * player.current_velocity.y,
        player.after_frame(Seq::empty()).after_frame(Seq::empty()).current_velocity
            == player.current_velocity,
{
}

/// Within one frame the later command wins: a start to the left followed
/// by a halt leaves the player standing, the same two commands the other
/// way round leave it moving left.
pub proof fn lemma_start_then_halt(player: Player, halt: MovementCommand)
    requires
        player.wf(),
        halt.is_halt(),
    ensures
        player.after_frame(seq![MovementCommand::GoLeft, halt]).current_velocity
            == Velocity::zero(),
        player.after_frame(seq![halt, MovementCommand::GoLeft]).current_velocity
            == Velocity::toward(Direction::Left, player.speed as int),
{
    lemma_last_command_decides_velocity(player, seq![MovementCommand::GoLeft, halt]);
    lemma_last_command_decides_velocity(player, seq![halt, MovementCommand::GoLeft]);
}

/// Applying a command twice is applying it once.
pub proof fn lemma_command_is_idempotent(player: Player, command: MovementCommand)
    ensures
        player.after_command(command).after_command(command) == player.after_command(command),
{
}

/// A command that arrives `n` times in a row, as a held key's repeats do,
/// has the effect of arriving once.
pub proof fn lemma_repeats_collapse(player: Player, command: MovementCommand, n: nat)
    requires
        n >= 1,
    ensures
        player.after_commands(Seq::new(n, |i: int| command)) == player.after_command(command),
        player.after_frame(Seq::new(n, |i: int| command)) == player.after_frame(seq![command]),
    decreases n,
{
    let repeated = Seq::new(n, |i: int| command);
    let once = seq![command];
    assert(once.drop_last() =~= Seq::<MovementCommand>::empty());
    assert(player.after_commands(once.drop_last()) == player);
    assert(player.after_commands(once) == player.after_command(command));
    if n == 1 {
        assert(repeated =~= once);
    } else {
        let shorter = Seq::new((n - 1) as nat, |i: int| command);
        assert(repeated.drop_last() =~= shorter);
        lemma_repeats_collapse(player, command, (n - 1) as nat);
    }
}

/// Commands keep the velocity coherent with speed and facing, and any
/// command at all makes it so.
pub proof fn lemma_commands_make_coherent(player: Player, commands: Seq<MovementCommand>)
    requires
        player.coherent() || commands.len() > 0,
    ensures
        player.after_commands(commands).coherent(),
        player.after_frame(commands).coherent(),
        player.after_frame(commands).current_velocity.axis_exclusive(),
{
    if commands.len() > 0 {
        lemma_commands_keep_the_rest(player, commands.drop_last());
    }
}

} // verus!
