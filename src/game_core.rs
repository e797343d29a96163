//! Shared game vocabulary: the grid, cells, directions, player records and
//! the messages exchanged between clients and the server.
use vstd::prelude::*;

verus! {

/// Number of columns of the toroidal grid.
pub const GRID_WIDTH: i32 = 60;

/// Number of rows of the toroidal grid.
pub const GRID_HEIGHT: i32 = 30;

/// Length of one simulation tick, in milliseconds.
pub const MOVE_INTERVAL_MS: u64 = 150;

/// Number of player slots in the standard two-player game.
pub const MAX_PLAYERS: usize = 2;

/// A cell of the grid.
#[derive(Copy, Clone, PartialEq, Eq, Debug, Default, Hash, Structural)]
pub struct Pos {
    pub x: i32,
    pub y: i32,
}

impl Pos {
    /// The cell lies on the grid.
    pub open spec fn in_grid(self) -> bool {
        0 <= self.x < GRID_WIDTH && 0 <= self.y < GRID_HEIGHT
    }
}

/// A heading on the grid.
#[derive(Copy, Clone, PartialEq, Eq, Debug, Hash, Structural)]
pub enum Direction {
    Up,
    Down,
    Left,
    Right,
}

/// Horizontal component of the unit vector of `d`.
pub open spec fn dx(d: Direction) -> int {
    match d {
        Direction::Left => -1,
        Direction::Right => 1,
        _ => 0,
    }
}

/// Vertical component of the unit vector of `d` (rows grow downwards).
pub open spec fn dy(d: Direction) -> int {
    match d {
        Direction::Up => -1,
        Direction::Down => 1,
        _ => 0,
    }
}

/// The cell reached from `p` by one move towards `d`, each axis wrapped
/// around independently.
pub open spec fn next_cell(p: Pos, d: Direction) -> Pos {
    Pos {
        x: ((p.x + dx(d) + GRID_WIDTH) % (GRID_WIDTH as int)) as i32,
        y: ((p.y + dy(d) + GRID_HEIGHT) % (GRID_HEIGHT as int)) as i32,
    }
}

/// The name of a direction, as it is written on the wire.
pub open spec fn direction_name(d: Direction) -> Seq<char> {
    match d {
        Direction::Up => "Up"@,
        Direction::Down => "Down"@,
        Direction::Left => "Left"@,
        Direction::Right => "Right"@,
    }
}

impl Direction {
    /// The direction pointing the other way.
    pub open spec fn opposite_spec(self) -> Direction {
        match self {
            Direction::Up => Direction::Down,
            Direction::Down => Direction::Up,
            Direction::Left => Direction::Right,
            Direction::Right => Direction::Left,
        }
    }

    pub fn opposite(self) -> (r: Direction)
        ensures
            r == self.opposite_spec(),
            dx(r) == -dx(self),
            dy(r) == -dy(self),
    {
        match self {
            Direction::Up => Direction::Down,
            Direction::Down => Direction::Up,
            Direction::Left => Direction::Right,
            Direction::Right => Direction::Left,
        }
    }

    /// The direction's name, as it is written on the wire.
    pub fn as_str(&self) -> (r: &'static str)
        ensures
            r@ == direction_name(*self),
    {
        match self {
            Direction::Up => "Up",
            Direction::Down => "Down",
            Direction::Left => "Left",
            Direction::Right => "Right",
        }
    }
}

impl Default for Direction {
    fn default() -> (r: Direction)
        ensures
            r == Direction::Right,
    {
        Direction::Right
    }
}

/// One participant: display name, body (head first), heading, buffered
/// input, score and whether the snake is still in play.
#[derive(Clone, Debug)]
pub struct PlayerState {
    pub name: String,
    pub snake: Vec<Pos>,
    pub dir: Direction,
    pub score: u32,
    pub latest_input: Option<Direction>,
    pub dead: bool,
}

impl PlayerState {
    /// The body is non-empty and lies on the grid.
    pub open spec fn wf(&self) -> bool {
        &&& self.snake@.len() >= 1
        &&& forall|k: int| 0 <= k < self.snake@.len() ==> (#[trigger] self.snake@[k]).in_grid()
    }

    /// The head of the snake.
    pub open spec fn head(&self) -> Pos {
        self.snake@[0]
    }

    /// A fresh player: unnamed, one segment at `at`, heading `dir`.
    pub fn spawned(at: Pos, dir: Direction) -> (r: PlayerState)
        ensures
            r.name@ == Seq::<char>::empty(),
            r.snake@ == seq![at],
            r.dir == dir,
            r.score == 0,
            r.latest_input.is_none(),
            !r.dead,
    {
        let mut snake: Vec<Pos> = Vec::new();
        snake.push(at);
        PlayerState {
            name: String::new(),
            snake,
            dir,
            score: 0,
            latest_input: None,
            dead: false,
        }
    }
}

impl Default for PlayerState {
    fn default() -> (r: PlayerState)
        ensures
            r.name@ == Seq::<char>::empty(),
            r.snake@ == seq![Pos { x: 0, y: 0 }],
            r.dir == Direction::Right,
            r.score == 0,
            r.latest_input.is_none(),
            !r.dead,
    {
        PlayerState::spawned(Pos { x: 0, y: 0 }, Direction::Right)
    }
}

/// The snapshot of the world broadcast to every client after a tick.
#[derive(Clone, Debug)]
pub struct StateMsg {
    pub tick: u64,
    pub players: Vec<PlayerState>,
    pub food: Pos,
    pub game_over: bool,
    pub winner: Option<u8>,
}

/// A message sent by a client.
#[derive(Clone, Debug)]
pub enum ClientMsg {
    Join { name: String },
    Input { dir: Direction },
}

/// The cell reached from `head` by one move towards `dir`, wrapping at the
/// edges of the grid.
pub fn step_head(head: Pos, dir: Direction) -> (r: Pos)
    requires
        head.in_grid(),
    ensures
        r == next_cell(head, dir),
        r.in_grid(),
{
    let mut head = head;
    match dir {
        Direction::Up => head.y = head.y - 1,
        Direction::Down => head.y = head.y + 1,
        Direction::Left => head.x = head.x - 1,
        Direction::Right => head.x = head.x + 1,
    }
    if head.x < 0 {
        head.x = GRID_WIDTH - 1;
    } else if head.x >= GRID_WIDTH {
        head.x = 0;
    }
    if head.y < 0 {
        head.y = GRID_HEIGHT - 1;
    } else if head.y >= GRID_HEIGHT {
        head.y = 0;
    }
    head
}

} // verus!
