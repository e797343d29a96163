//! The authoritative world: player slots, food, the tick counter and the
//! rules of one simulation step.
use crate::game_core::{
    next_cell, step_head, ClientMsg, Direction, PlayerState, Pos, StateMsg, GRID_HEIGHT, GRID_WIDTH,
};
use rand::Rng;
use vstd::pervasive::VecAdditionalExecFns;
use vstd::prelude::*;

verus! {

/// Random draws tried before food placement falls back to a scan of the grid.
pub const FOOD_DRAWS: u32 = 4096;

/// Largest number of player slots a world can hold: players are named by a
/// one-based `u8` id.
pub const MAX_SLOTS: usize = 255;

// ---------------------------------------------------------------------------
// The model of one step.
// ---------------------------------------------------------------------------

/// The heading a player takes at the start of a tick: its buffered input,
/// unless that input is the exact reverse of its current heading.
pub open spec fn turned(p: PlayerState) -> Direction {
    match p.latest_input {
        Some(d) => if d == p.dir.opposite_spec() { p.dir } else { d },
        None => p.dir,
    }
}

/// The cell the player's head moves to this tick.
pub open spec fn candidate(p: PlayerState) -> Pos {
    next_cell(p.head(), turned(p))
}

/// Some living player's body covers cell `c`.
pub open spec fn occupied(ps: Seq<PlayerState>, c: Pos) -> bool {
    exists|j: int| 0 <= j < ps.len() && !ps[j].dead && #[trigger] ps[j].snake@.contains(c)
}

/// Every cell of the grid is covered by a living body.
pub open spec fn grid_full(ps: Seq<PlayerState>) -> bool {
    forall|c: Pos| c.in_grid() ==> occupied(ps, c)
}

/// Another living player moves its head to the same cell as player `i`.
pub open spec fn head_on(ps: Seq<PlayerState>, i: int) -> bool {
    exists|j: int|
        0 <= j < ps.len() && j != i && !ps[j].dead && #[trigger] candidate(ps[j]) == candidate(
            ps[i],
        )
}

/// Player `i`'s next head lands on a body as it stood before the tick
/// (its own included), or on the next head of another living player.
pub open spec fn collides(ps: Seq<PlayerState>, i: int) -> bool {
    occupied(ps, candidate(ps[i])) || head_on(ps, i)
}

/// Player `i` is alive and does not collide this tick.
pub open spec fn survives(ps: Seq<PlayerState>, i: int) -> bool {
    !ps[i].dead && !collides(ps, i)
}

/// How many of the first `n` players survive this tick.
pub open spec fn survivor_count(ps: Seq<PlayerState>, n: int) -> nat
    decreases n,
{
    if n <= 0 {
        0
    } else {
        survivor_count(ps, n - 1) + if survives(ps, n - 1) {
            1nat
        } else {
            0nat
        }
    }
}

/// The tick ends the game: at most one survivor when several play, none
/// when one plays alone.
pub open spec fn ends(ps: Seq<PlayerState>) -> bool {
    let c = survivor_count(ps, ps.len() as int);
    if ps.len() >= 2 {
        c <= 1
    } else {
        c == 0
    }
}

/// `w` names the winner of a tick that ends the game: the sole survivor's
/// one-based id, or nothing (a draw) when no single player survives.
pub open spec fn winner_is(ps: Seq<PlayerState>, w: Option<u8>) -> bool {
    match w {
        Some(id) => survivor_count(ps, ps.len() as int) == 1 && 1 <= id <= ps.len() && survives(
            ps,
            id - 1,
        ),
        None => survivor_count(ps, ps.len() as int) != 1,
    }
}

/// Player `i` survives and its next head reaches the food.
pub open spec fn eats(ps: Seq<PlayerState>, food: Pos, i: int) -> bool {
    survives(ps, i) && candidate(ps[i]) == food
}

/// Some player eats this tick.
pub open spec fn someone_eats(ps: Seq<PlayerState>, food: Pos) -> bool {
    exists|i: int| 0 <= i < ps.len() && #[trigger] eats(ps, food, i)
}

/// The body after a move: the new head in front, the tail dropped unless
/// the player ate.
pub open spec fn moved_body(p: PlayerState, ate: bool) -> Seq<Pos> {
    if ate {
        seq![candidate(p)] + p.snake@
    } else {
        seq![candidate(p)] + p.snake@.drop_last()
    }
}

/// `q` is player `i` of `ps` after one step that found `food` in place;
/// `ending` tells whether that step ends the game.
pub open spec fn player_stepped(
    ps: Seq<PlayerState>,
    food: Pos,
    ending: bool,
    i: int,
    q: PlayerState,
) -> bool {
    let p = ps[i];
    &&& q.name@ == p.name@
    &&& q.dir == turned(p)
    &&& q.latest_input.is_none()
    &&& q.dead == !survives(ps, i)
    &&& if survives(ps, i) && !ending {
        &&& q.snake@ == moved_body(p, eats(ps, food, i))
        &&& q.score == p.score + if eats(ps, food, i) {
            1int
        } else {
            0int
        }
    } else {
        &&& q.snake@ == p.snake@
        &&& q.score == p.score
    }
}

/// The food sits on the grid, off every living body unless no free cell is left.
pub open spec fn food_placed(ps: Seq<PlayerState>, food: Pos) -> bool {
    food.in_grid() && (!occupied(ps, food) || grid_full(ps))
}

// ---------------------------------------------------------------------------
// The world.
// ---------------------------------------------------------------------------

/// The authoritative state of one game, owned by the tick loop.
pub struct ServerState {
    pub tick: u64,
    pub players: Vec<PlayerState>,
    pub food: Pos,
    pub game_over: bool,
    pub winner: Option<u8>,
}

/// `new` is `old` after one call of `ServerState::step`.
pub open spec fn stepped(old: ServerState, new: ServerState) -> bool {
    let ps = old.players@;
    let ending = ends(ps);
    if old.game_over {
        &&& new.tick == old.tick
        &&& new.players@ == old.players@
        &&& new.food == old.food
        &&& new.game_over
        &&& new.winner == old.winner
    } else {
        &&& new.tick == old.tick + 1
        &&& new.players@.len() == ps.len()
        &&& forall|i: int|
            0 <= i < ps.len() ==> player_stepped(ps, old.food, ending, i, #[trigger] new.players@[i])
        &&& new.game_over == ending
        &&& if ending {
            winner_is(ps, new.winner)
        } else {
            new.winner == old.winner
        }
        &&& if !ending && someone_eats(ps, old.food) {
            food_placed(new.players@, new.food)
        } else {
            new.food == old.food
        }
    }
}

/// Relies on rand's `Rng::gen_range` over `0..bound`: a value in that range
/// (it panics on an empty range, which `requires` rules out).
#[verifier::external_body]
fn random_below(bound: i32) -> (r: i32)
    requires
        bound > 0,
    ensures
        0 <= r < bound,
{
    rand::thread_rng().gen_range(0..bound)
}

/// A cell of the grid drawn at random.
fn random_cell() -> (r: Pos)
    ensures
        r.in_grid(),
{
    let x = random_below(GRID_WIDTH);
    let y = random_below(GRID_HEIGHT);
    Pos { x, y }
}

/// Whether `body` covers `c`.
pub fn body_contains(body: &Vec<Pos>, c: Pos) -> (r: bool)
    ensures
        r == body@.contains(c),
{
    let mut k: usize = 0;
    while k < body.len()
        invariant
            k <= body@.len(),
            forall|m: int| 0 <= m < k ==> body@[m] != c,
        decreases body@.len() - k,
    {
        if body[k] == c {
            return true;
        }
        k = k + 1;
    }
    false
}

/// `q` is `p` once its buffered input has been consumed.
pub open spec fn inputs_applied(p: PlayerState, q: PlayerState) -> bool {
    &&& q.dir == turned(p)
    &&& q.latest_input.is_none()
    &&& q.name == p.name
    &&& q.snake == p.snake
    &&& q.score == p.score
    &&& q.dead == p.dead
}

/// The heading a player takes at the start of a tick.
pub fn turned_dir(p: &PlayerState) -> (r: Direction)
    ensures
        r == turned(*p),
{
    match p.latest_input {
        Some(d) => if d == p.dir.opposite() {
            p.dir
        } else {
            d
        },
        None => p.dir,
    }
}

/// The spawn cell of player slot `slot`. Slots come in pairs, even on the
/// left facing right and odd on the right facing left; each pair of a block
/// of thirty slots has a row of its own from the middle row down, and each
/// further block stands three columns further out.
pub open spec fn spawn_cell(slot: int) -> Pos {
    Pos {
        x: if slot % 2 == 0 {
            (27 - 3 * (slot / 30)) as i32
        } else {
            (33 + 3 * (slot / 30)) as i32
        },
        y: ((15 + 2 * (slot / 2)) % 30) as i32,
    }
}

/// Different slots spawn on different cells of the grid.
pub proof fn lemma_spawns_distinct(i: int, j: int)
    requires
        0 <= i < MAX_SLOTS,
        0 <= j < MAX_SLOTS,
        i != j,
    ensures
        spawn_cell(i) != spawn_cell(j),
        spawn_cell(i).in_grid(),
{
    if i % 2 == j % 2 && i / 30 == j / 30 {
        assert(i / 2 != j / 2);
        assert((15 + 2 * (i / 2)) % 30 != (15 + 2 * (j / 2)) % 30);
    }
}

/// The initial heading of player slot `slot`: towards the middle column.
pub open spec fn spawn_dir(slot: int) -> Direction {
    if slot % 2 == 0 {
        Direction::Right
    } else {
        Direction::Left
    }
}

/// The spawn cell and initial heading of player slot `slot`.
pub fn spawn_point(slot: usize) -> (r: (Pos, Direction))
    requires
        slot < MAX_SLOTS,
    ensures
        r.0 == spawn_cell(slot as int),
        r.1 == spawn_dir(slot as int),
        r.0.in_grid(),
{
    let row = ((15 + 2 * (slot / 2)) % 30) as i32;
    let shift = (3 * (slot / 30)) as i32;
    if slot % 2 == 0 {
        (Pos { x: 27 - shift, y: row }, Direction::Right)
    } else {
        (Pos { x: 33 + shift, y: row }, Direction::Left)
    }
}

/// `q` is `p` after the message `msg` from its connection.
pub open spec fn message_applied(p: PlayerState, msg: ClientMsg, q: PlayerState) -> bool {
    &&& q.snake == p.snake
    &&& q.dir == p.dir
    &&& q.score == p.score
    &&& q.dead == p.dead
    &&& match msg {
        ClientMsg::Join { name } => q.name == name && q.latest_input == p.latest_input,
        ClientMsg::Input { dir } => q.name == p.name && q.latest_input == Some(dir),
    }
}

/// `a` and `b` hold the same player record.
pub open spec fn same_player(a: PlayerState, b: PlayerState) -> bool {
    &&& a.name@ == b.name@
    &&& a.snake@ == b.snake@
    &&& a.dir == b.dir
    &&& a.score == b.score
    &&& a.latest_input == b.latest_input
    &&& a.dead == b.dead
}

/// A copy of `p`.
fn copy_player(p: &PlayerState) -> (r: PlayerState)
    ensures
        same_player(*p, r),
{
    let mut snake: Vec<Pos> = Vec::new();
    let mut k: usize = 0;
    while k < p.snake.len()
        invariant
            k <= p.snake@.len(),
            snake@ == p.snake@.subrange(0, k as int),
        decreases p.snake@.len() - k,
    {
        snake.push(p.snake[k]);
        k = k + 1;
        assert(snake@ =~= p.snake@.subrange(0, k as int));
    }
    assert(snake@ =~= p.snake@);
    PlayerState {
        name: p.name.clone(),
        snake,
        dir: p.dir,
        score: p.score,
        latest_input: p.latest_input,
        dead: p.dead,
    }
}

impl ServerState {
    /// Player slots are numbered by a `u8`, every body is non-empty and on
    /// the grid, and so is the food.
    pub open spec fn wf(&self) -> bool {
        &&& 1 <= self.players@.len() <= 255
        &&& forall|i: int| 0 <= i < self.players@.len() ==> (#[trigger] self.players@[i]).wf()
        &&& self.food.in_grid()
    }

    /// Whether some living player's body covers `pos`.
    pub fn contains_any(&self, pos: &Pos) -> (r: bool)
        ensures
            r == occupied(self.players@, *pos),
    {
        let mut j: usize = 0;
        while j < self.players.len()
            invariant
                j <= self.players@.len(),
                forall|m: int|
                    0 <= m < j ==> !(!self.players@[m].dead && #[trigger] self.players@[m].snake@.contains(
                        *pos,
                    )),
            decreases self.players@.len() - j,
        {
            let p = &self.players[j];
            if !p.dead && body_contains(&p.snake, *pos) {
                return true;
            }
            j = j + 1;
        }
        false
    }

    /// Puts the food on `c` if `c` is a free cell of the grid, and says
    /// whether it did.
    pub fn place_food(&mut self, c: Pos) -> (placed: bool)
        ensures
            placed == (c.in_grid() && !occupied(old(self).players@, c)),
            final(self).food == if placed {
                c
            } else {
                old(self).food
            },
            final(self).tick == old(self).tick,
            final(self).players == old(self).players,
            final(self).game_over == old(self).game_over,
            final(self).winner == old(self).winner,
    {
        if 0 <= c.x && c.x < GRID_WIDTH && 0 <= c.y && c.y < GRID_HEIGHT && !self.contains_any(&c) {
            self.food = c;
            true
        } else {
            false
        }
    }

    /// Moves the food to a random cell that no living body covers. After a
    /// long run of unlucky draws the grid is scanned row by row instead; on
    /// a full grid the food stays where it was.
    pub fn respawn_food(&mut self)
        requires
            old(self).wf(),
        ensures
            final(self).wf(),
            food_placed(final(self).players@, final(self).food),
            final(self).tick == old(self).tick,
            final(self).players == old(self).players,
            final(self).game_over == old(self).game_over,
            final(self).winner == old(self).winner,
    {
        let mut tries: u32 = 0;
        while tries < FOOD_DRAWS
            invariant
                self.wf(),
                self.tick == old(self).tick,
                self.players == old(self).players,
                self.game_over == old(self).game_over,
                self.winner == old(self).winner,
            decreases FOOD_DRAWS - tries,
        {
            let c = random_cell();
            if self.place_food(c) {
                return;
            }
            tries = tries + 1;
        }
        let mut y: i32 = 0;
        while y < GRID_HEIGHT
            invariant
                0 <= y <= GRID_HEIGHT,
                self.wf(),
                self.tick == old(self).tick,
                self.players == old(self).players,
                self.game_over == old(self).game_over,
                self.winner == old(self).winner,
                forall|c: Pos| c.in_grid() && c.y < y ==> occupied(self.players@, c),
            decreases GRID_HEIGHT - y,
        {
            let mut x: i32 = 0;
            while x < GRID_WIDTH
                invariant
                    0 <= x <= GRID_WIDTH,
                    0 <= y < GRID_HEIGHT,
                    self.wf(),
                    self.tick == old(self).tick,
                    self.players == old(self).players,
                    self.game_over == old(self).game_over,
                    self.winner == old(self).winner,
                    forall|c: Pos| c.in_grid() && c.y < y ==> occupied(self.players@, c),
                    forall|c: Pos| c.in_grid() && c.y == y && c.x < x ==> occupied(self.players@, c),
                decreases GRID_WIDTH - x,
            {
                if self.place_food(Pos { x, y }) {
                    return;
                }
                x = x + 1;
            }
            y = y + 1;
        }
    }

    /// Consumes every player's buffered input: the heading becomes the
    /// input unless that would reverse it.
    pub fn apply_inputs(&mut self)
        ensures
            final(self).players@.len() == old(self).players@.len(),
            forall|i: int|
                0 <= i < old(self).players@.len() ==> inputs_applied(
                    old(self).players@[i],
                    #[trigger] final(self).players@[i],
                ),
            final(self).tick == old(self).tick,
            final(self).food == old(self).food,
            final(self).game_over == old(self).game_over,
            final(self).winner == old(self).winner,
    {
        let mut i: usize = 0;
        while i < self.players.len()
            invariant
                i <= self.players@.len(),
                self.players@.len() == old(self).players@.len(),
                forall|k: int|
                    0 <= k < i ==> inputs_applied(old(self).players@[k], #[trigger] self.players@[k]),
                forall|k: int|
                    i <= k < self.players@.len() ==> #[trigger] self.players@[k]
                        == old(self).players@[k],
                self.tick == old(self).tick,
                self.food == old(self).food,
                self.game_over == old(self).game_over,
                self.winner == old(self).winner,
            decreases self.players@.len() - i,
        {
            let mut p = PlayerState::default();
            self.players.set_and_swap(i, &mut p);
            p.dir = turned_dir(&p);
            p.latest_input = None;
            self.players.set_and_swap(i, &mut p);
            i = i + 1;
        }
    }

    /// The cell each player's head moves to this tick.
    fn candidates(&self) -> (r: Vec<Pos>)
        requires
            self.wf(),
        ensures
            r@.len() == self.players@.len(),
            forall|i: int| 0 <= i < r@.len() ==> #[trigger] r@[i] == candidate(self.players@[i]),
            forall|i: int| 0 <= i < r@.len() ==> (#[trigger] r@[i]).in_grid(),
    {
        let mut r: Vec<Pos> = Vec::new();
        let mut i: usize = 0;
        while i < self.players.len()
            invariant
                self.wf(),
                i <= self.players@.len(),
                r@.len() == i,
                forall|k: int| 0 <= k < i ==> #[trigger] r@[k] == candidate(self.players@[k]),
                forall|k: int| 0 <= k < i ==> (#[trigger] r@[k]).in_grid(),
            decreases self.players@.len() - i,
        {
            let p = &self.players[i];
            r.push(step_head(p.snake[0], turned_dir(p)));
            i = i + 1;
        }
        r
    }

    /// Whether another living player moves its head to the same cell as
    /// player `i`.
    fn meets_head_on(&self, cands: &Vec<Pos>, i: usize) -> (r: bool)
        requires
            i < self.players@.len(),
            cands@.len() == self.players@.len(),
            forall|k: int| 0 <= k < cands@.len() ==> #[trigger] cands@[k] == candidate(self.players@[k]),
        ensures
            r == head_on(self.players@, i as int),
    {
        let mut j: usize = 0;
        while j < self.players.len()
            invariant
                i < self.players@.len(),
                j <= self.players@.len(),
                cands@.len() == self.players@.len(),
                forall|k: int| 0 <= k < cands@.len() ==> #[trigger] cands@[k] == candidate(self.players@[k]),
                forall|k: int|
                    0 <= k < j ==> !(k != i && !self.players@[k].dead && #[trigger] candidate(
                        self.players@[k],
                    ) == candidate(self.players@[i as int])),
            decreases self.players@.len() - j,
        {
            if j != i && !self.players[j].dead && cands[j] == cands[i] {
                return true;
            }
            j = j + 1;
        }
        false
    }

    /// For each player, whether it survives this tick.
    fn survivors(&self, cands: &Vec<Pos>) -> (r: Vec<bool>)
        requires
            cands@.len() == self.players@.len(),
            forall|k: int| 0 <= k < cands@.len() ==> #[trigger] cands@[k] == candidate(self.players@[k]),
        ensures
            r@.len() == self.players@.len(),
            forall|i: int| 0 <= i < r@.len() ==> #[trigger] r@[i] == survives(self.players@, i),
    {
        let mut r: Vec<bool> = Vec::new();
        let mut i: usize = 0;
        while i < self.players.len()
            invariant
                i <= self.players@.len(),
                r@.len() == i,
                cands@.len() == self.players@.len(),
                forall|k: int| 0 <= k < cands@.len() ==> #[trigger] cands@[k] == candidate(self.players@[k]),
                forall|k: int| 0 <= k < i ==> #[trigger] r@[k] == survives(self.players@, k),
            decreases self.players@.len() - i,
        {
            let alive = !self.players[i].dead && !self.contains_any(&cands[i]) && !self.meets_head_on(
                cands,
                i,
            );
            r.push(alive);
            i = i + 1;
        }
        r
    }

    /// How many players survive this tick, given each one's survival.
    fn count_survivors(&self, alive: &Vec<bool>) -> (r: usize)
        requires
            self.players@.len() <= 255,
            alive@.len() == self.players@.len(),
            forall|i: int| 0 <= i < alive@.len() ==> #[trigger] alive@[i] == survives(self.players@, i),
        ensures
            r == survivor_count(self.players@, self.players@.len() as int),
    {
        let mut r: usize = 0;
        let mut i: usize = 0;
        while i < alive.len()
            invariant
                i <= alive@.len(),
                alive@.len() == self.players@.len(),
                alive@.len() <= 255,
                forall|k: int| 0 <= k < alive@.len() ==> #[trigger] alive@[k] == survives(self.players@, k),
                r == survivor_count(self.players@, i as int),
                r <= i,
            decreases alive@.len() - i,
        {
            if alive[i] {
                r = r + 1;
            }
            i = i + 1;
        }
        r
    }

    /// The one-based id of the sole survivor, or nothing when there is not
    /// exactly one.
    fn find_winner(&self, alive: &Vec<bool>, count: usize) -> (r: Option<u8>)
        requires
            self.players@.len() <= 255,
            alive@.len() == self.players@.len(),
            forall|i: int| 0 <= i < alive@.len() ==> #[trigger] alive@[i] == survives(self.players@, i),
            count == survivor_count(self.players@, self.players@.len() as int),
        ensures
            winner_is(self.players@, r),
    {
        if count != 1 {
            return None;
        }
        let mut i: usize = 0;
        while i < alive.len()
            invariant
                i <= alive@.len(),
                alive@.len() == self.players@.len(),
                alive@.len() <= 255,
                forall|k: int| 0 <= k < alive@.len() ==> #[trigger] alive@[k] == survives(self.players@, k),
                count == survivor_count(self.players@, self.players@.len() as int),
                count == 1,
                survivor_count(self.players@, i as int) == 0,
            decreases alive@.len() - i,
        {
            if alive[i] {
                return Some((i + 1) as u8);
            }
            i = i + 1;
        }
        None
    }

    /// One simulation step. Buffered inputs turn the players; every living
    /// player's head is projected; a projected head that lands on a body as
    /// it stood before the tick, or on another player's projected head,
    /// kills that player. If that leaves at most one survivor (none, when a
    /// single player plays) the game ends with the survivor as winner, or a
    /// draw. Otherwise each survivor moves; those that reach the food score
    /// one and keep their tail, and the food is placed anew once. The tick
    /// counter always advances. Once the game is over, a step changes nothing.
    pub fn step(&mut self)
        requires
            old(self).wf(),
            old(self).tick < u64::MAX,
            forall|i: int|
                0 <= i < old(self).players@.len() ==> (#[trigger] old(self).players@[i]).score
                    < u32::MAX,
        ensures
            final(self).wf(),
            stepped(*old(self), *final(self)),
    {
        if self.game_over {
            return;
        }
        let ghost ps = self.players@;
        let ghost food = self.food;
        let cands = self.candidates();
        let alive = self.survivors(&cands);
        let count = self.count_survivors(&alive);
        let n = self.players.len();
        let ending = if n >= 2 {
            count <= 1
        } else {
            count == 0
        };
        let winner = self.find_winner(&alive, count);
        self.apply_inputs();
        let mut ate_any = false;
        let mut i: usize = 0;
        while i < n
            invariant
                n == ps.len(),
                1 <= n <= 255,
                i <= n,
                self.players@.len() == n,
                self.food == food,
                food.in_grid(),
                !self.game_over,
                self.tick == old(self).tick,
                self.winner == old(self).winner,
                cands@.len() == n,
                forall|k: int| 0 <= k < n ==> #[trigger] cands@[k] == candidate(ps[k]),
                forall|k: int| 0 <= k < n ==> (#[trigger] cands@[k]).in_grid(),
                alive@.len() == n,
                forall|k: int| 0 <= k < n ==> #[trigger] alive@[k] == survives(ps, k),
                ending == ends(ps),
                forall|k: int| 0 <= k < n ==> (#[trigger] ps[k]).wf(),
                forall|k: int| 0 <= k < n ==> (#[trigger] ps[k]).score < u32::MAX,
                forall|k: int|
                    0 <= k < i ==> player_stepped(ps, food, ending, k, #[trigger] self.players@[k]),
                forall|k: int| 0 <= k < i ==> (#[trigger] self.players@[k]).wf(),
                forall|k: int| i <= k < n ==> inputs_applied(ps[k], #[trigger] self.players@[k]),
                ate_any == exists|k: int| 0 <= k < i && #[trigger] eats(ps, food, k) && !ending,
            decreases n - i,
        {
            let mut p = PlayerState::default();
            self.players.set_and_swap(i, &mut p);
            let ghost before = p;
            p.dead = !alive[i];
            if alive[i] && !ending {
                let c = cands[i];
                p.snake.insert(0, c);
                if c == self.food {
                    p.score = p.score + 1;
                    ate_any = true;
                    assert(p.snake@ =~= seq![c] + before.snake@);
                } else {
                    p.snake.pop();
                    assert(p.snake@ =~= seq![c] + before.snake@.drop_last());
                }
                assert(forall|m: int|
                    0 <= m < p.snake@.len() ==> #[trigger] p.snake@[m] == if m == 0 {
                        c
                    } else {
                        before.snake@[m - 1]
                    });
            }
            self.players.set_and_swap(i, &mut p);
            assert(player_stepped(ps, food, ending, i as int, self.players@[i as int]));
            i = i + 1;
        }
        if ending {
            self.game_over = true;
            self.winner = winner;
        } else if ate_any {
            self.respawn_food();
        }
        self.tick = self.tick + 1;
    }

    /// A world of `player_count` fresh players at their spawn points, tick
    /// zero, food on a free cell.
    pub fn new(player_count: usize) -> (r: ServerState)
        requires
            1 <= player_count <= MAX_SLOTS,
        ensures
            r.wf(),
            r.tick == 0,
            r.players@.len() == player_count,
            forall|i: int|
                0 <= i < player_count ==> {
                    let p = #[trigger] r.players@[i];
                    &&& p.name@ == Seq::<char>::empty()
                    &&& p.snake@ == seq![spawn_cell(i)]
                    &&& p.dir == spawn_dir(i)
                    &&& p.score == 0
                    &&& p.latest_input.is_none()
                    &&& !p.dead
                },
            forall|i: int, j: int|
                0 <= i < player_count && 0 <= j < player_count && i != j ==> (
                #[trigger] r.players@[i]).head() != (#[trigger] r.players@[j]).head(),
            r.food.in_grid(),
            !occupied(r.players@, r.food),
            !r.game_over,
            r.winner.is_none(),
    {
        let mut players: Vec<PlayerState> = Vec::new();
        let mut i: usize = 0;
        while i < player_count
            invariant
                i <= player_count <= MAX_SLOTS,
                players@.len() == i,
                forall|k: int|
                    0 <= k < i ==> {
                        let p = #[trigger] players@[k];
                        &&& p.name@ == Seq::<char>::empty()
                        &&& p.snake@ == seq![spawn_cell(k)]
                        &&& p.dir == spawn_dir(k)
                        &&& p.score == 0
                        &&& p.latest_input.is_none()
                        &&& !p.dead
                        &&& p.wf()
                    },
            decreases player_count - i,
        {
            let (at, dir) = spawn_point(i);
            players.push(PlayerState::spawned(at, dir));
            i = i + 1;
        }
        let mut s = ServerState {
            tick: 0,
            players,
            food: Pos { x: 0, y: 0 },
            game_over: false,
            winner: None,
        };
        let corner = Pos { x: 0, y: 0 };
        assert(!occupied(s.players@, corner)) by {
            assert forall|j: int| 0 <= j < s.players@.len() implies !(#[trigger] s.players@[j].snake@.contains(
                corner,
            )) by {
                if s.players@[j].snake@.contains(corner) {
                    let m = choose|m: int| 0 <= m < s.players@[j].snake@.len() && s.players@[j].snake@[m] == corner;
                    assert(s.players@[j].snake@[m] == spawn_cell(j));
                }
            }
        }
        s.respawn_food();
        assert(corner.in_grid());
        assert forall|i: int, j: int|
            0 <= i < player_count && 0 <= j < player_count && i != j implies (
            #[trigger] s.players@[i]).head() != (#[trigger] s.players@[j]).head() by {
            lemma_spawns_distinct(i, j);
        }
        s
    }

    /// Applies a message from the connection in slot `slot`: `Join` sets the
    /// player's name, `Input` overwrites its buffered heading. A slot with
    /// no player is ignored; the result says whether a player was found.
    pub fn handle_message(&mut self, slot: usize, msg: ClientMsg) -> (applied: bool)
        ensures
            applied == (slot < old(self).players@.len()),
            old(self).wf() ==> final(self).wf(),
            final(self).players@.len() == old(self).players@.len(),
            forall|k: int|
                0 <= k < old(self).players@.len() && k != slot ==> #[trigger] final(self).players@[k]
                    == old(self).players@[k],
            applied ==> message_applied(
                old(self).players@[slot as int],
                msg,
                final(self).players@[slot as int],
            ),
            final(self).tick == old(self).tick,
            final(self).food == old(self).food,
            final(self).game_over == old(self).game_over,
            final(self).winner == old(self).winner,
    {
        if slot >= self.players.len() {
            return false;
        }
        let mut p = PlayerState::default();
        self.players.set_and_swap(slot, &mut p);
        match msg {
            ClientMsg::Join { name } => p.name = name,
            ClientMsg::Input { dir } => p.latest_input = Some(dir),
        }
        self.players.set_and_swap(slot, &mut p);
        true
    }

    /// The snapshot broadcast to clients: a copy of the whole world.
    pub fn snapshot(&self) -> (r: StateMsg)
        ensures
            r.tick == self.tick,
            r.players@.len() == self.players@.len(),
            forall|i: int|
                0 <= i < self.players@.len() ==> same_player(
                    self.players@[i],
                    #[trigger] r.players@[i],
                ),
            r.food == self.food,
            r.game_over == self.game_over,
            r.winner == self.winner,
    {
        let mut players: Vec<PlayerState> = Vec::new();
        let mut i: usize = 0;
        while i < self.players.len()
            invariant
                i <= self.players@.len(),
                players@.len() == i,
                forall|k: int|
                    0 <= k < i ==> same_player(self.players@[k], #[trigger] players@[k]),
            decreases self.players@.len() - i,
        {
            players.push(copy_player(&self.players[i]));
            i = i + 1;
        }
        StateMsg {
            tick: self.tick,
            players,
            food: self.food,
            game_over: self.game_over,
            winner: self.winner,
        }
    }
}

} // verus!
