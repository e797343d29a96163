use snake::game_core::{
    step_head, ClientMsg, Direction, PlayerState, Pos, GRID_HEIGHT, GRID_WIDTH, MAX_PLAYERS,
};
use snake::server::{body_contains, spawn_point, turned_dir, ServerState};

fn pos(x: i32, y: i32) -> Pos {
    Pos { x, y }
}

fn player(body: &[(i32, i32)], dir: Direction) -> PlayerState {
    PlayerState {
        name: String::new(),
        snake: body.iter().map(|&(x, y)| pos(x, y)).collect(),
        dir,
        score: 0,
        latest_input: None,
        dead: false,
    }
}

fn world(players: Vec<PlayerState>, food: Pos) -> ServerState {
    ServerState { tick: 0, players, food, game_over: false, winner: None }
}

fn on_living_body(s: &ServerState, c: Pos) -> bool {
    s.players.iter().any(|p| !p.dead && p.snake.contains(&c))
}

fn in_grid(c: Pos) -> bool {
    0 <= c.x && c.x < GRID_WIDTH && 0 <= c.y && c.y < GRID_HEIGHT
}

#[test]
fn step_head_moves_one_cell() {
    assert_eq!(step_head(pos(10, 10), Direction::Up), pos(10, 9));
    assert_eq!(step_head(pos(10, 10), Direction::Down), pos(10, 11));
    assert_eq!(step_head(pos(10, 10), Direction::Left), pos(9, 10));
    assert_eq!(step_head(pos(10, 10), Direction::Right), pos(11, 10));
}

#[test]
fn step_head_wraps_at_every_edge() {
    for y in 0..GRID_HEIGHT {
        assert_eq!(step_head(pos(0, y), Direction::Left), pos(GRID_WIDTH - 1, y));
        assert_eq!(step_head(pos(GRID_WIDTH - 1, y), Direction::Right), pos(0, y));
    }
    for x in 0..GRID_WIDTH {
        assert_eq!(step_head(pos(x, 0), Direction::Up), pos(x, GRID_HEIGHT - 1));
        assert_eq!(step_head(pos(x, GRID_HEIGHT - 1), Direction::Down), pos(x, 0));
    }
}

#[test]
fn direction_names_and_opposites() {
    assert_eq!(Direction::Up.as_str(), "Up");
    assert_eq!(Direction::Down.as_str(), "Down");
    assert_eq!(Direction::Left.as_str(), "Left");
    assert_eq!(Direction::Right.as_str(), "Right");
    assert_eq!(Direction::Up.opposite(), Direction::Down);
    assert_eq!(Direction::Left.opposite(), Direction::Right);
    assert_eq!(Direction::default(), Direction::Right);
}

#[test]
fn default_player_is_one_segment_at_origin() {
    let p = PlayerState::default();
    assert_eq!(p.name, "");
    assert_eq!(p.snake, vec![pos(0, 0)]);
    assert_eq!(p.dir, Direction::Right);
    assert_eq!(p.score, 0);
    assert_eq!(p.latest_input, None);
    assert!(!p.dead);
}

#[test]
fn turned_dir_rejects_reversal_only() {
    let mut p = player(&[(5, 5)], Direction::Right);
    p.latest_input = Some(Direction::Left);
    assert_eq!(turned_dir(&p), Direction::Right);
    p.latest_input = Some(Direction::Up);
    assert_eq!(turned_dir(&p), Direction::Up);
    p.latest_input = None;
    assert_eq!(turned_dir(&p), Direction::Right);
}

#[test]
fn reversed_input_keeps_heading() {
    let mut s = world(
        vec![player(&[(5, 5)], Direction::Right), player(&[(40, 20)], Direction::Left)],
        pos(0, 0),
    );
    s.players[0].latest_input = Some(Direction::Left);
    s.step();
    assert_eq!(s.players[0].dir, Direction::Right);
    assert_eq!(s.players[0].latest_input, None);
    assert_eq!(s.players[0].snake, vec![pos(6, 5)]);
}

#[test]
fn perpendicular_inputs_are_taken() {
    let mut s = world(
        vec![player(&[(5, 5)], Direction::Right), player(&[(40, 20)], Direction::Right)],
        pos(0, 0),
    );
    s.players[0].latest_input = Some(Direction::Up);
    s.players[1].latest_input = Some(Direction::Down);
    s.step();
    assert_eq!(s.players[0].dir, Direction::Up);
    assert_eq!(s.players[0].snake, vec![pos(5, 4)]);
    assert_eq!(s.players[1].dir, Direction::Down);
    assert_eq!(s.players[1].snake, vec![pos(40, 21)]);
}

#[test]
fn self_collision_kills() {
    // Head at (5,5) turning down runs into its own segment at (5,6).
    let mut s = world(
        vec![
            player(&[(5, 5), (6, 5), (6, 6), (5, 6)], Direction::Left),
            player(&[(40, 20)], Direction::Left),
        ],
        pos(0, 0),
    );
    s.players[0].latest_input = Some(Direction::Down);
    s.step();
    assert!(s.players[0].dead);
    assert_eq!(s.players[0].snake, vec![pos(5, 5), pos(6, 5), pos(6, 6), pos(5, 6)]);
    assert!(!s.players[1].dead);
    assert!(s.game_over);
    assert_eq!(s.winner, Some(2));
}

#[test]
fn single_segment_moves_off_its_own_cell() {
    let mut s = world(vec![player(&[(5, 5)], Direction::Right)], pos(0, 0));
    s.step();
    assert!(!s.players[0].dead);
    assert!(!s.game_over);
    assert_eq!(s.players[0].snake, vec![pos(6, 5)]);
}

#[test]
fn mutual_elimination_is_a_draw() {
    let mut s = world(
        vec![
            player(&[(10, 5), (9, 5)], Direction::Right),
            player(&[(11, 5), (12, 5)], Direction::Left),
        ],
        pos(0, 0),
    );
    s.step();
    assert!(s.players[0].dead);
    assert!(s.players[1].dead);
    assert!(s.game_over);
    assert_eq!(s.winner, None);
    assert_eq!(s.tick, 1);
}

#[test]
fn head_on_meeting_is_a_draw() {
    let mut s = world(
        vec![player(&[(29, 15)], Direction::Right), player(&[(31, 15)], Direction::Left)],
        pos(0, 0),
    );
    s.step();
    assert!(s.players[0].dead && s.players[1].dead);
    assert!(s.game_over);
    assert_eq!(s.winner, None);
}

#[test]
fn single_elimination_names_the_survivor() {
    // Player 1 runs into player 2's tail; player 2 moves away freely.
    let mut s = world(
        vec![
            player(&[(10, 5), (9, 5)], Direction::Right),
            player(&[(20, 5), (11, 5)], Direction::Up),
        ],
        pos(0, 0),
    );
    s.step();
    assert!(s.players[0].dead);
    assert!(!s.players[1].dead);
    assert!(s.game_over);
    assert_eq!(s.winner, Some(2));
    // The ending step moves nobody.
    assert_eq!(s.players[1].snake, vec![pos(20, 5), pos(11, 5)]);
}

#[test]
fn solo_player_dying_ends_in_a_draw() {
    let mut s = world(
        vec![player(&[(5, 5), (6, 5), (6, 6), (5, 6)], Direction::Down)],
        pos(0, 0),
    );
    s.step();
    assert!(s.players[0].dead);
    assert!(s.game_over);
    assert_eq!(s.winner, None);
}

#[test]
fn eating_grows_and_scores() {
    let mut s = world(
        vec![player(&[(5, 5), (4, 5)], Direction::Right), player(&[(40, 20)], Direction::Left)],
        pos(6, 5),
    );
    s.step();
    assert_eq!(s.players[0].snake, vec![pos(6, 5), pos(5, 5), pos(4, 5)]);
    assert_eq!(s.players[0].score, 1);
    assert_eq!(s.players[1].score, 0);
    assert!(in_grid(s.food));
    assert!(!on_living_body(&s, s.food));
}

#[test]
fn only_the_player_reaching_food_eats() {
    let mut s = world(
        vec![player(&[(5, 5)], Direction::Right), player(&[(6, 7)], Direction::Up)],
        pos(6, 6),
    );
    s.step();
    assert_eq!(s.players[1].snake, vec![pos(6, 6), pos(6, 7)]);
    assert_eq!(s.players[1].score, 1);
    assert_eq!(s.players[0].snake, vec![pos(6, 5)]);
    assert_eq!(s.players[0].score, 0);
}

#[test]
fn plain_move_keeps_length() {
    let mut s = world(
        vec![
            player(&[(5, 5), (4, 5), (3, 5)], Direction::Right),
            player(&[(40, 20), (40, 21)], Direction::Up),
        ],
        pos(0, 0),
    );
    s.step();
    assert_eq!(s.tick, 1);
    assert_eq!(s.players[0].snake, vec![pos(6, 5), pos(5, 5), pos(4, 5)]);
    assert_eq!(s.players[1].snake, vec![pos(40, 19), pos(40, 20)]);
    assert_eq!(s.food, pos(0, 0));
    assert!(!s.game_over);
}

#[test]
fn moving_into_own_vacating_tail_is_a_collision() {
    // Collisions are judged against the bodies as they stood before the tick.
    let mut s = world(
        vec![
            player(&[(5, 5), (5, 6), (6, 6), (6, 5)], Direction::Up),
            player(&[(40, 20)], Direction::Left),
        ],
        pos(0, 0),
    );
    s.players[0].latest_input = Some(Direction::Right);
    s.step();
    assert!(s.players[0].dead);
    assert_eq!(s.players[0].dir, Direction::Right);
}

#[test]
fn tick_counts_every_step_until_the_game_is_over() {
    let mut s = world(
        vec![player(&[(10, 5), (9, 5)], Direction::Right), player(&[(40, 20)], Direction::Left)],
        pos(0, 0),
    );
    for expected in 1..=3u64 {
        s.step();
        assert_eq!(s.tick, expected);
    }
    s.players[0].snake = vec![pos(30, 20), pos(31, 20)];
    s.players[0].dir = Direction::Up;
    s.players[1].snake = vec![pos(32, 20), pos(33, 20)];
    s.players[1].dir = Direction::Left;
    // Player 2 runs into player 1's body; the ending step still counts.
    s.step();
    assert!(s.game_over);
    assert_eq!(s.winner, Some(1));
    assert_eq!(s.tick, 4);
    let before = s.snapshot();
    s.step();
    assert_eq!(s.tick, 4);
    assert_eq!(s.players[0].snake, before.players[0].snake);
    assert_eq!(s.winner, before.winner);
}

#[test]
fn two_players_close_in_and_meet_head_on() {
    let mut s = ServerState::new(MAX_PLAYERS);
    assert_eq!(s.players[0].snake, vec![pos(27, 15)]);
    assert_eq!(s.players[0].dir, Direction::Right);
    assert_eq!(s.players[1].snake, vec![pos(33, 15)]);
    assert_eq!(s.players[1].dir, Direction::Left);
    s.step();
    assert_eq!(s.players[0].snake[0], pos(28, 15));
    assert_eq!(s.players[1].snake[0], pos(32, 15));
    assert!(!s.players[0].dead && !s.players[1].dead);
    assert_eq!(s.tick, 1);
    s.step();
    assert!(!s.game_over);
    s.step();
    assert!(s.players[0].dead && s.players[1].dead);
    assert!(s.game_over);
    assert_eq!(s.winner, None);
    assert_eq!(s.tick, 3);
}

#[test]
fn new_world_spawns_each_slot() {
    let s = ServerState::new(4);
    assert_eq!(s.tick, 0);
    assert_eq!(s.players.len(), 4);
    assert_eq!(s.players[2].snake, vec![pos(27, 17)]);
    assert_eq!(s.players[3].snake, vec![pos(33, 17)]);
    assert_eq!(s.players[3].dir, Direction::Left);
    assert!(in_grid(s.food));
    assert!(!on_living_body(&s, s.food));
    assert!(!s.game_over);
    assert_eq!(s.winner, None);
}

#[test]
fn spawn_points_pair_up_rows() {
    assert_eq!(spawn_point(0), (pos(27, 15), Direction::Right));
    assert_eq!(spawn_point(1), (pos(33, 15), Direction::Left));
    assert_eq!(spawn_point(14), (pos(27, 29), Direction::Right));
    assert_eq!(spawn_point(16), (pos(27, 1), Direction::Right));
    assert_eq!(spawn_point(30), (pos(24, 15), Direction::Right));
    assert_eq!(spawn_point(31), (pos(36, 15), Direction::Left));
    assert_eq!(spawn_point(254), (pos(3, 29), Direction::Right));
}

#[test]
fn largest_world_spawns_every_slot_apart() {
    let s = ServerState::new(255);
    assert_eq!(s.players.len(), 255);
    for i in 0..255 {
        let p = &s.players[i];
        assert_eq!(p.snake.len(), 1);
        assert!(in_grid(p.snake[0]));
        assert_eq!(p.score, 0);
        assert!(!p.dead);
        for j in 0..i {
            assert_ne!(p.snake[0], s.players[j].snake[0]);
        }
    }
    assert!(in_grid(s.food));
    assert!(!on_living_body(&s, s.food));
}

#[test]
fn messages_name_and_buffer_last_input() {
    let mut s = ServerState::new(2);
    assert!(s.handle_message(0, ClientMsg::Join { name: "ada".to_string() }));
    assert_eq!(s.players[0].name, "ada");
    assert!(s.handle_message(1, ClientMsg::Input { dir: Direction::Up }));
    assert!(s.handle_message(1, ClientMsg::Input { dir: Direction::Down }));
    assert_eq!(s.players[1].latest_input, Some(Direction::Down));
    assert_eq!(s.players[0].latest_input, None);
    assert!(!s.handle_message(2, ClientMsg::Join { name: "bob".to_string() }));
    s.step();
    // Facing Left, Down is taken.
    assert_eq!(s.players[1].dir, Direction::Down);
}

#[test]
fn snapshot_copies_the_world() {
    let mut s = ServerState::new(2);
    s.handle_message(0, ClientMsg::Join { name: "ada".to_string() });
    s.step();
    let m = s.snapshot();
    assert_eq!(m.tick, 1);
    assert_eq!(m.food, s.food);
    assert_eq!(m.players.len(), 2);
    assert_eq!(m.players[0].name, "ada");
    assert_eq!(m.players[0].snake, s.players[0].snake);
    assert_eq!(m.players[1].dir, s.players[1].dir);
    assert_eq!(m.game_over, s.game_over);
    assert_eq!(m.winner, s.winner);
}

#[test]
fn place_food_only_on_free_cells() {
    let mut s = world(vec![player(&[(5, 5), (4, 5)], Direction::Right)], pos(0, 0));
    assert!(!s.place_food(pos(4, 5)));
    assert_eq!(s.food, pos(0, 0));
    assert!(!s.place_food(pos(GRID_WIDTH, 3)));
    assert!(!s.place_food(pos(-1, 3)));
    assert!(s.place_food(pos(7, 7)));
    assert_eq!(s.food, pos(7, 7));
    // A dead body does not block food.
    s.players[0].dead = true;
    assert!(s.place_food(pos(4, 5)));
}

#[test]
fn contains_any_checks_living_bodies() {
    let mut s = world(
        vec![player(&[(5, 5), (4, 5)], Direction::Right), player(&[(9, 9)], Direction::Left)],
        pos(0, 0),
    );
    assert!(s.contains_any(&pos(4, 5)));
    assert!(s.contains_any(&pos(9, 9)));
    assert!(!s.contains_any(&pos(9, 8)));
    s.players[1].dead = true;
    assert!(!s.contains_any(&pos(9, 9)));
    assert!(body_contains(&s.players[0].snake, pos(5, 5)));
    assert!(!body_contains(&s.players[0].snake, pos(6, 5)));
}

#[test]
fn respawn_food_stays_on_the_grid() {
    let mut s = ServerState::new(2);
    for _ in 0..200 {
        s.respawn_food();
        assert!(in_grid(s.food));
        assert!(!on_living_body(&s, s.food));
    }
}

#[test]
fn respawn_food_finds_the_last_free_cell() {
    let mut body = Vec::new();
    for y in 0..GRID_HEIGHT {
        for x in 0..GRID_WIDTH {
            if (x, y) != (17, 23) {
                body.push(pos(x, y));
            }
        }
    }
    let mut p = player(&[], Direction::Right);
    p.snake = body;
    let mut s = world(vec![p], pos(0, 0));
    s.respawn_food();
    assert_eq!(s.food, pos(17, 23));
}

#[test]
fn respawn_food_on_a_full_grid_leaves_food_in_place() {
    let mut body = Vec::new();
    for y in 0..GRID_HEIGHT {
        for x in 0..GRID_WIDTH {
            body.push(pos(x, y));
        }
    }
    let mut p = player(&[], Direction::Right);
    p.snake = body;
    let mut s = world(vec![p], pos(3, 4));
    s.respawn_food();
    assert_eq!(s.food, pos(3, 4));
}
