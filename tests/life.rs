use game_of_life::input::{action_for_byte, action_for_poll, Action};
use game_of_life::render::{render, render_home, render_teardown};
use game_of_life::session::{Output, Session};
use game_of_life::world::{CellState, World};

fn filled(width: usize, height: usize, s: CellState) -> World {
    let mut w = World::new(width, height);
    for y in 0..height {
        for x in 0..width {
            w.set(x, y, s);
        }
    }
    w
}

fn alive_cells(w: &World) -> Vec<(usize, usize)> {
    let mut v = Vec::new();
    for y in 0..w.height() {
        for x in 0..w.width() {
            if w.get(x, y) == CellState::Alive {
                v.push((x, y));
            }
        }
    }
    v
}

#[test]
fn new_world_is_all_dead() {
    let w = World::new(4, 3);
    assert_eq!(w.width(), 4);
    assert_eq!(w.height(), 3);
    assert!(alive_cells(&w).is_empty());
}

#[test]
fn corner_of_full_grid_has_three_neighbors() {
    let w = filled(5, 4, CellState::Alive);
    assert_eq!(w.count_neighbors(0, 0), 3);
    assert_eq!(w.count_neighbors(4, 3), 3);
    assert_eq!(w.count_neighbors(4, 0), 3);
    assert_eq!(w.count_neighbors(0, 3), 3);
}

#[test]
fn interior_of_full_grid_has_eight_neighbors() {
    let w = filled(5, 4, CellState::Alive);
    for y in 1..3 {
        for x in 1..4 {
            assert_eq!(w.count_neighbors(x, y), 8);
            assert_eq!(w.count_alive_neighbors(x, y), 8);
        }
    }
}

#[test]
fn edge_cell_of_full_grid_has_five_neighbors() {
    let w = filled(5, 4, CellState::Alive);
    assert_eq!(w.count_neighbors(2, 0), 5);
    assert_eq!(w.count_neighbors(0, 2), 5);
}

#[test]
fn neighbors_do_not_wrap() {
    let mut w = World::new(5, 5);
    w.set(4, 2, CellState::Alive);
    assert_eq!(w.count_neighbors(0, 2), 0);
    assert_eq!(w.count_neighbors(3, 2), 1);
}

#[test]
fn lone_cell_dies() {
    let mut w = World::new(5, 5);
    w.set(2, 2, CellState::Alive);
    w.next_generation();
    assert!(alive_cells(&w).is_empty());
}

#[test]
fn cell_with_two_neighbors_survives() {
    let mut w = World::new(5, 5);
    w.set(1, 1, CellState::Alive);
    w.set(2, 2, CellState::Alive);
    w.set(3, 3, CellState::Alive);
    assert_eq!(w.count_neighbors(2, 2), 2);
    w.next_generation();
    assert_eq!(w.get(2, 2), CellState::Alive);
}

#[test]
fn cell_with_three_neighbors_survives() {
    let mut w = World::new(5, 5);
    w.set(2, 2, CellState::Alive);
    w.set(1, 1, CellState::Alive);
    w.set(3, 1, CellState::Alive);
    w.set(2, 3, CellState::Alive);
    assert_eq!(w.count_neighbors(2, 2), 3);
    w.next_generation();
    assert_eq!(w.get(2, 2), CellState::Alive);
}

#[test]
fn dead_cell_with_three_neighbors_is_born() {
    let mut w = World::new(5, 5);
    w.set(1, 1, CellState::Alive);
    w.set(3, 1, CellState::Alive);
    w.set(2, 3, CellState::Alive);
    assert_eq!(w.count_neighbors(2, 2), 3);
    w.next_generation();
    assert_eq!(w.get(2, 2), CellState::Alive);
}

#[test]
fn dead_cell_with_two_neighbors_stays_dead() {
    let mut w = World::new(5, 5);
    w.set(1, 1, CellState::Alive);
    w.set(3, 1, CellState::Alive);
    w.next_generation();
    assert_eq!(w.get(2, 2), CellState::Dead);
}

#[test]
fn cell_with_four_neighbors_dies() {
    let mut w = World::new(5, 5);
    w.set(2, 2, CellState::Alive);
    w.set(1, 1, CellState::Alive);
    w.set(3, 1, CellState::Alive);
    w.set(1, 3, CellState::Alive);
    w.set(3, 3, CellState::Alive);
    assert_eq!(w.count_neighbors(2, 2), 4);
    w.next_generation();
    assert_eq!(w.get(2, 2), CellState::Dead);
}

#[test]
fn blinker_has_period_two() {
    let mut w = World::new(6, 7);
    w.set(3, 2, CellState::Alive);
    w.set(3, 3, CellState::Alive);
    w.set(3, 4, CellState::Alive);
    let vertical = alive_cells(&w);
    w.next_generation();
    assert_eq!(alive_cells(&w), vec![(2, 3), (3, 3), (4, 3)]);
    w.next_generation();
    assert_eq!(alive_cells(&w), vertical);
}

#[test]
fn next_state_matches_next_generation() {
    let mut w = World::new(6, 6);
    w.set(1, 1, CellState::Alive);
    w.set(2, 1, CellState::Alive);
    w.set(1, 2, CellState::Alive);
    let n = w.next_state();
    w.next_generation();
    assert_eq!(alive_cells(&n), alive_cells(&w));
    assert_eq!(alive_cells(&w), vec![(1, 1), (2, 1), (1, 2), (2, 2)]);
}

#[test]
fn empty_grid_stays_empty() {
    for (width, height) in [(1, 1), (3, 8), (10, 10)] {
        let mut w = World::new(width, height);
        for _ in 0..20 {
            w.next_generation();
            assert!(alive_cells(&w).is_empty());
        }
    }
}

#[test]
fn randomize_is_fair_and_varies() {
    let mut w = World::new(50, 40);
    let total = 2000.0_f64;
    let mut previous: Option<Vec<(usize, usize)>> = None;
    let mut differs = false;
    for _ in 0..10 {
        w.randomize();
        let alive = alive_cells(&w);
        let fraction = alive.len() as f64 / total;
        assert!(fraction > 0.4 && fraction < 0.6, "alive fraction {}", fraction);
        if let Some(p) = &previous {
            if *p != alive {
                differs = true;
            }
        }
        previous = Some(alive);
    }
    assert!(differs);
    assert_eq!(w.width(), 50);
    assert_eq!(w.height(), 40);
}

#[test]
fn command_bytes_map_to_actions() {
    assert_eq!(action_for_byte(b'q'), Action::Quit);
    assert_eq!(action_for_byte(b'r'), Action::Randomize);
    assert_eq!(action_for_byte(b' '), Action::ToggleRun);
    assert_eq!(action_for_byte(b'h'), Action::GoHome);
}

#[test]
fn other_bytes_do_nothing() {
    for b in 0..=255u8 {
        if b != b'q' && b != b'r' && b != b' ' && b != b'h' {
            assert_eq!(action_for_byte(b), Action::NoOp);
        }
    }
    assert_eq!(action_for_byte(b'Q'), Action::NoOp);
    assert_eq!(action_for_byte(b's'), Action::NoOp);
}

#[test]
fn empty_poll_does_nothing() {
    assert_eq!(action_for_poll(None), Action::NoOp);
    assert_eq!(action_for_poll(Some(b'q')), Action::Quit);
    assert_eq!(action_for_poll(Some(b'x')), Action::NoOp);
}

#[test]
fn degenerate_grids_do_not_panic() {
    for (width, height) in [(0, 0), (0, 5), (5, 0)] {
        let mut w = World::new(width, height);
        w.randomize();
        w.next_generation();
        let n = w.next_state();
        assert_eq!(n.width(), width);
        assert_eq!(n.height(), height);
        assert!(alive_cells(&w).is_empty());
    }
}

#[test]
fn cell_state_next_state_flips() {
    assert_eq!(CellState::Dead.next_state(), CellState::Alive);
    assert_eq!(CellState::Alive.next_state(), CellState::Dead);
}

#[test]
fn frame_of_small_grid() {
    let mut w = World::new(2, 2);
    w.set(0, 0, CellState::Alive);
    w.set(1, 1, CellState::Alive);
    let frame = render(&w);
    assert_eq!(
        frame,
        "\x1b[2J\x1b[?25l\x1b[1;1H█░\x1b[2;1H░█\x1b[3;1H\x1b[?25h"
    );
}

#[test]
fn frame_row_moves_use_decimal_rows() {
    let w = World::new(1, 11);
    let frame = render(&w);
    assert!(frame.ends_with("░\x1b[12;1H\x1b[?25h"));
    assert_eq!(frame.matches('░').count(), 11);
}

#[test]
fn home_screen_pads_to_width() {
    let help = "q: quit, r: randomize, space: start/stop, h: home";
    let s = render_home(60, 2);
    assert_eq!(s, format!("\n\n{}{}", help, " ".repeat(11)));
}

#[test]
fn home_screen_narrower_than_help_is_not_padded() {
    let help = "q: quit, r: randomize, space: start/stop, h: home";
    assert_eq!(render_home(10, 1), format!("\n{}", help));
    assert_eq!(render_home(0, 0), help);
}

#[test]
fn teardown_sequence() {
    assert_eq!(render_teardown(), "\x1b[m\x1b[1;1H\x1b[2J\x1b[?25h");
}

#[test]
fn session_starts_idle_and_toggles() {
    let mut s = Session::new(8, 6);
    assert!(!s.is_running());
    assert_eq!(s.tick(Action::NoOp), Output::Nothing);
    let expected = s.world().next_state();
    match s.tick(Action::ToggleRun) {
        Output::Frame(f) => assert_eq!(f, render(&expected)),
        other => panic!("expected a frame, got {:?}", other),
    }
    assert!(s.is_running());
    assert_eq!(alive_cells(s.world()), alive_cells(&expected));
    assert_eq!(s.tick(Action::ToggleRun), Output::Nothing);
    assert!(!s.is_running());
}

#[test]
fn session_home_stops_and_shows_idle_screen() {
    let mut s = Session::new(60, 3);
    s.tick(Action::ToggleRun);
    assert!(s.is_running());
    let snapshot = alive_cells(s.world());
    assert_eq!(s.tick(Action::GoHome), Output::Home(render_home(60, 3)));
    assert!(!s.is_running());
    assert_eq!(alive_cells(s.world()), snapshot);
    assert_eq!(s.home_screen(), render_home(60, 3));
}

#[test]
fn session_quit_tears_down() {
    let mut s = Session::new(4, 4);
    let snapshot = alive_cells(s.world());
    assert_eq!(s.tick(Action::Quit), Output::Quit(render_teardown()));
    assert_eq!(alive_cells(s.world()), snapshot);
}

#[test]
fn session_randomize_while_idle_draws_nothing() {
    let mut s = Session::new(30, 30);
    assert_eq!(s.tick(Action::Randomize), Output::Nothing);
    assert!(!s.is_running());
    assert_eq!(s.world().width(), 30);
}

#[test]
fn fill_from_coins_sets_each_cell_from_its_draw() {
    let mut w = filled(3, 2, CellState::Alive);
    let coins = vec![vec![true, false, false], vec![false, false, true]];
    w.fill_from_coins(&coins);
    assert_eq!(alive_cells(&w), vec![(0, 0), (2, 1)]);
    w.fill_from_coins(&vec![vec![false; 3]; 2]);
    assert!(alive_cells(&w).is_empty());
}

#[test]
fn tick_with_coins_randomize_while_idle() {
    let mut s = Session::new(3, 3);
    let coins = vec![vec![false, true, false]; 3];
    assert_eq!(s.tick_with_coins(Action::Randomize, &coins), Output::Nothing);
    assert!(!s.is_running());
    assert_eq!(alive_cells(s.world()), vec![(1, 0), (1, 1), (1, 2)]);
}

#[test]
fn tick_with_coins_randomize_while_running_advances() {
    let mut s = Session::new(3, 3);
    s.tick_with_coins(Action::ToggleRun, &Vec::new());
    assert!(s.is_running());
    let coins = vec![vec![false, true, false]; 3];
    let out = s.tick_with_coins(Action::Randomize, &coins);
    assert!(s.is_running());
    assert_eq!(alive_cells(s.world()), vec![(0, 1), (1, 1), (2, 1)]);
    assert_eq!(out, Output::Frame(render(s.world())));
}

#[test]
fn other_bytes_leave_cells_alone_in_a_tick() {
    let mut s = Session::new(5, 5);
    let snapshot = alive_cells(s.world());
    for b in [b'R', b'x', b's', b'H'] {
        let out = s.tick_with_coins(action_for_byte(b), &Vec::new());
        assert_eq!(out, Output::Nothing);
        assert_eq!(alive_cells(s.world()), snapshot);
    }
}
