use lost_n_found::grid::{CellKind, GameGrid, GridItem, HintDir, TrapType};
use lost_n_found::rect::Rect;
use lost_n_found::round::{
    centered_grid_rect, displayed_direction, flip_every_half_second, GameResult, MouseState,
    Round, BOARD_FINISH_MSG_TIME_MS, CONFUSION_TIME_MS,
};

// level 1: a 15x10 grid, 15 s on the clock, a window of 6
fn level_one(kinds: &Vec<CellKind>) -> Round {
    Round::for_level(1, (2, 3), kinds, 0, 0, 0)
}

fn hints() -> Vec<CellKind> {
    vec![CellKind::Hint; 150]
}

fn click_at(x: i32, y: i32) -> MouseState {
    // a point inside the display block of cell (x, y) for a grid at (0, 0)
    MouseState { click: true, x: 1 + 4 * x + 1, y: 1 + 2 * y }
}

fn idle() -> MouseState {
    MouseState { click: false, x: 0, y: 0 }
}

#[test]
fn new_round_is_in_play() {
    let r = level_one(&hints());
    assert_eq!(r.level(), 1);
    assert_eq!(r.grid().width(), 15);
    assert_eq!(r.grid().height(), 10);
    assert_eq!(r.grid().max_revealed_cells(), 6);
    assert_eq!(r.game_over_state(), None);
    assert_eq!(r.confusion_state(0), None);
    assert_eq!(r.game_time_remaining(0), 15_000);
    assert_eq!(r.game_time_remaining(4_000), 11_000);
    assert_eq!(r.result(1_000_000), None);
    assert_eq!(r.message_secs_left(0), None);
}

#[test]
fn round_from_a_built_grid() {
    let grid = GameGrid::new(4, 4, 2, (1, 1), &vec![CellKind::Empty; 16]);
    let r = Round::new(30, grid, 3, 5, 1000);
    assert_eq!(r.level(), 30);
    assert_eq!(r.grid_left(), 3);
    assert_eq!(r.grid_top(), 5);
    assert_eq!(r.game_time_remaining(1000), 5_000);
}

#[test]
fn clicking_the_solution_wins_with_the_clock_frozen() {
    let mut r = level_one(&hints());
    r.tick(2_500, &click_at(2, 3));
    let over = r.game_over_state().unwrap();
    assert_eq!(over.result, GameResult::Win);
    assert_eq!(over.frozen_game_time, 12_500);
    assert_eq!(r.game_time_remaining(9_000), 12_500);
    assert!(!r.is_lost());
    // the message runs for five seconds before the round hands back its result
    assert_eq!(r.result(2_500 + BOARD_FINISH_MSG_TIME_MS - 1), None);
    assert_eq!(r.result(2_500 + BOARD_FINISH_MSG_TIME_MS), Some(GameResult::Win));
}

#[test]
fn running_out_of_time_loses_with_zero_on_the_clock() {
    let mut r = level_one(&hints());
    r.tick(14_999, &idle());
    assert_eq!(r.game_over_state(), None);
    r.tick(15_000, &idle());
    let over = r.game_over_state().unwrap();
    assert_eq!(over.result, GameResult::Lose);
    assert_eq!(over.frozen_game_time, 0);
    assert!(r.is_lost());
    assert_eq!(r.result(20_000), Some(GameResult::Lose));
}

#[test]
fn a_late_click_on_the_solution_still_loses() {
    let mut r = level_one(&hints());
    r.tick(15_000, &click_at(2, 3));
    assert_eq!(r.game_over_state().unwrap().result, GameResult::Lose);
    assert!(!r.grid().cell(2, 3).unwrap().revealed);
}

#[test]
fn other_cells_do_not_end_the_round() {
    let mut kinds = hints();
    kinds[0] = CellKind::Empty;
    let mut r = level_one(&kinds);
    r.tick(100, &click_at(5, 5));
    r.tick(200, &click_at(0, 0));
    assert_eq!(r.game_over_state(), None);
    assert!(r.grid().cell(5, 5).unwrap().revealed);
    assert!(r.grid().cell(0, 0).unwrap().revealed);
    assert_eq!(r.confusion_state(200), None);
}

#[test]
fn a_finished_round_accepts_no_more_reveals() {
    let mut r = level_one(&hints());
    r.tick(100, &click_at(2, 3));
    r.tick(200, &click_at(7, 7));
    assert!(!r.grid().cell(7, 7).unwrap().revealed);
    assert_eq!(r.grid().revealed_count(), 1);
    assert_eq!(r.game_over_state().unwrap().result, GameResult::Win);
    // the clock running out afterwards changes nothing either
    r.tick(60_000, &idle());
    assert_eq!(r.game_over_state().unwrap().result, GameResult::Win);
}

#[test]
fn clicks_off_the_grid_reveal_nothing() {
    let mut r = level_one(&hints());
    r.tick(100, &MouseState { click: true, x: 0, y: 5 });
    r.tick(200, &MouseState { click: true, x: 5, y: 0 });
    r.tick(300, &MouseState { click: true, x: 1000, y: 5 });
    r.tick(400, &MouseState { click: false, x: 9, y: 7 });
    assert_eq!(r.grid().revealed_count(), 0);
    assert_eq!(r.game_over_state(), None);
}

#[test]
fn a_trap_starts_confusion_but_keeps_the_round_going() {
    let mut kinds = hints();
    kinds[15 * 4 + 6] = CellKind::Trap;
    let mut r = level_one(&kinds);
    assert_eq!(r.grid().cell(6, 4).unwrap().item, GridItem::Trap(TrapType::Confusion));
    r.tick(1_000, &click_at(6, 4));
    assert_eq!(r.game_over_state(), None);
    // 3000 ms left: the first half of each second shows flipped hints
    assert_eq!(r.confusion_state(1_000), Some(true));
    assert_eq!(r.confusion_state(1_400), Some(false));
    assert_eq!(r.confusion_state(1_600), Some(true));
    r.tick(1_000 + CONFUSION_TIME_MS - 1, &idle());
    assert!(r.confusion_state(1_000 + CONFUSION_TIME_MS - 1).is_some());
    r.tick(1_000 + CONFUSION_TIME_MS, &idle());
    assert_eq!(r.confusion_state(1_000 + CONFUSION_TIME_MS), None);
}

#[test]
fn a_second_trap_restarts_confusion() {
    let mut kinds = hints();
    kinds[0] = CellKind::Trap;
    kinds[1] = CellKind::Trap;
    let mut r = level_one(&kinds);
    r.tick(0, &click_at(0, 0));
    r.tick(2_000, &click_at(1, 0));
    r.tick(3_500, &idle());
    assert!(r.confusion_state(3_500).is_some());
    r.tick(5_000, &idle());
    assert_eq!(r.confusion_state(5_000), None);
    assert_eq!(r.game_over_state(), None);
}

#[test]
fn confusion_flips_shown_hints_in_its_on_phase() {
    let mut kinds = hints();
    kinds[0] = CellKind::Trap;
    let mut r = level_one(&kinds);
    // (7, 3): to the right of the solution, so the hint points left
    r.tick(0, &click_at(7, 3));
    assert_eq!(r.shown_item(7, 3, 0), Some(GridItem::Hint(HintDir::Left)));
    r.tick(100, &click_at(0, 0));
    assert_eq!(r.shown_item(7, 3, 100), Some(GridItem::Hint(HintDir::Right)));
    assert_eq!(r.shown_item(7, 3, 600), Some(GridItem::Hint(HintDir::Left)));
    assert_eq!(r.shown_item(0, 0, 100), Some(GridItem::Trap(TrapType::Confusion)));
    // hidden and outside cells show nothing
    assert_eq!(r.shown_item(9, 9, 100), None);
    assert_eq!(r.shown_item(15, 0, 100), None);
}

#[test]
fn a_lost_round_shows_every_cell_truthfully() {
    let mut kinds = hints();
    kinds[0] = CellKind::Trap;
    let mut r = level_one(&kinds);
    r.tick(14_000, &click_at(0, 0));
    r.tick(15_000, &idle());
    assert!(r.is_lost());
    assert!(r.confusion_state(15_000).is_some());
    assert_eq!(r.shown_item(2, 3, 15_000), Some(GridItem::Solution));
    // (2, 9) lies below the solution: the true hint points up, unflipped
    assert_eq!(r.shown_item(2, 9, 15_000), Some(GridItem::Hint(HintDir::Up)));
    assert_eq!(r.shown_item(2, 9, 15_600), Some(GridItem::Hint(HintDir::Up)));
}

#[test]
fn message_seconds_round_to_nearest() {
    let mut r = level_one(&hints());
    r.tick(0, &click_at(2, 3));
    assert_eq!(r.message_secs_left(0), Some(5));
    assert_eq!(r.message_secs_left(499), Some(5));
    assert_eq!(r.message_secs_left(501), Some(4));
    assert_eq!(r.message_secs_left(4_600), Some(0));
    assert_eq!(r.message_secs_left(9_000), Some(0));
}

#[test]
fn hover_highlights_the_cell_under_the_pointer() {
    let r = Round::for_level(1, (0, 0), &hints(), 4, 2, 0);
    let m = MouseState { click: false, x: 15, y: 6 };
    assert_eq!(r.hover_rect(&m), Some(Rect { left: 13, top: 5, width: 3, height: 2 }));
    assert_eq!(r.hover_rect(&MouseState { click: false, x: 4, y: 6 }), None);
    assert_eq!(r.hover_rect(&MouseState { click: false, x: 200, y: 6 }), None);
}

#[test]
fn grid_is_centred_in_the_window() {
    let r = centered_grid_rect(15, 10, 99, 59);
    assert_eq!(r, Rect { left: 18, top: 18, width: 63, height: 22 });
    // a window narrower than the grid puts it off the left edge
    let r = centered_grid_rect(15, 10, 10, 20);
    assert_eq!(r, Rect { left: -26, top: -1, width: 63, height: 22 });
}

#[test]
fn displayed_direction_flips_only_when_confused_in_phase() {
    assert_eq!(displayed_direction(HintDir::Up, true, true), HintDir::Down);
    assert_eq!(displayed_direction(HintDir::Up, true, false), HintDir::Up);
    assert_eq!(displayed_direction(HintDir::Up, false, true), HintDir::Up);
    assert_eq!(displayed_direction(HintDir::Left, true, true), HintDir::Right);
}

#[test]
fn flicker_phase_is_the_first_half_of_each_second() {
    assert!(flip_every_half_second(3000));
    assert!(flip_every_half_second(2499));
    assert!(!flip_every_half_second(2500));
    assert!(!flip_every_half_second(2999));
    assert!(flip_every_half_second(0));
}
