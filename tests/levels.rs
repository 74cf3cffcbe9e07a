use lost_n_found::difficulty::{
    get_board_time_from_level, get_grid_size_from_level, get_max_revealed_cells_from_level,
};
use lost_n_found::timer::Timer;

#[test]
fn level_one_settings() {
    assert_eq!(get_grid_size_from_level(1), (15, 10));
    assert_eq!(get_board_time_from_level(1), 15);
    assert_eq!(get_max_revealed_cells_from_level(1), 6);
}

#[test]
fn level_thirty_settings() {
    assert_eq!(get_grid_size_from_level(30), (25, 20));
    assert_eq!(get_board_time_from_level(30), 5);
    assert_eq!(get_max_revealed_cells_from_level(30), 1);
}

#[test]
fn curve_steps() {
    assert_eq!(get_board_time_from_level(8), 15);
    assert_eq!(get_board_time_from_level(9), 13);
    assert_eq!(get_board_time_from_level(12), 11);
    assert_eq!(get_board_time_from_level(21), 5);
    assert_eq!(get_grid_size_from_level(2), (15, 10));
    assert_eq!(get_grid_size_from_level(3), (16, 11));
    assert_eq!(get_grid_size_from_level(29), (24, 19));
    assert_eq!(get_max_revealed_cells_from_level(4), 6);
    assert_eq!(get_max_revealed_cells_from_level(5), 5);
    assert_eq!(get_max_revealed_cells_from_level(24), 2);
    assert_eq!(get_max_revealed_cells_from_level(25), 1);
}

#[test]
fn curves_are_monotone_and_bounded() {
    let mut prev = (get_board_time_from_level(1), get_grid_size_from_level(1), get_max_revealed_cells_from_level(1));
    for level in 1..=1000 {
        let time = get_board_time_from_level(level);
        let size = get_grid_size_from_level(level);
        let cap = get_max_revealed_cells_from_level(level);
        assert!((5..=15).contains(&time));
        assert!((15..=25).contains(&size.0) && (10..=20).contains(&size.1));
        assert!((1..=6).contains(&cap));
        assert!(time <= prev.0);
        assert!(size.0 >= prev.1 .0 && size.1 >= prev.1 .1);
        assert!(cap <= prev.2);
        prev = (time, size, cap);
    }
}

#[test]
fn curves_saturate_at_huge_levels() {
    assert_eq!(get_board_time_from_level(usize::MAX), 5);
    assert_eq!(get_grid_size_from_level(usize::MAX), (25, 20));
    assert_eq!(get_max_revealed_cells_from_level(usize::MAX), 1);
    assert_eq!(get_grid_size_from_level(0), (15, 10));
}

#[test]
fn timer_counts_down_and_stops_at_zero() {
    let t = Timer::new(3000, 1000);
    assert_eq!(t.time_left(1000), 3000);
    assert_eq!(t.time_left(500), 3000);
    assert_eq!(t.time_left(2500), 1500);
    assert!(!t.finished(3999));
    assert_eq!(t.time_left(4000), 0);
    assert!(t.finished(4000));
    assert_eq!(t.time_left(u64::MAX), 0);
}

#[test]
fn zero_length_timer_is_finished_at_once() {
    let t = Timer::new(0, 7);
    assert!(t.finished(7));
}
