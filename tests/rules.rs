use asteroid_dodge::scoring::{check_collision, collect_stars, decimal_digits, score_text};
use asteroid_dodge::spawning::{
    asteroid_target, asteroids_to_spawn, random_spawn_side, side_from_index, stars_to_spawn, Side,
};

#[test]
fn asteroid_target_grows_one_per_two_points() {
    assert_eq!(asteroid_target(0), 10);
    assert_eq!(asteroid_target(1), 10);
    assert_eq!(asteroid_target(2), 11);
    assert_eq!(asteroid_target(7), 13);
    assert_eq!(asteroid_target(u32::MAX), 10 + (u32::MAX as usize) / 2);
}

#[test]
fn asteroids_fill_up_to_target() {
    assert_eq!(asteroids_to_spawn(0, 0), 10);
    assert_eq!(asteroids_to_spawn(4, 7), 9);
    assert_eq!(asteroids_to_spawn(13, 7), 0);
    assert_eq!(asteroids_to_spawn(20, 7), 0);
}

#[test]
fn stars_fill_up_to_three() {
    assert_eq!(stars_to_spawn(0), 3);
    assert_eq!(stars_to_spawn(2), 1);
    assert_eq!(stars_to_spawn(3), 0);
    assert_eq!(stars_to_spawn(9), 0);
}

#[test]
fn side_indices_map_to_edges() {
    assert_eq!(side_from_index(0), Side::Top);
    assert_eq!(side_from_index(1), Side::Right);
    assert_eq!(side_from_index(2), Side::Bottom);
    assert_eq!(side_from_index(3), Side::Left);
    assert_eq!(side_from_index(17), Side::Left);
}

#[test]
fn random_side_covers_every_edge() {
    let mut seen = [false; 4];
    for _ in 0..2000 {
        let i = match random_spawn_side() {
            Side::Top => 0,
            Side::Right => 1,
            Side::Bottom => 2,
            Side::Left => 3,
        };
        seen[i] = true;
    }
    assert!(seen.iter().all(|s| *s));
}

#[test]
fn stars_in_reach_are_collected() {
    let (score, gone) = collect_stars(3, &vec![true, false, true]);
    assert_eq!(score, 5);
    assert_eq!(gone, vec![0, 2]);
}

#[test]
fn no_star_in_reach_keeps_score() {
    let (score, gone) = collect_stars(8, &vec![false, false, false]);
    assert_eq!(score, 8);
    assert!(gone.is_empty());
    let (score, gone) = collect_stars(0, &vec![]);
    assert_eq!(score, 0);
    assert!(gone.is_empty());
}

#[test]
fn collecting_at_the_top_of_the_range() {
    let (score, gone) = collect_stars(u32::MAX - 1, &vec![false, true]);
    assert_eq!(score, u32::MAX);
    assert_eq!(gone, vec![1]);
}

#[test]
fn any_hit_resets() {
    assert!(!check_collision(&vec![]));
    assert!(!check_collision(&vec![false, false]));
    assert!(check_collision(&vec![false, true, false]));
    assert!(check_collision(&vec![true]));
}

#[test]
fn digits_of_numbers() {
    assert_eq!(decimal_digits(0), vec!['0']);
    assert_eq!(decimal_digits(7), vec!['7']);
    assert_eq!(decimal_digits(10), vec!['1', '0']);
    assert_eq!(decimal_digits(4096), vec!['4', '0', '9', '6']);
    assert_eq!(
        decimal_digits(u32::MAX).iter().collect::<String>(),
        u32::MAX.to_string()
    );
}

#[test]
fn scoreboard_text() {
    assert_eq!(score_text(0), "Score: 0");
    assert_eq!(score_text(12), "Score: 12");
    assert_eq!(score_text(305), format!("Score: {:?}", 305u32));
}
