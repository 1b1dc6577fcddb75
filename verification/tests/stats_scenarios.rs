use sync_2048::records::new_player_stats;
use sync_2048::replay::apply_completed_game;

#[test]
fn scenario_first_game() {
    // Anonymous player, empty stats, completes a game with final score 1200
    // and no tile reaching 2048.
    let empty = new_player_stats(0);
    let after = apply_completed_game(&empty, 1200, 64, 0, 0);
    assert_eq!(after.games_played, 1);
    assert_eq!(after.total_score, 1200);
    assert_eq!(after.average_score, 1200);
    assert_eq!(after.highest_score, 1200);
    assert_eq!(after.highest_number_block, 64);
    assert_eq!(after.times_twenty_forty_eight_been_found, 0);
    assert_eq!(after.least_moves_to_find_twenty_forty_eight, 0);
}

#[test]
fn scenario_second_game() {
    // The same player completes a second game with final score 400.
    let empty = new_player_stats(0);
    let first = apply_completed_game(&empty, 1200, 64, 0, 0);
    let second = apply_completed_game(&first, 400, 32, 0, 0);
    assert_eq!(second.games_played, 2);
    assert_eq!(second.total_score, 1600);
    assert_eq!(second.average_score, 800);
    // 400 < 1200: the highest score is unchanged.
    assert_eq!(second.highest_score, 1200);
    assert_eq!(second.highest_number_block, 64);
}

#[test]
fn scenario_first_twenty_forty_eight() {
    // A tile reaches 2048 for the first time on move 37 of a game.
    let empty = new_player_stats(0);
    let after = apply_completed_game(&empty, 30000, 2048, 1, 37);
    assert_eq!(after.times_twenty_forty_eight_been_found, 1);
    // Previously unset (0): the record becomes 37.
    assert_eq!(after.least_moves_to_find_twenty_forty_eight, 37);

    // Previously larger: the record falls to 37.
    let mut slower = empty.clone();
    slower.least_moves_to_find_twenty_forty_eight = 50;
    let improved = apply_completed_game(&slower, 30000, 2048, 1, 37);
    assert_eq!(improved.least_moves_to_find_twenty_forty_eight, 37);
}

#[test]
fn least_moves_updates_only_on_strictly_smaller() {
    let mut stats = new_player_stats(0);
    stats.least_moves_to_find_twenty_forty_eight = 37;
    // A slower find leaves the record alone.
    let worse = apply_completed_game(&stats, 30000, 2048, 1, 40);
    assert_eq!(worse.least_moves_to_find_twenty_forty_eight, 37);
    // An equal find leaves the record alone.
    let equal = apply_completed_game(&stats, 30000, 2048, 1, 37);
    assert_eq!(equal.least_moves_to_find_twenty_forty_eight, 37);
    // A game with no 2048 leaves the record alone.
    let none = apply_completed_game(&stats, 100, 64, 0, 0);
    assert_eq!(none.least_moves_to_find_twenty_forty_eight, 37);
    // A strictly faster find takes the record.
    let better = apply_completed_game(&stats, 30000, 2048, 1, 36);
    assert_eq!(better.least_moves_to_find_twenty_forty_eight, 36);
}

#[test]
fn average_is_integer_truncation() {
    let empty = new_player_stats(0);
    let a = apply_completed_game(&empty, 100, 8, 0, 0);
    let b = apply_completed_game(&a, 101, 8, 0, 0);
    // (100 + 101) / 2 truncates to 100.
    assert_eq!(b.games_played, 2);
    assert_eq!(b.total_score, 201);
    assert_eq!(b.average_score, 100);
    let c = apply_completed_game(&b, 1, 8, 0, 0);
    assert_eq!(c.average_score, 202 / 3);
}

#[test]
fn aggregates_are_monotonic() {
    let mut stats = new_player_stats(0);
    stats = apply_completed_game(&stats, 500, 64, 0, 0);
    let scores = [100u64, 9000, 0, 42];
    for s in scores {
        let next = apply_completed_game(&stats, s, 16, 0, 0);
        assert!(next.games_played >= stats.games_played);
        assert!(next.highest_score >= stats.highest_score);
        assert!(next.highest_number_block >= stats.highest_number_block);
        assert!(next.total_score >= stats.total_score);
        stats = next;
    }
}

#[test]
fn counters_saturate_at_the_limit() {
    let mut stats = new_player_stats(0);
    stats.total_score = u64::MAX - 5;
    stats.games_played = 3;
    let after = apply_completed_game(&stats, 100, 8, 0, 0);
    assert_eq!(after.total_score, u64::MAX);
    assert_eq!(after.games_played, 4);
    // The average invariant still holds on the saturated total.
    assert_eq!(after.average_score, u64::MAX / 4);
}
