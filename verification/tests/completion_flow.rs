use twothousand_forty_eight::direction::Direction;
use twothousand_forty_eight::unified::game::GameState;
use twothousand_forty_eight::unified::reconstruction::Reconstructable;
use twothousand_forty_eight::v2::recording::SeededRecording;

use sync_2048::sync::AtRepoSync;
use sync_2048::sync::CompletionError;
use sync_2048::sync::StorageResponse;

/// A recording whose every move the rule engine itself chose, so the replay
/// is guaranteed valid.
fn played_recording(seed: u32, moves: usize) -> SeededRecording {
    let mut rec = SeededRecording::empty(seed, 4, 4);
    for _ in 0..moves {
        let gs = GameState::from_reconstructable_ruleset(&rec).expect("replay");
        if gs.over {
            break;
        }
        let mv = gs
            .allowed_moves
            .iter()
            .copied()
            .find(|d| *d != Direction::BREAK)
            .expect("a legal move");
        rec.moves.push(mv);
    }
    rec
}

#[test]
fn completed_game_updates_stats_to_the_engine_score() {
    let rec = played_recording(42, 12);
    let gs = GameState::from_reconstructable_ruleset(&rec).unwrap();
    let score = gs.score_current as u64;
    // The peak tile value across all intermediate boards.
    let recon = rec.reconstruct().unwrap();
    let mut peak: usize = 0;
    for b in &recon.history {
        for row in &b.tiles {
            for c in row {
                if let Some(t) = c {
                    if t.value > peak {
                        peak = t.value;
                    }
                }
            }
        }
    }

    let mut repo = AtRepoSync::new_local_repo();
    let history: String = (&rec).into();
    let r = repo.handle_game_completed(history.clone(), 1000);
    assert_eq!(r, StorageResponse::Success);

    let stats = repo.get_local_player_stats().unwrap();
    assert_eq!(stats.games_played, 1);
    assert_eq!(stats.total_score, score);
    assert_eq!(stats.average_score, score);
    assert_eq!(stats.highest_score, score);
    assert_eq!(stats.highest_number_block, peak as u64);
    assert_eq!(stats.times_twenty_forty_eight_been_found, 0);
    // Nothing was pushed: the stored record is an unsynced snapshot.
    assert!(!stats.sync_status.synced_with_at_repo);
    assert!(!stats.sync_status.hash.is_empty());
}

#[test]
fn resubmitting_the_same_recording_is_a_no_op() {
    let rec = played_recording(7, 8);
    let history: String = (&rec).into();

    let mut repo = AtRepoSync::new_local_repo();
    assert_eq!(repo.handle_game_completed(history.clone(), 50), StorageResponse::Success);
    let after_first = repo.get_local_player_stats().unwrap().clone();

    // Scenario: resubmitting the identical seeded recording a second time.
    assert_eq!(repo.handle_game_completed(history.clone(), 60), StorageResponse::AlreadySynced);
    let after_second = repo.get_local_player_stats().unwrap().clone();
    assert_eq!(after_first, after_second);

    // A different game still goes through.
    let other: String = (&played_recording(8, 8)).into();
    assert_eq!(repo.handle_game_completed(other, 70), StorageResponse::Success);
    assert_eq!(repo.get_local_player_stats().unwrap().games_played, 2);
}

#[test]
fn two_games_compound_into_the_aggregates() {
    let rec_a = played_recording(1, 10);
    let rec_b = played_recording(2, 6);
    let score_a = GameState::from_reconstructable_ruleset(&rec_a).unwrap().score_current as u64;
    let score_b = GameState::from_reconstructable_ruleset(&rec_b).unwrap().score_current as u64;

    let mut repo = AtRepoSync::new_local_repo();
    assert_eq!(
        repo.handle_game_completed((&rec_a).into(), 10),
        StorageResponse::Success
    );
    assert_eq!(
        repo.handle_game_completed((&rec_b).into(), 20),
        StorageResponse::Success
    );
    let stats = repo.get_local_player_stats().unwrap();
    assert_eq!(stats.games_played, 2);
    assert_eq!(stats.total_score, score_a + score_b);
    assert_eq!(stats.average_score, (score_a + score_b) / 2);
    assert_eq!(stats.highest_score, score_a.max(score_b));
}

#[test]
fn malformed_recording_is_a_parse_error() {
    let mut repo = AtRepoSync::new_local_repo();
    let r = repo.handle_game_completed("not a recording".to_string(), 5);
    assert_eq!(r, StorageResponse::Error(CompletionError::ParseError));
    // No side effect: nothing was materialized.
    assert!(repo.get_local_player_stats().is_none());
}

#[test]
fn oversized_board_is_refused() {
    // The rule engine only supports boards up to its compiled maximum; a
    // recording for a larger board is refused at parse time.
    let rec = SeededRecording::new(1, 50, 50, vec![]);
    let mut repo = AtRepoSync::new_local_repo();
    let r = repo.handle_game_completed((&rec).into(), 5);
    assert_eq!(r, StorageResponse::Error(CompletionError::ParseError));
}

#[test]
fn invalid_replay_is_a_reconstruction_error() {
    // A BREAK as the first move can never be replayed: no score to spend.
    let rec = SeededRecording::new(3, 4, 4, vec![Direction::BREAK]);
    let mut repo = AtRepoSync::new_local_repo();
    let r = repo.handle_game_completed((&rec).into(), 5);
    assert_eq!(r, StorageResponse::Error(CompletionError::ReconstructionError));
    assert!(repo.get_local_player_stats().is_none());
}

#[test]
fn completed_games_get_increasing_record_keys() {
    let mut repo = AtRepoSync::new_local_repo();
    let a: String = (&played_recording(11, 6)).into();
    let b: String = (&played_recording(12, 6)).into();
    // The second completion arrives with an older clock; its key must still
    // move forward.
    assert_eq!(repo.handle_game_completed(a, 500), StorageResponse::Success);
    assert_eq!(repo.handle_game_completed(b, 400), StorageResponse::Success);
    let hash_a = sync_2048::hashing::content_hash(&String::from(&played_recording(11, 6)));
    let hash_b = sync_2048::hashing::content_hash(&String::from(&played_recording(12, 6)));
    let key_a = repo.get_game_by_index_hash(&hash_a).unwrap().rkey;
    let key_b = repo.get_game_by_index_hash(&hash_b).unwrap().rkey;
    assert_eq!(key_a, 500);
    assert!(key_b > key_a);
}

#[test]
fn stored_game_record_carries_the_recording() {
    let rec = played_recording(21, 5);
    let history: String = (&rec).into();
    let mut repo = AtRepoSync::new_local_repo();
    assert_eq!(repo.handle_game_completed(history.clone(), 9), StorageResponse::Success);
    let idx = sync_2048::hashing::content_hash(&history);
    let stored = repo.get_game_by_index_hash(&idx).unwrap();
    assert_eq!(stored.record.seeded_recording, history);
    assert_eq!(stored.record.created_at, 9);
    assert!(!stored.record.sync_status.synced_with_at_repo);
}
