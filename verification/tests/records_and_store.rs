use sync_2048::hashing::content_hash;
use sync_2048::records::GameRecord;
use sync_2048::records::PlayerStats;
use sync_2048::records::SyncStatus;
use sync_2048::records::new_player_profile;
use sync_2048::records::new_player_stats;
use sync_2048::records::settle_player_stats;
use sync_2048::records::stage_game_record;
use sync_2048::records::stage_player_profile;
use sync_2048::records::stage_player_stats;
use sync_2048::records::stats_payload_string;
use sync_2048::store::LocalStore;

fn status(created: u64, updated: u64, hash: &str, synced: bool) -> SyncStatus {
    SyncStatus {
        created_at: created,
        updated_at: updated,
        hash: hash.to_string(),
        synced_with_at_repo: synced,
    }
}

#[test]
fn default_records_are_zeroed() {
    let p = new_player_profile(11);
    assert_eq!(p.created_at, 11);
    assert!(!p.solo_play);
    assert_eq!(p.sync_status.hash, "");

    let s = new_player_stats(12);
    assert_eq!(s.games_played, 0);
    assert_eq!(s.total_score, 0);
    assert_eq!(s.average_score, 0);
    assert_eq!(s.highest_score, 0);
    assert_eq!(s.highest_number_block, 0);
    assert_eq!(s.times_twenty_forty_eight_been_found, 0);
    assert_eq!(s.least_moves_to_find_twenty_forty_eight, 0);
}

#[test]
fn stats_payload_is_canonical() {
    let mut s = new_player_stats(5);
    s.games_played = 2;
    s.total_score = 900;
    s.average_score = 450;
    s.highest_score = 500;
    s.highest_number_block = 64;
    s.sync_status = status(5, 7, "ignored", true);
    // The stored hash is excluded from the payload.
    assert_eq!(stats_payload_string(&s), "stats|5|2|900|450|500|64|0|0|5|7|1");
}

#[test]
fn staging_stamps_the_optimistic_hash() {
    let staged = stage_player_stats(new_player_stats(3), 9);
    assert_eq!(staged.sync_status.updated_at, 9);
    assert!(staged.sync_status.synced_with_at_repo);
    // The hash covers the payload with the optimistic synced flag.
    let mut probe = staged.clone();
    probe.sync_status.hash = String::new();
    assert_eq!(staged.sync_status.hash, content_hash(&stats_payload_string(&probe)));
}

#[test]
fn settling_a_failed_push_recomputes_the_hash() {
    let staged = stage_player_stats(new_player_stats(3), 9);
    let kept = settle_player_stats(staged.clone(), true);
    assert_eq!(kept, staged);

    let unsynced = settle_player_stats(staged.clone(), false);
    assert!(!unsynced.sync_status.synced_with_at_repo);
    assert_ne!(unsynced.sync_status.hash, staged.sync_status.hash);
    // The recomputed hash reflects the final, unsynced payload.
    assert_eq!(unsynced.sync_status.hash, content_hash(&stats_payload_string(&unsynced)));
}

#[test]
fn profile_staging_is_deterministic() {
    let a = stage_player_profile(new_player_profile(4), 8);
    let b = stage_player_profile(new_player_profile(4), 8);
    assert_eq!(a, b);
}

#[test]
fn store_slots_and_index_lookup() {
    let mut store = LocalStore::new();
    assert!(store.get_profile().is_none());
    assert!(store.get_stats().is_none());
    assert!(store.get_current_game().is_none());
    assert_eq!(store.game_count(), 0);

    store.put_stats(new_player_stats(1));
    assert_eq!(store.get_stats().unwrap().created_at, 1);

    let game = |rec: &str, now: u64| GameRecord {
        completed: true,
        won: false,
        created_at: now,
        current_score: 10,
        seeded_recording: rec.to_string(),
        sync_status: status(now, now, "", false),
    };
    let w1 = sync_2048::records::RecordStorageWrapper {
        rkey: 1,
        record: stage_game_record(game("a", 1), 1),
        index_hash: "h1".to_string(),
    };
    let w2 = sync_2048::records::RecordStorageWrapper {
        rkey: 2,
        record: stage_game_record(game("b", 2), 2),
        index_hash: "h2".to_string(),
    };
    let w3 = sync_2048::records::RecordStorageWrapper {
        rkey: 3,
        record: stage_game_record(game("c", 3), 3),
        index_hash: "h1".to_string(),
    };
    store.push_game(w1.clone());
    store.push_game(w2.clone());
    store.push_game(w3);
    assert_eq!(store.game_count(), 3);
    // The secondary index returns the first match.
    let hit = store.get_game_by_index_hash(&"h1".to_string()).unwrap();
    assert_eq!(hit.rkey, 1);
    let hit2 = store.get_game_by_index_hash(&"h2".to_string()).unwrap();
    assert_eq!(hit2.rkey, 2);
    assert!(store.get_game_by_index_hash(&"h9".to_string()).is_none());
}
