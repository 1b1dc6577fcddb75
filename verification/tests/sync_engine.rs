use sync_2048::records::PlayerStats;
use sync_2048::records::SyncStatus;
use sync_2048::records::new_player_profile;
use sync_2048::records::new_player_stats;
use sync_2048::records::stage_player_stats;
use sync_2048::sync::AtRepoSync;
use sync_2048::sync::RemoteFetch;
use sync_2048::sync::StorageError;
use sync_2048::sync::SyncFollowUp;
use sync_2048::sync::AtRepoSyncError;
use sync_2048::hashing::content_hash;
use sync_2048::records::GameRecord;

fn remote_stats(hash: &str, games: u64) -> PlayerStats {
    let mut s = new_player_stats(1);
    s.games_played = games;
    s.sync_status = SyncStatus {
        created_at: 1,
        updated_at: 2,
        hash: hash.to_string(),
        synced_with_at_repo: true,
    };
    s
}

#[test]
fn local_only_sync_materializes_defaults_once() {
    let mut repo = AtRepoSync::new_local_repo();
    assert!(!repo.can_remote_sync());
    assert!(repo.get_local_player_stats().is_none());

    let r = repo.sync_stats(RemoteFetch::NoCapability, 100);
    assert!(matches!(r, SyncFollowUp::Done));
    let stats = repo.get_local_player_stats().unwrap().clone();
    assert_eq!(stats.games_played, 0);
    // No remote: the snapshot is unsynced, and its hash reflects that.
    assert!(!stats.sync_status.synced_with_at_repo);
    assert!(!stats.sync_status.hash.is_empty());

    // A second sync is a no-op.
    let r2 = repo.sync_stats(RemoteFetch::NoCapability, 200);
    assert!(matches!(r2, SyncFollowUp::Done));
    assert_eq!(repo.get_local_player_stats().unwrap(), &stats);
}

#[test]
fn local_only_profile_sync_materializes_defaults() {
    let mut repo = AtRepoSync::new_local_repo();
    let r = repo.sync_profiles(RemoteFetch::NoCapability, 100);
    assert!(matches!(r, SyncFollowUp::Done));
    let p = repo.get_local_player_profile().unwrap();
    assert!(!p.solo_play);
    assert!(!p.sync_status.synced_with_at_repo);
}

#[test]
fn remote_wins_on_divergence() {
    let mut repo = AtRepoSync::new_logged_in_repo("did:plc:someone".to_string());
    assert!(repo.can_remote_sync());

    // Seed a diverged local copy.
    let local = remote_stats("hash-local", 3);
    let staged = stage_player_stats(local, 10);
    repo.commit_player_stats(staged, false);
    let local_hash = repo.get_local_player_stats().unwrap().sync_status.hash.clone();

    // The remote copy has a different hash: it overwrites the local copy
    // verbatim, hash included.
    let remote = remote_stats("hash-remote", 9);
    assert_ne!(local_hash, "hash-remote");
    let r = repo.sync_stats(RemoteFetch::Found(remote.clone()), 20);
    assert!(matches!(r, SyncFollowUp::Done));
    assert_eq!(repo.get_local_player_stats().unwrap(), &remote);
}

#[test]
fn matching_hashes_leave_local_alone() {
    let mut repo = AtRepoSync::new_logged_in_repo("did:plc:someone".to_string());
    let copy = remote_stats("same-hash", 4);
    repo.sync_stats(RemoteFetch::Found(copy.clone()), 5);
    // Now local and remote agree; a new fetch with the same hash changes
    // nothing even though other fields differ.
    let mut remote = copy.clone();
    remote.games_played = 99;
    repo.sync_stats(RemoteFetch::Found(remote), 6);
    assert_eq!(repo.get_local_player_stats().unwrap(), &copy);
}

#[test]
fn absent_local_adopts_the_remote_copy() {
    let mut repo = AtRepoSync::new_logged_in_repo("did:plc:someone".to_string());
    let remote = remote_stats("any", 7);
    repo.sync_stats(RemoteFetch::Found(remote.clone()), 5);
    assert_eq!(repo.get_local_player_stats().unwrap(), &remote);
}

#[test]
fn missing_remote_stages_the_default_for_a_push() {
    let mut repo = AtRepoSync::new_logged_in_repo("did:plc:someone".to_string());
    let r = repo.sync_stats(RemoteFetch::Missing, 30);
    let staged = match r {
        SyncFollowUp::Push(s) => s,
        SyncFollowUp::Done => panic!("expected a staged record to push"),
    };
    // Nothing persisted yet.
    assert!(repo.get_local_player_stats().is_none());
    // The staged candidate is optimistically synced.
    assert!(staged.sync_status.synced_with_at_repo);
    let optimistic_hash = staged.sync_status.hash.clone();

    // The push succeeded: the record is stored as staged.
    repo.commit_player_stats(staged.clone(), true);
    let stored = repo.get_local_player_stats().unwrap();
    assert!(stored.sync_status.synced_with_at_repo);
    assert_eq!(stored.sync_status.hash, optimistic_hash);
}

#[test]
fn failed_push_stores_an_unsynced_snapshot() {
    let mut repo = AtRepoSync::new_logged_in_repo("did:plc:someone".to_string());
    let r = repo.sync_profiles(RemoteFetch::Missing, 30);
    let staged = match r {
        SyncFollowUp::Push(p) => p,
        SyncFollowUp::Done => panic!("expected a staged record to push"),
    };
    let optimistic_hash = staged.sync_status.hash.clone();
    repo.commit_player_profile(staged, false);
    let stored = repo.get_local_player_profile().unwrap();
    assert!(!stored.sync_status.synced_with_at_repo);
    // The hash was corrected to cover the final, unsynced payload.
    assert_ne!(stored.sync_status.hash, optimistic_hash);
    assert_eq!(stored.created_at, 30);
    assert!(!stored.solo_play);
}

#[test]
fn current_game_slot_is_overwritten_and_cleared() {
    let mut repo = AtRepoSync::new_local_repo();
    assert!(repo.load_current_game().is_none());
    repo.save_current_game("::2:4:4:1:".to_string(), 40, false, false, 7);
    let g = repo.load_current_game().unwrap();
    assert_eq!(g.current_score, 40);
    assert_eq!(g.created_at, 7);
    assert!(!g.sync_status.synced_with_at_repo);

    // A later save keeps the record's identity and only moves the score and
    // recording forward.
    repo.save_current_game("::2:4:4:1:BQ".to_string(), 44, false, false, 9);
    let g2 = repo.load_current_game().unwrap();
    assert_eq!(g2.created_at, 7);
    assert_eq!(g2.current_score, 44);
    assert_eq!(g2.seeded_recording, "::2:4:4:1:BQ");

    repo.clear_current_game();
    assert!(repo.load_current_game().is_none());
}

#[test]
fn dedup_verdict_accounts_for_capability() {
    let history = "::2:4:4:9:".to_string();
    let game = GameRecord {
        completed: true,
        won: false,
        created_at: 1,
        current_score: 8,
        seeded_recording: history.clone(),
        sync_status: SyncStatus {
            created_at: 1,
            updated_at: 1,
            hash: String::new(),
            synced_with_at_repo: true,
        },
    };

    // Logged in, stored but the push failed: not treated as recorded, the
    // open question of retrying is left to the caller.
    let mut online = AtRepoSync::new_logged_in_repo("did:plc:x".to_string());
    assert!(!online.game_already_recorded(&history));
    let staged = online.create_a_new_game(game.clone(), 1);
    let key = online.commit_new_game(staged, content_hash(&history), false, 77);
    assert_eq!(key, 77);
    assert_eq!(online.last_record_key(), 77);
    assert!(!online.game_already_recorded(&history));

    // The same stored game with a successful push is recorded.
    let mut synced = AtRepoSync::new_logged_in_repo("did:plc:x".to_string());
    let staged = synced.create_a_new_game(game.clone(), 1);
    synced.commit_new_game(staged, content_hash(&history), true, 77);
    assert!(synced.game_already_recorded(&history));

    // Without remote capability any stored copy counts as recorded.
    let mut offline = AtRepoSync::new_local_repo();
    let staged = offline.create_a_new_game(game, 1);
    offline.commit_new_game(staged, content_hash(&history), false, 77);
    assert!(offline.game_already_recorded(&history));

    // The reconciliation error taxonomy renders its messages.
    assert_eq!(
        AtRepoSyncError::AtRepoCallError("timeout".to_string()).message(),
        "AtRepoCallError: timeout"
    );
    assert_eq!(AtRepoSyncError::LocalIsNewer.message(), "Local is newer");
}

#[test]
fn storage_error_messages_carry_through() {
    let e = StorageError::Error("boom".to_string());
    assert_eq!(e.to_string(), "boom");
    let o = StorageError::OpenDbError("no db".to_string());
    assert_eq!(o.to_string(), "no db");
}
