//! The record synchronization engine: per-record-kind reconciliation between
//! the local store and an identity-owned remote repository, and the
//! dedup-aware game-completion flow.
//!
//! The engine owns the local store and all decisions; the remote repository
//! is reached only by the caller. A reconciliation step takes the outcome of
//! the caller's remote fetch as an event (`RemoteFetch`) and either finishes
//! locally or hands back a staged record the caller must offer to the remote
//! (`SyncFollowUp::Push`), after which the caller reports the push outcome
//! to the matching `commit` method. A remote fetch that fails is treated as
//! "missing": availability is favored over strict remote consistency, and a
//! new, unsynced local snapshot is minted rather than blocking the caller.
//! On divergence the remote copy wins unconditionally.

use vstd::prelude::*;

use crate::hashing::content_hash;
use crate::hashing::content_hash_spec;
use crate::records::GameRecord;
use crate::records::GameRecordV;
use crate::records::PlayerProfile;
use crate::records::PlayerStats;
use crate::records::RecordStorageWrapper;
use crate::records::RecordStorageWrapperV;
use crate::records::SyncStatus;
use crate::records::SyncStatusV;
use crate::records::committed_game;
use crate::records::committed_profile;
use crate::records::committed_stats;
use crate::records::default_profile;
use crate::records::default_stats;
use crate::records::new_player_profile;
use crate::records::new_player_stats;
use crate::records::settle_game_record;
use crate::records::settle_player_profile;
use crate::records::settle_player_stats;
use crate::records::stage_game_record;
use crate::records::stage_player_profile;
use crate::records::stage_player_stats;
use crate::records::staged_game;
use crate::records::staged_profile;
use crate::records::staged_stats;
use crate::replay::applied_stats;
use crate::replay::board_peak;
use crate::replay::board_peak_value;
use crate::replay::first_2048_turn;
use crate::replay::history_2048_ids;
use crate::replay::history_peak;
use crate::replay::max_u64;
use crate::replay::apply_completed_game;
use crate::replay::scan_history;
use crate::rules_engine::final_state_of;
use crate::rules_engine::history_of;
use crate::rules_engine::parse_recording;
use crate::rules_engine::recording_parses;
use crate::rules_engine::reconstruct_final_state;
use crate::rules_engine::reconstruct_history;
use crate::store::LocalStore;
use crate::store::LocalStoreV;
use crate::store::find_game_by_index_hash;

verus! {

/// Errors of the reconciliation layer.
#[derive(Debug, Clone, PartialEq, Eq)]
pub enum AtRepoSyncError {
    LocalIsNewer,
    RemoteIsNewer,
    AtRepoCallError(String),
    LocalRepoError(String),
    ThereWasAnError(String),
}

impl AtRepoSyncError {
    /// The error as a message.
    pub fn message(&self) -> (r: String)
        ensures
            match self {
                AtRepoSyncError::LocalIsNewer => r@ == "Local is newer"@,
                AtRepoSyncError::RemoteIsNewer => r@ == "Remote is newer"@,
                AtRepoSyncError::AtRepoCallError(m) => r@ == "AtRepoCallError: "@ + m@,
                AtRepoSyncError::LocalRepoError(m) => r@ == "LocalRepoError: "@ + m@,
                AtRepoSyncError::ThereWasAnError(m) => r@ == "ThereWasAnError: "@ + m@,
            },
    {
        match self {
            AtRepoSyncError::LocalIsNewer => ("Local is newer").to_owned(),
            AtRepoSyncError::RemoteIsNewer => ("Remote is newer").to_owned(),
            AtRepoSyncError::AtRepoCallError(m) => {
                let mut out: String = ("AtRepoCallError: ").to_owned();
                out.append(m.as_str());
                out
            },
            AtRepoSyncError::LocalRepoError(m) => {
                let mut out: String = ("LocalRepoError: ").to_owned();
                out.append(m.as_str());
                out
            },
            AtRepoSyncError::ThereWasAnError(m) => {
                let mut out: String = ("ThereWasAnError: ").to_owned();
                out.append(m.as_str());
                out
            },
        }
    }
}

/// Errors of the local persistence layer.
#[derive(Debug, Clone, PartialEq, Eq)]
pub enum StorageError {
    Error(String),
    OpenDbError(String),
}

impl StorageError {
    /// The carried message.
    pub fn to_string(&self) -> (r: String)
        ensures
            match self {
                StorageError::Error(m) => r@ == m@,
                StorageError::OpenDbError(m) => r@ == m@,
            },
    {
        match self {
            StorageError::Error(m) => m.clone(),
            StorageError::OpenDbError(m) => m.clone(),
        }
    }
}

/// Why a game-completion request failed. Parse and reconstruction failures
/// are client data errors and happen before any side effect; a storage
/// failure is fatal to the operation; a missing statistics record after a
/// sync is a configuration error.
#[derive(Debug, Clone, PartialEq, Eq)]
pub enum CompletionError {
    ParseError,
    ReconstructionError,
    Storage(StorageError),
    MissingStats,
}

/// The reply to a game-completion request.
#[derive(Debug, Clone, PartialEq, Eq)]
pub enum StorageResponse {
    Success,
    AlreadySynced,
    Error(CompletionError),
}

/// A request across the background task boundary: a completed game's seeded
/// recording and the player's identity, if any.
#[derive(Debug, Clone, PartialEq, Eq)]
pub enum StorageRequest {
    GameCompleted(String, Option<String>),
}

/// The outcome of the caller's attempt to fetch a record from the remote
/// repository. A failed call and a missing record are both `Missing`: the
/// engine degrades to minting a local snapshot. `NoCapability` is for the
/// anonymous, local-only mode.
pub enum RemoteFetch<R> {
    NoCapability,
    Missing,
    Found(R),
}

/// What remains after a reconciliation step: nothing, or a staged record the
/// caller must offer to the remote repository and then commit with the push
/// outcome.
pub enum SyncFollowUp<R> {
    Done,
    Push(R),
}

/// The synchronization engine's state.
pub struct AtRepoSync {
    users_did: Option<String>,
    last_rkey: u64,
    store: LocalStore,
}

pub ghost struct AtRepoSyncV {
    pub users_did: Option<Seq<char>>,
    pub last_rkey: u64,
    pub store: LocalStoreV,
}

impl View for AtRepoSync {
    type V = AtRepoSyncV;

    closed spec fn view(&self) -> AtRepoSyncV {
        AtRepoSyncV {
            users_did: match self.users_did {
                Some(d) => Some(d@),
                None => None,
            },
            last_rkey: self.last_rkey,
            store: self.store@,
        }
    }
}

/// Whether a remote repository is reachable: an identity is configured.
pub open spec fn can_remote(e: AtRepoSyncV) -> bool {
    e.users_did is Some
}

/// Game record keys are allocated strictly increasing, so remote ordering
/// mirrors creation order, and never ahead of the engine's key counter.
pub open spec fn games_keys_ordered(games: Seq<RecordStorageWrapperV>, last: u64) -> bool {
    &&& forall|i: int, j: int|
        0 <= i < j < games.len() ==> #[trigger] games[i].rkey < #[trigger] games[j].rkey
    &&& forall|i: int| 0 <= i < games.len() ==> #[trigger] games[i].rkey <= last
}

/// The engine's well-formedness.
pub open spec fn wf(e: AtRepoSyncV) -> bool {
    games_keys_ordered(e.store.games, e.last_rkey)
}

/// The dedup index key of a seeded recording: the content hash of the raw
/// string alone.
pub open spec fn index_hash_spec(s: Seq<char>) -> Seq<char> {
    content_hash_spec(s)
}

/// The game record minted for a completed game, before staging.
pub open spec fn completed_game_record(
    s: Seq<char>,
    score: u64,
    over: bool,
    won: bool,
    now: u64,
) -> GameRecordV {
    GameRecordV {
        completed: over,
        won,
        created_at: now,
        current_score: score,
        seeded_recording: s,
        sync_status: SyncStatusV {
            created_at: now,
            updated_at: now,
            hash: Seq::empty(),
            synced_with_at_repo: true,
        },
    }
}

/// The record key minted at `now`: the timestamp where it has moved past
/// every key handed out before, else one past the last key.
pub open spec fn next_rkey(last: u64, now: u64) -> u64 {
    if now > last {
        now
    } else {
        (last + 1) as u64
    }
}

/// The whole anonymous game-completion flow as one transition: reject a
/// recording that does not parse or reconstruct, answer `AlreadySynced` for
/// a recording whose index hash is already stored, and otherwise materialize
/// statistics if absent, fold the replayed game in, persist the updated
/// statistics and the new game record (both unsynced: there is no remote),
/// and answer `Success`.
pub open spec fn handle_game_completed_spec(e: AtRepoSyncV, s: Seq<char>, now: u64) -> (
    AtRepoSyncV,
    StorageResponse,
) {
    if !recording_parses(s) {
        (e, StorageResponse::Error(CompletionError::ParseError))
    } else if final_state_of(s) is None || history_of(s) is None {
        (e, StorageResponse::Error(CompletionError::ReconstructionError))
    } else if find_game_by_index_hash(e.store.games, index_hash_spec(s)) is Some {
        (e, StorageResponse::AlreadySynced)
    } else {
        let fin = final_state_of(s)->Some_0;
        let hist = history_of(s)->Some_0;
        let score = fin.1 as u64;
        let stats0 = match e.store.stats {
            Some(st) => st,
            None => committed_stats(staged_stats(default_stats(now), now), false),
        };
        let peak = max_u64(board_peak(fin.0) as u64, history_peak(hist) as u64);
        let times = history_2048_ids(hist).len() as u64;
        let first = first_2048_turn(hist) as u64;
        let stats2 = committed_stats(staged_stats(applied_stats(stats0, score, peak, times, first), now), false);
        let key = next_rkey(e.last_rkey, now);
        let game = committed_game(staged_game(completed_game_record(s, score, fin.2, fin.3, now), now), false);
        let wrapper = RecordStorageWrapperV { rkey: key, record: game, index_hash: index_hash_spec(s) };
        let e2 = AtRepoSyncV {
            users_did: e.users_did,
            last_rkey: key,
            store: LocalStoreV {
                stats: Some(stats2),
                games: e.store.games.push(wrapper),
                ..e.store
            },
        };
        (e2, StorageResponse::Success)
    }
}

impl AtRepoSync {
    /// A repo for a logged-in player: records can additionally be synced
    /// with the player's remote repository.
    pub fn new_logged_in_repo(did: String) -> (r: AtRepoSync)
        ensures
            r@.users_did == Some(did@),
            r@.last_rkey == 0,
            r@.store.profile is None,
            r@.store.stats is None,
            r@.store.games == Seq::<RecordStorageWrapperV>::empty(),
            r@.store.current_game is None,
            wf(r@),
    {
        AtRepoSync { users_did: Some(did), last_rkey: 0, store: LocalStore::new() }
    }

    /// A local-only repo: not logged in, or the remote repository is out of
    /// reach.
    pub fn new_local_repo() -> (r: AtRepoSync)
        ensures
            r@.users_did is None,
            r@.last_rkey == 0,
            r@.store.profile is None,
            r@.store.stats is None,
            r@.store.games == Seq::<RecordStorageWrapperV>::empty(),
            r@.store.current_game is None,
            wf(r@),
    {
        AtRepoSync { users_did: None, last_rkey: 0, store: LocalStore::new() }
    }

    /// Whether the repo can sync remotely: the player is logged in.
    pub fn can_remote_sync(&self) -> (r: bool)
        ensures
            r == can_remote(self@),
    {
        self.users_did.is_some()
    }

    /// The locally stored player profile, if any.
    pub fn get_local_player_profile(&self) -> (r: Option<&PlayerProfile>)
        ensures
            match r {
                Some(p) => self@.store.profile == Some(p@),
                None => self@.store.profile is None,
            },
    {
        self.store.get_profile()
    }

    /// The locally stored player statistics, if any.
    pub fn get_local_player_stats(&self) -> (r: Option<&PlayerStats>)
        ensures
            match r {
                Some(s) => self@.store.stats == Some(s@),
                None => self@.store.stats is None,
            },
    {
        self.store.get_stats()
    }

    /// The highest record key handed out so far; fresh keys move strictly
    /// past it.
    pub fn last_record_key(&self) -> (r: u64)
        ensures
            r == self@.last_rkey,
    {
        self.last_rkey
    }

    /// Whether this exact recording needs no further processing: it is
    /// already stored, and either its push to the remote repository
    /// succeeded or there is no remote to push to. A stored game that never
    /// synced while a remote has since become available is deliberately not
    /// retried.
    pub fn game_already_recorded(&self, game_history: &String) -> (r: bool)
        ensures
            r == match find_game_by_index_hash(
                self@.store.games,
                index_hash_spec(game_history@),
            ) {
                Some(w) => w.record.sync_status.synced_with_at_repo || !can_remote(self@),
                None => false,
            },
    {
        let index_hash = content_hash(game_history.as_str());
        match self.store.get_game_by_index_hash(&index_hash) {
            Some(w) => w.record.sync_status.synced_with_at_repo || !self.can_remote_sync(),
            None => false,
        }
    }

    /// The stored game whose seeded recording hashes to `index_hash`, if
    /// any.
    pub fn get_game_by_index_hash(&self, index_hash: &String) -> (r: Option<&RecordStorageWrapper>)
        ensures
            match r {
                Some(w) => find_game_by_index_hash(self@.store.games, index_hash@) == Some(w@),
                None => find_game_by_index_hash(self@.store.games, index_hash@) is None,
            },
    {
        self.store.get_game_by_index_hash(index_hash)
    }

    /// Stage the default profile for its first push: materialized at `now`,
    /// optimistically marked synced, hash stamped.
    pub fn create_a_new_player_profile(&self, now: u64) -> (r: PlayerProfile)
        ensures
            r@ == staged_profile(default_profile(now), now),
    {
        stage_player_profile(new_player_profile(now), now)
    }

    /// Stage the default statistics record for its first push.
    pub fn create_a_new_player_stats(&self, now: u64) -> (r: PlayerStats)
        ensures
            r@ == staged_stats(default_stats(now), now),
    {
        stage_player_stats(new_player_stats(now), now)
    }

    /// Stage an updated statistics record for a push at `now`.
    pub fn update_a_player_stats(&self, new_stats: PlayerStats, now: u64) -> (r: PlayerStats)
        ensures
            r@ == staged_stats(new_stats@, now),
    {
        stage_player_stats(new_stats, now)
    }

    /// Commit a staged profile with its push outcome: stamp the sync flag,
    /// restore the hash invariant, persist locally.
    pub fn commit_player_profile(&mut self, staged: PlayerProfile, pushed: bool)
        requires
            wf(old(self)@),
        ensures
            wf(final(self)@),
            final(self)@ == (AtRepoSyncV {
                store: LocalStoreV {
                    profile: Some(committed_profile(staged@, pushed)),
                    ..old(self)@.store
                },
                ..old(self)@
            }),
    {
        let settled = settle_player_profile(staged, pushed);
        self.store.put_profile(settled);
    }

    /// Commit a staged statistics record with its push outcome.
    pub fn commit_player_stats(&mut self, staged: PlayerStats, pushed: bool)
        requires
            wf(old(self)@),
        ensures
            wf(final(self)@),
            final(self)@ == (AtRepoSyncV {
                store: LocalStoreV {
                    stats: Some(committed_stats(staged@, pushed)),
                    ..old(self)@.store
                },
                ..old(self)@
            }),
    {
        let settled = settle_player_stats(staged, pushed);
        self.store.put_stats(settled);
    }

    /// Reconcile the profile with the remote copy the caller fetched.
    /// Remote wins on divergence; a missing remote record stages the default
    /// for the caller to push; with no remote capability an absent local
    /// record is materialized as an unsynced snapshot.
    pub fn sync_profiles(&mut self, fetched: RemoteFetch<PlayerProfile>, now: u64) -> (r:
        SyncFollowUp<PlayerProfile>)
        requires
            wf(old(self)@),
            fetched is NoCapability <==> !can_remote(old(self)@),
        ensures
            wf(final(self)@),
            final(self)@.users_did == old(self)@.users_did,
            final(self)@.last_rkey == old(self)@.last_rkey,
            final(self)@.store.stats == old(self)@.store.stats,
            final(self)@.store.games == old(self)@.store.games,
            final(self)@.store.current_game == old(self)@.store.current_game,
            fetched is NoCapability && old(self)@.store.profile is None ==> final(self)@.store.profile
                == Some(committed_profile(staged_profile(default_profile(now), now), false)) && r is Done,
            fetched is NoCapability && old(self)@.store.profile is Some ==> final(self)@.store.profile
                == old(self)@.store.profile && r is Done,
            fetched matches RemoteFetch::Found(rem) ==> r is Done && (
                if old(self)@.store.profile is None || old(self)@.store.profile->Some_0.sync_status.hash
                    != rem@.sync_status.hash {
                    final(self)@.store.profile == Some(rem@)
                } else {
                    final(self)@.store.profile == old(self)@.store.profile
                }),
            fetched is Missing ==> final(self)@.store.profile == old(self)@.store.profile && (
            r matches SyncFollowUp::Push(staged) && staged@ == staged_profile(
                default_profile(now),
                now,
            )),
    {
        match fetched {
            RemoteFetch::NoCapability => {
                if self.store.get_profile().is_none() {
                    let settled = settle_player_profile(
                        stage_player_profile(new_player_profile(now), now),
                        false,
                    );
                    self.store.put_profile(settled);
                }
                SyncFollowUp::Done
            },
            RemoteFetch::Missing => SyncFollowUp::Push(self.create_a_new_player_profile(now)),
            RemoteFetch::Found(rem) => {
                let adopt = match self.store.get_profile() {
                    None => true,
                    Some(l) => !l.sync_status.hash.eq(&rem.sync_status.hash),
                };
                if adopt {
                    self.store.put_profile(rem);
                }
                SyncFollowUp::Done
            },
        }
    }

    /// Reconcile the statistics record with the remote copy the caller
    /// fetched, exactly as for profiles.
    pub fn sync_stats(&mut self, fetched: RemoteFetch<PlayerStats>, now: u64) -> (r: SyncFollowUp<
        PlayerStats,
    >)
        requires
            wf(old(self)@),
            fetched is NoCapability <==> !can_remote(old(self)@),
        ensures
            wf(final(self)@),
            final(self)@.users_did == old(self)@.users_did,
            final(self)@.last_rkey == old(self)@.last_rkey,
            final(self)@.store.profile == old(self)@.store.profile,
            final(self)@.store.games == old(self)@.store.games,
            final(self)@.store.current_game == old(self)@.store.current_game,
            fetched is NoCapability && old(self)@.store.stats is None ==> final(self)@.store.stats
                == Some(committed_stats(staged_stats(default_stats(now), now), false)) && r is Done,
            fetched is NoCapability && old(self)@.store.stats is Some ==> final(self)@.store.stats
                == old(self)@.store.stats && r is Done,
            fetched matches RemoteFetch::Found(rem) ==> r is Done && (
                if old(self)@.store.stats is None || old(self)@.store.stats->Some_0.sync_status.hash
                    != rem@.sync_status.hash {
                    final(self)@.store.stats == Some(rem@)
                } else {
                    final(self)@.store.stats == old(self)@.store.stats
                }),
            fetched is Missing ==> final(self)@.store.stats == old(self)@.store.stats && (
            r matches SyncFollowUp::Push(staged) && staged@ == staged_stats(
                default_stats(now),
                now,
            )),
    {
        match fetched {
            RemoteFetch::NoCapability => {
                if self.store.get_stats().is_none() {
                    let settled = settle_player_stats(
                        stage_player_stats(new_player_stats(now), now),
                        false,
                    );
                    self.store.put_stats(settled);
                }
                SyncFollowUp::Done
            },
            RemoteFetch::Missing => SyncFollowUp::Push(self.create_a_new_player_stats(now)),
            RemoteFetch::Found(rem) => {
                let adopt = match self.store.get_stats() {
                    None => true,
                    Some(l) => !l.sync_status.hash.eq(&rem.sync_status.hash),
                };
                if adopt {
                    self.store.put_stats(rem);
                }
                SyncFollowUp::Done
            },
        }
    }

    /// Stage a freshly minted game record for its push at `now`.
    pub fn create_a_new_game(&self, new_game: GameRecord, now: u64) -> (r: GameRecord)
        ensures
            r@ == staged_game(new_game@, now),
    {
        stage_game_record(new_game, now)
    }

    /// Commit a staged game record with its push outcome: allocate the next
    /// record key, settle the record, and store it under the key, indexed by
    /// the content hash of its seeded recording.
    pub fn commit_new_game(&mut self, staged: GameRecord, index_hash: String, pushed: bool, now: u64)
        -> (key: u64)
        requires
            wf(old(self)@),
            old(self)@.last_rkey < u64::MAX,
        ensures
            wf(final(self)@),
            key == next_rkey(old(self)@.last_rkey, now),
            final(self)@ == (AtRepoSyncV {
                last_rkey: key,
                store: LocalStoreV {
                    games: old(self)@.store.games.push(
                        RecordStorageWrapperV {
                            rkey: key,
                            record: committed_game(staged@, pushed),
                            index_hash: index_hash@,
                        },
                    ),
                    ..old(self)@.store
                },
                ..old(self)@
            }),
    {
        let key = if now > self.last_rkey {
            now
        } else {
            self.last_rkey + 1
        };
        self.last_rkey = key;
        let settled = settle_game_record(staged, pushed);
        self.store.push_game(RecordStorageWrapper { rkey: key, record: settled, index_hash });
        key
    }

    /// Overwrite the single current in-progress game slot with the state
    /// after the latest move: an existing slot keeps its identity and only
    /// takes the new score and recording, an empty slot gets a fresh,
    /// never-synced record.
    pub fn save_current_game(
        &mut self,
        seeded_recording: String,
        score: u64,
        completed: bool,
        won: bool,
        now: u64,
    )
        requires
            wf(old(self)@),
        ensures
            wf(final(self)@),
            final(self)@ == (AtRepoSyncV {
                store: LocalStoreV {
                    current_game: Some(
                        match old(self)@.store.current_game {
                            Some(g) => GameRecordV {
                                current_score: score,
                                seeded_recording: seeded_recording@,
                                ..g
                            },
                            None => GameRecordV {
                                completed,
                                won,
                                created_at: now,
                                current_score: score,
                                seeded_recording: seeded_recording@,
                                sync_status: SyncStatusV {
                                    created_at: now,
                                    updated_at: now,
                                    hash: Seq::empty(),
                                    synced_with_at_repo: false,
                                },
                            },
                        },
                    ),
                    ..old(self)@.store
                },
                ..old(self)@
            }),
    {
        let updated = match self.store.get_current_game() {
            Some(g) => GameRecord {
                completed: g.completed,
                won: g.won,
                created_at: g.created_at,
                current_score: score,
                seeded_recording,
                sync_status: SyncStatus {
                    created_at: g.sync_status.created_at,
                    updated_at: g.sync_status.updated_at,
                    hash: g.sync_status.hash.clone(),
                    synced_with_at_repo: g.sync_status.synced_with_at_repo,
                },
            },
            None => GameRecord {
                completed,
                won,
                created_at: now,
                current_score: score,
                seeded_recording,
                sync_status: SyncStatus {
                    created_at: now,
                    updated_at: now,
                    hash: String::new(),
                    synced_with_at_repo: false,
                },
            },
        };
        self.store.put_current_game(updated);
    }

    /// The stored current in-progress game, if any.
    pub fn load_current_game(&self) -> (r: Option<&GameRecord>)
        ensures
            match r {
                Some(g) => self@.store.current_game == Some(g@),
                None => self@.store.current_game is None,
            },
    {
        self.store.get_current_game()
    }

    /// Clear the current in-progress game slot: a new game starts.
    pub fn clear_current_game(&mut self)
        requires
            wf(old(self)@),
        ensures
            wf(final(self)@),
            final(self)@ == (AtRepoSyncV {
                store: LocalStoreV { current_game: None, ..old(self)@.store },
                ..old(self)@
            }),
    {
        self.store.clear_current_game();
    }

    /// The whole game-completion flow for the anonymous, local-only mode:
    /// parse and reconstruct the recording, answer `AlreadySynced` if this
    /// exact recording was already recorded, otherwise materialize
    /// statistics if absent, replay the game into them, and persist the
    /// updated statistics and the new game record.
    pub fn handle_game_completed(&mut self, game_history: String, now: u64) -> (r: StorageResponse)
        requires
            wf(old(self)@),
            !can_remote(old(self)@),
            old(self)@.last_rkey < u64::MAX,
        ensures
            wf(final(self)@),
            final(self)@ == handle_game_completed_spec(old(self)@, game_history@, now).0,
            r == handle_game_completed_spec(old(self)@, game_history@, now).1,
            r == StorageResponse::Error(CompletionError::ParseError) <==> !recording_parses(
                game_history@,
            ),
            r == StorageResponse::Error(CompletionError::ReconstructionError) <==> (
            recording_parses(game_history@) && (final_state_of(game_history@) is None || history_of(
                game_history@,
            ) is None)),
            r == StorageResponse::AlreadySynced <==> (recording_parses(game_history@)
                && final_state_of(game_history@) is Some && history_of(game_history@) is Some
                && find_game_by_index_hash(
                old(self)@.store.games,
                index_hash_spec(game_history@),
            ) is Some),
            r == StorageResponse::Success <==> (recording_parses(game_history@) && final_state_of(
                game_history@,
            ) is Some && history_of(game_history@) is Some && find_game_by_index_hash(
                old(self)@.store.games,
                index_hash_spec(game_history@),
            ) is None),
            r != StorageResponse::Success ==> final(self)@ == old(self)@,
    {
        let parsed = match parse_recording(&game_history) {
            Some(p) => p,
            None => {
                return StorageResponse::Error(CompletionError::ParseError);
            },
        };
        let fin = match reconstruct_final_state(&parsed) {
            Some(f) => f,
            None => {
                return StorageResponse::Error(CompletionError::ReconstructionError);
            },
        };
        let history = match reconstruct_history(&parsed) {
            Some(h) => h,
            None => {
                return StorageResponse::Error(CompletionError::ReconstructionError);
            },
        };
        let idx_hash = content_hash(game_history.as_str());
        if self.store.get_game_by_index_hash(&idx_hash).is_some() {
            return StorageResponse::AlreadySynced;
        }
        let score: u64 = fin.score as u64;
        let board_pk: usize = board_peak_value(&fin.board);
        let summary = scan_history(&history);
        let peak: u64 = if (board_pk as u64) > (summary.highest_block as u64) {
            board_pk as u64
        } else {
            summary.highest_block as u64
        };
        let new_stats = match self.store.get_stats() {
            Some(st) => apply_completed_game(
                st,
                score,
                peak,
                summary.times_found as u64,
                summary.first_turn as u64,
            ),
            None => {
                let settled = settle_player_stats(
                    stage_player_stats(new_player_stats(now), now),
                    false,
                );
                apply_completed_game(
                    &settled,
                    score,
                    peak,
                    summary.times_found as u64,
                    summary.first_turn as u64,
                )
            },
        };
        let settled_stats = settle_player_stats(stage_player_stats(new_stats, now), false);
        self.store.put_stats(settled_stats);
        let record = GameRecord {
            completed: fin.over,
            won: fin.won,
            created_at: now,
            current_score: score,
            seeded_recording: game_history,
            sync_status: SyncStatus {
                created_at: now,
                updated_at: now,
                hash: String::new(),
                synced_with_at_repo: true,
            },
        };
        let staged_record = stage_game_record(record, now);
        let settled_record = settle_game_record(staged_record, false);
        let key = if now > self.last_rkey {
            now
        } else {
            self.last_rkey + 1
        };
        self.last_rkey = key;
        self.store.push_game(
            RecordStorageWrapper { rkey: key, record: settled_record, index_hash: idx_hash },
        );
        StorageResponse::Success
    }
}

} // verus!
