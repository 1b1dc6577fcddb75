//! The three synced record kinds (player profile, player statistics,
//! completed game) and their shared sync metadata, together with each
//! record's canonical textual payload and the two-phase hash stamping that
//! keeps the stored hash in line with the stored payload.
//!
//! A record's hash always reflects its payload as currently stored, computed
//! after `synced_with_at_repo` is finalized for that revision; the hash field
//! itself is excluded from the hashed payload. A push to the remote
//! repository is optimistic: the candidate is stamped as synced and hashed
//! before the push, and only a failed push forces the flag down and the hash
//! to be recomputed.

use vstd::prelude::*;

use crate::hashing::content_hash;
use crate::hashing::content_hash_spec;
use crate::text::dec_digits;
use crate::text::u64_to_dec;

verus! {

/// Per-record sync metadata: timestamps, the content hash of the payload as
/// stored, and whether the last known push/pull to the remote repository
/// succeeded.
#[derive(Debug, Clone, PartialEq, Eq)]
pub struct SyncStatus {
    pub created_at: u64,
    pub updated_at: u64,
    pub hash: String,
    pub synced_with_at_repo: bool,
}

pub ghost struct SyncStatusV {
    pub created_at: u64,
    pub updated_at: u64,
    pub hash: Seq<char>,
    pub synced_with_at_repo: bool,
}

impl View for SyncStatus {
    type V = SyncStatusV;

    open spec fn view(&self) -> SyncStatusV {
        SyncStatusV {
            created_at: self.created_at,
            updated_at: self.updated_at,
            hash: self.hash@,
            synced_with_at_repo: self.synced_with_at_repo,
        }
    }
}

/// One player profile per identity, stored under a fixed key.
#[derive(Debug, Clone, PartialEq, Eq)]
pub struct PlayerProfile {
    pub created_at: u64,
    pub solo_play: bool,
    pub sync_status: SyncStatus,
}

pub ghost struct PlayerProfileV {
    pub created_at: u64,
    pub solo_play: bool,
    pub sync_status: SyncStatusV,
}

impl View for PlayerProfile {
    type V = PlayerProfileV;

    open spec fn view(&self) -> PlayerProfileV {
        PlayerProfileV {
            created_at: self.created_at,
            solo_play: self.solo_play,
            sync_status: self.sync_status@,
        }
    }
}

/// Aggregate statistics over all completed games of one identity, stored
/// under a fixed key.
#[derive(Debug, Clone, PartialEq, Eq)]
pub struct PlayerStats {
    pub created_at: u64,
    pub games_played: u64,
    pub total_score: u64,
    pub average_score: u64,
    pub highest_score: u64,
    pub highest_number_block: u64,
    pub times_twenty_forty_eight_been_found: u64,
    pub least_moves_to_find_twenty_forty_eight: u64,
    pub sync_status: SyncStatus,
}

pub ghost struct PlayerStatsV {
    pub created_at: u64,
    pub games_played: u64,
    pub total_score: u64,
    pub average_score: u64,
    pub highest_score: u64,
    pub highest_number_block: u64,
    pub times_twenty_forty_eight_been_found: u64,
    pub least_moves_to_find_twenty_forty_eight: u64,
    pub sync_status: SyncStatusV,
}

impl View for PlayerStats {
    type V = PlayerStatsV;

    open spec fn view(&self) -> PlayerStatsV {
        PlayerStatsV {
            created_at: self.created_at,
            games_played: self.games_played,
            total_score: self.total_score,
            average_score: self.average_score,
            highest_score: self.highest_score,
            highest_number_block: self.highest_number_block,
            times_twenty_forty_eight_been_found: self.times_twenty_forty_eight_been_found,
            least_moves_to_find_twenty_forty_eight: self.least_moves_to_find_twenty_forty_eight,
            sync_status: self.sync_status@,
        }
    }
}

/// One completed (or in-progress) game, created once per distinct seeded
/// recording.
#[derive(Debug, Clone, PartialEq, Eq)]
pub struct GameRecord {
    pub completed: bool,
    pub won: bool,
    pub created_at: u64,
    pub current_score: u64,
    pub seeded_recording: String,
    pub sync_status: SyncStatus,
}

pub ghost struct GameRecordV {
    pub completed: bool,
    pub won: bool,
    pub created_at: u64,
    pub current_score: u64,
    pub seeded_recording: Seq<char>,
    pub sync_status: SyncStatusV,
}

impl View for GameRecord {
    type V = GameRecordV;

    open spec fn view(&self) -> GameRecordV {
        GameRecordV {
            completed: self.completed,
            won: self.won,
            created_at: self.created_at,
            current_score: self.current_score,
            seeded_recording: self.seeded_recording@,
            sync_status: self.sync_status@,
        }
    }
}

/// A stored game record together with its record key and the content hash of
/// its seeded recording, the latter serving as a secondary lookup key for
/// deduplication.
#[derive(Debug, Clone, PartialEq, Eq)]
pub struct RecordStorageWrapper {
    pub rkey: u64,
    pub record: GameRecord,
    pub index_hash: String,
}

pub ghost struct RecordStorageWrapperV {
    pub rkey: u64,
    pub record: GameRecordV,
    pub index_hash: Seq<char>,
}

impl View for RecordStorageWrapper {
    type V = RecordStorageWrapperV;

    open spec fn view(&self) -> RecordStorageWrapperV {
        RecordStorageWrapperV {
            rkey: self.rkey,
            record: self.record@,
            index_hash: self.index_hash@,
        }
    }
}

// ---------------------------------------------------------------------------
// Canonical payloads
// ---------------------------------------------------------------------------

/// A boolean field in a canonical payload: `'1'` or `'0'`.
pub open spec fn bool_mark(b: bool) -> Seq<char> {
    if b {
        seq!['1']
    } else {
        seq!['0']
    }
}

/// The sync-metadata part of every canonical payload. The hash field is
/// excluded: the hash is computed over the rest of the record.
pub open spec fn sync_status_payload(s: SyncStatusV) -> Seq<char> {
    dec_digits(s.created_at) + "|"@ + dec_digits(s.updated_at) + "|"@ + bool_mark(
        s.synced_with_at_repo,
    )
}

/// The canonical payload of a player profile.
pub open spec fn profile_payload(p: PlayerProfileV) -> Seq<char> {
    "profile|"@ + dec_digits(p.created_at) + "|"@ + bool_mark(p.solo_play) + "|"@
        + sync_status_payload(p.sync_status)
}

/// The canonical payload of a player-statistics record.
pub open spec fn stats_payload(s: PlayerStatsV) -> Seq<char> {
    "stats|"@ + dec_digits(s.created_at) + "|"@ + dec_digits(s.games_played) + "|"@ + dec_digits(
        s.total_score,
    ) + "|"@ + dec_digits(s.average_score) + "|"@ + dec_digits(s.highest_score) + "|"@
        + dec_digits(s.highest_number_block) + "|"@ + dec_digits(
        s.times_twenty_forty_eight_been_found,
    ) + "|"@ + dec_digits(s.least_moves_to_find_twenty_forty_eight) + "|"@ + sync_status_payload(
        s.sync_status,
    )
}

/// The canonical payload of a game record.
pub open spec fn game_payload(g: GameRecordV) -> Seq<char> {
    "game|"@ + bool_mark(g.completed) + "|"@ + bool_mark(g.won) + "|"@ + dec_digits(g.created_at)
        + "|"@ + dec_digits(g.current_score) + "|"@ + g.seeded_recording + "|"@
        + sync_status_payload(g.sync_status)
}

/// The content hash a profile must carry to satisfy the hash invariant.
pub open spec fn profile_hash(p: PlayerProfileV) -> Seq<char> {
    content_hash_spec(profile_payload(p))
}

/// The content hash a statistics record must carry to satisfy the hash
/// invariant.
pub open spec fn stats_hash(s: PlayerStatsV) -> Seq<char> {
    content_hash_spec(stats_payload(s))
}

/// The content hash a game record must carry to satisfy the hash invariant.
pub open spec fn game_hash(g: GameRecordV) -> Seq<char> {
    content_hash_spec(game_payload(g))
}

/// The hash invariant: the stored hash reflects the payload as stored.
pub open spec fn profile_hash_ok(p: PlayerProfileV) -> bool {
    p.sync_status.hash == profile_hash(p)
}

pub open spec fn stats_hash_ok(s: PlayerStatsV) -> bool {
    s.sync_status.hash == stats_hash(s)
}

pub open spec fn game_hash_ok(g: GameRecordV) -> bool {
    g.sync_status.hash == game_hash(g)
}

fn bool_str(b: bool) -> (r: &'static str)
    ensures
        r@ == bool_mark(b),
{
    proof {
        reveal_strlit("1");
        reveal_strlit("0");
    }
    if b {
        "1"
    } else {
        "0"
    }
}

/// Build the sync-metadata part of a canonical payload.
fn sync_status_payload_string(s: &SyncStatus) -> (r: String)
    ensures
        r@ == sync_status_payload(s@),
{
    proof {
        reveal_strlit("|");
    }
    let mut out = u64_to_dec(s.created_at);
    out.append("|");
    let updated = u64_to_dec(s.updated_at);
    out.append(updated.as_str());
    out.append("|");
    out.append(bool_str(s.synced_with_at_repo));
    out
}

/// Build the canonical payload of a player profile.
pub fn profile_payload_string(p: &PlayerProfile) -> (r: String)
    ensures
        r@ == profile_payload(p@),
{
    proof {
        reveal_strlit("profile|");
        reveal_strlit("|");
    }
    let mut out: String = ("profile|").to_owned();
    let created = u64_to_dec(p.created_at);
    out.append(created.as_str());
    out.append("|");
    out.append(bool_str(p.solo_play));
    out.append("|");
    let status = sync_status_payload_string(&p.sync_status);
    out.append(status.as_str());
    out
}

/// Build the canonical payload of a player-statistics record.
pub fn stats_payload_string(s: &PlayerStats) -> (r: String)
    ensures
        r@ == stats_payload(s@),
{
    proof {
        reveal_strlit("stats|");
        reveal_strlit("|");
    }
    let mut out: String = ("stats|").to_owned();
    let f0 = u64_to_dec(s.created_at);
    out.append(f0.as_str());
    out.append("|");
    let f1 = u64_to_dec(s.games_played);
    out.append(f1.as_str());
    out.append("|");
    let f2 = u64_to_dec(s.total_score);
    out.append(f2.as_str());
    out.append("|");
    let f3 = u64_to_dec(s.average_score);
    out.append(f3.as_str());
    out.append("|");
    let f4 = u64_to_dec(s.highest_score);
    out.append(f4.as_str());
    out.append("|");
    let f5 = u64_to_dec(s.highest_number_block);
    out.append(f5.as_str());
    out.append("|");
    let f6 = u64_to_dec(s.times_twenty_forty_eight_been_found);
    out.append(f6.as_str());
    out.append("|");
    let f7 = u64_to_dec(s.least_moves_to_find_twenty_forty_eight);
    out.append(f7.as_str());
    out.append("|");
    let status = sync_status_payload_string(&s.sync_status);
    out.append(status.as_str());
    out
}

/// Build the canonical payload of a game record.
pub fn game_payload_string(g: &GameRecord) -> (r: String)
    ensures
        r@ == game_payload(g@),
{
    proof {
        reveal_strlit("game|");
        reveal_strlit("|");
    }
    let mut out: String = ("game|").to_owned();
    out.append(bool_str(g.completed));
    out.append("|");
    out.append(bool_str(g.won));
    out.append("|");
    let created = u64_to_dec(g.created_at);
    out.append(created.as_str());
    out.append("|");
    let score = u64_to_dec(g.current_score);
    out.append(score.as_str());
    out.append("|");
    out.append(g.seeded_recording.as_str());
    out.append("|");
    let status = sync_status_payload_string(&g.sync_status);
    out.append(status.as_str());
    out
}

// ---------------------------------------------------------------------------
// Defaults and two-phase hash stamping
// ---------------------------------------------------------------------------

/// The default player profile materialized on first sync, before staging.
pub open spec fn default_profile(now: u64) -> PlayerProfileV {
    PlayerProfileV {
        created_at: now,
        solo_play: false,
        sync_status: SyncStatusV {
            created_at: now,
            updated_at: now,
            hash: Seq::empty(),
            synced_with_at_repo: true,
        },
    }
}

/// The default statistics record materialized on first sync, before staging:
/// every counter at zero.
pub open spec fn default_stats(now: u64) -> PlayerStatsV {
    PlayerStatsV {
        created_at: now,
        games_played: 0,
        total_score: 0,
        average_score: 0,
        highest_score: 0,
        highest_number_block: 0,
        times_twenty_forty_eight_been_found: 0,
        least_moves_to_find_twenty_forty_eight: 0,
        sync_status: SyncStatusV {
            created_at: now,
            updated_at: now,
            hash: Seq::empty(),
            synced_with_at_repo: true,
        },
    }
}

/// A profile staged for a push: touched at `now`, optimistically marked
/// synced, and hashed over that candidate payload.
pub open spec fn staged_profile(p: PlayerProfileV, now: u64) -> PlayerProfileV {
    let opt = PlayerProfileV {
        created_at: p.created_at,
        solo_play: p.solo_play,
        sync_status: SyncStatusV {
            created_at: p.sync_status.created_at,
            updated_at: now,
            hash: p.sync_status.hash,
            synced_with_at_repo: true,
        },
    };
    PlayerProfileV {
        created_at: opt.created_at,
        solo_play: opt.solo_play,
        sync_status: SyncStatusV {
            created_at: opt.sync_status.created_at,
            updated_at: opt.sync_status.updated_at,
            hash: profile_hash(opt),
            synced_with_at_repo: true,
        },
    }
}

/// A staged profile after its push was attempted: a successful push leaves
/// it as staged; a failed (or never attempted) push forces the sync flag
/// down and recomputes the hash over the final, unsynced payload.
pub open spec fn committed_profile(staged: PlayerProfileV, pushed: bool) -> PlayerProfileV {
    if pushed {
        staged
    } else {
        let unsynced = PlayerProfileV {
            created_at: staged.created_at,
            solo_play: staged.solo_play,
            sync_status: SyncStatusV {
                created_at: staged.sync_status.created_at,
                updated_at: staged.sync_status.updated_at,
                hash: staged.sync_status.hash,
                synced_with_at_repo: false,
            },
        };
        PlayerProfileV {
            created_at: unsynced.created_at,
            solo_play: unsynced.solo_play,
            sync_status: SyncStatusV {
                created_at: unsynced.sync_status.created_at,
                updated_at: unsynced.sync_status.updated_at,
                hash: profile_hash(unsynced),
                synced_with_at_repo: false,
            },
        }
    }
}

/// A statistics record staged for a push, as for profiles.
pub open spec fn staged_stats(s: PlayerStatsV, now: u64) -> PlayerStatsV {
    let opt = PlayerStatsV {
        sync_status: SyncStatusV {
            created_at: s.sync_status.created_at,
            updated_at: now,
            hash: s.sync_status.hash,
            synced_with_at_repo: true,
        },
        ..s
    };
    PlayerStatsV {
        sync_status: SyncStatusV { hash: stats_hash(opt), ..opt.sync_status },
        ..opt
    }
}

/// A staged statistics record after its push was attempted, as for profiles.
pub open spec fn committed_stats(staged: PlayerStatsV, pushed: bool) -> PlayerStatsV {
    if pushed {
        staged
    } else {
        let unsynced = PlayerStatsV {
            sync_status: SyncStatusV { synced_with_at_repo: false, ..staged.sync_status },
            ..staged
        };
        PlayerStatsV {
            sync_status: SyncStatusV { hash: stats_hash(unsynced), ..unsynced.sync_status },
            ..unsynced
        }
    }
}

/// A game record staged for a push, as for profiles.
pub open spec fn staged_game(g: GameRecordV, now: u64) -> GameRecordV {
    let opt = GameRecordV {
        sync_status: SyncStatusV {
            created_at: g.sync_status.created_at,
            updated_at: now,
            hash: g.sync_status.hash,
            synced_with_at_repo: true,
        },
        ..g
    };
    GameRecordV {
        sync_status: SyncStatusV { hash: game_hash(opt), ..opt.sync_status },
        ..opt
    }
}

/// A staged game record after its push was attempted, as for profiles.
pub open spec fn committed_game(staged: GameRecordV, pushed: bool) -> GameRecordV {
    if pushed {
        staged
    } else {
        let unsynced = GameRecordV {
            sync_status: SyncStatusV { synced_with_at_repo: false, ..staged.sync_status },
            ..staged
        };
        GameRecordV {
            sync_status: SyncStatusV { hash: game_hash(unsynced), ..unsynced.sync_status },
            ..unsynced
        }
    }
}

/// Materialize the default profile, unstaged.
pub fn new_player_profile(now: u64) -> (r: PlayerProfile)
    ensures
        r@ == default_profile(now),
{
    PlayerProfile {
        created_at: now,
        solo_play: false,
        sync_status: SyncStatus {
            created_at: now,
            updated_at: now,
            hash: String::new(),
            synced_with_at_repo: true,
        },
    }
}

/// Materialize the default statistics record, unstaged.
pub fn new_player_stats(now: u64) -> (r: PlayerStats)
    ensures
        r@ == default_stats(now),
{
    PlayerStats {
        created_at: now,
        games_played: 0,
        total_score: 0,
        average_score: 0,
        highest_score: 0,
        highest_number_block: 0,
        times_twenty_forty_eight_been_found: 0,
        least_moves_to_find_twenty_forty_eight: 0,
        sync_status: SyncStatus {
            created_at: now,
            updated_at: now,
            hash: String::new(),
            synced_with_at_repo: true,
        },
    }
}

/// Stage a profile for a push attempt.
pub fn stage_player_profile(p: PlayerProfile, now: u64) -> (r: PlayerProfile)
    ensures
        r@ == staged_profile(p@, now),
{
    let mut s = p;
    s.sync_status.updated_at = now;
    s.sync_status.synced_with_at_repo = true;
    let payload = profile_payload_string(&s);
    s.sync_status.hash = content_hash(payload.as_str());
    s
}

/// Commit a staged profile with the outcome of its push attempt.
pub fn settle_player_profile(staged: PlayerProfile, pushed: bool) -> (r: PlayerProfile)
    ensures
        r@ == committed_profile(staged@, pushed),
{
    if pushed {
        staged
    } else {
        let mut s = staged;
        s.sync_status.synced_with_at_repo = false;
        let payload = profile_payload_string(&s);
        s.sync_status.hash = content_hash(payload.as_str());
        s
    }
}

/// Stage a statistics record for a push attempt.
pub fn stage_player_stats(stats: PlayerStats, now: u64) -> (r: PlayerStats)
    ensures
        r@ == staged_stats(stats@, now),
{
    let mut s = stats;
    s.sync_status.updated_at = now;
    s.sync_status.synced_with_at_repo = true;
    let payload = stats_payload_string(&s);
    s.sync_status.hash = content_hash(payload.as_str());
    s
}

/// Commit a staged statistics record with the outcome of its push attempt.
pub fn settle_player_stats(staged: PlayerStats, pushed: bool) -> (r: PlayerStats)
    ensures
        r@ == committed_stats(staged@, pushed),
{
    if pushed {
        staged
    } else {
        let mut s = staged;
        s.sync_status.synced_with_at_repo = false;
        let payload = stats_payload_string(&s);
        s.sync_status.hash = content_hash(payload.as_str());
        s
    }
}

/// Stage a game record for a push attempt.
pub fn stage_game_record(g: GameRecord, now: u64) -> (r: GameRecord)
    ensures
        r@ == staged_game(g@, now),
{
    let mut s = g;
    s.sync_status.updated_at = now;
    s.sync_status.synced_with_at_repo = true;
    let payload = game_payload_string(&s);
    s.sync_status.hash = content_hash(payload.as_str());
    s
}

/// Commit a staged game record with the outcome of its push attempt.
pub fn settle_game_record(staged: GameRecord, pushed: bool) -> (r: GameRecord)
    ensures
        r@ == committed_game(staged@, pushed),
{
    if pushed {
        staged
    } else {
        let mut s = staged;
        s.sync_status.synced_with_at_repo = false;
        let payload = game_payload_string(&s);
        s.sync_status.hash = content_hash(payload.as_str());
        s
    }
}

} // verus!
