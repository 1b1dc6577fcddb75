//! The library's stated laws: idempotence of the completion flow, hash
//! determinism, monotonicity of the aggregate counters, the average
//! invariant, and first-occurrence counting, each proved over the spec-level
//! models that the executable functions are verified against.

use vstd::prelude::*;

use crate::hashing::content_hash_spec;
use crate::records::GameRecordV;
use crate::records::PlayerProfileV;
use crate::records::PlayerStatsV;
use crate::records::RecordStorageWrapperV;
use crate::records::committed_game;
use crate::records::committed_profile;
use crate::records::committed_stats;
use crate::records::game_hash_ok;
use crate::records::profile_hash_ok;
use crate::records::staged_game;
use crate::records::staged_profile;
use crate::records::staged_stats;
use crate::records::stats_hash_ok;
use crate::replay::applied_stats;
use crate::replay::average_ok;
use crate::replay::history_2048_ids;
use crate::store::find_game_by_index_hash;
use crate::sync::AtRepoSyncV;
use crate::sync::StorageResponse;
use crate::sync::handle_game_completed_spec;

verus! {

/// Hash determinism: the content hash is a function of the canonical
/// payload alone, so identical payloads always carry identical digests.
/// (That different payloads carry different digests is not a theorem — a
/// 64-bit digest has collisions — and is exercised by tests instead.)
pub proof fn lemma_hash_deterministic(a: Seq<char>, b: Seq<char>)
    requires
        a == b,
    ensures
        content_hash_spec(a) == content_hash_spec(b),
{
}

/// The sync-status invariant: whatever the push outcome, a record that goes
/// through staging and committing carries the content hash of its payload
/// exactly as stored — the hash is computed after the sync flag is
/// finalized for that revision.
pub proof fn lemma_commit_restores_profile_hash(v: PlayerProfileV, now: u64, pushed: bool)
    ensures
        profile_hash_ok(committed_profile(staged_profile(v, now), pushed)),
{
}

pub proof fn lemma_commit_restores_stats_hash(v: PlayerStatsV, now: u64, pushed: bool)
    ensures
        stats_hash_ok(committed_stats(staged_stats(v, now), pushed)),
{
}

pub proof fn lemma_commit_restores_game_hash(v: GameRecordV, now: u64, pushed: bool)
    ensures
        game_hash_ok(committed_game(staged_game(v, now), pushed)),
{
}

proof fn lemma_find_after_push(
    games: Seq<RecordStorageWrapperV>,
    w: RecordStorageWrapperV,
    h: Seq<char>,
)
    ensures
        find_game_by_index_hash(games.push(w), h) == (
        if find_game_by_index_hash(games, h) is Some {
            find_game_by_index_hash(games, h)
        } else if w.index_hash == h {
            Some(w)
        } else {
            None
        }),
    decreases games.len(),
{
    if games.len() == 0 {
        assert(games.push(w)[0] == w);
        assert(games.push(w).drop_first() =~= Seq::<RecordStorageWrapperV>::empty());
    } else {
        assert(games.push(w)[0] == games[0]);
        assert(games.push(w).drop_first() =~= games.drop_first().push(w));
        lemma_find_after_push(games.drop_first(), w, h);
    }
}

/// Idempotence: when a submission of a seeded recording fully succeeded, a
/// second submission of the same recording answers `AlreadySynced` and
/// changes nothing — no stats recount, no new game record.
pub proof fn lemma_completion_idempotent(e: AtRepoSyncV, s: Seq<char>, now1: u64, now2: u64)
    requires
        handle_game_completed_spec(e, s, now1).1 == StorageResponse::Success,
    ensures
        handle_game_completed_spec(handle_game_completed_spec(e, s, now1).0, s, now2).0
            == handle_game_completed_spec(e, s, now1).0,
        handle_game_completed_spec(handle_game_completed_spec(e, s, now1).0, s, now2).1
            == StorageResponse::AlreadySynced,
{
    let e1 = handle_game_completed_spec(e, s, now1).0;
    let w = e1.store.games.last();
    assert(e1.store.games == e.store.games.push(w));
    lemma_find_after_push(e.store.games, w, content_hash_spec(s));
    assert(find_game_by_index_hash(e1.store.games, content_hash_spec(s)) is Some);
}

/// The counters the monotonic-aggregates law speaks of.
pub open spec fn stats_counters_le(a: PlayerStatsV, b: PlayerStatsV) -> bool {
    &&& a.games_played <= b.games_played
    &&& a.highest_score <= b.highest_score
    &&& a.highest_number_block <= b.highest_number_block
}

/// One completed-game sync never decreases `games_played`, `highest_score`
/// or `highest_number_block`, and never loses the statistics record.
pub proof fn lemma_completion_step_monotonic(e: AtRepoSyncV, s: Seq<char>, now: u64)
    ensures
        e.store.stats matches Some(s0) ==> (handle_game_completed_spec(
            e,
            s,
            now,
        ).0.store.stats matches Some(s1) && stats_counters_le(s0, s1)),
{
}

/// A sequence of completed-game syncs, each at its own time.
pub open spec fn run_completions(e: AtRepoSyncV, inputs: Seq<(Seq<char>, u64)>) -> AtRepoSyncV
    decreases inputs.len(),
{
    if inputs.len() == 0 {
        e
    } else {
        run_completions(
            handle_game_completed_spec(e, inputs[0].0, inputs[0].1).0,
            inputs.drop_first(),
        )
    }
}

/// Monotonic aggregates: across any sequence of completed-game syncs,
/// `games_played`, `highest_score` and `highest_number_block` are
/// non-decreasing.
pub proof fn lemma_monotonic_aggregates(e: AtRepoSyncV, inputs: Seq<(Seq<char>, u64)>)
    ensures
        e.store.stats matches Some(s0) ==> (run_completions(
            e,
            inputs,
        ).store.stats matches Some(s1) && stats_counters_le(s0, s1)),
    decreases inputs.len(),
{
    if inputs.len() == 0 {
    } else {
        let e1 = handle_game_completed_spec(e, inputs[0].0, inputs[0].1).0;
        lemma_completion_step_monotonic(e, inputs[0].0, inputs[0].1);
        lemma_monotonic_aggregates(e1, inputs.drop_first());
    }
}

/// The average invariant: every statistics record a completed-game sync
/// stores satisfies `average_score == total_score / games_played` with
/// integer truncation.
pub proof fn lemma_completion_average(e: AtRepoSyncV, s: Seq<char>, now: u64)
    ensures
        handle_game_completed_spec(e, s, now).1 == StorageResponse::Success ==> (
        handle_game_completed_spec(e, s, now).0.store.stats matches Some(st) && average_ok(st)),
{
}

/// First-occurrence counting, over one game's replayed history `h`:
/// the 2048 counter grows by exactly the number of distinct tile identities
/// that reached 2048 in this game (a tile that persists or re-merges is not
/// recounted), and the least-moves record changes only to the game's first
/// 2048 move, and only when the stored record was unset (0) or strictly
/// larger.
pub proof fn lemma_first_occurrence_counting(
    s0: PlayerStatsV,
    score: u64,
    peak: u64,
    h: Seq<Seq<Seq<crate::rules_engine::ReplayCell>>>,
    first: u64,
)
    requires
        s0.times_twenty_forty_eight_been_found + history_2048_ids(h).len() <= u64::MAX,
    ensures
        applied_stats(
            s0,
            score,
            peak,
            history_2048_ids(h).len() as u64,
            first,
        ).times_twenty_forty_eight_been_found == s0.times_twenty_forty_eight_been_found
            + history_2048_ids(h).len(),
        applied_stats(s0, score, peak, history_2048_ids(h).len() as u64, first)
            .least_moves_to_find_twenty_forty_eight != s0.least_moves_to_find_twenty_forty_eight
            ==> (first != 0 && (s0.least_moves_to_find_twenty_forty_eight == 0 || first
            < s0.least_moves_to_find_twenty_forty_eight) && applied_stats(
            s0,
            score,
            peak,
            history_2048_ids(h).len() as u64,
            first,
        ).least_moves_to_find_twenty_forty_eight == first),
{
}

} // verus!
