//! The stats aggregator: replay a reconstructed game's move-by-move board
//! history into the per-game summary that feeds the aggregate player
//! statistics. The replay tracks, across all intermediate boards, the peak
//! tile value (a tile can be merged away after peaking), the set of distinct
//! tile identities that reached 2048 (a tile that persists or re-merges
//! across turns is counted once), and the first move on which a 2048 tile
//! appeared.

use vstd::prelude::*;

use crate::records::PlayerStats;
use crate::records::PlayerStatsV;
use crate::records::SyncStatus;
use crate::rules_engine::ReplayCell;
use crate::rules_engine::board_view;
use crate::rules_engine::history_view;

verus! {

pub open spec fn max_usize(a: usize, b: usize) -> usize {
    if a > b {
        a
    } else {
        b
    }
}

pub open spec fn max_u64(a: u64, b: u64) -> u64 {
    if a > b {
        a
    } else {
        b
    }
}

/// `u64` addition that stops at the largest representable value.
pub open spec fn sat_add(a: u64, b: u64) -> u64 {
    if a + b <= u64::MAX {
        (a + b) as u64
    } else {
        u64::MAX
    }
}

pub open spec fn cell_value(c: ReplayCell) -> usize {
    match c {
        Some(t) => t.0,
        None => 0,
    }
}

pub open spec fn cell_is_2048(c: ReplayCell) -> bool {
    match c {
        Some(t) => t.0 == 2048,
        None => false,
    }
}

/// The tile identities in this cell that carry the value 2048.
pub open spec fn cell_2048_ids(c: ReplayCell) -> Set<usize> {
    match c {
        Some(t) => if t.0 == 2048 {
            Set::empty().insert(t.1)
        } else {
            Set::empty()
        },
        None => Set::empty(),
    }
}

pub open spec fn row_peak(row: Seq<ReplayCell>) -> usize
    decreases row.len(),
{
    if row.len() == 0 {
        0
    } else {
        max_usize(cell_value(row[0]), row_peak(row.drop_first()))
    }
}

pub open spec fn board_peak(b: Seq<Seq<ReplayCell>>) -> usize
    decreases b.len(),
{
    if b.len() == 0 {
        0
    } else {
        max_usize(row_peak(b[0]), board_peak(b.drop_first()))
    }
}

pub open spec fn history_peak(h: Seq<Seq<Seq<ReplayCell>>>) -> usize
    decreases h.len(),
{
    if h.len() == 0 {
        0
    } else {
        max_usize(board_peak(h[0]), history_peak(h.drop_first()))
    }
}

pub open spec fn row_2048_ids(row: Seq<ReplayCell>) -> Set<usize>
    decreases row.len(),
{
    if row.len() == 0 {
        Set::empty()
    } else {
        cell_2048_ids(row[0]).union(row_2048_ids(row.drop_first()))
    }
}

pub open spec fn board_2048_ids(b: Seq<Seq<ReplayCell>>) -> Set<usize>
    decreases b.len(),
{
    if b.len() == 0 {
        Set::empty()
    } else {
        row_2048_ids(b[0]).union(board_2048_ids(b.drop_first()))
    }
}

/// Every tile identity that carries the value 2048 on some board of the
/// history.
pub open spec fn history_2048_ids(h: Seq<Seq<Seq<ReplayCell>>>) -> Set<usize>
    decreases h.len(),
{
    if h.len() == 0 {
        Set::empty()
    } else {
        board_2048_ids(h[0]).union(history_2048_ids(h.drop_first()))
    }
}

pub open spec fn row_has_2048(row: Seq<ReplayCell>) -> bool
    decreases row.len(),
{
    if row.len() == 0 {
        false
    } else {
        cell_is_2048(row[0]) || row_has_2048(row.drop_first())
    }
}

pub open spec fn board_has_2048(b: Seq<Seq<ReplayCell>>) -> bool
    decreases b.len(),
{
    if b.len() == 0 {
        false
    } else {
        row_has_2048(b[0]) || board_has_2048(b.drop_first())
    }
}

/// The 1-based index of the first board on which a 2048 tile stands, or 0
/// if none does. The initial board counts as index 1, matching a move count
/// that includes the opening position.
pub open spec fn first_2048_turn(h: Seq<Seq<Seq<ReplayCell>>>) -> int
    decreases h.len(),
{
    if h.len() == 0 {
        0int
    } else if board_has_2048(h[0]) {
        1int
    } else {
        let rest = first_2048_turn(h.drop_first());
        if rest == 0 {
            0int
        } else {
            1 + rest
        }
    }
}

pub proof fn lemma_first_turn_nonneg(h: Seq<Seq<Seq<ReplayCell>>>)
    ensures
        first_2048_turn(h) >= 0,
    decreases h.len(),
{
    if h.len() == 0 {
    } else if board_has_2048(h[0]) {
    } else {
        lemma_first_turn_nonneg(h.drop_first());
    }
}

/// What one game's replay contributes to the aggregate statistics.
pub struct ReplaySummary {
    /// The peak tile value across all boards of the history.
    pub highest_block: usize,
    /// How many distinct tile identities reached 2048.
    pub times_found: usize,
    /// The 1-based index of the first board with a 2048 tile, 0 if none.
    pub first_turn: usize,
}

fn vec_contains(v: &Vec<usize>, x: usize) -> (r: bool)
    ensures
        r == v@.contains(x),
{
    let n = v.len();
    for i in 0..n
        invariant
            n == v.len(),
            forall|j: int| 0 <= j < i ==> v@[j] != x,
    {
        if v[i] == x {
            proof {
                assert(v@.contains(x)) by {
                    assert(v@[i as int] == x);
                }
            }
            return true;
        }
    }
    false
}

/// Scan one row: fold its peak value into `peak`, its unseen 2048 tile
/// identities into `seen`, and report whether it holds a 2048 tile.
fn scan_row(row: &Vec<ReplayCell>, peak: &mut usize, seen: &mut Vec<usize>) -> (has: bool)
    requires
        old(seen)@.no_duplicates(),
    ensures
        final(seen)@.no_duplicates(),
        final(seen)@.to_set() == old(seen)@.to_set().union(row_2048_ids(row@)),
        *final(peak) == max_usize(*old(peak), row_peak(row@)),
        has == row_has_2048(row@),
{
    let ghost target: Set<usize> = old(seen)@.to_set().union(row_2048_ids(row@));
    let mut has = false;
    let n = row.len();
    proof {
        assert(row@.skip(0) =~= row@);
    }
    for j in 0..n
        invariant
            n == row.len(),
            seen@.no_duplicates(),
            seen@.to_set().union(row_2048_ids(row@.skip(j as int))) == target,
            target == old(seen)@.to_set().union(row_2048_ids(row@)),
            max_usize(*peak, row_peak(row@.skip(j as int))) == max_usize(
                *old(peak),
                row_peak(row@),
            ),
            (has || row_has_2048(row@.skip(j as int))) == row_has_2048(row@),
    {
        proof {
            assert(row@.skip(j as int)[0] == row@[j as int]);
            assert(row@.skip(j as int).drop_first() =~= row@.skip(j as int + 1));
        }
        match row[j] {
            None => {
                proof {
                    assert(seen@.to_set().union(row_2048_ids(row@.skip(j as int + 1))) =~= seen@
                        .to_set().union(row_2048_ids(row@.skip(j as int))));
                }
            },
            Some(t) => {
                if t.0 > *peak {
                    *peak = t.0;
                }
                if t.0 == 2048 {
                    has = true;
                    if !vec_contains(seen, t.1) {
                        let ghost seen0 = seen@;
                        seen.push(t.1);
                        proof {
                            seen0.lemma_push_to_set_commute(t.1);
                            assert(seen@.no_duplicates()) by {
                                assert(forall|k: int| 0 <= k < seen0.len() ==> seen0[k] != t.1);
                            }
                            assert(seen@.to_set().union(row_2048_ids(row@.skip(j as int + 1)))
                                =~= seen0.to_set().union(row_2048_ids(row@.skip(j as int))));
                        }
                    } else {
                        proof {
                            assert(seen@.to_set().contains(t.1));
                            assert(seen@.to_set().union(row_2048_ids(row@.skip(j as int + 1)))
                                =~= seen@.to_set().union(row_2048_ids(row@.skip(j as int))));
                        }
                    }
                } else {
                    proof {
                        assert(seen@.to_set().union(row_2048_ids(row@.skip(j as int + 1))) =~= seen@
                            .to_set().union(row_2048_ids(row@.skip(j as int))));
                    }
                }
            },
        }
    }
    proof {
        assert(row@.skip(n as int) =~= Seq::<ReplayCell>::empty());
        assert(seen@.to_set().union(Set::empty()) =~= seen@.to_set());
    }
    has
}

/// Scan one board, row by row, with the same accumulators as `scan_row`.
fn scan_board(b: &Vec<Vec<ReplayCell>>, peak: &mut usize, seen: &mut Vec<usize>) -> (has: bool)
    requires
        old(seen)@.no_duplicates(),
    ensures
        final(seen)@.no_duplicates(),
        final(seen)@.to_set() == old(seen)@.to_set().union(board_2048_ids(board_view(b@))),
        *final(peak) == max_usize(*old(peak), board_peak(board_view(b@))),
        has == board_has_2048(board_view(b@)),
{
    let ghost bv = board_view(b@);
    let ghost target: Set<usize> = old(seen)@.to_set().union(board_2048_ids(bv));
    let mut has = false;
    let n = b.len();
    proof {
        assert(bv.skip(0) =~= bv);
        assert(bv.len() == b@.len());
    }
    for k in 0..n
        invariant
            n == b.len(),
            bv == board_view(b@),
            seen@.no_duplicates(),
            seen@.to_set().union(board_2048_ids(bv.skip(k as int))) == target,
            target == old(seen)@.to_set().union(board_2048_ids(bv)),
            max_usize(*peak, board_peak(bv.skip(k as int))) == max_usize(
                *old(peak),
                board_peak(bv),
            ),
            (has || board_has_2048(bv.skip(k as int))) == board_has_2048(bv),
    {
        proof {
            assert(bv[k as int] == b@[k as int]@);
            assert(bv.skip(k as int)[0] == bv[k as int]);
            assert(bv.skip(k as int).drop_first() =~= bv.skip(k as int + 1));
        }
        let row_has = scan_row(&b[k], peak, seen);
        if row_has {
            has = true;
        }
        proof {
            assert(seen@.to_set().union(board_2048_ids(bv.skip(k as int + 1))) =~= target);
        }
    }
    proof {
        assert(bv.skip(n as int) =~= Seq::<Seq<ReplayCell>>::empty());
        assert(seen@.to_set().union(Set::empty()) =~= seen@.to_set());
    }
    has
}

/// Replay a full board history into its summary.
pub fn scan_history(history: &Vec<Vec<Vec<ReplayCell>>>) -> (r: ReplaySummary)
    ensures
        r.highest_block == history_peak(history_view(history@)),
        r.times_found == history_2048_ids(history_view(history@)).len(),
        r.first_turn == first_2048_turn(history_view(history@)),
{
    let ghost hv = history_view(history@);
    let mut peak: usize = 0;
    let mut seen: Vec<usize> = Vec::new();
    let mut first_turn: usize = 0;
    let n = history.len();
    proof {
        assert(hv.skip(0) =~= hv);
        assert(hv.len() == history@.len());
        assert(seen@.to_set() =~= Set::<usize>::empty());
    }
    for i in 0..n
        invariant
            n == history.len(),
            hv == history_view(history@),
            seen@.no_duplicates(),
            seen@.to_set().union(history_2048_ids(hv.skip(i as int))) == history_2048_ids(hv),
            max_usize(peak, history_peak(hv.skip(i as int))) == history_peak(hv),
            first_turn != 0 ==> first_2048_turn(hv) == first_turn,
            first_turn == 0 ==> first_2048_turn(hv) == (if first_2048_turn(hv.skip(i as int))
                == 0 {
                0int
            } else {
                i + first_2048_turn(hv.skip(i as int))
            }),
    {
        proof {
            assert(hv[i as int] == board_view(history@[i as int]@));
            assert(hv.skip(i as int)[0] == hv[i as int]);
            assert(hv.skip(i as int).drop_first() =~= hv.skip(i as int + 1));
            lemma_first_turn_nonneg(hv.skip(i as int + 1));
            assert(first_2048_turn(hv.skip(i as int)) == (if board_has_2048(hv[i as int]) {
                1int
            } else if first_2048_turn(hv.skip(i as int + 1)) == 0 {
                0int
            } else {
                1 + first_2048_turn(hv.skip(i as int + 1))
            }));
        }
        let has = scan_board(&history[i], &mut peak, &mut seen);
        if has && first_turn == 0 {
            first_turn = i + 1;
        }
        proof {
            assert(seen@.to_set().union(history_2048_ids(hv.skip(i as int + 1)))
                =~= history_2048_ids(hv));
        }
    }
    proof {
        assert(hv.skip(n as int) =~= Seq::<Seq<Seq<ReplayCell>>>::empty());
        assert(seen@.to_set().union(Set::empty()) =~= seen@.to_set());
        seen@.unique_seq_to_set();
    }
    ReplaySummary { highest_block: peak, times_found: seen.len(), first_turn }
}

/// The peak tile value on one board.
pub fn board_peak_value(b: &Vec<Vec<ReplayCell>>) -> (r: usize)
    ensures
        r == board_peak(board_view(b@)),
{
    let ghost bv = board_view(b@);
    let mut peak: usize = 0;
    let mut seen: Vec<usize> = Vec::new();
    let _ = scan_board(b, &mut peak, &mut seen);
    peak
}

// ---------------------------------------------------------------------------
// Applying one game's outcome to the aggregate statistics
// ---------------------------------------------------------------------------

/// The aggregate statistics after one completed game: the game counter and
/// score total grow (stopping only at the numeric limit), the average is
/// recomputed by integer truncation, the peaks rise to the game's values
/// where those are higher, the 2048 counter grows by the game's distinct
/// 2048 tiles, and the least-moves record falls to the game's first 2048
/// move only when that is strictly better (0 standing for "never found").
pub open spec fn applied_stats(
    s: PlayerStatsV,
    final_score: u64,
    game_peak: u64,
    times_found: u64,
    first_turn: u64,
) -> PlayerStatsV {
    let played = sat_add(s.games_played, 1);
    let total = sat_add(s.total_score, final_score);
    PlayerStatsV {
        created_at: s.created_at,
        games_played: played,
        total_score: total,
        average_score: (total as int / played as int) as u64,
        highest_score: max_u64(s.highest_score, final_score),
        highest_number_block: max_u64(s.highest_number_block, game_peak),
        times_twenty_forty_eight_been_found: sat_add(
            s.times_twenty_forty_eight_been_found,
            times_found,
        ),
        least_moves_to_find_twenty_forty_eight: if first_turn != 0 && (
        s.least_moves_to_find_twenty_forty_eight == 0 || first_turn
            < s.least_moves_to_find_twenty_forty_eight) {
            first_turn
        } else {
            s.least_moves_to_find_twenty_forty_eight
        },
        sync_status: s.sync_status,
    }
}

/// The average invariant: the stored average is the integer truncation of
/// the stored total over the stored game count.
pub open spec fn average_ok(s: PlayerStatsV) -> bool {
    s.average_score == (s.total_score as int / s.games_played as int) as u64
}

fn saturating_add_u64(a: u64, b: u64) -> (r: u64)
    ensures
        r == sat_add(a, b),
{
    if a <= u64::MAX - b {
        a + b
    } else {
        u64::MAX
    }
}

/// Fold one completed game into the aggregate statistics. The sync metadata
/// is left untouched: stamping happens when the updated record is staged for
/// its push.
pub fn apply_completed_game(
    stats: &PlayerStats,
    final_score: u64,
    game_peak: u64,
    times_found: u64,
    first_turn: u64,
) -> (r: PlayerStats)
    ensures
        r@ == applied_stats(stats@, final_score, game_peak, times_found, first_turn),
        average_ok(r@),
        r.games_played >= stats.games_played,
        r.total_score >= stats.total_score,
        r.highest_score >= stats.highest_score,
        r.highest_number_block >= stats.highest_number_block,
        r.times_twenty_forty_eight_been_found >= stats.times_twenty_forty_eight_been_found,
{
    let played = saturating_add_u64(stats.games_played, 1);
    let total = saturating_add_u64(stats.total_score, final_score);
    PlayerStats {
        created_at: stats.created_at,
        games_played: played,
        total_score: total,
        average_score: total / played,
        highest_score: if final_score > stats.highest_score {
            final_score
        } else {
            stats.highest_score
        },
        highest_number_block: if game_peak > stats.highest_number_block {
            game_peak
        } else {
            stats.highest_number_block
        },
        times_twenty_forty_eight_been_found: saturating_add_u64(
            stats.times_twenty_forty_eight_been_found,
            times_found,
        ),
        least_moves_to_find_twenty_forty_eight: if first_turn != 0 && (
        stats.least_moves_to_find_twenty_forty_eight == 0 || first_turn
            < stats.least_moves_to_find_twenty_forty_eight) {
            first_turn
        } else {
            stats.least_moves_to_find_twenty_forty_eight
        },
        sync_status: SyncStatus {
            created_at: stats.sync_status.created_at,
            updated_at: stats.sync_status.updated_at,
            hash: stats.sync_status.hash.clone(),
            synced_with_at_repo: stats.sync_status.synced_with_at_repo,
        },
    }
}

} // verus!
