//! The boundary to the external 2048 rule engine (the `twothousand-forty-eight`
//! crate). The engine parses a seeded recording string and deterministically
//! reconstructs from it the final game state and the move-by-move board
//! history; this module carries those results into the library as plain
//! values. Board transition logic, win detection and the recording format
//! itself are the engine's business and are not restated here: the results
//! are given names that depend on the recording string alone.

use vstd::prelude::*;

use twothousand_forty_eight::board::MAX_HEIGHT;
use twothousand_forty_eight::board::MAX_WIDTH;
use twothousand_forty_eight::unified::game::GameState;
use twothousand_forty_eight::unified::reconstruction::Reconstructable;
use twothousand_forty_eight::v2::recording::SeededRecording;

verus! {

#[verifier::external_type_specification]
#[verifier::external_body]
pub struct ExSeededRecording(SeededRecording);

/// A recording that parsed, kept beside the raw string it was parsed from.
/// The fields are private and the only constructor is `parse_recording`, so
/// `rec` is always the parse of `raw`: whatever the engine computes from
/// `rec` is a function of the raw string, which is the value the rest of
/// the library reasons about.
pub struct ParsedRecording {
    raw: String,
    rec: SeededRecording,
}

impl View for ParsedRecording {
    type V = Seq<char>;

    closed spec fn view(&self) -> Seq<char> {
        self.raw@
    }
}

/// A board cell as the replay logic reads it: empty, or a tile's value and
/// identity.
pub type ReplayCell = Option<(usize, usize)>;

/// The final state the rule engine reconstructs from a recording: the last
/// board, the final score, and the game-over and win flags.
pub struct FinalState {
    pub board: Vec<Vec<ReplayCell>>,
    pub score: usize,
    pub over: bool,
    pub won: bool,
}

/// A board as rows of cells.
pub open spec fn board_view(b: Seq<Vec<ReplayCell>>) -> Seq<Seq<ReplayCell>> {
    b.map(|i: int, row: Vec<ReplayCell>| row@)
}

/// A board history as a sequence of boards.
pub open spec fn history_view(h: Seq<Vec<Vec<ReplayCell>>>) -> Seq<Seq<Seq<ReplayCell>>> {
    h.map(|i: int, b: Vec<Vec<ReplayCell>>| board_view(b@))
}

impl View for FinalState {
    type V = (Seq<Seq<ReplayCell>>, usize, bool, bool);

    open spec fn view(&self) -> (Seq<Seq<ReplayCell>>, usize, bool, bool) {
        (board_view(self.board@), self.score, self.over, self.won)
    }
}

/// Whether the rule engine parses this string as a seeded recording; a
/// function of the string alone.
pub uninterp spec fn recording_parses(s: Seq<char>) -> bool;

/// The final state the rule engine reconstructs from a recording string
/// (board, score, over, won), or nothing if reconstruction fails; a function
/// of the string alone.
pub uninterp spec fn final_state_of(s: Seq<char>) -> Option<(Seq<Seq<ReplayCell>>, usize, bool, bool)>;

/// The move-by-move board history the rule engine reconstructs from a
/// recording string (the initial board first, then one board per applied
/// move), or nothing if reconstruction fails; a function of the string
/// alone.
pub uninterp spec fn history_of(s: Seq<char>) -> Option<Seq<Seq<Seq<ReplayCell>>>>;

/// Relies on `SeededRecording`'s `FromStr` impl: whether a recording string
/// parses depends on the string alone. A recording whose board exceeds the
/// engine's compiled maximum (`MAX_WIDTH` by `MAX_HEIGHT`) is refused here
/// as well, because the engine aborts on such boards instead of failing.
#[verifier::external_body]
pub(crate) fn parse_recording(s: &String) -> (r: Option<ParsedRecording>)
    ensures
        r is Some <==> recording_parses(s@),
        r matches Some(p) ==> p@ == s@,
{
    match s.parse::<SeededRecording>() {
        Ok(rec) if rec.width <= MAX_WIDTH && rec.height <= MAX_HEIGHT => Some(
            ParsedRecording { raw: s.clone(), rec },
        ),
        _ => None,
    }
}

/// Relies on `GameState::from_reconstructable_ruleset`: the reconstructed
/// final state is a deterministic function of the recording, hence of the
/// string it was parsed from.
#[verifier::external_body]
pub(crate) fn reconstruct_final_state(p: &ParsedRecording) -> (r: Option<FinalState>)
    ensures
        r is Some <==> final_state_of(p@) is Some,
        r matches Some(f) ==> final_state_of(p@) == Some(f@),
{
    match GameState::from_reconstructable_ruleset(&p.rec) {
        Ok(gs) => Some(FinalState {
            board: gs.board.tiles.iter().map(
                |row| row.iter().map(|c| c.map(|t| (t.value, t.id))).collect(),
            ).collect(),
            score: gs.score_current,
            over: gs.over,
            won: gs.won,
        }),
        Err(_) => None,
    }
}

/// Relies on `SeededRecording::reconstruct` (the engine's `Reconstructable`
/// impl): the reconstructed board history is a deterministic function of the
/// recording, hence of the string it was parsed from.
#[verifier::external_body]
pub(crate) fn reconstruct_history(p: &ParsedRecording) -> (r: Option<Vec<Vec<Vec<ReplayCell>>>>)
    ensures
        r is Some <==> history_of(p@) is Some,
        r matches Some(h) ==> history_of(p@) == Some(history_view(h@)),
{
    match p.rec.reconstruct() {
        Ok(rec) => Some(rec.history.iter().map(
            |b| b.tiles.iter().map(
                |row| row.iter().map(|c| c.map(|t| (t.value, t.id))).collect(),
            ).collect(),
        ).collect()),
        Err(_) => None,
    }
}

} // verus!
