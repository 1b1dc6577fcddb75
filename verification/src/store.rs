//! The on-device record store: one slot per fixed-key record kind (profile,
//! statistics, current in-progress game) and a growing collection of
//! completed games, the latter with a secondary index on the content hash of
//! each game's seeded recording.

use vstd::prelude::*;

use crate::records::GameRecord;
use crate::records::GameRecordV;
use crate::records::PlayerProfile;
use crate::records::PlayerProfileV;
use crate::records::PlayerStats;
use crate::records::PlayerStatsV;
use crate::records::RecordStorageWrapper;
use crate::records::RecordStorageWrapperV;

verus! {

/// The local store's contents.
pub struct LocalStore {
    profile: Option<PlayerProfile>,
    stats: Option<PlayerStats>,
    games: Vec<RecordStorageWrapper>,
    current_game: Option<GameRecord>,
}

pub ghost struct LocalStoreV {
    pub profile: Option<PlayerProfileV>,
    pub stats: Option<PlayerStatsV>,
    pub games: Seq<RecordStorageWrapperV>,
    pub current_game: Option<GameRecordV>,
}

impl View for LocalStore {
    type V = LocalStoreV;

    closed spec fn view(&self) -> LocalStoreV {
        LocalStoreV {
            profile: match self.profile {
                Some(p) => Some(p@),
                None => None,
            },
            stats: match self.stats {
                Some(s) => Some(s@),
                None => None,
            },
            games: self.games@.map(|i: int, w: RecordStorageWrapper| w@),
            current_game: match self.current_game {
                Some(g) => Some(g@),
                None => None,
            },
        }
    }
}

/// The first stored game whose index hash equals `h`, if any.
pub open spec fn find_game_by_index_hash(games: Seq<RecordStorageWrapperV>, h: Seq<char>) -> Option<
    RecordStorageWrapperV,
>
    decreases games.len(),
{
    if games.len() == 0 {
        None
    } else if games[0].index_hash == h {
        Some(games[0])
    } else {
        find_game_by_index_hash(games.drop_first(), h)
    }
}

impl LocalStore {
    /// An empty store: nothing persisted yet.
    pub fn new() -> (r: LocalStore)
        ensures
            r@.profile is None,
            r@.stats is None,
            r@.games == Seq::<RecordStorageWrapperV>::empty(),
            r@.current_game is None,
    {
        let r = LocalStore { profile: None, stats: None, games: Vec::new(), current_game: None };
        proof {
            assert(r@.games =~= Seq::<RecordStorageWrapperV>::empty());
        }
        r
    }

    /// The profile slot.
    pub fn get_profile(&self) -> (r: Option<&PlayerProfile>)
        ensures
            match r {
                Some(p) => self@.profile == Some(p@),
                None => self@.profile is None,
            },
    {
        self.profile.as_ref()
    }

    /// Overwrite the profile slot.
    pub fn put_profile(&mut self, p: PlayerProfile)
        ensures
            final(self)@ == (LocalStoreV { profile: Some(p@), ..old(self)@ }),
    {
        self.profile = Some(p);
    }

    /// The statistics slot.
    pub fn get_stats(&self) -> (r: Option<&PlayerStats>)
        ensures
            match r {
                Some(s) => self@.stats == Some(s@),
                None => self@.stats is None,
            },
    {
        self.stats.as_ref()
    }

    /// Overwrite the statistics slot.
    pub fn put_stats(&mut self, s: PlayerStats)
        ensures
            final(self)@ == (LocalStoreV { stats: Some(s@), ..old(self)@ }),
    {
        self.stats = Some(s);
    }

    /// The current in-progress game slot.
    pub fn get_current_game(&self) -> (r: Option<&GameRecord>)
        ensures
            match r {
                Some(g) => self@.current_game == Some(g@),
                None => self@.current_game is None,
            },
    {
        self.current_game.as_ref()
    }

    /// Overwrite the current in-progress game slot.
    pub fn put_current_game(&mut self, g: GameRecord)
        ensures
            final(self)@ == (LocalStoreV { current_game: Some(g@), ..old(self)@ }),
    {
        self.current_game = Some(g);
    }

    /// Clear the current in-progress game slot.
    pub fn clear_current_game(&mut self)
        ensures
            final(self)@ == (LocalStoreV { current_game: None, ..old(self)@ }),
    {
        self.current_game = None;
    }

    /// How many completed games are stored.
    pub fn game_count(&self) -> (r: usize)
        ensures
            r == self@.games.len(),
    {
        self.games.len()
    }

    /// The stored game at a position, in insertion order.
    pub fn game_at(&self, i: usize) -> (r: &RecordStorageWrapper)
        requires
            i < self@.games.len(),
        ensures
            self@.games[i as int] == r@,
    {
        &self.games[i]
    }

    /// Append a completed game.
    pub fn push_game(&mut self, w: RecordStorageWrapper)
        ensures
            final(self)@ == (LocalStoreV {
                games: old(self)@.games.push(w@),
                ..old(self)@
            }),
    {
        self.games.push(w);
        proof {
            assert(final(self)@.games =~= old(self)@.games.push(w@));
        }
    }

    /// Secondary-index lookup: the first stored game whose index hash equals
    /// `h`.
    pub fn get_game_by_index_hash(&self, h: &String) -> (r: Option<&RecordStorageWrapper>)
        ensures
            match r {
                Some(w) => find_game_by_index_hash(self@.games, h@) == Some(w@),
                None => find_game_by_index_hash(self@.games, h@) is None,
            },
    {
        let n = self.games.len();
        proof {
            assert(self@.games.skip(0) =~= self@.games);
        }
        for i in 0..n
            invariant
                n == self.games.len(),
                find_game_by_index_hash(self@.games.skip(i as int), h@) == find_game_by_index_hash(
                    self@.games,
                    h@,
                ),
        {
            proof {
                assert(self@.games[i as int] == self.games@[i as int]@);
                assert(self@.games.skip(i as int)[0] == self@.games[i as int]);
                assert(self@.games.skip(i as int).drop_first() =~= self@.games.skip(i as int + 1));
            }
            if self.games[i].index_hash.eq(h) {
                return Some(&self.games[i]);
            }
        }
        proof {
            assert(self@.games.skip(n as int) =~= Seq::<RecordStorageWrapperV>::empty());
        }
        None
    }
}

} // verus!
