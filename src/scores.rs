use vstd::prelude::*;

verus! {

/// `score + delta`, held at `u64::MAX` instead of wrapping around.
pub open spec fn saturating_sum(score: u64, delta: u64) -> u64 {
    if score + delta > u64::MAX {
        u64::MAX
    } else {
        (score + delta) as u64
    }
}

/// The score recorded for `game_id`, or 0 for a game that has none yet.
pub open spec fn score_of(scores: Map<Seq<char>, u64>, game_id: Seq<char>) -> u64 {
    if scores.contains_key(game_id) {
        scores[game_id]
    } else {
        0
    }
}

/// The scores after `delta` was added to the score of `game_id`.
pub open spec fn scores_after_update(
    scores: Map<Seq<char>, u64>,
    game_id: Seq<char>,
    delta: u64,
) -> Map<Seq<char>, u64> {
    scores.insert(game_id, saturating_sum(score_of(scores, game_id), delta))
}

/// Scores keyed by game id: a map from identifier to a 64-bit counter.
///
/// Each game id occurs once in `game_ids`; `scores[i]` is the score of
/// `game_ids[i]`. The map that the contracts speak of is `self@`.
pub struct ScoreTable {
    game_ids: Vec<String>,
    scores: Vec<u64>,
    model: Ghost<Map<Seq<char>, u64>>,
}

impl View for ScoreTable {
    type V = Map<Seq<char>, u64>;

    closed spec fn view(&self) -> Map<Seq<char>, u64> {
        self.model@
    }
}

impl ScoreTable {
    /// Each game id stored once, with its score beside it, and the map
    /// holding exactly those pairs.
    pub closed spec fn wf(&self) -> bool {
        &&& self.game_ids.len() == self.scores.len()
        &&& forall|i: int, j: int|
            0 <= i < j < self.game_ids.len() ==> self.game_ids[i]@ != self.game_ids[j]@
        &&& forall|i: int|
            0 <= i < self.game_ids.len() ==> #[trigger] self.model@.contains_key(
                self.game_ids[i]@,
            ) && self.model@[self.game_ids[i]@] == self.scores[i]
        &&& forall|k: Seq<char>| #[trigger]
            self.model@.contains_key(k) ==> exists|i: int|
                0 <= i < self.game_ids.len() && self.game_ids[i]@ == k
    }

    /// An empty table.
    pub fn new() -> (r: Self)
        ensures
            r.wf(),
            r@ == Map::<Seq<char>, u64>::empty(),
    {
        ScoreTable { game_ids: Vec::new(), scores: Vec::new(), model: Ghost(Map::empty()) }
    }

    /// The index under which `game_id` is stored, if it is stored.
    fn position(&self, game_id: &String) -> (r: Option<usize>)
        requires
            self.wf(),
        ensures
            match r {
                Some(i) => i < self.game_ids.len() && self.game_ids[i as int]@ == game_id@
                    && self@.contains_key(game_id@),
                None => !self@.contains_key(game_id@),
            },
    {
        let mut i: usize = 0;
        while i < self.game_ids.len()
            invariant
                self.wf(),
                i <= self.game_ids.len(),
                forall|j: int| 0 <= j < i ==> self.game_ids[j]@ != game_id@,
            decreases self.game_ids.len() - i,
        {
            if self.game_ids[i] == *game_id {
                assert(self.model@.contains_key(self.game_ids[i as int]@));
                return Some(i);
            }
            i = i + 1;
        }
        None
    }

    /// The score stored for `game_id`, if any.
    pub fn get(&self, game_id: &str) -> (r: Option<u64>)
        requires
            self.wf(),
        ensures
            r == (if self@.contains_key(game_id@) {
                Some(self@[game_id@])
            } else {
                None::<u64>
            }),
    {
        let key = game_id.to_owned();
        match self.position(&key) {
            Some(i) => Some(self.scores[i]),
            None => None,
        }
    }

    /// Stores `score` for `game_id`, replacing what was there.
    pub fn insert(&mut self, game_id: &str, score: u64)
        requires
            old(self).wf(),
        ensures
            final(self).wf(),
            final(self)@ == old(self)@.insert(game_id@, score),
    {
        let key = game_id.to_owned();
        match self.position(&key) {
            Some(i) => {
                let ghost before = *self;
                self.scores.set(i, score);
                self.model = Ghost(self.model@.insert(key@, score));
                assert forall|j: int| 0 <= j < self.game_ids.len() implies #[trigger]
                    self.model@.contains_key(self.game_ids[j]@) && self.model@[self.game_ids[j]@]
                        == self.scores[j] by {
                    if j != i {
                        assert(before.model@.contains_key(before.game_ids[j]@));
                    }
                }
                assert forall|k: Seq<char>| #[trigger] self.model@.contains_key(k) implies exists|
                    j: int,
                | 0 <= j < self.game_ids.len() && self.game_ids[j]@ == k by {
                    if k != key@ {
                        assert(before.model@.contains_key(k));
                        let w = choose|j: int|
                            0 <= j < before.game_ids.len() && before.game_ids[j]@ == k;
                        assert(self.game_ids[w]@ == k);
                    } else {
                        assert(self.game_ids[i as int]@ == k);
                    }
                }
            },
            None => {
                let ghost before = *self;
                let ghost n = self.game_ids.len() as int;
                self.game_ids.push(key);
                self.scores.push(score);
                self.model = Ghost(self.model@.insert(game_id@, score));
                assert(self.game_ids[n]@ == game_id@);
                assert forall|a: int, b: int|
                    0 <= a < b < self.game_ids.len() implies self.game_ids[a]@
                    != self.game_ids[b]@ by {
                    if b == n {
                        assert(before.model@.contains_key(before.game_ids[a]@));
                    }
                }
                assert forall|j: int| 0 <= j < self.game_ids.len() implies #[trigger]
                    self.model@.contains_key(self.game_ids[j]@) && self.model@[self.game_ids[j]@]
                        == self.scores[j] by {
                    if j != n {
                        assert(before.model@.contains_key(before.game_ids[j]@));
                    }
                }
                assert forall|k: Seq<char>| #[trigger] self.model@.contains_key(k) implies exists|
                    j: int,
                | 0 <= j < self.game_ids.len() && self.game_ids[j]@ == k by {
                    if k != game_id@ {
                        assert(before.model@.contains_key(k));
                        let w = choose|j: int|
                            0 <= j < before.game_ids.len() && before.game_ids[j]@ == k;
                        assert(self.game_ids[w]@ == k);
                    } else {
                        assert(self.game_ids[n]@ == k);
                    }
                }
            },
        }
    }

    /// Every stored game id with its score, each once.
    pub fn entries(&self) -> (r: Vec<(String, u64)>)
        requires
            self.wf(),
        ensures
            forall|i: int|
                0 <= i < r@.len() ==> #[trigger] self@.contains_key(r@[i].0@) && self@[r@[i].0@]
                    == r@[i].1,
            forall|k: Seq<char>| #[trigger]
                self@.contains_key(k) ==> exists|i: int| 0 <= i < r@.len() && r@[i].0@ == k,
            forall|i: int, j: int| 0 <= i < j < r@.len() ==> r@[i].0@ != r@[j].0@,
    {
        let mut r: Vec<(String, u64)> = Vec::new();
        let mut i: usize = 0;
        while i < self.game_ids.len()
            invariant
                self.wf(),
                i <= self.game_ids.len(),
                r@.len() == i,
                forall|j: int|
                    0 <= j < i ==> #[trigger] r@[j].0@ == self.game_ids[j]@ && r@[j].1
                        == self.scores[j],
            decreases self.game_ids.len() - i,
        {
            let ghost before = r@;
            let id = self.game_ids[i].clone();
            r.push((id, self.scores[i]));
            assert forall|j: int| 0 <= j <= i implies #[trigger] r@[j].0@ == self.game_ids[j]@
                && r@[j].1 == self.scores[j] by {
                if j < i {
                    assert(r@[j] == before[j]);
                    assert(before[j].0@ == self.game_ids[j]@);
                }
            }
            i = i + 1;
        }
        assert forall|j: int| 0 <= j < r@.len() implies #[trigger] self@.contains_key(r@[j].0@)
            && self@[r@[j].0@] == r@[j].1 by {
            assert(self.model@.contains_key(self.game_ids[j]@));
        }
        assert forall|k: Seq<char>| #[trigger] self@.contains_key(k) implies exists|j: int|
            0 <= j < r@.len() && r@[j].0@ == k by {
            let w = choose|j: int| 0 <= j < self.game_ids.len() && self.game_ids[j]@ == k;
            assert(r@[w].0@ == k);
        }
        assert forall|a: int, b: int| 0 <= a < b < r@.len() implies r@[a].0@ != r@[b].0@ by {
            assert(r@[a].0@ == self.game_ids[a]@);
            assert(r@[b].0@ == self.game_ids[b]@);
        }
        r
    }
}

} // verus!
