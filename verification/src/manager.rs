//! The state of one scan: recorded scores, recorded document addresses and
//! the score range.

use vstd::prelude::*;
use std::collections::HashMap;
use tantivy::DocAddress;
use crate::key::RowKey;
use crate::model::ManagerView;
use crate::score::Score;

verus! {

broadcast use vstd::std_specs::hash::group_hash_axioms;

/// The mapping over row keys that a table keyed by row codes stands for.
spec fn decode<V>(table: Map<u64, V>) -> Map<RowKey, V> {
    Map::new(|key: RowKey| table.contains_key(key.code()), |key: RowKey| table[key.code()])
}

proof fn lemma_decode_empty<V>()
    ensures
        decode(Map::<u64, V>::empty()) == Map::<RowKey, V>::empty(),
{
    assert(decode(Map::<u64, V>::empty()) =~= Map::<RowKey, V>::empty());
}

proof fn lemma_decode_insert<V>(table: Map<u64, V>, key: RowKey, value: V)
    ensures
        decode(table.insert(key.code(), value)) == decode(table).insert(key, value),
{
    assert forall|other: RowKey| other.code() == key.code() implies other == key by {
        RowKey::lemma_code_injective(other, key);
    }
    assert(decode(table.insert(key.code(), value)) =~= decode(table).insert(key, value));
}

/// Everything that is kept for the scan in progress.
///
/// Scores and document addresses are held in hash tables keyed by the code
/// of the row key. Each table is allocated by the first insertion into it.
pub struct Manager {
    max_score: Score,
    min_score: Score,
    scores: Option<HashMap<u64, Score>>,
    doc_addresses: Option<HashMap<u64, DocAddress>>,
}

impl View for Manager {
    type V = ManagerView;

    closed spec fn view(&self) -> ManagerView {
        ManagerView {
            max_score: self.max_score,
            min_score: self.min_score,
            scores: match self.scores {
                Some(table) => Some(decode(table@)),
                None => None,
            },
            doc_addresses: match self.doc_addresses {
                Some(table) => Some(decode(table@)),
                None => None,
            },
        }
    }
}

impl Manager {
    /// A manager in the state in which every scan starts.
    pub fn new() -> (manager: Self)
        ensures
            manager@ == ManagerView::fresh(),
    {
        Manager {
            max_score: Score { bits: 0 },
            min_score: Score { bits: 0 },
            scores: None,
            doc_addresses: None,
        }
    }

    /// Records `score` for `key`, replacing the score recorded for it
    /// before, if any. Nothing else changes.
    pub fn add_score(&mut self, key: RowKey, score: Score)
        ensures
            final(self)@ == old(self)@.with_score(key, score),
    {
        if self.scores.is_none() {
            self.scores = Some(HashMap::new());
            proof {
                lemma_decode_empty::<Score>();
            }
        }
        match &mut self.scores {
            Some(table) => {
                proof {
                    lemma_decode_insert(table@, key, score);
                }
                table.insert(key.encode(), score);
            },
            None => {},
        }
    }

    /// The score last recorded for `key`, or `None` where none was, which
    /// includes the case that no score has been recorded at all. The manager
    /// is left as it was.
    pub fn get_score(&mut self, key: RowKey) -> (score: Option<Score>)
        ensures
            score == old(self)@.score_of(key),
            *final(self) == *old(self),
    {
        match &self.scores {
            Some(table) => {
                match table.get(&key.encode()) {
                    Some(found) => Some(*found),
                    None => None,
                }
            },
            None => None,
        }
    }

    /// Sets the upper bound of the score range. Nothing else changes.
    pub fn set_max_score(&mut self, max_score: Score)
        ensures
            final(self)@ == old(self)@.with_max_score(max_score),
    {
        self.max_score = max_score;
    }

    /// The upper bound of the score range as it was last set.
    pub fn get_max_score(&self) -> (max_score: Score)
        ensures
            max_score == self@.max_score,
    {
        self.max_score
    }

    /// Sets the lower bound of the score range. Nothing else changes.
    pub fn set_min_score(&mut self, min_score: Score)
        ensures
            final(self)@ == old(self)@.with_min_score(min_score),
    {
        self.min_score = min_score;
    }

    /// The lower bound of the score range as it was last set.
    pub fn get_min_score(&self) -> (min_score: Score)
        ensures
            min_score == self@.min_score,
    {
        self.min_score
    }

    /// Records `doc_address` for `key`, replacing the address recorded for
    /// it before, if any. Nothing else changes.
    pub fn add_doc_address(&mut self, key: RowKey, doc_address: DocAddress)
        ensures
            final(self)@ == old(self)@.with_doc_address(key, doc_address),
    {
        if self.doc_addresses.is_none() {
            self.doc_addresses = Some(HashMap::new());
            proof {
                lemma_decode_empty::<DocAddress>();
            }
        }
        match &mut self.doc_addresses {
            Some(table) => {
                proof {
                    lemma_decode_insert(table@, key, doc_address);
                }
                table.insert(key.encode(), doc_address);
            },
            None => {},
        }
    }
}

} // verus!
