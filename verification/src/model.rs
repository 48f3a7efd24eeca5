//! The mathematical model of a manager, and the laws that hold of it.
//!
//! Every operation of [`crate::manager::Manager`] is specified as one of the
//! functions below applied to the manager's view, so each law proved here of
//! the model holds of the executable code as well.

use vstd::prelude::*;
use tantivy::DocAddress;
use crate::key::RowKey;
use crate::score::Score;

verus! {

/// The search engine's identifier of a document, `tantivy::DocAddress`.
/// It is stored and carried through as an indivisible token: nothing here
/// looks inside it, and nothing is claimed of it.
#[verifier::external_type_specification]
#[verifier::external_body]
pub struct ExDocAddress(tantivy::DocAddress);

/// What a manager holds, as mathematical values: the score range that was
/// last set, and the two mappings from row keys. A mapping is `None` until
/// its first insertion, since nothing is allocated for a scan without hits.
pub struct ManagerView {
    pub max_score: Score,
    pub min_score: Score,
    pub scores: Option<Map<RowKey, Score>>,
    pub doc_addresses: Option<Map<RowKey, DocAddress>>,
}

/// The mapping `slot` after `key` has been bound to `value` in it: the slot
/// is materialized if it was not, and an earlier binding of `key` is replaced.
pub open spec fn bind<V>(slot: Option<Map<RowKey, V>>, key: RowKey, value: V) -> Option<
    Map<RowKey, V>,
> {
    match slot {
        None => Some(Map::<RowKey, V>::empty().insert(key, value)),
        Some(m) => Some(m.insert(key, value)),
    }
}

/// What `slot` binds `key` to, if anything. A slot that was never
/// materialized binds nothing.
pub open spec fn lookup<V>(slot: Option<Map<RowKey, V>>, key: RowKey) -> Option<V> {
    match slot {
        Some(m) if m.contains_key(key) => Some(m[key]),
        _ => None,
    }
}

impl ManagerView {
    /// The state at the start of a scan: both bounds zero, neither mapping
    /// materialized.
    pub open spec fn fresh() -> ManagerView {
        ManagerView {
            max_score: Score::zero(),
            min_score: Score::zero(),
            scores: None,
            doc_addresses: None,
        }
    }

    /// The score last recorded for `key`, if any.
    pub open spec fn score_of(self, key: RowKey) -> Option<Score> {
        lookup(self.scores, key)
    }

    /// The document address last recorded for `key`, if any.
    pub open spec fn doc_address_of(self, key: RowKey) -> Option<DocAddress> {
        lookup(self.doc_addresses, key)
    }

    /// The state after `score` has been recorded for `key`.
    pub open spec fn with_score(self, key: RowKey, score: Score) -> ManagerView {
        ManagerView { scores: bind(self.scores, key, score), ..self }
    }

    /// The state after `doc_address` has been recorded for `key`.
    pub open spec fn with_doc_address(self, key: RowKey, doc_address: DocAddress) -> ManagerView {
        ManagerView { doc_addresses: bind(self.doc_addresses, key, doc_address), ..self }
    }

    /// The state after the upper bound has been set to `max_score`.
    pub open spec fn with_max_score(self, max_score: Score) -> ManagerView {
        ManagerView { max_score, ..self }
    }

    /// The state after the lower bound has been set to `min_score`.
    pub open spec fn with_min_score(self, min_score: Score) -> ManagerView {
        ManagerView { min_score, ..self }
    }
}

/// A fresh manager has a score for no key: whatever was recorded before a
/// scan starts, none of it can be found once the manager has been replaced
/// by a fresh one.
pub proof fn lemma_fresh_has_no_score(key: RowKey)
    ensures
        ManagerView::fresh().score_of(key) is None,
        ManagerView::fresh().doc_address_of(key) is None,
{
}

/// Looking a score up before any score has been recorded is an ordinary
/// lookup that finds nothing.
pub proof fn lemma_unmaterialized_scores_are_absent(state: ManagerView, key: RowKey)
    requires
        state.scores is None,
    ensures
        state.score_of(key) is None,
{
}

/// A score that has just been recorded for a key is the score found for
/// that key, bit for bit.
pub proof fn lemma_score_round_trip(state: ManagerView, key: RowKey, score: Score)
    ensures
        state.with_score(key, score).score_of(key) == Some(score),
{
}

/// Of two scores recorded for one key the later one is found, and the state
/// is the one that recording the later score alone would have given.
pub proof fn lemma_last_score_wins(state: ManagerView, key: RowKey, first: Score, second: Score)
    ensures
        state.with_score(key, first).with_score(key, second).score_of(key) == Some(second),
        state.with_score(key, first).with_score(key, second) == state.with_score(key, second),
{
    let once = state.with_score(key, second);
    let twice = state.with_score(key, first).with_score(key, second);
    assert(twice.scores->0 =~= once.scores->0);
}

/// Recording a document address changes the score of no key, and recording
/// a score changes the document address of no key.
pub proof fn lemma_mappings_independent(
    state: ManagerView,
    key: RowKey,
    score: Score,
    doc_address: DocAddress,
    other: RowKey,
)
    ensures
        state.with_doc_address(key, doc_address).score_of(other) == state.score_of(other),
        state.with_doc_address(key, doc_address).scores == state.scores,
        state.with_score(key, score).doc_address_of(other) == state.doc_address_of(other),
        state.with_score(key, score).doc_addresses == state.doc_addresses,
{
}

/// Recording a score for one key changes the score of no other key.
pub proof fn lemma_other_scores_kept(state: ManagerView, key: RowKey, score: Score, other: RowKey)
    requires
        other != key,
    ensures
        state.with_score(key, score).score_of(other) == state.score_of(other),
{
}

/// A bound of the score range reads back exactly as it was set, whatever
/// its bits and whatever the other bound is, and setting one bound leaves
/// the other bound and both mappings as they were.
pub proof fn lemma_bounds_read_back(state: ManagerView, bound: Score)
    ensures
        state.with_max_score(bound).max_score == bound,
        state.with_min_score(bound).min_score == bound,
        state.with_max_score(bound).min_score == state.min_score,
        state.with_min_score(bound).max_score == state.max_score,
        state.with_max_score(bound).scores == state.scores,
        state.with_min_score(bound).scores == state.scores,
        state.with_max_score(bound).doc_addresses == state.doc_addresses,
        state.with_min_score(bound).doc_addresses == state.doc_addresses,
{
}

} // verus!
