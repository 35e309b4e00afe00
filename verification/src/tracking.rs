//! The correlation table: which queries are outstanding, which answer
//! matches which query, and which queries have waited too long.

use crate::dns::{DnsQuery, DnsQueryView, DnsRequestId, RequestKey};
use std::collections::BTreeMap;
use vstd::prelude::*;
use vstd::std_specs::cmp::OrdSpec;
use vstd::std_specs::iter::IteratorSpec;

verus! {

/// An outstanding query as the index by fingerprint holds it.
pub struct Pending {
    pub query: DnsQueryView,
    pub sequence: u64,
}

/// An outstanding query as the index by sequence holds it. The deadline
/// counts nanoseconds since the Unix epoch.
#[derive(Debug, Clone, Copy, PartialEq, Eq, Structural)]
pub struct Deadline {
    pub fingerprint: DnsRequestId,
    pub expires_at: u128,
}

/// The state of a correlation table: its two indexes, the sequence that the
/// next query gets, and the time that a query may stay outstanding, in
/// nanoseconds.
pub struct Table {
    pub queries: Map<DnsRequestId, Pending>,
    pub deadlines: Map<u64, Deadline>,
    pub next_sequence: u64,
    pub ttl: u64,
}

/// What can happen to a table: a query is recorded, an answer is matched, or
/// the table is swept.
pub enum Operation {
    AddQuery(DnsRequestId, DnsQueryView),
    MatchAnswer(DnsRequestId),
    Expire(u64),
}

impl Table {
    /// The table that tracks nothing yet.
    pub open spec fn empty(ttl: u64) -> Table {
        Table { queries: Map::empty(), deadlines: Map::empty(), next_sequence: 0, ttl }
    }

    /// Both indexes hold the same entries: each outstanding query has its
    /// deadline under its sequence, and each deadline belongs to the
    /// outstanding query of its fingerprint.
    pub open spec fn indexes_agree(self) -> bool {
        &&& forall|id: DnsRequestId| #[trigger]
            self.queries.contains_key(id) ==> self.deadlines.contains_key(
                self.queries[id].sequence,
            ) && self.deadlines[self.queries[id].sequence].fingerprint == id
        &&& forall|sequence: u64| #[trigger]
            self.deadlines.contains_key(sequence) ==> self.queries.contains_key(
                self.deadlines[sequence].fingerprint,
            ) && self.queries[self.deadlines[sequence].fingerprint].sequence == sequence
    }

    /// Every sequence in use lies below the next one to be given out.
    pub open spec fn sequences_fresh(self) -> bool {
        forall|sequence: u64| #[trigger]
            self.deadlines.contains_key(sequence) ==> sequence < self.next_sequence
    }

    /// The deadline of each outstanding query is the timestamp of the query
    /// plus the time that a query may stay outstanding.
    pub open spec fn deadlines_kept(self) -> bool {
        forall|id: DnsRequestId| #[trigger]
            self.queries.contains_key(id) ==> self.deadlines[self.queries[id].sequence].expires_at
                == self.queries[id].query.timestamp + self.ttl
    }

    /// A well-formed table has finitely many entries, indexes that agree,
    /// deadlines that are kept and fresh sequences.
    pub open spec fn wf(self) -> bool {
        &&& self.deadlines.dom().finite()
        &&& self.indexes_agree()
        &&& self.deadlines_kept()
        &&& self.sequences_fresh()
    }

    /// The table after `query` was recorded under `id`. A query that was
    /// outstanding under `id` gives way, in both indexes.
    pub open spec fn add_query(self, id: DnsRequestId, query: DnsQueryView) -> Table {
        let kept = if self.queries.contains_key(id) {
            self.deadlines.remove(self.queries[id].sequence)
        } else {
            self.deadlines
        };
        Table {
            queries: self.queries.insert(id, Pending { query, sequence: self.next_sequence }),
            deadlines: kept.insert(
                self.next_sequence,
                Deadline { fingerprint: id, expires_at: (query.timestamp + self.ttl) as u128 },
            ),
            next_sequence: (self.next_sequence + 1) as u64,
            ttl: self.ttl,
        }
    }

    /// The query that an answer under `id` matches, if one is outstanding.
    pub open spec fn matched(self, id: DnsRequestId) -> Option<DnsQueryView> {
        if self.queries.contains_key(id) {
            Some(self.queries[id].query)
        } else {
            None
        }
    }

    /// The sequences that a sweep at `now` removes: those up to which, in
    /// the order of the sequences, every deadline has been reached.
    pub open spec fn due(self, now: u64) -> Set<u64> {
        Set::new(
            |sequence: u64|
                self.deadlines.contains_key(sequence) && forall|earlier: u64| #[trigger]
                    self.deadlines.contains_key(earlier) && earlier <= sequence
                        ==> self.deadlines[earlier].expires_at <= now,
        )
    }

    /// The fingerprints of the outstanding queries with one of `sequences`.
    pub open spec fn fingerprints_of(self, sequences: Set<u64>) -> Set<DnsRequestId> {
        Set::new(
            |id: DnsRequestId|
                self.queries.contains_key(id) && sequences.contains(self.queries[id].sequence),
        )
    }

    /// The fingerprints that a sweep at `now` removes.
    pub open spec fn due_fingerprints(self, now: u64) -> Set<DnsRequestId> {
        self.fingerprints_of(self.due(now))
    }

    /// The table after a sweep at `now`.
    pub open spec fn expire(self, now: u64) -> Table {
        Table {
            queries: self.queries.remove_keys(self.due_fingerprints(now)),
            deadlines: self.deadlines.remove_keys(self.due(now)),
            next_sequence: self.next_sequence,
            ttl: self.ttl,
        }
    }

    /// The table after an answer under `id` was matched.
    pub open spec fn match_answer(self, id: DnsRequestId) -> Table {
        if self.queries.contains_key(id) {
            Table {
                queries: self.queries.remove(id),
                deadlines: self.deadlines.remove(self.queries[id].sequence),
                next_sequence: self.next_sequence,
                ttl: self.ttl,
            }
        } else {
            self
        }
    }
}

struct IdentifiedQuery {
    query: DnsQuery,
    id: u64,
}

/// Tracks outstanding queries under their fingerprints, each with a sequence
/// of its own and a deadline.
pub struct RequestTracker {
    outstanding_requests: BTreeMap<RequestKey, IdentifiedQuery>,
    identifier_ttls: BTreeMap<u64, Deadline>,
    current_id: u64,
    expiration: u64,
}

impl View for RequestTracker {
    type V = Table;

    closed spec fn view(&self) -> Table {
        Table {
            queries: by_fingerprint(self.outstanding_requests@),
            deadlines: self.identifier_ttls@,
            next_sequence: self.current_id,
            ttl: self.expiration,
        }
    }
}

impl IdentifiedQuery {
    spec fn pending(self) -> Pending {
        Pending { query: self.query@, sequence: self.id }
    }
}

/// The index by fingerprint that a map by key stands for.
spec fn by_fingerprint(keyed: Map<RequestKey, IdentifiedQuery>) -> Map<DnsRequestId, Pending> {
    Map::new(
        |id: DnsRequestId| keyed.contains_key(id.key_of()),
        |id: DnsRequestId| keyed[id.key_of()].pending(),
    )
}

proof fn lemma_by_fingerprint_empty()
    ensures
        by_fingerprint(Map::empty()) == Map::<DnsRequestId, Pending>::empty(),
{
    assert(by_fingerprint(Map::empty()) =~= Map::<DnsRequestId, Pending>::empty());
}

proof fn lemma_by_fingerprint_insert(
    keyed: Map<RequestKey, IdentifiedQuery>,
    id: DnsRequestId,
    entry: IdentifiedQuery,
)
    ensures
        by_fingerprint(keyed.insert(id.key_of(), entry)) == by_fingerprint(keyed).insert(
            id,
            entry.pending(),
        ),
{
    assert forall|other: DnsRequestId| other.key_of() == id.key_of() implies other == id by {
        DnsRequestId::lemma_key_injective(other, id);
    }
    assert(by_fingerprint(keyed.insert(id.key_of(), entry)) =~= by_fingerprint(keyed).insert(
        id,
        entry.pending(),
    ));
}

proof fn lemma_by_fingerprint_remove(keyed: Map<RequestKey, IdentifiedQuery>, id: DnsRequestId)
    ensures
        by_fingerprint(keyed.remove(id.key_of())) == by_fingerprint(keyed).remove(id),
{
    assert forall|other: DnsRequestId| other.key_of() == id.key_of() implies other == id by {
        DnsRequestId::lemma_key_injective(other, id);
    }
    assert(by_fingerprint(keyed.remove(id.key_of())) =~= by_fingerprint(keyed).remove(id));
}

impl RequestTracker {
    /// The tracker's state is a well-formed table.
    pub open spec fn wf(&self) -> bool {
        self@.wf()
    }

    /// A tracker without outstanding queries, in which a query stays
    /// outstanding for `expiration` nanoseconds.
    pub fn with_expiration(expiration: u64) -> (tracker: Self)
        ensures
            tracker.wf(),
            tracker@ == Table::empty(expiration),
    {
        let tracker = RequestTracker {
            outstanding_requests: BTreeMap::new(),
            identifier_ttls: BTreeMap::new(),
            current_id: 0,
            expiration,
        };
        proof {
            lemma_by_fingerprint_empty();
        }
        tracker
    }

    /// Records `query` as outstanding under `id`, with a fresh sequence and
    /// the deadline `query.timestamp + ttl`. A query that was outstanding
    /// under `id` is replaced.
    pub fn add_query(&mut self, id: DnsRequestId, query: DnsQuery)
        requires
            old(self).wf(),
            old(self)@.next_sequence < u64::MAX,
        ensures
            final(self).wf(),
            final(self)@ == old(self)@.add_query(id, query@),
    {
        let sequence = self.current_id;
        let expires_at: u128 = query.timestamp as u128 + self.expiration as u128;
        let ghost before = self@;
        let ghost keyed = self.outstanding_requests@;
        let entry = IdentifiedQuery { query, id: sequence };
        proof {
            lemma_by_fingerprint_insert(keyed, id, entry);
            before.lemma_add_query_wf(id, entry.query@);
        }
        let prior = self.outstanding_requests.insert(id.key(), entry);
        if let Some(previous) = prior {
            self.identifier_ttls.remove(&previous.id);
        }
        self.identifier_ttls.insert(sequence, Deadline { fingerprint: id, expires_at });
        self.current_id = sequence + 1;
    }

    /// Takes the query that is outstanding under `id` out of the table and
    /// returns it. Where none is outstanding, nothing changes.
    pub fn match_answer(&mut self, id: &DnsRequestId) -> (query: Option<DnsQuery>)
        requires
            old(self).wf(),
        ensures
            final(self).wf(),
            final(self)@ == old(self)@.match_answer(*id),
            match query {
                Some(q) => old(self)@.matched(*id) == Some(q@),
                None => old(self)@.matched(*id) is None,
            },
    {
        let ghost before = self@;
        proof {
            lemma_by_fingerprint_remove(self.outstanding_requests@, *id);
            before.lemma_match_answer_wf(*id);
        }
        match self.outstanding_requests.remove(&id.key()) {
            Some(identified_query) => {
                self.identifier_ttls.remove(&identified_query.id);
                Some(identified_query.query)
            },
            None => {
                assert(self@.queries =~= before.queries);
                None
            },
        }
    }

    /// Removes the outstanding queries whose deadline `now` has reached, in
    /// the order of their sequences and up to the first one whose deadline
    /// lies after `now`, and returns how many were removed.
    pub fn expire_requests(&mut self, now: u64) -> (removed: u64)
        requires
            old(self).wf(),
        ensures
            final(self).wf(),
            final(self)@ == old(self)@.expire(now),
            removed == old(self)@.due(now).len(),
    {
        let ghost before = self@;
        let ghost mut gone: Set<u64> = Set::empty();
        let total = self.identifier_ttls.len();
        let mut removed: u64 = 0;
        loop
            invariant
                before.wf(),
                before.deadlines.dom().len() == total,
                self@.next_sequence == before.next_sequence,
                self@.ttl == before.ttl,
                gone.finite(),
                gone.len() == removed,
                gone.subset_of(before.due(now)),
                self@.deadlines == before.deadlines.remove_keys(gone),
                self@.queries == before.queries.remove_keys(before.fingerprints_of(gone)),
            ensures
                gone == before.due(now),
            decreases self@.deadlines.dom().len(),
        {
            let (sequence, deadline) = match self.first_deadline() {
                Some(first) => first,
                None => {
                    proof {
                        before.lemma_sweep_done(now, gone);
                    }
                    break ;
                },
            };
            assert forall|other: u64| #[trigger]
                before.deadlines.contains_key(other) && !gone.contains(other) implies sequence
                <= other by {
                assert(self@.deadlines.contains_key(other));
            }
            if (now as u128) < deadline.expires_at {
                proof {
                    before.lemma_sweep_stops(now, gone, sequence);
                }
                break ;
            }
            proof {
                lemma_by_fingerprint_remove(self.outstanding_requests@, deadline.fingerprint);
                before.lemma_sweep_step(now, gone, sequence);
                gone = gone.insert(sequence);
            }
            self.identifier_ttls.remove(&sequence);
            self.outstanding_requests.remove(&deadline.fingerprint.key());
            removed = removed + 1;
        }
        proof {
            before.lemma_expire_wf(now);
        }
        removed
    }

    /// The number of outstanding queries.
    pub fn len(&self) -> (n: usize)
        ensures
            n == self@.deadlines.dom().len(),
    {
        self.identifier_ttls.len()
    }

    /// Whether no query is outstanding.
    pub fn is_empty(&self) -> (r: bool)
        requires
            self.wf(),
        ensures
            r == (self@.deadlines == Map::<u64, Deadline>::empty()),
            r == (self@.queries == Map::<DnsRequestId, Pending>::empty()),
    {
        let r = self.identifier_ttls.is_empty();
        proof {
            if r {
                assert(self@.deadlines =~= Map::<u64, Deadline>::empty());
                assert forall|id: DnsRequestId| !self@.queries.contains_key(id) by {
                    if self@.queries.contains_key(id) {
                        assert(self@.deadlines.contains_key(self@.queries[id].sequence));
                    }
                }
                assert(self@.queries =~= Map::<DnsRequestId, Pending>::empty());
            } else {
                let sequence = choose|sequence: u64| self@.deadlines.contains_key(sequence);
                assert(self@.deadlines.contains_key(sequence));
                assert(self@.queries.contains_key(self@.deadlines[sequence].fingerprint));
            }
        }
        r
    }

    /// Whether a query is outstanding under `id`.
    pub fn contains(&self, id: &DnsRequestId) -> (r: bool)
        ensures
            r == self@.queries.contains_key(*id),
    {
        self.outstanding_requests.contains_key(&id.key())
    }

    /// The sequence that the next query gets.
    pub fn next_sequence(&self) -> (sequence: u64)
        ensures
            sequence == self@.next_sequence,
    {
        self.current_id
    }

    /// The time that a query may stay outstanding, in nanoseconds.
    pub fn expiration(&self) -> (ttl: u64)
        ensures
            ttl == self@.ttl,
    {
        self.expiration
    }

    /// The entry with the smallest sequence, if the table has any.
    fn first_deadline(&self) -> (first: Option<(u64, Deadline)>)
        ensures
            match first {
                Some((sequence, deadline)) => {
                    &&& self@.deadlines.contains_key(sequence)
                    &&& self@.deadlines[sequence] == deadline
                    &&& forall|other: u64| #[trigger]
                        self@.deadlines.contains_key(other) ==> sequence <= other
                },
                None => forall|other: u64| !self@.deadlines.contains_key(other),
            },
    {
        for sequence in sequences: self.identifier_ttls.keys()
            invariant
                sequences.index() == 0,
                sequences.seq() == self.identifier_ttls.keys().remaining(),
        {
            proof {
                let all = sequences.seq();
                assert(all.unref()[0] == *sequence);
                assert(all.unref().to_set().contains(*sequence));
                assert forall|other: u64| #[trigger]
                    self.identifier_ttls@.contains_key(other) implies *sequence <= other by {
                    assert(all.unref().to_set().contains(other));
                    let i = choose|i: int| 0 <= i < all.unref().len() && all.unref()[i] == other;
                    assert(*all[i] == other);
                    if i > 0 {
                        assert(vstd::std_specs::btree::increasing_seq(all));
                        assert(OrdSpec::cmp_spec(&all[0], &all[i]) is Less);
                    }
                }
            }
            match self.identifier_ttls.get(sequence) {
                Some(deadline) => {
                    return Some((*sequence, *deadline));
                },
                None => {
                    return None;
                },
            }
        }
        assert(self.identifier_ttls@.dom().len() == 0);
        None
    }
}

impl Table {
    /// Recording a query keeps a table well-formed.
    pub proof fn lemma_add_query_wf(self, id: DnsRequestId, query: DnsQueryView)
        requires
            self.wf(),
            self.next_sequence < u64::MAX,
        ensures
            self.add_query(id, query).wf(),
    {
        let after = self.add_query(id, query);
        assert forall|other: DnsRequestId| #[trigger] after.queries.contains_key(other) implies {
            &&& after.deadlines.contains_key(after.queries[other].sequence)
            &&& after.deadlines[after.queries[other].sequence].fingerprint == other
        } by {
            if other != id {
                assert(self.queries.contains_key(other));
                if self.queries.contains_key(id) {
                    assert(self.deadlines[self.queries[id].sequence].fingerprint == id);
                }
            }
        }
        assert forall|sequence: u64| #[trigger] after.deadlines.contains_key(sequence) implies {
            &&& after.queries.contains_key(after.deadlines[sequence].fingerprint)
            &&& after.queries[after.deadlines[sequence].fingerprint].sequence == sequence
        } by {
            if sequence != self.next_sequence {
                assert(self.deadlines.contains_key(sequence));
            }
        }
    }

    /// A sweep that has removed `gone` and finds nothing left has removed
    /// all that is due.
    proof fn lemma_sweep_done(self, now: u64, gone: Set<u64>)
        requires
            gone.subset_of(self.due(now)),
            forall|other: u64| !self.deadlines.remove_keys(gone).contains_key(other),
        ensures
            gone == self.due(now),
    {
        assert forall|sequence: u64| self.due(now).contains(sequence) implies gone.contains(
            sequence,
        ) by {
            assert(!self.deadlines.remove_keys(gone).contains_key(sequence));
        }
        assert(gone =~= self.due(now));
    }

    /// A sweep that has removed `gone` and finds that the smallest sequence
    /// left is not due has removed all that is due.
    proof fn lemma_sweep_stops(self, now: u64, gone: Set<u64>, first: u64)
        requires
            gone.subset_of(self.due(now)),
            self.deadlines.contains_key(first),
            !gone.contains(first),
            now < self.deadlines[first].expires_at,
            forall|other: u64| #[trigger]
                self.deadlines.contains_key(other) && !gone.contains(other) ==> first <= other,
        ensures
            gone == self.due(now),
    {
        assert forall|sequence: u64| self.due(now).contains(sequence) implies gone.contains(
            sequence,
        ) by {
            if !gone.contains(sequence) {
                assert(self.deadlines.contains_key(first) && first <= sequence);
            }
        }
        assert(gone =~= self.due(now));
    }

    /// A sweep that has removed `gone` and finds that the smallest sequence
    /// left is due may remove it too.
    proof fn lemma_sweep_step(self, now: u64, gone: Set<u64>, first: u64)
        requires
            self.wf(),
            gone.finite(),
            gone.subset_of(self.due(now)),
            self.deadlines.contains_key(first),
            !gone.contains(first),
            self.deadlines[first].expires_at <= now,
            forall|other: u64| #[trigger]
                self.deadlines.contains_key(other) && !gone.contains(other) ==> first <= other,
        ensures
            gone.insert(first).subset_of(self.due(now)),
            gone.insert(first).len() == gone.len() + 1,
            gone.insert(first).len() <= self.deadlines.dom().len(),
            self.deadlines.remove_keys(gone).remove(first) == self.deadlines.remove_keys(
                gone.insert(first),
            ),
            self.queries.remove_keys(self.fingerprints_of(gone)).remove(
                self.deadlines[first].fingerprint,
            ) == self.queries.remove_keys(self.fingerprints_of(gone.insert(first))),
            self.deadlines.remove_keys(gone.insert(first)).dom().len() < self.deadlines.remove_keys(
                gone,
            ).dom().len(),
    {
        let grown = gone.insert(first);
        let id = self.deadlines[first].fingerprint;
        assert forall|earlier: u64| #[trigger]
            self.deadlines.contains_key(earlier) && earlier
                <= first implies self.deadlines[earlier].expires_at <= now by {
            if gone.contains(earlier) {
                assert(self.due(now).contains(earlier));
            }
        }
        assert(self.due(now).contains(first));
        assert(grown.subset_of(self.deadlines.dom()));
        vstd::set_lib::lemma_len_subset(grown, self.deadlines.dom());
        assert(self.deadlines.remove_keys(gone).remove(first) =~= self.deadlines.remove_keys(
            grown,
        ));
        assert(self.queries.contains_key(id) && self.queries[id].sequence == first);
        assert forall|other: DnsRequestId| #[trigger]
            self.queries.contains_key(other) && self.queries[other].sequence
                == first implies other == id by {
            assert(self.deadlines[self.queries[other].sequence].fingerprint == other);
        }
        assert(self.queries.remove_keys(self.fingerprints_of(gone)).remove(id)
            =~= self.queries.remove_keys(self.fingerprints_of(grown)));
        let left = self.deadlines.remove_keys(gone).dom();
        assert(left =~= self.deadlines.dom().difference(gone));
        assert(left.contains(first));
        assert(self.deadlines.remove_keys(grown).dom() =~= left.remove(first));
    }

    /// A sweep keeps a table well-formed.
    pub proof fn lemma_expire_wf(self, now: u64)
        requires
            self.wf(),
        ensures
            self.expire(now).wf(),
    {
        let after = self.expire(now);
        assert(after.deadlines.dom() =~= self.deadlines.dom().difference(self.due(now)));
        assert forall|id: DnsRequestId| #[trigger] after.queries.contains_key(id) implies {
            &&& after.deadlines.contains_key(after.queries[id].sequence)
            &&& after.deadlines[after.queries[id].sequence].fingerprint == id
        } by {
            assert(self.queries.contains_key(id));
        }
        assert forall|sequence: u64| #[trigger] after.deadlines.contains_key(sequence) implies {
            &&& after.queries.contains_key(after.deadlines[sequence].fingerprint)
            &&& after.queries[after.deadlines[sequence].fingerprint].sequence == sequence
        } by {
            assert(self.deadlines.contains_key(sequence));
        }
    }

    /// Matching an answer keeps a table well-formed.
    pub proof fn lemma_match_answer_wf(self, id: DnsRequestId)
        requires
            self.wf(),
        ensures
            self.match_answer(id).wf(),
    {
        let after = self.match_answer(id);
        if self.queries.contains_key(id) {
            assert forall|other: DnsRequestId| #[trigger]
                after.queries.contains_key(other) implies {
                &&& after.deadlines.contains_key(after.queries[other].sequence)
                &&& after.deadlines[after.queries[other].sequence].fingerprint == other
            } by {
                assert(self.queries.contains_key(other));
                assert(self.deadlines[self.queries[id].sequence].fingerprint == id);
            }
            assert forall|sequence: u64| #[trigger]
                after.deadlines.contains_key(sequence) implies {
                &&& after.queries.contains_key(after.deadlines[sequence].fingerprint)
                &&& after.queries[after.deadlines[sequence].fingerprint].sequence == sequence
            } by {
                assert(self.deadlines.contains_key(sequence));
            }
        }
    }

    /// The entries of the index by fingerprint, each as a fingerprint with
    /// its sequence.
    pub open spec fn entries_by_fingerprint(self) -> Set<(DnsRequestId, u64)> {
        Set::new(
            |entry: (DnsRequestId, u64)|
                self.queries.contains_key(entry.0) && self.queries[entry.0].sequence == entry.1,
        )
    }

    /// The entries of the index by sequence, each as a fingerprint with its
    /// sequence.
    pub open spec fn entries_by_sequence(self) -> Set<(DnsRequestId, u64)> {
        Set::new(
            |entry: (DnsRequestId, u64)|
                self.deadlines.contains_key(entry.1) && self.deadlines[entry.1].fingerprint
                    == entry.0,
        )
    }

    /// Deadlines do not decrease along the sequences.
    pub open spec fn deadlines_ordered(self) -> bool {
        forall|early: u64, late: u64|
            #[trigger] self.deadlines.contains_key(early) && #[trigger] self.deadlines.contains_key(
                late,
            ) && early < late ==> self.deadlines[early].expires_at
                <= self.deadlines[late].expires_at
    }

    /// The empty table is well-formed.
    pub proof fn lemma_empty_wf(ttl: u64)
        ensures
            Table::empty(ttl).wf(),
    {
    }

    /// In a well-formed table both indexes hold exactly the same entries.
    pub proof fn lemma_indexes_hold_same_entries(self)
        requires
            self.wf(),
        ensures
            self.entries_by_fingerprint() == self.entries_by_sequence(),
    {
        assert forall|entry: (DnsRequestId, u64)|
            self.entries_by_fingerprint().contains(entry) <==> self.entries_by_sequence().contains(
                entry,
            ) by {
            if self.queries.contains_key(entry.0) {
                assert(self.deadlines.contains_key(self.queries[entry.0].sequence));
            }
            if self.deadlines.contains_key(entry.1) {
                assert(self.queries.contains_key(self.deadlines[entry.1].fingerprint));
            }
        }
        assert(self.entries_by_fingerprint() =~= self.entries_by_sequence());
    }

    /// An answer matches the query that was recorded under its fingerprint.
    /// The match takes the query out of both indexes, so that a second
    /// answer matches nothing; in a table that held nothing else, nothing is
    /// left.
    pub proof fn lemma_round_trip(self, id: DnsRequestId, query: DnsQueryView)
        requires
            self.wf(),
        ensures
            self.add_query(id, query).matched(id) == Some(query),
            self.add_query(id, query).match_answer(id).matched(id) is None,
            self.add_query(id, query).match_answer(id).queries == self.queries.remove(id),
            !self.add_query(id, query).match_answer(id).deadlines.contains_key(self.next_sequence),
            self.queries.remove(id) == Map::<DnsRequestId, Pending>::empty() ==> self.add_query(
                id,
                query,
            ).match_answer(id).deadlines == Map::<u64, Deadline>::empty(),
    {
        let recorded = self.add_query(id, query);
        let matched = recorded.match_answer(id);
        assert(matched.queries =~= self.queries.remove(id));
        if self.queries.remove(id) == Map::<DnsRequestId, Pending>::empty() {
            assert forall|sequence: u64| !matched.deadlines.contains_key(sequence) by {
                if matched.deadlines.contains_key(sequence) {
                    assert(self.deadlines.contains_key(sequence));
                    let owner = self.deadlines[sequence].fingerprint;
                    assert(self.queries.contains_key(owner));
                    assert(self.queries.remove(id).contains_key(owner));
                }
            }
            assert(matched.deadlines =~= Map::<u64, Deadline>::empty());
        }
    }

    /// Recording a query under one fingerprint leaves what is outstanding
    /// under another as it is.
    pub proof fn lemma_add_query_keeps_others(
        self,
        id: DnsRequestId,
        query: DnsQueryView,
        other: DnsRequestId,
    )
        requires
            other != id,
        ensures
            self.add_query(id, query).matched(other) == self.matched(other),
    {
    }

    /// Matching an answer under one fingerprint leaves what is outstanding
    /// under another as it is.
    pub proof fn lemma_match_answer_keeps_others(self, id: DnsRequestId, other: DnsRequestId)
        requires
            other != id,
        ensures
            self.match_answer(id).matched(other) == self.matched(other),
    {
    }

    /// A sweep leaves an outstanding query as it is unless its sequence is
    /// due.
    pub proof fn lemma_expire_keeps_others(self, now: u64, id: DnsRequestId)
        requires
            self.queries.contains_key(id),
            !self.due(now).contains(self.queries[id].sequence),
        ensures
            self.expire(now).matched(id) == self.matched(id),
    {
    }

    /// An answer under a fingerprint with no outstanding query matches
    /// nothing and changes nothing.
    pub proof fn lemma_unknown_answer(self, id: DnsRequestId)
        requires
            !self.queries.contains_key(id),
        ensures
            self.matched(id) is None,
            self.match_answer(id) == self,
    {
    }

    /// A sweep removes no entry whose deadline lies after `now`.
    pub proof fn lemma_due_reached(self, now: u64, sequence: u64)
        requires
            self.due(now).contains(sequence),
        ensures
            self.deadlines.contains_key(sequence),
            self.deadlines[sequence].expires_at <= now,
    {
    }

    /// A later sweep removes whatever an earlier one would have removed.
    pub proof fn lemma_due_monotone(self, earlier: u64, later: u64)
        requires
            earlier <= later,
        ensures
            self.due(earlier).subset_of(self.due(later)),
    {
        assert forall|sequence: u64| self.due(earlier).contains(sequence) implies self.due(
            later,
        ).contains(sequence) by {
            assert forall|before: u64| #[trigger]
                self.deadlines.contains_key(before) && before
                    <= sequence implies self.deadlines[before].expires_at <= later by {
                assert(self.deadlines[before].expires_at <= earlier);
            }
        }
    }

    /// A sweep after an earlier sweep leaves the table that the later sweep
    /// alone would have left, and the two remove between them what the later
    /// one alone would have removed.
    pub proof fn lemma_expire_twice(self, earlier: u64, later: u64)
        requires
            self.wf(),
            earlier <= later,
        ensures
            self.expire(earlier).expire(later) == self.expire(later),
            self.due(earlier).len() + self.expire(earlier).due(later).len() == self.due(
                later,
            ).len(),
    {
        let first = self.expire(earlier);
        self.lemma_due_monotone(earlier, later);
        assert forall|sequence: u64|
            first.due(later).contains(sequence) <==> self.due(later).contains(sequence)
                && !self.due(earlier).contains(sequence) by {
            if first.due(later).contains(sequence) {
                assert(self.deadlines.contains_key(sequence));
                assert forall|before: u64| #[trigger]
                    self.deadlines.contains_key(before) && before
                        <= sequence implies self.deadlines[before].expires_at <= later by {
                    if self.due(earlier).contains(before) {
                        assert(self.deadlines[before].expires_at <= earlier);
                    } else {
                        assert(first.deadlines.contains_key(before));
                    }
                }
            }
            if self.due(later).contains(sequence) && !self.due(earlier).contains(sequence) {
                assert(first.deadlines.contains_key(sequence));
                assert forall|before: u64| #[trigger]
                    first.deadlines.contains_key(before) && before
                        <= sequence implies first.deadlines[before].expires_at <= later by {
                    assert(self.deadlines.contains_key(before));
                }
            }
        }
        assert(first.due(later) =~= self.due(later).difference(self.due(earlier)));
        assert(first.expire(later).deadlines =~= self.expire(later).deadlines);
        assert(first.expire(later).queries =~= self.expire(later).queries);
        assert(self.due(later).subset_of(self.deadlines.dom()));
        vstd::set_lib::lemma_len_subset(self.due(later), self.deadlines.dom());
        vstd::set_lib::lemma_set_difference_len(self.due(later), self.due(earlier));
        assert(self.due(later).intersect(self.due(earlier)) =~= self.due(earlier));
    }

    /// Where deadlines do not decrease along the sequences, a sweep removes
    /// exactly the entries whose deadline `now` has reached.
    pub proof fn lemma_due_when_ordered(self, now: u64)
        requires
            self.deadlines_ordered(),
        ensures
            self.due(now) == Set::new(
                |sequence: u64|
                    self.deadlines.contains_key(sequence) && self.deadlines[sequence].expires_at
                        <= now,
            ),
    {
        let reached = Set::new(
            |sequence: u64|
                self.deadlines.contains_key(sequence) && self.deadlines[sequence].expires_at
                    <= now,
        );
        assert forall|sequence: u64| reached.contains(sequence) implies self.due(now).contains(
            sequence,
        ) by {
            assert forall|before: u64| #[trigger]
                self.deadlines.contains_key(before) && before
                    <= sequence implies self.deadlines[before].expires_at <= now by {
                if before < sequence {
                    assert(self.deadlines[before].expires_at
                        <= self.deadlines[sequence].expires_at);
                }
            }
        }
        assert(self.due(now) =~= reached);
    }

    /// Timestamps do not decrease along the sequences.
    pub open spec fn timestamps_ordered(self) -> bool {
        forall|early: DnsRequestId, late: DnsRequestId|
            #[trigger] self.queries.contains_key(early) && #[trigger] self.queries.contains_key(
                late,
            ) && self.queries[early].sequence < self.queries[late].sequence
                ==> self.queries[early].query.timestamp <= self.queries[late].query.timestamp
    }

    /// Where the timestamps of the outstanding queries do not decrease along
    /// the sequences, neither do the deadlines: each is its timestamp plus
    /// one and the same time to live.
    pub proof fn lemma_deadlines_follow_timestamps(self)
        requires
            self.wf(),
            self.timestamps_ordered(),
        ensures
            self.deadlines_ordered(),
    {
        assert forall|early: u64, late: u64|
            #[trigger] self.deadlines.contains_key(early) && #[trigger] self.deadlines.contains_key(
                late,
            ) && early < late implies self.deadlines[early].expires_at
            <= self.deadlines[late].expires_at by {
            let first = self.deadlines[early].fingerprint;
            let second = self.deadlines[late].fingerprint;
            assert(self.queries.contains_key(first) && self.queries[first].sequence == early);
            assert(self.queries.contains_key(second) && self.queries[second].sequence == late);
        }
    }

    /// Deadlines stay ordered when a query is recorded whose timestamp is
    /// not earlier than that of any outstanding query.
    pub proof fn lemma_add_query_keeps_order(self, id: DnsRequestId, query: DnsQueryView)
        requires
            self.wf(),
            self.next_sequence < u64::MAX,
            self.deadlines_ordered(),
            forall|other: DnsRequestId| #[trigger]
                self.queries.contains_key(other) ==> self.queries[other].query.timestamp
                    <= query.timestamp,
        ensures
            self.add_query(id, query).deadlines_ordered(),
    {
        let after = self.add_query(id, query);
        assert forall|early: u64, late: u64|
            #[trigger] after.deadlines.contains_key(early) && #[trigger] after.deadlines.contains_key(
                late,
            ) && early < late implies after.deadlines[early].expires_at
            <= after.deadlines[late].expires_at by {
            assert(self.deadlines.contains_key(early));
            if late != self.next_sequence {
                assert(self.deadlines.contains_key(late));
            } else {
                let owner = self.deadlines[early].fingerprint;
                assert(self.queries.contains_key(owner) && self.queries[owner].sequence == early);
            }
        }
    }

    /// Recording a query in a well-formed table leaves the two indexes in
    /// agreement and every deadline kept, whatever the next sequence is.
    pub proof fn lemma_add_query_indexes_agree(self, id: DnsRequestId, query: DnsQueryView)
        requires
            self.wf(),
        ensures
            self.add_query(id, query).indexes_agree(),
            self.add_query(id, query).deadlines_kept(),
            self.add_query(id, query).entries_by_fingerprint() == self.add_query(
                id,
                query,
            ).entries_by_sequence(),
    {
        let after = self.add_query(id, query);
        assert forall|other: DnsRequestId| #[trigger] after.queries.contains_key(other) implies {
            &&& after.deadlines.contains_key(after.queries[other].sequence)
            &&& after.deadlines[after.queries[other].sequence].fingerprint == other
            &&& after.deadlines[after.queries[other].sequence].expires_at
                == after.queries[other].query.timestamp + after.ttl
        } by {
            if other != id {
                assert(self.queries.contains_key(other));
                if self.queries.contains_key(id) {
                    assert(self.deadlines[self.queries[id].sequence].fingerprint == id);
                }
            }
        }
        assert forall|sequence: u64| #[trigger] after.deadlines.contains_key(sequence) implies {
            &&& after.queries.contains_key(after.deadlines[sequence].fingerprint)
            &&& after.queries[after.deadlines[sequence].fingerprint].sequence == sequence
        } by {
            if sequence != self.next_sequence {
                assert(self.deadlines.contains_key(sequence));
            }
        }
        assert forall|entry: (DnsRequestId, u64)|
            after.entries_by_fingerprint().contains(entry) <==> after.entries_by_sequence().contains(
                entry,
            ) by {
            if after.queries.contains_key(entry.0) {
                assert(after.deadlines.contains_key(after.queries[entry.0].sequence));
            }
            if after.deadlines.contains_key(entry.1) {
                assert(after.queries.contains_key(after.deadlines[entry.1].fingerprint));
            }
        }
        assert(after.entries_by_fingerprint() =~= after.entries_by_sequence());
    }

    /// The table after one operation.
    pub open spec fn step(self, operation: Operation) -> Table {
        match operation {
            Operation::AddQuery(id, query) => self.add_query(id, query),
            Operation::MatchAnswer(id) => self.match_answer(id),
            Operation::Expire(now) => self.expire(now),
        }
    }

    /// The table after a sequence of operations, the first of them first.
    pub open spec fn after_all(self, operations: Seq<Operation>) -> Table
        decreases operations.len(),
    {
        if operations.len() == 0 {
            self
        } else {
            self.after_all(operations.drop_last()).step(operations.last())
        }
    }

    /// Whether an operation leaves alone what is outstanding under `id`: it
    /// records or matches under another fingerprint, or it is a sweep for
    /// which the query under `id` is not due.
    pub open spec fn spares(self, operation: Operation, id: DnsRequestId) -> bool {
        match operation {
            Operation::AddQuery(other, _) => other != id,
            Operation::MatchAnswer(other) => other != id,
            Operation::Expire(now) => self.queries.contains_key(id) ==> !self.due(now).contains(
                self.queries[id].sequence,
            ),
        }
    }

    /// Whether each operation of a sequence, in the table that it meets,
    /// leaves alone what is outstanding under `id`.
    pub open spec fn all_spare(self, operations: Seq<Operation>, id: DnsRequestId) -> bool
        decreases operations.len(),
    {
        operations.len() == 0 || (self.all_spare(operations.drop_last(), id) && self.after_all(
            operations.drop_last(),
        ).spares(operations.last(), id))
    }

    /// Any sequence of operations keeps a table well-formed, so that both
    /// indexes hold exactly the same entries after it. No operation changes
    /// the time that a query may stay outstanding, and each gives out at most
    /// one sequence.
    pub proof fn lemma_any_sequence_wf(self, operations: Seq<Operation>)
        requires
            self.wf(),
            self.next_sequence + operations.len() <= u64::MAX,
        ensures
            self.after_all(operations).wf(),
            self.after_all(operations).entries_by_fingerprint() == self.after_all(
                operations,
            ).entries_by_sequence(),
            self.after_all(operations).ttl == self.ttl,
            self.next_sequence <= self.after_all(operations).next_sequence <= self.next_sequence
                + operations.len(),
        decreases operations.len(),
    {
        if operations.len() > 0 {
            let earlier = self.after_all(operations.drop_last());
            self.lemma_any_sequence_wf(operations.drop_last());
            match operations.last() {
                Operation::AddQuery(id, query) => earlier.lemma_add_query_wf(id, query),
                Operation::MatchAnswer(id) => earlier.lemma_match_answer_wf(id),
                Operation::Expire(now) => earlier.lemma_expire_wf(now),
            }
        }
        self.after_all(operations).lemma_indexes_hold_same_entries();
    }

    /// A recorded query stays outstanding through every sequence of
    /// operations that leaves its fingerprint alone. The answer that follows
    /// matches it and takes it out of the table, and a second answer matches
    /// nothing.
    pub proof fn lemma_round_trip_after(
        self,
        id: DnsRequestId,
        query: DnsQueryView,
        operations: Seq<Operation>,
    )
        requires
            self.add_query(id, query).all_spare(operations, id),
        ensures
            self.add_query(id, query).after_all(operations).matched(id) == Some(query),
            self.add_query(id, query).after_all(operations).match_answer(id).matched(id) is None,
        decreases operations.len(),
    {
        if operations.len() > 0 {
            self.lemma_round_trip_after(id, query, operations.drop_last());
        }
    }

    /// Matching an answer keeps deadlines ordered.
    pub proof fn lemma_match_answer_keeps_order(self, id: DnsRequestId)
        requires
            self.deadlines_ordered(),
        ensures
            self.match_answer(id).deadlines_ordered(),
    {
        let after = self.match_answer(id);
        assert forall|early: u64, late: u64|
            #[trigger] after.deadlines.contains_key(early) && #[trigger] after.deadlines.contains_key(
                late,
            ) && early < late implies after.deadlines[early].expires_at
            <= after.deadlines[late].expires_at by {
            assert(self.deadlines.contains_key(early) && self.deadlines.contains_key(late));
        }
    }

    /// A sweep keeps deadlines ordered.
    pub proof fn lemma_expire_keeps_order(self, now: u64)
        requires
            self.deadlines_ordered(),
        ensures
            self.expire(now).deadlines_ordered(),
    {
        let after = self.expire(now);
        assert forall|early: u64, late: u64|
            #[trigger] after.deadlines.contains_key(early) && #[trigger] after.deadlines.contains_key(
                late,
            ) && early < late implies after.deadlines[early].expires_at
            <= after.deadlines[late].expires_at by {
            assert(self.deadlines.contains_key(early) && self.deadlines.contains_key(late));
        }
    }

    /// A query that is alone in its table is swept exactly when its deadline
    /// has been reached, and the sweep leaves nothing behind.
    pub proof fn lemma_lone_query_expires(ttl: u64, id: DnsRequestId, query: DnsQueryView, now: u64)
        ensures
            query.timestamp + ttl <= now ==> {
                &&& Table::empty(ttl).add_query(id, query).due(now).len() == 1
                &&& Table::empty(ttl).add_query(id, query).expire(now).queries == Map::<
                    DnsRequestId,
                    Pending,
                >::empty()
                &&& Table::empty(ttl).add_query(id, query).expire(now).deadlines == Map::<
                    u64,
                    Deadline,
                >::empty()
            },
            query.timestamp + ttl > now ==> {
                &&& Table::empty(ttl).add_query(id, query).due(now).len() == 0
                &&& Table::empty(ttl).add_query(id, query).expire(now) == Table::empty(
                    ttl,
                ).add_query(id, query)
            },
    {
        let table = Table::empty(ttl).add_query(id, query);
        assert(table.deadlines.contains_key(0));
        if query.timestamp + ttl <= now {
            assert(table.due(now) =~= set![0u64]);
            assert(table.expire(now).queries =~= Map::<DnsRequestId, Pending>::empty());
            assert(table.expire(now).deadlines =~= Map::<u64, Deadline>::empty());
        } else {
            assert(table.due(now) =~= Set::<u64>::empty());
            assert(table.due_fingerprints(now) =~= Set::<DnsRequestId>::empty());
            assert(table.expire(now).queries =~= table.queries);
            assert(table.expire(now).deadlines =~= table.deadlines);
        }
    }
}

} // verus!
