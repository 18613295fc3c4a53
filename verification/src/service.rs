//! The tier manager: owns the durable log and both tiers, accepts documents,
//! runs the flush protocol and answers merged queries.
use vstd::prelude::*;
use vstd::multiset::Multiset;

use crate::Error;
use crate::engine::SearchIndex;
use crate::engine::doc_ok;
use crate::engine::query_ok;
use crate::log::log_append;
use crate::log::log_clear;
use crate::log::log_entries;
use crate::log::log_open;
use crate::log::log_pop_last;
use crate::log::log_read_all;
use crate::merge::Hit;
use crate::merge::lemma_to_multiset_of_empty;
use crate::merge::merge_hits;
use crate::merge::sorted_desc;
use crate::model::TierState;
use crate::model::add_result;
use crate::model::logged_state;

verus! {

/// The default flush threshold: how many documents the mutable tier may
/// reach before the logged batch migrates into the immutable tier.
pub const MAX_IN_MEMORY_DOC: usize = 5000;

/// The document search service: a disk-backed immutable tier, an in-memory
/// mutable tier, the durable log that backs the mutable tier, and the flush
/// threshold.
pub struct SearchService {
    disk_index: SearchIndex,
    memory_index: SearchIndex,
    store: pickledb::PickleDb,
    threshold: usize,
    opened_fresh: bool,
}

impl SearchService {
    /// The durable log's entries, in append order.
    pub closed spec fn log(self) -> Seq<Seq<char>> {
        log_entries(self.store)
    }

    /// The service's observable state: mutable tier, log, immutable tier.
    pub closed spec fn model(self) -> TierState {
        TierState {
            mem: self.memory_index.visible(),
            log: self.log(),
            disk: self.disk_index.visible(),
        }
    }

    /// The configured flush threshold.
    pub closed spec fn spec_threshold(self) -> usize {
        self.threshold
    }

    /// The hits the mutable tier returns for a query text and a positive cap.
    pub closed spec fn mutable_hits(self, q: Seq<char>, limit: nat) -> Seq<Hit> {
        self.memory_index.hits(q, limit)
    }

    /// The hits the immutable tier returns for a query text and a positive cap.
    pub closed spec fn immutable_hits(self, q: Seq<char>, limit: nat) -> Seq<Hit> {
        self.disk_index.hits(q, limit)
    }

    /// Whether the service was opened over a directory holding neither an
    /// index nor a log file, so that it started with empty tiers and an
    /// empty log.
    pub closed spec fn spec_opened_fresh(self) -> bool {
        self.opened_fresh
    }

    /// Well-formedness: the tiers have their variants, nothing is left staged
    /// in either engine, the mutable tier holds exactly the logged documents
    /// and counts them, every logged document satisfies the schema (it was
    /// validated before it was appended), and the threshold is positive.
    pub closed spec fn wf(self) -> bool {
        &&& self.memory_index.in_memory()
        &&& !self.disk_index.in_memory()
        &&& self.memory_index.inv()
        &&& self.memory_index.staged() == Multiset::<Seq<char>>::empty()
        &&& self.disk_index.staged() == Multiset::<Seq<char>>::empty()
        &&& self.memory_index.visible() == self.log().to_multiset()
        &&& self.memory_index.count() == self.log().len()
        &&& forall|k: int| 0 <= k < self.log().len() ==> doc_ok(#[trigger] self.log()[k])
        &&& self.threshold >= 1
    }

    /// Opens the service over a storage directory with the default threshold;
    /// the directory must exist. Replays every logged document into the
    /// mutable tier, so each is searchable at once.
    pub fn new(path: &str) -> (r: Result<SearchService, Error>)
        ensures
            r is Ok ==> r->Ok_0.wf(),
            r is Ok ==> r->Ok_0.spec_threshold() == MAX_IN_MEMORY_DOC,
            r is Ok ==> r->Ok_0.model().mem == r->Ok_0.model().log.to_multiset(),
            r is Ok && r->Ok_0.spec_opened_fresh() ==> r->Ok_0.model().disk.len() == 0
                && r->Ok_0.model().log.len() == 0,
            r is Err ==> r->Err_0 is StorageIo || r->Err_0 is MalformedDocument,
    {
        Self::with_threshold(path, MAX_IN_MEMORY_DOC)
    }

    /// Opens the service over a storage directory, which must exist: opens or
    /// creates the immutable tier's index there and the durable log file, and
    /// replays every logged document, in order, into a fresh mutable tier.
    ///
    /// On success the mutable tier holds exactly the logged documents, so a
    /// log written before a restart is searchable without further action.
    /// Fails if the log holds a document the schema rejects, leaving nothing
    /// replayed into any tier.
    pub fn with_threshold(path: &str, threshold: usize) -> (r: Result<SearchService, Error>)
        requires
            threshold >= 1,
        ensures
            r is Ok ==> r->Ok_0.wf(),
            r is Ok ==> r->Ok_0.spec_threshold() == threshold,
            r is Ok ==> r->Ok_0.model().mem == r->Ok_0.model().log.to_multiset(),
            r is Ok && r->Ok_0.spec_opened_fresh() ==> r->Ok_0.model().disk.len() == 0
                && r->Ok_0.model().log.len() == 0,
            r is Err ==> r->Err_0 is StorageIo || r->Err_0 is MalformedDocument,
    {
        let disk_index = SearchIndex::new(Some(path))?;
        let mut memory_index = SearchIndex::new(None)?;
        let (store, log_fresh) = log_open(path)?;
        let opened_fresh = disk_index.is_fresh() && log_fresh;
        let entries = match log_read_all(&store) {
            Ok(v) => v,
            Err(e) => {
                return Err(e);
            },
        };
        let ghost docs = entries@.map_values(|s: String| s@);
        proof {
            lemma_to_multiset_of_empty::<Seq<char>>(docs.take(0));
        }
        let mut i: usize = 0;
        while i < entries.len()
            invariant
                i <= entries@.len(),
                docs == entries@.map_values(|s: String| s@),
                docs == log_entries(store),
                memory_index.inv(),
                memory_index.in_memory(),
                memory_index.staged() == Multiset::<Seq<char>>::empty(),
                memory_index.visible() == docs.take(i as int).to_multiset(),
                memory_index.count() == i,
                forall|j: int| 0 <= j < i ==> doc_ok(#[trigger] docs[j]),
            decreases entries@.len() - i,
        {
            let ghost prev = docs.take(i as int);
            match memory_index.add_doc(entries[i].as_str()) {
                Ok(()) => {},
                Err(e) => {
                    return Err(e);
                },
            }
            proof {
                assert(entries@[i as int]@ == docs[i as int]);
                assert(docs.take(i + 1) =~= prev.push(docs[i as int]));
                vstd::seq_lib::to_multiset_build(prev, docs[i as int]);
            }
            i = i + 1;
        }
        proof {
            assert(docs.take(entries@.len() as int) =~= docs);
        }
        Ok(SearchService { disk_index, memory_index, store, threshold, opened_fresh })
    }

    /// Accepts one serialized document: validates it against the schema,
    /// appends it durably to the log, adds it to the mutable tier, and, if
    /// the mutable tier thereby reaches the threshold, migrates the whole
    /// logged batch into the immutable tier before returning.
    ///
    /// A document the schema rejects is reported as malformed, exactly then,
    /// with the service unchanged. An add below the threshold never touches
    /// the immutable tier, success or failure, and on any failure the log
    /// holds at most the attempted entry beyond its old state, or was
    /// truncated by the failing flush. Beyond that a storage failure leaves
    /// the state unspecified and the service should be abandoned, as a
    /// failed flush is fatal.
    pub fn add_doc(&mut self, doc: &str) -> (r: Result<(), Error>)
        requires
            old(self).wf(),
        ensures
            final(self).spec_threshold() == old(self).spec_threshold(),
            r is Ok ==> final(self).wf(),
            r is Ok ==> doc_ok(doc@),
            r is Ok ==> final(self).model() == add_result(
                old(self).model(),
                doc@,
                old(self).spec_threshold() as nat,
            ),
            !doc_ok(doc@) <==> r is Err && r->Err_0 is MalformedDocument,
            r is Err && r->Err_0 is MalformedDocument ==> final(self).wf() && final(self).model()
                == old(self).model(),
            r is Err ==> r->Err_0 is MalformedDocument || r->Err_0 is StorageIo,
            old(self).model().log.len() + 1 < old(self).spec_threshold()
                ==> final(self).model().disk == old(self).model().disk,
            r is Err ==> final(self).model().log == old(self).model().log
                || final(self).model().log == old(self).model().log.push(doc@)
                || final(self).model().log.len() == 0,
            doc_ok(doc@) && old(self).model().log.len() == usize::MAX ==> r is Err && r->Err_0
                is StorageIo && final(self).model() == old(self).model() && final(self).wf(),
    {
        if !self.memory_index.validate_doc(doc) {
            return Err(Error::MalformedDocument);
        }
        if self.memory_index.num_docs() == usize::MAX {
            return Err(Error::StorageIo);
        }
        if !log_append(&mut self.store, doc) {
            return Err(Error::StorageIo);
        }
        match self.memory_index.add_doc(doc) {
            Ok(()) => {},
            Err(e) => {
                // Undo the append, so that a document whose add failed is
                // not replayed as accepted; past this point the entry is
                // covered by the add or migrated by the flush.
                let _restored = log_pop_last(&mut self.store);
                proof {
                    assert(old(self).log().push(doc@).drop_last() =~= old(self).log());
                }
                return Err(e);
            },
        }
        proof {
            vstd::seq_lib::to_multiset_build(old(self).log(), doc@);
            assert(self.model() == logged_state(old(self).model(), doc@));
            assert(self.wf());
        }
        if self.memory_index.num_docs() >= self.threshold {
            match self.flush() {
                Ok(()) => {},
                Err(e) => {
                    return Err(e);
                },
            }
            proof {
                assert(final(self).model() == add_result(
                    old(self).model(),
                    doc@,
                    old(self).spec_threshold() as nat,
                ));
            }
        }
        Ok(())
    }

    /// Migrates the logged batch: reads every log entry in order, stages each
    /// in the immutable tier, publishes them with one commit, and only then
    /// clears the mutable tier and truncates the log. Committing before
    /// clearing means a stop right after the commit loses nothing: replay
    /// plus the committed batch still hold every document.
    ///
    /// Every logged document satisfies the schema (the service validates
    /// before appending), so the migration cannot reject one. On a storage
    /// failure the log still holds its old entries or was already truncated;
    /// beyond that the state is not specified and such a failure is fatal.
    pub fn flush(&mut self) -> (r: Result<(), Error>)
        requires
            old(self).wf(),
        ensures
            final(self).spec_threshold() == old(self).spec_threshold(),
            r is Ok ==> final(self).wf(),
            r is Ok ==> final(self).model() == (TierState {
                mem: Multiset::<Seq<char>>::empty(),
                log: Seq::<Seq<char>>::empty(),
                disk: old(self).model().disk.add(old(self).model().log.to_multiset()),
            }),
            r is Err ==> r->Err_0 is StorageIo,
            r is Err ==> final(self).model().log == old(self).model().log
                || final(self).model().log.len() == 0,
    {
        let entries = match log_read_all(&self.store) {
            Ok(v) => v,
            Err(e) => {
                return Err(e);
            },
        };
        let ghost docs = entries@.map_values(|s: String| s@);
        proof {
            lemma_to_multiset_of_empty::<Seq<char>>(docs.take(0));
        }
        let mut i: usize = 0;
        while i < entries.len()
            invariant
                i <= entries@.len(),
                docs == entries@.map_values(|s: String| s@),
                docs == log_entries(old(self).store),
                old(self).wf(),
                forall|j: int| 0 <= j < entries@.len() ==> doc_ok(#[trigger] docs[j]),
                self.memory_index == old(self).memory_index,
                self.store == old(self).store,
                self.threshold == old(self).threshold,
                !self.disk_index.in_memory(),
                self.disk_index.staged() == docs.take(i as int).to_multiset(),
                self.disk_index.visible() == old(self).disk_index.visible(),
            decreases entries@.len() - i,
        {
            let ghost prev = docs.take(i as int);
            match self.disk_index.add_doc(entries[i].as_str()) {
                Ok(()) => {},
                Err(e) => {
                    proof {
                        assert(entries@[i as int]@ == docs[i as int]);
                        assert(!(e is MalformedDocument));
                    }
                    return Err(e);
                },
            }
            proof {
                assert(entries@[i as int]@ == docs[i as int]);
                assert(docs.take(i + 1) =~= prev.push(docs[i as int]));
                vstd::seq_lib::to_multiset_build(prev, docs[i as int]);
            }
            i = i + 1;
        }
        proof {
            assert(docs.take(entries@.len() as int) =~= docs);
        }
        match self.disk_index.commit() {
            Ok(()) => {},
            Err(e) => {
                return Err(e);
            },
        }
        match self.clear_mutable() {
            Ok(()) => {},
            Err(e) => {
                return Err(e);
            },
        }
        match log_clear(&mut self.store) {
            Ok(()) => {},
            Err(_) => {
                return Err(Error::StorageIo);
            },
        }
        proof {
            lemma_to_multiset_of_empty::<Seq<char>>(Seq::<Seq<char>>::empty());
            assert(self.log() =~= Seq::<Seq<char>>::empty());
            assert(self.model().mem =~= Multiset::<Seq<char>>::empty());
            assert(self.wf());
            assert(self.model().disk == old(self).model().disk.add(
                old(self).model().log.to_multiset(),
            ));
        }
        Ok(())
    }

    /// Removes all documents from the mutable tier's index only, resetting
    /// its count; invoked solely as the clearing step of `flush`.
    fn clear_mutable(&mut self) -> (r: Result<(), Error>)
        requires
            old(self).memory_index.staged() == Multiset::<Seq<char>>::empty(),
        ensures
            final(self).disk_index == old(self).disk_index,
            final(self).store == old(self).store,
            final(self).threshold == old(self).threshold,
            final(self).memory_index.in_memory() == old(self).memory_index.in_memory(),
            r is Ok ==> {
                &&& final(self).memory_index.visible() == Multiset::<Seq<char>>::empty()
                &&& final(self).memory_index.staged() == Multiset::<Seq<char>>::empty()
                &&& final(self).memory_index.count() == 0
            },
            r is Err ==> r->Err_0 is StorageIo,
    {
        self.memory_index.clear()
    }

    /// Answers a query: searches both tiers independently, each capped at
    /// `limit`, and merges the hits by weakly decreasing score, capped at
    /// `limit`: the result holds the `limit` best of the two tiers' hit
    /// lists together, any hit left out scoring no higher than any kept.
    /// The offset is accepted but not applied to the merged sequence. An
    /// invalid query is rejected whatever the cap; if both tiers are empty
    /// there are no hits.
    pub fn search(&self, query_str: &str, offset: usize, limit: usize) -> (r: Result<
        Vec<Hit>,
        Error,
    >)
        ensures
            r is Ok ==> r->Ok_0@.len() <= limit,
            r is Ok ==> sorted_desc(r->Ok_0@),
            r is Ok && self.model().mem.len() == 0 && self.model().disk.len() == 0 ==> r->Ok_0@.len()
                == 0,
            r is Ok && limit >= 1 ==> {
                let mem_hits = self.mutable_hits(query_str@, limit as nat);
                let disk_hits = self.immutable_hits(query_str@, limit as nat);
                &&& r->Ok_0@ == crate::merge::top_hits_spec(mem_hits + disk_hits, limit as nat)
                &&& r->Ok_0@.len() == vstd::math::min(
                    limit as int,
                    (mem_hits.len() + disk_hits.len()) as int,
                )
                &&& r->Ok_0@.to_multiset().subset_of(
                    mem_hits.to_multiset().add(disk_hits.to_multiset()),
                )
                &&& forall|x: Hit|
                    r->Ok_0@.to_multiset().count(x) < mem_hits.to_multiset().add(
                        disk_hits.to_multiset(),
                    ).count(x) ==> forall|i: int|
                        0 <= i < r->Ok_0@.len() ==> (#[trigger] r->Ok_0@[i]).score >= x.score
            },
            !query_ok(query_str@) ==> r is Err && r->Err_0 is QueryParseError,
            r is Err && r->Err_0 is QueryParseError ==> !query_ok(query_str@),
            r is Err ==> r->Err_0 is QueryParseError || r->Err_0 is StorageIo,
            limit == 0 && query_ok(query_str@) ==> r is Ok && r->Ok_0@.len() == 0,
    {
        let mem_hits = match self.memory_index.search(query_str, offset, limit) {
            Ok(v) => v,
            Err(e) => {
                return Err(e);
            },
        };
        let disk_hits = match self.disk_index.search(query_str, offset, limit) {
            Ok(v) => v,
            Err(e) => {
                return Err(e);
            },
        };
        Ok(merge_hits(mem_hits, disk_hits, limit))
    }

    /// Answers a query against the mutable tier alone, capped at `limit`.
    /// Right after a flush the mutable tier is empty, so this yields no hits.
    pub fn search_mutable(&self, query_str: &str, offset: usize, limit: usize) -> (r: Result<
        Vec<Hit>,
        Error,
    >)
        ensures
            r is Ok ==> r->Ok_0@.len() <= limit,
            r is Ok ==> sorted_desc(r->Ok_0@),
            r is Ok && self.model().mem.len() == 0 ==> r->Ok_0@.len() == 0,
            r is Ok && limit >= 1 ==> r->Ok_0@ == self.mutable_hits(query_str@, limit as nat),
            !query_ok(query_str@) ==> r is Err && r->Err_0 is QueryParseError,
            r is Err && r->Err_0 is QueryParseError ==> !query_ok(query_str@),
            r is Err ==> r->Err_0 is QueryParseError || r->Err_0 is StorageIo,
            limit == 0 && query_ok(query_str@) ==> r is Ok && r->Ok_0@.len() == 0,
    {
        self.memory_index.search(query_str, offset, limit)
    }

    /// The mutable tier's document count.
    pub closed spec fn spec_mutable_count(self) -> usize {
        self.memory_index.count()
    }

    /// How many documents the mutable tier holds; under a well-formed
    /// service this is the number of logged documents.
    pub fn mutable_count(&self) -> (r: usize)
        ensures
            r == self.spec_mutable_count(),
            self.wf() ==> r == self.model().log.len(),
    {
        self.memory_index.num_docs()
    }

    /// How many documents the immutable tier's searches see.
    pub fn immutable_count(&self) -> (r: Result<u64, Error>)
        ensures
            r is Ok ==> r->Ok_0 as nat == self.model().disk.len(),
            r is Err ==> r->Err_0 is StorageIo,
    {
        self.disk_index.visible_count()
    }

    /// Whether the service started over a directory holding neither an index
    /// nor a log file.
    pub fn opened_fresh(&self) -> (r: bool)
        ensures
            r == self.spec_opened_fresh(),
    {
        self.opened_fresh
    }

    /// The configured flush threshold.
    pub fn flush_threshold(&self) -> (r: usize)
        ensures
            r == self.spec_threshold(),
    {
        self.threshold
    }
}

} // verus!
