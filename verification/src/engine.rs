//! The indexing-engine adapter: one full-text index per tier.
//!
//! The engine itself is an outside capability. Its state is modelled by two
//! named document multisets, `engine_staged` (added, not yet published) and
//! `engine_visible` (published to search), and every call into it goes through
//! a trusted wrapper whose contract speaks over those names.
use vstd::prelude::*;
use vstd::multiset::Multiset;

use tantivy::Index;
use tantivy::collector::TopDocs;
use tantivy::directory::MmapDirectory;
use tantivy::query::QueryParser;
use tantivy::schema::FAST;
use tantivy::schema::Field;
use tantivy::schema::STORED;
use tantivy::schema::Schema;
use tantivy::schema::TEXT;

use crate::Error;
use crate::merge::Hit;
use crate::merge::sorted_desc;

verus! {

/// One full-text index under the fixed document schema
/// {id, title, poster, overview, release_date}, together with its writer.
///
/// The fields are an outside crate's index handle, its writer and its schema;
/// the struct is opaque to verification and is read only through the named
/// spec functions below. Publishing (`commit`) changes what a search sees
/// without handing out a new handle, so the whole engine is modelled as one
/// opaque value that the wrappers take `&mut`.
#[verifier::external_body]
pub struct Engine {
    schema: Schema,
    index: Index,
    writer: tantivy::IndexWriter,
    search_fields: Vec<Field>,
    dead: bool,
}

/// The documents added to the engine but not yet published to search.
pub uninterp spec fn engine_staged(e: Engine) -> Multiset<Seq<char>>;

/// The documents the engine's searches see.
pub uninterp spec fn engine_visible(e: Engine) -> Multiset<Seq<char>>;

/// Whether a serialized document satisfies the fixed schema. The schema is
/// the same for every engine, so this depends on the document text alone.
pub uninterp spec fn doc_ok(d: Seq<char>) -> bool;

/// Whether a query text is valid query syntax over the fixed schema and the
/// default search fields; this depends on the query text alone.
pub uninterp spec fn query_ok(q: Seq<char>) -> bool;

/// The hits the engine returns for a query text and a positive cap: each an
/// order key for the non-negative relevance score and the stored fields as
/// one text record, best first. The engine's search is a function of the
/// engine's own state, the query text and the cap alone.
pub uninterp spec fn engine_hits(e: Engine, q: Seq<char>, limit: nat) -> Seq<Hit>;

/// The outside schema type: the fixed field layout both tiers share.
#[verifier::external_type_specification]
#[verifier::external_body]
pub struct ExSchema(Schema);

/// The outside field handle used to address a schema field in a query.
#[verifier::external_type_specification]
#[verifier::external_body]
pub struct ExField(Field);

/// Builds the fixed document schema.
///
/// Relies on tantivy's `SchemaBuilder`: the text fields are indexed and
/// stored, the poster is stored only, the release date is a stored, sortable
/// integer.
#[verifier::external_body]
fn build_schema() -> Schema {
    let mut builder = Schema::builder();
    builder.add_text_field("id", TEXT | STORED);
    builder.add_text_field("title", TEXT | STORED);
    builder.add_text_field("poster", STORED);
    builder.add_text_field("overview", TEXT | STORED);
    builder.add_i64_field("release_date", STORED | FAST);
    builder.build()
}

/// Looks up the default search fields in the schema.
///
/// Relies on tantivy's `Schema::get_field`; the fields exist in the fixed
/// schema by construction.
#[verifier::external_body]
fn default_fields(schema: &Schema) -> Result<Vec<Field>, Error> {
    let title = schema.get_field("title").ok_or(Error::StorageIo)?;
    let overview = schema.get_field("overview").ok_or(Error::StorageIo)?;
    Ok(vec![title, overview])
}

/// Opens a fresh in-memory engine, which holds nothing.
///
/// Relies on tantivy's `Index::create_in_ram` and `Index::writer`: a newly
/// created index has no documents and a fresh writer has nothing staged.
#[verifier::external_body]
fn engine_new_in_ram() -> (r: Result<Engine, Error>)
    ensures
        r is Ok ==> engine_staged(r->Ok_0) == Multiset::<Seq<char>>::empty(),
        r is Ok ==> engine_visible(r->Ok_0) == Multiset::<Seq<char>>::empty(),
        r is Err ==> r->Err_0 is StorageIo,
{
    let schema = build_schema();
    let index = Index::create_in_ram(schema.clone());
    let writer = index.writer(20_000_000).map_err(|_| Error::StorageIo)?;
    let search_fields = default_fields(&schema)?;
    Ok(Engine { schema, index, writer, search_fields, dead: false })
}

/// Opens the engine over an existing directory, creating the index there if
/// none is present; what is already committed on disk stays visible. The
/// returned flag says whether the index was created afresh, in which case
/// nothing is visible yet.
///
/// Relies on tantivy's `Index::exists` (whether the directory holds an
/// index), `Index::open_or_create` and `Index::writer`: a freshly created
/// index has no documents and a fresh writer has nothing staged.
#[verifier::external_body]
fn engine_open_dir(path: &str) -> (r: Result<(Engine, bool), Error>)
    ensures
        r is Ok ==> engine_staged(r->Ok_0.0) == Multiset::<Seq<char>>::empty(),
        r is Ok && r->Ok_0.1 ==> engine_visible(r->Ok_0.0) == Multiset::<Seq<char>>::empty(),
        r is Err ==> r->Err_0 is StorageIo,
{
    let schema = build_schema();
    let dir = MmapDirectory::open(path).map_err(|_| Error::StorageIo)?;
    let fresh = !Index::exists(&dir).map_err(|_| Error::StorageIo)?;
    let index = Index::open_or_create(dir, schema.clone()).map_err(|_| Error::StorageIo)?;
    let writer = index.writer(20_000_000).map_err(|_| Error::StorageIo)?;
    let search_fields = default_fields(&schema)?;
    Ok((Engine { schema, index, writer, search_fields, dead: false }, fresh))
}

/// Whether the document satisfies the schema, without staging it.
///
/// Relies on tantivy's `Schema::parse_document`, which validates a serialized
/// document against the schema and depends on the document text alone.
#[verifier::external_body]
fn engine_validate(e: &Engine, doc: &str) -> (r: bool)
    ensures
        r == doc_ok(doc@),
{
    e.schema.parse_document(doc).is_ok()
}

/// Stages one document. On success the document joins the staged set; on
/// failure nothing changes, and the malformed-document failure comes exactly
/// when the document does not satisfy the schema.
///
/// Relies on tantivy's `Schema::parse_document` (validation, depending on the
/// document text alone) and `IndexWriter::add_document` (staging; visibility
/// waits for a commit).
#[verifier::external_body]
fn engine_add(e: &mut Engine, doc: &str) -> (r: Result<(), Error>)
    ensures
        r is Ok ==> engine_staged(*final(e)) == engine_staged(*old(e)).insert(doc@),
        r is Ok ==> doc_ok(doc@),
        r is Err ==> engine_staged(*final(e)) == engine_staged(*old(e)),
        engine_visible(*final(e)) == engine_visible(*old(e)),
        !doc_ok(doc@) ==> r is Err && r->Err_0 is MalformedDocument,
        r is Err && r->Err_0 is MalformedDocument ==> !doc_ok(doc@),
        r is Err ==> r->Err_0 is MalformedDocument || r->Err_0 is StorageIo,
{
    let parsed = e.schema.parse_document(doc).map_err(|_| Error::MalformedDocument)?;
    e.writer.add_document(parsed).map_err(|_| Error::StorageIo)?;
    Ok(())
}

/// Publishes the staged documents: on success they all become visible to
/// search and nothing is staged any more. On failure the engine's state is
/// not known; the caller treats that as fatal.
///
/// Relies on tantivy's `IndexWriter::commit`: after it returns, all documents
/// added since the last commit are published and persisted.
#[verifier::external_body]
fn engine_commit(e: &mut Engine) -> (r: Result<(), Error>)
    ensures
        r is Ok ==> engine_visible(*final(e)) == engine_visible(*old(e)).add(engine_staged(*old(e))),
        r is Ok ==> engine_staged(*final(e)) == Multiset::<Seq<char>>::empty(),
        r is Err ==> r->Err_0 is StorageIo,
{
    e.writer.commit().map_err(|_| Error::StorageIo)?;
    Ok(())
}

/// Empties the engine: on success nothing is visible and nothing is staged.
///
/// Relies on tantivy's `IndexWriter::delete_all_documents` followed by
/// `IndexWriter::commit`, which together empty the index. A failed publish
/// is undone with `IndexWriter::rollback`, so the emptied segment registry
/// never survives into a later commit: after a successful rollback the
/// writer is back at the last commit, and after a failed one the segment
/// updater is killed, every later commit fails, and the flag set here keeps
/// a later clear from rolling back twice (the writer's directory lock is
/// gone, and a second rollback would panic on it).
#[verifier::external_body]
fn engine_clear(e: &mut Engine) -> (r: Result<(), Error>)
    requires
        engine_staged(*old(e)) == Multiset::<Seq<char>>::empty(),
    ensures
        r is Ok ==> engine_visible(*final(e)) == Multiset::<Seq<char>>::empty(),
        r is Ok ==> engine_staged(*final(e)) == Multiset::<Seq<char>>::empty(),
        r is Err ==> r->Err_0 is StorageIo,
{
    if e.dead {
        return Err(Error::StorageIo);
    }
    e.writer.delete_all_documents().map_err(|_| Error::StorageIo)?;
    match e.writer.commit() {
        Ok(_) => Ok(()),
        Err(_) => {
            if e.writer.rollback().is_err() {
                e.dead = true;
            }
            Err(Error::StorageIo)
        },
    }
}

/// Whether the query text is valid query syntax, without searching.
///
/// Relies on tantivy's `QueryParser::parse_query`, whose verdict depends on
/// the query text alone, the schema and default fields being fixed.
#[verifier::external_body]
fn engine_query_valid(e: &Engine, query: &str) -> (r: bool)
    ensures
        r == query_ok(query@),
{
    let parser = QueryParser::for_index(&e.index, e.search_fields.clone());
    parser.parse_query(query).is_ok()
}

/// How many documents the engine's searches see.
///
/// Relies on tantivy's `Searcher::num_docs`: the number of documents
/// committed and not deleted.
#[verifier::external_body]
fn engine_count(e: &Engine) -> (r: Result<u64, Error>)
    ensures
        r is Ok ==> r->Ok_0 as nat == engine_visible(*e).len(),
        r is Err ==> r->Err_0 is StorageIo,
{
    let reader = e.index.reader().map_err(|_| Error::StorageIo)?;
    Ok(reader.searcher().num_docs())
}

/// Searches the visible documents: parses the query over the default search
/// fields and returns at most `limit` hits, best first. The query-parse
/// failure comes exactly when the query text is invalid; an empty engine
/// yields no hits.
///
/// Relies on tantivy's `QueryParser::parse_query` (validity depends on the
/// query text alone, the schema and default fields being fixed),
/// `Searcher::search` with the `TopDocs` collector (at most `limit` hits,
/// sorted by weakly decreasing score; relevance scores are non-negative, so
/// their bit patterns compare like the scores themselves), and
/// `Searcher::doc` with `Schema::to_named_doc` for the stored fields.
#[verifier::external_body]
fn engine_search(e: &Engine, query: &str, limit: usize) -> (r: Result<Vec<Hit>, Error>)
    requires
        limit >= 1,
    ensures
        r is Ok ==> r->Ok_0@.len() <= limit,
        r is Ok ==> sorted_desc(r->Ok_0@),
        r is Ok && engine_visible(*e).len() == 0 ==> r->Ok_0@.len() == 0,
        !query_ok(query@) ==> r is Err && r->Err_0 is QueryParseError,
        r is Err && r->Err_0 is QueryParseError ==> !query_ok(query@),
        r is Ok ==> r->Ok_0@ == engine_hits(*e, query@, limit as nat),
        r is Err ==> r->Err_0 is QueryParseError || r->Err_0 is StorageIo,
{
    let parser = QueryParser::for_index(&e.index, e.search_fields.clone());
    let query = parser.parse_query(query).map_err(|_| Error::QueryParseError)?;
    let searcher = e.index.reader().map_err(|_| Error::StorageIo)?.searcher();
    let hits = searcher.search(&query, &TopDocs::with_limit(limit)).map_err(|_| Error::StorageIo)?;
    let mut out: Vec<Hit> = Vec::new();
    for (score, addr) in hits {
        let doc = searcher.doc(addr).map_err(|_| Error::StorageIo)?;
        let text = serde_json::to_string(&searcher.schema().to_named_doc(&doc));
        out.push(Hit { score: score.to_bits(), doc: text.map_err(|_| Error::StorageIo)? });
    }
    Ok(out)
}

/// One tier's index: an engine together with the count of documents this
/// adapter has added since it was opened or last cleared, and the tier
/// variant. The mutable (in-memory) variant publishes every add at once; the
/// immutable (directory-backed) variant publishes only on `commit`.
pub struct SearchIndex {
    engine: Engine,
    num_docs: usize,
    is_in_memory: bool,
    started_empty: bool,
}

impl SearchIndex {
    /// The documents this index's searches see.
    pub closed spec fn visible(self) -> Multiset<Seq<char>> {
        engine_visible(self.engine)
    }

    /// The documents added to this index but not yet published.
    pub closed spec fn staged(self) -> Multiset<Seq<char>> {
        engine_staged(self.engine)
    }

    /// Whether this is the mutable, in-memory variant.
    pub closed spec fn in_memory(self) -> bool {
        self.is_in_memory
    }

    /// The adapter's document count.
    pub closed spec fn count(self) -> usize {
        self.num_docs
    }

    /// The hits this index returns for a query text and a positive cap.
    pub closed spec fn hits(self, q: Seq<char>, limit: nat) -> Seq<Hit> {
        engine_hits(self.engine, q, limit)
    }

    /// Whether this index started with nothing visible: always so for the
    /// in-memory variant, and for the directory-backed variant exactly when
    /// no index was found in the directory and one was created afresh.
    pub closed spec fn fresh(self) -> bool {
        self.started_empty
    }

    /// In the mutable variant every add is published at once, so nothing is
    /// ever left staged and the count is exactly what is visible.
    pub open spec fn inv(self) -> bool {
        self.in_memory() ==> {
            &&& self.staged() == Multiset::<Seq<char>>::empty()
            &&& self.count() == self.visible().len()
        }
    }

    /// Opens a tier index: in memory when no directory is given, else over
    /// the directory, keeping what is committed there.
    pub fn new(path_opt: Option<&str>) -> (r: Result<SearchIndex, Error>)
        ensures
            r is Ok ==> r->Ok_0.inv(),
            r is Ok ==> r->Ok_0.in_memory() == path_opt is None,
            r is Ok ==> r->Ok_0.count() == 0,
            r is Ok ==> r->Ok_0.staged() == Multiset::<Seq<char>>::empty(),
            r is Ok && path_opt is None ==> r->Ok_0.visible() == Multiset::<Seq<char>>::empty(),
            r is Ok && r->Ok_0.fresh() ==> r->Ok_0.visible() == Multiset::<Seq<char>>::empty(),
            r is Err ==> r->Err_0 is StorageIo,
    {
        let (engine, is_in_memory, started_empty) = match path_opt {
            None => (engine_new_in_ram()?, true, true),
            Some(path) => {
                let (engine, fresh) = engine_open_dir(path)?;
                (engine, false, fresh)
            },
        };
        Ok(SearchIndex { engine, num_docs: 0, is_in_memory, started_empty })
    }

    /// Adds one serialized document. In the mutable variant a successful add
    /// is published at once; in the immutable variant it is staged until the
    /// next `commit`. A malformed document is rejected, exactly when it does
    /// not satisfy the schema, with nothing changed; on a storage failure in
    /// the mutable variant the publish step may have been lost.
    pub fn add_doc(&mut self, doc: &str) -> (r: Result<(), Error>)
        requires
            old(self).inv(),
        ensures
            final(self).in_memory() == old(self).in_memory(),
            r is Ok ==> doc_ok(doc@),
            r is Ok ==> final(self).count() == if old(self).count() < usize::MAX {
                old(self).count() + 1
            } else {
                old(self).count() as int
            },
            r is Ok && old(self).in_memory() ==> {
                &&& final(self).visible() == old(self).visible().insert(doc@)
                &&& final(self).staged() == Multiset::<Seq<char>>::empty()
                &&& old(self).count() < usize::MAX ==> final(self).inv()
            },
            r is Ok && !old(self).in_memory() ==> {
                &&& final(self).visible() == old(self).visible()
                &&& final(self).staged() == old(self).staged().insert(doc@)
                &&& final(self).inv()
            },
            !doc_ok(doc@) ==> r is Err && r->Err_0 is MalformedDocument,
            r is Err && r->Err_0 is MalformedDocument ==> {
                &&& !doc_ok(doc@)
                &&& final(self).visible() == old(self).visible()
                &&& final(self).staged() == old(self).staged()
                &&& final(self).count() == old(self).count()
            },
            r is Err ==> r->Err_0 is MalformedDocument || r->Err_0 is StorageIo,
            r is Err && !old(self).in_memory() ==> {
                &&& final(self).visible() == old(self).visible()
                &&& final(self).staged() == old(self).staged()
                &&& final(self).count() == old(self).count()
            },
    {
        match engine_add(&mut self.engine, doc) {
            Ok(()) => {},
            Err(e) => {
                return Err(e);
            },
        }
        if self.is_in_memory {
            match engine_commit(&mut self.engine) {
                Ok(()) => {},
                Err(_) => {
                    return Err(Error::StorageIo);
                },
            }
        }
        if self.num_docs < usize::MAX {
            self.num_docs = self.num_docs + 1;
        }
        Ok(())
    }

    /// Whether the document satisfies the schema, without touching the index.
    pub fn validate_doc(&self, doc: &str) -> (r: bool)
        ensures
            r == doc_ok(doc@),
    {
        engine_validate(&self.engine, doc)
    }

    /// The adapter's document count.
    pub fn num_docs(&self) -> (r: usize)
        ensures
            r == self.count(),
    {
        self.num_docs
    }

    /// Whether this index started with nothing visible.
    pub fn is_fresh(&self) -> (r: bool)
        ensures
            r == self.fresh(),
    {
        self.started_empty
    }

    /// Publishes whatever is staged; safe when nothing is.
    pub fn commit(&mut self) -> (r: Result<(), Error>)
        ensures
            final(self).in_memory() == old(self).in_memory(),
            final(self).count() == old(self).count(),
            r is Ok ==> final(self).visible() == old(self).visible().add(old(self).staged()),
            r is Ok ==> final(self).staged() == Multiset::<Seq<char>>::empty(),
            r is Err ==> r->Err_0 is StorageIo,
    {
        engine_commit(&mut self.engine)
    }

    /// Empties the index and resets the count.
    pub fn clear(&mut self) -> (r: Result<(), Error>)
        requires
            old(self).staged() == Multiset::<Seq<char>>::empty(),
        ensures
            final(self).in_memory() == old(self).in_memory(),
            r is Ok ==> {
                &&& final(self).visible() == Multiset::<Seq<char>>::empty()
                &&& final(self).staged() == Multiset::<Seq<char>>::empty()
                &&& final(self).count() == 0
                &&& final(self).inv()
            },
            r is Err ==> r->Err_0 is StorageIo,
    {
        match engine_clear(&mut self.engine) {
            Ok(()) => {
                self.num_docs = 0;
                Ok(())
            },
            Err(e) => Err(e),
        }
    }

    /// How many documents this index's searches see.
    pub fn visible_count(&self) -> (r: Result<u64, Error>)
        ensures
            r is Ok ==> r->Ok_0 as nat == self.visible().len(),
            r is Err ==> r->Err_0 is StorageIo,
    {
        engine_count(&self.engine)
    }

    /// Searches the visible documents for the query text, best hits first,
    /// capped at `limit`. The offset is accepted but not applied here.
    /// Rejects an invalid query whatever the cap; a valid query under a cap
    /// of zero yields no hits without searching.
    pub fn search(&self, query_str: &str, _offset: usize, limit: usize) -> (r: Result<
        Vec<Hit>,
        Error,
    >)
        ensures
            r is Ok ==> r->Ok_0@.len() <= limit,
            r is Ok ==> sorted_desc(r->Ok_0@),
            r is Ok && self.visible().len() == 0 ==> r->Ok_0@.len() == 0,
            r is Ok && limit >= 1 ==> r->Ok_0@ == self.hits(query_str@, limit as nat),
            !query_ok(query_str@) ==> r is Err && r->Err_0 is QueryParseError,
            r is Err && r->Err_0 is QueryParseError ==> !query_ok(query_str@),
            r is Err ==> r->Err_0 is QueryParseError || r->Err_0 is StorageIo,
            limit == 0 && query_ok(query_str@) ==> r is Ok && r->Ok_0@.len() == 0,
    {
        if limit == 0 {
            if !engine_query_valid(&self.engine, query_str) {
                return Err(Error::QueryParseError);
            }
            return Ok(Vec::new());
        }
        engine_search(&self.engine, query_str, limit)
    }
}

} // verus!
