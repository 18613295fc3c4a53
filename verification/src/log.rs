//! The durable append log: the on-disk record of every accepted document, in
//! arrival order, replayed into the mutable tier at startup.
//!
//! The log is kept in an outside key-value store as one list of serialized
//! documents under a fixed key. The store is opaque to verification; its
//! list's entries are modelled by the named spec function `log_entries`, and
//! every call into the store goes through a trusted wrapper whose contract
//! speaks over that name.
use vstd::prelude::*;

use pickledb::PickleDb;
use pickledb::PickleDbDumpPolicy;
use pickledb::SerializationMethod;

use crate::Error;

verus! {

/// The outside key-value store that persists the log.
#[verifier::external_type_specification]
#[verifier::external_body]
pub struct ExPickleDb(pickledb::PickleDb);

/// The serialized documents in the store's log list, in append order.
pub uninterp spec fn log_entries(db: pickledb::PickleDb) -> Seq<Seq<char>>;

/// Opens the log store at `<dir>/documents.db`: loads the file if it exists,
/// else starts a fresh store, and makes sure the log list exists. What the
/// loaded file holds stays as it is. The returned flag says whether the
/// store was started afresh, in which case the log has no entries.
///
/// Relies on pickledb's `PickleDb::load` and `PickleDb::new` (every write is
/// dumped to the file at once, in a binary serialization), `lexists` and
/// `lcreate`.
#[verifier::external_body]
pub(crate) fn log_open(dir: &str) -> (r: Result<(pickledb::PickleDb, bool), Error>)
    ensures
        r is Ok && r->Ok_0.1 ==> log_entries(r->Ok_0.0) == Seq::<Seq<char>>::empty(),
        r is Err ==> r->Err_0 is StorageIo,
{
    let path = std::path::Path::new(dir).join("documents.db");
    let fresh = !path.exists();
    let mut db = if fresh {
        PickleDb::new(path, PickleDbDumpPolicy::AutoDump, SerializationMethod::Bin)
    } else {
        PickleDb::load(path, PickleDbDumpPolicy::AutoDump, SerializationMethod::Bin).map_err(
            |_| Error::StorageIo,
        )?
    };
    if !db.lexists("documents") {
        db.lcreate("documents").map_err(|_| Error::StorageIo)?;
    }
    Ok((db, fresh))
}

/// Appends one serialized document to the log list. On success the entry is
/// appended and durable; on failure (the list is missing, or the dump to disk
/// failed and was rolled back) the entries are unchanged.
///
/// Relies on pickledb's `ladd`: it appends to the named list and returns
/// `None`, with the list restored, if the list is missing or the dump fails.
#[verifier::external_body]
pub(crate) fn log_append(db: &mut pickledb::PickleDb, doc: &str) -> (r: bool)
    ensures
        r ==> log_entries(*final(db)) == log_entries(*old(db)).push(doc@),
        !r ==> log_entries(*final(db)) == log_entries(*old(db)),
{
    db.ladd("documents", &String::from(doc)).is_some()
}

/// Reads every log entry, in append order. On success the returned documents
/// are exactly the log's entries; a missing list reads as no entries.
///
/// Relies on pickledb's `lexists`, `liter` and the list items' `get_item`,
/// which deserializes each stored entry back to its text.
#[verifier::external_body]
pub(crate) fn log_read_all(db: &pickledb::PickleDb) -> (r: Result<Vec<String>, Error>)
    ensures
        r is Ok ==> r->Ok_0@.map_values(|s: String| s@) == log_entries(*db),
        r is Err ==> r->Err_0 is StorageIo,
{
    if !db.lexists("documents") {
        return Ok(Vec::new());
    }
    let mut out: Vec<String> = Vec::new();
    for item in db.liter("documents") {
        match item.get_item::<String>() {
            Some(doc) => out.push(doc),
            None => {
                return Err(Error::StorageIo);
            },
        }
    }
    Ok(out)
}

/// Removes the log's last entry, undoing the latest append. On success the
/// last entry is gone; on failure either nothing changed (the list is
/// missing, empty, or the dump failed and the removal was rolled back) or
/// the last entry was removed but could not be read back.
///
/// Relies on pickledb's `llen` and `lpop`, which restores the list if the
/// dump to disk fails.
#[verifier::external_body]
pub(crate) fn log_pop_last(db: &mut pickledb::PickleDb) -> (r: bool)
    ensures
        r ==> log_entries(*final(db)) == log_entries(*old(db)).drop_last(),
        !r ==> log_entries(*final(db)) == log_entries(*old(db)) || log_entries(*final(db))
            == log_entries(*old(db)).drop_last(),
{
    let len = db.llen("documents");
    if len == 0 {
        return false;
    }
    db.lpop::<String>("documents", len - 1).is_some()
}

/// Truncates the log: on success it has no entries any more, durably.
///
/// Relies on pickledb's `lrem_list` (removes the list, restoring it if the
/// dump fails) and `lcreate` (makes a fresh empty list).
#[verifier::external_body]
pub(crate) fn log_clear(db: &mut pickledb::PickleDb) -> (r: Result<(), Error>)
    ensures
        r is Ok ==> log_entries(*final(db)) == Seq::<Seq<char>>::empty(),
        r is Err ==> r->Err_0 is StorageIo,
        r is Err ==> log_entries(*final(db)) == log_entries(*old(db)) || log_entries(*final(db))
            == Seq::<Seq<char>>::empty(),
{
    db.lrem_list("documents").map_err(|_| Error::StorageIo)?;
    db.lcreate("documents").map_err(|_| Error::StorageIo)?;
    Ok(())
}

} // verus!
