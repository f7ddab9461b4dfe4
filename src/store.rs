use vstd::prelude::*;

use crate::button::texts;

verus! {

/// Name of the database that keeps the uploaded images.
pub const DB_NAME: &'static str = "mb";

/// The one schema version; there is no migration.
pub const DB_VERSION: u32 = 1;

/// The object store of images, keyed by an auto-incremented integer.
pub const STORE_NAME: &'static str = "buttons";

/// The unique index that rejects an image already stored.
pub const INDEX_NAME: &'static str = "file";

/// The fields of the unique index. Two files count as the same image when
/// they agree on name, modification time, size and type; their bytes are not
/// compared, so two distinct files that agree on all four are taken as one.
pub const INDEX_FIELDS: [&'static str; 4] = ["name", "lastModified", "size", "type"];

/// Why the store refused to add a record.
#[derive(Clone, Copy, Debug, PartialEq, Eq, Structural)]
pub enum AddFailure {
    /// The unique index already holds a record with the same key fields.
    AlreadyExists,
    /// Any other failure of the backend.
    Other,
}

/// How an attempt to keep an image ended.
#[derive(Clone, Copy, Debug, PartialEq, Eq, Structural)]
pub enum InsertOutcome {
    /// A new record was written.
    Stored,
    /// The image was stored before; nothing was written.
    AlreadyStored,
    /// The backend failed; the image is shown but not kept.
    Failed,
}

impl InsertOutcome {
    /// Whether the transaction of the write is to be committed: only after a
    /// write that succeeded.
    pub open spec fn commits_spec(self) -> bool {
        self == InsertOutcome::Stored
    }

    /// Whether the image is kept, by this write or an earlier one.
    pub open spec fn is_kept_spec(self) -> bool {
        self == InsertOutcome::Stored || self == InsertOutcome::AlreadyStored
    }

    /// Whether the transaction of the write is to be committed.
    pub fn commits(&self) -> (r: bool)
        ensures
            r == self.commits_spec(),
    {
        match self {
            InsertOutcome::Stored => true,
            _ => false,
        }
    }

    /// Whether the image is kept, by this write or an earlier one.
    pub fn is_kept(&self) -> (r: bool)
        ensures
            r == self.is_kept_spec(),
    {
        match self {
            InsertOutcome::Failed => false,
            _ => true,
        }
    }
}

/// The outcome of adding an image: a refusal by the unique index means that
/// the image is already stored, which is no error.
pub fn insert_outcome(added: Result<(), AddFailure>) -> (r: InsertOutcome)
    ensures
        r == (match added {
            Ok(()) => InsertOutcome::Stored,
            Err(AddFailure::AlreadyExists) => InsertOutcome::AlreadyStored,
            Err(AddFailure::Other) => InsertOutcome::Failed,
        }),
{
    match added {
        Ok(()) => InsertOutcome::Stored,
        Err(AddFailure::AlreadyExists) => InsertOutcome::AlreadyStored,
        Err(AddFailure::Other) => InsertOutcome::Failed,
    }
}

/// The references of the records that could be turned into one, in the order
/// of the records.
pub open spec fn present(refs: Seq<Option<String>>) -> Seq<Seq<char>>
    decreases refs.len(),
{
    if refs.len() == 0 {
        Seq::empty()
    } else {
        let before = present(refs.drop_last());
        match refs.last() {
            Some(u) => before.push(u@),
            None => before,
        }
    }
}

/// Keeps the references of the records read back that could be displayed,
/// in order, and drops the others.
pub fn collect_references(refs: Vec<Option<String>>) -> (r: Vec<String>)
    ensures
        texts(r@) == present(refs@),
{
    let mut out: Vec<String> = Vec::new();
    let mut i: usize = 0;
    while i < refs.len()
        invariant
            i <= refs@.len(),
            texts(out@) == present(refs@.take(i as int)),
        decreases refs@.len() - i,
    {
        let ghost prev = out@;
        proof {
            assert(refs@.take(i + 1).drop_last() =~= refs@.take(i as int));
            assert(refs@.take(i + 1).last() == refs@[i as int]);
        }
        match &refs[i] {
            Some(u) => {
                out.push(u.clone());
                proof {
                    assert(texts(out@) =~= texts(prev).push(
                        u@,
                    ));
                }
            },
            None => {},
        }
        i += 1;
    }
    proof {
        assert(refs@.take(refs@.len() as int) =~= refs@);
    }
    out
}

} // verus!
