//! Session persistence: the capability-set contract a storage backend
//! must meet, an in-memory backend that meets it, and the descriptor of
//! the file-backed location the embedding process uses.
//!
//! Exactly one session driver operates per store location at a time, so
//! the contract requires no locking.

use vstd::prelude::*;

verus! {

/// A failure of the backing medium.  The orchestrator treats any store
/// failure as "no usable session" and never lets it abort a login on
/// its own.
#[derive(Clone, Copy, PartialEq, Eq, Structural, Debug)]
pub struct StoreError;

/// The persistence contract for the serialized session record.  The
/// record is opaque bytes to the store.  `contents` is the record the
/// store currently holds, if any.
pub trait SessionStore {
    /// The record the store currently holds.
    spec fn contents(&self) -> Option<Seq<u8>>;

    /// Replaces the stored record; durable before returning.
    fn save_session(&mut self, data: Vec<u8>) -> (r: Result<(), StoreError>)
        ensures
            r is Ok ==> final(self).contents() == Some(data@),
    ;

    /// Reads the stored record; `None` means no session is recorded,
    /// not an error.
    fn load_session(&self) -> (r: Result<Option<Vec<u8>>, StoreError>)
        ensures
            r matches Ok(d) ==> match d {
                Some(v) => self.contents() == Some(v@),
                None => self.contents() is None,
            },
    ;

    /// Removes the stored record; absence of the record is not an error.
    fn remove_session(&mut self) -> (r: Result<(), StoreError>)
        ensures
            r is Ok ==> final(self).contents() is None,
    ;
}

/// A store that keeps the record in the value itself.  It can never
/// fail, which makes it the reference backend for the verified driver
/// and for tests.
pub struct MemorySessionStore {
    pub record: Option<Vec<u8>>,
}

impl MemorySessionStore {
    pub open spec fn held(&self) -> Option<Seq<u8>> {
        match self.record {
            Some(v) => Some(v@),
            None => None,
        }
    }

    /// A store with no session recorded.
    pub fn empty() -> (r: MemorySessionStore)
        ensures
            r.held() is None,
    {
        MemorySessionStore { record: None }
    }

    /// A store already holding `data`.
    pub fn holding(data: Vec<u8>) -> (r: MemorySessionStore)
        ensures
            r.held() == Some(data@),
    {
        MemorySessionStore { record: Some(data) }
    }
}

impl SessionStore for MemorySessionStore {
    open spec fn contents(&self) -> Option<Seq<u8>> {
        self.held()
    }

    fn save_session(&mut self, data: Vec<u8>) -> (r: Result<(), StoreError>) {
        self.record = Some(data);
        Ok(())
    }

    fn load_session(&self) -> (r: Result<Option<Vec<u8>>, StoreError>) {
        match &self.record {
            None => Ok(None),
            Some(v) => {
                let c = v.clone();
                proof {
                    assert(c@ =~= v@);
                }
                Ok(Some(c))
            },
        }
    }

    fn remove_session(&mut self) -> (r: Result<(), StoreError>) {
        self.record = None;
        Ok(())
    }
}

/// The descriptor of a file-backed store: the path of the named storage
/// location.  The file transfer itself is performed by the embedding
/// process, which reads and writes the record at this path.
pub struct FileSessionStore {
    pub path: String,
}

impl FileSessionStore {
    /// A boxed descriptor for the given path.
    pub fn boxed(path: String) -> (r: Box<FileSessionStore>)
        ensures
            r.path@ == path@,
    {
        Box::new(FileSessionStore { path })
    }
}

} // verus!
