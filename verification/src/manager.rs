use crate::backend::StorageBackend;
use crate::crypt::{CryptJob, EngineOutcome};
use crate::document::{Document, DocumentView};
use crate::errors::{DocError, DocErrorView, PyroError, PyroErrorView};
use crate::lock_state::LockState;
use crate::model::{locked_read_detail, stored_form, StoreState};
use crate::name::{lemma_normalized_idempotent, normalize_name, normalized, valid_name};
use crate::name_index::{names_of, NameIndex};
use vstd::prelude::*;

verus! {

/// The views of a sequence of documents, in the sequence's order.
pub open spec fn rows_of(documents: Seq<Document>) -> Seq<DocumentView> {
    Seq::new(documents.len(), |i: int| documents[i]@)
}

/// The document store: a table of documents keyed by name, an index of the
/// known names, and the lock state that gates both.
///
/// While the store is locked, no document is written or read; the list of
/// names is still answered from the index.
#[derive(Debug)]
pub struct DocumentManager {
    lock_state: LockState,
    from_memory: bool,
    db_name: Option<String>,
    names: NameIndex,
    backend: StorageBackend,
}

impl View for DocumentManager {
    type V = StoreState;

    closed spec fn view(&self) -> StoreState {
        StoreState {
            lock_state: self.lock_state,
            from_memory: self.from_memory,
            db_name: match self.db_name {
                Some(path) => Some(path@),
                None => None,
            },
            table_initialized: self.backend.initialized(),
            names: self.names.entries(),
            documents: self.backend@,
        }
    }
}

impl DocumentManager {
    /// The index and the table are each in order.
    pub closed spec fn parts_wf(&self) -> bool {
        self.names.wf() && self.backend.wf()
    }

    /// The store is in order: its parts are, and they agree with each other
    /// as `StoreState::wf` says.
    pub open spec fn wf(&self) -> bool {
        self.parts_wf() && self@.wf()
    }

    /// A store bound to the artifact at `db_name`. `header_present` is what
    /// a probe of the artifact for a ciphertext header gave: the store
    /// starts locked where a header was found, and unlocked where none was
    /// found, where the artifact does not exist yet, and where the probe
    /// failed (`None`). No document is loaded.
    pub fn new(db_name: &str, header_present: Option<bool>) -> (manager: Self)
        ensures
            manager.wf(),
            manager@ == StoreState::opened(db_name@, header_present),
    {
        let manager = DocumentManager {
            lock_state: LockState::from_header_probe(header_present),
            from_memory: false,
            db_name: Some(db_name.to_owned()),
            names: NameIndex::new(),
            backend: StorageBackend::new(),
        };
        proof {
            assert(manager@.names.to_set() =~= manager@.documents.dom());
        }
        manager
    }

    /// A store that lives in memory only. It has no artifact, so it can be
    /// neither locked nor unlocked.
    pub fn new_in_memory() -> (manager: Self)
        ensures
            manager.wf(),
            manager@ == StoreState::in_memory(),
    {
        let manager = DocumentManager {
            lock_state: LockState::Unlocked,
            from_memory: true,
            db_name: None,
            names: NameIndex::new(),
            backend: StorageBackend::new(),
        };
        proof {
            assert(manager@.names.to_set() =~= manager@.documents.dom());
        }
        manager
    }

    pub fn is_locked(&self) -> (locked: bool)
        ensures
            locked == self@.locked(),
    {
        self.lock_state.is_locked()
    }

    pub fn lock_state(&self) -> (state: LockState)
        ensures
            state == self@.lock_state,
    {
        self.lock_state
    }

    pub fn is_in_memory(&self) -> (from_memory: bool)
        ensures
            from_memory == self@.from_memory,
    {
        self.from_memory
    }

    pub fn is_table_initialized(&self) -> (ready: bool)
        ensures
            ready == self@.table_initialized,
    {
        self.backend.is_initialized()
    }

    /// The path of the backing artifact, where the store has one.
    pub fn db_name(&self) -> (path: Option<String>)
        ensures
            path is Some == self@.db_name is Some,
            path matches Some(text) ==> self@.db_name == Some(text@),
    {
        match &self.db_name {
            Some(path) => Some(path.clone()),
            None => None,
        }
    }

    /// Makes sure that the table exists. It can be called any number of
    /// times, and never fails. On a locked store it does nothing: the
    /// artifact exists and must not be written to.
    pub fn initialize_table(&mut self) -> (done: Result<(), DocError>)
        requires
            old(self).wf(),
        ensures
            final(self).wf(),
            done is Ok,
            final(self)@ == old(self)@.initialize(),
    {
        if !self.lock_state.is_locked() {
            self.backend.initialize();
        }
        Ok(())
    }

    /// Saves a document under its normalized name, in place of the document
    /// that had that name if there was one, and enters the name in the
    /// index. A locked store refuses with `SavedWhenLocked` and an empty
    /// name is refused with `InvalidName`; the store is then unchanged.
    pub fn save_document(&mut self, doc: &Document) -> (saved: Result<(), DocError>)
        requires
            old(self).wf(),
        ensures
            final(self).wf(),
            match old(self)@.save_refusal(doc@) {
                Some(refusal) => saved matches Err(error) && error@ == refusal,
                None => saved is Ok,
            },
            final(self)@ == old(self)@.save(doc@),
    {
        if self.lock_state.is_locked() {
            return Err(DocError::SavedWhenLocked);
        }
        if doc.get_document_name().is_empty() {
            return Err(DocError::InvalidName);
        }
        let name = normalize_name(doc.get_document_name());
        let kept = Document::new(doc.get_id(), name.clone(), doc.get_text().to_owned());
        proof {
            assert(kept@ == stored_form(doc@));
            lemma_normalized_idempotent(doc@.name);
        }
        self.backend.save(kept);
        self.names.insert(name);
        Ok(())
    }

    /// Finds the document saved under the normalized form of `doc_name` and
    /// returns a copy of it. On a locked store nothing can be read.
    pub fn find_doc_by_name(&self, doc_name: &str) -> (found: Result<Document, DocError>)
        requires
            self.wf(),
        ensures
            match self@.find(doc_name@) {
                Ok(expected) => found matches Ok(doc) && doc@ == expected,
                Err(expected) => found matches Err(error) && error@ == expected,
            },
    {
        if self.lock_state.is_locked() {
            return Err(
                DocError::InternalDbError(
                    "The documents are encrypted and cannot be read.".to_owned(),
                ),
            );
        }
        let name = normalize_name(doc_name);
        self.backend.find_by_name(name.as_str())
    }

    /// The known names, each once, in the order in which they were first
    /// saved. It is answered from the index, so also while the store is
    /// locked, and never fails.
    pub fn load_document_names(&self) -> (loaded: Result<Vec<String>, DocError>)
        requires
            self.wf(),
        ensures
            loaded matches Ok(names) && names_of(names@) == self@.names,
    {
        Ok(self.names.all())
    }

    /// Rebuilds table and index from rows read from the artifact: each row
    /// is kept in its stored form, and of rows that share a name the first
    /// one only. What the store held before is dropped. A locked store
    /// refuses with `SavedWhenLocked`, and rows with an empty name among
    /// them are refused with `InvalidName`; the store is then unchanged.
    pub fn restore(&mut self, rows: Vec<Document>) -> (restored: Result<(), DocError>)
        requires
            old(self).wf(),
        ensures
            final(self).wf(),
            match old(self)@.restore_refusal(rows_of(rows@)) {
                Some(refusal) => restored matches Err(error) && error@ == refusal,
                None => restored is Ok,
            },
            final(self)@ == old(self)@.restore(rows_of(rows@)),
    {
        if self.lock_state.is_locked() {
            return Err(DocError::SavedWhenLocked);
        }
        let ghost given = rows_of(rows@);
        let ghost start = self@;
        let mut i: usize = 0;
        while i < rows.len()
            invariant
                i <= rows.len(),
                given == rows_of(rows@),
                self.wf(),
                self@ == start,
                !start.locked(),
                forall|j: int| 0 <= j < i ==> valid_name(#[trigger] given[j].name),
            decreases rows.len() - i,
        {
            if rows[i].get_document_name().is_empty() {
                assert(!valid_name(given[i as int].name));
                return Err(DocError::InvalidName);
            }
            i += 1;
        }
        let mut names = NameIndex::new();
        let mut backend = StorageBackend::new();
        backend.initialize();
        let mut i: usize = 0;
        while i < rows.len()
            invariant
                i <= rows.len(),
                given == rows_of(rows@),
                forall|j: int| 0 <= j < rows.len() ==> valid_name(#[trigger] given[j].name),
                names.wf(),
                backend.wf(),
                backend.initialized(),
                start.wf(),
                !start.locked(),
                names.entries() == start.rebuilt(given.take(i as int)).names,
                backend@ == start.rebuilt(given.take(i as int)).documents,
                start.rebuilt(given.take(i as int)).wf(),
                start.rebuilt(given.take(i as int)) == (StoreState {
                    table_initialized: true,
                    names: names.entries(),
                    documents: backend@,
                    ..start
                }),
            decreases rows.len() - i,
        {
            let row = &rows[i];
            let name = normalize_name(row.get_document_name());
            proof {
                assert(given.take(i as int + 1).drop_last() =~= given.take(i as int));
                assert(given.take(i as int + 1).last() == given[i as int]);
                lemma_normalized_idempotent(given[i as int].name);
            }
            if !backend.contains(name.as_str()) {
                let kept = Document::new(row.get_id(), name.clone(), row.get_text().to_owned());
                assert(kept@ == stored_form(given[i as int]));
                backend.save(kept);
                names.insert(name);
            }
            i += 1;
        }
        proof {
            assert(given.take(rows.len() as int) =~= given);
        }
        self.names = names;
        self.backend = backend;
        Ok(())
    }

    /// Decides whether locking may start, and says what the host has to do:
    /// encrypt the artifact with `password`. The store does not change
    /// before the host reports the outcome to `crypt_operation`. A store
    /// that is locked already refuses with `AlreadyLocked`, one without an
    /// artifact with `NoPhysicalDb`.
    pub fn lock(&self, password: &str) -> (job: Result<CryptJob, PyroError>)
        requires
            self.wf(),
        ensures
            match self@.lock_refusal() {
                Some(refusal) => job matches Err(error) && error@ == refusal,
                None => job matches Ok(work) && work@ == self@.crypt_job(true, password@),
            },
    {
        if self.lock_state.is_locked() {
            return Err(PyroError::AlreadyLocked);
        }
        self.crypt_job(password, true)
    }

    /// Decides whether unlocking may start, and says what the host has to
    /// do: decrypt the artifact with `password`. The store does not change
    /// before the host reports the outcome to `crypt_operation`. A store
    /// that is not locked refuses with `NotEncryptedError`.
    pub fn unlock(&self, password: &str) -> (job: Result<CryptJob, PyroError>)
        requires
            self.wf(),
        ensures
            match self@.unlock_refusal() {
                Some(refusal) => job matches Err(error) && error@ == refusal,
                None => job matches Ok(work) && work@ == self@.crypt_job(false, password@),
            },
    {
        if !self.lock_state.is_locked() {
            return Err(PyroError::NotEncryptedError);
        }
        self.crypt_job(password, false)
    }

    /// The job for a transition on this store's artifact.
    fn crypt_job(&self, password: &str, encrypting: bool) -> (job: Result<CryptJob, PyroError>)
        ensures
            match self@.db_name {
                None => job matches Err(error) && error@ == PyroErrorView::DocumentError(
                    DocErrorView::NoPhysicalDb,
                ),
                Some(_) => job matches Ok(work) && work@ == self@.crypt_job(
                    encrypting,
                    password@,
                ),
            },
    {
        match &self.db_name {
            None => Err(PyroError::DocumentError(DocError::NoPhysicalDb)),
            Some(path) => {
                let mut paths: Vec<String> = Vec::new();
                paths.push(path.clone());
                let job = CryptJob { encrypting, password: password.to_owned(), paths };
                assert(job@.paths =~= seq![path@]);
                Ok(job)
            },
        }
    }

    /// Completes a transition with what the host reports of the engine's
    /// work: `encrypting` says which transition, `outcome` how the work
    /// ended. Where the transition may not take place (as `lock` and
    /// `unlock` decide it), or the engine failed, the store stays as it
    /// was and the error says why; an engine failure comes back as
    /// `CryptError` with the engine's words. Otherwise the store is locked
    /// after encrypting and unlocked after decrypting. Names and documents
    /// are untouched in every case.
    pub fn crypt_operation(&mut self, encrypting: bool, outcome: EngineOutcome) -> (done: Result<
        (),
        PyroError,
    >)
        requires
            old(self).wf(),
        ensures
            final(self).wf(),
            match old(self)@.crypt_error(encrypting, outcome@) {
                Some(expected) => done matches Err(error) && error@ == expected,
                None => done is Ok,
            },
            final(self)@ == old(self)@.crypt(encrypting, outcome@),
    {
        let locked = self.lock_state.is_locked();
        if encrypting && locked {
            return Err(PyroError::AlreadyLocked);
        }
        if !encrypting && !locked {
            return Err(PyroError::NotEncryptedError);
        }
        if self.db_name.is_none() {
            return Err(PyroError::DocumentError(DocError::NoPhysicalDb));
        }
        match outcome {
            EngineOutcome::Failed(detail) => Err(PyroError::CryptError(detail)),
            EngineOutcome::Completed => {
                self.lock_state = if encrypting {
                    LockState::Locked
                } else {
                    LockState::Unlocked
                };
                Ok(())
            },
        }
    }
}

impl Default for DocumentManager {
    /// The default store is one that lives in memory only.
    fn default() -> (manager: Self)
        ensures
            manager.wf(),
            manager@ == StoreState::in_memory(),
    {
        DocumentManager::new_in_memory()
    }
}

} // verus!
