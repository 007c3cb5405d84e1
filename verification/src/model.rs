use crate::crypt::{CryptJobView, EngineOutcomeView};
use crate::document::DocumentView;
use crate::errors::{DocErrorView, PyroErrorView};
use crate::lock_state::LockState;
use crate::name::{normalized, valid_name};
use vstd::prelude::*;

verus! {

/// The form in which a document is kept: as given, under its normalized
/// name.
pub open spec fn stored_form(doc: DocumentView) -> DocumentView {
    DocumentView { id: doc.id, name: normalized(doc.name), text: doc.text }
}

/// Every document of the table is filed under its own name.
pub open spec fn keyed_by_name(table: Map<Seq<char>, DocumentView>) -> bool {
    forall|name: Seq<char>| #[trigger] table.contains_key(name) ==> table[name].name == name
}

/// What a read is answered with while the store is locked.
pub open spec fn locked_read_detail() -> Seq<char> {
    "The documents are encrypted and cannot be read."@
}

/// A document store as plain mathematical values.
pub struct StoreState {
    pub lock_state: LockState,
    /// Whether the store lives in memory only.
    pub from_memory: bool,
    /// The path of the backing artifact, where there is one.
    pub db_name: Option<Seq<char>>,
    pub table_initialized: bool,
    /// The known names, in the order in which they were first saved.
    pub names: Seq<Seq<char>>,
    /// The documents, each under its name.
    pub documents: Map<Seq<char>, DocumentView>,
}

impl StoreState {
    /// A store that was just made for the artifact at `db_name`, whose
    /// header was probed with the result `header_present`.
    pub open spec fn opened(db_name: Seq<char>, header_present: Option<bool>) -> StoreState {
        StoreState {
            lock_state: LockState::probed(header_present),
            from_memory: false,
            db_name: Some(db_name),
            table_initialized: false,
            names: Seq::empty(),
            documents: Map::empty(),
        }
    }

    /// A store that was just made to live in memory only.
    pub open spec fn in_memory() -> StoreState {
        StoreState {
            lock_state: LockState::Unlocked,
            from_memory: true,
            db_name: None,
            table_initialized: false,
            names: Seq::empty(),
            documents: Map::empty(),
        }
    }

    /// What holds of every store: the index lists each name of the table
    /// once and no other name, every document is filed under its own name,
    /// every name is valid and normalized, a store in memory has no
    /// artifact and every other store has one, and only a store with an
    /// artifact is ever locked.
    pub open spec fn wf(self) -> bool {
        &&& self.names.no_duplicates()
        &&& self.names.to_set() == self.documents.dom()
        &&& keyed_by_name(self.documents)
        &&& forall|name: Seq<char>| #[trigger]
            self.documents.contains_key(name) ==> valid_name(name) && normalized(name) == name
        &&& self.from_memory == (self.db_name is None)
        &&& self.lock_state == LockState::Locked ==> self.db_name is Some
    }

    pub open spec fn locked(self) -> bool {
        self.lock_state == LockState::Locked
    }

    /// After the table has been made sure of. A locked store is left as it
    /// is: its artifact exists and is not written to.
    pub open spec fn initialize(self) -> StoreState {
        if self.locked() {
            self
        } else {
            StoreState { table_initialized: true, ..self }
        }
    }

    /// Why a document is not saved, if it is not.
    pub open spec fn save_refusal(self, doc: DocumentView) -> Option<DocErrorView> {
        if self.locked() {
            Some(DocErrorView::SavedWhenLocked)
        } else if !valid_name(doc.name) {
            Some(DocErrorView::InvalidName)
        } else {
            None
        }
    }

    /// The store after a document was offered for saving: unchanged where
    /// the document is refused; otherwise the document, in its stored form,
    /// stands under its normalized name, in place of what stood there, and
    /// the index knows the name.
    pub open spec fn save(self, doc: DocumentView) -> StoreState {
        if self.save_refusal(doc) is Some {
            self
        } else {
            let kept = stored_form(doc);
            StoreState {
                table_initialized: true,
                names: if self.names.contains(kept.name) {
                    self.names
                } else {
                    self.names.push(kept.name)
                },
                documents: self.documents.insert(kept.name, kept),
                ..self
            }
        }
    }

    /// What a search for a name is answered with.
    pub open spec fn find(self, name: Seq<char>) -> Result<DocumentView, DocErrorView> {
        if self.locked() {
            Err(DocErrorView::InternalDbError(locked_read_detail()))
        } else if self.documents.contains_key(normalized(name)) {
            Ok(self.documents[normalized(name)])
        } else {
            Err(DocErrorView::DocumentNotFound)
        }
    }

    /// Why rows are not loaded, if they are not.
    pub open spec fn restore_refusal(self, rows: Seq<DocumentView>) -> Option<DocErrorView> {
        if self.locked() {
            Some(DocErrorView::SavedWhenLocked)
        } else if exists|i: int| 0 <= i < rows.len() && !valid_name(#[trigger] rows[i].name) {
            Some(DocErrorView::InvalidName)
        } else {
            None
        }
    }

    /// The store rebuilt from rows: each row in its stored form, and of
    /// rows that share a name the first one only.
    pub open spec fn rebuilt(self, rows: Seq<DocumentView>) -> StoreState
        decreases rows.len(),
    {
        if rows.len() == 0 {
            StoreState {
                table_initialized: true,
                names: Seq::empty(),
                documents: Map::empty(),
                ..self
            }
        } else {
            let front = self.rebuilt(rows.drop_last());
            let kept = stored_form(rows.last());
            if front.documents.contains_key(kept.name) {
                front
            } else {
                StoreState {
                    names: front.names.push(kept.name),
                    documents: front.documents.insert(kept.name, kept),
                    ..front
                }
            }
        }
    }

    /// The store after rows were offered for loading: unchanged where they
    /// are refused, rebuilt from them otherwise.
    pub open spec fn restore(self, rows: Seq<DocumentView>) -> StoreState {
        if self.restore_refusal(rows) is Some {
            self
        } else {
            self.rebuilt(rows)
        }
    }

    /// Why locking may not start, if it may not.
    pub open spec fn lock_refusal(self) -> Option<PyroErrorView> {
        if self.locked() {
            Some(PyroErrorView::AlreadyLocked)
        } else if self.db_name is None {
            Some(PyroErrorView::DocumentError(DocErrorView::NoPhysicalDb))
        } else {
            None
        }
    }

    /// Why unlocking may not start, if it may not.
    pub open spec fn unlock_refusal(self) -> Option<PyroErrorView> {
        if !self.locked() {
            Some(PyroErrorView::NotEncryptedError)
        } else if self.db_name is None {
            Some(PyroErrorView::DocumentError(DocErrorView::NoPhysicalDb))
        } else {
            None
        }
    }

    /// Why a transition may not start, if it may not.
    pub open spec fn crypt_refusal(self, encrypting: bool) -> Option<PyroErrorView> {
        if encrypting {
            self.lock_refusal()
        } else {
            self.unlock_refusal()
        }
    }

    /// What the host is asked to do for a transition that may start.
    pub open spec fn crypt_job(self, encrypting: bool, password: Seq<char>) -> CryptJobView {
        CryptJobView { encrypting, password, paths: seq![self.db_name->0] }
    }

    /// Why a transition does not take place, if it does not: it may not
    /// start, or the engine failed.
    pub open spec fn crypt_error(self, encrypting: bool, outcome: EngineOutcomeView) -> Option<
        PyroErrorView,
    > {
        if self.crypt_refusal(encrypting) is Some {
            self.crypt_refusal(encrypting)
        } else {
            match outcome {
                EngineOutcomeView::Completed => None,
                EngineOutcomeView::Failed(detail) => Some(PyroErrorView::CryptError(detail)),
            }
        }
    }

    /// The store after the host reported how the engine's work ended:
    /// unchanged where the transition does not take place, in the new lock
    /// state otherwise. Names and documents are the same either way.
    pub open spec fn crypt(self, encrypting: bool, outcome: EngineOutcomeView) -> StoreState {
        if self.crypt_error(encrypting, outcome) is Some {
            self
        } else {
            StoreState {
                lock_state: if encrypting {
                    LockState::Locked
                } else {
                    LockState::Unlocked
                },
                ..self
            }
        }
    }
}

} // verus!
