use vstd::prelude::*;
use vstd::std_specs::convert::FromSpecImpl;

verus! {

/// What can go wrong when documents are saved, found or listed.
#[derive(Debug, PartialEq, Eq)]
pub enum DocError {
    /// The storage behind the store failed, or holds ciphertext; the text
    /// says what happened.
    InternalDbError(String),
    DocumentNotFound,
    SavedWhenLocked,
    /// The operation needs a backing artifact, and the store lives in memory
    /// only.
    NoPhysicalDb,
    /// The document's name is empty.
    InvalidName,
}

pub enum DocErrorView {
    InternalDbError(Seq<char>),
    DocumentNotFound,
    SavedWhenLocked,
    NoPhysicalDb,
    InvalidName,
}

impl View for DocError {
    type V = DocErrorView;

    open spec fn view(&self) -> DocErrorView {
        match self {
            DocError::InternalDbError(detail) => DocErrorView::InternalDbError(detail@),
            DocError::DocumentNotFound => DocErrorView::DocumentNotFound,
            DocError::SavedWhenLocked => DocErrorView::SavedWhenLocked,
            DocError::NoPhysicalDb => DocErrorView::NoPhysicalDb,
            DocError::InvalidName => DocErrorView::InvalidName,
        }
    }
}

impl DocErrorView {
    /// The text shown for an error of this kind.
    pub open spec fn message(self) -> Seq<char> {
        match self {
            DocErrorView::InternalDbError(_) => "An internal DB error has occurred, oops."@,
            DocErrorView::DocumentNotFound => "DocumentNotFound"@,
            DocErrorView::SavedWhenLocked => "SavedWhenLocked"@,
            DocErrorView::NoPhysicalDb => "NoPhysicalDb"@,
            DocErrorView::InvalidName => "InvalidName"@,
        }
    }

    /// What a maintainer is told beside the message: nothing for the kinds
    /// that are part of ordinary use, the storage's own words for a storage
    /// failure, and the message again for the rest.
    pub open spec fn debug_details(self) -> Option<Seq<char>> {
        match self {
            DocErrorView::DocumentNotFound => None,
            DocErrorView::SavedWhenLocked => None,
            DocErrorView::InternalDbError(detail) => Some(detail),
            _ => Some(self.message()),
        }
    }
}

impl DocError {
    pub fn message(&self) -> (text: String)
        ensures
            text@ == self@.message(),
    {
        match self {
            DocError::InternalDbError(_) => "An internal DB error has occurred, oops.".to_owned(),
            DocError::DocumentNotFound => "DocumentNotFound".to_owned(),
            DocError::SavedWhenLocked => "SavedWhenLocked".to_owned(),
            DocError::NoPhysicalDb => "NoPhysicalDb".to_owned(),
            DocError::InvalidName => "InvalidName".to_owned(),
        }
    }
}

/// What can go wrong when the store is locked or unlocked.
#[derive(Debug, PartialEq, Eq)]
pub enum PyroError {
    /// The encryption engine refused or failed, for instance on a wrong
    /// password; the text is the engine's.
    CryptError(String),
    IOError(String),
    ParsingError(String),
    /// Unlocking was asked for, and the store is not locked.
    NotEncryptedError,
    /// Locking was asked for, and the store is locked already.
    AlreadyLocked,
    /// The store's own refusal, such as `NoPhysicalDb` where there is no
    /// backing artifact to encrypt or decrypt.
    DocumentError(DocError),
}

pub enum PyroErrorView {
    CryptError(Seq<char>),
    IOError(Seq<char>),
    ParsingError(Seq<char>),
    NotEncryptedError,
    AlreadyLocked,
    DocumentError(DocErrorView),
}

impl View for PyroError {
    type V = PyroErrorView;

    open spec fn view(&self) -> PyroErrorView {
        match self {
            PyroError::CryptError(detail) => PyroErrorView::CryptError(detail@),
            PyroError::IOError(detail) => PyroErrorView::IOError(detail@),
            PyroError::ParsingError(detail) => PyroErrorView::ParsingError(detail@),
            PyroError::NotEncryptedError => PyroErrorView::NotEncryptedError,
            PyroError::AlreadyLocked => PyroErrorView::AlreadyLocked,
            PyroError::DocumentError(error) => PyroErrorView::DocumentError(error@),
        }
    }
}

impl PyroErrorView {
    pub open spec fn message(self) -> Seq<char> {
        match self {
            PyroErrorView::CryptError(_) => "A crypt error has occurred!"@,
            PyroErrorView::IOError(_) => "An io error has occurred!"@,
            PyroErrorView::ParsingError(_) => "A parsing error has occurred!"@,
            PyroErrorView::NotEncryptedError => "The documents are not encrypted!"@,
            PyroErrorView::AlreadyLocked => "The documents are already encrypted!"@,
            PyroErrorView::DocumentError(error) => error.message(),
        }
    }

    /// The words of the failure underneath, where there is one.
    pub open spec fn source(self) -> Option<Seq<char>> {
        match self {
            PyroErrorView::CryptError(detail) => Some(detail),
            PyroErrorView::IOError(detail) => Some(detail),
            PyroErrorView::ParsingError(detail) => Some(detail),
            _ => None,
        }
    }

    /// The short name shown to the user; for the store's own refusal, what
    /// that refusal shows.
    pub open spec fn display_name(self) -> Seq<char> {
        match self {
            PyroErrorView::CryptError(_) => "Crypt Error"@,
            PyroErrorView::IOError(_) => "IO Error"@,
            PyroErrorView::ParsingError(_) => "Parsing Error"@,
            PyroErrorView::NotEncryptedError => "NotEncryptedError"@,
            PyroErrorView::AlreadyLocked => "AlreadyLocked"@,
            PyroErrorView::DocumentError(error) => error.message(),
        }
    }

    /// What a maintainer is told beside the name: the words of the failure
    /// underneath where there is one, a sentence of explanation otherwise;
    /// for the store's own refusal, what that refusal tells.
    pub open spec fn debug_details(self) -> Option<Seq<char>> {
        match self {
            PyroErrorView::CryptError(detail) => Some(detail),
            PyroErrorView::IOError(detail) => Some(detail),
            PyroErrorView::ParsingError(detail) => Some(detail),
            PyroErrorView::NotEncryptedError => Some("The Documents file is not encrypted!"@),
            PyroErrorView::AlreadyLocked => Some("The Documents file is already encrypted!"@),
            PyroErrorView::DocumentError(error) => error.debug_details(),
        }
    }
}

impl PyroError {
    pub fn message(&self) -> (text: String)
        ensures
            text@ == self@.message(),
    {
        match self {
            PyroError::CryptError(_) => "A crypt error has occurred!".to_owned(),
            PyroError::IOError(_) => "An io error has occurred!".to_owned(),
            PyroError::ParsingError(_) => "A parsing error has occurred!".to_owned(),
            PyroError::NotEncryptedError => "The documents are not encrypted!".to_owned(),
            PyroError::AlreadyLocked => "The documents are already encrypted!".to_owned(),
            PyroError::DocumentError(error) => error.message(),
        }
    }

    pub fn source(&self) -> (detail: Option<String>)
        ensures
            detail is Some == self@.source() is Some,
            detail matches Some(text) ==> self@.source() == Some(text@),
    {
        match self {
            PyroError::CryptError(detail) => Some(detail.clone()),
            PyroError::IOError(detail) => Some(detail.clone()),
            PyroError::ParsingError(detail) => Some(detail.clone()),
            _ => None,
        }
    }
}

/// What the user interface is handed when an operation fails: a message to
/// show, and details for whoever looks into it.
#[derive(Debug, PartialEq, Eq)]
pub struct UserError {
    pub error_display_msg: String,
    pub debug_details: Option<String>,
}

pub struct UserErrorView {
    pub error_display_msg: Seq<char>,
    pub debug_details: Option<Seq<char>>,
}

impl View for UserError {
    type V = UserErrorView;

    open spec fn view(&self) -> UserErrorView {
        UserErrorView {
            error_display_msg: self.error_display_msg@,
            debug_details: match self.debug_details {
                Some(text) => Some(text@),
                None => None,
            },
        }
    }
}

impl UserErrorView {
    pub open spec fn of_doc_error(error: DocErrorView) -> UserErrorView {
        UserErrorView { error_display_msg: error.message(), debug_details: error.debug_details() }
    }

    pub open spec fn of_pyro_error(error: PyroErrorView) -> UserErrorView {
        UserErrorView {
            error_display_msg: error.display_name(),
            debug_details: error.debug_details(),
        }
    }
}

impl From<DocError> for UserError {
    fn from(doc_error: DocError) -> (user_error: Self)
        ensures
            user_error@ == UserErrorView::of_doc_error(doc_error@),
    {
        let error_display_msg = doc_error.message();
        let debug_details = match doc_error {
            DocError::DocumentNotFound => None,
            DocError::SavedWhenLocked => None,
            DocError::InternalDbError(detail) => Some(detail),
            DocError::NoPhysicalDb => Some("NoPhysicalDb".to_owned()),
            DocError::InvalidName => Some("InvalidName".to_owned()),
        };
        UserError { error_display_msg, debug_details }
    }
}

impl FromSpecImpl<DocError> for UserError {
    open spec fn obeys_from_spec() -> bool {
        false
    }

    open spec fn from_spec(doc_error: DocError) -> Self {
        arbitrary()
    }
}

impl From<PyroError> for UserError {
    fn from(pyro_error: PyroError) -> (user_error: Self)
        ensures
            user_error@ == UserErrorView::of_pyro_error(pyro_error@),
    {
        let (name, details) = match pyro_error {
            PyroError::DocumentError(doc_error) => {
                return UserError::from(doc_error);
            },
            PyroError::ParsingError(err) => ("Parsing Error", Some(err)),
            PyroError::IOError(err) => ("IO Error", Some(err)),
            PyroError::CryptError(err) => ("Crypt Error", Some(err)),
            PyroError::NotEncryptedError => (
                "NotEncryptedError",
                Some("The Documents file is not encrypted!".to_owned()),
            ),
            PyroError::AlreadyLocked => (
                "AlreadyLocked",
                Some("The Documents file is already encrypted!".to_owned()),
            ),
        };
        UserError { error_display_msg: name.to_owned(), debug_details: details }
    }
}

impl FromSpecImpl<PyroError> for UserError {
    open spec fn obeys_from_spec() -> bool {
        false
    }

    open spec fn from_spec(pyro_error: PyroError) -> Self {
        arbitrary()
    }
}

} // verus!
