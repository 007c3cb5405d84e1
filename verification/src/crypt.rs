use crate::name_index::names_of;
use vstd::prelude::*;

verus! {

/// What the host has to do to the backing artifact for a transition of the
/// lock state: encrypt or decrypt the files at `paths`, in place, with
/// `password`.
#[derive(Debug, PartialEq, Eq)]
pub struct CryptJob {
    pub encrypting: bool,
    pub password: String,
    pub paths: Vec<String>,
}

pub struct CryptJobView {
    pub encrypting: bool,
    pub password: Seq<char>,
    pub paths: Seq<Seq<char>>,
}

impl View for CryptJob {
    type V = CryptJobView;

    open spec fn view(&self) -> CryptJobView {
        CryptJobView {
            encrypting: self.encrypting,
            password: self.password@,
            paths: names_of(self.paths@),
        }
    }
}

/// How the encryption engine's work on a job ended.
#[derive(Debug, PartialEq, Eq)]
pub enum EngineOutcome {
    /// Every file was transformed.
    Completed,
    /// The engine refused or failed, for instance on a wrong password; the
    /// text is the engine's.
    Failed(String),
}

pub enum EngineOutcomeView {
    Completed,
    Failed(Seq<char>),
}

impl View for EngineOutcome {
    type V = EngineOutcomeView;

    open spec fn view(&self) -> EngineOutcomeView {
        match self {
            EngineOutcome::Completed => EngineOutcomeView::Completed,
            EngineOutcome::Failed(detail) => EngineOutcomeView::Failed(detail@),
        }
    }
}

} // verus!
