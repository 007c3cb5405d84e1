use crate::crypt::CryptJob;
use crate::document::Document;
use crate::errors::{UserError, UserErrorView};
use crate::manager::DocumentManager;
use crate::model::stored_form;
use crate::name_index::names_of;
use vstd::prelude::*;

verus! {

/// A request of the user interface to the store.
#[derive(Debug, PartialEq, Eq)]
pub enum Cmd {
    SaveDocument { document: Document },
    /// Lock the store (`locking`) or unlock it, with `password`.
    Crypt { password: String, locking: bool },
    ListDocumentNames,
    FindDocument { name: String },
}

/// What a request that was accepted is answered with.
#[derive(Debug, PartialEq, Eq)]
pub enum CmdReply {
    /// The document was saved; this is the form in which it is kept.
    Saved(Document),
    /// The transition may start; the host does this work on the artifact
    /// and reports the outcome to `DocumentManager::crypt_operation`.
    Crypt(CryptJob),
    Names(Vec<String>),
    Found(Document),
}

/// Runs one request against the store. A request that the store refuses
/// comes back as the error to show to the user. Only a document that is
/// saved changes the store; a `Crypt` request changes nothing before the
/// host has done the job that the reply holds.
pub fn run_command(cmd: Cmd, doc_manager: &mut DocumentManager) -> (reply: Result<
    CmdReply,
    UserError,
>)
    requires
        old(doc_manager).wf(),
    ensures
        final(doc_manager).wf(),
        match cmd {
            Cmd::SaveDocument { document } => {
                &&& final(doc_manager)@ == old(doc_manager)@.save(document@)
                &&& match old(doc_manager)@.save_refusal(document@) {
                    Some(refusal) => reply matches Err(shown) && shown@
                        == UserErrorView::of_doc_error(refusal),
                    None => reply matches Ok(CmdReply::Saved(kept)) && kept@ == stored_form(
                        document@,
                    ),
                }
            },
            Cmd::Crypt { password, locking } => {
                &&& final(doc_manager)@ == old(doc_manager)@
                &&& match old(doc_manager)@.crypt_refusal(locking) {
                    Some(refusal) => reply matches Err(shown) && shown@
                        == UserErrorView::of_pyro_error(refusal),
                    None => reply matches Ok(CmdReply::Crypt(job)) && job@ == old(
                        doc_manager,
                    )@.crypt_job(locking, password@),
                }
            },
            Cmd::ListDocumentNames => {
                &&& final(doc_manager)@ == old(doc_manager)@
                &&& reply matches Ok(CmdReply::Names(names)) && names_of(names@) == old(
                    doc_manager,
                )@.names
            },
            Cmd::FindDocument { name } => {
                &&& final(doc_manager)@ == old(doc_manager)@
                &&& match old(doc_manager)@.find(name@) {
                    Ok(expected) => reply matches Ok(CmdReply::Found(doc)) && doc@ == expected,
                    Err(refusal) => reply matches Err(shown) && shown@
                        == UserErrorView::of_doc_error(refusal),
                }
            },
        },
{
    match cmd {
        Cmd::SaveDocument { document } => {
            match doc_manager.save_document(&document) {
                Err(error) => Err(UserError::from(error)),
                Ok(()) => {
                    match doc_manager.find_doc_by_name(document.get_document_name()) {
                        Ok(kept) => Ok(CmdReply::Saved(kept)),
                        Err(error) => Err(UserError::from(error)),
                    }
                },
            }
        },
        Cmd::Crypt { password, locking } => {
            let job = if locking {
                doc_manager.lock(password.as_str())
            } else {
                doc_manager.unlock(password.as_str())
            };
            match job {
                Ok(job) => Ok(CmdReply::Crypt(job)),
                Err(error) => Err(UserError::from(error)),
            }
        },
        Cmd::ListDocumentNames => {
            match doc_manager.load_document_names() {
                Ok(names) => Ok(CmdReply::Names(names)),
                Err(error) => Err(UserError::from(error)),
            }
        },
        Cmd::FindDocument { name } => {
            match doc_manager.find_doc_by_name(name.as_str()) {
                Ok(doc) => Ok(CmdReply::Found(doc)),
                Err(error) => Err(UserError::from(error)),
            }
        },
    }
}

} // verus!
