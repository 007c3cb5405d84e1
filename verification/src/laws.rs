use crate::crypt::EngineOutcomeView;
use crate::document::DocumentView;
use crate::errors::{DocErrorView, PyroErrorView};
use crate::model::{stored_form, StoreState};
use crate::name::{lemma_normalized_idempotent, normalized, valid_name};
use vstd::prelude::*;

verus! {

/// Saving keeps a store in order.
pub proof fn law_save_keeps_order(store: StoreState, doc: DocumentView)
    requires
        store.wf(),
    ensures
        store.save(doc).wf(),
{
    if store.save_refusal(doc) is None {
        let kept = stored_form(doc);
        let after = store.save(doc);
        lemma_normalized_idempotent(doc.name);
        if store.names.contains(kept.name) {
            assert(after.names.to_set() =~= after.documents.dom());
        } else {
            store.names.lemma_push_to_set_commute(kept.name);
            assert(after.names.to_set() =~= after.documents.dom());
            assert forall|i: int, j: int|
                0 <= i < after.names.len() && 0 <= j < after.names.len() && i != j implies after.names[i]
                != after.names[j] by {
                if i < store.names.len() && j < store.names.len() {
                } else if i < store.names.len() {
                    assert(store.names.contains(store.names[i]));
                } else {
                    assert(store.names.contains(store.names[j]));
                }
            }
        }
    }
}

/// A transition of the lock state, taken or not, keeps a store in order.
pub proof fn law_crypt_keeps_order(store: StoreState, encrypting: bool, outcome: EngineOutcomeView)
    requires
        store.wf(),
    ensures
        store.crypt(encrypting, outcome).wf(),
{
}

/// Round trip: a document saved under a valid name on an unlocked store is
/// found again under that name, with the text that was saved.
pub proof fn law_save_then_find(store: StoreState, doc: DocumentView)
    requires
        store.wf(),
        !store.locked(),
        valid_name(doc.name),
    ensures
        store.save_refusal(doc) is None,
        store.save(doc).find(doc.name) == Ok::<DocumentView, DocErrorView>(stored_form(doc)),
        stored_form(doc).text == doc.text,
{
}

/// Saving leaves every other document as it was: a search for another name
/// is answered after the save as it was before.
pub proof fn law_save_leaves_others(store: StoreState, doc: DocumentView, other: Seq<char>)
    requires
        store.wf(),
        normalized(other) != normalized(doc.name),
    ensures
        store.save(doc).find(other) == store.find(other),
{
}

/// Upsert: saving the same document twice leaves the store as saving it
/// once does. Exactly one document then bears the name, it has the text
/// that was saved, and the index holds the name exactly once.
pub proof fn law_save_twice(store: StoreState, doc: DocumentView)
    requires
        store.wf(),
        !store.locked(),
        valid_name(doc.name),
    ensures
        store.save(doc).save(doc) == store.save(doc),
        store.save(doc).documents.contains_key(normalized(doc.name)),
        store.save(doc).documents[normalized(doc.name)].text == doc.text,
        forall|key: Seq<char>|
            store.save(doc).documents.contains_key(key) && store.save(doc).documents[key].name
                == normalized(doc.name) ==> key == normalized(doc.name),
        store.save(doc).names.to_multiset().count(normalized(doc.name)) == 1,
{
    let once = store.save(doc);
    let twice = once.save(doc);
    let name = normalized(doc.name);
    law_save_keeps_order(store, doc);
    assert(once.names.to_set().contains(name));
    assert(once.names.contains(name));
    assert(twice.documents =~= once.documents);
    assert(twice == once);
    once.names.lemma_multiset_has_no_duplicates();
    vstd::seq_lib::to_multiset_contains(once.names, name);
}

/// Lock gate: once locking has succeeded, every save is refused with
/// `SavedWhenLocked` and leaves the store, its documents among the rest, as
/// it was.
pub proof fn law_lock_gate(store: StoreState, doc: DocumentView)
    requires
        store.wf(),
        store.lock_refusal() is None,
    ensures
        store.crypt(true, EngineOutcomeView::Completed).locked(),
        store.crypt(true, EngineOutcomeView::Completed).save_refusal(doc) == Some(
            DocErrorView::SavedWhenLocked,
        ),
        store.crypt(true, EngineOutcomeView::Completed).save(doc) == store.crypt(
            true,
            EngineOutcomeView::Completed,
        ),
        store.crypt(true, EngineOutcomeView::Completed).documents == store.documents,
{
}

/// A store that was just made and whose artifact showed no ciphertext
/// header is in order and unlocked, and so is every store made to live in
/// memory.
pub proof fn law_fresh_store_unlocked(db_name: Seq<char>, header_present: Option<bool>)
    ensures
        StoreState::in_memory().wf(),
        !StoreState::in_memory().locked(),
        StoreState::opened(db_name, header_present).wf(),
        header_present != Some(true) ==> !StoreState::opened(db_name, header_present).locked(),
{
    assert(StoreState::in_memory().names.to_set() =~= StoreState::in_memory().documents.dom());
    let opened = StoreState::opened(db_name, header_present);
    assert(opened.names.to_set() =~= opened.documents.dom());
}

/// Unlock requires lock: on a store that is not locked, a fresh one among
/// them, unlocking is refused with `NotEncryptedError`, and whatever the
/// engine is said to have done the store stays as it was.
pub proof fn law_unlock_requires_lock(store: StoreState, outcome: EngineOutcomeView)
    requires
        !store.locked(),
    ensures
        store.unlock_refusal() == Some(PyroErrorView::NotEncryptedError),
        store.crypt_error(false, outcome) == Some(PyroErrorView::NotEncryptedError),
        store.crypt(false, outcome) == store,
{
}

/// Lock and unlock undo each other: after locking and then unlocking, both
/// with the engine's work completed, the store is what it was before: the
/// same names, and under each name the same document.
pub proof fn law_lock_then_unlock(store: StoreState)
    requires
        store.wf(),
        store.lock_refusal() is None,
    ensures
        store.crypt(true, EngineOutcomeView::Completed).unlock_refusal() is None,
        store.crypt(true, EngineOutcomeView::Completed).crypt(
            false,
            EngineOutcomeView::Completed,
        ) == store,
        store.crypt(true, EngineOutcomeView::Completed).names == store.names,
        store.crypt(true, EngineOutcomeView::Completed).documents == store.documents,
{
}

/// A failed transition changes nothing: where the engine reports a failure,
/// as it does for a wrong password, the error is `CryptError` with the
/// engine's words and the store stays in the state it was in. A locked
/// store stays locked.
pub proof fn law_engine_failure_keeps_state(
    store: StoreState,
    encrypting: bool,
    detail: Seq<char>,
)
    requires
        store.wf(),
        store.crypt_refusal(encrypting) is None,
    ensures
        store.crypt_error(encrypting, EngineOutcomeView::Failed(detail)) == Some(
            PyroErrorView::CryptError(detail),
        ),
        store.crypt(encrypting, EngineOutcomeView::Failed(detail)) == store,
        !encrypting ==> store.crypt(encrypting, EngineOutcomeView::Failed(detail)).locked(),
{
}

} // verus!
