use pyro::crypt::{CryptJob, EngineOutcome};
use pyro::document::Document;
use pyro::errors::{DocError, PyroError};
use pyro::lock_state::LockState;
use pyro::manager::DocumentManager;

fn setup() -> DocumentManager {
    DocumentManager::new_in_memory()
}

fn on_disk() -> DocumentManager {
    DocumentManager::new("pyroDB.sqlite3", Some(false))
}

fn doc(name: &str, text: &str) -> Document {
    Document::new(None, name.to_string(), text.to_string())
}

fn lock_now(manager: &mut DocumentManager, password: &str) {
    let job = manager.lock(password).expect("locking may start");
    assert!(job.encrypting);
    manager
        .crypt_operation(true, EngineOutcome::Completed)
        .expect("locking completes");
}

fn unlock_now(manager: &mut DocumentManager, password: &str) {
    let job = manager.unlock(password).expect("unlocking may start");
    assert!(!job.encrypting);
    manager
        .crypt_operation(false, EngineOutcome::Completed)
        .expect("unlocking completes");
}

#[test]
fn test_crypt_operation() {
    let mut manager = on_disk();
    assert_eq!(manager.crypt_operation(true, EngineOutcome::Completed), Ok(()));
    assert_eq!(manager.lock_state(), LockState::Locked);
    assert_eq!(manager.crypt_operation(false, EngineOutcome::Completed), Ok(()));
    assert_eq!(manager.lock_state(), LockState::Unlocked);
}

#[test]
fn make_documents() {
    let manager = setup();
    let unlocked = manager.unlock("p123");
    assert_eq!(unlocked, Err(PyroError::NotEncryptedError));
}

#[test]
fn find_doc_by_name() {
    let manager = setup();
    let found = manager.find_doc_by_name("coolio");
    assert_eq!(found, Err(DocError::DocumentNotFound));
}

#[test]
fn new_store_is_empty_and_unlocked() {
    let manager = on_disk();
    assert!(!manager.is_locked());
    assert!(!manager.is_in_memory());
    assert!(!manager.is_table_initialized());
    assert_eq!(manager.db_name(), Some("pyroDB.sqlite3".to_string()));
    assert_eq!(manager.load_document_names(), Ok(vec![]));
}

#[test]
fn new_store_follows_the_header_probe() {
    assert_eq!(DocumentManager::new("a.db", Some(true)).lock_state(), LockState::Locked);
    assert_eq!(DocumentManager::new("a.db", Some(false)).lock_state(), LockState::Unlocked);
    assert_eq!(DocumentManager::new("a.db", None).lock_state(), LockState::Unlocked);
    assert_eq!(LockState::from_header_probe(Some(true)), LockState::Locked);
    assert_eq!(LockState::from_header_probe(None), LockState::Unlocked);
    assert!(LockState::Locked.is_locked());
    assert!(!LockState::Unlocked.is_locked());
}

#[test]
fn in_memory_store_has_no_artifact() {
    let manager = setup();
    assert!(manager.is_in_memory());
    assert!(!manager.is_locked());
    assert_eq!(manager.db_name(), None);
    let by_default = DocumentManager::default();
    assert!(by_default.is_in_memory());
    assert_eq!(by_default.db_name(), None);
}

#[test]
fn initialize_table_is_idempotent() {
    let mut manager = setup();
    assert_eq!(manager.initialize_table(), Ok(()));
    assert!(manager.is_table_initialized());
    assert_eq!(manager.initialize_table(), Ok(()));
    assert!(manager.is_table_initialized());
    assert_eq!(manager.load_document_names(), Ok(vec![]));
}

#[test]
fn initialize_table_leaves_a_locked_store_alone() {
    let mut manager = DocumentManager::new("a.db", Some(true));
    assert_eq!(manager.initialize_table(), Ok(()));
    assert!(!manager.is_table_initialized());
    assert!(manager.is_locked());
}

#[test]
fn saved_document_is_found_again() {
    let mut manager = setup();
    assert_eq!(manager.save_document(&doc("groceries", "eggs, flour")), Ok(()));
    let found = manager.find_doc_by_name("groceries").expect("the document was saved");
    assert_eq!(found.get_document_name(), "groceries");
    assert_eq!(found.get_text(), "eggs, flour");
    assert_eq!(found.get_id(), None);
    assert!(manager.is_table_initialized());
}

#[test]
fn save_keeps_id_and_text_as_given() {
    let mut manager = setup();
    let given = Document::new(Some(7), "plan".to_string(), "Step ONE".to_string());
    assert_eq!(manager.save_document(&given), Ok(()));
    assert_eq!(manager.find_doc_by_name("plan"), Ok(given));
}

#[test]
fn names_are_normalized_on_save_and_on_find() {
    let mut manager = setup();
    assert_eq!(manager.save_document(&doc("ToDo List", "Buy Milk")), Ok(()));
    let found = manager.find_doc_by_name("TODO list").expect("found under any case");
    assert_eq!(found.get_document_name(), "todo list");
    assert_eq!(found.get_text(), "Buy Milk");
    assert_eq!(manager.load_document_names(), Ok(vec!["todo list".to_string()]));
}

#[test]
fn saving_twice_leaves_one_document() {
    let mut manager = setup();
    assert_eq!(manager.save_document(&doc("todo", "buy milk")), Ok(()));
    assert_eq!(manager.save_document(&doc("todo", "buy milk")), Ok(()));
    assert_eq!(manager.load_document_names(), Ok(vec!["todo".to_string()]));
    assert_eq!(manager.find_doc_by_name("todo"), Ok(doc("todo", "buy milk")));
}

#[test]
fn saving_again_replaces_the_text() {
    let mut manager = setup();
    assert_eq!(manager.save_document(&doc("todo", "buy milk")), Ok(()));
    assert_eq!(manager.save_document(&doc("other", "keep me")), Ok(()));
    assert_eq!(manager.save_document(&doc("Todo", "buy bread")), Ok(()));
    assert_eq!(manager.find_doc_by_name("todo"), Ok(doc("todo", "buy bread")));
    assert_eq!(manager.find_doc_by_name("other"), Ok(doc("other", "keep me")));
    assert_eq!(
        manager.load_document_names(),
        Ok(vec!["todo".to_string(), "other".to_string()])
    );
}

#[test]
fn empty_name_is_invalid() {
    let mut manager = setup();
    assert_eq!(manager.save_document(&doc("", "text")), Err(DocError::InvalidName));
    assert_eq!(manager.load_document_names(), Ok(vec![]));
    assert!(!manager.is_table_initialized());
}

#[test]
fn locked_store_refuses_saves() {
    let mut manager = on_disk();
    assert_eq!(manager.save_document(&doc("todo", "buy milk")), Ok(()));
    lock_now(&mut manager, "secret");
    assert!(manager.is_locked());
    assert_eq!(manager.save_document(&doc("todo", "x")), Err(DocError::SavedWhenLocked));
    assert_eq!(manager.save_document(&doc("new", "y")), Err(DocError::SavedWhenLocked));
    assert_eq!(manager.save_document(&doc("", "z")), Err(DocError::SavedWhenLocked));
    unlock_now(&mut manager, "secret");
    assert_eq!(manager.find_doc_by_name("todo"), Ok(doc("todo", "buy milk")));
    assert_eq!(manager.find_doc_by_name("new"), Err(DocError::DocumentNotFound));
    assert_eq!(manager.load_document_names(), Ok(vec!["todo".to_string()]));
}

#[test]
fn locked_store_refuses_reads_but_lists_names() {
    let mut manager = on_disk();
    assert_eq!(manager.save_document(&doc("todo", "buy milk")), Ok(()));
    lock_now(&mut manager, "secret");
    assert_eq!(
        manager.find_doc_by_name("todo"),
        Err(DocError::InternalDbError(
            "The documents are encrypted and cannot be read.".to_string()
        ))
    );
    assert_eq!(manager.load_document_names(), Ok(vec!["todo".to_string()]));
}

#[test]
fn unlock_of_a_fresh_store_is_refused() {
    let mut manager = on_disk();
    assert_eq!(manager.unlock("secret"), Err(PyroError::NotEncryptedError));
    assert_eq!(
        manager.crypt_operation(false, EngineOutcome::Completed),
        Err(PyroError::NotEncryptedError)
    );
    assert!(!manager.is_locked());
    let mut in_memory = setup();
    assert_eq!(in_memory.unlock("secret"), Err(PyroError::NotEncryptedError));
    assert_eq!(
        in_memory.crypt_operation(false, EngineOutcome::Failed("no".to_string())),
        Err(PyroError::NotEncryptedError)
    );
}

#[test]
fn lock_of_a_locked_store_is_refused() {
    let mut manager = on_disk();
    lock_now(&mut manager, "secret");
    assert_eq!(manager.lock("secret"), Err(PyroError::AlreadyLocked));
    assert_eq!(
        manager.crypt_operation(true, EngineOutcome::Completed),
        Err(PyroError::AlreadyLocked)
    );
    assert!(manager.is_locked());
}

#[test]
fn lock_needs_an_artifact() {
    let mut manager = setup();
    assert_eq!(manager.lock("secret"), Err(PyroError::DocumentError(DocError::NoPhysicalDb)));
    assert_eq!(
        manager.crypt_operation(true, EngineOutcome::Completed),
        Err(PyroError::DocumentError(DocError::NoPhysicalDb))
    );
    assert!(!manager.is_locked());
}

#[test]
fn lock_job_names_the_artifact_and_the_password() {
    let manager = DocumentManager::new("notes/pyroDB.sqlite3", None);
    assert_eq!(
        manager.lock("secret"),
        Ok(CryptJob {
            encrypting: true,
            password: "secret".to_string(),
            paths: vec!["notes/pyroDB.sqlite3".to_string()],
        })
    );
    assert!(!manager.is_locked());
    let locked = DocumentManager::new("notes/pyroDB.sqlite3", Some(true));
    assert_eq!(
        locked.unlock("other"),
        Ok(CryptJob {
            encrypting: false,
            password: "other".to_string(),
            paths: vec!["notes/pyroDB.sqlite3".to_string()],
        })
    );
    assert!(locked.is_locked());
}

#[test]
fn lock_then_unlock_restores_the_documents() {
    let mut manager = on_disk();
    assert_eq!(manager.save_document(&doc("a", "first")), Ok(()));
    assert_eq!(manager.save_document(&doc("b", "second")), Ok(()));
    assert_eq!(manager.save_document(&doc("c", "third")), Ok(()));
    let names_before = manager.load_document_names();
    lock_now(&mut manager, "p");
    unlock_now(&mut manager, "p");
    assert_eq!(manager.load_document_names(), names_before);
    assert_eq!(manager.find_doc_by_name("a"), Ok(doc("a", "first")));
    assert_eq!(manager.find_doc_by_name("b"), Ok(doc("b", "second")));
    assert_eq!(manager.find_doc_by_name("c"), Ok(doc("c", "third")));
    assert_eq!(manager.lock_state(), LockState::Unlocked);
}

#[test]
fn failed_unlock_stays_locked() {
    let mut manager = on_disk();
    assert_eq!(manager.save_document(&doc("todo", "buy milk")), Ok(()));
    lock_now(&mut manager, "p");
    let job = manager.unlock("p2").expect("unlocking may start");
    assert_eq!(job.password, "p2");
    assert_eq!(
        manager.crypt_operation(false, EngineOutcome::Failed("wrong password".to_string())),
        Err(PyroError::CryptError("wrong password".to_string()))
    );
    assert!(manager.is_locked());
    assert_eq!(manager.save_document(&doc("todo", "x")), Err(DocError::SavedWhenLocked));
    unlock_now(&mut manager, "p");
    assert_eq!(manager.find_doc_by_name("todo"), Ok(doc("todo", "buy milk")));
}

#[test]
fn failed_lock_stays_unlocked() {
    let mut manager = on_disk();
    let _ = manager.lock("p").expect("locking may start");
    assert_eq!(
        manager.crypt_operation(true, EngineOutcome::Failed("disk full".to_string())),
        Err(PyroError::CryptError("disk full".to_string()))
    );
    assert!(!manager.is_locked());
    assert_eq!(manager.save_document(&doc("todo", "buy milk")), Ok(()));
}

#[test]
fn todo_scenario() {
    let mut manager = on_disk();
    assert_eq!(manager.save_document(&doc("todo", "buy milk")), Ok(()));
    let found = manager.find_doc_by_name("todo").expect("saved a moment ago");
    assert_eq!(found.get_document_name(), "todo");
    assert_eq!(found.get_text(), "buy milk");
    assert_eq!(manager.load_document_names(), Ok(vec!["todo".to_string()]));
    lock_now(&mut manager, "secret");
    assert_eq!(manager.save_document(&doc("todo", "x")), Err(DocError::SavedWhenLocked));
    unlock_now(&mut manager, "secret");
    let again = manager.find_doc_by_name("todo").expect("still there");
    assert_eq!(again.get_document_name(), "todo");
    assert_eq!(again.get_text(), "buy milk");
}

#[test]
fn restore_rebuilds_table_and_index() {
    let mut manager = on_disk();
    assert_eq!(manager.save_document(&doc("stale", "gone after restore")), Ok(()));
    let rows = vec![
        Document::new(Some(1), "Alpha".to_string(), "one".to_string()),
        Document::new(Some(2), "beta".to_string(), "two".to_string()),
        Document::new(Some(3), "ALPHA".to_string(), "shadowed".to_string()),
    ];
    assert_eq!(manager.restore(rows), Ok(()));
    assert_eq!(
        manager.load_document_names(),
        Ok(vec!["alpha".to_string(), "beta".to_string()])
    );
    assert_eq!(
        manager.find_doc_by_name("alpha"),
        Ok(Document::new(Some(1), "alpha".to_string(), "one".to_string()))
    );
    assert_eq!(
        manager.find_doc_by_name("beta"),
        Ok(Document::new(Some(2), "beta".to_string(), "two".to_string()))
    );
    assert_eq!(manager.find_doc_by_name("stale"), Err(DocError::DocumentNotFound));
    assert!(manager.is_table_initialized());
}

#[test]
fn restore_refuses_an_empty_name_and_a_locked_store() {
    let mut manager = on_disk();
    assert_eq!(manager.save_document(&doc("kept", "text")), Ok(()));
    let rows = vec![doc("fine", "a"), doc("", "b")];
    assert_eq!(manager.restore(rows), Err(DocError::InvalidName));
    assert_eq!(manager.load_document_names(), Ok(vec!["kept".to_string()]));
    lock_now(&mut manager, "p");
    assert_eq!(manager.restore(vec![doc("fine", "a")]), Err(DocError::SavedWhenLocked));
    assert_eq!(manager.load_document_names(), Ok(vec!["kept".to_string()]));
}

#[test]
fn restore_of_no_rows_empties_the_store() {
    let mut manager = setup();
    assert_eq!(manager.save_document(&doc("kept", "text")), Ok(()));
    assert_eq!(manager.restore(vec![]), Ok(()));
    assert_eq!(manager.load_document_names(), Ok(vec![]));
    assert_eq!(manager.find_doc_by_name("kept"), Err(DocError::DocumentNotFound));
}

#[test]
fn documents_compare_by_id_name_and_text() {
    let a = Document::new(Some(1), "n".to_string(), "t".to_string());
    assert_eq!(a, Document::new(Some(1), "n".to_string(), "t".to_string()));
    assert_ne!(a, Document::new(None, "n".to_string(), "t".to_string()));
    assert_ne!(a, Document::new(Some(1), "m".to_string(), "t".to_string()));
    assert_ne!(a, Document::new(Some(1), "n".to_string(), "u".to_string()));
    assert_eq!(a.clone(), a);
    assert!(a.is_named(&"n".to_string()));
    assert!(!a.is_named(&"N".to_string()));
}
