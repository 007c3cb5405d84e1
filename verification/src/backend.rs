use crate::document::{Document, DocumentView};
use crate::errors::{DocError, DocErrorView};
use crate::name_index::names_of;
use vstd::prelude::*;

verus! {

/// The table that a sequence of rows stands for: each name is mapped to the
/// row that holds it.
pub open spec fn table_of(rows: Seq<DocumentView>) -> Map<Seq<char>, DocumentView>
    decreases rows.len(),
{
    if rows.len() == 0 {
        Map::empty()
    } else {
        table_of(rows.drop_last()).insert(rows.last().name, rows.last())
    }
}

/// No two rows share a name.
pub open spec fn unique_names(rows: Seq<DocumentView>) -> bool {
    forall|i: int, j: int| 0 <= i < j < rows.len() ==> rows[i].name != rows[j].name
}

/// A name is in the table exactly when some row holds it.
pub proof fn lemma_table_keys(rows: Seq<DocumentView>, name: Seq<char>)
    ensures
        table_of(rows).contains_key(name) <==> exists|i: int|
            0 <= i < rows.len() && #[trigger] rows[i].name == name,
    decreases rows.len(),
{
    if rows.len() > 0 {
        let front = rows.drop_last();
        lemma_table_keys(front, name);
        if table_of(rows).contains_key(name) {
            if rows.last().name == name {
                assert(rows[rows.len() - 1].name == name);
            } else {
                let i = choose|i: int| 0 <= i < front.len() && #[trigger] front[i].name == name;
                assert(rows[i].name == name);
            }
        }
        if exists|i: int| 0 <= i < rows.len() && #[trigger] rows[i].name == name {
            let i = choose|i: int| 0 <= i < rows.len() && #[trigger] rows[i].name == name;
            if i < front.len() {
                assert(front[i].name == name);
            }
        }
    }
}

/// Where names are unique, the table gives back each row under its name.
pub proof fn lemma_table_row(rows: Seq<DocumentView>, i: int)
    requires
        unique_names(rows),
        0 <= i < rows.len(),
    ensures
        table_of(rows).contains_key(rows[i].name),
        table_of(rows)[rows[i].name] == rows[i],
    decreases rows.len(),
{
    let front = rows.drop_last();
    if i < rows.len() - 1 {
        assert(unique_names(front));
        lemma_table_row(front, i);
        assert(front[i] == rows[i]);
        assert(rows[i].name != rows[rows.len() - 1].name);
    }
}

/// Putting a document in place of the row that holds its name is an insert
/// into the table, and keeps the names unique.
pub proof fn lemma_table_replace(rows: Seq<DocumentView>, i: int, doc: DocumentView)
    requires
        unique_names(rows),
        0 <= i < rows.len(),
        rows[i].name == doc.name,
    ensures
        unique_names(rows.update(i, doc)),
        table_of(rows.update(i, doc)) == table_of(rows).insert(doc.name, doc),
    decreases rows.len(),
{
    let replaced = rows.update(i, doc);
    let front = rows.drop_last();
    if i == rows.len() - 1 {
        assert(replaced.drop_last() =~= front);
        assert(table_of(replaced) =~= table_of(rows).insert(doc.name, doc));
    } else {
        assert(unique_names(front));
        lemma_table_replace(front, i, doc);
        assert(replaced.drop_last() =~= front.update(i, doc));
        assert(replaced.last() == rows.last());
        assert(rows[i].name != rows[rows.len() - 1].name);
        assert(table_of(replaced) =~= table_of(rows).insert(doc.name, doc));
    }
}

/// Appending a document under a name that no row holds is an insert into
/// the table, and keeps the names unique.
pub proof fn lemma_table_append(rows: Seq<DocumentView>, doc: DocumentView)
    requires
        unique_names(rows),
        !table_of(rows).contains_key(doc.name),
    ensures
        unique_names(rows.push(doc)),
        table_of(rows.push(doc)) == table_of(rows).insert(doc.name, doc),
{
    let appended = rows.push(doc);
    assert(appended.drop_last() =~= rows);
    assert forall|i: int, j: int| 0 <= i < j < appended.len() implies appended[i].name
        != appended[j].name by {
        if j == rows.len() {
            lemma_table_keys(rows, doc.name);
            assert(rows[i].name != doc.name);
        }
    }
}

/// The storage of a document store: a table of documents keyed by name.
///
/// Saving is an upsert: a document takes the place of the one that had its
/// name, or is added where the name is new. The table never holds two
/// documents under one name.
#[derive(Debug)]
pub struct StorageBackend {
    rows: Vec<Document>,
    initialized: bool,
}

impl View for StorageBackend {
    type V = Map<Seq<char>, DocumentView>;

    closed spec fn view(&self) -> Map<Seq<char>, DocumentView> {
        table_of(self.rows_view())
    }
}

impl StorageBackend {
    /// The rows in the order in which their names were first saved.
    pub closed spec fn rows_view(&self) -> Seq<DocumentView> {
        Seq::new(self.rows.len() as nat, |i: int| self.rows[i]@)
    }

    pub closed spec fn initialized(&self) -> bool {
        self.initialized
    }

    /// No two rows share a name.
    pub closed spec fn wf(&self) -> bool {
        unique_names(self.rows_view())
    }

    /// An empty storage whose table has not been set up.
    pub fn new() -> (backend: Self)
        ensures
            backend.wf(),
            backend@ == Map::<Seq<char>, DocumentView>::empty(),
            !backend.initialized(),
    {
        StorageBackend { rows: Vec::new(), initialized: false }
    }

    /// Makes sure that the table exists. Calling it again changes nothing.
    pub fn initialize(&mut self)
        ensures
            final(self).initialized(),
            final(self)@ == old(self)@,
            final(self).wf() == old(self).wf(),
    {
        self.initialized = true;
        assert(self.rows_view() =~= old(self).rows_view());
    }

    pub fn is_initialized(&self) -> (ready: bool)
        ensures
            ready == self.initialized(),
    {
        self.initialized
    }

    /// The position of the row that holds `name`, if there is one.
    fn position(&self, name: &str) -> (found: Option<usize>)
        ensures
            match found {
                Some(i) => i < self.rows_view().len() && self.rows_view()[i as int].name == name@,
                None => forall|j: int|
                    0 <= j < self.rows_view().len() ==> self.rows_view()[j].name != name@,
            },
    {
        let key = name.to_owned();
        let mut i: usize = 0;
        while i < self.rows.len()
            invariant
                i <= self.rows.len(),
                key@ == name@,
                forall|j: int| 0 <= j < i ==> self.rows_view()[j].name != name@,
            decreases self.rows.len() - i,
        {
            if self.rows[i].is_named(&key) {
                return Some(i);
            }
            i += 1;
        }
        None
    }

    /// Whether a document is saved under exactly this name.
    pub fn contains(&self, name: &str) -> (known: bool)
        ensures
            known == self@.contains_key(name@),
    {
        proof {
            lemma_table_keys(self.rows_view(), name@);
        }
        self.position(name).is_some()
    }

    /// Saves a document under its name: it takes the place of the document
    /// that had the name, or is added where the name is new. Sets the table
    /// up where that was not done.
    pub fn save(&mut self, doc: Document)
        requires
            old(self).wf(),
        ensures
            final(self).wf(),
            final(self)@ == old(self)@.insert(doc@.name, doc@),
            final(self).initialized(),
    {
        let ghost before = self.rows_view();
        let ghost added = doc@;
        self.initialized = true;
        match self.position(doc.get_document_name()) {
            Some(i) => {
                self.rows.set(i, doc);
                proof {
                    assert(self.rows_view() =~= before.update(i as int, added));
                    lemma_table_replace(before, i as int, added);
                }
            },
            None => {
                self.rows.push(doc);
                proof {
                    assert(self.rows_view() =~= before.push(added));
                    lemma_table_keys(before, added.name);
                    lemma_table_append(before, added);
                }
            },
        }
    }

    /// Finds the document saved under exactly this name.
    pub fn find_by_name(&self, name: &str) -> (found: Result<Document, DocError>)
        requires
            self.wf(),
        ensures
            match found {
                Ok(doc) => self@.contains_key(name@) && doc@ == self@[name@],
                Err(error) => !self@.contains_key(name@) && error@
                    == DocErrorView::DocumentNotFound,
            },
    {
        proof {
            lemma_table_keys(self.rows_view(), name@);
        }
        match self.position(name) {
            Some(i) => {
                proof {
                    lemma_table_row(self.rows_view(), i as int);
                }
                Ok(self.rows[i].clone())
            },
            None => Err(DocError::DocumentNotFound),
        }
    }

    /// The names of all documents in the table, each once.
    pub fn list_names(&self) -> (names: Vec<String>)
        requires
            self.wf(),
        ensures
            names_of(names@).no_duplicates(),
            names_of(names@).to_set() == self@.dom(),
    {
        let mut names: Vec<String> = Vec::new();
        let mut i: usize = 0;
        while i < self.rows.len()
            invariant
                i <= self.rows.len(),
                names.len() == i,
                forall|j: int| 0 <= j < i ==> names[j]@ == self.rows_view()[j].name,
            decreases self.rows.len() - i,
        {
            names.push(self.rows[i].get_document_name().to_owned());
            i += 1;
        }
        proof {
            let listed = names_of(names@);
            let rows = self.rows_view();
            assert forall|name: Seq<char>| listed.to_set().contains(name) == self@.dom().contains(
                name,
            ) by {
                lemma_table_keys(rows, name);
                if listed.contains(name) {
                    let j = choose|j: int| 0 <= j < listed.len() && listed[j] == name;
                    assert(rows[j].name == name);
                }
                if self@.dom().contains(name) {
                    let j = choose|j: int| 0 <= j < rows.len() && #[trigger] rows[j].name == name;
                    assert(listed[j] == name);
                }
            }
            assert(listed.to_set() =~= self@.dom());
        }
        names
    }
}

} // verus!
