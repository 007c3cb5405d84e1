use vstd::prelude::*;
use vstd::std_specs::cmp::PartialEqSpecImpl;

verus! {

/// What a document is, as plain mathematical values.
pub struct DocumentView {
    pub id: Option<i64>,
    pub name: Seq<char>,
    pub text: Seq<char>,
}

/// One note: an optional surrogate key, a name, and the text.
///
/// A document is never changed in place. Saving under the same name puts a
/// new value where the old one was.
#[derive(Debug, Eq, Hash, PartialOrd)]
pub struct Document {
    id: Option<i64>,
    document_name: String,
    text: String,
}

impl View for Document {
    type V = DocumentView;

    closed spec fn view(&self) -> DocumentView {
        DocumentView { id: self.id, name: self.document_name@, text: self.text@ }
    }
}

impl Document {
    pub fn new(id: Option<i64>, doc_name: String, text: String) -> (doc: Self)
        ensures
            doc@ == (DocumentView { id, name: doc_name@, text: text@ }),
    {
        Self { id, document_name: doc_name, text }
    }

    pub fn get_id(&self) -> (id: Option<i64>)
        ensures
            id == self@.id,
    {
        self.id
    }

    pub fn get_document_name(&self) -> (name: &str)
        ensures
            name@ == self@.name,
    {
        self.document_name.as_str()
    }

    pub fn get_text(&self) -> (text: &str)
        ensures
            text@ == self@.text,
    {
        self.text.as_str()
    }

    /// Whether this document's name is exactly `name`.
    pub fn is_named(&self, name: &String) -> (same: bool)
        ensures
            same == (self@.name == name@),
    {
        self.document_name == *name
    }
}

impl Clone for Document {
    fn clone(&self) -> (doc: Self)
        ensures
            doc@ == self@,
    {
        Self { id: self.id, document_name: self.document_name.clone(), text: self.text.clone() }
    }
}

impl PartialEq for Document {
    /// Two documents are equal when id, name and text all match.
    fn eq(&self, other: &Self) -> (same: bool) {
        self.id == other.id && self.document_name == other.document_name && self.text
            == other.text
    }
}

impl PartialEqSpecImpl for Document {
    open spec fn obeys_eq_spec() -> bool {
        true
    }

    open spec fn eq_spec(&self, other: &Self) -> bool {
        self@ == other@
    }
}

} // verus!
