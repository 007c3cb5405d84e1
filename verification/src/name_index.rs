use vstd::prelude::*;

verus! {

/// The names that a vector of strings holds, in the vector's order.
pub open spec fn names_of(strings: Seq<String>) -> Seq<Seq<char>> {
    Seq::new(strings.len(), |i: int| strings[i]@)
}

/// The set of known document names.
///
/// The index answers whether a name is known, and lists the names, without
/// going to the storage. A name is added when a document is saved under it;
/// no name is ever taken out.
#[derive(Debug)]
pub struct NameIndex {
    names: Vec<String>,
}

impl View for NameIndex {
    type V = Set<Seq<char>>;

    open spec fn view(&self) -> Set<Seq<char>> {
        self.entries().to_set()
    }
}

impl NameIndex {
    /// The names in the order in which they were first inserted.
    pub closed spec fn entries(&self) -> Seq<Seq<char>> {
        names_of(self.names@)
    }

    /// No name is held twice.
    pub open spec fn wf(&self) -> bool {
        self.entries().no_duplicates()
    }

    pub fn new() -> (index: Self)
        ensures
            index.wf(),
            index.entries() == Seq::<Seq<char>>::empty(),
            index@ == Set::<Seq<char>>::empty(),
    {
        let index = NameIndex { names: Vec::new() };
        assert(index.entries() =~= Seq::<Seq<char>>::empty());
        assert(index@ =~= Set::<Seq<char>>::empty());
        index
    }

    pub fn contains(&self, name: &str) -> (known: bool)
        ensures
            known == self@.contains(name@),
    {
        let key = name.to_owned();
        let mut i: usize = 0;
        while i < self.names.len()
            invariant
                i <= self.names.len(),
                key@ == name@,
                forall|j: int| 0 <= j < i ==> self.entries()[j] != name@,
            decreases self.names.len() - i,
        {
            if self.names[i] == key {
                assert(self.entries()[i as int] == name@);
                return true;
            }
            i += 1;
        }
        false
    }

    /// Adds a name to the index. Inserting a name that is known already
    /// changes nothing.
    pub fn insert(&mut self, name: String)
        requires
            old(self).wf(),
        ensures
            final(self).wf(),
            final(self)@ == old(self)@.insert(name@),
            final(self).entries() == if old(self)@.contains(name@) {
                old(self).entries()
            } else {
                old(self).entries().push(name@)
            },
    {
        if !self.contains(name.as_str()) {
            let ghost before = self.entries();
            let ghost added = name@;
            self.names.push(name);
            proof {
                assert(self.entries() =~= before.push(added));
                before.lemma_push_to_set_commute(added);
            }
        } else {
            assert(self@ =~= self@.insert(name@));
        }
    }

    /// A copy of the names as they stand now. Later insertions do not show
    /// in it.
    pub fn all(&self) -> (names: Vec<String>)
        ensures
            names_of(names@) == self.entries(),
    {
        let mut names: Vec<String> = Vec::new();
        let mut i: usize = 0;
        while i < self.names.len()
            invariant
                i <= self.names.len(),
                names.len() == i,
                forall|j: int| 0 <= j < i ==> names[j]@ == self.names[j]@,
            decreases self.names.len() - i,
        {
            names.push(self.names[i].clone());
            i += 1;
        }
        assert(names_of(names@) =~= self.entries());
        names
    }

    pub fn len(&self) -> (count: usize)
        ensures
            count == self.entries().len(),
    {
        self.names.len()
    }
}

} // verus!
