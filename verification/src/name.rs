use vstd::prelude::*;

verus! {

/// The lower-case form of an ASCII capital letter; every other character is
/// left as it is.
pub open spec fn lower_char(c: char) -> char {
    if 'A' <= c && c <= 'Z' {
        ((c as u8) + 32) as char
    } else {
        c
    }
}

/// The form under which a name is stored and looked up: the same characters,
/// ASCII capitals replaced by their lower-case letters.
pub open spec fn normalized(name: Seq<char>) -> Seq<char> {
    Seq::new(name.len(), |i: int| lower_char(name[i]))
}

/// A name that a document may be saved under: one with a character in it.
pub open spec fn valid_name(name: Seq<char>) -> bool {
    name.len() > 0
}

/// `str::to_ascii_lowercase` returns a copy of the string in which the ASCII
/// letters 'A' to 'Z' are mapped to 'a' to 'z' and every other character is
/// unchanged.
pub assume_specification[ str::to_ascii_lowercase ](s: &str) -> (lower: String)
    ensures
        lower@ == normalized(s@),
;

/// Normalizes the case of a document name.
pub fn normalize_name(name: &str) -> (stored: String)
    ensures
        stored@ == normalized(name@),
{
    name.to_ascii_lowercase()
}

/// Normalizing a name twice gives what normalizing it once gives.
pub proof fn lemma_normalized_idempotent(name: Seq<char>)
    ensures
        normalized(normalized(name)) == normalized(name),
{
    assert(normalized(normalized(name)) =~= normalized(name));
}

} // verus!
