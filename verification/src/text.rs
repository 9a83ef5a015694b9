//! Text operations that the rest of the library builds on.

use vstd::prelude::*;

verus! {

/// `needle` occurs in `haystack` as a contiguous run of characters.
pub open spec fn occurs_in(needle: Seq<char>, haystack: Seq<char>) -> bool {
    exists|i: int|
        0 <= i && i + needle.len() <= haystack.len()
            && #[trigger] haystack.subrange(i, i + needle.len()) == needle
}

/// Equality of two string slices, by `str`'s `==` of the standard library:
/// true exactly when both hold the same characters.
#[verifier::external_body]
pub(crate) fn same_text(a: &str, b: &str) -> (same: bool)
    ensures
        same == (a@ == b@),
{
    a == b
}

/// Substring test, by `str::contains` of the standard library: true exactly
/// when `needle` occurs somewhere in `haystack`.
#[verifier::external_body]
pub(crate) fn contains_text(haystack: &str, needle: &str) -> (found: bool)
    ensures
        found == occurs_in(needle@, haystack@),
{
    haystack.contains(needle)
}

/// The texts that are present in `texts`, in order.
pub open spec fn present_texts(texts: Seq<Option<Seq<char>>>) -> Seq<Seq<char>>
    decreases texts.len(),
{
    if texts.len() == 0 {
        Seq::empty()
    } else {
        let before = present_texts(texts.drop_last());
        match texts.last() {
            Some(text) => before.push(text),
            None => before,
        }
    }
}

/// The texts of `names` without repetitions: each text stands where it
/// first occurs.
pub open spec fn deduplicated(names: Seq<Seq<char>>) -> Seq<Seq<char>>
    decreases names.len(),
{
    if names.len() == 0 {
        Seq::empty()
    } else {
        let before = deduplicated(names.drop_last());
        if before.contains(names.last()) {
            before
        } else {
            before.push(names.last())
        }
    }
}

/// A deduplicated list holds no text twice, and holds exactly the texts of
/// the list it was made from.
pub proof fn lemma_deduplicated(names: Seq<Seq<char>>)
    ensures
        deduplicated(names).no_duplicates(),
        forall|name: Seq<char>|
            #![trigger deduplicated(names).contains(name)]
            #![trigger names.contains(name)]
            deduplicated(names).contains(name) <==> names.contains(name),
        deduplicated(names).len() <= names.len(),
    decreases names.len(),
{
    if names.len() > 0 {
        let before = deduplicated(names.drop_last());
        lemma_deduplicated(names.drop_last());
        assert forall|name: Seq<char>|
            #![trigger deduplicated(names).contains(name)]
            #![trigger names.contains(name)]
            deduplicated(names).contains(name) <==> names.contains(name) by {
            if names.contains(name) {
                let i = choose|i: int| 0 <= i < names.len() && names[i] == name;
                if i < names.len() - 1 {
                    assert(names.drop_last()[i] == name);
                    assert(names.drop_last().contains(name));
                    let j = choose|j: int| 0 <= j < before.len() && before[j] == name;
                    assert(deduplicated(names)[j] == name);
                } else if !before.contains(names.last()) {
                    assert(deduplicated(names)[before.len() as int] == name);
                } else {
                    let j = choose|j: int| 0 <= j < before.len() && before[j] == name;
                    assert(deduplicated(names)[j] == name);
                }
            }
            if deduplicated(names).contains(name) {
                let j = choose|j: int|
                    0 <= j < deduplicated(names).len() && deduplicated(names)[j] == name;
                if j < before.len() {
                    assert(before[j] == name);
                    assert(before.contains(name));
                    let i = choose|i: int|
                        0 <= i < names.drop_last().len() && names.drop_last()[i] == name;
                    assert(names[i] == name);
                } else {
                    assert(names[names.len() - 1] == name);
                }
            }
        }
    }
}

/// The texts that are present in `texts`, in order.
pub fn present(texts: Vec<Option<String>>) -> (found: Vec<String>)
    ensures
        found.deep_view() == present_texts(texts.deep_view()),
{
    let mut found: Vec<String> = Vec::new();
    let mut i: usize = 0;
    assert(found.deep_view() =~= Seq::<Seq<char>>::empty());
    while i < texts.len()
        invariant
            i <= texts.len(),
            found.deep_view() == present_texts(texts.deep_view().take(i as int)),
        decreases texts.len() - i,
    {
        let ghost before = found.deep_view();
        proof {
            let upto = texts.deep_view().take(i + 1);
            assert(upto.drop_last() =~= texts.deep_view().take(i as int));
            assert(upto.last() == texts[i as int].deep_view());
        }
        match &texts[i] {
            Some(text) => {
                found.push(text.clone());
                assert(found.deep_view() =~= before.push(text@));
            },
            None => {},
        }
        i += 1;
    }
    assert(texts.deep_view().take(texts.len() as int) =~= texts.deep_view());
    found
}

/// Whether `names` holds the text `name`.
pub fn holds(names: &Vec<String>, name: &str) -> (found: bool)
    ensures
        found == names.deep_view().contains(name@),
{
    let mut i: usize = 0;
    while i < names.len()
        invariant
            i <= names.len(),
            forall|k: int| 0 <= k < i ==> names.deep_view()[k] != name@,
        decreases names.len() - i,
    {
        if same_text(names[i].as_str(), name) {
            assert(names.deep_view()[i as int] == name@);
            return true;
        }
        i += 1;
    }
    false
}

/// The texts of `names` without repetitions: each text stays where it first
/// occurs.
pub fn deduplicate(names: Vec<String>) -> (unique: Vec<String>)
    ensures
        unique.deep_view() == deduplicated(names.deep_view()),
{
    let mut unique: Vec<String> = Vec::new();
    let mut i: usize = 0;
    assert(unique.deep_view() =~= Seq::<Seq<char>>::empty());
    while i < names.len()
        invariant
            i <= names.len(),
            unique.deep_view() == deduplicated(names.deep_view().take(i as int)),
        decreases names.len() - i,
    {
        let ghost before = unique.deep_view();
        proof {
            let upto = names.deep_view().take(i + 1);
            assert(upto.drop_last() =~= names.deep_view().take(i as int));
            assert(upto.last() == names[i as int]@);
        }
        if !holds(&unique, names[i].as_str()) {
            unique.push(names[i].clone());
            assert(unique.deep_view() =~= before.push(names[i as int]@));
        }
        i += 1;
    }
    assert(names.deep_view().take(names.len() as int) =~= names.deep_view());
    unique
}

} // verus!
