//! Finding a record by its name in a list of records.

use crate::text::same_text;
use vstd::prelude::*;

verus! {

/// A record that goes by a name.
pub trait Named {
    /// The name of the record.
    spec fn name_view(&self) -> Seq<char>;

    /// The name of the record.
    fn name(&self) -> (r: &str)
        ensures
            r@ == self.name_view(),
    ;
}

/// The names of a list of records, in order.
pub open spec fn names_of<T: Named>(rows: Seq<T>) -> Seq<Seq<char>> {
    rows.map_values(|t: T| t.name_view())
}

/// Whether `i` is the first place at which `name` stands in `names`.
pub open spec fn first_at(names: Seq<Seq<char>>, name: Seq<char>, i: int) -> bool {
    &&& 0 <= i < names.len()
    &&& names[i] == name
    &&& forall|j: int| 0 <= j < i ==> names[j] != name
}

/// The first place at which `name` stands in `names`, if it stands there.
pub open spec fn position(names: Seq<Seq<char>>, name: Seq<char>) -> Option<int> {
    if exists|i: int| first_at(names, name, i) {
        Some(choose|i: int| first_at(names, name, i))
    } else {
        None
    }
}

/// Whether no name stands twice in `names`.
pub open spec fn distinct(names: Seq<Seq<char>>) -> bool {
    forall|i: int, j: int| 0 <= i < j < names.len() ==> names[i] != names[j]
}

/// A first place is the position.
pub proof fn lemma_position_is(names: Seq<Seq<char>>, name: Seq<char>, i: int)
    requires
        first_at(names, name, i),
    ensures
        position(names, name) == Some(i),
{
    let k = choose|k: int| first_at(names, name, k);
    assert(first_at(names, name, k));
    if k < i {
        assert(names[k] != name);
    } else if i < k {
        assert(names[i] != name);
    }
}

/// A name that stands nowhere has no position, and conversely.
pub proof fn lemma_position_none(names: Seq<Seq<char>>, name: Seq<char>)
    ensures
        position(names, name) is None <==> !names.contains(name),
        position(names, name) matches Some(i) ==> first_at(names, name, i),
{
    if names.contains(name) {
        let i = choose|i: int| 0 <= i < names.len() && names[i] == name;
        lemma_first_exists(names, name, i);
    } else {
        if exists|i: int| first_at(names, name, i) {
            let i = choose|i: int| first_at(names, name, i);
            assert(names[i] == name);
        }
    }
}

proof fn lemma_first_exists(names: Seq<Seq<char>>, name: Seq<char>, i: int)
    requires
        0 <= i < names.len(),
        names[i] == name,
    ensures
        exists|k: int| first_at(names, name, k),
    decreases i,
{
    if exists|j: int| 0 <= j < i && names[j] == name {
        let j = choose|j: int| 0 <= j < i && names[j] == name;
        lemma_first_exists(names, name, j);
    } else {
        assert(first_at(names, name, i));
    }
}

/// Among distinct names, any place of a name is its position.
pub proof fn lemma_position_distinct(names: Seq<Seq<char>>, name: Seq<char>, i: int)
    requires
        distinct(names),
        0 <= i < names.len(),
        names[i] == name,
    ensures
        position(names, name) == Some(i),
{
    assert(first_at(names, name, i));
    lemma_position_is(names, name, i);
}

/// Finds the first record that goes by `name`.
pub fn find<T: Named>(rows: &Vec<T>, name: &str) -> (r: Option<usize>)
    ensures
        match r {
            Some(i) => position(names_of(rows@), name@) == Some(i as int),
            None => position(names_of(rows@), name@) is None,
        },
{
    let ghost names = names_of(rows@);
    let mut i: usize = 0;
    while i < rows.len()
        invariant
            i <= rows@.len(),
            names == names_of(rows@),
            forall|j: int| 0 <= j < i ==> names[j] != name@,
        decreases rows@.len() - i,
    {
        if same_text(rows[i].name(), name) {
            proof {
                lemma_position_is(names, name@, i as int);
            }
            return Some(i);
        }
        i += 1;
    }
    proof {
        lemma_position_none(names, name@);
    }
    None
}

} // verus!
