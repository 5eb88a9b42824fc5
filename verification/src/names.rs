//! Lookup by name in the tables of the interpreter: the entry that was added
//! last under a name is the one that the name stands for.

use vstd::prelude::*;

verus! {

/// An entry of a table, found by its name.
pub trait Named {
    spec fn name(self) -> Seq<char>;
}

/// The place of the last entry of `list` under `name`, if there is one.
pub open spec fn find_last<T: Named>(list: Seq<T>, name: Seq<char>) -> Option<int>
    decreases list.len(),
{
    if list.len() == 0 {
        None
    } else if list.last().name() == name {
        Some(list.len() - 1)
    } else {
        find_last(list.drop_last(), name)
    }
}

/// The place that a search gives holds the name, and no later place does.
pub proof fn lemma_find_last<T: Named>(list: Seq<T>, name: Seq<char>)
    ensures
        match find_last(list, name) {
            Some(i) => 0 <= i < list.len() && list[i].name() == name && forall|j: int|
                i < j < list.len() ==> (#[trigger] list[j]).name() != name,
            None => forall|j: int| 0 <= j < list.len() ==> (#[trigger] list[j]).name() != name,
        },
    decreases list.len(),
{
    if list.len() > 0 && list.last().name() != name {
        let front = list.drop_last();
        lemma_find_last(front, name);
        match find_last(front, name) {
            Some(i) => {
                assert forall|j: int| i < j < list.len() implies (#[trigger] list[j]).name()
                    != name by {
                    if j < front.len() {
                        assert(front[j] == list[j]);
                    }
                }
            },
            None => {
                assert forall|j: int| 0 <= j < list.len() implies (#[trigger] list[j]).name()
                    != name by {
                    if j < front.len() {
                        assert(front[j] == list[j]);
                    }
                }
            },
        }
    }
}

/// A search in a list that ends with an entry under `name` finds that entry;
/// an entry under another name at the end changes nothing.
pub proof fn lemma_find_last_push<T: Named>(list: Seq<T>, entry: T, name: Seq<char>)
    ensures
        find_last(list.push(entry), name) == if entry.name() == name {
            Some(list.len() as int)
        } else {
            find_last(list, name)
        },
{
    assert(list.push(entry).drop_last() =~= list);
}

} // verus!
