//! Looking a column up by its name in a data frame.

use vstd::prelude::*;

verus! {

/// `i` is the first position in `columns` whose name is `name`.
pub open spec fn names_column(columns: Seq<String>, name: Seq<char>, i: int) -> bool {
    &&& 0 <= i < columns.len()
    &&& columns[i]@ == name
    &&& forall|j: int| 0 <= j < i ==> #[trigger] columns[j]@ != name
}

/// The first position in `columns` whose name is `name`, or `None` when no column has it.
pub open spec fn column_position(columns: Seq<String>, name: Seq<char>) -> Option<int> {
    if exists|i: int| names_column(columns, name, i) {
        Some(choose|i: int| names_column(columns, name, i))
    } else {
        None
    }
}

/// There is at most one first position of a name.
pub proof fn lemma_first_position_unique(columns: Seq<String>, name: Seq<char>, i: int, k: int)
    requires
        names_column(columns, name, i),
        names_column(columns, name, k),
    ensures
        i == k,
{
    if i < k {
        assert(columns[i]@ != name);
    } else if k < i {
        assert(columns[k]@ != name);
    }
}

/// The position found is the first column of that name: it has the name and no earlier
/// column has it; no position is found exactly when no column has the name.
pub proof fn law_column_position_is_first(columns: Seq<String>, name: Seq<char>)
    ensures
        column_position(columns, name) matches Some(i) ==> {
            &&& 0 <= i < columns.len()
            &&& columns[i]@ == name
            &&& forall|j: int| 0 <= j < i ==> #[trigger] columns[j]@ != name
        },
        column_position(columns, name) is None <==> forall|j: int|
            0 <= j < columns.len() ==> #[trigger] columns[j]@ != name,
{
    if column_position(columns, name) is None {
        assert forall|j: int| 0 <= j < columns.len() implies #[trigger] columns[j]@ != name by {
            if columns[j]@ == name {
                // the first position of `name` would exist
                let first = choose_first(columns, name, j);
                assert(names_column(columns, name, first));
            }
        }
    } else {
        let i = choose|i: int| names_column(columns, name, i);
        assert(names_column(columns, name, i));
    }
}

proof fn choose_first(columns: Seq<String>, name: Seq<char>, j: int) -> (first: int)
    requires
        0 <= j < columns.len(),
        columns[j]@ == name,
    ensures
        names_column(columns, name, first),
    decreases j,
{
    if exists|k: int| 0 <= k < j && #[trigger] columns[k]@ == name {
        let k = choose|k: int| 0 <= k < j && #[trigger] columns[k]@ == name;
        choose_first(columns, name, k)
    } else {
        j
    }
}

/// Searches `columns` from the front for the name `name`.
pub fn find_column(columns: &Vec<String>, name: &String) -> (r: Option<usize>)
    ensures
        r matches Some(i) ==> column_position(columns@, name@) == Some(i as int),
        r is None ==> column_position(columns@, name@) is None,
{
    let mut i: usize = 0;
    while i < columns.len()
        invariant
            i <= columns.len(),
            forall|j: int| 0 <= j < i ==> #[trigger] columns@[j]@ != name@,
        decreases columns.len() - i,
    {
        if columns[i] == *name {
            proof {
                assert(names_column(columns@, name@, i as int));
                let k = choose|k: int| names_column(columns@, name@, k);
                lemma_first_position_unique(columns@, name@, i as int, k);
            }
            return Some(i);
        }
        i = i + 1;
    }
    proof {
        assert forall|k: int| !names_column(columns@, name@, k) by {
            if 0 <= k < columns@.len() {
                assert(columns@[k]@ != name@);
            }
        }
    }
    None
}

/// A copy of the values of a column.
pub fn copy_values<V: Copy>(values: &Vec<V>) -> (r: Vec<V>)
    ensures
        r@ == values@,
{
    let mut r: Vec<V> = Vec::new();
    let mut i: usize = 0;
    while i < values.len()
        invariant
            i <= values@.len(),
            r@ == values@.take(i as int),
        decreases values@.len() - i,
    {
        r.push(values[i]);
        proof {
            assert(values@.take(i + 1) =~= values@.take(i as int).push(values@[i as int]));
        }
        i = i + 1;
    }
    proof {
        assert(values@.take(i as int) =~= values@);
    }
    r
}

} // verus!
