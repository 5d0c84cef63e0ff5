//! Building the SET list of an UPDATE statement with numbered placeholders.

use vstd::prelude::*;
use vstd::string::*;
use crate::text::{nat_digits, u64_decimal};

verus! {

/// `col = ?n`.
pub open spec fn assignment(col: Seq<char>, n: nat) -> Seq<char> {
    col + " = ?"@ + nat_digits(n)
}

/// The columns assigned placeholders `?first`, `?first+1`, ... in order,
/// separated by ", ".
pub open spec fn assignments(cols: Seq<Seq<char>>, first: nat) -> Seq<char>
    decreases cols.len(),
{
    if cols.len() == 0 {
        Seq::empty()
    } else if cols.len() == 1 {
        assignment(cols[0], first)
    } else {
        assignments(cols.drop_last(), first) + ", "@ + assignment(cols.last(), (first + cols.len() - 1) as nat)
    }
}

/// Renders `assignments` for the columns `cols`, numbering from `first`.
pub fn assignment_list(cols: &Vec<&'static str>, first: u64) -> (r: String)
    requires
        first + cols@.len() <= u64::MAX,
    ensures
        r@ == assignments(cols@.map_values(|c: &str| c@), first as nat),
{
    let ghost names = cols@.map_values(|c: &str| c@);
    let mut s = String::new();
    let mut i: usize = 0;
    while i < cols.len()
        invariant
            names == cols@.map_values(|c: &str| c@),
            i <= cols@.len(),
            first + cols@.len() <= u64::MAX,
            s@ == assignments(names.take(i as int), first as nat),
        decreases cols@.len() - i,
    {
        let n = u64_decimal(first + i as u64);
        if i > 0 {
            s.append(", ");
        }
        s.append(cols[i]);
        s.append(" = ?");
        s.append(n.as_str());
        proof {
            let t = names.take(i + 1);
            assert(t.drop_last() =~= names.take(i as int));
            assert(t.last() == cols@[i as int]@);
            if i == 0 {
                assert(names.take(i as int) =~= Seq::<Seq<char>>::empty());
            }
        }
        i = i + 1;
    }
    assert(names.take(cols@.len() as int) =~= names);
    s
}

/// The items separated by ", ", as a column list or a VALUES list is
/// written.
pub open spec fn comma_list(items: Seq<Seq<char>>) -> Seq<char>
    decreases items.len(),
{
    if items.len() == 0 {
        Seq::empty()
    } else if items.len() == 1 {
        items[0]
    } else {
        comma_list(items.drop_last()) + ", "@ + items.last()
    }
}

/// The numbered placeholders `?1`, `?2`, ..., `?n`.
pub open spec fn placeholders(n: nat) -> Seq<Seq<char>> {
    Seq::new(n, |k: int| seq!['?'] + nat_digits((k + 1) as nat))
}

/// An INSERT into `table` whose columns `cols` take the values `vals`
/// position by position, returning the stored row.
pub open spec fn insert_statement(table: Seq<char>, cols: Seq<Seq<char>>, vals: Seq<Seq<char>>) -> Seq<char> {
    "INSERT INTO "@ + table + " ("@ + comma_list(cols) + ") VALUES ("@ + comma_list(vals) + ") RETURNING *"@
}

/// Adding an item to a non-empty list adds ", " and the item.
pub proof fn comma_list_push(items: Seq<Seq<char>>, x: Seq<char>)
    requires
        items.len() >= 1,
    ensures
        comma_list(items.push(x)) == comma_list(items) + ", "@ + x,
{
    assert(items.push(x).drop_last() =~= items);
}

/// The SET list assigns the k-th column the placeholder `?(first + k)`:
/// it is the list of `col = ?n` items, numbered from `first` in column
/// order.
pub proof fn assignments_number_columns_in_order(cols: Seq<Seq<char>>, first: nat)
    ensures
        assignments(cols, first) == comma_list(
            Seq::new(cols.len(), |k: int| cols[k] + " = ?"@ + nat_digits((first + k) as nat)),
        ),
    decreases cols.len(),
{
    let items = Seq::new(cols.len(), |k: int| cols[k] + " = ?"@ + nat_digits((first + k) as nat));
    if cols.len() == 1 {
        assert(items[0] == assignment(cols[0], first));
    } else if cols.len() > 1 {
        let shorter = cols.drop_last();
        assignments_number_columns_in_order(shorter, first);
        let short_items = Seq::new(shorter.len(), |k: int| shorter[k] + " = ?"@ + nat_digits((first + k) as nat));
        assert(items.drop_last() =~= short_items);
        assert(items.last() == assignment(cols.last(), (first + cols.len() - 1) as nat));
    }
}

} // verus!
