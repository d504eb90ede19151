//! Sorted lists of names without repetition.

use crate::text::{compare_text, TextOrder};
use vstd::prelude::*;

verus! {

/// Whether the names come in strictly increasing order, so that none occurs
/// twice.
pub open spec fn strictly_sorted(names: Seq<Seq<char>>) -> bool {
    forall|i: int, j: int|
        0 <= i < j < names.len() ==> crate::text::text_less(#[trigger] names[i], #[trigger] names[j])
}

/// A sorted list without repetition is determined by what it holds.
pub proof fn law_sorted_lists_are_unique(a: Seq<Seq<char>>, b: Seq<Seq<char>>)
    requires
        strictly_sorted(a),
        strictly_sorted(b),
        forall|name: Seq<char>| #[trigger] a.contains(name) <==> b.contains(name),
    ensures
        a == b,
    decreases a.len(),
{
    if a.len() == 0 {
        if b.len() > 0 {
            assert(b.contains(b[0]));
            assert(a.contains(b[0]));
        }
        assert(a =~= b);
    } else {
        assert(a.contains(a[0]));
        let (x, y) = (a.last(), b.last());
        assert(a.contains(x));
        assert(b.contains(y));
        assert(a.contains(y));
        let i = choose|i: int| 0 <= i < a.len() && a[i] == y;
        let k = choose|k: int| 0 <= k < b.len() && b[k] == x;
        if x != y {
            // Each of the two would come before the other.
            crate::text::law_text_less_is_transitive(x, y, x);
            crate::text::law_text_less_is_irreflexive(x);
        }
        let (c, d) = (a.drop_last(), b.drop_last());
        assert forall|name: Seq<char>| #[trigger] c.contains(name) <==> d.contains(name) by {
            crate::text::law_text_less_is_irreflexive(x);
            if c.contains(name) {
                let p = choose|p: int| 0 <= p < c.len() && c[p] == name;
                assert(a[p] == name);
                assert(a.contains(name));
                let q = choose|q: int| 0 <= q < b.len() && b[q] == name;
                assert(crate::text::text_less(a[p], a[a.len() - 1]));
                assert(q != b.len() - 1);
                assert(d[q] == name);
            }
            if d.contains(name) {
                let p = choose|p: int| 0 <= p < d.len() && d[p] == name;
                assert(b[p] == name);
                assert(b.contains(name));
                assert(a.contains(name));
                let q = choose|q: int| 0 <= q < a.len() && a[q] == name;
                assert(crate::text::text_less(b[p], b[b.len() - 1]));
                assert(q != a.len() - 1);
                assert(c[q] == name);
            }
        }
        law_sorted_lists_are_unique(c, d);
        assert(a =~= c.push(x));
        assert(b =~= d.push(y));
    }
}

/// In a sorted list every name comes before all that follow it.
pub proof fn law_sorted_names_ascend(names: Seq<Seq<char>>)
    ensures
        strictly_sorted(names) <==> forall|i: int, j: int|
            0 <= i < j < names.len() ==> crate::text::text_less(
                #[trigger] names[i],
                #[trigger] names[j],
            ),
{
}

/// A list holds the names that are in it, in the same places.
pub proof fn law_contents_are_the_names(names: Seq<String>, i: int)
    requires
        0 <= i < names.len(),
    ensures
        contents(names).len() == names.len(),
        contents(names)[i] == names[i]@,
{
}

/// The contents of a list of names.
pub open spec fn contents(names: Seq<String>) -> Seq<Seq<char>> {
    names.map_values(|name: String| name@)
}

/// Puts a name in its place in a sorted list, unless the list holds it.
pub fn insert_name(names: &mut Vec<String>, name: String)
    requires
        strictly_sorted(contents(old(names)@)),
    ensures
        strictly_sorted(contents(final(names)@)),
        forall|n: Seq<char>|
            #[trigger] contents(final(names)@).contains(n) <==> contents(old(names)@).contains(n)
                || n == name@,
{
    let ghost before = contents(names@);
    let mut i: usize = 0;
    while i < names.len()
        invariant
            i <= names.len(),
            contents(names@) == before,
            *names == *old(names),
            strictly_sorted(before),
            forall|j: int| 0 <= j < i ==> crate::text::text_less(#[trigger] before[j], name@),
        decreases names.len() - i,
    {
        match compare_text(names[i].as_str(), name.as_str()) {
            TextOrder::Less => {
                assert(crate::text::text_less(before[i as int], name@));
            },
            TextOrder::Equal => {
                assert(before[i as int] == name@);
                assert(before.contains(name@));
                return ;
            },
            TextOrder::Greater => {
                let ghost place = i as int;
                assert forall|j: int| i <= j < before.len() implies crate::text::text_less(
                    name@,
                    #[trigger] before[j],
                ) by {
                    if i < j {
                        crate::text::law_text_less_is_transitive(
                            name@,
                            before[i as int],
                            before[j],
                        );
                    }
                }
                names.insert(i, name);
                proof {
                    lemma_inserted(before, place, name@, contents(names@));
                }
                return ;
            },
        }
        i = i + 1;
    }
    let ghost place = i as int;
    names.push(name);
    proof {
        assert(contents(names@) =~= before.insert(place, name@));
        lemma_inserted(before, place, name@, contents(names@));
    }
}

/// Inserting a name between the smaller and the larger ones keeps the order.
proof fn lemma_inserted(
    before: Seq<Seq<char>>,
    place: int,
    name: Seq<char>,
    after: Seq<Seq<char>>,
)
    requires
        strictly_sorted(before),
        0 <= place <= before.len(),
        after =~= before.insert(place, name),
        forall|j: int| 0 <= j < place ==> crate::text::text_less(#[trigger] before[j], name),
        forall|j: int|
            place <= j < before.len() ==> crate::text::text_less(name, #[trigger] before[j]),
    ensures
        strictly_sorted(after),
        forall|n: Seq<char>| #[trigger] after.contains(n) <==> before.contains(n) || n == name,
{
    assert(after[place] == name);
    assert(forall|j: int| 0 <= j < place ==> after[j] == #[trigger] before[j]);
    assert(forall|j: int| place <= j < before.len() ==> after[j + 1] == #[trigger] before[j]);
    assert forall|i: int, j: int| 0 <= i < j < after.len() implies crate::text::text_less(
        #[trigger] after[i],
        #[trigger] after[j],
    ) by {
        let p = if i < place {
            before[i]
        } else {
            before[i - 1]
        };
        let q = if j < place {
            before[j]
        } else {
            before[j - 1]
        };
    }
    assert forall|n: Seq<char>| #[trigger] after.contains(n) <==> before.contains(n) || n
        == name by {
        if before.contains(n) {
            let j = choose|j: int| 0 <= j < before.len() && before[j] == n;
            if j < place {
                assert(after[j] == n);
            } else {
                assert(after[j + 1] == n);
            }
        }
        if after.contains(n) && n != name {
            let j = choose|j: int| 0 <= j < after.len() && after[j] == n;
            if j < place {
                assert(before[j] == n);
            } else {
                assert(before[j - 1] == n);
            }
        }
        if n == name {
            assert(after[place] == n);
        }
    }
}

} // verus!
