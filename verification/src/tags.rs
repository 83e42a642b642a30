//! Lead tags: Odoo ships a lead's tags as bare ids, so a search reads the
//! distinct ids once, reads their names in one go, and attaches the names
//! back to each lead — a dashboard never sees an id without its name.

use vstd::prelude::*;

use std::collections::HashMap;

use crate::fmt::{decimal, decimal_string, owned, push_str, views};

verus! {

broadcast use vstd::std_specs::hash::group_hash_axioms;

/// Ascending, each value once.
pub open spec fn strictly_ascending(s: Seq<i64>) -> bool {
    forall|i: int, j: int| 0 <= i < j < s.len() ==> s[i] < s[j]
}

/// Some lead carries tag `x`.
pub open spec fn tagged_with(lists: Seq<Vec<i64>>, x: i64) -> bool {
    exists|i: int, j: int| 0 <= i < lists.len() && 0 <= j < lists[i]@.len() && lists[i]@[j] == x
}

fn insert_id(v: &mut Vec<i64>, x: i64)
    requires
        strictly_ascending(old(v)@),
    ensures
        strictly_ascending(final(v)@),
        forall|y: i64| final(v)@.contains(y) <==> (old(v)@.contains(y) || y == x),
{
    let mut k: usize = 0;
    while k < v.len() && v[k] < x
        invariant
            k <= v@.len(),
            v@ == old(v)@,
            strictly_ascending(v@),
            forall|i: int| 0 <= i < k ==> v@[i] < x,
        decreases v.len() - k,
    {
        k += 1;
    }
    if k < v.len() && v[k] == x {
        assert(v@[k as int] == x);
        assert(v@.contains(x));
        return;
    }
    let ghost before = v@;
    v.insert(k, x);
    proof {
        assert forall|i: int, j: int| 0 <= i < j < v@.len() implies v@[i] < v@[j] by {
            if j < k {
            } else if i < k && j == k {
            } else if i < k {
                assert(v@[j] == before[j - 1]);
                assert(before[k as int] >= x);
                if j - 1 > k {
                    assert(before[k as int] < before[j - 1]);
                }
            } else if i == k {
                assert(v@[j] == before[j - 1]);
                if j - 1 > k {
                    assert(before[k as int] < before[j - 1]);
                }
            } else {
                assert(v@[i] == before[i - 1]);
                assert(v@[j] == before[j - 1]);
            }
        }
        assert(v@ == before.insert(k as int, x));
        assert forall|y: i64| v@.contains(y) <==> (before.contains(y) || y == x) by {
            if v@.contains(y) {
                let i = choose|i: int| 0 <= i < v@.len() && v@[i] == y;
                if i < k {
                    assert(before[i] == y);
                    assert(before.contains(y));
                } else if i > k {
                    assert(before[i - 1] == y);
                    assert(before.contains(y));
                }
            }
            if before.contains(y) {
                let i = choose|i: int| 0 <= i < before.len() && before[i] == y;
                if i < k {
                    assert(v@[i] == y);
                } else {
                    assert(v@[i + 1] == y);
                }
                assert(v@.contains(y));
            }
            if y == x {
                assert(v@[k as int] == y);
                assert(v@.contains(y));
            }
        }
    }
}

/// The distinct tag ids across the leads, ascending.
pub fn tag_ids_of(tag_lists: &Vec<Vec<i64>>) -> (r: Vec<i64>)
    ensures
        strictly_ascending(r@),
        forall|x: i64| r@.contains(x) <==> tagged_with(tag_lists@, x),
{
    let mut r: Vec<i64> = Vec::new();
    let mut i: usize = 0;
    while i < tag_lists.len()
        invariant
            i <= tag_lists@.len(),
            strictly_ascending(r@),
            forall|x: i64| r@.contains(x) <==> tagged_with(tag_lists@.take(i as int), x),
        decreases tag_lists.len() - i,
    {
        let ids = &tag_lists[i];
        let mut j: usize = 0;
        while j < ids.len()
            invariant
                i < tag_lists@.len(),
                *ids == tag_lists@[i as int],
                j <= ids@.len(),
                strictly_ascending(r@),
                forall|x: i64|
                    r@.contains(x) <==> (tagged_with(tag_lists@.take(i as int), x) || exists|m: int|
                        0 <= m < j && ids@[m] == x),
            decreases ids.len() - j,
        {
            insert_id(&mut r, ids[j]);
            j += 1;
        }
        proof {
            let pre = tag_lists@.take(i as int);
            let post = tag_lists@.take(i + 1);
            assert forall|x: i64| r@.contains(x) <==> tagged_with(post, x) by {
                if tagged_with(post, x) {
                    let (a, b) = choose|a: int, b: int|
                        0 <= a < post.len() && 0 <= b < post[a]@.len() && post[a]@[b] == x;
                    if a < i {
                        assert(pre[a] == post[a]);
                        assert(tagged_with(pre, x));
                    } else {
                        assert(ids@[b] == x);
                    }
                }
                if tagged_with(pre, x) {
                    let (a, b) = choose|a: int, b: int|
                        0 <= a < pre.len() && 0 <= b < pre[a]@.len() && pre[a]@[b] == x;
                    assert(post[a] == pre[a]);
                }
                if exists|m: int| 0 <= m < ids@.len() && ids@[m] == x {
                    let m = choose|m: int| 0 <= m < ids@.len() && ids@[m] == x;
                    assert(post[i as int]@[m] == x);
                }
            }
        }
        i += 1;
    }
    assert(tag_lists@.take(tag_lists@.len() as int) =~= tag_lists@);
    r
}

/// The id-to-name map of the tags read: a later row for the same id wins.
pub open spec fn tag_map(tags: Seq<(i64, String)>) -> Map<i64, String>
    decreases tags.len(),
{
    if tags.len() == 0 {
        Map::empty()
    } else {
        tag_map(tags.drop_last()).insert(tags.last().0, tags.last().1)
    }
}

pub fn tag_names(tags: Vec<(i64, String)>) -> (m: HashMap<i64, String>)
    ensures
        m@ == tag_map(tags@),
{
    let ghost all = tags@;
    let mut m: HashMap<i64, String> = HashMap::new();
    let mut i: usize = 0;
    let mut rest = tags;
    let n = rest.len();
    let mut back: Vec<(i64, String)> = Vec::new();
    while rest.len() > 0
        invariant
            back@.len() + rest@.len() == all.len(),
            all.len() == n,
            rest@ == all.take(rest@.len() as int),
            forall|k: int| 0 <= k < back@.len() ==> back@[k] == all[all.len() - 1 - k],
        decreases rest.len(),
    {
        let t = rest.pop().unwrap();
        back.push(t);
    }
    assert(all.take(0) =~= Seq::<(i64, String)>::empty());
    while back.len() > 0
        invariant
            i + back@.len() == all.len(),
            all.len() == n,
            forall|k: int| 0 <= k < back@.len() ==> back@[k] == all[all.len() - 1 - k],
            m@ == tag_map(all.take(i as int)),
        decreases back.len(),
    {
        let (id, name) = back.pop().unwrap();
        assert(all.take(i + 1).drop_last() =~= all.take(i as int));
        m.insert(id, name);
        i += 1;
    }
    assert(all.take(all.len() as int) =~= all);
    m
}

/// The names of a lead's tags, in its order, skipping ids the read did not
/// return.
pub open spec fn names_for(ids: Seq<i64>, names: Map<i64, String>) -> Seq<Seq<char>>
    decreases ids.len(),
{
    if ids.len() == 0 {
        Seq::empty()
    } else {
        let rest = names_for(ids.drop_last(), names);
        if names.contains_key(ids.last()) {
            rest.push(names[ids.last()]@)
        } else {
            rest
        }
    }
}

pub fn tags_for(ids: &Vec<i64>, names: &HashMap<i64, String>) -> (r: Vec<String>)
    ensures
        views(r@) == names_for(ids@, names@),
{
    let mut r: Vec<String> = Vec::new();
    let mut i: usize = 0;
    assert(ids@.take(0) =~= Seq::<i64>::empty());
    while i < ids.len()
        invariant
            i <= ids@.len(),
            views(r@) == names_for(ids@.take(i as int), names@),
        decreases ids.len() - i,
    {
        assert(ids@.take(i + 1).drop_last() =~= ids@.take(i as int));
        match names.get(&ids[i]) {
            Some(n) => {
                r.push(owned(n.as_str()));
                assert(views(r@) =~= names_for(ids@.take(i as int), names@).push(names@[ids@[i as int]]@));
            },
            None => {},
        }
        i += 1;
    }
    assert(ids@.take(ids@.len() as int) =~= ids@);
    r
}

/// Each lead's tag names, from its tag ids and the names read.
pub fn attach_tag_names(tag_lists: &Vec<Vec<i64>>, names: &HashMap<i64, String>) -> (r: Vec<Vec<String>>)
    ensures
        r@.len() == tag_lists@.len(),
        forall|i: int| 0 <= i < r@.len() ==> views(#[trigger] r@[i]@) == names_for(tag_lists@[i]@, names@),
{
    let mut r: Vec<Vec<String>> = Vec::new();
    for i in 0..tag_lists.len()
        invariant
            r@.len() == i,
            forall|k: int| 0 <= k < i ==> views(#[trigger] r@[k]@) == names_for(tag_lists@[k]@, names@),
    {
        r.push(tags_for(&tag_lists[i], names));
    }
    r
}

/// `- **[id] name** — stage · salesperson · contact · revenue r`, the lead's
/// fields rendered by the caller.
pub fn lead_row(id: i64, name: &str, stage: &str, salesperson: &str, contact: &str, revenue: &str) -> (r: String)
    ensures
        r@ == "- **["@ + decimal(id as int) + "] "@ + name@ + "** — "@ + stage@ + " · "@ + salesperson@
            + " · "@ + contact@ + " · revenue "@ + revenue@,
{
    let mut r = owned("- **[");
    push_str(&mut r, decimal_string(id).as_str());
    push_str(&mut r, "] ");
    push_str(&mut r, name);
    push_str(&mut r, "** — ");
    push_str(&mut r, stage);
    push_str(&mut r, " · ");
    push_str(&mut r, salesperson);
    push_str(&mut r, " · ");
    push_str(&mut r, contact);
    push_str(&mut r, " · revenue ");
    push_str(&mut r, revenue);
    r
}

} // verus!
