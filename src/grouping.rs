//! Grouping records by a key, as the pages list accounts under their type.
use vstd::prelude::*;
use crate::text::{same_text, views};

verus! {

/// The groups of `keys`: each distinct key once, in the order it first
/// appears, with the positions that hold it, in increasing order.
pub open spec fn groups_of(keys: Seq<Seq<char>>) -> Seq<(Seq<char>, Seq<int>)>
    decreases keys.len(),
{
    if keys.len() == 0 {
        Seq::empty()
    } else {
        let g = groups_of(keys.drop_last());
        let k = keys.last();
        let i = keys.len() - 1;
        match group_index(g, k) {
            Some(j) => g.update(j, (k, g[j].1.push(i))),
            None => g.push((k, seq![i])),
        }
    }
}

/// The index of the group for key `k`, if there is one.
pub open spec fn group_index(g: Seq<(Seq<char>, Seq<int>)>, k: Seq<char>) -> Option<int> {
    if exists|j: int| 0 <= j < g.len() && (#[trigger] g[j]).0 == k {
        Some(choose|j: int| 0 <= j < g.len() && (#[trigger] g[j]).0 == k)
    } else {
        None
    }
}

pub open spec fn group_views(v: Seq<(String, Vec<usize>)>) -> Seq<(Seq<char>, Seq<int>)> {
    v.map_values(|p: (String, Vec<usize>)| (p.0@, p.1@.map_values(|i: usize| i as int)))
}

/// Whether the groups have distinct keys.
pub open spec fn distinct_keys(g: Seq<(Seq<char>, Seq<int>)>) -> bool {
    forall|a: int, b: int| 0 <= a < b < g.len() ==> (#[trigger] g[a]).0 != (#[trigger] g[b]).0
}

proof fn lemma_groups_distinct(keys: Seq<Seq<char>>)
    ensures
        distinct_keys(groups_of(keys)),
    decreases keys.len(),
{
    if keys.len() > 0 {
        lemma_groups_distinct(keys.drop_last());
        let g = groups_of(keys.drop_last());
        let k = keys.last();
        match group_index(g, k) {
            Some(j) => {
                let g2 = g.update(j, (k, g[j].1.push(keys.len() - 1)));
                assert forall|a: int, b: int| 0 <= a < b < g2.len() implies (#[trigger] g2[a]).0
                    != (#[trigger] g2[b]).0 by {
                    assert(g2[a].0 == g[a].0 && g2[b].0 == g[b].0);
                };
            },
            None => {
                let g2 = g.push((k, seq![keys.len() - 1]));
                assert forall|a: int, b: int| 0 <= a < b < g2.len() implies (#[trigger] g2[a]).0
                    != (#[trigger] g2[b]).0 by {
                    if b == g.len() {
                        assert(g2[a] == g[a]);
                    } else {
                        assert(g2[a] == g[a] && g2[b] == g[b]);
                    }
                };
            },
        }
    }
}

fn find_group(groups: &Vec<(String, Vec<usize>)>, key: &String) -> (r: Option<usize>)
    requires
        distinct_keys(group_views(groups@)),
    ensures
        match r {
            Some(j) => group_index(group_views(groups@), key@) == Some(j as int) && j < groups@.len(),
            None => group_index(group_views(groups@), key@) is None,
        },
{
    let ghost g = group_views(groups@);
    let mut j: usize = 0;
    while j < groups.len()
        invariant
            j <= groups@.len(),
            g == group_views(groups@),
            distinct_keys(g),
            forall|x: int| 0 <= x < j ==> (#[trigger] g[x]).0 != key@,
        decreases groups.len() - j,
    {
        if same_text(groups[j].0.as_str(), key.as_str()) {
            proof {
                assert(g[j as int].0 == key@);
                let c = choose|c: int| 0 <= c < g.len() && (#[trigger] g[c]).0 == key@;
                assert(c == j as int) by {
                    if c < j {
                    } else if c > j {
                        assert(g[j as int].0 != g[c].0);
                    }
                };
            }
            return Some(j);
        }
        j = j + 1;
    }
    None
}

/// Groups positions by their key: each distinct key once, in order of
/// first appearance, with the positions holding it in increasing order.
/// The groups are a map from key to positions, kept as a list so that
/// their order is fixed.
pub fn group_by_key(keys: &Vec<String>) -> (r: Vec<(String, Vec<usize>)>)
    ensures
        group_views(r@) == groups_of(views(keys@)),
        distinct_keys(group_views(r@)),
{
    let mut groups: Vec<(String, Vec<usize>)> = Vec::new();
    let mut i: usize = 0;
    proof {
        assert(views(keys@).take(0) =~= Seq::<Seq<char>>::empty());
        assert(group_views(groups@) =~= Seq::<(Seq<char>, Seq<int>)>::empty());
    }
    while i < keys.len()
        invariant
            i <= keys@.len(),
            group_views(groups@) == groups_of(views(keys@).take(i as int)),
        decreases keys.len() - i,
    {
        let ghost ks = views(keys@).take(i + 1);
        let ghost g = group_views(groups@);
        let ghost key = keys@[i as int]@;
        proof {
            assert(ks.drop_last() =~= views(keys@).take(i as int));
            assert(ks.last() == key);
            assert(ks.len() - 1 == i);
            lemma_groups_distinct(views(keys@).take(i as int));
        }
        match find_group(&groups, &keys[i]) {
            Some(j) => {
                let ghost before = groups@;
                let mut entry = groups.remove(j);
                entry.1.push(i);
                groups.insert(j, entry);
                proof {
                    assert(groups@ =~= before.update(j as int, groups@[j as int]));
                    assert(groups@[j as int].1@.map_values(|x: usize| x as int) =~= before[j as int].1@.map_values(
                        |x: usize| x as int,
                    ).push(i as int));
                    assert(group_views(groups@) =~= g.update(j as int, (key, g[j as int].1.push(i as int))));
                    assert(g[j as int].0 == key);
                }
            },
            None => {
                let ghost before = groups@;
                let mut positions: Vec<usize> = Vec::new();
                positions.push(i);
                let k = keys[i].clone();
                proof {
                    assert(positions@.map_values(|x: usize| x as int) =~= seq![i as int]);
                }
                groups.push((k, positions));
                proof {
                    assert(groups@ =~= before.push(groups@.last()));
                    assert(group_views(groups@) =~= g.push((key, seq![i as int])));
                }
            },
        }
        i = i + 1;
    }
    proof {
        assert(views(keys@).take(i as int) =~= views(keys@));
        lemma_groups_distinct(views(keys@));
    }
    groups
}

} // verus!
