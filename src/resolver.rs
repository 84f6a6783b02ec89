use vstd::prelude::*;
use crate::model::{FieldData, FieldEntry, FieldValue};
use crate::text::same_text;

verus! {

/// A leaf found in a telemetry tree: the names of the groups that lead to it,
/// its own name, its value and its timestamp.
#[derive(Debug)]
pub struct FieldValueAndPath {
    pub path: Vec<String>,
    pub name: String,
    pub value: FieldValue,
    pub ts: Option<u64>,
}

/// Among `entries`, following the group names of `path`, there is a leaf
/// named `name` holding `ts` and `value`.
pub open spec fn leaf_at(
    entries: Seq<FieldEntry>,
    path: Seq<String>,
    name: Seq<char>,
    ts: Option<u64>,
    value: FieldValue,
) -> bool
    decreases path.len(),
{
    if path.len() == 0 {
        exists|i: int|
            0 <= i < entries.len() && (#[trigger] entries[i]).name@ == name && entries[i].data
                == FieldData::Field { ts, value }
    } else {
        exists|i: int|
            0 <= i < entries.len() && (#[trigger] entries[i]).name@ == path[0]@ && entries[i].data is Group
                && leaf_at(entries[i].data->Group_0@, path.drop_first(), name, ts, value)
    }
}

/// The entry `e` is such a leaf (for an empty `path`), or a group named
/// `path[0]` under which the rest of `path` leads to one.
pub open spec fn leaf_via(
    e: FieldEntry,
    path: Seq<String>,
    name: Seq<char>,
    ts: Option<u64>,
    value: FieldValue,
) -> bool {
    if path.len() == 0 {
        e.name@ == name && e.data == FieldData::Field { ts, value }
    } else {
        &&& e.name@ == path[0]@
        &&& e.data is Group
        &&& leaf_at(e.data->Group_0@, path.drop_first(), name, ts, value)
    }
}

/// `m` describes a leaf named `name` in the tree `entries`.
pub open spec fn is_match(entries: Seq<FieldEntry>, name: Seq<char>, m: FieldValueAndPath) -> bool {
    m.name@ == name && leaf_at(entries, m.path@, name, m.ts, m.value)
}

/// No leaf named `name` in `entries` lies at a shorter path than `depth`.
pub open spec fn none_shallower(entries: Seq<FieldEntry>, name: Seq<char>, depth: int) -> bool {
    forall|p: Seq<String>, ts: Option<u64>, v: FieldValue|
        #[trigger] leaf_at(entries, p, name, ts, v) ==> depth <= p.len()
}

/// No leaf in `entries` is named `name`.
pub open spec fn no_match(entries: Seq<FieldEntry>, name: Seq<char>) -> bool {
    forall|p: Seq<String>, ts: Option<u64>, v: FieldValue| !#[trigger] leaf_at(entries, p, name, ts, v)
}

/// Finds, in the group `root`, a leaf named `name` whose path is as short as
/// any other such leaf's; among equally short ones, the first in tree order.
/// Every entry of every group is visited.
pub fn find_shallowest_match(root: &Vec<FieldEntry>, name: &str) -> (r: Option<FieldValueAndPath>)
    ensures
        match r {
            Some(m) => is_match(root@, name@, m) && none_shallower(root@, name@, m.path@.len() as int),
            None => no_match(root@, name@),
        },
    decreases root,
{
    let mut best: Option<FieldValueAndPath> = None;
    let ghost mut witness: int = 0;
    let mut i: usize = 0;
    while i < root.len()
        invariant
            i <= root@.len(),
            best is Some ==> best->0.name@ == name@,
            best is Some ==> 0 <= witness < i && leaf_via(root@[witness], best->0.path@, name@, best->0.ts, best->0.value),
            best is Some ==> forall|j: int, p: Seq<String>, ts: Option<u64>, v: FieldValue|
                0 <= j < i && #[trigger] leaf_via(root@[j], p, name@, ts, v) ==> best->0.path@.len() <= p.len(),
            best is None ==> forall|j: int, p: Seq<String>, ts: Option<u64>, v: FieldValue|
                0 <= j < i ==> !#[trigger] leaf_via(root@[j], p, name@, ts, v),
        decreases root.len() - i,
    {
        let e = &root[i];
        let ghost ei = root@[i as int];
        match &e.data {
            FieldData::Field { ts, value } => {
                if same_text(e.name.as_str(), name) {
                    assert(leaf_via(ei, Seq::<String>::empty(), name@, *ts, *value));
                    let better = match &best {
                        Some(b) => b.path.len() > 0,
                        None => true,
                    };
                    if better {
                        let found = FieldValueAndPath {
                            path: Vec::new(),
                            name: e.name.clone(),
                            value: value.clone(),
                            ts: *ts,
                        };
                        assert(found.path@ =~= Seq::<String>::empty());
                        assert(leaf_via(root@[i as int], found.path@, name@, found.ts, found.value));
                        best = Some(found);
                        proof {
                            witness = i as int;
                        }
                    }
                } else {
                    assert forall|p: Seq<String>, ts2: Option<u64>, v: FieldValue|
                        !#[trigger] leaf_via(ei, p, name@, ts2, v) by {}
                }
            },
            FieldData::Group(g) => {
                proof {
                    let ghost d = ei.data;
                    assert(decreases_to!(*root => root@));
                    assert(decreases_to!(root@ => root@[i as int]));
                    assert(decreases_to!(ei => ei.data));
                    assert(decreases_to!(d => d->Group_0));
                }
                match find_shallowest_match(g, name) {
                    Some(m) => {
                        let mut path: Vec<String> = Vec::new();
                        path.push(e.name.clone());
                        let mut rest = m.path;
                        path.append(&mut rest);
                        assert(path@.drop_first() =~= m.path@);
                        assert(leaf_via(ei, path@, name@, m.ts, m.value));
                        assert forall|p: Seq<String>, ts: Option<u64>, v: FieldValue|
                            #[trigger] leaf_via(ei, p, name@, ts, v) implies path@.len() <= p.len() by {
                            if p.len() > 0 {
                                assert(leaf_at(g@, p.drop_first(), name@, ts, v));
                            }
                        }
                        let better = match &best {
                            Some(b) => path.len() < b.path.len(),
                            None => true,
                        };
                        if better {
                            best = Some(FieldValueAndPath { path, name: m.name, value: m.value, ts: m.ts });
                            proof {
                                witness = i as int;
                            }
                        }
                    },
                    None => {
                        assert forall|p: Seq<String>, ts: Option<u64>, v: FieldValue|
                            !#[trigger] leaf_via(ei, p, name@, ts, v) by {
                            if p.len() > 0 {
                                assert(!leaf_at(g@, p.drop_first(), name@, ts, v));
                            }
                        }
                    },
                }
            },
        }
        i = i + 1;
    }
    proof {
        reveal_with_fuel(leaf_at, 2);
        match &best {
            Some(b) => {
                lemma_via_gives_leaf(root@, witness, b.path@, name@, b.ts, b.value);
                assert forall|p: Seq<String>, ts: Option<u64>, v: FieldValue|
                    #[trigger] leaf_at(root@, p, name@, ts, v) implies b.path@.len() <= p.len() by {
                    let k = lemma_leaf_has_via(root@, p, name@, ts, v);
                }
            },
            None => {
                assert forall|p: Seq<String>, ts: Option<u64>, v: FieldValue|
                    !#[trigger] leaf_at(root@, p, name@, ts, v) by {
                    if leaf_at(root@, p, name@, ts, v) {
                        let k = lemma_leaf_has_via(root@, p, name@, ts, v);
                    }
                }
            },
        }
    }
    best
}

proof fn lemma_via_gives_leaf(
    entries: Seq<FieldEntry>,
    k: int,
    path: Seq<String>,
    name: Seq<char>,
    ts: Option<u64>,
    value: FieldValue,
)
    requires
        0 <= k < entries.len(),
        leaf_via(entries[k], path, name, ts, value),
    ensures
        leaf_at(entries, path, name, ts, value),
{
}

proof fn lemma_leaf_has_via(
    entries: Seq<FieldEntry>,
    path: Seq<String>,
    name: Seq<char>,
    ts: Option<u64>,
    value: FieldValue,
) -> (k: int)
    requires
        leaf_at(entries, path, name, ts, value),
    ensures
        0 <= k < entries.len(),
        leaf_via(entries[k], path, name, ts, value),
{
    if path.len() == 0 {
        choose|i: int|
            0 <= i < entries.len() && (#[trigger] entries[i]).name@ == name && entries[i].data
                == FieldData::Field { ts, value }
    } else {
        choose|i: int|
            0 <= i < entries.len() && (#[trigger] entries[i]).name@ == path[0]@ && entries[i].data is Group
                && leaf_at(entries[i].data->Group_0@, path.drop_first(), name, ts, value)
    }
}

} // verus!
