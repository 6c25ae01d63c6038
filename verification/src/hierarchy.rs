//! The UI entity hierarchy as the rebuild metrics see it: each entity with
//! the list of its children.
use vstd::prelude::*;

verus! {

/// The children of entity `e`; an entity beyond the table has none.
pub open spec fn kids(children: Seq<Vec<usize>>, e: usize) -> Seq<usize> {
    if e < children.len() {
        children[e as int]@
    } else {
        Seq::empty()
    }
}

/// `below` holds the children of each of its entities, and `h` gives every
/// such child a smaller height than its parent.
pub open spec fn heights_valid(
    children: Seq<Vec<usize>>,
    h: spec_fn(usize) -> nat,
    below: Set<usize>,
) -> bool {
    forall|e: usize, i: int|
        below.contains(e) && 0 <= i < kids(children, e).len() ==> below.contains(
            #[trigger] kids(children, e)[i],
        ) && h(kids(children, e)[i]) < h(e)
}

/// A height bound on the part of the hierarchy below `roots`: a set that
/// holds the roots and the children of its entities, with heights that
/// decrease from every parent to each child.
pub open spec fn height_bound(
    children: Seq<Vec<usize>>,
    roots: Seq<usize>,
    hb: (spec_fn(usize) -> nat, Set<usize>),
) -> bool {
    &&& heights_valid(children, hb.0, hb.1)
    &&& forall|i: int| 0 <= i < roots.len() ==> hb.1.contains(#[trigger] roots[i])
}

/// The hierarchy below `roots` has no cycle (entities that cannot be
/// reached from the roots may form any shape): the reachable entities have
/// heights that decrease from every parent to each of its children.
pub open spec fn acyclic_below(children: Seq<Vec<usize>>, roots: Seq<usize>) -> bool {
    exists|hb: (spec_fn(usize) -> nat, Set<usize>)| height_bound(children, roots, hb)
}

/// The number of entities in the tree below `e`, `e` included, counting an
/// entity once for every path that leads to it.
pub open spec fn tree_size(children: Seq<Vec<usize>>, h: spec_fn(usize) -> nat, e: usize) -> nat
    decreases h(e), 1nat, 0nat,
{
    1 + forest_size(children, h, kids(children, e), h(e))
}

/// The total tree size of those of `es` lower than `bound`.
pub open spec fn forest_size(
    children: Seq<Vec<usize>>,
    h: spec_fn(usize) -> nat,
    es: Seq<usize>,
    bound: nat,
) -> nat
    decreases bound, 0nat, es.len(),
{
    if es.len() == 0 {
        0
    } else if h(es.last()) < bound {
        tree_size(children, h, es.last()) + forest_size(children, h, es.drop_last(), bound)
    } else {
        forest_size(children, h, es.drop_last(), bound)
    }
}

/// The total tree size of `es`.
pub open spec fn trees_size(children: Seq<Vec<usize>>, h: spec_fn(usize) -> nat, es: Seq<usize>) -> nat
    decreases es.len(),
{
    if es.len() == 0 {
        0
    } else {
        tree_size(children, h, es.last()) + trees_size(children, h, es.drop_last())
    }
}

/// How many entities the hierarchy below `roots` holds.
pub open spec fn hierarchy_size(children: Seq<Vec<usize>>, roots: Seq<usize>) -> nat {
    trees_size(
        children,
        (choose|hb: (spec_fn(usize) -> nat, Set<usize>)| height_bound(children, roots, hb)).0,
        roots,
    )
}

proof fn lemma_forest_below_bound(
    children: Seq<Vec<usize>>,
    h: spec_fn(usize) -> nat,
    es: Seq<usize>,
    bound: nat,
)
    requires
        forall|i: int| 0 <= i < es.len() ==> #[trigger] h(es[i]) < bound,
    ensures
        forest_size(children, h, es, bound) == trees_size(children, h, es),
    decreases es.len(),
{
    if es.len() > 0 {
        let rest = es.drop_last();
        assert forall|i: int| 0 <= i < rest.len() implies #[trigger] h(rest[i]) < bound by {
            assert(rest[i] == es[i]);
        }
        assert(h(es[es.len() - 1]) < bound);
        lemma_forest_below_bound(children, h, rest, bound);
    }
}

proof fn lemma_tree_size_unfolds(
    children: Seq<Vec<usize>>,
    h: spec_fn(usize) -> nat,
    below: Set<usize>,
    e: usize,
)
    requires
        heights_valid(children, h, below),
        below.contains(e),
    ensures
        tree_size(children, h, e) == 1 + trees_size(children, h, kids(children, e)),
{
    let k = kids(children, e);
    assert forall|i: int| 0 <= i < k.len() implies #[trigger] h(k[i]) < h(e) by {
        assert(below.contains(kids(children, e)[i]) && h(kids(children, e)[i]) < h(e));
    }
    lemma_forest_below_bound(children, h, k, h(e));
}

proof fn lemma_trees_size_append(
    children: Seq<Vec<usize>>,
    h: spec_fn(usize) -> nat,
    a: Seq<usize>,
    b: Seq<usize>,
)
    ensures
        trees_size(children, h, a + b) == trees_size(children, h, a) + trees_size(children, h, b),
    decreases b.len(),
{
    if b.len() == 0 {
        assert(a + b =~= a);
    } else {
        assert((a + b).drop_last() =~= a + b.drop_last());
        assert((a + b).last() == b.last());
        lemma_trees_size_append(children, h, a, b.drop_last());
    }
}

/// The entities in the tree below `e`, `e` included.
pub open spec fn tree_set(children: Seq<Vec<usize>>, h: spec_fn(usize) -> nat, e: usize) -> Set<
    usize,
>
    decreases h(e), 1nat, 0nat,
{
    set![e] + forest_set(children, h, kids(children, e), h(e))
}

/// The entities in the trees of those of `es` lower than `bound`.
pub open spec fn forest_set(
    children: Seq<Vec<usize>>,
    h: spec_fn(usize) -> nat,
    es: Seq<usize>,
    bound: nat,
) -> Set<usize>
    decreases bound, 0nat, es.len(),
{
    if es.len() == 0 {
        Set::empty()
    } else if h(es.last()) < bound {
        tree_set(children, h, es.last()) + forest_set(children, h, es.drop_last(), bound)
    } else {
        forest_set(children, h, es.drop_last(), bound)
    }
}

/// The entities in the trees of `es`.
pub open spec fn trees_set(children: Seq<Vec<usize>>, h: spec_fn(usize) -> nat, es: Seq<usize>) -> Set<
    usize,
>
    decreases es.len(),
{
    if es.len() == 0 {
        Set::empty()
    } else {
        tree_set(children, h, es.last()) + trees_set(children, h, es.drop_last())
    }
}

/// No entity below `e` is reached along two paths: `e` is not below itself,
/// and the trees of its children share no entity.
pub open spec fn tree_unshared(children: Seq<Vec<usize>>, h: spec_fn(usize) -> nat, e: usize) -> bool
    decreases h(e), 1nat, 0nat,
{
    &&& !forest_set(children, h, kids(children, e), h(e)).contains(e)
    &&& forest_unshared(children, h, kids(children, e), h(e))
}

pub open spec fn forest_unshared(
    children: Seq<Vec<usize>>,
    h: spec_fn(usize) -> nat,
    es: Seq<usize>,
    bound: nat,
) -> bool
    decreases bound, 0nat, es.len(),
{
    es.len() == 0 || {
        &&& forest_unshared(children, h, es.drop_last(), bound)
        &&& h(es.last()) < bound ==> {
            &&& tree_unshared(children, h, es.last())
            &&& tree_set(children, h, es.last()).disjoint(
                forest_set(children, h, es.drop_last(), bound),
            )
        }
    }
}

pub open spec fn trees_unshared(children: Seq<Vec<usize>>, h: spec_fn(usize) -> nat, es: Seq<usize>) -> bool
    decreases es.len(),
{
    es.len() == 0 || {
        &&& trees_unshared(children, h, es.drop_last())
        &&& tree_unshared(children, h, es.last())
        &&& tree_set(children, h, es.last()).disjoint(trees_set(children, h, es.drop_last()))
    }
}

/// The heights that `hierarchy_size` measures the hierarchy below `roots`
/// with.
pub open spec fn chosen_heights(children: Seq<Vec<usize>>, roots: Seq<usize>) -> spec_fn(usize) -> nat {
    (choose|hb: (spec_fn(usize) -> nat, Set<usize>)| height_bound(children, roots, hb)).0
}

/// The distinct entities reachable from `roots`, roots included.
pub open spec fn reached_entities(children: Seq<Vec<usize>>, roots: Seq<usize>) -> Set<usize> {
    trees_set(children, chosen_heights(children, roots), roots)
}

/// The hierarchy below `roots` is a forest: no entity is reached along two
/// paths (the roots included).
pub open spec fn is_forest_below(children: Seq<Vec<usize>>, roots: Seq<usize>) -> bool {
    trees_unshared(children, chosen_heights(children, roots), roots)
}

proof fn lemma_tree_count(children: Seq<Vec<usize>>, h: spec_fn(usize) -> nat, e: usize)
    requires
        tree_unshared(children, h, e),
    ensures
        tree_set(children, h, e).finite(),
        tree_set(children, h, e).len() == tree_size(children, h, e),
    decreases h(e), 1nat, 0nat,
{
    let f = forest_set(children, h, kids(children, e), h(e));
    lemma_forest_count(children, h, kids(children, e), h(e));
    vstd::set_lib::lemma_set_disjoint_lens(set![e], f);
    assert(set![e].disjoint(f));
}

proof fn lemma_forest_count(
    children: Seq<Vec<usize>>,
    h: spec_fn(usize) -> nat,
    es: Seq<usize>,
    bound: nat,
)
    requires
        forest_unshared(children, h, es, bound),
    ensures
        forest_set(children, h, es, bound).finite(),
        forest_set(children, h, es, bound).len() == forest_size(children, h, es, bound),
    decreases bound, 0nat, es.len(),
{
    if es.len() > 0 {
        lemma_forest_count(children, h, es.drop_last(), bound);
        if h(es.last()) < bound {
            lemma_tree_count(children, h, es.last());
            vstd::set_lib::lemma_set_disjoint_lens(
                tree_set(children, h, es.last()),
                forest_set(children, h, es.drop_last(), bound),
            );
        }
    }
}

proof fn lemma_trees_count(children: Seq<Vec<usize>>, h: spec_fn(usize) -> nat, es: Seq<usize>)
    requires
        trees_unshared(children, h, es),
    ensures
        trees_set(children, h, es).finite(),
        trees_set(children, h, es).len() == trees_size(children, h, es),
    decreases es.len(),
{
    if es.len() > 0 {
        lemma_trees_count(children, h, es.drop_last());
        lemma_tree_count(children, h, es.last());
        vstd::set_lib::lemma_set_disjoint_lens(
            tree_set(children, h, es.last()),
            trees_set(children, h, es.drop_last()),
        );
    }
}

/// In a forest the entity count is the number of distinct entities
/// reachable from the roots: each is reached along one path only.
pub proof fn law_forest_count_is_distinct_entities(children: Seq<Vec<usize>>, roots: Seq<usize>)
    requires
        is_forest_below(children, roots),
    ensures
        reached_entities(children, roots).finite(),
        hierarchy_size(children, roots) == reached_entities(children, roots).len(),
{
    lemma_trees_count(children, chosen_heights(children, roots), roots);
}

/// Counts the entities of the hierarchy below `roots` by a depth-first walk
/// with an explicit stack: every entity popped counts once and its children
/// are pushed.
pub fn count_ui_entities(roots: &Vec<usize>, children: &Vec<Vec<usize>>) -> (count: usize)
    requires
        acyclic_below(children@, roots@),
        hierarchy_size(children@, roots@) <= usize::MAX,
    ensures
        count == hierarchy_size(children@, roots@),
{
    let ghost hb = choose|hb: (spec_fn(usize) -> nat, Set<usize>)| height_bound(children@, roots@, hb);
    let ghost h = hb.0;
    let ghost below = hb.1;
    let ghost total = trees_size(children@, h, roots@);
    let mut count: usize = 0;
    let mut pending: Vec<usize> = roots.clone();
    assert(pending@ =~= roots@);
    while pending.len() > 0
        invariant
            heights_valid(children@, h, below),
            forall|i: int| 0 <= i < pending@.len() ==> below.contains(#[trigger] pending@[i]),
            total == trees_size(children@, h, roots@),
            total <= usize::MAX,
            count + trees_size(children@, h, pending@) == total,
        decreases trees_size(children@, h, pending@),
    {
        let ghost before = pending@;
        let e = pending.pop().unwrap();
        proof {
            assert(before.drop_last() =~= pending@);
            assert(before.last() == e);
            assert(below.contains(before[before.len() - 1]));
            lemma_tree_size_unfolds(children@, h, below, e);
        }
        count = count + 1;
        if e < children.len() {
            let list = &children[e];
            let ghost base = pending@;
            let mut j: usize = 0;
            while j < list.len()
                invariant
                    j <= list.len(),
                    list@ == kids(children@, e),
                    pending@ == base + list@.take(j as int),
                    below.contains(e),
                    heights_valid(children@, h, below),
                    forall|i: int| 0 <= i < base.len() ==> below.contains(#[trigger] base[i]),
                decreases list.len() - j,
            {
                pending.push(list[j]);
                j = j + 1;
                assert(pending@ =~= base + list@.take(j as int));
            }
            assert(list@.take(list.len() as int) =~= list@);
            proof {
                lemma_trees_size_append(children@, h, base, kids(children@, e));
            }
        } else {
            assert(kids(children@, e) =~= Seq::<usize>::empty());
        }
    }
    count
}

} // verus!
