use std::collections::HashSet;
use vstd::prelude::*;

verus! {

broadcast use vstd::std_specs::hash::group_hash_axioms;

/// The side of a node that an arrow connector sits on.
#[derive(Clone, Copy, Debug, PartialEq, Eq, Structural)]
pub enum ArrowConnectPos {
    Top,
    Bottom,
    Left,
    Right,
}

/// A connector: the node it belongs to and the side it sits on.
#[derive(Clone, Copy, Debug, PartialEq, Eq, Structural)]
pub struct ArrowConnect {
    pub id: u32,
    pub pos: ArrowConnectPos,
}

/// An arrow drawn from one connector to another.
#[derive(Clone, Copy, Debug, PartialEq, Eq, Structural)]
pub struct ArrowMeta {
    pub start: ArrowConnect,
    pub end: ArrowConnect,
}

/// Whether `arrow` starts or ends on node `id`.
pub open spec fn touches(arrow: ArrowMeta, id: u32) -> bool {
    arrow.start.id == id || arrow.end.id == id
}

/// The index of the first arrow of `arrows` from index `k` on that touches
/// node `id`, or the length of `arrows` when there is none.
pub open spec fn first_touching(arrows: Seq<ArrowMeta>, id: u32, k: int) -> int
    decreases arrows.len() - k,
{
    if k < 0 || k >= arrows.len() {
        arrows.len() as int
    } else if touches(arrows[k], id) {
        k
    } else {
        first_touching(arrows, id, k + 1)
    }
}

/// The arrows to take down when the nodes `moved` were moved or resized, in
/// this order: for each node, at its first mention in `moved`, the first
/// arrow that touches it, if there is one.
pub open spec fn redraw_plan(moved: Seq<u32>, arrows: Seq<ArrowMeta>) -> Seq<usize>
    decreases moved.len(),
{
    if moved.len() == 0 {
        Seq::empty()
    } else {
        let before = moved.drop_last();
        let id = moved.last();
        let plan = redraw_plan(before, arrows);
        let f = first_touching(arrows, id, 0);
        if before.contains(id) || f == arrows.len() {
            plan
        } else {
            plan.push(f as usize)
        }
    }
}

proof fn lemma_first_touching_range(arrows: Seq<ArrowMeta>, id: u32, k: int)
    requires
        0 <= k <= arrows.len(),
    ensures
        k <= first_touching(arrows, id, k) <= arrows.len(),
        first_touching(arrows, id, k) < arrows.len() ==> touches(
            arrows[first_touching(arrows, id, k)],
            id,
        ),
    decreases arrows.len() - k,
{
    if k < arrows.len() && !touches(arrows[k], id) {
        lemma_first_touching_range(arrows, id, k + 1);
    }
}

/// Picks the arrows to take down so that they can be drawn again, given the
/// ids of the nodes that moved this frame (with repeats) and the arrows on
/// the board. Returns indices into `arrows`.
pub fn arrows_to_redraw(moved: &Vec<u32>, arrows: &Vec<ArrowMeta>) -> (r: Vec<usize>)
    ensures
        r@ == redraw_plan(moved@, arrows@),
{
    let mut plan: Vec<usize> = Vec::new();
    let mut despawned: HashSet<u32> = HashSet::new();
    let mut e: usize = 0;
    while e < moved.len()
        invariant
            0 <= e <= moved@.len(),
            plan@ == redraw_plan(moved@.subrange(0, e as int), arrows@),
            forall|x: u32|
                despawned@.contains(x) <==> (moved@.subrange(0, e as int).contains(x)
                    && first_touching(arrows@, x, 0) < arrows@.len()),
        decreases moved@.len() - e,
    {
        let id = moved[e];
        let ghost prefix = moved@.subrange(0, e as int);
        let ghost next = moved@.subrange(0, e + 1);
        proof {
            assert(next.drop_last() =~= prefix);
            lemma_first_touching_range(arrows@, id, 0);
        }
        if !despawned.contains(&id) {
            let mut a: usize = 0;
            let mut found = false;
            while a < arrows.len() && !found
                invariant
                    0 <= a <= arrows@.len(),
                    !found ==> first_touching(arrows@, id, 0) == first_touching(
                        arrows@,
                        id,
                        a as int,
                    ),
                    found ==> a > 0 && first_touching(arrows@, id, 0) == a - 1,
                    found ==> plan@ == redraw_plan(prefix, arrows@).push((a - 1) as usize),
                    !found ==> plan@ == redraw_plan(prefix, arrows@),
                decreases arrows@.len() - a,
            {
                let arrow = arrows[a];
                if arrow.start.id == id || arrow.end.id == id {
                    plan.push(a);
                    found = true;
                }
                a = a + 1;
            }
            if found {
                despawned.insert(id);
            }
        }
        proof {
            assert(next =~= prefix.push(id));
            assert(first_touching(arrows@, id, arrows@.len() as int) == arrows@.len());
            assert forall|x: u32|
                despawned@.contains(x) <==> (next.contains(x) && first_touching(arrows@, x, 0)
                    < arrows@.len()) by {
                if next.contains(x) && x != id {
                    let j = choose|j: int| 0 <= j < next.len() && next[j] == x;
                    assert(prefix[j] == x);
                }
                if prefix.contains(x) {
                    let j = choose|j: int| 0 <= j < prefix.len() && prefix[j] == x;
                    assert(next[j] == x);
                }
                assert(next[e as int] == id);
            }
        }
        e = e + 1;
    }
    proof {
        assert(moved@.subrange(0, moved@.len() as int) =~= moved@);
    }
    plan
}

} // verus!
