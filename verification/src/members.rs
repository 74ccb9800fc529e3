//! The member store.
//!
//! Members live in an arena like joints: ids are sequential, a member's id
//! is its index, members are never deleted. A member holds the ids of its
//! two endpoint joints in input order — the order fixes the sign convention
//! of the solve — a unit direction vector from the first endpoint toward the
//! second, supplied by the caller's numeric kernel at creation and never
//! recomputed, and its axial force, zero until a solve succeeds.

use vstd::prelude::*;

use crate::joints::{Node, Nodes};
use crate::scalar::{Vec2, ZERO_WORD};

verus! {

/// A member of the truss.
#[derive(Clone, Copy, Debug, PartialEq, Eq, Structural)]
pub struct Line {
    /// Sequential id; equals this member's index in its store.
    pub id: usize,
    /// Id of the first endpoint joint.
    pub first: usize,
    /// Id of the second endpoint joint.
    pub second: usize,
    /// Unit direction from the first endpoint toward the second.
    pub direction: Vec2,
    /// Axial force; the zero word until a solve succeeds. Positive means
    /// the member pulls away from its first endpoint along `direction`.
    pub force: u64,
}

/// The arena of all members, in ascending id order.
#[derive(Clone, Debug)]
pub struct Lines {
    pub items: Vec<Line>,
}

/// The joint `now` is the joint `before` with the given member ids appended
/// to its incident list, and everything else unchanged.
pub open spec fn incidents_appended(now: Node, before: Node, ids: Seq<usize>) -> bool {
    &&& now.id == before.id
    &&& now.loc == before.loc
    &&& now.load == before.load
    &&& now.line_ids@ == before.line_ids@ + ids
}

/// Incidence consistency across the two stores: every member's endpoints
/// are existing joints, and every id in a joint's incident list names an
/// existing member that has that joint as an endpoint.
pub open spec fn linked(nodes: Nodes, lines: Lines) -> bool {
    &&& forall|m: int|
        0 <= m < lines.items@.len() ==> {
            &&& (#[trigger] lines.items@[m]).first < nodes.items@.len()
            &&& lines.items@[m].second < nodes.items@.len()
        }
    &&& forall|i: int, k: int|
        0 <= i < nodes.items@.len() && 0 <= k < nodes.items@[i].line_ids@.len() ==> {
            let m = #[trigger] nodes.items@[i].line_ids@[k];
            &&& m < lines.items@.len()
            &&& (lines.items@[m as int].first == i || lines.items@[m as int].second == i)
        }
}

/// The member arena that a list of connectivity pairs builds over a store
/// of `n_nodes` joints: pairs are taken in order, a pair naming a missing
/// joint is skipped, and each accepted pair becomes a member with the next
/// sequential id, the direction supplied for that pair, and zero force.
pub open spec fn lines_of_pairs(n_nodes: int, pairs: Seq<(usize, usize)>, dirs: Seq<Vec2>) -> Seq<
    Line,
>
    decreases pairs.len(),
{
    if pairs.len() == 0 {
        Seq::empty()
    } else {
        let rest = lines_of_pairs(n_nodes, pairs.drop_last(), dirs.drop_last());
        let pair = pairs.last();
        if pair.0 < n_nodes && pair.1 < n_nodes {
            rest.push(
                (Line {
                    id: rest.len() as usize,
                    first: pair.0,
                    second: pair.1,
                    direction: dirs.last(),
                    force: ZERO_WORD,
                }),
            )
        } else {
            rest
        }
    }
}

/// The incident list a joint `i` ends up with after the given members are
/// created in order: the ids of the members that have `i` as an endpoint,
/// ascending, with a member listed twice when both its endpoints are `i`.
pub open spec fn incidents_from(lines: Seq<Line>, i: int) -> Seq<usize>
    decreases lines.len(),
{
    if lines.len() == 0 {
        Seq::empty()
    } else {
        let rest = incidents_from(lines.drop_last(), i);
        let l = lines.last();
        let with_first = if l.first == i {
            rest.push(l.id)
        } else {
            rest
        };
        if l.second == i {
            with_first.push(l.id)
        } else {
            with_first
        }
    }
}

impl Lines {
    /// Every member's id equals its index in the arena.
    pub open spec fn wf(self) -> bool {
        forall|m: int| 0 <= m < self.items@.len() ==> (#[trigger] self.items@[m]).id == m
    }

    /// An empty store.
    pub fn new() -> (r: Lines)
        ensures
            r.wf(),
            r.items@.len() == 0,
    {
        Lines { items: Vec::new() }
    }

    /// The number of members.
    pub fn len(&self) -> (n: usize)
        ensures
            n == self.items@.len(),
    {
        self.items.len()
    }

    /// Creates a member between two joints. When either endpoint id names
    /// no joint, nothing is mutated and no id is returned. Otherwise the
    /// member gets the next sequential id, the supplied direction (first
    /// endpoint toward second) and zero force, and its id is appended to
    /// both endpoints' incident lists — twice to the one list when the two
    /// endpoints coincide.
    pub fn add_line(
        &mut self,
        nodes: &mut Nodes,
        first: usize,
        second: usize,
        direction: Vec2,
    ) -> (r: Option<usize>)
        requires
            old(self).wf(),
            old(nodes).wf(),
            linked(*old(nodes), *old(self)),
        ensures
            final(self).wf(),
            final(nodes).wf(),
            linked(*final(nodes), *final(self)),
            final(nodes).items@.len() == old(nodes).items@.len(),
            if first < old(nodes).items@.len() && second < old(nodes).items@.len() {
                let id = old(self).items@.len() as usize;
                &&& r == Some(id)
                &&& final(self).items@ == old(self).items@.push(
                    (Line { id, first, second, direction, force: ZERO_WORD }),
                )
                &&& forall|i: int|
                    0 <= i < old(nodes).items@.len() && i != first && i != second
                        ==> final(nodes).items@[i] == old(nodes).items@[i]
                &&& first != second ==> {
                    &&& incidents_appended(
                        final(nodes).items@[first as int],
                        old(nodes).items@[first as int],
                        seq![id],
                    )
                    &&& incidents_appended(
                        final(nodes).items@[second as int],
                        old(nodes).items@[second as int],
                        seq![id],
                    )
                }
                &&& first == second ==> incidents_appended(
                    final(nodes).items@[first as int],
                    old(nodes).items@[first as int],
                    seq![id, id],
                )
            } else {
                &&& r is None
                &&& *final(self) == *old(self)
                &&& *final(nodes) == *old(nodes)
            },
    {
        if first < nodes.items.len() && second < nodes.items.len() {
            let id = self.items.len();
            let n1 = &mut nodes.items[first];
            n1.line_ids.push(id);
            let n2 = &mut nodes.items[second];
            n2.line_ids.push(id);
            self.items.push(Line { id, first, second, direction, force: ZERO_WORD });
            proof {
                let before = old(nodes).items@;
                let after = nodes.items@;
                if first != second {
                    assert(after[first as int].line_ids@ =~= before[first as int].line_ids@
                        + seq![id]);
                    assert(after[second as int].line_ids@ =~= before[second as int].line_ids@
                        + seq![id]);
                } else {
                    assert(after[first as int].line_ids@ =~= before[first as int].line_ids@
                        + seq![id, id]);
                }
            }
            Some(id)
        } else {
            None
        }
    }

    /// Builds a member store from an ordered list of connectivity pairs and
    /// the parallel list of unit directions, one per pair, skipping pairs
    /// that name a missing joint. The joints must carry no incidences yet;
    /// afterwards every joint's incident list is exactly the members that
    /// end on it.
    pub fn from_pairs(
        nodes: &mut Nodes,
        pairs: &Vec<(usize, usize)>,
        directions: &Vec<Vec2>,
    ) -> (lines: Lines)
        requires
            old(nodes).wf(),
            directions@.len() == pairs@.len(),
            forall|i: int|
                0 <= i < old(nodes).items@.len() ==> (#[trigger] old(
                    nodes,
                ).items@[i]).line_ids@.len() == 0,
        ensures
            final(nodes).wf(),
            lines.wf(),
            linked(*final(nodes), lines),
            lines.items@ == lines_of_pairs(old(nodes).items@.len() as int, pairs@, directions@),
            final(nodes).items@.len() == old(nodes).items@.len(),
            forall|i: int|
                0 <= i < old(nodes).items@.len() ==> {
                    &&& (#[trigger] final(nodes).items@[i]).id == old(nodes).items@[i].id
                    &&& final(nodes).items@[i].loc == old(nodes).items@[i].loc
                    &&& final(nodes).items@[i].load == old(nodes).items@[i].load
                    &&& final(nodes).items@[i].line_ids@ == incidents_from(lines.items@, i)
                },
    {
        let ghost n0 = old(nodes).items@.len() as int;
        let mut lines = Lines::new();
        let np = pairs.len();
        let mut j: usize = 0;
        while j < np
            invariant
                np == pairs@.len(),
                directions@.len() == pairs@.len(),
                j <= np,
                nodes.wf(),
                lines.wf(),
                linked(*nodes, lines),
                nodes.items@.len() == n0,
                n0 == old(nodes).items@.len(),
                lines.items@ == lines_of_pairs(n0, pairs@.take(j as int), directions@.take(j as int)),
                forall|i: int|
                    0 <= i < n0 ==> {
                        &&& (#[trigger] nodes.items@[i]).id == old(nodes).items@[i].id
                        &&& nodes.items@[i].loc == old(nodes).items@[i].loc
                        &&& nodes.items@[i].load == old(nodes).items@[i].load
                        &&& nodes.items@[i].line_ids@ == incidents_from(lines.items@, i)
                    },
            decreases np - j,
        {
            let ghost lines_before = lines.items@;
            let (a, b) = pairs[j];
            let dir = directions[j];
            let r = lines.add_line(nodes, a, b, dir);
            proof {
                assert(pairs@.take(j + 1).drop_last() =~= pairs@.take(j as int));
                assert(directions@.take(j + 1).drop_last() =~= directions@.take(j as int));
                if a < n0 && b < n0 {
                    let l = (Line {
                        id: lines_before.len() as usize,
                        first: a,
                        second: b,
                        direction: dir,
                        force: ZERO_WORD,
                    });
                    assert(lines.items@.drop_last() =~= lines_before);
                    assert(lines.items@ == lines_of_pairs(
                        n0,
                        pairs@.take(j + 1),
                        directions@.take(j + 1),
                    ));
                    assert forall|i: int| 0 <= i < n0 implies (#[trigger] nodes.items@[i]).line_ids@
                        == incidents_from(lines.items@, i) by {
                        assert(incidents_from(lines_before, i).push(l.id) =~= incidents_from(
                            lines_before,
                            i,
                        ) + seq![l.id]);
                        assert(incidents_from(lines_before, i).push(l.id).push(l.id)
                            =~= incidents_from(lines_before, i) + seq![l.id, l.id]);
                    }
                } else {
                    assert(lines.items@ == lines_of_pairs(
                        n0,
                        pairs@.take(j + 1),
                        directions@.take(j + 1),
                    ));
                }
            }
            j += 1;
        }
        proof {
            assert(pairs@.take(np as int) =~= pairs@);
            assert(directions@.take(np as int) =~= directions@);
        }
        lines
    }
}

/// Two member stores built over joint stores of the same size, from the
/// same connectivity pairs and the same directions, are the same arena:
/// member creation is deterministic.
pub proof fn lemma_lines_deterministic(
    l1: Lines,
    l2: Lines,
    n_nodes: int,
    pairs: Seq<(usize, usize)>,
    dirs: Seq<Vec2>,
)
    requires
        l1.items@ == lines_of_pairs(n_nodes, pairs, dirs),
        l2.items@ == lines_of_pairs(n_nodes, pairs, dirs),
    ensures
        l1.items@ == l2.items@,
{
}

} // verus!
