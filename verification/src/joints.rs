//! The joint store.
//!
//! Joints live in an arena: a growable vector indexed by sequentially
//! assigned ids, so that the id of a joint is its position and iteration in
//! ascending id order is the structure of the store itself. Joints are never
//! deleted. Each joint carries its location, its applied external load
//! (zero until set), and the append-only list of member ids incident to it.

use vstd::prelude::*;

use crate::scalar::{zero_vec2, Vec2};
use crate::TrussError;

verus! {

/// A joint of the truss.
#[derive(Clone, Debug)]
pub struct Node {
    /// Sequential id; equals this joint's index in its store.
    pub id: usize,
    /// Planar location, immutable after creation.
    pub loc: Vec2,
    /// Applied external load; the zero vector until set.
    pub load: Vec2,
    /// Ids of the members incident to this joint, in order of creation.
    pub line_ids: Vec<usize>,
}

/// The arena of all joints, in ascending id order.
#[derive(Clone, Debug)]
pub struct Nodes {
    pub items: Vec<Node>,
}

/// The load a joint ends up with after a sequence of load assignments is
/// applied in order: the last assignment naming the joint wins, and a joint
/// never named keeps the zero load.
pub open spec fn applied_load(loads: Seq<(usize, Vec2)>, id: usize) -> Vec2
    decreases loads.len(),
{
    if loads.len() == 0 {
        zero_vec2()
    } else if loads.last().0 == id {
        loads.last().1
    } else {
        applied_load(loads.drop_last(), id)
    }
}

/// The store built from a list of locations and a list of load assignments:
/// one joint per location, in order, with id equal to position, no incident
/// members yet, and the load that the assignments give it.
pub open spec fn nodes_built_from(
    nodes: Nodes,
    locations: Seq<Vec2>,
    loads: Seq<(usize, Vec2)>,
) -> bool {
    &&& nodes.items@.len() == locations.len()
    &&& forall|i: int|
        0 <= i < locations.len() ==> {
            &&& (#[trigger] nodes.items@[i]).id == i
            &&& nodes.items@[i].loc == locations[i]
            &&& nodes.items@[i].load == applied_load(loads, i as usize)
            &&& nodes.items@[i].line_ids@.len() == 0
        }
}

impl Nodes {
    /// Every joint's id equals its index in the arena.
    pub open spec fn wf(self) -> bool {
        forall|i: int| 0 <= i < self.items@.len() ==> (#[trigger] self.items@[i]).id == i
    }

    /// An empty store.
    pub fn new() -> (r: Nodes)
        ensures
            r.wf(),
            r.items@.len() == 0,
    {
        Nodes { items: Vec::new() }
    }

    /// The number of joints.
    pub fn len(&self) -> (n: usize)
        ensures
            n == self.items@.len(),
    {
        self.items.len()
    }

    /// Appends a new joint at the given location, with the zero load and no
    /// incident members, and returns its id: the next sequential value.
    pub fn add_node(&mut self, loc: Vec2) -> (id: usize)
        requires
            old(self).wf(),
        ensures
            final(self).wf(),
            id == old(self).items@.len(),
            final(self).items@.len() == old(self).items@.len() + 1,
            forall|i: int|
                0 <= i < old(self).items@.len() ==> final(self).items@[i] == old(self).items@[i],
            final(self).items@.last().id == id,
            final(self).items@.last().loc == loc,
            final(self).items@.last().load == zero_vec2(),
            final(self).items@.last().line_ids@.len() == 0,
    {
        let id = self.items.len();
        let node = Node { id, loc, load: crate::scalar::vec2_zero(), line_ids: Vec::new() };
        self.items.push(node);
        id
    }

    /// Overwrites the applied load of the joint with the given id; fails
    /// with `NotFound`, changing nothing, when no such joint exists.
    pub fn set_load(&mut self, id: usize, load: Vec2) -> (r: Result<(), TrussError>)
        requires
            old(self).wf(),
        ensures
            final(self).wf(),
            id < old(self).items@.len() ==> {
                &&& r == Ok::<(), TrussError>(())
                &&& final(self).items@.len() == old(self).items@.len()
                &&& forall|i: int|
                    0 <= i < old(self).items@.len() && i != id ==> final(self).items@[i]
                        == old(self).items@[i]
                &&& final(self).items@[id as int].id == old(self).items@[id as int].id
                &&& final(self).items@[id as int].loc == old(self).items@[id as int].loc
                &&& final(self).items@[id as int].load == load
                &&& final(self).items@[id as int].line_ids
                    == old(self).items@[id as int].line_ids
            },
            id >= old(self).items@.len() ==> r == Err::<(), TrussError>(TrussError::NotFound)
                && *final(self) == *old(self),
    {
        if id < self.items.len() {
            let node = &mut self.items[id];
            node.load = load;
            Ok(())
        } else {
            Err(TrussError::NotFound)
        }
    }

    /// Looks the joint with the given id up; fails with `NotFound` when no
    /// such joint exists.
    pub fn get(&self, id: usize) -> (r: Result<&Node, TrussError>)
        ensures
            match r {
                Ok(node) => id < self.items@.len() && *node == self.items@[id as int],
                Err(e) => id >= self.items@.len() && e == TrussError::NotFound,
            },
    {
        if id < self.items.len() {
            Ok(&self.items[id])
        } else {
            Err(TrussError::NotFound)
        }
    }

    /// Builds a store from an ordered list of joint locations and a list of
    /// load assignments applied in order. An assignment naming a joint that
    /// the locations do not create is a fatal input error: construction
    /// stops with `NotFound` and no store is produced.
    pub fn from_locations(locations: Vec<Vec2>, loads: Vec<(usize, Vec2)>) -> (r: Result<
        Nodes,
        TrussError,
    >)
        ensures
            match r {
                Ok(nodes) => {
                    &&& nodes.wf()
                    &&& nodes_built_from(nodes, locations@, loads@)
                    &&& forall|j: int|
                        0 <= j < loads@.len() ==> (#[trigger] loads@[j]).0 < locations@.len()
                },
                Err(e) => {
                    &&& e == TrussError::NotFound
                    &&& exists|j: int|
                        0 <= j < loads@.len() && (#[trigger] loads@[j]).0 >= locations@.len()
                },
            },
    {
        let mut nodes = Nodes::new();
        let n = locations.len();
        let mut i: usize = 0;
        while i < n
            invariant
                n == locations@.len(),
                i <= n,
                nodes.wf(),
                nodes.items@.len() == i,
                forall|k: int|
                    0 <= k < i ==> {
                        &&& (#[trigger] nodes.items@[k]).loc == locations@[k]
                        &&& nodes.items@[k].load == zero_vec2()
                        &&& nodes.items@[k].line_ids@.len() == 0
                    },
            decreases n - i,
        {
            nodes.add_node(locations[i]);
            i += 1;
        }
        let m = loads.len();
        let mut j: usize = 0;
        while j < m
            invariant
                m == loads@.len(),
                j <= m,
                nodes.wf(),
                nodes.items@.len() == locations@.len(),
                forall|k: int|
                    0 <= k < locations@.len() ==> {
                        &&& (#[trigger] nodes.items@[k]).loc == locations@[k]
                        &&& nodes.items@[k].load == applied_load(loads@.take(j as int), k as usize)
                        &&& nodes.items@[k].line_ids@.len() == 0
                    },
                forall|k: int| 0 <= k < j ==> (#[trigger] loads@[k]).0 < locations@.len(),
            decreases m - j,
        {
            let (id, load) = loads[j];
            match nodes.set_load(id, load) {
                Ok(()) => {},
                Err(e) => {
                    return Err(e);
                },
            }
            proof {
                assert(loads@.take(j + 1).drop_last() =~= loads@.take(j as int));
                assert(loads@.take(j + 1).last() == loads@[j as int]);
            }
            j += 1;
        }
        proof {
            assert(loads@.take(m as int) =~= loads@);
        }
        Ok(nodes)
    }
}

/// Two joint stores built from the same locations and the same load
/// assignments are the same store, joint for joint and field for field:
/// joint construction is deterministic.
pub proof fn lemma_nodes_deterministic(
    n1: Nodes,
    n2: Nodes,
    locations: Seq<Vec2>,
    loads: Seq<(usize, Vec2)>,
)
    requires
        nodes_built_from(n1, locations, loads),
        nodes_built_from(n2, locations, loads),
    ensures
        n1.items@.len() == n2.items@.len(),
        forall|i: int|
            0 <= i < n1.items@.len() ==> {
                &&& (#[trigger] n1.items@[i]).id == n2.items@[i].id
                &&& n1.items@[i].loc == n2.items@[i].loc
                &&& n1.items@[i].load == n2.items@[i].load
                &&& n1.items@[i].line_ids@ == n2.items@[i].line_ids@
            },
{
    assert forall|i: int| 0 <= i < n1.items@.len() implies (#[trigger] n1.items@[i]).line_ids@
        == n2.items@[i].line_ids@ by {
        assert(n1.items@[i].line_ids@ =~= n2.items@[i].line_ids@);
    }
}

} // verus!
