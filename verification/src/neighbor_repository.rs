use vstd::prelude::*;
use crate::value_objects::KuniId;

verus! {

/// The neighbours of `id` that a list of directed adjacencies records, in
/// the order they were recorded.
pub open spec fn neighbors_of(edges: Seq<(KuniId, KuniId)>, id: KuniId) -> Seq<KuniId>
    decreases edges.len(),
{
    if edges.len() == 0 {
        Seq::empty()
    } else {
        let rest = neighbors_of(edges.drop_last(), id);
        if edges.last().0 == id { rest.push(edges.last().1) } else { rest }
    }
}

/// The adjacency of provinces.
pub trait NeighborRepository {
    /// The neighbours of province `id`, in the order they were recorded
    /// (empty for an unknown province).
    spec fn neighbors(&self, id: KuniId) -> Seq<KuniId>;

    /// The neighbours of province `kuni_id`.
    fn get_neighbors(&self, kuni_id: &KuniId) -> (r: Vec<KuniId>)
        ensures
            r@ == self.neighbors(*kuni_id),
    ;

    /// Whether `b` is a neighbour of `a`.
    fn are_adjacent(&self, a: &KuniId, b: &KuniId) -> (r: bool)
        ensures
            r == self.neighbors(*a).contains(*b),
    ;

    /// Replaces the adjacency by the directed pairs of `adjacency`.
    fn reset(&mut self, adjacency: Vec<(KuniId, KuniId)>)
        ensures
            forall|id: KuniId| #[trigger] final(self).neighbors(id) == neighbors_of(adjacency@, id),
    ;
}

/// Adjacency kept in memory as the list of recorded directed pairs.
#[derive(Clone)]
pub struct InMemoryNeighborRepository {
    edges: Vec<(KuniId, KuniId)>,
}

impl InMemoryNeighborRepository {
    /// No province has neighbours.
    pub fn new() -> (r: InMemoryNeighborRepository)
        ensures
            forall|id: KuniId| r.neighbors(id) == Seq::<KuniId>::empty(),
    {
        InMemoryNeighborRepository { edges: Vec::new() }
    }

    /// Records that `a` and `b` border each other: `b` becomes the last
    /// neighbour of `a` and `a` the last neighbour of `b`.
    pub fn add_neighbor(&mut self, a: KuniId, b: KuniId)
        ensures
            a != b ==> final(self).neighbors(a) == old(self).neighbors(a).push(b),
            a != b ==> final(self).neighbors(b) == old(self).neighbors(b).push(a),
            a == b ==> final(self).neighbors(a) == old(self).neighbors(a).push(a).push(a),
            forall|id: KuniId| id != a && id != b ==> final(self).neighbors(id) == old(self).neighbors(id),
    {
        let ghost e0 = self.edges@;
        self.edges.push((a, b));
        let ghost e1 = self.edges@;
        self.edges.push((b, a));
        let ghost e2 = self.edges@;
        proof {
            assert(e1.drop_last() == e0);
            assert(e2.drop_last() == e1);
            assert forall|id: KuniId| #[trigger] neighbors_of(e2, id) == (if id == b {
                neighbors_of(e1, id).push(a)
            } else {
                neighbors_of(e1, id)
            }) by {}
            assert forall|id: KuniId| #[trigger] neighbors_of(e1, id) == (if id == a {
                neighbors_of(e0, id).push(b)
            } else {
                neighbors_of(e0, id)
            }) by {}
        }
    }
}

impl NeighborRepository for InMemoryNeighborRepository {
    closed spec fn neighbors(&self, id: KuniId) -> Seq<KuniId> {
        neighbors_of(self.edges@, id)
    }

    fn get_neighbors(&self, kuni_id: &KuniId) -> (r: Vec<KuniId>) {
        let mut out: Vec<KuniId> = Vec::new();
        let mut i: usize = 0;
        while i < self.edges.len()
            invariant
                i <= self.edges@.len(),
                out@ == neighbors_of(self.edges@.subrange(0, i as int), *kuni_id),
            decreases self.edges@.len() - i,
        {
            let (from, to) = self.edges[i];
            proof {
                assert(self.edges@.subrange(0, i + 1).drop_last() == self.edges@.subrange(0, i as int));
            }
            if from == *kuni_id {
                out.push(to);
            }
            i = i + 1;
        }
        proof {
            assert(self.edges@.subrange(0, self.edges@.len() as int) == self.edges@);
        }
        out
    }

    fn are_adjacent(&self, a: &KuniId, b: &KuniId) -> (r: bool) {
        let ns = self.get_neighbors(a);
        let mut i: usize = 0;
        while i < ns.len()
            invariant
                i <= ns@.len(),
                ns@ == self.neighbors(*a),
                forall|j: int| 0 <= j < i ==> ns@[j] != *b,
            decreases ns@.len() - i,
        {
            if ns[i] == *b {
                proof {
                    assert(ns@[i as int] == *b);
                }
                return true;
            }
            i = i + 1;
        }
        false
    }

    fn reset(&mut self, adjacency: Vec<(KuniId, KuniId)>) {
        self.edges = adjacency;
    }
}

} // verus!
