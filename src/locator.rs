//! The accessibility locator: from the focused element, find the nearest
//! element that can actually take text. The accessibility tree is given as
//! an arena of nodes; children are indices into it.
use vstd::prelude::*;

verus! {

/// Most nodes the breadth-first walk visits.
pub const NODE_BUDGET: usize = 128;

/// The control role of an element, as far as the search cares.
#[derive(Debug, Clone, Copy, PartialEq, Eq, Structural)]
pub enum ControlRole {
    Document,
    Edit,
    Other,
}

/// One element of the accessibility tree.
pub struct AccessNode {
    pub role: ControlRole,
    /// Supports the value-write capability.
    pub has_value: bool,
    /// Supports the text-range capability.
    pub has_text_range: bool,
    /// Indices of its children; indices outside the arena are ignored.
    pub children: Vec<usize>,
}

/// How strongly an element is preferred: documents, then edits, then any
/// other element with a text capability; zero for an element without one.
pub open spec fn priority_of(n: AccessNode) -> u8 {
    if !n.has_value && !n.has_text_range {
        0
    } else {
        match n.role {
            ControlRole::Document => 3,
            ControlRole::Edit => 2,
            ControlRole::Other => 1,
        }
    }
}

impl AccessNode {
    /// This element's preference.
    pub fn priority(&self) -> (r: u8)
        ensures
            r == priority_of(*self),
    {
        if !self.has_value && !self.has_text_range {
            0
        } else {
            match self.role {
                ControlRole::Document => 3,
                ControlRole::Edit => 2,
                ControlRole::Other => 1,
            }
        }
    }
}

/// `c` is a child of node `p` that lies in the arena.
pub open spec fn is_child(nodes: Seq<AccessNode>, p: usize, c: usize) -> bool {
    p < nodes.len() && c < nodes.len() && nodes[p as int].children@.contains(c)
}

/// What a bounded walk saw and chose.
pub struct LocatorWalk {
    /// The nodes visited, in breadth-first order.
    pub visited: Vec<usize>,
    /// The best candidate among them, if any had a text capability.
    pub best: Option<usize>,
}

/// The walk is sound for `nodes` and `root`: it stays within the budget,
/// starts at the root, reaches each node through a node visited before,
/// covers the whole reachable tree when the budget was not used up, and
/// chooses the first visited node of highest priority.
pub open spec fn walk_ok(nodes: Seq<AccessNode>, root: usize, w: LocatorWalk) -> bool {
    let v = w.visited@;
    &&& v.len() <= NODE_BUDGET
    &&& v.len() >= 1
    &&& v[0] == root
    &&& forall|k: int| 0 <= k < v.len() ==> #[trigger] v[k] < nodes.len()
    &&& forall|k: int|
        0 < k < v.len() ==> exists|j: int| 0 <= j < k && is_child(nodes, v[j], #[trigger] v[k])
    &&& v.len() < NODE_BUDGET ==> forall|j: int, c: usize|
        0 <= j < v.len() && #[trigger] is_child(nodes, v[j], c) ==> v.contains(c)
    &&& match w.best {
        Some(b) => {
            &&& exists|i: int|
                0 <= i < v.len() && v[i] == b && forall|k: int|
                    0 <= k < i ==> priority_of(nodes[#[trigger] v[k] as int]) < priority_of(
                        nodes[b as int],
                    )
            &&& priority_of(nodes[b as int]) > 0
            &&& forall|k: int|
                0 <= k < v.len() ==> priority_of(nodes[#[trigger] v[k] as int]) <= priority_of(
                    nodes[b as int],
                )
        },
        None => forall|k: int| 0 <= k < v.len() ==> priority_of(nodes[#[trigger] v[k] as int]) == 0,
    }
}

/// The in-arena children of node `p` all appear in `v`.
pub open spec fn children_in(nodes: Seq<AccessNode>, p: usize, v: Seq<usize>) -> bool {
    forall|m: int|
        0 <= m < nodes[p as int].children@.len() && #[trigger] nodes[p as int].children@[m]
            < nodes.len() ==> v.contains(nodes[p as int].children@[m])
}

/// Appends the in-arena children of `visited[head]` to `visited`, in
/// order, while the budget allows.
fn enqueue_children(nodes: &Vec<AccessNode>, visited: &mut Vec<usize>, head: usize)
    requires
        head < old(visited)@.len() <= NODE_BUDGET,
        forall|k: int| 0 <= k < old(visited)@.len() ==> #[trigger] old(visited)@[k] < nodes@.len(),
    ensures
        final(visited)@.len() <= NODE_BUDGET,
        old(visited)@.len() <= final(visited)@.len(),
        forall|k: int| 0 <= k < old(visited)@.len() ==> final(visited)@[k] == old(visited)@[k],
        forall|k: int|
            old(visited)@.len() <= k < final(visited)@.len() ==> is_child(
                nodes@,
                old(visited)@[head as int],
                #[trigger] final(visited)@[k],
            ),
        forall|k: int| 0 <= k < final(visited)@.len() ==> #[trigger] final(visited)@[k] < nodes@.len(),
        final(visited)@.len() < NODE_BUDGET ==> children_in(
            nodes@,
            old(visited)@[head as int],
            final(visited)@,
        ),
{
    let ghost start = visited@;
    let idx = visited[head];
    let node = &nodes[idx];
    let mut ci: usize = 0;
    while ci < node.children.len()
        invariant
            head < start.len() <= visited@.len() <= NODE_BUDGET,
            forall|k: int| 0 <= k < start.len() ==> visited@[k] == start[k],
            idx == start[head as int],
            idx < nodes@.len(),
            node == &nodes@[idx as int],
            ci <= node.children@.len(),
            forall|k: int| 0 <= k < visited@.len() ==> #[trigger] visited@[k] < nodes@.len(),
            forall|k: int|
                start.len() <= k < visited@.len() ==> is_child(nodes@, idx, #[trigger] visited@[k]),
            visited@.len() < NODE_BUDGET ==> forall|m: int|
                0 <= m < ci && #[trigger] node.children@[m] < nodes@.len() ==> visited@.contains(
                    node.children@[m],
                ),
        decreases node.children@.len() - ci,
    {
        let c = node.children[ci];
        if c < nodes.len() && visited.len() < NODE_BUDGET {
            let ghost pre = visited@;
            visited.push(c);
            assert(node.children@[ci as int] == c);
            assert(is_child(nodes@, idx, c));
            assert(visited@[visited@.len() - 1] == c);
            assert forall|m: int|
                0 <= m < ci + 1 && #[trigger] node.children@[m] < nodes@.len() implies visited@.contains(
                node.children@[m],
            ) by {
                if m < ci {
                    let w = choose|w: int| 0 <= w < pre.len() && pre[w] == node.children@[m];
                    assert(visited@[w] == node.children@[m]);
                } else {
                    assert(visited@[visited@.len() - 1] == node.children@[m]);
                }
            }
        }
        ci = ci + 1;
    }
}

/// Walks the tree breadth-first from `root`, visiting at most
/// `NODE_BUDGET` nodes, and picks the best candidate.
pub fn bounded_walk(nodes: &Vec<AccessNode>, root: usize) -> (r: LocatorWalk)
    requires
        root < nodes@.len(),
    ensures
        walk_ok(nodes@, root, r),
{
    let mut visited: Vec<usize> = Vec::new();
    visited.push(root);
    let ghost mut parent: Seq<int> = seq![0int];
    let mut best: Option<usize> = None;
    let mut best_p: u8 = 0;
    let mut best_at: Ghost<int> = Ghost(0);
    let mut head: usize = 0;
    // `visited` is the queue; the nodes before `head` were scored and
    // had their children enqueued.
    while head < visited.len()
        invariant
            1 <= visited@.len() <= NODE_BUDGET,
            head <= visited@.len(),
            visited@[0] == root,
            parent.len() == visited@.len(),
            forall|k: int| 0 <= k < visited@.len() ==> #[trigger] visited@[k] < nodes@.len(),
            forall|k: int|
                0 < k < visited@.len() ==> 0 <= #[trigger] parent[k] < k && is_child(
                    nodes@,
                    visited@[parent[k]],
                    visited@[k],
                ),
            visited@.len() < NODE_BUDGET ==> forall|j: int|
                0 <= j < head ==> children_in(nodes@, #[trigger] visited@[j], visited@),
            match best {
                Some(b) => {
                    &&& 0 <= best_at@ < head
                    &&& visited@[best_at@] == b
                    &&& best_p == priority_of(nodes@[b as int])
                    &&& best_p > 0
                    &&& forall|k: int|
                        0 <= k < best_at@ ==> priority_of(nodes@[#[trigger] visited@[k] as int])
                            < best_p
                },
                None => best_p == 0,
            },
            forall|k: int|
                0 <= k < head ==> priority_of(nodes@[#[trigger] visited@[k] as int]) <= best_p,
        decreases 2 * NODE_BUDGET - visited@.len() - head,
    {
        let idx = visited[head];
        let p = nodes[idx].priority();
        if p > best_p {
            best = Some(idx);
            best_p = p;
            best_at = Ghost(head as int);
        }
        let ghost before = visited@;
        enqueue_children(nodes, &mut visited, head);
        proof {
            let added = (visited@.len() - before.len()) as nat;
            parent = parent + Seq::new(added, |i: int| head as int);
            assert forall|k: int| 0 < k < visited@.len() implies 0 <= #[trigger] parent[k] < k
                && is_child(nodes@, visited@[parent[k]], visited@[k]) by {
                if k < before.len() {
                    assert(visited@[parent[k]] == before[parent[k]]);
                } else {
                    assert(parent[k] == head);
                    assert(visited@[head as int] == before[head as int]);
                }
            }
            if visited@.len() < NODE_BUDGET {
                assert forall|j: int| 0 <= j < head + 1 implies children_in(
                    nodes@,
                    #[trigger] visited@[j],
                    visited@,
                ) by {
                    assert(visited@[j] == before[j]);
                    if j < head {
                        assert(children_in(nodes@, before[j], before));
                        let q = before[j];
                        assert forall|m: int|
                            0 <= m < nodes@[q as int].children@.len()
                                && #[trigger] nodes@[q as int].children@[m]
                                < nodes@.len() implies visited@.contains(
                            nodes@[q as int].children@[m],
                        ) by {
                            let w = choose|w: int|
                                0 <= w < before.len() && before[w] == nodes@[q as int].children@[m];
                            assert(visited@[w] == before[w]);
                        }
                    }
                }
            }
            assert forall|k: int| 0 <= k < head + 1 implies priority_of(
                nodes@[#[trigger] visited@[k] as int],
            ) <= best_p by {
                assert(visited@[k] == before[k]);
            }
            if best is Some {
                assert(visited@[best_at@] == before[best_at@]);
                assert forall|k: int| 0 <= k < best_at@ implies priority_of(
                    nodes@[#[trigger] visited@[k] as int],
                ) < best_p by {
                    assert(visited@[k] == before[k]);
                }
            }
        }
        head = head + 1;
    }
    proof {
        assert forall|k: int| 0 < k < visited@.len() implies exists|j: int|
            0 <= j < k && is_child(nodes@, visited@[j], #[trigger] visited@[k]) by {
            assert(is_child(nodes@, visited@[parent[k]], visited@[k]));
        }
        if visited@.len() < NODE_BUDGET {
            assert forall|j: int, c: usize|
                0 <= j < visited@.len() && #[trigger] is_child(
                    nodes@,
                    visited@[j],
                    c,
                ) implies visited@.contains(c) by {
                let q = visited@[j];
                assert(children_in(nodes@, q, visited@));
                let m = choose|m: int|
                    0 <= m < nodes@[q as int].children@.len() && nodes@[q as int].children@[m] == c;
                assert(nodes@[q as int].children@[m] < nodes@.len());
            }
        }
        if let Some(b) = best {
            assert(visited@[best_at@] == b);
        }
    }
    LocatorWalk { visited, best }
}

/// The element that the accessibility writer works on: the query's match
/// when the provider answered it, else the walk's best candidate, else the
/// focused element itself.
pub fn locate_editable(nodes: &Vec<AccessNode>, root: usize, query_match: Option<usize>) -> (r:
    usize)
    requires
        root < nodes@.len(),
    ensures
        match query_match {
            Some(q) => r == q,
            None => exists|w: LocatorWalk|
                walk_ok(nodes@, root, w) && r == match w.best {
                    Some(b) => b,
                    None => root,
                },
        },
{
    match query_match {
        Some(q) => q,
        None => {
            let w = bounded_walk(nodes, root);
            match w.best {
                Some(b) => b,
                None => root,
            }
        },
    }
}

} // verus!
