//! Layout of a bounding volume hierarchy over triangles.
//!
//! The hierarchy is built by splitting a node's range of triangles at its middle
//! until a range holds at most [`MAX_LEAF_SIZE`] triangles; nodes are stored in
//! depth-first order. The layout (which node covers which range, and which nodes are
//! its children) depends only on the number of triangles. Which triangles fall into
//! which half, and the bounding boxes, are computed on the floating-point geometry by
//! the embedding application, node by node in this same order.
use vstd::prelude::*;

verus! {

/// Maximum number of triangles in a leaf node.
pub const MAX_LEAF_SIZE: usize = 128;

/// The integer part of a BVH node, with the range of triangles it covers.
///
/// A leaf has `left == right == 0` and references `primitive_count` triangles
/// starting at `first_primitive`; an internal node has `first_primitive ==
/// primitive_count == 0` and references its two children.
#[derive(Clone, Copy, Debug, PartialEq, Eq, Structural)]
pub struct BvhLayoutNode {
    pub left: u32,
    pub right: u32,
    pub first_primitive: u32,
    pub primitive_count: u32,
    /// First position of the node's range in the triangle index buffer.
    pub span_start: usize,
    /// Length of the node's range.
    pub span_len: usize,
}

/// The nodes built for the range of `count` triangles at `first`, when the first of
/// them is stored at position `base` of the node array.
pub open spec fn layout(first: int, count: int, base: int) -> Seq<BvhLayoutNode>
    decreases count,
{
    if count <= MAX_LEAF_SIZE {
        seq![
            BvhLayoutNode {
                left: 0,
                right: 0,
                first_primitive: first as u32,
                primitive_count: count as u32,
                span_start: first as usize,
                span_len: count as usize,
            },
        ]
    } else {
        let half = count / 2;
        let l = layout(first, half, base + 1);
        let r = layout(first + half, count - half, base + 1 + l.len());
        seq![
            BvhLayoutNode {
                left: (base + 1) as u32,
                right: (base + 1 + l.len()) as u32,
                first_primitive: 0,
                primitive_count: 0,
                span_start: first as usize,
                span_len: count as usize,
            },
        ] + l + r
    }
}

/// Number of nodes built for `count` triangles.
pub open spec fn node_count(count: int) -> int
    decreases count,
{
    if count <= MAX_LEAF_SIZE {
        1
    } else {
        1 + node_count(count / 2) + node_count(count - count / 2)
    }
}

/// Appends the nodes for the range of `count` triangles at `first`, depth first, and
/// returns the position of the range's root node.
fn build_node(nodes: &mut Vec<BvhLayoutNode>, first: usize, count: usize) -> (r: u32)
    requires
        first + count <= usize::MAX,
        old(nodes)@.len() + node_count(count as int) <= u32::MAX + 1,
    ensures
        r == old(nodes)@.len() as u32,
        final(nodes)@ == old(nodes)@ + layout(first as int, count as int, old(nodes)@.len() as int),
    decreases count,
{
    let node_index = nodes.len() as u32;
    let ghost base = nodes@.len() as int;
    let ghost before = nodes@;
    nodes.push(
        BvhLayoutNode {
            left: 0,
            right: 0,
            first_primitive: first as u32,
            primitive_count: count as u32,
            span_start: first,
            span_len: count,
        },
    );
    if count <= MAX_LEAF_SIZE {
        return node_index;
    }
    let half = count / 2;
    let mid = first + half;
    proof {
        lemma_layout_len(first as int, half as int, base + 1);
        lemma_layout_len(mid as int, (count - half) as int, base + 1 + node_count(half as int));
    }
    let ghost after_root = nodes@;
    let left = build_node(nodes, first, half);
    let ghost after_left = nodes@;
    let right = build_node(nodes, mid, first + count - mid);
    let ghost after_right = nodes@;
    let ghost l = layout(first as int, half as int, base + 1);
    let ghost rr = layout(mid as int, (first + count - mid) as int, base + 1 + l.len());
    assert(after_left.len() == base + 1 + l.len());
    nodes.set(
        node_index as usize,
        BvhLayoutNode {
            left,
            right,
            first_primitive: 0,
            primitive_count: 0,
            span_start: first,
            span_len: count,
        },
    );
    proof {
        assert(after_left == after_root + l);
        assert(after_right == after_left + rr);
        assert(left == (base + 1) as u32);
        assert(right == (base + 1 + l.len()) as u32);
        let root = BvhLayoutNode {
            left: (base + 1) as u32,
            right: (base + 1 + l.len()) as u32,
            first_primitive: 0,
            primitive_count: 0,
            span_start: first,
            span_len: count,
        };
        assert(layout(first as int, count as int, base) == seq![root] + l + rr);
        assert(nodes@ =~= after_right.update(base, root));
        assert(nodes@ =~= before + (seq![root] + l + rr));
    }
    node_index
}

/// The node layout of a BVH over `triangle_count` triangles, root first.
/// Triangle and node positions are 32-bit.
pub fn bvh_layout(triangle_count: usize) -> (nodes: Vec<BvhLayoutNode>)
    requires
        triangle_count <= u32::MAX,
    ensures
        nodes@ == layout(0, triangle_count as int, 0),
{
    proof {
        lemma_node_count_bound(triangle_count as int);
    }
    let mut nodes: Vec<BvhLayoutNode> = Vec::new();
    build_node(&mut nodes, 0, triangle_count);
    assert(nodes@ =~= layout(0, triangle_count as int, 0));
    nodes
}

/// The triangle index buffer before any partitioning: `0, 1, ..., n - 1`.
pub fn initial_indices(triangle_count: usize) -> (r: Vec<u32>)
    requires
        triangle_count <= u32::MAX,
    ensures
        r@.len() == triangle_count,
        forall|i: int| 0 <= i < triangle_count ==> #[trigger] r@[i] == i,
{
    let mut r: Vec<u32> = Vec::new();
    let n = triangle_count as u32;
    let mut i: u32 = 0;
    while i < n
        invariant
            n == triangle_count,
            i <= n,
            r@.len() == i,
            forall|j: int| 0 <= j < i ==> #[trigger] r@[j] == j,
        decreases n - i,
    {
        r.push(i);
        i = i + 1;
    }
    r
}

/// The triangles that node `n` references directly.
pub open spec fn leaf_range(n: BvhLayoutNode) -> Seq<int> {
    Seq::new(n.primitive_count as nat, |k: int| n.first_primitive + k)
}

/// The triangles that `nodes` reference directly, in node order.
pub open spec fn covered(nodes: Seq<BvhLayoutNode>) -> Seq<int>
    decreases nodes.len(),
{
    if nodes.len() == 0 {
        Seq::empty()
    } else {
        covered(nodes.drop_last()) + leaf_range(nodes.last())
    }
}

/// The range `first, first + 1, ..., first + count - 1`.
pub open spec fn range_seq(first: int, count: int) -> Seq<int> {
    Seq::new(count as nat, |k: int| first + k)
}

/// Every node of `nodes` (stored from position `base` on) is a leaf, or an internal
/// node whose children come after it, left before right, within the array.
pub open spec fn well_linked(nodes: Seq<BvhLayoutNode>, base: int) -> bool {
    forall|i: int|
        0 <= i < nodes.len() ==> {
            let n = #[trigger] nodes[i];
            (n.left == 0 && n.right == 0) || (base + i < n.left < n.right < base + nodes.len())
        }
}

proof fn lemma_covered_concat(a: Seq<BvhLayoutNode>, b: Seq<BvhLayoutNode>)
    ensures
        covered(a + b) == covered(a) + covered(b),
    decreases b.len(),
{
    if b.len() == 0 {
        assert(a + b =~= a);
        assert(covered(a) + covered(b) =~= covered(a));
    } else {
        lemma_covered_concat(a, b.drop_last());
        assert((a + b).drop_last() =~= a + b.drop_last());
        assert((a + b).last() == b.last());
        assert(covered(a + b) =~= covered(a) + covered(b));
    }
}

/// The layout of `count` triangles has `node_count(count)` nodes.
pub proof fn lemma_layout_len(first: int, count: int, base: int)
    ensures
        layout(first, count, base).len() == node_count(count),
        node_count(count) >= 1,
    decreases count,
{
    if count > MAX_LEAF_SIZE {
        lemma_layout_len(first, count / 2, base + 1);
        lemma_layout_len(first + count / 2, count - count / 2, base + 1 + node_count(count / 2));
    }
}

/// Every leaf below a split holds at least 64 triangles, so at most `count / 32 + 1`
/// nodes are built, and fewer than `count / 32` once there are 64 triangles.
pub proof fn lemma_node_count_bound(count: int)
    requires
        count >= 0,
    ensures
        32 * node_count(count) <= count + 32,
        count >= 64 ==> 32 * node_count(count) <= count - 32,
    decreases count,
{
    if count > MAX_LEAF_SIZE {
        lemma_node_count_bound(count / 2);
        lemma_node_count_bound(count - count / 2);
    }
}

/// Every triangle of the range belongs to exactly one leaf, and the leaves take the
/// triangles in order: the leaf ranges, one after the other, are the whole range.
pub proof fn lemma_leaves_cover_range(first: int, count: int, base: int)
    requires
        0 <= first,
        0 <= count,
        first + count <= u32::MAX,
    ensures
        covered(layout(first, count, base)) == range_seq(first, count),
    decreases count,
{
    if count <= MAX_LEAF_SIZE {
        let s = layout(first, count, base);
        assert(s.drop_last() =~= Seq::<BvhLayoutNode>::empty());
        assert(covered(Seq::<BvhLayoutNode>::empty()) == Seq::<int>::empty());
        assert(covered(s) == covered(s.drop_last()) + leaf_range(s.last()));
        assert(s.last().first_primitive == first);
        assert(s.last().primitive_count == count);
        assert(covered(s) =~= range_seq(first, count));
    } else {
        let half = count / 2;
        lemma_layout_len(first, half, base + 1);
        let l = layout(first, half, base + 1);
        let r = layout(first + half, count - half, base + 1 + l.len());
        lemma_leaves_cover_range(first, half, base + 1);
        lemma_leaves_cover_range(first + half, count - half, base + 1 + l.len());
        let root = layout(first, count, base)[0];
        let head = seq![root];
        assert(layout(first, count, base) == head + l + r);
        lemma_covered_concat(head + l, r);
        lemma_covered_concat(head, l);
        assert(head.drop_last() =~= Seq::<BvhLayoutNode>::empty());
        assert(covered(Seq::<BvhLayoutNode>::empty()) == Seq::<int>::empty());
        assert(covered(head) == covered(head.drop_last()) + leaf_range(head.last()));
        assert(head.last().primitive_count == 0);
        assert(covered(head) =~= Seq::<int>::empty());
        assert(covered(layout(first, count, base)) =~= range_seq(first, count));
    }
}

/// No leaf references more than [`MAX_LEAF_SIZE`] triangles.
pub proof fn lemma_leaf_size_bound(first: int, count: int, base: int)
    requires
        0 <= count,
    ensures
        forall|i: int|
            0 <= i < layout(first, count, base).len() ==> #[trigger] layout(
                first,
                count,
                base,
            )[i].primitive_count <= MAX_LEAF_SIZE,
    decreases count,
{
    if count > MAX_LEAF_SIZE {
        let half = count / 2;
        let l = layout(first, half, base + 1);
        let r = layout(first + half, count - half, base + 1 + l.len());
        lemma_leaf_size_bound(first, half, base + 1);
        lemma_leaf_size_bound(first + half, count - half, base + 1 + l.len());
        let s = layout(first, count, base);
        assert forall|i: int| 0 <= i < s.len() implies #[trigger] s[i].primitive_count
            <= MAX_LEAF_SIZE by {
            if i == 0 {
            } else if i < 1 + l.len() {
                assert(s[i] == l[i - 1]);
            } else {
                assert(s[i] == r[i - 1 - l.len()]);
            }
        }
    }
}

/// Children references stay inside the node array and point forward: every node is
/// a leaf or has its left child right after it and its right child after that.
pub proof fn lemma_layout_well_linked(first: int, count: int, base: int)
    requires
        0 <= base,
        0 <= count,
        base + node_count(count) <= u32::MAX + 1,
    ensures
        well_linked(layout(first, count, base), base),
    decreases count,
{
    lemma_layout_len(first, count, base);
    if count > MAX_LEAF_SIZE {
        let half = count / 2;
        lemma_layout_len(first, half, base + 1);
        let l = layout(first, half, base + 1);
        lemma_layout_len(first + half, count - half, base + 1 + l.len());
        let r = layout(first + half, count - half, base + 1 + l.len());
        lemma_layout_well_linked(first, half, base + 1);
        lemma_layout_well_linked(first + half, count - half, base + 1 + l.len());
        let s = layout(first, count, base);
        assert forall|i: int| 0 <= i < s.len() implies {
            let n = #[trigger] s[i];
            (n.left == 0 && n.right == 0) || (base + i < n.left < n.right < base + s.len())
        } by {
            if i == 0 {
            } else if i < 1 + l.len() {
                assert(s[i] == l[i - 1]);
            } else {
                assert(s[i] == r[i - 1 - l.len()]);
            }
        }
    }
}

} // verus!
