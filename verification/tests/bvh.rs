use render_baby::bvh::{bvh_layout, initial_indices, BvhLayoutNode, MAX_LEAF_SIZE};

fn leaves_cover(nodes: &[BvhLayoutNode], n: usize) -> bool {
    let mut next = 0u32;
    for node in nodes {
        if node.left == 0 && node.right == 0 {
            if node.first_primitive != next {
                return false;
            }
            next += node.primitive_count;
        }
    }
    next as usize == n
}

#[test]
fn small_input_is_one_leaf() {
    let nodes = bvh_layout(5);
    assert_eq!(
        nodes,
        vec![BvhLayoutNode { left: 0, right: 0, first_primitive: 0, primitive_count: 5, span_start: 0, span_len: 5 }]
    );
    assert_eq!(bvh_layout(0).len(), 1);
}

#[test]
fn split_in_the_middle() {
    let nodes = bvh_layout(300);
    // root, left half (150 -> 75 + 75), right half (150 -> 75 + 75)
    assert_eq!(nodes.len(), 7);
    assert_eq!((nodes[0].left, nodes[0].right), (1, 4));
    assert_eq!((nodes[1].left, nodes[1].right), (2, 3));
    assert_eq!((nodes[2].first_primitive, nodes[2].primitive_count), (0, 75));
    assert_eq!((nodes[3].first_primitive, nodes[3].primitive_count), (75, 75));
    assert_eq!((nodes[4].span_start, nodes[4].span_len), (150, 150));
    assert_eq!((nodes[6].first_primitive, nodes[6].primitive_count), (225, 75));
}

#[test]
fn leaves_cover_all_triangles_in_order() {
    for n in [0usize, 1, 128, 129, 257, 1000, 4097] {
        let nodes = bvh_layout(n);
        assert!(leaves_cover(&nodes, n));
        for (i, node) in nodes.iter().enumerate() {
            assert!(node.primitive_count as usize <= MAX_LEAF_SIZE);
            if node.left != 0 {
                assert!(i < node.left as usize && node.left < node.right && (node.right as usize) < nodes.len());
            }
        }
    }
}

#[test]
fn initial_indices_are_identity() {
    assert_eq!(initial_indices(4), vec![0, 1, 2, 3]);
    assert!(initial_indices(0).is_empty());
}

#[test]
fn node_count_stays_below_a_thirty_second_of_the_triangles() {
    for n in [64usize, 129, 1000, 100_000] {
        let nodes = bvh_layout(n);
        assert!(32 * nodes.len() <= n - 32);
    }
    assert_eq!(bvh_layout(257).len(), 5);
}
