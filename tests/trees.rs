use genetic_programming::crossover::crossover;
use genetic_programming::generation::{generate, Method};
use genetic_programming::tree::Node;
use genetic_programming::vm::{BinaryOperation, Source, UnaryOperation};
use rand::rngs::StdRng;
use rand::SeedableRng;

fn leaf(v: u8) -> Node {
    Node::Val(Source::Constant(v))
}

fn leaf_depths(n: &Node, depth: usize, out: &mut Vec<usize>) {
    let k = n.num_children();
    if k == 0 {
        out.push(depth);
    }
    for i in 0..k {
        leaf_depths(n.child_ref(i), depth + 1, out);
    }
}

fn all_subtrees(n: &Node, out: &mut Vec<Node>) {
    out.push(n.clone());
    for i in 0..n.num_children() {
        all_subtrees(n.child_ref(i), out);
    }
}

#[test]
fn full_method_puts_every_leaf_at_max_depth() {
    for seed in 0..40u64 {
        let mut rng = StdRng::seed_from_u64(seed);
        for max_depth in 0..6usize {
            let tree = generate(Method::Full, max_depth, &mut rng);
            let mut depths = Vec::new();
            leaf_depths(&tree, 0, &mut depths);
            assert!(depths.iter().all(|&d| d == max_depth));
            assert_eq!(tree.get_max_depth(), max_depth);
        }
    }
}

#[test]
fn grow_method_keeps_leaves_within_max_depth() {
    for seed in 0..40u64 {
        let mut rng = StdRng::seed_from_u64(seed);
        for max_depth in 0..6usize {
            let tree = generate(Method::Grow, max_depth, &mut rng);
            let mut depths = Vec::new();
            leaf_depths(&tree, 0, &mut depths);
            assert!(depths.iter().all(|&d| d <= max_depth));
            assert!(tree.get_max_depth() <= max_depth);
        }
    }
}

#[test]
fn depth_zero_gives_a_useful_leaf() {
    let mut rng = StdRng::seed_from_u64(3);
    for method in [Method::Full, Method::Grow] {
        let tree = generate(method, 0, &mut rng);
        assert_eq!(tree.num_children(), 0);
        assert_ne!(tree, Node::Null);
    }
}

#[test]
fn full_trees_are_not_all_leaves() {
    let mut rng = StdRng::seed_from_u64(11);
    let tree = generate(Method::Full, 3, &mut rng);
    assert!(tree.num_children() > 0);
    assert_eq!(tree.get_max_depth(), 3);
}

#[test]
fn same_seed_grows_the_same_tree() {
    let a = generate(Method::Grow, 4, &mut StdRng::seed_from_u64(1234));
    let b = generate(Method::Grow, 4, &mut StdRng::seed_from_u64(1234));
    assert_eq!(a, b);
}

#[test]
fn max_depth_of_known_trees() {
    assert_eq!(leaf(1).get_max_depth(), 0);
    let t = Node::If(
        Box::new(leaf(1)),
        Box::new(Node::Print(Box::new(Node::Unary(UnaryOperation::Not, Box::new(leaf(2)))))),
        Box::new(leaf(3)),
    );
    assert_eq!(t.get_max_depth(), 3);
}

#[test]
fn descend_stops_at_leaves() {
    let t = Node::Unary(UnaryOperation::Negate, Box::new(leaf(9)));
    let mut rng = StdRng::seed_from_u64(5);
    assert_eq!(*t.randomly_descend(0, &mut rng), t);
    assert_eq!(*t.randomly_descend(1, &mut rng), leaf(9));
    assert_eq!(*t.randomly_descend(7, &mut rng), leaf(9));
}

#[test]
fn weighted_node_reaches_every_node_with_its_depth() {
    let t = Node::Binary(BinaryOperation::Add, Box::new(leaf(1)), Box::new(leaf(2)));
    let mut seen = [false; 3];
    for seed in 0..200u64 {
        let mut rng = StdRng::seed_from_u64(seed);
        let (node, depth) = t.get_weighted_node(&mut rng);
        if *node == t {
            assert_eq!(depth, 0);
            seen[0] = true;
        } else if *node == leaf(1) {
            assert_eq!(depth, 1);
            seen[1] = true;
        } else {
            assert_eq!(*node, leaf(2));
            assert_eq!(depth, 1);
            seen[2] = true;
        }
    }
    assert!(seen.iter().all(|&s| s));
}

#[test]
fn crossover_leaves_parents_unchanged() {
    let mut rng = StdRng::seed_from_u64(77);
    let a = generate(Method::Full, 3, &mut rng);
    let b = generate(Method::Grow, 3, &mut rng);
    let (a0, b0) = (a.clone(), b.clone());
    for _ in 0..20 {
        let child = crossover(&a, &b, &mut rng);
        assert!(child.get_max_depth() <= 6);
    }
    assert_eq!(a, a0);
    assert_eq!(b, b0);
}

#[test]
fn crossover_of_single_leaf_is_a_node_of_scion() {
    let stock = leaf(4);
    let scion = Node::Then(
        Box::new(Node::Store(7, Box::new(leaf(5)))),
        Box::new(Node::Print(Box::new(leaf(6)))),
    );
    let mut nodes = Vec::new();
    all_subtrees(&scion, &mut nodes);
    for seed in 0..100u64 {
        let mut rng = StdRng::seed_from_u64(seed);
        let child = crossover(&stock, &scion, &mut rng);
        assert!(nodes.contains(&child));
    }
}

#[test]
fn crossover_two_leaf_depth_scenario() {
    let (l1, l2, l3) = (leaf(1), leaf(2), leaf(3));
    let stock = Node::Binary(BinaryOperation::Add, Box::new(l1.clone()), Box::new(l2.clone()));
    let scion = Node::Unary(UnaryOperation::Not, Box::new(l3.clone()));
    let grafted_left = Node::Binary(BinaryOperation::Add, Box::new(l3.clone()), Box::new(l2.clone()));
    let grafted_right = Node::Binary(BinaryOperation::Add, Box::new(l1.clone()), Box::new(l3.clone()));
    let mut saw_left = false;
    for seed in 0..300u64 {
        let mut rng = StdRng::seed_from_u64(seed);
        let child = crossover(&stock, &scion, &mut rng);
        // picking Leaf1 at depth 1 descends one step into scion, reaching Leaf3
        assert!(child == grafted_left || child == grafted_right || child == scion || child == l3);
        saw_left |= child == grafted_left;
    }
    assert!(saw_left);
}
