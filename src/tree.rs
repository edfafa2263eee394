//! Program trees and their structural queries.
//!
//! A position inside a tree is a path: the sequence of child indices taken
//! from the root. The root is the empty path, and a node's depth is the
//! length of its path.
use crate::random::rand_below;
use crate::vm::{BinaryOperation, Reg, Source, TurtleOperation, UnaryOperation};
use rand::rngs::StdRng;
use vstd::prelude::*;

verus! {

/// One program fragment; every non-leaf node owns its children.
#[derive(Debug, PartialEq, Eq)]
pub enum Node {
    Null,
    Val(Source),
    Unary(UnaryOperation, Box<Node>),
    Binary(BinaryOperation, Box<Node>, Box<Node>),
    Then(Box<Node>, Box<Node>),
    Print(Box<Node>),
    Store(Reg, Box<Node>),
    /// condition, if_not_zero, if_zero
    If(Box<Node>, Box<Node>, Box<Node>),
    /// condition, block; repeat block until condition equals zero
    While(Box<Node>, Box<Node>),
    /// count, block; repeat block count times
    Repeat(Box<Node>, Box<Node>),
    Compare(Box<Node>, Box<Node>),
    Turtle(TurtleOperation),
}

/// The number of children of a node.
pub open spec fn arity(n: Node) -> nat {
    match n {
        Node::Null | Node::Val(_) | Node::Turtle(_) => 0,
        Node::Unary(..) | Node::Print(_) | Node::Store(..) => 1,
        Node::If(..) => 3,
        _ => 2,
    }
}

pub open spec fn is_leaf(n: Node) -> bool {
    arity(n) == 0
}

/// The `k`-th child of a node, for `k < arity(n)`.
pub open spec fn child(n: Node, k: int) -> Node {
    match n {
        Node::Unary(_, a) | Node::Print(a) | Node::Store(_, a) => *a,
        Node::Binary(_, a, b) | Node::Then(a, b) | Node::While(a, b) | Node::Repeat(a, b)
        | Node::Compare(a, b) => if k == 0 { *a } else { *b },
        Node::If(a, b, c) => if k == 0 { *a } else if k == 1 { *b } else { *c },
        _ => n,
    }
}

/// The length of the longest path from the root to a leaf.
pub open spec fn height(n: Node) -> nat
    decreases n,
{
    match n {
        Node::Unary(_, a) | Node::Print(a) | Node::Store(_, a) => 1 + height(*a),
        Node::Binary(_, a, b) | Node::Then(a, b) | Node::While(a, b) | Node::Repeat(a, b)
        | Node::Compare(a, b) => 1 + vstd::math::max(height(*a) as int, height(*b) as int) as nat,
        Node::If(a, b, c) => 1 + vstd::math::max(
            height(*a) as int,
            vstd::math::max(height(*b) as int, height(*c) as int),
        ) as nat,
        _ => 0,
    }
}


/// `n` with its `k`-th child replaced by `x`.
pub open spec fn set_child(n: Node, k: int, x: Node) -> Node {
    match n {
        Node::Unary(op, _) => Node::Unary(op, Box::new(x)),
        Node::Print(_) => Node::Print(Box::new(x)),
        Node::Store(r, _) => Node::Store(r, Box::new(x)),
        Node::Binary(op, a, b) => if k == 0 {
            Node::Binary(op, Box::new(x), b)
        } else {
            Node::Binary(op, a, Box::new(x))
        },
        Node::Then(a, b) => if k == 0 {
            Node::Then(Box::new(x), b)
        } else {
            Node::Then(a, Box::new(x))
        },
        Node::While(a, b) => if k == 0 {
            Node::While(Box::new(x), b)
        } else {
            Node::While(a, Box::new(x))
        },
        Node::Repeat(a, b) => if k == 0 {
            Node::Repeat(Box::new(x), b)
        } else {
            Node::Repeat(a, Box::new(x))
        },
        Node::Compare(a, b) => if k == 0 {
            Node::Compare(Box::new(x), b)
        } else {
            Node::Compare(a, Box::new(x))
        },
        Node::If(a, b, c) => if k == 0 {
            Node::If(Box::new(x), b, c)
        } else if k == 1 {
            Node::If(a, Box::new(x), c)
        } else {
            Node::If(a, b, Box::new(x))
        },
        _ => n,
    }
}

/// Whether `p` leads from the root of `n` to a node of `n`.
pub open spec fn valid_path(n: Node, p: Seq<usize>) -> bool
    decreases p.len(),
{
    p.len() == 0 || (p[0] < arity(n) && valid_path(child(n, p[0] as int), p.drop_first()))
}

/// The subtree of `n` at the end of path `p`.
pub open spec fn subtree(n: Node, p: Seq<usize>) -> Node
    decreases p.len(),
{
    if p.len() == 0 {
        n
    } else {
        subtree(child(n, p[0] as int), p.drop_first())
    }
}

/// `n` with the subtree at path `p` replaced by `x`.
pub open spec fn replace_at(n: Node, p: Seq<usize>, x: Node) -> Node
    decreases p.len(),
{
    if p.len() == 0 {
        x
    } else {
        set_child(n, p[0] as int, replace_at(child(n, p[0] as int), p.drop_first(), x))
    }
}

/// `p` is where a random descent of at most `steps` steps from the root of `n`
/// may end: it stops early only at a leaf.
pub open spec fn is_descent(n: Node, p: Seq<usize>, steps: nat) -> bool {
    &&& valid_path(n, p)
    &&& p.len() <= steps
    &&& p.len() < steps ==> is_leaf(subtree(n, p))
}

/// Every leaf of `n` lies at depth exactly `d`.
pub open spec fn full(n: Node, d: nat) -> bool
    decreases d,
{
    if d == 0 {
        is_leaf(n)
    } else {
        let e = (d - 1) as nat;
        match n {
            Node::Unary(_, a) | Node::Print(a) | Node::Store(_, a) => full(*a, e),
            Node::Binary(_, a, b) | Node::Then(a, b) | Node::While(a, b) | Node::Repeat(a, b)
            | Node::Compare(a, b) => full(*a, e) && full(*b, e),
            Node::If(a, b, c) => full(*a, e) && full(*b, e) && full(*c, e),
            _ => false,
        }
    }
}

/// Every leaf of `n` lies at depth at most `d`.
pub open spec fn within(n: Node, d: nat) -> bool
    decreases d,
{
    if is_leaf(n) {
        true
    } else if d == 0 {
        false
    } else {
        let e = (d - 1) as nat;
        match n {
            Node::Unary(_, a) | Node::Print(a) | Node::Store(_, a) => within(*a, e),
            Node::Binary(_, a, b) | Node::Then(a, b) | Node::While(a, b) | Node::Repeat(a, b)
            | Node::Compare(a, b) => within(*a, e) && within(*b, e),
            Node::If(a, b, c) => within(*a, e) && within(*b, e) && within(*c, e),
            _ => true,
        }
    }
}

pub proof fn lemma_child_height(n: Node, k: int)
    requires
        0 <= k < arity(n),
    ensures
        height(child(n, k)) < height(n),
{
}

/// Extending a path by one step moves to a child of the node it reached.
pub proof fn lemma_path_push(n: Node, p: Seq<usize>, k: usize)
    requires
        valid_path(n, p),
    ensures
        valid_path(n, p.push(k)) == (k < arity(subtree(n, p))),
        subtree(n, p.push(k)) == child(subtree(n, p), k as int),
    decreases p.len(),
{
    let c = child(n, p.push(k)[0] as int);
    if p.len() > 0 {
        assert(p.push(k).drop_first() =~= p.drop_first().push(k));
        lemma_path_push(c, p.drop_first(), k);
    } else {
        assert(p.push(k).drop_first() =~= Seq::<usize>::empty());
        assert(valid_path(c, Seq::<usize>::empty()));
        assert(subtree(c, Seq::<usize>::empty()) == c);
    }
}

/// Following `p` and then `q` is following their concatenation.
pub proof fn lemma_path_concat(n: Node, p: Seq<usize>, q: Seq<usize>)
    requires
        valid_path(n, p),
    ensures
        valid_path(n, p + q) == valid_path(subtree(n, p), q),
        subtree(n, p + q) == subtree(subtree(n, p), q),
    decreases p.len(),
{
    if p.len() > 0 {
        assert((p + q).drop_first() =~= p.drop_first() + q);
        lemma_path_concat(child(n, p[0] as int), p.drop_first(), q);
    } else {
        assert(p + q =~= q);
    }
}

/// In a tree whose leaves all lie at depth `d`, a path to a leaf has length `d`.
pub proof fn lemma_full_leaf_depth(n: Node, d: nat, p: Seq<usize>)
    requires
        full(n, d),
        valid_path(n, p),
        is_leaf(subtree(n, p)),
    ensures
        p.len() == d,
    decreases p.len(),
{
    if p.len() > 0 {
        assert(p[0] < arity(n));
        assert(d > 0);
        assert(full(child(n, p[0] as int), (d - 1) as nat));
        lemma_full_leaf_depth(child(n, p[0] as int), (d - 1) as nat, p.drop_first());
    }
}

/// In a tree whose leaves all lie at depth at most `d`, every node lies at
/// depth at most `d`.
pub proof fn lemma_within_node_depth(n: Node, d: nat, p: Seq<usize>)
    requires
        within(n, d),
        valid_path(n, p),
    ensures
        p.len() <= d,
    decreases p.len(),
{
    if p.len() > 0 {
        assert(p[0] < arity(n));
        assert(d > 0);
        assert(within(child(n, p[0] as int), (d - 1) as nat));
        lemma_within_node_depth(child(n, p[0] as int), (d - 1) as nat, p.drop_first());
    }
}

impl Node {
    /// The depth of the deepest leaf; a single leaf has depth 0.
    pub fn get_max_depth(&self) -> (r: usize)
        requires
            height(*self) <= usize::MAX,
        ensures
            r == height(*self),
        decreases self,
    {
        match self {
            Node::Unary(_, a) | Node::Print(a) | Node::Store(_, a) => 1 + a.get_max_depth(),
            Node::Binary(_, a, b) | Node::Then(a, b) | Node::While(a, b) | Node::Repeat(a, b)
            | Node::Compare(a, b) => {
                let x = a.get_max_depth();
                let y = b.get_max_depth();
                1 + if x >= y { x } else { y }
            },
            Node::If(a, b, c) => {
                let x = a.get_max_depth();
                let y = b.get_max_depth();
                let z = c.get_max_depth();
                let m = if x >= y { x } else { y };
                1 + if m >= z { m } else { z }
            },
            _ => 0,
        }
    }

    /// The number of children of this node.
    pub fn num_children(&self) -> (r: usize)
        ensures
            r == arity(*self),
    {
        match self {
            Node::Null | Node::Val(_) | Node::Turtle(_) => 0,
            Node::Unary(..) | Node::Print(_) | Node::Store(..) => 1,
            Node::If(..) => 3,
            _ => 2,
        }
    }

    /// The `k`-th child of this node.
    pub fn child_ref(&self, k: usize) -> (r: &Node)
        requires
            k < arity(*self),
        ensures
            *r == child(*self, k as int),
    {
        match self {
            Node::Unary(_, a) | Node::Print(a) | Node::Store(_, a) => &**a,
            Node::Binary(_, a, b) | Node::Then(a, b) | Node::While(a, b) | Node::Repeat(a, b)
            | Node::Compare(a, b) => if k == 0 {
                &**a
            } else {
                &**b
            },
            Node::If(a, b, c) => if k == 0 {
                &**a
            } else if k == 1 {
                &**b
            } else {
                &**c
            },
            _ => self,
        }
    }

    /// A copy of this node whose `k`-th child is `x`.
    pub fn with_child(&self, k: usize, x: Node) -> (r: Node)
        requires
            k < arity(*self),
        ensures
            r == set_child(*self, k as int, x),
    {
        let x = Box::new(x);
        match self {
            Node::Unary(op, _) => Node::Unary(*op, x),
            Node::Print(_) => Node::Print(x),
            Node::Store(reg, _) => Node::Store(*reg, x),
            Node::Binary(op, a, b) => if k == 0 {
                Node::Binary(*op, x, b.clone())
            } else {
                Node::Binary(*op, a.clone(), x)
            },
            Node::Then(a, b) => if k == 0 {
                Node::Then(x, b.clone())
            } else {
                Node::Then(a.clone(), x)
            },
            Node::While(a, b) => if k == 0 {
                Node::While(x, b.clone())
            } else {
                Node::While(a.clone(), x)
            },
            Node::Repeat(a, b) => if k == 0 {
                Node::Repeat(x, b.clone())
            } else {
                Node::Repeat(a.clone(), x)
            },
            Node::Compare(a, b) => if k == 0 {
                Node::Compare(x, b.clone())
            } else {
                Node::Compare(a.clone(), x)
            },
            Node::If(a, b, c) => if k == 0 {
                Node::If(x, b.clone(), c.clone())
            } else if k == 1 {
                Node::If(a.clone(), x, c.clone())
            } else {
                Node::If(a.clone(), b.clone(), x)
            },
            _ => self.clone(),
        }
    }

    /// The subtree at the end of path `p`.
    pub fn at_path(&self, p: &Vec<usize>) -> (r: &Node)
        requires
            valid_path(*self, p@),
        ensures
            *r == subtree(*self, p@),
    {
        let mut cur: &Node = self;
        let mut i: usize = 0;
        while i < p.len()
            invariant
                i <= p@.len(),
                valid_path(*self, p@.take(i as int)),
                *cur == subtree(*self, p@.take(i as int)),
                valid_path(*self, p@),
            decreases p@.len() - i,
        {
            proof {
                assert(p@.take(i as int + 1) =~= p@.take(i as int).push(p@[i as int]));
                assert(p@ =~= p@.take(i as int) + p@.skip(i as int));
                lemma_path_concat(*self, p@.take(i as int), p@.skip(i as int));
                lemma_path_push(*self, p@.take(i as int), p@[i as int]);
            }
            cur = cur.child_ref(p[i]);
            i = i + 1;
        }
        assert(p@.take(i as int) =~= p@);
        cur
    }

    /// A copy of this tree in which the subtree at path `p[i..]` is `x`.
    pub fn replaced(&self, p: &Vec<usize>, i: usize, x: Node) -> (r: Node)
        requires
            i <= p@.len(),
            valid_path(*self, p@.skip(i as int)),
        ensures
            r == replace_at(*self, p@.skip(i as int), x),
        decreases p@.len() - i,
    {
        if i == p.len() {
            x
        } else {
            let k = p[i];
            assert(p@.skip(i as int).drop_first() =~= p@.skip(i as int + 1));
            let sub = self.child_ref(k).replaced(p, i + 1, x);
            self.with_child(k, sub)
        }
    }

    /// A random walk from the root: at each node, stop there or move into one
    /// of its children, all choices equally likely. Every node of the tree can
    /// be reached.
    pub fn weighted_path(&self, rng: &mut StdRng) -> (p: Vec<usize>)
        ensures
            valid_path(*self, p@),
    {
        let mut cur: &Node = self;
        let mut p: Vec<usize> = Vec::new();
        loop
            invariant
                valid_path(*self, p@),
                *cur == subtree(*self, p@),
            decreases height(*cur),
        {
            let k = cur.num_children();
            if k == 0 {
                break;
            }
            let c = rand_below(rng, k + 1);
            if c == k {
                break;
            }
            proof {
                lemma_path_push(*self, p@, c);
                lemma_child_height(*cur, c as int);
            }
            p.push(c);
            cur = cur.child_ref(c);
        }
        p
    }

    /// A random descent of at most `steps` steps from the root, into a child
    /// chosen at random each time, that stops early only at a leaf.
    pub fn descend_path(&self, steps: usize, rng: &mut StdRng) -> (p: Vec<usize>)
        ensures
            is_descent(*self, p@, steps as nat),
    {
        let mut cur: &Node = self;
        let mut p: Vec<usize> = Vec::new();
        while p.len() < steps
            invariant
                p@.len() <= steps,
                valid_path(*self, p@),
                *cur == subtree(*self, p@),
            ensures
                p@.len() <= steps,
                valid_path(*self, p@),
                p@.len() < steps ==> is_leaf(subtree(*self, p@)),
            decreases steps - p@.len(),
        {
            let k = cur.num_children();
            if k == 0 {
                break;
            }
            let c = rand_below(rng, k);
            proof {
                lemma_path_push(*self, p@, c);
            }
            p.push(c);
            cur = cur.child_ref(c);
        }
        p
    }

    /// A node chosen at random anywhere in the tree, the root included,
    /// together with its depth.
    pub fn get_weighted_node(&self, rng: &mut StdRng) -> (r: (&Node, usize))
        ensures
            exists|p: Seq<usize>|
                valid_path(*self, p) && p.len() == r.1 && subtree(*self, p) == *r.0,
    {
        let p = self.weighted_path(rng);
        (self.at_path(&p), p.len())
    }

    /// The subtree reached by descending at random at most `n` steps from the
    /// root; the descent stops early only at a leaf.
    pub fn randomly_descend(&self, n: usize, rng: &mut StdRng) -> (r: &Node)
        ensures
            exists|p: Seq<usize>| is_descent(*self, p, n as nat) && subtree(*self, p) == *r,
    {
        let p = self.descend_path(n, rng);
        self.at_path(&p)
    }
}

impl Clone for Node {
    /// A deep copy: no node of the result is shared with `self`.
    fn clone(&self) -> (r: Self)
        ensures
            r == *self,
        decreases self,
    {
        match self {
            Node::Null => Node::Null,
            Node::Val(s) => Node::Val(*s),
            Node::Unary(op, a) => Node::Unary(*op, Box::new((**a).clone())),
            Node::Binary(op, a, b) => Node::Binary(*op, Box::new((**a).clone()), Box::new((**b).clone())),
            Node::Then(a, b) => Node::Then(Box::new((**a).clone()), Box::new((**b).clone())),
            Node::Print(a) => Node::Print(Box::new((**a).clone())),
            Node::Store(r, a) => Node::Store(*r, Box::new((**a).clone())),
            Node::If(a, b, c) => Node::If(
                Box::new((**a).clone()),
                Box::new((**b).clone()),
                Box::new((**c).clone()),
            ),
            Node::While(a, b) => Node::While(Box::new((**a).clone()), Box::new((**b).clone())),
            Node::Repeat(a, b) => Node::Repeat(Box::new((**a).clone()), Box::new((**b).clone())),
            Node::Compare(a, b) => Node::Compare(Box::new((**a).clone()), Box::new((**b).clone())),
            Node::Turtle(t) => Node::Turtle(*t),
        }
    }
}

} // verus!
