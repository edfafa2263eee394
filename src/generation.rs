//! Random tree generation and the birth of generations.
use crate::crossover::is_crossover_of;
use crate::definitions::{
    Generation, Individual, Parents, INDIVIDUALS_PER_METHOD_AND_DEPTH, MAX_GEN_DEPTH,
    MIN_GEN_DEPTH, POPULATION_SIZE, P_GROW_LEAF_DENOMINATOR, P_GROW_LEAF_NUMERATOR,
};
use crate::random::{rand_below, rand_ratio};
use crate::tree::{full, is_leaf, within, Node};
use crate::vm::{BinaryOperation, Source, TurtleOperation, UnaryOperation, STACK_START};
use rand::rngs::StdRng;
use vstd::arithmetic::div_mod::lemma_fundamental_div_mod_converse;
use vstd::prelude::*;

verus! {

/// How a random tree grows.
#[derive(Clone, Copy, Debug, PartialEq, Eq)]
pub enum Method {
    /// Every branch reaches the maximal depth.
    Full,
    /// A branch may end in a leaf at any depth up to the maximal one.
    Grow,
}

/// The depth bound that `method` guarantees for a tree grown to depth `d`.
pub open spec fn grown(method: Method, n: Node, d: nat) -> bool {
    match method {
        Method::Full => full(n, d),
        Method::Grow => within(n, d),
    }
}

/// The maximal depth of the tree at position `i` of a freshly seeded
/// generation.
pub open spec fn seed_depth(i: int) -> nat {
    (MIN_GEN_DEPTH + i / (2 * INDIVIDUALS_PER_METHOD_AND_DEPTH as int)) as nat
}

/// The method that grew the tree at position `i` of a freshly seeded
/// generation: the two methods alternate, Grow first.
pub open spec fn seed_method(i: int) -> Method {
    if i % 2 == 0 {
        Method::Grow
    } else {
        Method::Full
    }
}

fn random_unary(rng: &mut StdRng) -> UnaryOperation {
    match rand_below(rng, 4) {
        0 => UnaryOperation::Not,
        1 => UnaryOperation::Negate,
        2 => UnaryOperation::Increment,
        _ => UnaryOperation::Decrement,
    }
}

fn random_binary(rng: &mut StdRng) -> BinaryOperation {
    match rand_below(rng, 7) {
        0 => BinaryOperation::Add,
        1 => BinaryOperation::Subtract,
        2 => BinaryOperation::Multiply,
        3 => BinaryOperation::Divide,
        4 => BinaryOperation::Modulo,
        5 => BinaryOperation::And,
        _ => BinaryOperation::Or,
    }
}

fn random_turtle(rng: &mut StdRng) -> TurtleOperation {
    match rand_below(rng, 7) {
        0 => TurtleOperation::Forward,
        1 => TurtleOperation::Back,
        2 => TurtleOperation::Left,
        3 => TurtleOperation::Right,
        4 => TurtleOperation::Up,
        5 => TurtleOperation::Down,
        _ => TurtleOperation::Place,
    }
}

/// A random terminal that does something: a value read or a movement.
pub fn random_useful_leaf(rng: &mut StdRng) -> (r: Node)
    ensures
        is_leaf(r),
        !(r is Null),
{
    match rand_below(rng, 3) {
        0 => Node::Val(Source::Constant(rand_below(rng, 256) as u8)),
        1 => Node::Val(Source::Register(rand_below(rng, STACK_START as usize) as u8)),
        _ => Node::Turtle(random_turtle(rng)),
    }
}

/// A random tree, grown by `method`, whose leaves lie at depth at most
/// `max_depth` (exactly `max_depth` under the Full method).
pub fn generate(method: Method, max_depth: usize, rng: &mut StdRng) -> (r: Node)
    ensures
        grown(method, r, max_depth as nat),
        method == Method::Full ==> full(r, max_depth as nat),
        method == Method::Grow ==> within(r, max_depth as nat),
{
    recurse(method, max_depth, 0, rng)
}

fn recurse(method: Method, max_depth: usize, current_depth: usize, rng: &mut StdRng) -> (r: Node)
    requires
        current_depth <= max_depth,
    ensures
        grown(method, r, (max_depth - current_depth) as nat),
    decreases max_depth - current_depth, 1nat,
{
    let leaf_now = current_depth == max_depth || match method {
        Method::Grow => rand_ratio(rng, P_GROW_LEAF_NUMERATOR, P_GROW_LEAF_DENOMINATOR),
        Method::Full => false,
    };
    if leaf_now {
        random_useful_leaf(rng)
    } else {
        random_function(method, max_depth, current_depth, rng)
    }
}

fn random_function(method: Method, max_depth: usize, current_depth: usize, rng: &mut StdRng) -> (r: Node)
    requires
        current_depth < max_depth,
    ensures
        grown(method, r, (max_depth - current_depth) as nat),
    decreases max_depth - current_depth, 0nat,
{
    let d = current_depth + 1;
    match rand_below(rng, 8) {
        0 => {
            let op = random_unary(rng);
            Node::Unary(op, Box::new(recurse(method, max_depth, d, rng)))
        },
        1 => {
            let op = random_binary(rng);
            let a = recurse(method, max_depth, d, rng);
            let b = recurse(method, max_depth, d, rng);
            Node::Binary(op, Box::new(a), Box::new(b))
        },
        2 => {
            let a = recurse(method, max_depth, d, rng);
            let b = recurse(method, max_depth, d, rng);
            Node::Compare(Box::new(a), Box::new(b))
        },
        3 => {
            let reg = rand_below(rng, 256) as u8;
            Node::Store(reg, Box::new(recurse(method, max_depth, d, rng)))
        },
        4 => {
            let a = recurse(method, max_depth, d, rng);
            let b = recurse(method, max_depth, d, rng);
            let c = recurse(method, max_depth, d, rng);
            Node::If(Box::new(a), Box::new(b), Box::new(c))
        },
        5 => {
            let a = recurse(method, max_depth, d, rng);
            let b = recurse(method, max_depth, d, rng);
            Node::While(Box::new(a), Box::new(b))
        },
        6 => {
            let a = recurse(method, max_depth, d, rng);
            let b = recurse(method, max_depth, d, rng);
            Node::Then(Box::new(a), Box::new(b))
        },
        _ => {
            let a = recurse(method, max_depth, d, rng);
            let b = recurse(method, max_depth, d, rng);
            Node::Repeat(Box::new(a), Box::new(b))
        },
    }
}

/// `r` is a next generation of `g`: a copy of each kept individual, in order,
/// then one crossover offspring for each pair of parents, in order, with
/// nothing evaluated.
pub open spec fn rebuilt_from(g: Generation, kept: Seq<usize>, pairs: Seq<Parents>, r: Generation) -> bool {
    &&& r.population@.len() == kept.len() + pairs.len()
    &&& forall|i: int|
        0 <= i < kept.len() ==> (#[trigger] r.population@[i]).result.is_none()
            && r.population@[i].tree == g.population@[kept[i] as int].tree
    &&& forall|j: int|
        0 <= j < pairs.len() ==> (#[trigger] r.population@[kept.len() + j]).result.is_none()
            && is_crossover_of(
            g.population@[pairs[j].stock as int].tree,
            g.population@[pairs[j].scion as int].tree,
            r.population@[kept.len() + j].tree,
        )
    &&& r.best_index.is_none()
    &&& r.worst_index.is_none()
}

impl Generation {
    /// Seeds a generation by ramped half-and-half: for every maximal depth
    /// from `MIN_GEN_DEPTH` to `MAX_GEN_DEPTH`, `INDIVIDUALS_PER_METHOD_AND_DEPTH`
    /// trees grown by each method, alternating Grow and Full. Nothing is
    /// evaluated yet.
    pub fn random(rng: &mut StdRng) -> (r: Generation)
        ensures
            r.population@.len() == (MAX_GEN_DEPTH - MIN_GEN_DEPTH + 1)
                * INDIVIDUALS_PER_METHOD_AND_DEPTH * 2,
            r.population@.len() == POPULATION_SIZE,
            forall|i: int|
                0 <= i < r.population@.len() ==> (#[trigger] r.population@[i]).result.is_none()
                    && grown(seed_method(i), r.population@[i].tree, seed_depth(i)),
            r.best_index.is_none(),
            r.worst_index.is_none(),
    {
        let mut population: Vec<Individual> = Vec::new();
        let mut depth: usize = MIN_GEN_DEPTH;
        while depth <= MAX_GEN_DEPTH
            invariant
                MIN_GEN_DEPTH <= depth <= MAX_GEN_DEPTH + 1,
                population@.len() == (depth - MIN_GEN_DEPTH) * 2 * INDIVIDUALS_PER_METHOD_AND_DEPTH,
                forall|i: int|
                    0 <= i < population@.len() ==> (#[trigger] population@[i]).result.is_none()
                        && grown(seed_method(i), population@[i].tree, seed_depth(i)),
            decreases MAX_GEN_DEPTH + 1 - depth,
        {
            let mut j: usize = 0;
            while j < INDIVIDUALS_PER_METHOD_AND_DEPTH
                invariant
                    MIN_GEN_DEPTH <= depth <= MAX_GEN_DEPTH,
                    j <= INDIVIDUALS_PER_METHOD_AND_DEPTH,
                    population@.len() == (depth - MIN_GEN_DEPTH) * 2
                        * INDIVIDUALS_PER_METHOD_AND_DEPTH + 2 * j,
                    forall|i: int|
                        0 <= i < population@.len() ==> (#[trigger] population@[i]).result.is_none()
                            && grown(seed_method(i), population@[i].tree, seed_depth(i)),
                decreases INDIVIDUALS_PER_METHOD_AND_DEPTH - j,
            {
                let n = population.len();
                proof {
                    let w = 2 * INDIVIDUALS_PER_METHOD_AND_DEPTH as int;
                    let q = depth - MIN_GEN_DEPTH;
                    assert(q * w == q * 2 * INDIVIDUALS_PER_METHOD_AND_DEPTH) by (nonlinear_arith)
                        requires
                            w == 2 * INDIVIDUALS_PER_METHOD_AND_DEPTH,
                    ;
                    lemma_fundamental_div_mod_converse(n as int, w, q, 2 * j);
                    lemma_fundamental_div_mod_converse(n as int + 1, w, q, 2 * j + 1);
                    lemma_fundamental_div_mod_converse(n as int, 2, q * INDIVIDUALS_PER_METHOD_AND_DEPTH + j, 0);
                    lemma_fundamental_div_mod_converse(n as int + 1, 2, q * INDIVIDUALS_PER_METHOD_AND_DEPTH + j, 1);
                }
                assert(seed_depth(n as int) == depth && seed_depth(n as int + 1) == depth);
                assert(seed_method(n as int) == Method::Grow && seed_method(n as int + 1)
                    == Method::Full);
                let grow = generate(Method::Grow, depth, rng);
                population.push(Individual { tree: grow, result: None });
                let full = generate(Method::Full, depth, rng);
                population.push(Individual { tree: full, result: None });
                j = j + 1;
            }
            depth = depth + 1;
        }
        Generation { population, best_index: None, worst_index: None }
    }

    /// The next generation: a copy of each kept individual, in order, then one
    /// crossover offspring for each pair of parents, in order. Nothing is
    /// evaluated yet; `generation` is left as it was.
    pub fn from_old(
        generation: &Generation,
        kept_indices: &Vec<usize>,
        parent_pairs: &Vec<Parents>,
        rng: &mut StdRng,
    ) -> (r: Generation)
        requires
            generation.indices_in_bounds(kept_indices@),
            generation.pairs_in_bounds(parent_pairs@),
        ensures
            rebuilt_from(*generation, kept_indices@, parent_pairs@, r),
            r.population@.len() == kept_indices@.len() + parent_pairs@.len(),
    {
        let mut population: Vec<Individual> = Vec::new();
        let mut i: usize = 0;
        while i < kept_indices.len()
            invariant
                i <= kept_indices@.len(),
                generation.indices_in_bounds(kept_indices@),
                population@.len() == i,
                forall|k: int|
                    0 <= k < i ==> (#[trigger] population@[k]).result.is_none()
                        && population@[k].tree
                        == generation.population@[kept_indices@[k] as int].tree,
            decreases kept_indices@.len() - i,
        {
            let idx = kept_indices[i];
            let tree = generation.population[idx].tree.clone();
            population.push(Individual { tree, result: None });
            i = i + 1;
        }
        let mut offspring = generation.crossover(parent_pairs, rng);
        let ghost kept = population@;
        let ghost born = offspring@;
        population.append(&mut offspring);
        assert(population@ =~= kept + born);
        Generation { population, best_index: None, worst_index: None }
    }
}

} // verus!
