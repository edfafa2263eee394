//! Subtree crossover: one offspring from two parent trees.
use crate::definitions::{Generation, Individual, Parents};
use crate::tree::{is_descent, is_leaf, replace_at, subtree, valid_path, Node};
use rand::rngs::StdRng;
use vstd::prelude::*;

verus! {

/// `r` is a possible offspring of `stock` and `scion`: the node of `stock` at
/// some path `p` is replaced by a copy of a node of `scion`, found by a
/// descent of at most `p.len()` steps from `scion`'s root (stopping early only
/// at a leaf) followed by a further path `e`.
pub open spec fn is_crossover_of(stock: Node, scion: Node, r: Node) -> bool {
    exists|p: Seq<usize>, q: Seq<usize>, e: Seq<usize>|
        #![trigger replace_at(stock, p, subtree(subtree(scion, q), e))]
        valid_path(stock, p) && is_descent(scion, q, p.len()) && valid_path(subtree(scion, q), e)
            && r == replace_at(stock, p, subtree(subtree(scion, q), e))
}

/// Breeds one offspring: a node chosen at random in `stock`, at depth `d`, is
/// replaced by a copy of a node chosen at random below a random descent of
/// `d` steps into `scion`. Neither parent is changed.
pub fn crossover(stock: &Node, scion: &Node, rng: &mut StdRng) -> (r: Node)
    ensures
        is_crossover_of(*stock, *scion, r),
{
    let point = stock.weighted_path(rng);
    let down = scion.descend_path(point.len(), rng);
    let below = scion.at_path(&down);
    let pick = below.weighted_path(rng);
    let fragment = below.at_path(&pick).clone();
    assert(point@.skip(0) =~= point@);
    let r = stock.replaced(&point, 0, fragment);
    assert(valid_path(*stock, point@) && is_descent(*scion, down@, point@.len())
        && valid_path(subtree(*scion, down@), pick@)
        && r == replace_at(*stock, point@, subtree(subtree(*scion, down@), pick@)));
    r
}

/// When the stock is a single leaf, the offspring is a copy of some node of
/// the scion, its root included.
pub proof fn lemma_crossover_of_leaf(stock: Node, scion: Node, r: Node)
    requires
        is_leaf(stock),
        is_crossover_of(stock, scion, r),
    ensures
        exists|e: Seq<usize>| valid_path(scion, e) && r == subtree(scion, e),
{
    let (p, q, e) = choose|p: Seq<usize>, q: Seq<usize>, e: Seq<usize>|
        valid_path(stock, p) && is_descent(scion, q, p.len()) && valid_path(subtree(scion, q), e)
            && r == replace_at(stock, p, subtree(subtree(scion, q), e));
    assert(p.len() == 0);
    assert(q.len() == 0);
    assert(subtree(scion, q) == scion);
    assert(valid_path(scion, e) && r == subtree(scion, e));
}

impl Generation {
    /// One offspring for each pair of parents, in order, none evaluated yet.
    pub fn crossover(&self, parent_pairs: &Vec<Parents>, rng: &mut StdRng) -> (r: Vec<Individual>)
        requires
            self.pairs_in_bounds(parent_pairs@),
        ensures
            r@.len() == parent_pairs@.len(),
            forall|j: int|
                0 <= j < r@.len() ==> (#[trigger] r@[j]).result.is_none() && is_crossover_of(
                    self.population@[parent_pairs@[j].stock as int].tree,
                    self.population@[parent_pairs@[j].scion as int].tree,
                    r@[j].tree,
                ),
    {
        let mut new_individuals: Vec<Individual> = Vec::new();
        let mut j: usize = 0;
        while j < parent_pairs.len()
            invariant
                j <= parent_pairs@.len(),
                self.pairs_in_bounds(parent_pairs@),
                new_individuals@.len() == j,
                forall|i: int|
                    0 <= i < j ==> (#[trigger] new_individuals@[i]).result.is_none()
                        && is_crossover_of(
                        self.population@[parent_pairs@[i].stock as int].tree,
                        self.population@[parent_pairs@[i].scion as int].tree,
                        new_individuals@[i].tree,
                    ),
            decreases parent_pairs@.len() - j,
        {
            let pair = parent_pairs[j];
            assert(pair == parent_pairs@[j as int]);
            let stock = &self.population[pair.stock].tree;
            let scion = &self.population[pair.scion].tree;
            let tree = crossover(stock, scion, rng);
            new_individuals.push(Individual { tree, result: None });
            j = j + 1;
        }
        new_individuals
    }
}

} // verus!
