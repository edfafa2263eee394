//! Individuals, generations and the evolution engine's configuration.
use crate::tree::Node;
use vstd::prelude::*;

verus! {

/// The smallest maximal depth of the trees seeding the first generation.
pub const MIN_GEN_DEPTH: usize = 2;

/// The largest maximal depth of the trees seeding the first generation.
pub const MAX_GEN_DEPTH: usize = 6;

/// How many trees each growth method makes for each seeding depth.
pub const INDIVIDUALS_PER_METHOD_AND_DEPTH: usize = 10;

/// The number of individuals in every generation.
pub const POPULATION_SIZE: usize = (MAX_GEN_DEPTH - MIN_GEN_DEPTH + 1) * INDIVIDUALS_PER_METHOD_AND_DEPTH * 2;

/// Under the Grow method, each step below the maximal depth ends in a leaf
/// with probability `P_GROW_LEAF_NUMERATOR / P_GROW_LEAF_DENOMINATOR`.
pub const P_GROW_LEAF_NUMERATOR: u32 = 1;

pub const P_GROW_LEAF_DENOMINATOR: u32 = 4;

/// The number of generations bred after the first.
pub const GEN_COUNT: usize = 50;

/// The outcome of evaluating one individual.
#[derive(Clone, Copy, Debug, PartialEq, Eq)]
pub struct EvalResult {
    /// Fitness: higher is better.
    pub score: i64,
}

/// One candidate program and, once evaluated, its result.
#[derive(Debug)]
pub struct Individual {
    pub tree: Node,
    pub result: Option<EvalResult>,
}

impl Clone for Individual {
    fn clone(&self) -> (r: Self)
        ensures
            r == *self,
    {
        Individual { tree: self.tree.clone(), result: self.result }
    }
}

/// The population at one step of the evolution, with the positions of its
/// best and worst individuals once it has been evaluated.
#[derive(Debug)]
pub struct Generation {
    pub population: Vec<Individual>,
    pub best_index: Option<usize>,
    pub worst_index: Option<usize>,
}

/// Two individuals of a generation that breed one offspring: a fragment of
/// `scion` is grafted into a copy of `stock`.
#[derive(Clone, Copy, Debug, PartialEq, Eq)]
pub struct Parents {
    pub stock: usize,
    pub scion: usize,
}

impl Generation {
    /// Every pair names individuals of this generation.
    pub open spec fn pairs_in_bounds(&self, pairs: Seq<Parents>) -> bool {
        forall|j: int|
            0 <= j < pairs.len() ==> #[trigger] pairs[j].stock < self.population@.len()
                && pairs[j].scion < self.population@.len()
    }

    /// Every index names an individual of this generation.
    pub open spec fn indices_in_bounds(&self, indices: Seq<usize>) -> bool {
        forall|i: int| 0 <= i < indices.len() ==> #[trigger] indices[i] < self.population@.len()
    }
}

} // verus!
