//! The evolution loop's decisions, one event at a time.
//!
//! Evaluation, selection and mutation are performed by the caller on
//! `Training::generation`; `train` is told when each is done, checks what it
//! reads, tracks the best individual seen so far and breeds the next
//! generation.
use crate::definitions::{Generation, Individual, Parents, GEN_COUNT, POPULATION_SIZE};
use crate::generation::rebuilt_from;
use rand::rngs::StdRng;
use vstd::prelude::*;

verus! {

/// What the caller must do next.
#[derive(Clone, Copy, Debug, PartialEq, Eq, Structural)]
pub enum Phase {
    /// Evaluate every individual and set the best and worst indices.
    Evaluate,
    /// Choose the individuals to keep and the pairs of parents.
    Select,
    /// Mutate the generation in place.
    Mutate,
    /// The run is over: `best_overall` is the result.
    Done,
}

/// What the caller has done.
#[derive(Debug)]
pub enum Event {
    Evaluated,
    /// The indices of the individuals kept unchanged, and the pairs of parents.
    Selected(Vec<usize>, Vec<Parents>),
    Mutated,
}

#[derive(Clone, Copy, Debug, PartialEq, Eq)]
pub enum TrainError {
    /// An event that the current phase does not expect.
    OutOfOrder,
    /// The generation's best individual, or the first one of the run, has no result.
    NotEvaluated,
    /// The selection does not rebuild a population of the configured size from
    /// individuals of the current generation.
    BadSelection,
}

/// The state of one evolution run.
#[derive(Debug)]
pub struct Training {
    pub generation: Generation,
    /// The best individual evaluated so far in the run.
    pub best_overall: Option<Individual>,
    /// The number of generations bred so far.
    pub completed: usize,
    pub phase: Phase,
}

pub open spec fn score(i: Individual) -> int {
    i.result.unwrap().score as int
}

/// Whether the evaluation of `g` can be read: its best index names an
/// evaluated individual, and where no best is known yet, its first individual
/// is evaluated.
pub open spec fn evaluation_ready(g: Generation, best: Option<Individual>) -> bool {
    &&& g.best_index is Some
    &&& g.best_index.unwrap() < g.population@.len()
    &&& g.population@[g.best_index.unwrap() as int].result is Some
    &&& best is Some ==> best.unwrap().result is Some
    &&& best is None ==> g.population@.len() > 0 && g.population@[0].result is Some
}

/// The best individual seen after evaluating `g`: the running best (seeded
/// by the first individual of the run), replaced by the generation's best
/// where that scores strictly higher.
pub open spec fn next_best(g: Generation, best: Option<Individual>) -> Individual {
    let seed = match best {
        Some(b) => b,
        None => g.population@[0],
    };
    let candidate = g.population@[g.best_index.unwrap() as int];
    if score(candidate) > score(seed) {
        candidate
    } else {
        seed
    }
}

/// Whether a selection rebuilds a full population from `g`.
pub open spec fn selection_fits(g: Generation, kept: Seq<usize>, pairs: Seq<Parents>) -> bool {
    &&& kept.len() + pairs.len() == POPULATION_SIZE
    &&& g.indices_in_bounds(kept)
    &&& g.pairs_in_bounds(pairs)
}

impl Training {
    /// A run at its start: a freshly seeded generation waiting for evaluation.
    pub fn new(rng: &mut StdRng) -> (r: Training)
        ensures
            r.generation.population@.len() == POPULATION_SIZE,
            forall|i: int|
                0 <= i < r.generation.population@.len()
                    ==> (#[trigger] r.generation.population@[i]).result.is_none(),
            r.generation.best_index.is_none(),
            r.best_overall.is_none(),
            r.completed == 0,
            r.phase == Phase::Evaluate,
    {
        Training { generation: Generation::random(rng), best_overall: None, completed: 0, phase: Phase::Evaluate }
    }
}

fn is_evaluated(individual: &Individual) -> (r: bool)
    ensures
        r == individual.result is Some,
{
    match individual.result {
        Some(_) => true,
        None => false,
    }
}

fn evaluation_checked(state: &Training) -> (r: bool)
    ensures
        r == evaluation_ready(state.generation, state.best_overall),
{
    let g = &state.generation;
    let best_ok = match g.best_index {
        Some(i) => i < g.population.len() && is_evaluated(&g.population[i]),
        None => false,
    };
    let seed_ok = match &state.best_overall {
        Some(b) => is_evaluated(b),
        None => g.population.len() > 0 && is_evaluated(&g.population[0]),
    };
    best_ok && seed_ok
}

fn selection_checked(g: &Generation, kept: &Vec<usize>, pairs: &Vec<Parents>) -> (r: bool)
    ensures
        r == selection_fits(*g, kept@, pairs@),
{
    if kept.len() > POPULATION_SIZE || pairs.len() != POPULATION_SIZE - kept.len() {
        return false;
    }
    let n = g.population.len();
    let mut i: usize = 0;
    while i < kept.len()
        invariant
            i <= kept@.len(),
            n == g.population@.len(),
            forall|k: int| 0 <= k < i ==> #[trigger] kept@[k] < n,
        decreases kept@.len() - i,
    {
        if kept[i] >= n {
            return false;
        }
        i = i + 1;
    }
    let mut j: usize = 0;
    while j < pairs.len()
        invariant
            j <= pairs@.len(),
            n == g.population@.len(),
            kept@.len() + pairs@.len() == POPULATION_SIZE,
            forall|k: int| 0 <= k < kept@.len() ==> #[trigger] kept@[k] < n,
            forall|k: int| 0 <= k < j ==> #[trigger] pairs@[k].stock < n && pairs@[k].scion < n,
        decreases pairs@.len() - j,
    {
        if pairs[j].stock >= n || pairs[j].scion >= n {
            return false;
        }
        j = j + 1;
    }
    true
}

/// Takes one step of the evolution run on `event`, and returns the phase that
/// follows. On an error the state is left as it was.
///
/// - `Evaluated`, in the Evaluate phase: the running best becomes
///   `next_best`; the run is Done once `GEN_COUNT` generations were bred,
///   else the caller selects.
/// - `Selected(kept, pairs)`, in the Select phase: the generation is rebuilt
///   from the kept individuals and one offspring per pair, and the caller
///   mutates it.
/// - `Mutated`, in the Mutate phase: one more generation is bred, and the
///   caller evaluates it.
pub fn train(state: &mut Training, event: Event, rng: &mut StdRng) -> (r: Result<Phase, TrainError>)
    ensures
        r is Err ==> *final(state) == *old(state),
        r is Ok ==> final(state).phase == r.unwrap(),
        event is Evaluated && old(state).phase != Phase::Evaluate ==> r == Err::<Phase, TrainError>(
            TrainError::OutOfOrder,
        ),
        event is Evaluated && old(state).phase == Phase::Evaluate && !evaluation_ready(
            old(state).generation,
            old(state).best_overall,
        ) ==> r == Err::<Phase, TrainError>(TrainError::NotEvaluated),
        event is Evaluated && old(state).phase == Phase::Evaluate && evaluation_ready(
            old(state).generation,
            old(state).best_overall,
        ) ==> {
            &&& r == Ok::<Phase, TrainError>(
                if old(state).completed >= GEN_COUNT {
                    Phase::Done
                } else {
                    Phase::Select
                },
            )
            &&& final(state).best_overall == Some(
                next_best(old(state).generation, old(state).best_overall),
            )
            &&& final(state).generation == old(state).generation
            &&& final(state).completed == old(state).completed
        },
        event is Selected && old(state).phase != Phase::Select ==> r == Err::<Phase, TrainError>(
            TrainError::OutOfOrder,
        ),
        event is Selected && old(state).phase == Phase::Select && !selection_fits(
            old(state).generation,
            event->Selected_0@,
            event->Selected_1@,
        ) ==> r == Err::<Phase, TrainError>(TrainError::BadSelection),
        event is Selected && old(state).phase == Phase::Select && selection_fits(
            old(state).generation,
            event->Selected_0@,
            event->Selected_1@,
        ) ==> {
            &&& r == Ok::<Phase, TrainError>(Phase::Mutate)
            &&& rebuilt_from(
                old(state).generation,
                event->Selected_0@,
                event->Selected_1@,
                final(state).generation,
            )
            &&& final(state).generation.population@.len() == POPULATION_SIZE
            &&& final(state).best_overall == old(state).best_overall
            &&& final(state).completed == old(state).completed
        },
        event is Mutated && (old(state).phase != Phase::Mutate || old(state).completed >= GEN_COUNT)
            ==> r == Err::<Phase, TrainError>(TrainError::OutOfOrder),
        event is Mutated && old(state).phase == Phase::Mutate && old(state).completed < GEN_COUNT
            ==> {
            &&& r == Ok::<Phase, TrainError>(Phase::Evaluate)
            &&& final(state).generation == old(state).generation
            &&& final(state).best_overall == old(state).best_overall
            &&& final(state).completed == old(state).completed + 1
        },
        // the best score of the run never decreases
        r is Ok && old(state).best_overall is Some && old(state).best_overall.unwrap().result is Some
            ==> final(state).best_overall is Some && score(final(state).best_overall.unwrap())
            >= score(old(state).best_overall.unwrap()),
{
    match event {
        Event::Evaluated => {
            if state.phase != Phase::Evaluate {
                return Err(TrainError::OutOfOrder);
            }
            if !evaluation_checked(state) {
                return Err(TrainError::NotEvaluated);
            }
            let g = &state.generation;
            let seed = match &state.best_overall {
                Some(b) => b.clone(),
                None => g.population[0].clone(),
            };
            let candidate = &g.population[g.best_index.unwrap()];
            let best = if candidate.result.unwrap().score > seed.result.unwrap().score {
                candidate.clone()
            } else {
                seed
            };
            state.best_overall = Some(best);
            state.phase = if state.completed >= GEN_COUNT {
                Phase::Done
            } else {
                Phase::Select
            };
            Ok(state.phase)
        },
        Event::Selected(kept, pairs) => {
            if state.phase != Phase::Select {
                return Err(TrainError::OutOfOrder);
            }
            if !selection_checked(&state.generation, &kept, &pairs) {
                return Err(TrainError::BadSelection);
            }
            state.generation = Generation::from_old(&state.generation, &kept, &pairs, rng);
            state.phase = Phase::Mutate;
            Ok(Phase::Mutate)
        },
        Event::Mutated => {
            if state.phase != Phase::Mutate || state.completed >= GEN_COUNT {
                return Err(TrainError::OutOfOrder);
            }
            state.completed = state.completed + 1;
            state.phase = Phase::Evaluate;
            Ok(Phase::Evaluate)
        },
    }
}

} // verus!
