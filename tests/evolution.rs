use genetic_programming::definitions::{
    EvalResult, Generation, Parents, GEN_COUNT, INDIVIDUALS_PER_METHOD_AND_DEPTH, MAX_GEN_DEPTH,
    MIN_GEN_DEPTH, POPULATION_SIZE,
};
use genetic_programming::training::{train, Event, Phase, TrainError, Training};
use rand::rngs::StdRng;
use rand::SeedableRng;

fn evaluate_with(g: &mut Generation, score: impl Fn(usize) -> i64) {
    let mut best = 0;
    let mut worst = 0;
    for i in 0..g.population.len() {
        g.population[i].result = Some(EvalResult { score: score(i) });
        if score(i) > score(best) {
            best = i;
        }
        if score(i) < score(worst) {
            worst = i;
        }
    }
    g.best_index = Some(best);
    g.worst_index = Some(worst);
}

fn simple_selection() -> (Vec<usize>, Vec<Parents>) {
    let kept: Vec<usize> = (0..10).collect();
    let pairs = (0..POPULATION_SIZE - 10).map(|i| Parents { stock: i % 7, scion: (i * 3) % 11 }).collect();
    (kept, pairs)
}

#[test]
fn seeding_fills_the_configured_population() {
    let mut rng = StdRng::seed_from_u64(9);
    let g = Generation::random(&mut rng);
    let expected = (MAX_GEN_DEPTH - MIN_GEN_DEPTH + 1) * INDIVIDUALS_PER_METHOD_AND_DEPTH * 2;
    assert_eq!(g.population.len(), expected);
    assert_eq!(g.population.len(), POPULATION_SIZE);
    assert!(g.population.iter().all(|i| i.result.is_none()));
    assert!(g.best_index.is_none() && g.worst_index.is_none());
    for (i, ind) in g.population.iter().enumerate() {
        let depth = MIN_GEN_DEPTH + i / (2 * INDIVIDUALS_PER_METHOD_AND_DEPTH);
        if i % 2 == 1 {
            assert_eq!(ind.tree.get_max_depth(), depth);
        } else {
            assert!(ind.tree.get_max_depth() <= depth);
        }
    }
}

#[test]
fn rebuild_has_kept_plus_offspring() {
    let mut rng = StdRng::seed_from_u64(10);
    let mut g = Generation::random(&mut rng);
    evaluate_with(&mut g, |i| i as i64);
    let kept = vec![3, 5, 5];
    let pairs = vec![Parents { stock: 0, scion: 1 }, Parents { stock: 2, scion: 2 }];
    let next = Generation::from_old(&g, &kept, &pairs, &mut rng);
    assert_eq!(next.population.len(), 5);
    assert_eq!(next.population[0].tree, g.population[3].tree);
    assert_eq!(next.population[2].tree, g.population[5].tree);
    assert!(next.population.iter().all(|i| i.result.is_none()));
    assert!(next.best_index.is_none());
    assert_eq!(g.population[3].result, Some(EvalResult { score: 3 }));

    let (kept, pairs) = simple_selection();
    let full = Generation::from_old(&g, &kept, &pairs, &mut rng);
    assert_eq!(full.population.len(), POPULATION_SIZE);
}

#[test]
fn generation_crossover_gives_one_offspring_per_pair() {
    let mut rng = StdRng::seed_from_u64(12);
    let g = Generation::random(&mut rng);
    let pairs = vec![Parents { stock: 4, scion: 9 }; 6];
    let offspring = g.crossover(&pairs, &mut rng);
    assert_eq!(offspring.len(), 6);
    assert!(offspring.iter().all(|i| i.result.is_none()));
}

#[test]
fn run_tracks_a_non_decreasing_best() {
    let mut rng = StdRng::seed_from_u64(13);
    let mut state = Training::new(&mut rng);
    assert_eq!(state.phase, Phase::Evaluate);
    let mut round: i64 = 0;
    let mut last_best = i64::MIN;
    loop {
        match state.phase {
            Phase::Evaluate => {
                // scores that rise and fall from one generation to the next
                let offset = if round % 2 == 0 { round * 10 } else { -round * 10 };
                evaluate_with(&mut state.generation, |i| offset + (i as i64 % 13));
                round += 1;
                assert_eq!(train(&mut state, Event::Evaluated, &mut rng), Ok(state.phase));
                let best = state.best_overall.as_ref().unwrap().result.unwrap().score;
                assert!(best >= last_best);
                last_best = best;
            }
            Phase::Select => {
                let (kept, pairs) = simple_selection();
                assert_eq!(train(&mut state, Event::Selected(kept, pairs), &mut rng), Ok(Phase::Mutate));
                assert_eq!(state.generation.population.len(), POPULATION_SIZE);
            }
            Phase::Mutate => {
                assert_eq!(train(&mut state, Event::Mutated, &mut rng), Ok(Phase::Evaluate));
            }
            Phase::Done => break,
        }
    }
    assert_eq!(state.completed, GEN_COUNT);
    assert_eq!(round as usize, GEN_COUNT + 1);
    // the last evaluation is compared too: round 50 scores 500 + 12
    assert_eq!(last_best, 512);
}

#[test]
fn first_best_is_seeded_by_first_individual() {
    let mut rng = StdRng::seed_from_u64(14);
    let mut state = Training::new(&mut rng);
    evaluate_with(&mut state.generation, |_| 7);
    state.generation.best_index = Some(5);
    assert_eq!(train(&mut state, Event::Evaluated, &mut rng), Ok(Phase::Select));
    let best = state.best_overall.unwrap();
    assert_eq!(best.tree, state.generation.population[0].tree);
    assert_eq!(best.result, Some(EvalResult { score: 7 }));
}

#[test]
fn events_out_of_order_are_refused() {
    let mut rng = StdRng::seed_from_u64(15);
    let mut state = Training::new(&mut rng);
    assert_eq!(train(&mut state, Event::Mutated, &mut rng), Err(TrainError::OutOfOrder));
    let (kept, pairs) = simple_selection();
    assert_eq!(train(&mut state, Event::Selected(kept, pairs), &mut rng), Err(TrainError::OutOfOrder));
    assert_eq!(state.phase, Phase::Evaluate);
}

#[test]
fn unevaluated_generation_is_refused() {
    let mut rng = StdRng::seed_from_u64(16);
    let mut state = Training::new(&mut rng);
    assert_eq!(train(&mut state, Event::Evaluated, &mut rng), Err(TrainError::NotEvaluated));
    evaluate_with(&mut state.generation, |i| i as i64);
    state.generation.best_index = Some(POPULATION_SIZE);
    assert_eq!(train(&mut state, Event::Evaluated, &mut rng), Err(TrainError::NotEvaluated));
    assert!(state.best_overall.is_none());
}

#[test]
fn bad_selection_is_refused() {
    let mut rng = StdRng::seed_from_u64(17);
    let mut state = Training::new(&mut rng);
    evaluate_with(&mut state.generation, |i| i as i64);
    assert_eq!(train(&mut state, Event::Evaluated, &mut rng), Ok(Phase::Select));
    let short = (vec![0, 1], vec![Parents { stock: 0, scion: 1 }]);
    assert_eq!(train(&mut state, Event::Selected(short.0, short.1), &mut rng), Err(TrainError::BadSelection));
    let (mut kept, pairs) = simple_selection();
    kept[0] = POPULATION_SIZE;
    assert_eq!(train(&mut state, Event::Selected(kept, pairs), &mut rng), Err(TrainError::BadSelection));
    let (kept, mut pairs) = simple_selection();
    pairs[3].scion = POPULATION_SIZE + 2;
    assert_eq!(train(&mut state, Event::Selected(kept, pairs), &mut rng), Err(TrainError::BadSelection));
    assert_eq!(state.phase, Phase::Select);
}
