use genetic_solver::fitness::{Fitness, InvalidFitness};
use genetic_solver::individual::Individual;
use std::cmp::Ordering;

fn fit(value: f64) -> Fitness {
    Fitness::from_bits(value.to_bits()).unwrap()
}

#[test]
fn init_array() {
    let chromosome: [i32; 5] = [0; 5];
    let indv = Individual::new(chromosome);
    assert_eq!(indv.get_fittness_score(), None);
    assert_eq!(*indv.get_chromosome(), chromosome);
}

#[test]
fn init_vector() {
    let chromosome: Vec<i32> = vec![1, 2, 3, 4, 5];
    let chromosome_cpy = chromosome.clone();
    let indv = Individual::new(chromosome);
    assert_eq!(indv.get_fittness_score(), None);
    assert_eq!(
        indv.get_chromosome()
            .iter()
            .zip(chromosome_cpy.iter())
            .all(|(a, b)| a == b),
        true
    );
}

#[test]
fn init_i32() {
    let chromosome: i32 = 5;
    let indv = Individual::new(chromosome);
    assert_eq!(indv.get_fittness_score(), None);
    assert_eq!(*indv.get_chromosome() == chromosome, true);
}

#[test]
fn cmp_lt_none() {
    let mut indv_1 = Individual::new([0; 40]);
    let indv_2 = Individual::new([1; 40]);
    indv_1.set_fittness_score(fit(-50.0));
    assert_eq!(indv_2 < indv_1, true);
}

#[test]
fn cmp_lt() {
    let mut indv_1 = Individual::new([0; 40]);
    let mut indv_2 = Individual::new([1; 40]);
    indv_1.set_fittness_score(fit(-50.0));
    indv_2.set_fittness_score(fit(10.0));
    assert_eq!(indv_1 < indv_2, true);
}

#[test]
fn cmp_gt_none() {
    let mut indv_1 = Individual::new([0; 40]);
    let indv_2 = Individual::new([1; 40]);
    indv_1.set_fittness_score(fit(-50.0));
    assert_eq!(indv_1 > indv_2, true);
}

#[test]
fn cmp_gt() {
    let mut indv_1 = Individual::new([0; 40]);
    let mut indv_2 = Individual::new([1; 40]);
    indv_1.set_fittness_score(fit(-50.0));
    indv_2.set_fittness_score(fit(10.0));
    assert_eq!(indv_2 > indv_1, true);
}

#[test]
fn cmp_eq_both_none() {
    let indv_1 = Individual::new([0; 40]);
    let indv_2 = Individual::new([1; 40]);
    assert_eq!(indv_1 == indv_2, true);
    assert_eq!(indv_1 != indv_2, false);
}

#[test]
fn cmp_eq_one_none() {
    let mut indv_1 = Individual::new([0; 40]);
    let indv_2 = Individual::new([1; 40]);
    indv_1.set_fittness_score(fit(10.0));
    assert_eq!(indv_1 == indv_2, false);
    assert_eq!(indv_1 != indv_2, true);
}

#[test]
fn cmp_eq() {
    let mut indv_1 = Individual::new([0; 40]);
    let mut indv_2 = Individual::new([1; 40]);
    indv_1.set_fittness_score(fit(10.0));
    indv_2.set_fittness_score(fit(10.0));
    assert_eq!(indv_1 == indv_2, true);
    assert_eq!(indv_1 != indv_2, false);
}

#[test]
fn unevaluated_below_large_negative_fitness() {
    let mut evaluated = Individual::new(1u8);
    let unevaluated = Individual::new(2u8);
    evaluated.set_fittness_score(fit(-1000.0));
    assert!(unevaluated < evaluated);
    assert!(evaluated > unevaluated);
    assert_eq!(unevaluated.cmp(&evaluated), Ordering::Less);
    assert_eq!(evaluated.cmp(&unevaluated), Ordering::Greater);
}

#[test]
fn unevaluated_pair_is_equal() {
    let a = Individual::new(1u8);
    let b = Individual::new(2u8);
    assert_eq!(a.cmp(&b), Ordering::Equal);
    assert!(!(a < b));
    assert!(!(a > b));
    assert!(a <= b && a >= b);
}

#[test]
fn lower_fitness_is_less() {
    let mut a = Individual::new(0u8);
    let mut b = Individual::new(0u8);
    a.set_fittness_score(fit(5.0));
    b.set_fittness_score(fit(10.0));
    assert!(a < b);
    assert_eq!(a.cmp(&b), Ordering::Less);
    b.set_fittness_score(fit(5.0));
    assert!(a == b);
    assert_eq!(a.cmp(&b), Ordering::Equal);
}

#[test]
fn ordering_is_transitive_on_a_sort() {
    let values = [3.5, -2.0, f64::INFINITY, 0.0, -0.25, f64::NEG_INFINITY, 7.0];
    let mut population: Vec<Individual<usize>> = Vec::new();
    for (i, v) in values.iter().enumerate() {
        let mut c = Individual::new(i);
        c.set_fittness_score(fit(*v));
        population.push(c);
    }
    population.push(Individual::new(99));
    population.sort_by(|a, b| a.cmp(b));
    let order: Vec<usize> = population.iter().map(|c| *c.get_chromosome()).collect();
    assert_eq!(order, vec![99, 5, 1, 4, 3, 0, 6, 2]);
    for w in population.windows(2) {
        assert!(w[0] <= w[1]);
    }
}

#[test]
fn requery_gives_same_fitness() {
    let mut c = Individual::new(0u8);
    c.set_fittness_score(fit(2.5));
    let first = c.get_fittness_score();
    let second = c.get_fittness_score();
    assert_eq!(first, second);
    assert_eq!(first.unwrap().to_bits(), 2.5f64.to_bits());
}

#[test]
fn set_fitness_last_write_wins() {
    let mut c = Individual::new(7u8);
    c.set_fittness_score(fit(1.0));
    c.set_fittness_score(fit(-3.0));
    assert_eq!(c.get_fittness_score().unwrap().to_bits(), (-3.0f64).to_bits());
    assert_eq!(*c.get_chromosome(), 7);
}

#[test]
fn mutable_chromosome_access_keeps_fitness() {
    let mut c = Individual::new(vec![1, 2]);
    c.set_fittness_score(fit(4.0));
    c.get_mut_chromosome().push(3);
    assert_eq!(*c.get_chromosome(), vec![1, 2, 3]);
    assert_eq!(c.get_fittness_score(), Some(fit(4.0)));
}

#[test]
fn nan_fitness_is_rejected() {
    let bits = f64::NAN.to_bits();
    assert_eq!(Fitness::from_bits(bits).unwrap_err(), InvalidFitness { bits });
    let negative_nan = bits | 0x8000_0000_0000_0000;
    assert!(Fitness::from_bits(negative_nan).is_err());
    assert!(Fitness::from_bits(f64::INFINITY.to_bits()).is_ok());
    assert!(Fitness::from_bits(f64::NEG_INFINITY.to_bits()).is_ok());
}

#[test]
fn zeros_compare_equal() {
    let pos = fit(0.0);
    let neg = fit(-0.0);
    assert_eq!(pos.compare(&neg), Ordering::Equal);
    assert!(pos == neg);
    assert_ne!(pos.to_bits(), neg.to_bits());
}

#[test]
fn fitness_compare_follows_numbers() {
    assert_eq!(fit(-50.0).compare(&fit(10.0)), Ordering::Less);
    assert_eq!(fit(-1.0).compare(&fit(-2.0)), Ordering::Greater);
    assert_eq!(fit(1e300).compare(&fit(f64::INFINITY)), Ordering::Less);
    assert_eq!(fit(f64::MIN_POSITIVE).compare(&fit(0.0)), Ordering::Greater);
    assert_eq!(fit(-0.5).compare(&fit(0.0)), Ordering::Less);
    assert_eq!(fit(3.0).compare(&fit(3.0)), Ordering::Equal);
}
