use vstd::prelude::*;
use core::cmp::Ordering;
use vstd::std_specs::cmp::{PartialEqSpec, PartialOrdSpec};
use crate::fitness::{Fitness, compare_ints};

verus! {

/// The order of two optional fitness values: an absent fitness is below
/// every present one, two absent ones are equal, and present ones follow
/// the numeric order.
pub open spec fn fitness_order(a: Option<Fitness>, b: Option<Fitness>) -> Ordering {
    match (a, b) {
        (None, None) => Ordering::Equal,
        (None, Some(_)) => Ordering::Less,
        (Some(_), None) => Ordering::Greater,
        (Some(x), Some(y)) => compare_ints(x.key(), y.key()),
    }
}

/// A candidate solution: a chromosome and, once evaluated, its fitness.
#[derive(Debug)]
pub struct Individual<T> {
    chromosome: T,
    fitness_score: Option<Fitness>,
}

impl<T> Individual<T> {
    /// The chromosome this candidate carries.
    pub closed spec fn chromosome(&self) -> T {
        self.chromosome
    }

    /// The fitness of this candidate, absent until it is evaluated.
    pub closed spec fn fitness(&self) -> Option<Fitness> {
        self.fitness_score
    }

    /// A candidate for `chromosome` that is not evaluated yet.
    pub fn new(chromosome: T) -> (r: Self)
        ensures
            r.chromosome() == chromosome,
            r.fitness() is None,
    {
        Individual { chromosome, fitness_score: None }
    }

    /// The current fitness; asking again without setting it gives the same.
    pub fn get_fittness_score(&self) -> (r: Option<Fitness>)
        ensures
            r == self.fitness(),
    {
        self.fitness_score
    }

    /// Replaces the fitness, whatever it was; the chromosome is kept.
    pub fn set_fittness_score(&mut self, value: Fitness)
        ensures
            final(self).fitness() == Some(value),
            final(self).chromosome() == old(self).chromosome(),
    {
        self.fitness_score = Some(value);
    }

    /// Exclusive access to the chromosome; the fitness is kept.
    pub fn get_mut_chromosome(&mut self) -> (r: &mut T)
        ensures
            *r == old(self).chromosome(),
            final(self).chromosome() == *final(r),
            final(self).fitness() == old(self).fitness(),
    {
        &mut self.chromosome
    }

    /// Shared access to the chromosome.
    pub fn get_chromosome(&self) -> (r: &T)
        ensures
            *r == self.chromosome(),
    {
        &self.chromosome
    }

    /// Compares two candidates by fitness, as `fitness_order` says.
    pub fn cmp(&self, other: &Self) -> (r: Ordering)
        ensures
            r == fitness_order(self.fitness(), other.fitness()),
    {
        match (&self.fitness_score, &other.fitness_score) {
            (None, None) => Ordering::Equal,
            (None, Some(_)) => Ordering::Less,
            (Some(_), None) => Ordering::Greater,
            (Some(x), Some(y)) => x.compare(y),
        }
    }
}

impl<T> PartialEq for Individual<T> {
    /// Two candidates are equal when their fitness values are.
    fn eq(&self, other: &Self) -> (r: bool) {
        match self.cmp(other) {
            Ordering::Equal => true,
            _ => false,
        }
    }
}

impl<T> vstd::std_specs::cmp::PartialEqSpecImpl for Individual<T> {
    open spec fn obeys_eq_spec() -> bool {
        true
    }

    open spec fn eq_spec(&self, other: &Self) -> bool {
        fitness_order(self.fitness(), other.fitness()) == Ordering::Equal
    }
}

impl<T> Eq for Individual<T> {}

impl<T> PartialOrd for Individual<T> {
    fn partial_cmp(&self, other: &Self) -> (r: Option<Ordering>) {
        Some(self.cmp(other))
    }
}

impl<T> vstd::std_specs::cmp::PartialOrdSpecImpl for Individual<T> {
    open spec fn obeys_partial_cmp_spec() -> bool {
        true
    }

    open spec fn partial_cmp_spec(&self, other: &Self) -> Option<Ordering> {
        Some(fitness_order(self.fitness(), other.fitness()))
    }
}

/// Any two candidates compare: exactly one of `a < b`, `a == b`, `a > b`
/// holds, and `a < b` exactly when `b > a`.
pub proof fn lemma_order_total<T>(a: Individual<T>, b: Individual<T>)
    ensures
        a.partial_cmp_spec(&b) is Some,
        a.eq_spec(&b) <==> a.partial_cmp_spec(&b) == Some(Ordering::Equal),
        a.eq_spec(&b) <==> b.eq_spec(&a),
        a.partial_cmp_spec(&b) == Some(Ordering::Less) <==> b.partial_cmp_spec(&a) == Some(
            Ordering::Greater,
        ),
{
}

/// The order of candidates is transitive, for `<`, for `==` and for `<=`.
pub proof fn lemma_order_transitive<T>(a: Individual<T>, b: Individual<T>, c: Individual<T>)
    ensures
        a.partial_cmp_spec(&b) == Some(Ordering::Less) && b.partial_cmp_spec(&c) == Some(
            Ordering::Less,
        ) ==> a.partial_cmp_spec(&c) == Some(Ordering::Less),
        a.eq_spec(&b) && b.eq_spec(&c) ==> a.eq_spec(&c),
        a.partial_cmp_spec(&b) != Some(Ordering::Greater) && b.partial_cmp_spec(&c) != Some(
            Ordering::Greater,
        ) ==> a.partial_cmp_spec(&c) != Some(Ordering::Greater),
{
}

/// An evaluated candidate is above every unevaluated one, whatever its fitness.
pub proof fn lemma_unevaluated_below_evaluated<T>(u: Individual<T>, e: Individual<T>)
    requires
        u.fitness() is None,
        e.fitness() is Some,
    ensures
        u.partial_cmp_spec(&e) == Some(Ordering::Less),
        e.partial_cmp_spec(&u) == Some(Ordering::Greater),
        !u.eq_spec(&e),
{
}

/// Two unevaluated candidates are equal, neither below nor above the other.
pub proof fn lemma_unevaluated_equal<T>(a: Individual<T>, b: Individual<T>)
    requires
        a.fitness() is None,
        b.fitness() is None,
    ensures
        a.eq_spec(&b),
        a.partial_cmp_spec(&b) == Some(Ordering::Equal),
{
}

/// Two evaluated candidates are ordered as their fitness values are
/// numerically: a lower fitness is below, an equal fitness is equal.
pub proof fn lemma_evaluated_follow_fitness<T>(a: Individual<T>, b: Individual<T>)
    requires
        a.fitness() is Some,
        b.fitness() is Some,
    ensures
        a.fitness().unwrap().key() < b.fitness().unwrap().key() ==> a.partial_cmp_spec(&b)
            == Some(Ordering::Less),
        a.fitness().unwrap().key() == b.fitness().unwrap().key() <==> a.eq_spec(&b),
        a.fitness().unwrap().key() > b.fitness().unwrap().key() ==> a.partial_cmp_spec(&b)
            == Some(Ordering::Greater),
{
}

} // verus!
