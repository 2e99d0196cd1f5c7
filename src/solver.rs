use vstd::prelude::*;
use crate::fitness::Fitness;
use crate::individual::Individual;

verus! {

/// The policies that drive a search, supplied by its user. Each method's
/// contract is stated over a relation of the same trait; an implementation
/// narrows the relation to describe what it does, and by default it
/// promises nothing.
pub trait Strategies<T> {
    /// Whether mutating `before` may give `after`.
    open spec fn mutation(&self, before: T, after: T) -> bool {
        true
    }

    /// Whether evaluating `chromosome` may give `fitness`.
    open spec fn evaluation(&self, chromosome: T, fitness: Fitness) -> bool {
        true
    }

    /// Whether mating `parents`, in this order, may give `child`.
    open spec fn mating(&self, parents: Seq<T>, child: T) -> bool {
        true
    }

    /// Whether `groups`, lists of positions in `population`, may be the mating
    /// groups chosen for it.
    open spec fn grouping(&self, population: Seq<Individual<T>>, groups: Seq<Seq<usize>>) -> bool {
        true
    }

    /// Whether removing candidates from `before` may leave `after`.
    open spec fn selection(&self, before: Seq<Individual<T>>, after: Seq<Individual<T>>) -> bool {
        true
    }

    /// Alters a chromosome in place.
    fn mutate(&self, chromosome: &mut T)
        ensures
            self.mutation(*old(chromosome), *final(chromosome)),
    ;

    /// Scores a chromosome.
    fn evaluate(&self, chromosome: &T) -> (r: Fitness)
        ensures
            self.evaluation(*chromosome, r),
    ;

    /// Makes one offspring chromosome from the chromosomes of its parents.
    fn mate(&self, parents: &Vec<&T>) -> (r: T)
        ensures
            self.mating(deref_all(parents@), r),
    ;

    /// Chooses the mating groups, as positions in the population.
    fn group(&self, population: &Vec<Individual<T>>) -> (r: Vec<Vec<usize>>)
        ensures
            self.grouping(population@, views_of(r@)),
            forall|k: int, j: int|
                0 <= k < r@.len() && 0 <= j < r@[k]@.len() ==> #[trigger] r@[k]@[j]
                    < population@.len(),
    ;

    /// Removes candidates from the population in place, keeping the order
    /// of those that stay.
    fn select(&self, population: &mut Vec<Individual<T>>)
        ensures
            self.selection(old(population)@, final(population)@),
            is_subsequence(final(population)@, old(population)@),
    ;
}

/// `positions` picks, in increasing order, the items of `whole` that make `part`.
pub open spec fn picks<A>(part: Seq<A>, whole: Seq<A>, positions: Seq<int>) -> bool {
    &&& positions.len() == part.len()
    &&& forall|i: int|
        0 <= i < part.len() ==> 0 <= #[trigger] positions[i] < whole.len() && part[i]
            == whole[positions[i]]
    &&& forall|i: int, j: int|
        0 <= i < j < part.len() ==> #[trigger] positions[i] < #[trigger] positions[j]
}

/// `part` is `whole` with zero or more items removed, the rest in order.
pub open spec fn is_subsequence<A>(part: Seq<A>, whole: Seq<A>) -> bool {
    exists|positions: Seq<int>| #[trigger] picks(part, whole, positions)
}

/// The values behind a sequence of references.
pub open spec fn deref_all<T>(refs: Seq<&T>) -> Seq<T> {
    refs.map_values(|r: &T| *r)
}

/// The views of a sequence of position lists.
pub open spec fn views_of(groups: Seq<Vec<usize>>) -> Seq<Seq<usize>> {
    groups.map_values(|g: Vec<usize>| g@)
}

/// The chromosomes of the members of `group`, in the group's order.
pub open spec fn parents_of<T>(population: Seq<Individual<T>>, group: Seq<usize>) -> Seq<T> {
    group.map_values(|i: usize| population[i as int].chromosome())
}

/// The first `before.len()` candidates of `after` are those of `before`,
/// each with its chromosome mutated once and then evaluated.
pub open spec fn mutated_and_evaluated<T, S: Strategies<T>>(
    s: S,
    before: Seq<Individual<T>>,
    after: Seq<Individual<T>>,
) -> bool {
    &&& after.len() >= before.len()
    &&& forall|i: int|
        0 <= i < before.len() ==> {
            &&& s.mutation(before[i].chromosome(), #[trigger] after[i].chromosome())
            &&& after[i].fitness() is Some
            &&& s.evaluation(after[i].chromosome(), after[i].fitness().unwrap())
        }
}

/// Past its first `n` candidates, `population` holds one unevaluated
/// candidate for each group, in order, mated from the chromosomes of the
/// group's members, which are positions among the first `n`.
pub open spec fn offspring_appended<T, S: Strategies<T>>(
    s: S,
    population: Seq<Individual<T>>,
    n: int,
    groups: Seq<Seq<usize>>,
) -> bool {
    &&& population.len() == n + groups.len()
    &&& forall|k: int, j: int|
        0 <= k < groups.len() && 0 <= j < groups[k].len() ==> #[trigger] groups[k][j] < n
    &&& forall|i: int|
        n <= i < population.len() ==> {
            &&& (#[trigger] population[i]).fitness() is None
            &&& s.mating(parents_of(population, groups[i - n]), population[i].chromosome())
        }
}

/// `after` is what one generation makes of `before`: each candidate mutated
/// once and then evaluated, then the offspring of the mating groups chosen
/// for the evaluated candidates appended in the groups' order.
pub open spec fn one_generation<T, S: Strategies<T>>(
    s: S,
    before: Seq<Individual<T>>,
    after: Seq<Individual<T>>,
) -> bool {
    &&& mutated_and_evaluated(s, before, after)
    &&& exists|groups: Seq<Seq<usize>>|
        {
            &&& #[trigger] s.grouping(after.take(before.len() as int), groups)
            &&& offspring_appended(s, after, before.len() as int, groups)
        }
}

/// A population together with the strategies that advance it.
pub struct SolverWrapper<T, S: Strategies<T>> {
    population: Vec<Individual<T>>,
    strategies: S,
}

impl<T, S: Strategies<T>> SolverWrapper<T, S> {
    /// The current population.
    pub closed spec fn spec_population(&self) -> Seq<Individual<T>> {
        self.population@
    }

    /// The strategies in use.
    pub closed spec fn spec_strategies(&self) -> S {
        self.strategies
    }

    /// A solver over `population` driven by `strategies`.
    pub fn new(population: Vec<Individual<T>>, strategies: S) -> (r: Self)
        ensures
            r.spec_population() == population@,
            r.spec_strategies() == strategies,
    {
        SolverWrapper { population, strategies }
    }

    /// The current population.
    pub fn get_population(&self) -> (r: &Vec<Individual<T>>)
        ensures
            r@ == self.spec_population(),
    {
        &self.population
    }
    /// The strategies in use.
    pub fn get_strategies(&self) -> (r: &S)
        ensures
            *r == self.spec_strategies(),
    {
        &self.strategies
    }

    /// Advances the population by one generation. Each candidate is mutated
    /// once, then, after all mutation, each is evaluated; the strategies then choose mating groups of
    /// the evaluated population, and the offspring of the groups, unevaluated
    /// and in the groups' order, are appended. No candidate is removed.
    pub fn advance_generation(&mut self)
        ensures
            final(self).spec_strategies() == old(self).spec_strategies(),
            one_generation(
                old(self).spec_strategies(),
                old(self).spec_population(),
                final(self).spec_population(),
            ),
    {
        let ghost before = self.population@;
        let ghost strategies = self.strategies;
        let n = self.population.len();
        let mut i: usize = 0;
        while i < n
            invariant
                0 <= i <= n,
                n == before.len(),
                self.strategies == strategies,
                self.population@.len() == n,
                forall|j: int|
                    0 <= j < i ==> {
                        &&& self.strategies.mutation(
                            before[j].chromosome(),
                            #[trigger] self.population@[j].chromosome(),
                        )
                        &&& self.population@[j].fitness() == before[j].fitness()
                    },
                forall|j: int| i <= j < n ==> #[trigger] self.population@[j] == before[j],
            decreases n - i,
        {
            self.strategies.mutate(self.population[i].get_mut_chromosome());
            i += 1;
        }
        let ghost mutated = self.population@;
        let mut i: usize = 0;
        while i < n
            invariant
                0 <= i <= n,
                n == before.len(),
                self.strategies == strategies,
                self.population@.len() == n,
                forall|j: int|
                    0 <= j < n ==> self.strategies.mutation(
                        before[j].chromosome(),
                        #[trigger] mutated[j].chromosome(),
                    ),
                forall|j: int|
                    0 <= j < i ==> {
                        &&& (#[trigger] self.population@[j]).chromosome() == mutated[j].chromosome()
                        &&& self.population@[j].fitness() is Some
                        &&& self.strategies.evaluation(
                            self.population@[j].chromosome(),
                            self.population@[j].fitness().unwrap(),
                        )
                    },
                forall|j: int| i <= j < n ==> #[trigger] self.population@[j] == mutated[j],
            decreases n - i,
        {
            let candidate = &mut self.population[i];
            let value = self.strategies.evaluate(candidate.get_chromosome());
            candidate.set_fittness_score(value);
            i += 1;
        }
        let ghost evaluated = self.population@;
        let groups = self.strategies.group(&self.population);
        let mut offspring: Vec<Individual<T>> = Vec::new();
        let mut k: usize = 0;
        while k < groups.len()
            invariant
                0 <= k <= groups@.len(),
                self.population@ == evaluated,
                self.strategies == strategies,
                offspring@.len() == k,
                forall|a: int, b: int|
                    0 <= a < groups@.len() && 0 <= b < groups@[a]@.len() ==> #[trigger] groups@[a]@[b]
                        < evaluated.len(),
                forall|m: int|
                    0 <= m < k ==> {
                        &&& (#[trigger] offspring@[m]).fitness() is None
                        &&& self.strategies.mating(
                            parents_of(evaluated, groups@[m]@),
                            offspring@[m].chromosome(),
                        )
                    },
            decreases groups@.len() - k,
        {
            let group = &groups[k];
            let mut parents: Vec<&T> = Vec::new();
            let mut j: usize = 0;
            while j < group.len()
                invariant
                    0 <= j <= group@.len(),
                    group == groups@[k as int],
                    0 <= k < groups@.len(),
                    self.population@ == evaluated,
                    self.strategies == strategies,
                    forall|a: int, b: int|
                        0 <= a < groups@.len() && 0 <= b < groups@[a]@.len()
                            ==> #[trigger] groups@[a]@[b] < evaluated.len(),
                    parents@.len() == j,
                    forall|q: int|
                        0 <= q < j ==> *(#[trigger] parents@[q]) == evaluated[group@[q] as int].chromosome(),
                decreases group@.len() - j,
            {
                let position = group[j];
                parents.push(self.population[position].get_chromosome());
                j += 1;
            }
            assert(deref_all(parents@) =~= parents_of(evaluated, group@));
            let child = self.strategies.mate(&parents);
            offspring.push(Individual::new(child));
            k += 1;
        }
        let ghost born = offspring@;
        self.population.append(&mut offspring);
        assert(self.population@.take(n as int) =~= evaluated);
        assert forall|i: int| n <= i < self.population@.len() implies #[trigger] self.population@[i]
            == born[i - n] && parents_of(self.population@, groups@[i - n]@) == parents_of(
            evaluated,
            groups@[i - n]@,
        ) by {
            assert(parents_of(self.population@, groups@[i - n]@) =~= parents_of(
                evaluated,
                groups@[i - n]@,
            ));
        }
        assert(one_generation(self.spec_strategies(), before, self.spec_population()));
    }

    /// Applies the selection strategy: it removes candidates as its
    /// relation allows, and those that stay keep their order.
    pub fn select_survivors(&mut self)
        ensures
            final(self).spec_strategies() == old(self).spec_strategies(),
            old(self).spec_strategies().selection(
                old(self).spec_population(),
                final(self).spec_population(),
            ),
            is_subsequence(final(self).spec_population(), old(self).spec_population()),
    {
        self.strategies.select(&mut self.population);
    }
}

/// Growth of the population: when the mating groups of `n` candidates are
/// `n / 2` in number, a generation leaves `n + n / 2` candidates.
pub proof fn lemma_population_growth<T, S: Strategies<T>>(
    s: S,
    population: Seq<Individual<T>>,
    n: int,
    groups: Seq<Seq<usize>>,
)
    requires
        offspring_appended(s, population, n, groups),
        groups.len() == n / 2,
    ensures
        population.len() == n + n / 2,
{
}

} // verus!
