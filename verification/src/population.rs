use vstd::prelude::*;
use crate::person::{Person, PersonStats};

verus! {

/// The oldest age, in years, that the age histogram counts.
pub const MAX_AGE: usize = 100;

/// Sums over a population: how many are male, and each trait added up.
#[derive(Clone, Copy, PartialEq, Eq, Structural, Debug)]
pub struct PopulationMeanStats {
    pub males: u64,
    pub stats: PersonStats<u64>,
}

impl Default for PopulationMeanStats {
    /// All sums zero.
    fn default() -> (s: Self)
        ensures
            s.males == 0,
            s.stats == (PersonStats { cordiality: 0u64, intelligence: 0u64, knowledge: 0u64, finesse: 0u64, gullability: 0u64, health: 0u64 }),
    {
        PopulationMeanStats {
            males: 0,
            stats: PersonStats { cordiality: 0, intelligence: 0, knowledge: 0, finesse: 0, gullability: 0, health: 0 },
        }
    }
}

/// `a + b`, wrapping around at `u64::MAX`, as the GPU's atomic adds do.
pub open spec fn add_wrapping(a: u64, b: int) -> u64 {
    ((a + b) % 0x1_0000_0000_0000_0000) as u64
}

/// Adds one person into the sums: one more male if the person is male, and each of the
/// person's traits onto its sum.
pub fn accumulate_person(stats: &mut PopulationMeanStats, person: &Person)
    ensures
        final(stats).males == if person.is_male@ { add_wrapping(old(stats).males, 1) } else { old(stats).males },
        final(stats).stats.cordiality == add_wrapping(old(stats).stats.cordiality, person.stats.cordiality as int),
        final(stats).stats.intelligence == add_wrapping(old(stats).stats.intelligence, person.stats.intelligence as int),
        final(stats).stats.knowledge == add_wrapping(old(stats).stats.knowledge, person.stats.knowledge as int),
        final(stats).stats.finesse == add_wrapping(old(stats).stats.finesse, person.stats.finesse as int),
        final(stats).stats.gullability == add_wrapping(old(stats).stats.gullability, person.stats.gullability as int),
        final(stats).stats.health == add_wrapping(old(stats).stats.health, person.stats.health as int),
{
    if person.is_male.get() {
        stats.males = stats.males.wrapping_add(1);
    }
    stats.stats.cordiality = stats.stats.cordiality.wrapping_add(person.stats.cordiality as u64);
    stats.stats.finesse = stats.stats.finesse.wrapping_add(person.stats.finesse as u64);
    stats.stats.gullability = stats.stats.gullability.wrapping_add(person.stats.gullability as u64);
    stats.stats.health = stats.stats.health.wrapping_add(person.stats.health as u64);
    stats.stats.intelligence = stats.stats.intelligence.wrapping_add(person.stats.intelligence as u64);
    stats.stats.knowledge = stats.stats.knowledge.wrapping_add(person.stats.knowledge as u64);
}

/// How many people there are of each age in years (up to `MAX_AGE`), how many are male, and
/// how many have each value (0 to 255) of each trait.
pub struct PopulationCountStats {
    pub males: u64,
    pub ages: [u64; 101],
    pub stats: PersonStats<[u64; 256]>,
}

impl Default for PopulationCountStats {
    /// All counts zero.
    fn default() -> (s: Self)
        ensures
            s.males == 0,
            s.ages@ == Seq::new(101, |i: int| 0u64),
            s.stats.cordiality@ == Seq::new(256, |i: int| 0u64),
            s.stats.intelligence@ == Seq::new(256, |i: int| 0u64),
            s.stats.knowledge@ == Seq::new(256, |i: int| 0u64),
            s.stats.finesse@ == Seq::new(256, |i: int| 0u64),
            s.stats.gullability@ == Seq::new(256, |i: int| 0u64),
            s.stats.health@ == Seq::new(256, |i: int| 0u64),
    {
        let ages = [0u64; 101];
        let hist = [0u64; 256];
        assert(ages@ =~= Seq::new(101, |i: int| 0u64));
        assert(hist@ =~= Seq::new(256, |i: int| 0u64));
        PopulationCountStats {
            males: 0,
            ages,
            stats: PersonStats {
                cordiality: hist,
                intelligence: hist,
                knowledge: hist,
                finesse: hist,
                gullability: hist,
                health: hist,
            },
        }
    }
}

/// The total of the lengths.
pub open spec fn sum_lengths(s: Seq<u64>) -> int
    decreases s.len(),
{
    if s.len() == 0 {
        0
    } else {
        sum_lengths(s.drop_last()) + s.last()
    }
}

/// The number of chunks of `chunk_size` people that `people` people need.
pub open spec fn chunks_for(people: int, chunk_size: int) -> int {
    people / chunk_size + if people % chunk_size > 0 { 1int } else { 0int }
}

/// How many people fit in one chunk: the device's largest allocation split evenly among the
/// allocations it allows, in people of `bytes_per_person` bytes.
pub fn chunk_size_for(max_allocation_size: u64, max_memory_allocation_count: u32, bytes_per_person: u64) -> (r: u64)
    requires
        max_memory_allocation_count as int * bytes_per_person > 0,
        max_memory_allocation_count as int * bytes_per_person <= u64::MAX,
    ensures
        r as int == max_allocation_size as int / (max_memory_allocation_count as int * bytes_per_person),
{
    let per = (max_memory_allocation_count as u64) * bytes_per_person;
    max_allocation_size / per
}

/// How a population of people is split into chunks of `chunk_size` people, each chunk a
/// separate device buffer: the people fill the chunks in order.
pub struct Population {
    chunks: u64,
    chunk_size: u64,
    people: u64,
}

impl Population {
    #[verifier::type_invariant]
    spec fn layout_holds(self) -> bool {
        &&& self.chunk_size > 0
        &&& self.chunks >= chunks_for(self.people as int, self.chunk_size as int)
    }

    /// The number of chunks.
    pub closed spec fn chunk_count(self) -> u64 {
        self.chunks
    }

    /// The number of people a chunk holds.
    pub closed spec fn chunk_size_spec(self) -> u64 {
        self.chunk_size
    }

    /// The number of people.
    pub closed spec fn people(self) -> u64 {
        self.people
    }

    /// The layout of `people` people in chunks of `chunk_size`: as many full chunks as fit, and
    /// one more for the rest when there is a rest.
    pub fn new(people: u64, chunk_size: u64) -> (p: Self)
        requires
            chunk_size > 0,
        ensures
            p.people() == people,
            p.chunk_size_spec() == chunk_size,
            p.chunk_count() == chunks_for(people as int, chunk_size as int),
    {
        let div = people / chunk_size;
        let rem = people % chunk_size;
        if rem > 0 {
            assert(div < u64::MAX) by (nonlinear_arith)
                requires
                    div == people / chunk_size,
                    rem == people % chunk_size,
                    rem > 0,
                    chunk_size > 0,
                    people <= u64::MAX,
            {
                assert(chunk_size > 1);
                assert(div * chunk_size <= people);
                assert(div * 2 <= div * chunk_size);
            }
        }
        let chunks = if rem > 0 { div + 1 } else { div };
        Population { chunks, chunk_size, people }
    }

    /// The number of people.
    pub fn len(&self) -> (r: u64)
        ensures
            r == self.people(),
    {
        self.people
    }

    /// The number of people the chunks can hold.
    pub fn capacity(&self) -> (r: u64)
        requires
            self.chunk_count() * self.chunk_size_spec() <= u64::MAX,
        ensures
            r == self.chunk_count() * self.chunk_size_spec(),
    {
        self.chunks * self.chunk_size
    }

    /// Makes room for `people` more people: adds as many chunks as the missing room needs
    /// (none when there is room already) and returns how many were added.
    pub fn reserve(&mut self, people: u64) -> (added: u64)
        requires
            old(self).people() + people <= u64::MAX,
            old(self).chunk_count() * old(self).chunk_size_spec() <= u64::MAX,
            old(self).chunk_count() + chunks_for(old(self).people() + people, old(self).chunk_size_spec() as int) <= u64::MAX,
        ensures
            added == if old(self).people() + people > old(self).chunk_count() * old(self).chunk_size_spec() {
                chunks_for(old(self).people() + people - old(self).chunk_count() * old(self).chunk_size_spec(), old(self).chunk_size_spec() as int)
            } else {
                0
            },
            final(self).chunk_count() == old(self).chunk_count() + added,
            final(self).chunk_count() * final(self).chunk_size_spec() >= old(self).people() + people,
            final(self).people() == old(self).people(),
            final(self).chunk_size_spec() == old(self).chunk_size_spec(),
    {
        proof {
            use_type_invariant(&*self);
        }
        let capacity = self.capacity();
        let wanted = self.len() + people;
        match wanted.checked_sub(capacity) {
            Some(delta) => {
                if delta == 0 {
                    return 0;
                }
                let div = delta / self.chunk_size;
                let rem = delta % self.chunk_size;
                let delta = div + if rem > 0 { 1 } else { 0 };
                proof {
                    assert(delta <= chunks_for(wanted as int, self.chunk_size as int)) by (nonlinear_arith)
                        requires
                            delta == chunks_for((wanted - capacity) as int, self.chunk_size as int),
                            capacity <= wanted,
                            self.chunk_size > 0,
                    {
                        vstd::arithmetic::div_mod::lemma_div_is_ordered((wanted - capacity) as int, wanted as int, self.chunk_size as int);
                    }
                }
                proof {
                    let d = (wanted - capacity) as int;
                    let c = self.chunk_size as int;
                    assert(delta * c >= d) by (nonlinear_arith)
                        requires
                            delta == d / c + if d % c > 0 { 1int } else { 0int },
                            c > 0,
                            d >= 0,
                    {
                        assert(d == c * (d / c) + d % c);
                        if d % c > 0 {
                            assert(delta * c == (d / c) * c + c);
                        }
                    }
                    assert((self.chunks + delta) * c == self.chunks * c + delta * c) by (nonlinear_arith);
                }
                self.chunks = self.chunks + delta;
                delta
            },
            None => 0,
        }
    }

    /// The number of people in each chunk, in order: full chunks, then the rest if there is
    /// one. Together they hold every person.
    pub fn chunk_lengths(&self) -> (r: Vec<u64>)
        ensures
            sum_lengths(r@) == self.people(),
            r@.len() == chunks_for(self.people() as int, self.chunk_size_spec() as int),
            forall|i: int| 0 <= i < self.people() / self.chunk_size_spec() ==> #[trigger] r@[i] == self.chunk_size_spec(),
            self.people() % self.chunk_size_spec() > 0 ==> r@[(self.people() / self.chunk_size_spec()) as int] == self.people() % self.chunk_size_spec(),
    {
        proof {
            use_type_invariant(self);
        }
        let div = self.people / self.chunk_size;
        let rem = self.people % self.chunk_size;
        let mut lengths: Vec<u64> = Vec::new();
        let mut i: u64 = 0;
        while i < div
            invariant
                i <= div,
                div == self.people / self.chunk_size,
                lengths@.len() == i,
                forall|j: int| 0 <= j < i ==> #[trigger] lengths@[j] == self.chunk_size,
                sum_lengths(lengths@) == i * self.chunk_size,
            decreases div - i,
        {
            let ghost before = lengths@;
            lengths.push(self.chunk_size);
            proof {
                assert(lengths@.drop_last() == before);
                assert((i + 1) * self.chunk_size == i * self.chunk_size + self.chunk_size) by (nonlinear_arith);
            }
            i = i + 1;
        }
        proof {
            assert(self.people == div * self.chunk_size + rem) by (nonlinear_arith)
                requires
                    div == self.people / self.chunk_size,
                    rem == self.people % self.chunk_size,
                    self.chunk_size > 0,
            {}
        }
        if rem > 0 {
            let ghost before = lengths@;
            lengths.push(rem);
            proof {
                assert(lengths@.drop_last() == before);
            }
        }
        lengths
    }
}

} // verus!
