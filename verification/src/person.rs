use vstd::prelude::*;
use crate::rand::{Random, RandomState, nth_state, step_output, jump_state, entropy_mix};
use crate::shared::ExternBool;
use crate::time::GameDuration;

verus! {

/// One value for each of a person's six traits.
#[derive(Clone, Copy, PartialEq, Eq, Structural, Debug, Hash, Default)]
pub struct PersonStats<T> {
    pub cordiality: T,
    pub intelligence: T,
    pub knowledge: T,
    pub finesse: T,
    pub gullability: T,
    pub health: T,
}

/// A member of the population, laid out as the GPU code reads and writes it.
#[derive(Clone, Copy, PartialEq, Eq, Structural, Debug, Hash)]
pub struct Person {
    pub is_male: ExternBool,
    pub age: GameDuration,
    pub stats: PersonStats<u8>,
}

/// The oldest age, in days, that a freshly generated person can have, plus one.
pub const AGE_LIMIT_DAYS: u16 = 36500;

/// The state of the generator of the person at `index`, once seeded: the index is added to the
/// seed as entropy (which jumps), and the generator jumps once more.
pub open spec fn person_generator(seed: RandomState, index: u32) -> RandomState {
    jump_state(jump_state(entropy_mix(seed, index)))
}

/// The `k`-th number the generator of the person at `index` yields.
pub open spec fn person_draw(seed: RandomState, index: u32, k: nat) -> u32 {
    step_output(nth_state(person_generator(seed, index), k))
}

/// The person generated at `invocation + offset` (wrapping) from `seed`: the first draw decides
/// the sex (male when its top bit is set), the second the age (its low 16 bits, modulo 36500
/// days), and the next six the stats (their low 8 bits), in the order cordiality, intelligence,
/// knowledge, finesse, gullability, health.
pub fn generate_person(seed: [u32; 4], offset: u32, invocation: u32) -> (p: Person)
    ensures
        ({
            let s = (seed@[0], seed@[1], seed@[2], seed@[3]);
            let i = invocation.wrapping_add(offset);
            &&& p.is_male@ == (person_draw(s, i, 0) >= 0x8000_0000)
            &&& p.age@ == (person_draw(s, i, 1) % 65536) % 36500
            &&& p.stats.cordiality == person_draw(s, i, 2) % 256
            &&& p.stats.intelligence == person_draw(s, i, 3) % 256
            &&& p.stats.knowledge == person_draw(s, i, 4) % 256
            &&& p.stats.finesse == person_draw(s, i, 5) % 256
            &&& p.stats.gullability == person_draw(s, i, 6) % 256
            &&& p.stats.health == person_draw(s, i, 7) % 256
        }),
{
    let id = invocation.wrapping_add(offset);
    let mut random = Random::from_entropy(seed, id);
    random.jump();
    let ghost s0 = random@;
    proof {
        reveal_with_fuel(nth_state, 8);
    }
    let is_male = ExternBool::new(random.next_bool());
    let age = GameDuration::from_days(random.next_u16() % AGE_LIMIT_DAYS);
    let cordiality = random.next_u8();
    let intelligence = random.next_u8();
    let knowledge = random.next_u8();
    let finesse = random.next_u8();
    let gullability = random.next_u8();
    let health = random.next_u8();
    Person {
        is_male,
        age,
        stats: PersonStats { cordiality, intelligence, knowledge, finesse, gullability, health },
    }
}

} // verus!
