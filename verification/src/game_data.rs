use vstd::prelude::*;
use crate::time::GameDuration;

verus! {

// ---------------------------------------------------------------------------------------------
// Name-keyed tables
// ---------------------------------------------------------------------------------------------

/// The place of the name `k` among the names `ks`, if it is there.
pub open spec fn key_index(ks: Seq<Seq<char>>, k: Seq<char>) -> Option<int> {
    if exists|i: int| 0 <= i < ks.len() && ks[i] == k {
        Some(choose|i: int| 0 <= i < ks.len() && ks[i] == k)
    } else {
        None
    }
}

/// No name occurs twice.
pub open spec fn keys_distinct(ks: Seq<Seq<char>>) -> bool {
    forall|i: int, j: int| 0 <= i < j < ks.len() ==> #[trigger] ks[i] != #[trigger] ks[j]
}

/// The entries a table holds after `key` is put in with `value`: the value of an entry
/// already named `key` is replaced in place, otherwise the entry goes last.
pub open spec fn table_insert<T>(ks: Seq<Seq<char>>, vs: Seq<T>, key: Seq<char>, value: T) -> (Seq<Seq<char>>, Seq<T>) {
    match key_index(ks, key) {
        Some(i) => (ks, vs.update(i, value)),
        None => (ks.push(key), vs.push(value)),
    }
}

/// The entries a table holds after the pairs are put in, in order, into an empty one.
pub open spec fn table_of<T>(pairs: Seq<(Seq<char>, T)>) -> (Seq<Seq<char>>, Seq<T>)
    decreases pairs.len(),
{
    if pairs.len() == 0 {
        (Seq::empty(), Seq::empty())
    } else {
        let t = table_of(pairs.drop_last());
        table_insert(t.0, t.1, pairs.last().0, pairs.last().1)
    }
}

/// The pairs with their names seen as character sequences.
pub open spec fn pairs_view<T>(ps: Seq<(String, T)>) -> Seq<(Seq<char>, T)> {
    ps.map_values(|p: (String, T)| (p.0@, p.1))
}

/// A table of game data keyed by name, in the order the names first came in; each name
/// occurs once.
pub struct Table<T> {
    keys: Vec<String>,
    values: Vec<T>,
}

/// An entry of a table: its name and its value.
pub struct NamedEntry<'a, T> {
    pub key: &'a String,
    pub value: &'a T,
}

impl<'a, T> Clone for NamedEntry<'a, T> {
    fn clone(&self) -> (r: Self)
        ensures
            r == *self,
    {
        NamedEntry { key: self.key, value: self.value }
    }
}

impl<'a, T> Copy for NamedEntry<'a, T> {}

impl<'a, T> PartialEq for NamedEntry<'a, T> {
    fn eq(&self, other: &Self) -> (r: bool) {
        *self.key == *other.key
    }
}

impl<'a, T> vstd::std_specs::cmp::PartialEqSpecImpl for NamedEntry<'a, T> {
    open spec fn obeys_eq_spec() -> bool {
        true
    }

    open spec fn eq_spec(&self, other: &Self) -> bool {
        self.key@ == other.key@
    }
}

impl<'a, T> From<(&'a String, &'a T)> for NamedEntry<'a, T> {
    fn from(value: (&'a String, &'a T)) -> (r: Self) {
        NamedEntry { key: value.0, value: value.1 }
    }
}

impl<'a, T> vstd::std_specs::convert::FromSpecImpl<(&'a String, &'a T)> for NamedEntry<'a, T> {
    open spec fn obeys_from_spec() -> bool {
        true
    }

    open spec fn from_spec(v: (&'a String, &'a T)) -> Self {
        NamedEntry { key: v.0, value: v.1 }
    }
}

impl<'a, T> NamedEntry<'a, T> {
    /// The name and the value.
    pub fn into_pair(self) -> (r: (&'a String, &'a T))
        ensures
            r == (self.key, self.value),
    {
        (self.key, self.value)
    }
}

impl<T> Table<T> {
    /// The names, in order.
    pub closed spec fn keys_spec(&self) -> Seq<Seq<char>> {
        self.keys@.map_values(|k: String| k@)
    }

    /// The values, in the order of their names.
    pub closed spec fn values_spec(&self) -> Seq<T> {
        self.values@
    }

    /// As many values as names, and no name twice.
    pub closed spec fn wf(&self) -> bool {
        &&& self.keys@.len() == self.values@.len()
        &&& keys_distinct(self.keys_spec())
    }

    /// An empty table.
    pub fn new() -> (t: Self)
        ensures
            t.wf(),
            t.keys_spec().len() == 0,
            t.values_spec().len() == 0,
    {
        let t = Table { keys: Vec::new(), values: Vec::new() };
        proof {
            assert(t.keys_spec().len() == 0);
        }
        t
    }

    /// The number of entries.
    pub fn len(&self) -> (r: usize)
        requires
            self.wf(),
        ensures
            r == self.keys_spec().len(),
            r == self.values_spec().len(),
    {
        self.keys.len()
    }

    /// The place of the entry named `key`, if there is one.
    pub fn find(&self, key: &String) -> (r: Option<usize>)
        requires
            self.wf(),
        ensures
            r matches Some(i) ==> key_index(self.keys_spec(), key@) == Some(i as int),
            r is None ==> key_index(self.keys_spec(), key@) is None,
    {
        let ghost ks = self.keys_spec();
        let mut i: usize = 0;
        while i < self.keys.len()
            invariant
                i <= self.keys@.len(),
                ks == self.keys_spec(),
                ks.len() == self.keys@.len(),
                keys_distinct(ks),
                forall|j: int| 0 <= j < i ==> #[trigger] ks[j] != key@,
            decreases self.keys@.len() - i,
        {
            if self.keys[i] == *key {
                proof {
                    assert(ks[i as int] == key@);
                    let k = choose|k: int| 0 <= k < ks.len() && ks[k] == key@;
                    assert(k == i as int) by {
                        if k != i as int {
                            if k < i {
                                assert(ks[k] != key@);
                            } else {
                                assert(ks[i as int] != ks[k]);
                            }
                        }
                    }
                }
                return Some(i);
            }
            proof {
                assert(ks[i as int] == self.keys@[i as int]@);
            }
            i = i + 1;
        }
        proof {
            assert(!exists|k: int| 0 <= k < ks.len() && ks[k] == key@) by {
                if exists|k: int| 0 <= k < ks.len() && ks[k] == key@ {
                    let k = choose|k: int| 0 <= k < ks.len() && ks[k] == key@;
                    assert(ks[k] != key@);
                }
            }
        }
        None
    }

    /// Puts `value` in under `key`: an entry already named `key` has its value replaced in
    /// place, and the old value is returned; otherwise the entry goes last.
    pub fn insert(&mut self, key: String, value: T) -> (r: Option<T>)
        requires
            old(self).wf(),
        ensures
            final(self).wf(),
            (final(self).keys_spec(), final(self).values_spec())
                == table_insert(old(self).keys_spec(), old(self).values_spec(), key@, value),
            key_index(old(self).keys_spec(), key@) matches Some(i)
                ==> r == Some(old(self).values_spec()[i]),
            key_index(old(self).keys_spec(), key@) is None ==> r is None,
    {
        match self.find(&key) {
            Some(i) => {
                self.values.insert(i, value);
                let old_value = self.values.remove(i + 1);
                proof {
                    assert(self.values@ == old(self).values@.update(i as int, value));
                }
                Some(old_value)
            },
            None => {
                let ghost ks = self.keys_spec();
                let ghost k = key@;
                self.keys.push(key);
                self.values.push(value);
                proof {
                    assert(self.keys_spec() == ks.push(k));
                    assert forall|a: int, b: int| 0 <= a < b < self.keys_spec().len()
                        implies #[trigger] self.keys_spec()[a] != #[trigger] self.keys_spec()[b] by {
                        if b < ks.len() {
                            assert(ks[a] != ks[b]);
                        } else {
                            assert(ks[a] != k);
                        }
                    }
                }
                None
            },
        }
    }

    /// The table the pairs make when put in, in order, into an empty one: a name given twice
    /// keeps its first place and its last value.
    pub fn from_pairs(pairs: Vec<(String, T)>) -> (t: Self)
        ensures
            t.wf(),
            (t.keys_spec(), t.values_spec()) == table_of(pairs_view(pairs@)),
    {
        let ghost all = pairs_view(pairs@);
        let mut t = Table::new();
        let mut rest = pairs;
        let ghost mut done: int = 0;
        while rest.len() > 0
            invariant
                t.wf(),
                0 <= done <= all.len(),
                done + rest@.len() == all.len(),
                pairs_view(rest@) == all.subrange(done, all.len() as int),
                (t.keys_spec(), t.values_spec()) == table_of(all.subrange(0, done)),
            decreases rest@.len(),
        {
            let ghost before = rest@;
            let (k, v) = rest.remove(0);
            proof {
                assert(pairs_view(before)[0] == all.subrange(done, all.len() as int)[0]);
                assert(all[done] == (k@, v));
                assert(all.subrange(0, done + 1).drop_last() =~= all.subrange(0, done));
                assert(all.subrange(0, done + 1).last() == all[done]);
                assert forall|x: int| 0 <= x < rest@.len() implies #[trigger] pairs_view(rest@)[x] == all.subrange(done + 1, all.len() as int)[x] by {
                    assert(rest@[x] == before[x + 1]);
                    assert(pairs_view(before)[x + 1] == all.subrange(done, all.len() as int)[x + 1]);
                }
                assert(pairs_view(rest@) =~= all.subrange(done + 1, all.len() as int));
            }
            t.insert(k, v);
            proof {
                done = done + 1;
            }
        }
        proof {
            assert(all.subrange(0, done) =~= all);
        }
        t
    }

    /// The entry named `name`, if there is one.
    pub fn get_key_value(&self, name: &String) -> (r: Option<NamedEntry<'_, T>>)
        requires
            self.wf(),
        ensures
            key_index(self.keys_spec(), name@) matches Some(i) ==> r is Some
                && r->Some_0.key@ == name@
                && *r->Some_0.value == self.values_spec()[i],
            key_index(self.keys_spec(), name@) is None ==> r is None,
    {
        match self.find(name) {
            Some(i) => {
                proof {
                    assert(self.keys_spec()[i as int] == self.keys@[i as int]@);
                }
                Some(NamedEntry { key: &self.keys[i], value: &self.values[i] })
            },
            None => None,
        }
    }

    /// The names and the values, in order.
    pub fn into_parts(self) -> (r: (Vec<String>, Vec<T>))
        ensures
            names_view(r.0@) == self.keys_spec(),
            r.1@ == self.values_spec(),
    {
        proof {
            assert(names_view(self.keys@) =~= self.keys_spec());
        }
        (self.keys, self.values)
    }

    /// The name of the entry at `idx`.
    pub fn key_at(&self, idx: usize) -> (r: &String)
        requires
            self.wf(),
            idx < self.keys_spec().len(),
        ensures
            r@ == self.keys_spec()[idx as int],
    {
        &self.keys[idx]
    }

    /// The value of the entry at `idx`.
    pub fn value_at(&self, idx: usize) -> (r: &T)
        requires
            self.wf(),
            idx < self.values_spec().len(),
        ensures
            *r == self.values_spec()[idx as int],
    {
        &self.values[idx]
    }
}

/// What went wrong when raw game data was resolved against the tables.
#[derive(Clone, PartialEq, Eq, Debug)]
pub enum GameDataError {
    /// No entry of the table has the name.
    NotFound(String),
}

/// The entry of `map` named `name`; its absence is an error naming it.
pub fn try_get_key_value<'a, T>(map: &'a Table<T>, name: &String) -> (r: Result<NamedEntry<'a, T>, GameDataError>)
    requires
        map.wf(),
    ensures
        key_index(map.keys_spec(), name@) matches Some(i) ==> r is Ok
            && r->Ok_0.key@ == name@
            && *r->Ok_0.value == map.values_spec()[i],
        key_index(map.keys_spec(), name@) is None ==> (r matches Err(GameDataError::NotFound(n)) && n@ == name@),
{
    match map.get_key_value(name) {
        Some(x) => Ok(x),
        None => Err(GameDataError::NotFound(name.clone())),
    }
}

// ---------------------------------------------------------------------------------------------
// Skills
// ---------------------------------------------------------------------------------------------

/// A skill: the time it takes to learn it.
#[derive(Clone, Copy, PartialEq, Eq, Structural, Debug, Hash)]
pub struct Skill {
    pub time: GameDuration,
}

/// A skill as the game files give it.
#[derive(Clone, Copy, PartialEq, Eq, Structural, Debug, Hash)]
pub struct RawSkill {
    pub time: GameDuration,
}

impl Skill {
    /// The skill the raw data describes.
    pub fn from_raw(raw: RawSkill) -> (s: Self)
        ensures
            s.time == raw.time,
    {
        Skill { time: raw.time }
    }
}

// ---------------------------------------------------------------------------------------------
// Resolving names
// ---------------------------------------------------------------------------------------------

/// The value of the entry named `name`, when there is one.
pub open spec fn lookup<T>(ks: Seq<Seq<char>>, vs: Seq<T>, name: Seq<char>) -> T {
    vs[key_index(ks, name)->Some_0]
}

/// Every name is in the table.
pub open spec fn all_found(ks: Seq<Seq<char>>, names: Seq<Seq<char>>) -> bool {
    forall|i: int| 0 <= i < names.len() ==> (#[trigger] key_index(ks, names[i])) is Some
}

/// The place of the first name that is not in the table, when there is one.
pub open spec fn first_missing(ks: Seq<Seq<char>>, names: Seq<Seq<char>>) -> int {
    choose|i: int| 0 <= i < names.len() && key_index(ks, names[i]) is None
        && forall|j: int| 0 <= j < i ==> (#[trigger] key_index(ks, names[j])) is Some
}

/// An entry seen as its name and its value.
pub open spec fn entry_view<T>(e: NamedEntry<'_, T>) -> (Seq<char>, T) {
    (e.key@, *e.value)
}

/// The names, each with its value in the table.
pub open spec fn resolved<T>(ks: Seq<Seq<char>>, vs: Seq<T>, names: Seq<Seq<char>>) -> Seq<(Seq<char>, T)> {
    names.map_values(|n: Seq<char>| (n, lookup(ks, vs, n)))
}

/// The names in the order they first occur, each once.
pub open spec fn first_occurrences(names: Seq<Seq<char>>) -> Seq<Seq<char>> {
    table_of(names.map_values(|n: Seq<char>| (n, ()))).0
}

/// The names of a list of strings.
pub open spec fn names_view(ns: Seq<String>) -> Seq<Seq<char>> {
    ns.map_values(|n: String| n@)
}

/// The error naming the first missing name.
pub open spec fn missing_error(ks: Seq<Seq<char>>, names: Seq<Seq<char>>, r: GameDataError) -> bool {
    r matches GameDataError::NotFound(n) && n@ == names[first_missing(ks, names)]
}

proof fn lemma_first_missing_is(ks: Seq<Seq<char>>, names: Seq<Seq<char>>, i: int)
    requires
        0 <= i < names.len(),
        key_index(ks, names[i]) is None,
        forall|j: int| 0 <= j < i ==> (#[trigger] key_index(ks, names[j])) is Some,
    ensures
        first_missing(ks, names) == i,
        !all_found(ks, names),
{
    let k = first_missing(ks, names);
    assert(0 <= k < names.len() && key_index(ks, names[k]) is None
        && forall|j: int| 0 <= j < k ==> (#[trigger] key_index(ks, names[j])) is Some);
    if k < i {
        assert(key_index(ks, names[k]) is Some);
    }
    if k > i {
        assert(key_index(ks, names[i]) is Some);
    }
}

/// The entries of `map` named by `names`, in order; the first missing name is an error.
fn resolve_names<'a, T>(map: &'a Table<T>, names: &Vec<String>) -> (r: Result<Vec<NamedEntry<'a, T>>, GameDataError>)
    requires
        map.wf(),
    ensures
        all_found(map.keys_spec(), names_view(names@)) ==> r is Ok
            && r->Ok_0@.map_values(|e: NamedEntry<'a, T>| entry_view(e))
                == resolved(map.keys_spec(), map.values_spec(), names_view(names@)),
        !all_found(map.keys_spec(), names_view(names@)) ==> r is Err
            && missing_error(map.keys_spec(), names_view(names@), r->Err_0),
{
    let ghost ns = names_view(names@);
    let ghost ks = map.keys_spec();
    let mut out: Vec<NamedEntry<'a, T>> = Vec::new();
    let mut i: usize = 0;
    while i < names.len()
        invariant
            map.wf(),
            ks == map.keys_spec(),
            ns == names_view(names@),
            i <= names@.len(),
            out@.len() == i,
            forall|j: int| 0 <= j < i ==> (#[trigger] key_index(ks, ns[j])) is Some,
            forall|j: int| 0 <= j < i ==> #[trigger] entry_view(out@[j]) == (ns[j], lookup(ks, map.values_spec(), ns[j])),
        decreases names@.len() - i,
    {
        match try_get_key_value(map, &names[i]) {
            Ok(e) => {
                out.push(e);
            },
            Err(err) => {
                proof {
                    lemma_first_missing_is(ks, ns, i as int);
                }
                return Err(err);
            },
        }
        i = i + 1;
    }
    proof {
        assert(out@.map_values(|e: NamedEntry<'a, T>| entry_view(e)) =~= resolved(ks, map.values_spec(), ns));
    }
    Ok(out)
}

/// The entries of `map` named by `names`, each once, in the order the names first occur; the
/// first missing name is an error.
fn resolve_unique<'a, T>(map: &'a Table<T>, names: &Vec<String>) -> (r: Result<Vec<NamedEntry<'a, T>>, GameDataError>)
    requires
        map.wf(),
    ensures
        all_found(map.keys_spec(), names_view(names@)) ==> r is Ok
            && r->Ok_0@.map_values(|e: NamedEntry<'a, T>| entry_view(e))
                == resolved(map.keys_spec(), map.values_spec(), first_occurrences(names_view(names@))),
        !all_found(map.keys_spec(), names_view(names@)) ==> r is Err
            && missing_error(map.keys_spec(), names_view(names@), r->Err_0),
{
    let entries = resolve_names(map, names)?;
    let ghost ns = names_view(names@);
    let ghost ks = map.keys_spec();
    let ghost units = ns.map_values(|n: Seq<char>| (n, ()));
    proof {
        assert(entries@.map_values(|e: NamedEntry<'a, T>| entry_view(e)).len() == entries@.len());
        assert(resolved(ks, map.values_spec(), ns).len() == ns.len());
    }
    let mut seen: Table<()> = Table::new();
    let mut out: Vec<NamedEntry<'a, T>> = Vec::new();
    let mut i: usize = 0;
    while i < entries.len()
        invariant
            map.wf(),
            seen.wf(),
            ks == map.keys_spec(),
            ns == names_view(names@),
            units == ns.map_values(|n: Seq<char>| (n, ())),
            all_found(ks, ns),
            entries@.map_values(|e: NamedEntry<'a, T>| entry_view(e)) == resolved(ks, map.values_spec(), ns),
            entries@.len() == ns.len(),
            i <= ns.len(),
            (seen.keys_spec(), seen.values_spec()) == table_of(units.subrange(0, i as int)),
            out@.len() == seen.keys_spec().len(),
            forall|j: int| 0 <= j < out@.len() ==> #[trigger] entry_view(out@[j])
                == (seen.keys_spec()[j], lookup(ks, map.values_spec(), seen.keys_spec()[j])),
        decreases ns.len() - i,
    {
        let e = entries[i];
        let ghost before = seen.keys_spec();
        proof {
            assert(entry_view(e) == resolved(ks, map.values_spec(), ns)[i as int]);
            assert(units.subrange(0, i + 1).drop_last() =~= units.subrange(0, i as int));
            assert(units.subrange(0, i + 1).last() == (ns[i as int], ()));
        }
        let key = e.key.clone();
        if seen.insert(key, ()).is_none() {
            out.push(e);
            proof {
                assert(seen.keys_spec() == before.push(ns[i as int]));
            }
        } else {
            proof {
                assert(seen.keys_spec() == before);
            }
        }
        i = i + 1;
    }
    proof {
        assert(units.subrange(0, ns.len() as int) =~= units);
        assert(out@.map_values(|e: NamedEntry<'a, T>| entry_view(e))
            =~= resolved(ks, map.values_spec(), first_occurrences(ns)));
    }
    Ok(out)
}

/// A job of a building as the game files give it: how many workers it takes, and possibly
/// the skills the workers learn on it.
#[derive(Clone, PartialEq, Eq, Debug)]
pub enum RawBuildingJob {
    Regular(u32),
    Advanced { amount: u32, learned_skills: Vec<String> },
}

/// A job of a building: how many workers it takes and the skills they learn on it.
pub struct BuildingJob<'a> {
    pub amount: u32,
    pub learned_skills: Vec<NamedEntry<'a, Skill>>,
}

/// The places, in the table, of the names that are in it, in the order of the names.
pub open spec fn found_names(ks: Seq<Seq<char>>, names: Seq<Seq<char>>) -> Seq<Seq<char>>
    decreases names.len(),
{
    if names.len() == 0 {
        Seq::empty()
    } else {
        let rest = found_names(ks, names.drop_last());
        if key_index(ks, names.last()) is Some {
            rest.push(names.last())
        } else {
            rest
        }
    }
}

/// The job `j` is what the raw data `raw` describes: the same number of workers, and as
/// learned skills those of the named skills that are in `skills`, in order.
pub open spec fn building_job_of<'a>(j: BuildingJob<'a>, raw: RawBuildingJob, skills: Table<Skill>) -> bool {
    match raw {
        RawBuildingJob::Regular(amount) => j.amount == amount && j.learned_skills@.len() == 0,
        RawBuildingJob::Advanced { amount, learned_skills } => j.amount == amount
            && j.learned_skills@.map_values(|e: NamedEntry<'a, Skill>| entry_view(e))
                == resolved(skills.keys_spec(), skills.values_spec(), found_names(skills.keys_spec(), names_view(learned_skills@))),
    }
}

impl<'a> BuildingJob<'a> {
    /// The job the raw data describes: its learned skills are those of the named skills that
    /// are in `skills`, in order; names not found are left out.
    pub fn from_raw(raw: RawBuildingJob, skills: &'a Table<Skill>) -> (j: Self)
        requires
            skills.wf(),
        ensures
            building_job_of(j, raw, *skills),
    {
        match raw {
            RawBuildingJob::Regular(amount) => BuildingJob { amount, learned_skills: Vec::new() },
            RawBuildingJob::Advanced { amount, learned_skills } => {
                let ghost ns = names_view(learned_skills@);
                let ghost ks = skills.keys_spec();
                let mut out: Vec<NamedEntry<'a, Skill>> = Vec::new();
                let mut i: usize = 0;
                while i < learned_skills.len()
                    invariant
                        skills.wf(),
                        ks == skills.keys_spec(),
                        ns == names_view(learned_skills@),
                        i <= ns.len(),
                        out@.map_values(|e: NamedEntry<'a, Skill>| entry_view(e))
                            == resolved(ks, skills.values_spec(), found_names(ks, ns.subrange(0, i as int))),
                    decreases ns.len() - i,
                {
                    proof {
                        assert(ns.subrange(0, i + 1).drop_last() =~= ns.subrange(0, i as int));
                        assert(ns.subrange(0, i + 1).last() == ns[i as int]);
                    }
                    match skills.get_key_value(&learned_skills[i]) {
                        Some(e) => {
                            let ghost before = out@;
                            out.push(e);
                            proof {
                                assert(out@.map_values(|e: NamedEntry<'a, Skill>| entry_view(e))
                                    =~= before.map_values(|e: NamedEntry<'a, Skill>| entry_view(e)).push(entry_view(e)));
                                assert(resolved(ks, skills.values_spec(), found_names(ks, ns.subrange(0, i + 1)))
                                    =~= resolved(ks, skills.values_spec(), found_names(ks, ns.subrange(0, i as int))).push(entry_view(e)));
                            }
                        },
                        None => {},
                    }
                    i = i + 1;
                }
                proof {
                    assert(ns.subrange(0, ns.len() as int) =~= ns);
                }
                BuildingJob { amount, learned_skills: out }
            },
        }
    }
}

/// A resolved entry with the value it carries, seen as its name, its table value and that
/// value.
pub open spec fn carried_view<T, V>(p: (NamedEntry<'_, T>, V)) -> (Seq<char>, T, V) {
    (p.0.key@, *p.0.value, p.1)
}

/// The names, each with its value in the table and the value it carries.
pub open spec fn resolved_with<T, V>(ks: Seq<Seq<char>>, vs: Seq<T>, names: Seq<Seq<char>>, ws: Seq<V>) -> Seq<(Seq<char>, T, V)> {
    Seq::new(names.len(), |i: int| (names[i], lookup(ks, vs, names[i]), ws[i]))
}

/// Each entry of `carried`, in order, resolved against `map` and carrying its value; the
/// first name of `carried` missing from `map` is an error.
fn resolve_table<'a, T, V: Copy>(map: &'a Table<T>, carried: &Table<V>) -> (r: Result<Vec<(NamedEntry<'a, T>, V)>, GameDataError>)
    requires
        map.wf(),
        carried.wf(),
    ensures
        all_found(map.keys_spec(), carried.keys_spec()) ==> r is Ok
            && r->Ok_0@.map_values(|p: (NamedEntry<'a, T>, V)| carried_view(p))
                == resolved_with(map.keys_spec(), map.values_spec(), carried.keys_spec(), carried.values_spec()),
        !all_found(map.keys_spec(), carried.keys_spec()) ==> r is Err
            && missing_error(map.keys_spec(), carried.keys_spec(), r->Err_0),
{
    let ghost ks = map.keys_spec();
    let ghost ns = carried.keys_spec();
    let mut out: Vec<(NamedEntry<'a, T>, V)> = Vec::new();
    let mut i: usize = 0;
    let n = carried.len();
    while i < n
        invariant
            map.wf(),
            carried.wf(),
            ks == map.keys_spec(),
            ns == carried.keys_spec(),
            n == ns.len(),
            i <= n,
            out@.len() == i,
            forall|j: int| 0 <= j < i ==> (#[trigger] key_index(ks, ns[j])) is Some,
            forall|j: int| 0 <= j < i ==> #[trigger] carried_view(out@[j])
                == (ns[j], lookup(ks, map.values_spec(), ns[j]), carried.values_spec()[j]),
        decreases n - i,
    {
        let name = carried.key_at(i);
        match try_get_key_value(map, name) {
            Ok(e) => {
                let w = *carried.value_at(i);
                out.push((e, w));
            },
            Err(err) => {
                proof {
                    lemma_first_missing_is(ks, ns, i as int);
                }
                return Err(err);
            },
        }
        i = i + 1;
    }
    proof {
        assert(out@.map_values(|p: (NamedEntry<'a, T>, V)| carried_view(p))
            =~= resolved_with(ks, map.values_spec(), ns, carried.values_spec()));
    }
    Ok(out)
}

/// How a job is taught as the game files give it: a list of skills, or skills with weights.
pub enum RawJobSkills<W> {
    Regular(Vec<String>),
    Weighted(Table<W>),
}

/// A job as the game files give it.
pub struct RawJob<W> {
    pub skills: RawJobSkills<W>,
}

/// A job: the skills it uses, each once, with their weights.
pub struct Job<'a, W> {
    pub skills: Vec<(NamedEntry<'a, Skill>, W)>,
}

/// The skills of a job built from `raw`, each with its weight: a plain list gives each of its
/// skills, once and in the order they first occur, the weight `one`.
pub open spec fn job_skills_of<W>(raw: RawJobSkills<W>, skills: Table<Skill>, one: W) -> Result<Seq<(Seq<char>, Skill, W)>, ()> {
    match raw {
        RawJobSkills::Regular(names) => {
            let ns = names_view(names@);
            if all_found(skills.keys_spec(), ns) {
                let firsts = first_occurrences(ns);
                Ok(resolved_with(skills.keys_spec(), skills.values_spec(), firsts, Seq::new(firsts.len(), |i: int| one)))
            } else {
                Err(())
            }
        },
        RawJobSkills::Weighted(t) => {
            if all_found(skills.keys_spec(), t.keys_spec()) {
                Ok(resolved_with(skills.keys_spec(), skills.values_spec(), t.keys_spec(), t.values_spec()))
            } else {
                Err(())
            }
        },
    }
}

/// The names of a job's raw skills, in order.
pub open spec fn job_skill_names<W>(raw: RawJobSkills<W>) -> Seq<Seq<char>> {
    match raw {
        RawJobSkills::Regular(names) => names_view(names@),
        RawJobSkills::Weighted(t) => t.keys_spec(),
    }
}

impl<'a, W: Copy> Job<'a, W> {
    /// The job the raw data describes, its skills resolved against `skills`; a plain list of
    /// skills weighs each `one`. The first skill name not in `skills` is an error.
    pub fn from_raw(raw: RawJob<W>, skills: &'a Table<Skill>, one: W) -> (r: Result<Self, GameDataError>)
        requires
            skills.wf(),
            raw.skills matches RawJobSkills::Weighted(t) ==> t.wf(),
        ensures
            job_skills_of(raw.skills, *skills, one) matches Ok(v) ==> r is Ok
                && r->Ok_0.skills@.map_values(|p: (NamedEntry<'a, Skill>, W)| carried_view(p)) == v,
            job_skills_of(raw.skills, *skills, one) is Err ==> r is Err
                && missing_error(skills.keys_spec(), job_skill_names(raw.skills), r->Err_0),
    {
        let skills = Self::raw_skills(raw.skills, skills, one)?;
        Ok(Job { skills })
    }

    fn raw_skills(raw: RawJobSkills<W>, skills: &'a Table<Skill>, one: W) -> (r: Result<Vec<(NamedEntry<'a, Skill>, W)>, GameDataError>)
        requires
            skills.wf(),
            raw matches RawJobSkills::Weighted(t) ==> t.wf(),
        ensures
            job_skills_of(raw, *skills, one) matches Ok(v) ==> r is Ok
                && r->Ok_0@.map_values(|p: (NamedEntry<'a, Skill>, W)| carried_view(p)) == v,
            job_skills_of(raw, *skills, one) is Err ==> r is Err
                && missing_error(skills.keys_spec(), job_skill_names(raw), r->Err_0),
    {
        match raw {
            RawJobSkills::Regular(names) => {
                let entries = resolve_unique(skills, &names)?;
                let ghost firsts = first_occurrences(names_view(names@));
                let ghost ks = skills.keys_spec();
                let mut out: Vec<(NamedEntry<'a, Skill>, W)> = Vec::new();
                let mut i: usize = 0;
                proof {
                    assert(entries@.map_values(|e: NamedEntry<'a, Skill>| entry_view(e)).len() == entries@.len());
                }
                while i < entries.len()
                    invariant
                        i <= entries@.len(),
                        entries@.map_values(|e: NamedEntry<'a, Skill>| entry_view(e)) == resolved(ks, skills.values_spec(), firsts),
                        entries@.len() == firsts.len(),
                        out@.len() == i,
                        forall|j: int| 0 <= j < i ==> #[trigger] carried_view(out@[j])
                            == (firsts[j], lookup(ks, skills.values_spec(), firsts[j]), one),
                    decreases entries@.len() - i,
                {
                    let e = entries[i];
                    proof {
                        assert(entry_view(e) == resolved(ks, skills.values_spec(), firsts)[i as int]);
                    }
                    out.push((e, one));
                    i = i + 1;
                }
                proof {
                    assert(out@.map_values(|p: (NamedEntry<'a, Skill>, W)| carried_view(p))
                        =~= resolved_with(ks, skills.values_spec(), firsts, Seq::new(firsts.len(), |i: int| one)));
                }
                Ok(out)
            },
            RawJobSkills::Weighted(t) => resolve_table(skills, &t),
        }
    }
}

/// A building as the game files give it: what it consumes and produces, by good name, its
/// jobs, by job name, and possibly the skills learned in it.
pub struct RawBuilding {
    pub consumption: Table<u32>,
    pub production: Table<u32>,
    pub jobs: Table<RawBuildingJob>,
    pub learned_skills: Option<Vec<String>>,
}

/// A building: the goods it consumes and produces, with their amounts, its jobs, and the
/// skills learned in it, each once.
pub struct Building<'a, G, J> {
    pub consumption: Vec<(NamedEntry<'a, G>, u32)>,
    pub production: Vec<(NamedEntry<'a, G>, u32)>,
    pub jobs: Vec<(NamedEntry<'a, J>, BuildingJob<'a>)>,
    pub learned_skills: Option<Vec<NamedEntry<'a, Skill>>>,
}

/// Every name the raw building uses is found: goods for what it consumes and produces, jobs
/// for its jobs and skills for what is learned in it.
pub open spec fn building_resolves<G, J>(raw: RawBuilding, goods: Table<G>, jobs: Table<J>, skills: Table<Skill>) -> bool {
    &&& all_found(goods.keys_spec(), raw.consumption.keys_spec())
    &&& all_found(goods.keys_spec(), raw.production.keys_spec())
    &&& all_found(jobs.keys_spec(), raw.jobs.keys_spec())
    &&& (raw.learned_skills matches Some(ls) ==> all_found(skills.keys_spec(), names_view(ls@)))
}

/// The error resolving the raw building gives: the first name missing from what it
/// consumes, else from what it produces, else from its jobs, else from its learned skills.
pub open spec fn building_error<G, J>(raw: RawBuilding, goods: Table<G>, jobs: Table<J>, skills: Table<Skill>, e: GameDataError) -> bool {
    if !all_found(goods.keys_spec(), raw.consumption.keys_spec()) {
        missing_error(goods.keys_spec(), raw.consumption.keys_spec(), e)
    } else if !all_found(goods.keys_spec(), raw.production.keys_spec()) {
        missing_error(goods.keys_spec(), raw.production.keys_spec(), e)
    } else if !all_found(jobs.keys_spec(), raw.jobs.keys_spec()) {
        missing_error(jobs.keys_spec(), raw.jobs.keys_spec(), e)
    } else {
        raw.learned_skills matches Some(ls) && missing_error(skills.keys_spec(), names_view(ls@), e)
    }
}

impl<'a, G, J> Building<'a, G, J> {
    /// The building the raw data describes, each name resolved against its table: goods for
    /// what it consumes and produces, jobs for its jobs, skills for what its jobs teach and
    /// what is learned in it. The first name not found is an error.
    pub fn from_raw(raw: RawBuilding, goods: &'a Table<G>, jobs: &'a Table<J>, skills: &'a Table<Skill>) -> (r: Result<Self, GameDataError>)
        requires
            goods.wf(),
            jobs.wf(),
            skills.wf(),
            raw.consumption.wf(),
            raw.production.wf(),
            raw.jobs.wf(),
        ensures
            building_resolves(raw, *goods, *jobs, *skills) ==> r is Ok && {
                let b = r->Ok_0;
                &&& b.consumption@.map_values(|p: (NamedEntry<'a, G>, u32)| carried_view(p))
                    == resolved_with(goods.keys_spec(), goods.values_spec(), raw.consumption.keys_spec(), raw.consumption.values_spec())
                &&& b.production@.map_values(|p: (NamedEntry<'a, G>, u32)| carried_view(p))
                    == resolved_with(goods.keys_spec(), goods.values_spec(), raw.production.keys_spec(), raw.production.values_spec())
                &&& b.jobs@.len() == raw.jobs.keys_spec().len()
                &&& forall|i: int| 0 <= i < b.jobs@.len() ==> {
                    &&& entry_view(#[trigger] b.jobs@[i].0) == (raw.jobs.keys_spec()[i], lookup(jobs.keys_spec(), jobs.values_spec(), raw.jobs.keys_spec()[i]))
                    &&& building_job_of(b.jobs@[i].1, raw.jobs.values_spec()[i], *skills)
                }
                &&& match raw.learned_skills {
                    None => b.learned_skills is None,
                    Some(ls) => b.learned_skills matches Some(l)
                        && l@.map_values(|e: NamedEntry<'a, Skill>| entry_view(e))
                            == resolved(skills.keys_spec(), skills.values_spec(), first_occurrences(names_view(ls@))),
                }
            },
            !building_resolves(raw, *goods, *jobs, *skills) ==> r is Err
                && building_error(raw, *goods, *jobs, *skills, r->Err_0),
    {
        let consumption = resolve_table(goods, &raw.consumption)?;
        let production = resolve_table(goods, &raw.production)?;

        let ghost jks = raw.jobs.keys_spec();
        let ghost jvs = raw.jobs.values_spec();
        let (job_names, job_data) = raw.jobs.into_parts();
        let mut rest = job_data;
        let mut built: Vec<(NamedEntry<'a, J>, BuildingJob<'a>)> = Vec::new();
        let mut i: usize = 0;
        let n = job_names.len();
        while i < n
            invariant
                jobs.wf(),
                skills.wf(),
                all_found(goods.keys_spec(), raw.consumption.keys_spec()),
                all_found(goods.keys_spec(), raw.production.keys_spec()),
                jks == raw.jobs.keys_spec(),
                names_view(job_names@) == jks,
                n == jks.len(),
                jvs.len() == jks.len(),
                i <= n,
                rest@ == jvs.subrange(i as int, jvs.len() as int),
                built@.len() == i,
                forall|j: int| 0 <= j < i ==> (#[trigger] key_index(jobs.keys_spec(), jks[j])) is Some,
                forall|j: int| 0 <= j < i ==> {
                    &&& entry_view(#[trigger] built@[j].0) == (jks[j], lookup(jobs.keys_spec(), jobs.values_spec(), jks[j]))
                    &&& building_job_of(built@[j].1, jvs[j], *skills)
                },
            decreases n - i,
        {
            proof {
                assert(names_view(job_names@)[i as int] == job_names@[i as int]@);
            }
            let job = match try_get_key_value(jobs, &job_names[i]) {
                Ok(e) => e,
                Err(err) => {
                    proof {
                        lemma_first_missing_is(jobs.keys_spec(), jks, i as int);
                    }
                    return Err(err);
                },
            };
            let ghost before = rest@;
            let data = rest.remove(0);
            proof {
                assert(data == jvs[i as int]);
                assert(rest@ =~= jvs.subrange(i + 1, jvs.len() as int));
            }
            let building_job = BuildingJob::from_raw(data, skills);
            built.push((job, building_job));
            i = i + 1;
        }

        let learned_skills = match raw.learned_skills {
            Some(names) => Some(resolve_unique(skills, &names)?),
            None => None,
        };
        Ok(Building { consumption, production, jobs: built, learned_skills })
    }
}

} // verus!
