use gamesim::device::{Device, PhysicalDevice};
use gamesim::error::{Error, ERROR_DEVICE_LOST, ERROR_UNKNOWN, NOT_READY, SUCCESS, TIMEOUT};
use gamesim::event::{Event, EventTimeoutError};
use gamesim::game_data::{
    try_get_key_value, Building, BuildingJob, GameDataError, Job, RawBuilding, RawBuildingJob, RawJob, RawJobSkills,
    RawSkill, Skill, Table,
};
use gamesim::math::CheckedArith;
use gamesim::names::{by_parts, entry_names};
use gamesim::person::{generate_person, Person, PersonStats, AGE_LIMIT_DAYS};
use gamesim::population::{accumulate_person, chunk_size_for, Population, PopulationCountStats, PopulationMeanStats, MAX_AGE};
use gamesim::rand::{jump_word, rotate_left, Random};
use gamesim::shared::{ExternBool, ExternMutex};
use gamesim::simd::u32x4;
use gamesim::sync::{Fence, TimeoutWait};
use gamesim::time::{GameDuration, GameDurationDeser};
use gamesim::utils::{spv_words_be, spv_words_le, u64_to_u32, u64_to_usize, usize_to_u32, UpQueue};

fn skill(days: u16) -> Skill {
    Skill::from_raw(RawSkill { time: GameDuration::from_days(days) })
}

fn skills() -> Table<Skill> {
    Table::from_pairs(vec![("smithing".to_string(), skill(30)), ("farming".to_string(), skill(7))])
}

#[test]
fn durations_from_parts() {
    assert_eq!(GameDuration::new(1, 1, 1, 1).as_days(), 1 + 7 + 30 + 365);
    assert_eq!(GameDuration::from_weeks(3).as_days(), 21);
    assert_eq!(GameDuration::from_months(2).as_days(), 60);
    assert_eq!(GameDuration::from_years(2).as_days(), 730);
    let d = GameDuration::from_days(800);
    assert_eq!(d.as_weeks(), 114);
    assert_eq!(d.as_months(), 26);
    assert_eq!(d.as_years(), 2);
    assert_eq!(GameDuration::default().as_days(), 0);
    assert_eq!(GameDuration::from_weeks(5).as_weeks(), 5);
    assert_eq!(GameDuration::from_years(3).as_years(), 3);
}

#[test]
fn durations_add_and_subtract() {
    let a = GameDuration::from_days(10);
    let b = GameDuration::from_days(4);
    assert_eq!((a + b).as_days(), 14);
    assert_eq!((a - b).as_days(), 6);
    assert_eq!((a + b) - b, a);
    let mut c = a;
    c.add_assign(b);
    assert_eq!(c.as_days(), 14);
    c.sub_assign(a);
    assert_eq!(c, b);
    assert!(GameDuration::from_days(3) < GameDuration::from_days(4));
}

#[test]
fn durations_written_down() {
    assert_eq!(GameDuration::from_deser(GameDurationDeser::Days(12)).as_days(), 12);
    let parts = GameDurationDeser::Parts { days: 2, weeks: 1, months: 0, years: 1 };
    assert_eq!(GameDuration::from_deser(parts).as_days(), 374);
}

#[test]
fn random_sequence_from_seed() {
    let mut r = Random::from_seed([1, 2, 3, 4]);
    assert_eq!(r.next_u32(), 641);
    assert_eq!(r.next_u32(), 1573767);
    assert_eq!(r.next_u32(), 3222811527);
    assert_eq!(r.next_u32(), 3517856514);
    let mut r = Random::from_seed([1, 2, 3, 4]);
    assert_eq!(r.next_u64(), 2753075610503);
    let mut r = Random::from_seed([1, 2, 3, 4]);
    assert!(!r.next_bool());
    let mut r = Random::from_seed([1, 2, 3, 4]);
    assert_eq!(r.next_u8(), (641 % 256) as u8);
    let mut r = Random::from_seed([1, 2, 3, 4]);
    assert_eq!(r.next_u16(), 641);
}

#[test]
fn random_jump_and_entropy() {
    let mut r = Random::from_seed([1, 2, 3, 4]);
    r.jump();
    assert_eq!(r.next_u32(), 3129740764);
    let mut e = Random::from_entropy([1, 2, 3, 4], 5);
    assert_eq!(e.next_u32(), 523074277);
    let mut same = Random::from_seed([1, 2, 3, 4]);
    same.apply_entropy(5);
    assert_eq!(same.next_u32(), 523074277);
    // A state of zeros stays zero.
    let mut z = Random::from_seed([0, 0, 0, 0]);
    z.jump();
    assert_eq!(z.next_u32(), 0);
}

#[test]
fn random_helpers() {
    assert_eq!(rotate_left(0x8000_0001, 1), 0x0000_0003);
    assert_eq!(rotate_left(1, 31), 0x8000_0000);
    assert_eq!(jump_word(0), 0x8764000b);
    assert_eq!(jump_word(3), 0x77f2db5b);
}

#[test]
fn people_generated_from_seed() {
    let p = generate_person([1, 2, 3, 4], 0, 0);
    assert!(p.is_male.get());
    assert_eq!(p.age.as_days(), 14462);
    assert_eq!(
        p.stats,
        PersonStats { cordiality: 194, intelligence: 1, knowledge: 13, finesse: 98, gullability: 205, health: 238 }
    );
    let q = generate_person([1, 2, 3, 4], 10, 5);
    assert!(!q.is_male.get());
    assert_eq!(q.age.as_days(), 6443);
    assert_eq!(
        q.stats,
        PersonStats { cordiality: 181, intelligence: 241, knowledge: 224, finesse: 57, gullability: 126, health: 198 }
    );
    assert_eq!(generate_person([1, 2, 3, 4], 5, 10), q);
    assert!(p.age.as_days() < AGE_LIMIT_DAYS);
}

#[test]
fn population_sums() {
    let mut stats = PopulationMeanStats::default();
    let a = Person {
        is_male: ExternBool::new(true),
        age: GameDuration::from_days(100),
        stats: PersonStats { cordiality: 10, intelligence: 20, knowledge: 30, finesse: 40, gullability: 50, health: 60 },
    };
    let b = Person { is_male: ExternBool::new(false), ..a };
    accumulate_person(&mut stats, &a);
    accumulate_person(&mut stats, &b);
    assert_eq!(stats.males, 1);
    assert_eq!(stats.stats.cordiality, 20);
    assert_eq!(stats.stats.health, 120);
    let mut full = PopulationMeanStats { males: u64::MAX, ..PopulationMeanStats::default() };
    accumulate_person(&mut full, &a);
    assert_eq!(full.males, 0);
    let counts = PopulationCountStats::default();
    assert_eq!(counts.ages.len(), MAX_AGE + 1);
    assert!(counts.stats.health.iter().all(|c| *c == 0));
}

#[test]
fn population_chunks() {
    assert_eq!(chunk_size_for(1 << 30, 4096, 10), (1 << 30) / (4096 * 10));
    let p = Population::new(25, 10);
    assert_eq!(p.len(), 25);
    assert_eq!(p.capacity(), 30);
    assert_eq!(p.chunk_lengths(), vec![10, 10, 5]);
    let exact = Population::new(20, 10);
    assert_eq!(exact.chunk_lengths(), vec![10, 10]);
    assert_eq!(Population::new(0, 10).chunk_lengths(), Vec::<u64>::new());
}

#[test]
fn population_reserve_makes_room() {
    let mut p = Population::new(25, 10);
    assert_eq!(p.reserve(5), 0);
    assert_eq!(p.capacity(), 30);
    assert_eq!(p.reserve(6), 1);
    assert_eq!(p.capacity(), 40);
    assert_eq!(p.reserve(40), 3);
    assert!(p.capacity() >= p.len() + 40);
    assert_eq!(p.len(), 25);
}

#[test]
fn simd_lanes() {
    let a = u32x4::from_array([1, 2, 3, u32::MAX]);
    let b = u32x4::from_array([4, 5, 6, 2]);
    assert_eq!((a.x(), a.y(), a.z(), a.w()), (1, 2, 3, u32::MAX));
    assert_eq!(a.reduce_sum(), 5);
    assert_eq!(a.dot(b), 32u32.wrapping_add(u32::MAX.wrapping_mul(2)));
    let s = a + b;
    assert_eq!((s.x(), s.w()), (5, 1));
    let m = a * b;
    assert_eq!((m.y(), m.z()), (10, 18));
    let x = a ^ b;
    assert_eq!(x.x(), 5);
    let mut c = u32x4::zero();
    c.set_x(7);
    c.set_w(9);
    c.add_assign(a);
    assert_eq!((c.x(), c.y(), c.w()), (8, 2, 8));
    c.bitxor_assign(c);
    assert_eq!(c.reduce_sum(), 0);
    assert_eq!(u32x4::default().reduce_sum(), 0);
}

#[test]
fn checked_add_flag_is_inverted() {
    // The flag is set when the sum grows, so fitting sums give `None`.
    assert_eq!(CheckedArith::checked_add(200u8, 10u8), None);
    assert_eq!(CheckedArith::checked_add(250u8, 10u8), Some(4u8));
    assert_eq!(CheckedArith::checked_add(7u8, 0u8), Some(7u8));
    assert_eq!(CheckedArith::overflowing_add(u32::MAX, 1u32), (0, false));
    assert_eq!(CheckedArith::overflowing_add(1u32, 1u32), (2, true));
    assert_eq!(CheckedArith::overflowing_add(-1i8, 1i8), (0, false));
    assert_eq!(CheckedArith::overflowing_add(1i16, 2i16), (3, true));
    assert_eq!(CheckedArith::checked_add(-2i32, 1i32), None);
}

#[test]
fn extern_bool_and_mutex() {
    let mut b = ExternBool::new(false);
    assert!(!b.get());
    b.set();
    assert!(b.get());
    assert!(!ExternBool::default().get());
    assert!(ExternBool::from(true).get());
    assert!(ExternMutex::new().is_unlocked());
}

#[test]
fn command_names_by_parts() {
    assert_eq!(by_parts("vkCreateDevice"), vec!["Create".to_string(), "Device".to_string()]);
    assert_eq!(by_parts("vkGetPhysicalDeviceProperties2"), vec!["Get", "Physical", "Device", "Properties2"]);
    assert_eq!(by_parts("vkcmd"), vec!["cmd"]);
}

#[test]
fn spirv_words() {
    let bytes = [0x03u8, 0x02, 0x23, 0x07, 0x00, 0x00, 0x01, 0x00];
    assert_eq!(spv_words_le(&bytes), Some(vec![0x0723_0203, 0x0001_0000]));
    assert_eq!(spv_words_be(&bytes), Some(vec![0x0302_2307, 0x0000_0100]));
    assert_eq!(spv_words_le(&bytes[..5]), None);
    assert_eq!(spv_words_le(&[]), Some(vec![]));
}

#[test]
fn integer_conversions() {
    assert_eq!(usize_to_u32(7), 7);
    assert_eq!(u64_to_u32(u32::MAX as u64), u32::MAX);
    assert_eq!(u64_to_usize(9), 9);
}

#[test]
fn up_queue_grows_to_capacity() {
    let mut q = UpQueue::new(2);
    assert_eq!(q.try_push('a'), Ok(0));
    assert_eq!(q.try_push('b'), Ok(1));
    assert_eq!(q.try_push('c'), Err('c'));
    assert_eq!((q.len(), q.capacity()), (2, 2));
    assert_eq!(q.get(1), Some(&'b'));
    assert_eq!(q.get(2), None);
    assert_eq!(q.get_unchecked(0), &'a');
    let mut it = q.iter();
    assert_eq!(it.len(), 2);
    assert_eq!(it.next_back(), Some(&'b'));
    assert_eq!(it.next(), Some(&'a'));
    assert_eq!(it.next(), None);
    let mut skip = q.iter();
    assert_eq!(skip.nth(1), Some(&'b'));
    assert_eq!(skip.len(), 0);
    let mut skip = q.iter();
    assert_eq!(skip.nth(2), None);
    assert_eq!(skip.next_back(), None);
    let mut back = q.iter_indexed();
    assert_eq!(back.nth_back(1), Some((0, &'a')));
    assert_eq!(back.nth_back(0), None);
    let mut ix = q.iter_indexed();
    assert_eq!(ix.next(), Some((0, &'a')));
    assert_eq!(ix.next_back(), Some((1, &'b')));
    assert_eq!(ix.len(), 0);
}

fn fence(id: u64) -> Fence {
    let device = Device::from_created(SUCCESS, 77, PhysicalDevice::from_handle(9)).unwrap();
    Fence::from_created(SUCCESS, id, device).unwrap()
}

#[test]
fn fence_codes() {
    assert_eq!(fence(3).id(), 3);
    assert_eq!(fence(3).device().id(), 77);
    assert!(Fence::is_signaled(SUCCESS));
    assert!(Fence::is_unsignaled(NOT_READY));
    assert!(!Fence::is_signaled(NOT_READY));
    assert_eq!(Fence::status(ERROR_DEVICE_LOST), Err(Error::Vulkan(ERROR_DEVICE_LOST)));
    assert_eq!(Fence::reset(SUCCESS), Ok(()));
    assert_eq!(Fence::wait(TIMEOUT), None);
    assert_eq!(Fence::wait(SUCCESS), Some(Ok(())));
    assert_eq!(Fence::wait_nanos(TIMEOUT), Ok(false));
    let device = Device::from_created(SUCCESS, 77, PhysicalDevice::from_handle(9)).unwrap();
    assert!(matches!(Fence::from_created(SUCCESS, 0, device), Err(Error::Vulkan(ERROR_UNKNOWN))));
}

#[test]
fn long_timeouts_are_split() {
    let nanos = (u64::MAX as u128) * 2 + 5;
    let mut w = TimeoutWait::wait_timeout(nanos);
    assert_eq!(w.next_wait(), u64::MAX);
    assert_eq!(w.step(TIMEOUT), None);
    assert_eq!(w.step(TIMEOUT), None);
    assert_eq!(w.next_wait(), 5);
    assert_eq!(w.step(TIMEOUT), Some(Ok(false)));
    let mut quick = TimeoutWait::wait_timeout(nanos);
    assert_eq!(quick.step(SUCCESS), Some(Ok(true)));
}

fn one(_: ()) -> i32 {
    1
}

fn two(_: ()) -> i32 {
    2
}

#[test]
fn events_finish_work() {
    let e = Event::new(fence(4), ());
    assert_eq!(e.id(), 4);
    assert_eq!(e.device().id(), 77);
    let mapped = e.map(|_: ()| 42);
    let (out, released) = mapped.wait(Ok(()));
    assert_eq!(out.ok(), Some(42));
    assert_eq!(released.id(), 4);
    let (e, old) = Event::new(fence(5), 1u8).replace(());
    assert_eq!(old, 1);
    let (out, released) = e.wait(Err(Error::Vulkan(ERROR_DEVICE_LOST)));
    assert!(matches!(out, Err(Error::Vulkan(ERROR_DEVICE_LOST))));
    assert_eq!(released.id(), 5);
    match Event::new(fence(6), ()).wait_timeout(Ok(false)) {
        (Err(EventTimeoutError::Timeout(back)), None) => assert_eq!(back.id(), 6),
        _ => panic!("expected a timeout"),
    }
    match Event::new(fence(10), ()).wait_timeout(Err(Error::Vulkan(ERROR_DEVICE_LOST))) {
        (Err(EventTimeoutError::Error(Error::Vulkan(code))), Some(f)) => {
            assert_eq!(code, ERROR_DEVICE_LOST);
            assert_eq!(f.id(), 10);
        }
        _ => panic!("expected the error and the fence"),
    }
    let first: fn(()) -> i32 = one;
    let second: fn(()) -> i32 = two;
    let (all, released) = Event::join_all(vec![Event::new(fence(7), ()).map(first), Event::new(fence(8), ()).map(second)], Ok(()));
    assert_eq!(all.ok(), Some(vec![1, 2]));
    assert_eq!(released.iter().map(|f| f.id()).collect::<Vec<_>>(), vec![7, 8]);
    let (failed, released) = Event::join_all(vec![Event::new(fence(11), ()), Event::new(fence(12), ())], Err(Error::Vulkan(ERROR_DEVICE_LOST)));
    assert!(matches!(failed, Err(Error::Vulkan(ERROR_DEVICE_LOST))));
    assert_eq!(released.iter().map(|f| f.id()).collect::<Vec<_>>(), vec![11, 12]);
    let closure = Event::new(fence(9), || 5u8);
    assert_eq!(closure.wait(Ok(())).0.ok(), Some(5));
    let (out, f) = Event::new(fence(13), || 3u8).consume_unchecked();
    assert_eq!((out, f.id()), (3, 13));
    let none: Vec<Event<()>> = Vec::new();
    let (out, released) = Event::join_all(none, Err(Error::Vulkan(ERROR_DEVICE_LOST)));
    assert_eq!(out.ok(), Some(vec![]));
    assert!(released.is_empty());
}

#[test]
fn tables_keep_first_place_and_last_value() {
    let mut t = Table::from_pairs(vec![("a".to_string(), 1u32), ("b".to_string(), 2), ("a".to_string(), 3)]);
    assert_eq!(t.len(), 2);
    assert_eq!(t.key_at(0), "a");
    assert_eq!(*t.value_at(0), 3);
    assert_eq!(t.insert("b".to_string(), 5), Some(2));
    assert_eq!(t.insert("c".to_string(), 6), None);
    assert_eq!(t.find(&"c".to_string()), Some(2));
    let e = t.get_key_value(&"b".to_string()).unwrap();
    assert_eq!((e.key.as_str(), *e.value), ("b", 5));
    assert!(t.get_key_value(&"z".to_string()).is_none());
}

#[test]
fn lookups_name_what_is_missing() {
    let s = skills();
    let found = try_get_key_value(&s, &"farming".to_string()).ok().unwrap();
    assert_eq!(found.value.time.as_days(), 7);
    match try_get_key_value(&s, &"fishing".to_string()) {
        Err(GameDataError::NotFound(name)) => assert_eq!(name, "fishing"),
        Ok(_) => panic!("fishing is not a skill"),
    }
}

#[test]
fn building_jobs_keep_known_skills() {
    let s = skills();
    let regular = BuildingJob::from_raw(RawBuildingJob::Regular(3), &s);
    assert_eq!(regular.amount, 3);
    assert!(regular.learned_skills.is_empty());
    let advanced = BuildingJob::from_raw(
        RawBuildingJob::Advanced {
            amount: 2,
            learned_skills: vec!["farming".to_string(), "fishing".to_string(), "smithing".to_string()],
        },
        &s,
    );
    assert_eq!(advanced.amount, 2);
    let names: Vec<&str> = advanced.learned_skills.iter().map(|e| e.key.as_str()).collect();
    assert_eq!(names, vec!["farming", "smithing"]);
}

#[test]
fn jobs_resolve_their_skills() {
    let s = skills();
    let raw = RawJob { skills: RawJobSkills::Regular(vec!["smithing".to_string(), "farming".to_string(), "smithing".to_string()]) };
    let job = Job::from_raw(raw, &s, 1.0f32).ok().unwrap();
    let got: Vec<(&str, f32)> = job.skills.iter().map(|(e, w)| (e.key.as_str(), *w)).collect();
    assert_eq!(got, vec![("smithing", 1.0), ("farming", 1.0)]);
    let weighted = Table::from_pairs(vec![("farming".to_string(), 0.5f32)]);
    let job = Job::from_raw(RawJob { skills: RawJobSkills::Weighted(weighted) }, &s, 1.0f32).ok().unwrap();
    assert_eq!(job.skills.len(), 1);
    assert_eq!(job.skills[0].1, 0.5);
    let missing = Job::from_raw(RawJob { skills: RawJobSkills::Regular(vec!["dancing".to_string()]) }, &s, 1.0f32);
    assert!(matches!(missing, Err(GameDataError::NotFound(n)) if n == "dancing"));
}

#[test]
fn buildings_resolve_every_name() {
    let s = skills();
    let goods = Table::from_pairs(vec![("wood".to_string(), 1.5f32), ("iron".to_string(), 4.0f32)]);
    let jobs = Table::from_pairs(vec![("smith".to_string(), ()), ("farmer".to_string(), ())]);
    let raw = RawBuilding {
        consumption: Table::from_pairs(vec![("iron".to_string(), 3u32)]),
        production: Table::from_pairs(vec![("wood".to_string(), 1u32)]),
        jobs: Table::from_pairs(vec![("smith".to_string(), RawBuildingJob::Regular(2))]),
        learned_skills: Some(vec!["smithing".to_string(), "smithing".to_string()]),
    };
    let b = Building::from_raw(raw, &goods, &jobs, &s).ok().unwrap();
    assert_eq!(b.consumption.len(), 1);
    assert_eq!((b.consumption[0].0.key.as_str(), *b.consumption[0].0.value, b.consumption[0].1), ("iron", 4.0, 3));
    assert_eq!(b.production[0].0.key.as_str(), "wood");
    assert_eq!(b.jobs[0].0.key.as_str(), "smith");
    assert_eq!(b.jobs[0].1.amount, 2);
    assert_eq!(b.learned_skills.as_ref().map(|l| l.len()), Some(1));

    let bad = RawBuilding {
        consumption: Table::from_pairs(vec![("iron".to_string(), 3u32)]),
        production: Table::from_pairs(vec![("gold".to_string(), 1u32)]),
        jobs: Table::from_pairs(vec![("miner".to_string(), RawBuildingJob::Regular(2))]),
        learned_skills: None,
    };
    match Building::from_raw(bad, &goods, &jobs, &s) {
        Err(GameDataError::NotFound(name)) => assert_eq!(name, "gold"),
        Ok(_) => panic!("gold is not a good"),
    }
}

#[test]
fn set_flag_equals_new_true_flag() {
    let mut flag = ExternBool::new(false);
    flag.set();
    assert!(flag == ExternBool::new(true));
    flag.set();
    assert!(flag == ExternBool::from(true));
    assert!(ExternBool::new(false) == ExternBool::from(false));
    assert!(ExternBool::new(false) != ExternBool::new(true));
}

#[test]
fn durations_order_by_days() {
    let a = GameDuration::from_days(7);
    assert!(a == GameDuration::from_weeks(1));
    assert!(GameDuration::from_days(a.as_days()) == a);
    assert!(a <= GameDuration::from_days(7));
    assert!(!(a < GameDuration::from_days(7)));
    assert!(GameDuration::from_days(0) == GameDuration::default());
    assert_eq!(a.partial_cmp(&GameDuration::from_days(9)), Some(core::cmp::Ordering::Less));
}

#[test]
fn names_split_with_trailing_capitals() {
    let words = by_parts("vkGetMemoryHostPointerPropertiesEXT");
    assert_eq!(words, vec!["Get", "Memory", "Host", "Pointer", "Properties", "E", "X", "T"]);
    let words = by_parts("vkGetPhysicalDeviceProperties2");
    assert_eq!(words, vec!["Get", "Physical", "Device", "Properties2"]);
}

#[test]
fn entry_names_of_commands() {
    let (constant, field, fn_type) = entry_names("vkCreateDevice");
    assert_eq!(constant, "CREATE_DEVICE");
    assert_eq!(field, "create_device");
    assert_eq!(fn_type, "FnCreateDevice");
    let (constant, field, fn_type) = entry_names("vkGetPhysicalDeviceProperties2");
    assert_eq!(constant, "GET_PHYSICAL_DEVICE_PROPERTIES2");
    assert_eq!(field, "get_physical_device_properties2");
    assert_eq!(fn_type, "FnGetPhysicalDeviceProperties2");
}
