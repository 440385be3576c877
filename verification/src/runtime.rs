use vstd::prelude::*;
use crate::device::Device;
use crate::error::{Error, ERROR_DEVICE_LOST, NOT_READY, TIMEOUT};

verus! {

/// The longest the runtime waits for one fence in one go: 5 milliseconds, in nanoseconds.
pub const MAX_BUDGET_NANOS: u64 = 5_000_000;

/// A fence the runtime watches: the driver's handle and the longest it is waited for in one
/// go, in nanoseconds.
#[derive(Clone, Copy, PartialEq, Eq, Structural, Debug)]
pub struct RuntimeFence {
    pub id: u64,
    pub budget: u64,
}

/// What the runtime expects next: a round (new fences and whether anyone can still hand it
/// fences), the answer of a wait on the current fence, the current fence's status; or nothing,
/// once it has stopped.
#[derive(Clone, Copy, PartialEq, Eq, Structural, Debug)]
pub enum RuntimeStage {
    Idle,
    Waiting,
    Checking { elapsed: u64 },
    Stopped,
}

/// A fence runtime: the fences still watched, in the order they were handed over, the one
/// being waited for, and how much of its budget is left in this round.
pub struct RuntimeState {
    pub fences: Vec<RuntimeFence>,
    pub pos: usize,
    pub left: u64,
    pub stage: RuntimeStage,
}

/// What the outside world answers the runtime.
pub enum RuntimeEvent {
    /// The fences handed over since the last round, and whether nobody can hand over any more.
    Round { new: Vec<RuntimeFence>, closed: bool },
    /// Waiting for the current fence answered `code` after `elapsed` nanoseconds.
    Waited { code: i32, elapsed: u64 },
    /// Whether anyone still waits for the current fence's result, and (when someone does) the
    /// status code of the fence.
    Status { listening: bool, code: i32 },
}

/// What the runtime asks of the outside world.
#[derive(Clone, Copy, PartialEq, Eq, Structural, Debug)]
pub enum RuntimeAction {
    /// Wait for the fence at most `nanos` nanoseconds, and answer with `Waited`.
    Wait { fence: u64, nanos: u64 },
    /// See whether anyone still waits for the fence's result; if so, read its status; answer
    /// with `Status`.
    CheckStatus { fence: u64 },
    /// Destroy the fence.
    DestroyFence { fence: u64 },
    /// Hand the fence's result code to the one waiting for it, and wake them.
    SetResult { fence: u64, code: i32 },
    /// Gather the fences handed over since, and answer with `Round`.
    Poll,
    /// Nothing is left to watch and nobody can hand over fences: the runtime is done.
    Stop,
}

impl RuntimeState {
    /// A runtime watching no fence, waiting for its first round.
    pub fn new() -> (s: Self)
        ensures
            s.fences@.len() == 0,
            s.stage == RuntimeStage::Idle,
            s.wf(),
    {
        RuntimeState { fences: Vec::new(), pos: 0, left: 0, stage: RuntimeStage::Idle }
    }

    /// While waiting for or checking a fence, that fence is one of those watched.
    pub open spec fn wf(&self) -> bool {
        (self.stage is Waiting || self.stage is Checking) ==> self.pos < self.fences@.len()
    }

    /// Whether `e` is the kind of answer the runtime expects.
    pub open spec fn expects(&self, e: RuntimeEvent) -> bool {
        match e {
            RuntimeEvent::Round { .. } => self.stage is Idle,
            RuntimeEvent::Waited { .. } => self.stage is Waiting,
            RuntimeEvent::Status { .. } => self.stage is Checking,
        }
    }
}

/// The runtime `s`, which asked for `acts`, moves on to the fence at `p` of `fs` after doing
/// `done`: it waits for that fence with its whole budget, or, past the last fence, asks for a
/// new round.
pub open spec fn went_to(s: RuntimeState, acts: Seq<RuntimeAction>, fs: Seq<RuntimeFence>, p: int, done: Seq<RuntimeAction>) -> bool {
    &&& s.fences@ == fs
    &&& if p < fs.len() {
        &&& s.stage == RuntimeStage::Waiting
        &&& s.pos == p
        &&& s.left == fs[p].budget
        &&& acts == done.push(RuntimeAction::Wait { fence: fs[p].id, nanos: fs[p].budget })
    } else {
        &&& s.stage == RuntimeStage::Idle
        &&& acts == done.push(RuntimeAction::Poll)
    }
}

fn go_to(fences: Vec<RuntimeFence>, p: usize, done: Vec<RuntimeAction>) -> (r: (RuntimeState, Vec<RuntimeAction>))
    ensures
        went_to(r.0, r.1@, fences@, p as int, done@),
        r.0.wf(),
{
    let mut acts = done;
    if p < fences.len() {
        let f = fences[p];
        acts.push(RuntimeAction::Wait { fence: f.id, nanos: f.budget });
        (RuntimeState { fences, pos: p, left: f.budget, stage: RuntimeStage::Waiting }, acts)
    } else {
        acts.push(RuntimeAction::Poll);
        (RuntimeState { fences, pos: 0, left: 0, stage: RuntimeStage::Idle }, acts)
    }
}

/// The fence that handing an event to the runtime of `runtime_device` gives: refused with the
/// device-lost error when the event's fence is on another device; otherwise waited for at most
/// `budget_nanos` nanoseconds in one go, and never more than `MAX_BUDGET_NANOS`.
pub fn push_fence(fence: u64, event_device: &Device, runtime_device: &Device, budget_nanos: u128) -> (r: Result<RuntimeFence, Error>)
    ensures
        *event_device != *runtime_device ==> r == Err::<RuntimeFence, Error>(Error::Vulkan(ERROR_DEVICE_LOST)),
        *event_device == *runtime_device ==> r == Ok::<RuntimeFence, Error>(RuntimeFence {
            id: fence,
            budget: if budget_nanos < MAX_BUDGET_NANOS { budget_nanos as u64 } else { MAX_BUDGET_NANOS },
        }),
{
    if *event_device != *runtime_device {
        return Err(Error::Vulkan(ERROR_DEVICE_LOST));
    }
    let budget = if budget_nanos < MAX_BUDGET_NANOS as u128 { budget_nanos as u64 } else { MAX_BUDGET_NANOS };
    Ok(RuntimeFence { id: fence, budget })
}

/// What one step of the runtime does (see `runtime_step`): from `s`, the answer `e` leads to
/// `s2`, and the runtime asks for `acts`.
pub open spec fn runtime_next(s: RuntimeState, e: RuntimeEvent, s2: RuntimeState, acts: Seq<RuntimeAction>) -> bool {
    match e {
        RuntimeEvent::Round { new, closed } => {
            let fs = s.fences@ + new@;
            if closed && fs.len() == 0 {
                &&& s2.fences@ == fs
                &&& s2.stage == RuntimeStage::Stopped
                &&& acts == seq![RuntimeAction::Stop]
            } else {
                went_to(s2, acts, fs, 0, seq![])
            }
        },
        RuntimeEvent::Waited { code, elapsed } => {
            if code == TIMEOUT {
                went_to(s2, acts, s.fences@, s.pos + 1, seq![])
            } else {
                &&& s2.fences@ == s.fences@
                &&& s2.pos == s.pos
                &&& s2.left == s.left
                &&& s2.stage == (RuntimeStage::Checking { elapsed })
                &&& acts == seq![RuntimeAction::CheckStatus { fence: s.fences@[s.pos as int].id }]
            }
        },
        RuntimeEvent::Status { listening, code } => {
            let f = s.fences@[s.pos as int];
            let elapsed = s.stage->elapsed;
            if listening && code == NOT_READY {
                if s.left >= elapsed {
                    &&& s2.fences@ == s.fences@
                    &&& s2.pos == s.pos
                    &&& s2.left == s.left - elapsed
                    &&& s2.stage == RuntimeStage::Waiting
                    &&& acts == seq![RuntimeAction::Wait { fence: f.id, nanos: (s.left - elapsed) as u64 }]
                } else {
                    went_to(s2, acts, s.fences@, s.pos + 1, seq![])
                }
            } else if listening {
                went_to(s2, acts, s.fences@.remove(s.pos as int), s.pos as int,
                    seq![RuntimeAction::DestroyFence { fence: f.id }, RuntimeAction::SetResult { fence: f.id, code }])
            } else {
                went_to(s2, acts, s.fences@.remove(s.pos as int), s.pos as int,
                    seq![RuntimeAction::DestroyFence { fence: f.id }])
            }
        },
    }
}

/// One step of the fence runtime: takes in the answer `event` and gives the runtime's next
/// state and what it asks for, in order.
///
/// - A round adds the new fences after those still watched. With no fence left and nobody
///   able to hand over more, the runtime stops; otherwise it waits for the first fence with its
///   whole budget (or, with no fence, asks for another round).
/// - A wait that timed out leaves the fence for the next round and goes on to the next fence.
///   Any other answer asks for the fence's status.
/// - A fence nobody waits for any more is destroyed. A fence someone waits for and whose status
///   is other than not-ready is destroyed and its status handed over as its result. Both leave
///   the watched fences and the runtime goes on to the next one.
/// - A fence that is not ready yet is waited for again with what is left of its budget after
///   the time the last wait took, or, when the budget is spent, left for the next round.
pub fn runtime_step(state: RuntimeState, event: RuntimeEvent) -> (r: (RuntimeState, Vec<RuntimeAction>))
    requires
        state.wf(),
        state.expects(event),
        event matches RuntimeEvent::Round { new, .. } ==> state.fences@.len() + new@.len() <= usize::MAX,
    ensures
        r.0.wf(),
        runtime_next(state, event, r.0, r.1@),
{
    let RuntimeState { fences, pos, left, stage } = state;
    match event {
        RuntimeEvent::Round { new, closed } => {
            let mut fences = fences;
            let mut new = new;
            let ghost before = fences@;
            let ghost added = new@;
            fences.append(&mut new);
            assert(fences@ == before + added);
            if closed && fences.len() == 0 {
                let mut acts = Vec::new();
                acts.push(RuntimeAction::Stop);
                assert(acts@ =~= seq![RuntimeAction::Stop]);
                (RuntimeState { fences, pos: 0, left: 0, stage: RuntimeStage::Stopped }, acts)
            } else {
                go_to(fences, 0, Vec::new())
            }
        },
        RuntimeEvent::Waited { code, elapsed } => {
            let n = fences.len();
            assert(pos < n);
            if code == TIMEOUT {
                go_to(fences, pos + 1, Vec::new())
            } else {
                let f = fences[pos];
                let mut acts = Vec::new();
                acts.push(RuntimeAction::CheckStatus { fence: f.id });
                (RuntimeState { fences, pos, left, stage: RuntimeStage::Checking { elapsed } }, acts)
            }
        },
        RuntimeEvent::Status { listening, code } => {
            let elapsed = match stage {
                RuntimeStage::Checking { elapsed } => elapsed,
                _ => 0,
            };
            let n = fences.len();
            assert(pos < n);
            let f = fences[pos];
            if listening && code == NOT_READY {
                if left >= elapsed {
                    let mut acts = Vec::new();
                    acts.push(RuntimeAction::Wait { fence: f.id, nanos: left - elapsed });
                    (RuntimeState { fences, pos, left: left - elapsed, stage: RuntimeStage::Waiting }, acts)
                } else {
                    go_to(fences, pos + 1, Vec::new())
                }
            } else {
                let mut fences = fences;
                let _ = fences.remove(pos);
                let mut acts = Vec::new();
                acts.push(RuntimeAction::DestroyFence { fence: f.id });
                if listening {
                    acts.push(RuntimeAction::SetResult { fence: f.id, code });
                    assert(acts@ =~= seq![RuntimeAction::DestroyFence { fence: f.id }, RuntimeAction::SetResult { fence: f.id, code }]);
                } else {
                    assert(acts@ =~= seq![RuntimeAction::DestroyFence { fence: f.id }]);
                }
                go_to(fences, pos, acts)
            }
        },
    }
}


/// The handles of the fences `fs`, in order.
pub open spec fn fence_ids(fs: Seq<RuntimeFence>) -> Seq<u64> {
    fs.map_values(|f: RuntimeFence| f.id)
}

/// The handles of the fences that the answer `e` hands over to the runtime.
pub open spec fn handed_over(e: RuntimeEvent) -> Seq<u64> {
    match e {
        RuntimeEvent::Round { new, .. } => fence_ids(new@),
        _ => Seq::empty(),
    }
}

/// The handles of the fences that the actions `acts` destroy, in order.
pub open spec fn destroyed_in(acts: Seq<RuntimeAction>) -> Seq<u64>
    decreases acts.len(),
{
    if acts.len() == 0 {
        Seq::empty()
    } else {
        let head = match acts[0] {
            RuntimeAction::DestroyFence { fence } => seq![fence],
            _ => Seq::<u64>::empty(),
        };
        head + destroyed_in(acts.drop_first())
    }
}

/// The handles of the fences whose result the actions `acts` hand over, in order.
pub open spec fn results_in(acts: Seq<RuntimeAction>) -> Seq<u64>
    decreases acts.len(),
{
    if acts.len() == 0 {
        Seq::empty()
    } else {
        let head = match acts[0] {
            RuntimeAction::SetResult { fence, .. } => seq![fence],
            _ => Seq::<u64>::empty(),
        };
        head + results_in(acts.drop_first())
    }
}

/// The handles of all the fences whose result a run's actions hand over, in order.
pub open spec fn results_all(acts: Seq<Seq<RuntimeAction>>) -> Seq<u64>
    decreases acts.len(),
{
    if acts.len() == 0 {
        Seq::empty()
    } else {
        results_all(acts.drop_last()) + results_in(acts.last())
    }
}

/// The handles of all the fences a run's answers hand over, in order.
pub open spec fn handed_over_all(events: Seq<RuntimeEvent>) -> Seq<u64>
    decreases events.len(),
{
    if events.len() == 0 {
        Seq::empty()
    } else {
        handed_over_all(events.drop_last()) + handed_over(events.last())
    }
}

/// The handles of all the fences a run's actions destroy, in order.
pub open spec fn destroyed_all(acts: Seq<Seq<RuntimeAction>>) -> Seq<u64>
    decreases acts.len(),
{
    if acts.len() == 0 {
        Seq::empty()
    } else {
        destroyed_all(acts.drop_last()) + destroyed_in(acts.last())
    }
}

proof fn lemma_destroyed_in_wait_poll(done: Seq<RuntimeAction>, a: RuntimeAction)
    requires
        !(a is DestroyFence),
        !(a is SetResult),
    ensures
        destroyed_in(done.push(a)) == destroyed_in(done),
        results_in(done.push(a)) == results_in(done),
    decreases done.len(),
{
    if done.len() == 0 {
        assert(done.push(a).drop_first() =~= Seq::<RuntimeAction>::empty());
        assert(destroyed_in(done.push(a)) =~= Seq::<u64>::empty() + destroyed_in(Seq::<RuntimeAction>::empty()));
        assert(results_in(done.push(a)) =~= Seq::<u64>::empty() + results_in(Seq::<RuntimeAction>::empty()));
    } else {
        lemma_destroyed_in_wait_poll(done.drop_first(), a);
        assert(done.push(a).drop_first() =~= done.drop_first().push(a));
        assert(done.push(a)[0] == done[0]);
    }
}

proof fn lemma_went_to_destroys(s2: RuntimeState, acts: Seq<RuntimeAction>, fs: Seq<RuntimeFence>, p: int, done: Seq<RuntimeAction>)
    requires
        went_to(s2, acts, fs, p, done),
    ensures
        destroyed_in(acts) == destroyed_in(done),
        results_in(acts) == results_in(done),
        s2.stage != RuntimeStage::Stopped,
{
    if p < fs.len() {
        lemma_destroyed_in_wait_poll(done, RuntimeAction::Wait { fence: fs[p].id, nanos: fs[p].budget });
    } else {
        lemma_destroyed_in_wait_poll(done, RuntimeAction::Poll);
    }
}

/// One step keeps the count: the fences watched before together with those handed over are
/// the fences destroyed in the step together with those watched after. A runtime that stops
/// watches no fence.
proof fn lemma_step_keeps_fences(s: RuntimeState, e: RuntimeEvent, s2: RuntimeState, acts: Seq<RuntimeAction>)
    requires
        s.wf(),
        s.expects(e),
        runtime_next(s, e, s2, acts),
    ensures
        (fence_ids(s.fences@) + handed_over(e)).to_multiset()
            == (destroyed_in(acts) + fence_ids(s2.fences@)).to_multiset(),
        s2.stage == RuntimeStage::Stopped ==> s2.fences@.len() == 0,
        results_in(acts).to_multiset().subset_of(destroyed_in(acts).to_multiset()),
{
    broadcast use vstd::seq_lib::group_to_multiset_ensures;
    let ids = fence_ids(s.fences@);
    match e {
        RuntimeEvent::Round { new, closed } => {
            let fs = s.fences@ + new@;
            assert(fence_ids(fs) =~= ids + fence_ids(new@));
            if closed && fs.len() == 0 {
                reveal_with_fuel(destroyed_in, 2);
                assert(destroyed_in(acts) =~= Seq::<u64>::empty());
            } else {
                lemma_went_to_destroys(s2, acts, fs, 0, seq![]);
                assert(destroyed_in(Seq::<RuntimeAction>::empty()) =~= Seq::<u64>::empty());
            }
            assert(destroyed_in(acts) + fence_ids(s2.fences@) =~= ids + handed_over(e));
            reveal_with_fuel(results_in, 2);
            assert(results_in(Seq::<RuntimeAction>::empty()) =~= Seq::<u64>::empty());
            assert(results_in(acts) =~= Seq::<u64>::empty());
        },
        RuntimeEvent::Waited { code, elapsed } => {
            assert(handed_over(e) =~= Seq::<u64>::empty());
            if code == TIMEOUT {
                lemma_went_to_destroys(s2, acts, s.fences@, s.pos + 1, seq![]);
            } else {
                reveal_with_fuel(destroyed_in, 2);
            }
            assert(destroyed_in(Seq::<RuntimeAction>::empty()) =~= Seq::<u64>::empty());
            assert(destroyed_in(acts) =~= Seq::<u64>::empty());
            assert(destroyed_in(acts) + fence_ids(s2.fences@) =~= ids + handed_over(e));
            reveal_with_fuel(results_in, 2);
            assert(results_in(Seq::<RuntimeAction>::empty()) =~= Seq::<u64>::empty());
            assert(results_in(acts) =~= Seq::<u64>::empty());
        },
        RuntimeEvent::Status { listening, code } => {
            assert(handed_over(e) =~= Seq::<u64>::empty());
            let f = s.fences@[s.pos as int];
            let elapsed = s.stage->elapsed;
            if listening && code == NOT_READY {
                if s.left >= elapsed {
                    reveal_with_fuel(destroyed_in, 2);
                } else {
                    lemma_went_to_destroys(s2, acts, s.fences@, s.pos + 1, seq![]);
                }
                assert(destroyed_in(Seq::<RuntimeAction>::empty()) =~= Seq::<u64>::empty());
                assert(destroyed_in(acts) =~= Seq::<u64>::empty());
                assert(destroyed_in(acts) + fence_ids(s2.fences@) =~= ids + handed_over(e));
                reveal_with_fuel(results_in, 2);
                assert(results_in(Seq::<RuntimeAction>::empty()) =~= Seq::<u64>::empty());
                assert(results_in(acts) =~= Seq::<u64>::empty());
            } else {
                let rest = s.fences@.remove(s.pos as int);
                let done = if listening {
                    seq![RuntimeAction::DestroyFence { fence: f.id }, RuntimeAction::SetResult { fence: f.id, code }]
                } else {
                    seq![RuntimeAction::DestroyFence { fence: f.id }]
                };
                lemma_went_to_destroys(s2, acts, rest, s.pos as int, done);
                reveal_with_fuel(destroyed_in, 3);
                if listening {
                    assert(done.drop_first() =~= seq![RuntimeAction::SetResult { fence: f.id, code }]);
                    assert(done.drop_first().drop_first() =~= Seq::<RuntimeAction>::empty());
                } else {
                    assert(done.drop_first() =~= Seq::<RuntimeAction>::empty());
                }
                assert(destroyed_in(done) =~= seq![f.id]);
                reveal_with_fuel(results_in, 3);
                if listening {
                    assert(results_in(done) =~= seq![f.id]);
                } else {
                    assert(results_in(done) =~= Seq::<u64>::empty());
                }
                assert(fence_ids(rest) =~= ids.remove(s.pos as int));
                assert(ids[s.pos as int] == f.id);
                vstd::seq_lib::lemma_multiset_commutative(seq![f.id], fence_ids(rest));
                vstd::seq_lib::lemma_multiset_commutative(ids, handed_over(e));
                assert(ids + handed_over(e) =~= ids);
                assert(ids.to_multiset().count(f.id) > 0);
                assert(seq![f.id].to_multiset() =~= vstd::multiset::Multiset::<u64>::empty().insert(f.id));
                assert(ids.remove(s.pos as int).to_multiset() =~= ids.to_multiset().remove(f.id));
                assert((destroyed_in(acts) + fence_ids(s2.fences@)).to_multiset() =~= ids.to_multiset());
            }
        },
    }
}

/// Every fence a run of the runtime is handed is destroyed exactly once, and nothing else is.
///
/// Take a run from a runtime watching no fence: its states `states`, the answers `events` it
/// takes in and the actions `acts` each step asks for (each step as `runtime_step` states it).
/// At every point the fences handed over so far are exactly those destroyed so far together
/// with those still watched. Once the runtime has stopped, the fences handed over are exactly
/// those destroyed, so when no fence is handed over twice, each is destroyed exactly once. A
/// result is handed over only for a fence destroyed in the same step, so then at most once.
pub proof fn lemma_runtime_retires_each_fence_once(
    states: Seq<RuntimeState>,
    events: Seq<RuntimeEvent>,
    acts: Seq<Seq<RuntimeAction>>,
)
    requires
        states.len() == events.len() + 1,
        acts.len() == events.len(),
        states[0].fences@.len() == 0,
        forall|i: int| 0 <= i < events.len() ==> (#[trigger] states[i]).wf() && states[i].expects(events[i]),
        forall|i: int| 0 <= i < events.len() ==> runtime_next(#[trigger] states[i], events[i], states[i + 1], acts[i]),
    ensures
        handed_over_all(events).to_multiset()
            == destroyed_all(acts).to_multiset().add(fence_ids(states.last().fences@).to_multiset()),
        states.last().stage == RuntimeStage::Stopped && events.len() > 0
            ==> handed_over_all(events).to_multiset() == destroyed_all(acts).to_multiset(),
        states.last().stage == RuntimeStage::Stopped && handed_over_all(events).no_duplicates()
            ==> forall|id: u64| handed_over_all(events).contains(id)
                ==> #[trigger] destroyed_all(acts).to_multiset().count(id) == 1,
        states.last().stage == RuntimeStage::Stopped
            ==> forall|id: u64| #[trigger] destroyed_all(acts).to_multiset().count(id) > 0
                ==> handed_over_all(events).contains(id),
        results_all(acts).to_multiset().subset_of(destroyed_all(acts).to_multiset()),
        states.last().stage == RuntimeStage::Stopped && handed_over_all(events).no_duplicates()
            ==> forall|id: u64| #[trigger] results_all(acts).to_multiset().count(id) <= 1,
    decreases events.len(),
{
    broadcast use vstd::seq_lib::group_to_multiset_ensures;
    broadcast use vstd::multiset::group_multiset_axioms;
    if events.len() == 0 {
        assert(fence_ids(states[0].fences@) =~= Seq::<u64>::empty());
        assert(handed_over_all(events) =~= Seq::<u64>::empty());
        assert(destroyed_all(acts) =~= Seq::<u64>::empty());
        assert(results_all(acts) =~= Seq::<u64>::empty());
        assert(handed_over_all(events).to_multiset() =~= destroyed_all(acts).to_multiset().add(fence_ids(states.last().fences@).to_multiset()));
    } else {
        let n = events.len() - 1;
        let ss = states.drop_last();
        let es = events.drop_last();
        let aa = acts.drop_last();
        assert forall|i: int| 0 <= i < es.len() implies (#[trigger] ss[i]).wf() && ss[i].expects(es[i]) by {
            assert(ss[i] == states[i]);
            assert(es[i] == events[i]);
        }
        assert forall|i: int| 0 <= i < es.len() implies runtime_next(#[trigger] ss[i], es[i], ss[i + 1], aa[i]) by {
            assert(ss[i] == states[i]);
            assert(ss[i + 1] == states[i + 1]);
            assert(runtime_next(states[i], events[i], states[i + 1], acts[i]));
        }
        lemma_runtime_retires_each_fence_once(ss, es, aa);
        assert(ss.last() == states[n]);
        assert(states[n].wf() && states[n].expects(events[n]));
        assert(runtime_next(states[n], events[n], states[n + 1], acts[n]));
        lemma_step_keeps_fences(states[n], events[n], states[n + 1], acts[n]);
        let h = handed_over_all(es);
        let d = destroyed_all(aa);
        let f0 = fence_ids(states[n].fences@);
        let f1 = fence_ids(states[n + 1].fences@);
        let he = handed_over(events[n]);
        let de = destroyed_in(acts[n]);
        assert(handed_over_all(events) == h + he);
        assert(destroyed_all(acts) == d + de);
        vstd::seq_lib::lemma_multiset_commutative(h, he);
        vstd::seq_lib::lemma_multiset_commutative(d, de);
        vstd::seq_lib::lemma_multiset_commutative(f0, he);
        vstd::seq_lib::lemma_multiset_commutative(de, f1);
        assert(states.last() == states[n + 1]);
        assert(handed_over_all(events).to_multiset() =~= destroyed_all(acts).to_multiset().add(f1.to_multiset()));
        let r = results_all(aa);
        let re = results_in(acts[n]);
        assert(results_all(acts) == r + re);
        vstd::seq_lib::lemma_multiset_commutative(r, re);
        assert forall|id: u64| #[trigger] results_all(acts).to_multiset().count(id) <= destroyed_all(acts).to_multiset().count(id) by {
            assert(r.to_multiset().count(id) <= d.to_multiset().count(id));
            assert(re.to_multiset().count(id) <= de.to_multiset().count(id));
        }
    }
    if states.last().stage == RuntimeStage::Stopped && events.len() > 0 {
        let n = events.len() - 1;
        assert(states.last() == states[n + 1]);
        lemma_step_keeps_fences(states[n], events[n], states[n + 1], acts[n]);
        assert(fence_ids(states.last().fences@) =~= Seq::<u64>::empty());
        assert(handed_over_all(events).to_multiset() =~= destroyed_all(acts).to_multiset());
    }
    if states.last().stage == RuntimeStage::Stopped {
        if events.len() == 0 {
            assert(fence_ids(states.last().fences@) =~= Seq::<u64>::empty());
        }
        assert(fence_ids(states.last().fences@) =~= Seq::<u64>::empty());
        assert(handed_over_all(events).to_multiset() =~= destroyed_all(acts).to_multiset());
        if handed_over_all(events).no_duplicates() {
            handed_over_all(events).lemma_multiset_has_no_duplicates();
            assert forall|id: u64| #[trigger] results_all(acts).to_multiset().count(id) <= 1 by {
                assert(results_all(acts).to_multiset().count(id) <= destroyed_all(acts).to_multiset().count(id));
                if handed_over_all(events).to_multiset().count(id) > 0 {
                    assert(handed_over_all(events).to_multiset().contains(id));
                }
            }
        }
    }
}


/// The nanoseconds the waits answered in `events` took, added up.
pub open spec fn time_spent(events: Seq<RuntimeEvent>) -> int
    decreases events.len(),
{
    if events.len() == 0 {
        0
    } else {
        time_spent(events.drop_last()) + match events.last() {
            RuntimeEvent::Waited { elapsed, .. } => elapsed as int,
            _ => 0int,
        }
    }
}

/// A fence that is not ready yet uses up its budget: after a status saying so, the runtime
/// either waits for it again for exactly what is left of the budget once the last wait's time
/// is taken off, or, when that time used up more than was left, leaves the fence for the next
/// round.
pub proof fn lemma_not_ready_spends_budget(s: RuntimeState, e: RuntimeEvent, s2: RuntimeState, acts: Seq<RuntimeAction>)
    requires
        s.wf(),
        s.expects(e),
        runtime_next(s, e, s2, acts),
        e matches RuntimeEvent::Status { listening, code } && listening && code == NOT_READY,
    ensures
        s.left >= s.stage->elapsed ==> {
            &&& s2.left + s.stage->elapsed == s.left
            &&& s2.pos == s.pos
            &&& s2.fences@ == s.fences@
            &&& acts == seq![RuntimeAction::Wait { fence: s.fences@[s.pos as int].id, nanos: s2.left }]
        },
        s.left < s.stage->elapsed ==> s2.fences@ == s.fences@ && (s2.stage == RuntimeStage::Idle || s2.pos == s.pos + 1),
{
}

/// While the runtime stays on one fence, the waits add up to at most the fence's budget.
///
/// Take a run that starts waiting for the fence at `pos` with its whole budget and keeps
/// waiting for or checking that same fence, with the watched fences unchanged. In every state
/// where it waits, what is left of the budget and the time the waits so far took add up to
/// exactly the budget; while it checks the fence after a wait of `elapsed`, they add up to the
/// budget and `elapsed`.
#[verifier::rlimit(40)]
pub proof fn lemma_waits_within_budget(
    states: Seq<RuntimeState>,
    events: Seq<RuntimeEvent>,
    acts: Seq<Seq<RuntimeAction>>,
)
    requires
        states.len() == events.len() + 1,
        acts.len() == events.len(),
        states[0].stage == RuntimeStage::Waiting,
        states[0].wf(),
        states[0].left == states[0].fences@[states[0].pos as int].budget,
        forall|i: int| 0 <= i < events.len() ==> (#[trigger] states[i]).wf() && states[i].expects(events[i]),
        forall|i: int| 0 <= i < events.len() ==> runtime_next(#[trigger] states[i], events[i], states[i + 1], acts[i]),
        forall|i: int| 0 <= i < states.len() ==> {
            &&& (#[trigger] states[i]).pos == states[0].pos
            &&& states[i].fences@ == states[0].fences@
            &&& (states[i].stage is Waiting || states[i].stage is Checking)
        },
    ensures
        states.last().stage == RuntimeStage::Waiting
            ==> states.last().left + time_spent(events) == states[0].fences@[states[0].pos as int].budget,
        states.last().stage is Checking
            ==> states.last().left + time_spent(events) == states[0].fences@[states[0].pos as int].budget + states.last().stage->elapsed,
        states.last().stage == RuntimeStage::Waiting
            ==> time_spent(events) <= states[0].fences@[states[0].pos as int].budget,
    decreases events.len(),
{
    if events.len() > 0 {
        let n = events.len() - 1;
        let ss = states.drop_last();
        let es = events.drop_last();
        let aa = acts.drop_last();
        assert forall|i: int| 0 <= i < es.len() implies (#[trigger] ss[i]).wf() && ss[i].expects(es[i]) by {
            assert(ss[i] == states[i]);
            assert(es[i] == events[i]);
        }
        assert forall|i: int| 0 <= i < es.len() implies runtime_next(#[trigger] ss[i], es[i], ss[i + 1], aa[i]) by {
            assert(ss[i] == states[i]);
            assert(ss[i + 1] == states[i + 1]);
            assert(runtime_next(states[i], events[i], states[i + 1], acts[i]));
        }
        assert forall|i: int| 0 <= i < ss.len() implies {
            &&& (#[trigger] ss[i]).pos == ss[0].pos
            &&& ss[i].fences@ == ss[0].fences@
            &&& (ss[i].stage is Waiting || ss[i].stage is Checking)
        } by {
            assert(ss[i] == states[i]);
            assert(ss[0] == states[0]);
        }
        lemma_waits_within_budget(ss, es, aa);
        assert(ss.last() == states[n]);
        assert(states.last() == states[n + 1]);
        assert(states[n].wf() && states[n].expects(events[n]));
        assert(runtime_next(states[n], events[n], states[n + 1], acts[n]));
        assert(states[n].pos == states[0].pos && states[n + 1].pos == states[0].pos);
        assert(states[n].fences@ == states[0].fences@ && states[n + 1].fences@ == states[0].fences@);
        assert(states[n + 1].stage is Waiting || states[n + 1].stage is Checking);
        assert(time_spent(events) == time_spent(es) + match events[n] {
            RuntimeEvent::Waited { elapsed, .. } => elapsed as int,
            _ => 0int,
        });
        match events[n] {
            RuntimeEvent::Round { .. } => {},
            RuntimeEvent::Waited { code, elapsed } => {
                if code == TIMEOUT {
                    assert(states[n].pos + 1 < states[n].fences@.len() ==> states[n + 1].pos == states[n].pos + 1);
                }
            },
            RuntimeEvent::Status { listening, code } => {
                if listening && code == NOT_READY {
                } else {
                    assert(states[n + 1].fences@ == states[n].fences@.remove(states[n].pos as int));
                    assert(states[n + 1].fences@.len() == states[n].fences@.len() - 1);
                }
            },
        }
    }
}

} // verus!
