use vstd::prelude::*;
use crate::device::Device;
use crate::error::Error;
use crate::sync::Fence;

verus! {

/// What finishes a piece of GPU work once its fence is signaled: it turns into the work's
/// result.
pub trait EventConsumer: Sized {
    type Output;

    /// Whether the consumer may run.
    spec fn consume_requires(&self) -> bool;

    /// Whether `out` is a result the consumer may give.
    spec fn consume_ensures(&self, out: Self::Output) -> bool;

    /// Runs the consumer.
    fn consume(self) -> (out: Self::Output)
        requires
            self.consume_requires(),
        ensures
            self.consume_ensures(out),
    ;
}

impl EventConsumer for () {
    type Output = ();

    open spec fn consume_requires(&self) -> bool {
        true
    }

    open spec fn consume_ensures(&self, out: ()) -> bool {
        true
    }

    fn consume(self) {
    }
}

impl<T, F: FnOnce() -> T> EventConsumer for F {
    type Output = T;

    open spec fn consume_requires(&self) -> bool {
        call_requires(*self, ())
    }

    open spec fn consume_ensures(&self, out: T) -> bool {
        call_ensures(*self, (), out)
    }

    fn consume(self) -> (out: T) {
        self()
    }
}

/// A consumer followed by a function of its result.
pub struct MapConsumer<F, U> {
    pub f: F,
    pub u: U,
}

impl<T, F: EventConsumer, U: FnOnce(F::Output) -> T> EventConsumer for MapConsumer<F, U> {
    type Output = T;

    open spec fn consume_requires(&self) -> bool {
        &&& self.f.consume_requires()
        &&& forall|x: F::Output| call_requires(self.u, (x,))
    }

    open spec fn consume_ensures(&self, out: T) -> bool {
        exists|x: F::Output| self.f.consume_ensures(x) && call_ensures(self.u, (x,), out)
    }

    fn consume(self) -> (out: T) {
        let first = self.f.consume();
        (self.u)(first)
    }
}

/// Submitted GPU work: the fence signaled when it is done, and what finishes it.
pub struct Event<N> {
    fence: Fence,
    c: N,
}

/// Why waiting for an event with a timeout gave no result.
pub enum EventTimeoutError<N> {
    /// The timeout passed; the event is handed back.
    Timeout(Event<N>),
    /// The driver reported an error.
    Error(Error),
}

impl<N> Event<N> {
    /// The event's fence.
    pub closed spec fn fence_spec(&self) -> &Fence {
        &self.fence
    }

    /// What finishes the work.
    pub closed spec fn consumer(&self) -> N {
        self.c
    }

    /// The event of the work whose fence is `fence`, finished by `f`.
    pub fn new(fence: Fence, f: N) -> (e: Self)
        ensures
            e.fence_spec().id_spec() == fence.id_spec(),
            e.fence_spec().device_spec() == fence.device_spec(),
            e.consumer() == f,
    {
        Event { fence, c: f }
    }

    /// The driver's handle for the event's fence.
    pub fn id(&self) -> (r: u64)
        ensures
            r == self.fence_spec().id_spec(),
    {
        self.fence.id()
    }

    /// The device the work runs on.
    pub fn device(&self) -> (r: &Device)
        ensures
            *r == self.fence_spec().device_spec(),
    {
        self.fence.device()
    }

    /// Swaps what finishes the work for `f`, giving back the old consumer.
    pub fn replace<F>(self, f: F) -> (r: (Event<F>, N))
        ensures
            r.0.fence_spec().id_spec() == self.fence_spec().id_spec(),
            r.0.fence_spec().device_spec() == self.fence_spec().device_spec(),
            r.0.consumer() == f,
            r.1 == self.consumer(),
    {
        (Event { fence: self.fence, c: f }, self.c)
    }

    /// Runs `f` on the work's result once it is finished.
    pub fn map<U>(self, f: U) -> (r: Event<MapConsumer<N, U>>)
        ensures
            r.fence_spec().id_spec() == self.fence_spec().id_spec(),
            r.fence_spec().device_spec() == self.fence_spec().device_spec(),
            r.consumer().f == self.consumer(),
            r.consumer().u == f,
    {
        Event { fence: self.fence, c: MapConsumer { f: self.c, u: f } }
    }
}

impl<N: EventConsumer> Event<N> {
    /// Finishes the work without waiting for its fence; the fence, no longer needed, is handed
    /// back to be destroyed.
    pub fn consume_unchecked(self) -> (r: (N::Output, Fence))
        requires
            self.consumer().consume_requires(),
        ensures
            self.consumer().consume_ensures(r.0),
            r.1 == *self.fence_spec(),
    {
        let Event { fence, c } = self;
        (c.consume(), fence)
    }

    /// Finishes the work once the wait for its fence answered `waited`: a failed wait is
    /// passed on, a successful one runs the consumer. Either way the fence is handed back to
    /// be destroyed.
    pub fn wait(self, waited: Result<(), Error>) -> (r: (Result<N::Output, Error>, Fence))
        requires
            self.consumer().consume_requires(),
        ensures
            waited is Ok <==> r.0 is Ok,
            waited matches Err(e) ==> (r.0 matches Err(e2) && e2 == e),
            r.0 matches Ok(out) ==> self.consumer().consume_ensures(out),
            r.1 == *self.fence_spec(),
    {
        let Event { fence, c } = self;
        match waited {
            Ok(()) => (Ok(c.consume()), fence),
            Err(e) => (Err(e), fence),
        }
    }

    /// Finishes the work once a bounded wait for its fence answered `signaled`: signaled runs
    /// the consumer, timed out hands the event back, an error is passed on. When the event is
    /// finished (signaled or error), its fence is handed back to be destroyed.
    pub fn wait_timeout(self, signaled: Result<bool, Error>) -> (r: (Result<N::Output, EventTimeoutError<N>>, Option<Fence>))
        requires
            self.consumer().consume_requires(),
        ensures
            signaled == Ok::<bool, Error>(true) <==> r.0 is Ok,
            signaled == Ok::<bool, Error>(false) ==> (r.0 matches Err(EventTimeoutError::Timeout(ev))
                && ev.fence_spec() == self.fence_spec() && ev.consumer() == self.consumer() && r.1 is None),
            signaled matches Err(e) ==> (r.0 matches Err(EventTimeoutError::Error(e2)) && e2 == e),
            r.0 matches Ok(out) ==> self.consumer().consume_ensures(out),
            signaled != Ok::<bool, Error>(false) ==> r.1 == Some(*self.fence_spec()),
    {
        match signaled {
            Ok(true) => {
                let Event { fence, c } = self;
                (Ok(c.consume()), Some(fence))
            },
            Ok(false) => (Err(EventTimeoutError::Timeout(self)), None),
            Err(e) => {
                let Event { fence, c } = self;
                (Err(EventTimeoutError::Error(e)), Some(fence))
            },
        }
    }

    /// Finishes all the events once one wait for all their fences answered `waited`: with no
    /// events there is nothing to wait for; a failed wait is passed on; a successful one runs
    /// every consumer, in order. Either way every event's fence is handed back, in order, to
    /// be destroyed.
    pub fn join_all(events: Vec<Event<N>>, waited: Result<(), Error>) -> (r: (Result<Vec<N::Output>, Error>, Vec<Fence>))
        requires
            forall|i: int| 0 <= i < events@.len() ==> (#[trigger] events@[i]).consumer().consume_requires(),
        ensures
            events@.len() == 0 ==> r.0 is Ok && r.0->Ok_0@.len() == 0,
            events@.len() > 0 && waited is Err ==> (r.0 matches Err(e) && waited == Err::<(), Error>(e)),
            events@.len() > 0 && waited is Ok ==> r.0 is Ok && r.0->Ok_0@.len() == events@.len(),
            r.0 matches Ok(outs) ==> forall|i: int| 0 <= i < outs@.len() ==> #[trigger] events@[i].consumer().consume_ensures(outs@[i]),
            r.1@.len() == events@.len(),
            forall|i: int| 0 <= i < events@.len() ==> #[trigger] r.1@[i] == *events@[i].fence_spec(),
    {
        let n = events.len();
        let ghost all = events@;
        let run = n > 0 && waited.is_ok();
        let mut events = events;
        let mut outputs: Vec<N::Output> = Vec::new();
        let mut fences: Vec<Fence> = Vec::new();
        while events.len() > 0
            invariant
                n == all.len(),
                forall|i: int| 0 <= i < all.len() ==> (#[trigger] all[i]).consumer().consume_requires(),
                fences@.len() + events@.len() == n,
                events@ == all.subrange(fences@.len() as int, n as int),
                forall|i: int| 0 <= i < fences@.len() ==> #[trigger] fences@[i] == *all[i].fence_spec(),
                run ==> outputs@.len() == fences@.len(),
                !run ==> outputs@.len() == 0,
                forall|i: int| 0 <= i < outputs@.len() ==> #[trigger] all[i].consumer().consume_ensures(outputs@[i]),
            decreases events@.len(),
        {
            let ghost k = fences@.len() as int;
            let ev = events.remove(0);
            proof {
                assert(ev == all[k]);
                assert(events@ =~= all.subrange(k + 1, n as int));
            }
            let Event { fence, c } = ev;
            if run {
                let out = c.consume();
                outputs.push(out);
            }
            fences.push(fence);
        }
        if n == 0 {
            return (Ok(outputs), fences);
        }
        match waited {
            Ok(()) => (Ok(outputs), fences),
            Err(e) => (Err(e), fences),
        }
    }
}

impl<N> vstd::std_specs::convert::FromSpecImpl<Error> for EventTimeoutError<N> {
    open spec fn obeys_from_spec() -> bool {
        true
    }

    open spec fn from_spec(v: Error) -> EventTimeoutError<N> {
        EventTimeoutError::Error(v)
    }
}

impl<N> From<Error> for EventTimeoutError<N> {
    fn from(value: Error) -> (r: Self) {
        EventTimeoutError::Error(value)
    }
}

} // verus!
