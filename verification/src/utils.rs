use vstd::prelude::*;

verus! {

/// `v` as a `u32`; the value must fit.
pub fn usize_to_u32(v: usize) -> (r: u32)
    requires
        v <= u32::MAX,
    ensures
        r == v,
{
    v as u32
}

/// `v` as a `u32`; the value must fit.
pub fn u64_to_u32(v: u64) -> (r: u32)
    requires
        v <= u32::MAX,
    ensures
        r == v,
{
    v as u32
}

/// `v` as a `usize`; the value must fit.
pub fn u64_to_usize(v: u64) -> (r: usize)
    requires
        v <= usize::MAX,
    ensures
        r == v,
{
    v as usize
}

/// The word whose bytes, least significant first, are `b0`, `b1`, `b2`, `b3`.
pub open spec fn word_of_bytes(b0: u8, b1: u8, b2: u8, b3: u8) -> u32 {
    (b0 + b1 * 0x100 + b2 * 0x1_0000 + b3 * 0x100_0000) as u32
}

/// The words of a SPIR-V module stored least-significant byte first, or `None` when the
/// bytes stop in the middle of a word.
pub open spec fn words_le(bytes: Seq<u8>) -> Option<Seq<u32>> {
    if bytes.len() % 4 != 0 {
        None
    } else {
        Some(Seq::new(bytes.len() / 4, |i: int| word_of_bytes(bytes[4 * i], bytes[4 * i + 1], bytes[4 * i + 2], bytes[4 * i + 3])))
    }
}

/// The words of a SPIR-V module stored most-significant byte first, or `None` when the
/// bytes stop in the middle of a word.
pub open spec fn words_be(bytes: Seq<u8>) -> Option<Seq<u32>> {
    if bytes.len() % 4 != 0 {
        None
    } else {
        Some(Seq::new(bytes.len() / 4, |i: int| word_of_bytes(bytes[4 * i + 3], bytes[4 * i + 2], bytes[4 * i + 1], bytes[4 * i])))
    }
}

fn word_from_bytes(b0: u8, b1: u8, b2: u8, b3: u8) -> (r: u32)
    ensures
        r == word_of_bytes(b0, b1, b2, b3),
{
    (b0 as u32) + (b1 as u32) * 0x100 + (b2 as u32) * 0x1_0000 + (b3 as u32) * 0x100_0000
}

/// Splits the bytes of a SPIR-V module into words, each stored least-significant byte first;
/// `None` when the bytes stop in the middle of a word.
pub fn spv_words_le(bytes: &[u8]) -> (r: Option<Vec<u32>>)
    ensures
        r matches Some(v) ==> words_le(bytes@) == Some(v@),
        r is None <==> words_le(bytes@) is None,
{
    spv_words(bytes, false)
}

/// Splits the bytes of a SPIR-V module into words, each stored most-significant byte first;
/// `None` when the bytes stop in the middle of a word.
pub fn spv_words_be(bytes: &[u8]) -> (r: Option<Vec<u32>>)
    ensures
        r matches Some(v) ==> words_be(bytes@) == Some(v@),
        r is None <==> words_be(bytes@) is None,
{
    spv_words(bytes, true)
}

fn spv_words(bytes: &[u8], big_endian: bool) -> (r: Option<Vec<u32>>)
    ensures
        ({
            let expected = if big_endian { words_be(bytes@) } else { words_le(bytes@) };
            &&& r matches Some(v) ==> expected == Some(v@)
            &&& r is None <==> expected is None
        }),
{
    let len = bytes.len();
    if len % 4 != 0 {
        return None;
    }
    let n = len / 4;
    let mut words: Vec<u32> = Vec::new();
    let mut i: usize = 0;
    while i < n
        invariant
            n == bytes@.len() / 4,
            bytes@.len() % 4 == 0,
            4 * n == bytes@.len(),
            len == bytes@.len(),
            i <= n,
            words@.len() == i,
            forall|j: int| 0 <= j < i ==> #[trigger] words@[j] == if big_endian {
                word_of_bytes(bytes@[4 * j + 3], bytes@[4 * j + 2], bytes@[4 * j + 1], bytes@[4 * j])
            } else {
                word_of_bytes(bytes@[4 * j], bytes@[4 * j + 1], bytes@[4 * j + 2], bytes@[4 * j + 3])
            },
        decreases n - i,
    {
        let k = 4 * i;
        let w = if big_endian {
            word_from_bytes(bytes[k + 3], bytes[k + 2], bytes[k + 1], bytes[k])
        } else {
            word_from_bytes(bytes[k], bytes[k + 1], bytes[k + 2], bytes[k + 3])
        };
        words.push(w);
        i = i + 1;
    }
    proof {
        if big_endian {
            assert(words@ =~= words_be(bytes@)->Some_0);
        } else {
            assert(words@ =~= words_le(bytes@)->Some_0);
        }
    }
    Some(words)
}

/// A list that only grows, up to a capacity fixed when it is made.
pub struct UpQueue<T> {
    items: Vec<T>,
    capacity: usize,
}

impl<T> View for UpQueue<T> {
    type V = Seq<T>;

    closed spec fn view(&self) -> Seq<T> {
        self.items@
    }
}

impl<T> UpQueue<T> {
    #[verifier::type_invariant]
    spec fn within_capacity(self) -> bool {
        self.items@.len() <= self.capacity
    }

    /// The most items the list may hold.
    pub closed spec fn capacity_spec(self) -> usize {
        self.capacity
    }

    /// An empty list that may hold up to `capacity` items.
    pub fn new(capacity: usize) -> (q: Self)
        ensures
            q@ == Seq::<T>::empty(),
            q.capacity_spec() == capacity,
    {
        UpQueue { items: Vec::new(), capacity }
    }

    /// The number of items.
    pub fn len(&self) -> (r: usize)
        ensures
            r == self@.len(),
            r <= self.capacity_spec(),
    {
        proof {
            use_type_invariant(self);
        }
        self.items.len()
    }

    /// The most items the list may hold.
    pub fn capacity(&self) -> (r: usize)
        ensures
            r == self.capacity_spec(),
    {
        self.capacity
    }

    /// The item at `idx`, if there is one.
    pub fn get(&self, idx: usize) -> (r: Option<&T>)
        ensures
            idx < self@.len() ==> r == Some(&self@[idx as int]),
            idx >= self@.len() ==> r is None,
    {
        if idx < self.items.len() {
            Some(&self.items[idx])
        } else {
            None
        }
    }

    /// The item at `idx`, which must be one of the list's indices.
    pub fn get_unchecked(&self, idx: usize) -> (r: &T)
        requires
            idx < self@.len(),
        ensures
            *r == self@[idx as int],
    {
        &self.items[idx]
    }

    /// Appends `v` and gives back its index, or gives `v` back when the list is full.
    pub fn try_push(&mut self, v: T) -> (r: Result<usize, T>)
        ensures
            old(self)@.len() < old(self).capacity_spec() ==> {
                &&& r == Ok::<usize, T>(old(self)@.len() as usize)
                &&& final(self)@ == old(self)@.push(v)
            },
            old(self)@.len() >= old(self).capacity_spec() ==> {
                &&& r == Err::<usize, T>(v)
                &&& final(self)@ == old(self)@
            },
            final(self).capacity_spec() == old(self).capacity_spec(),
            final(self)@ == push_step(old(self)@, old(self).capacity_spec() as nat, v),
    {
        proof {
            use_type_invariant(&*self);
        }
        let idx = self.items.len();
        if idx >= self.capacity {
            return Err(v);
        }
        let mut items = Vec::new();
        core::mem::swap(&mut items, &mut self.items);
        items.push(v);
        self.items = items;
        Ok(idx)
    }

    /// The items in order.
    pub fn iter(&self) -> (it: Iter<'_, T>)
        ensures
            it.items() == self@,
            it.front() == 0,
            it.back() == self@.len(),
    {
        Iter { parent: self, start: 0, end: self.items.len() }
    }

    /// The items in order, each with its index.
    pub fn iter_indexed(&self) -> (it: IterIndexed<'_, T>)
        ensures
            it.items() == self@,
            it.front() == 0,
            it.back() == self@.len(),
    {
        IterIndexed { parent: self, start: 0, end: self.items.len() }
    }
}

/// What one push onto a list of `capacity` items holding `s` leaves: `v` appended when there
/// is room, `s` unchanged when the list is full.
pub open spec fn push_step<T>(s: Seq<T>, capacity: nat, v: T) -> Seq<T> {
    if s.len() < capacity { s.push(v) } else { s }
}

proof fn lemma_pushes_fill_to_capacity<T>(states: Seq<Seq<T>>, vs: Seq<T>, capacity: nat)
    requires
        states.len() == vs.len() + 1,
        states[0] == Seq::<T>::empty(),
        forall|i: int| 0 <= i < vs.len() ==> #[trigger] states[i + 1] == push_step(states[i], capacity, vs[i]),
    ensures
        forall|i: int| 0 <= i < states.len() ==> (#[trigger] states[i]) == vs.take(if i <= capacity { i } else { capacity as int }),
        states.last().len() == if vs.len() <= capacity { vs.len() } else { capacity },
        forall|i: int| 0 <= i < vs.len() ==> ((#[trigger] states[i]).len() < capacity <==> i < capacity),
    decreases vs.len(),
{
    if vs.len() == 0 {
        assert(states[0] == vs.take(0));
    } else {
        let k = vs.len() - 1;
        lemma_pushes_fill_to_capacity(states.drop_last(), vs.drop_last(), capacity);
        assert forall|i: int| 0 <= i < states.len() implies (#[trigger] states[i]) == vs.take(if i <= capacity { i } else { capacity as int }) by {
            if i < states.len() - 1 {
                assert(states.drop_last()[i] == states[i]);
                assert(vs.drop_last().take(if i <= capacity { i } else { capacity as int }) =~= vs.take(if i <= capacity { i } else { capacity as int }));
            } else {
                assert(states.drop_last()[k] == states[k]);
                assert(states[k + 1] == push_step(states[k], capacity, vs[k]));
                assert(vs.drop_last().take(if k <= capacity { k } else { capacity as int }) =~= vs.take(if k <= capacity { k } else { capacity as int }));
                if k < capacity {
                    assert(vs.take(k).push(vs[k]) =~= vs.take(k + 1));
                }
            }
        }
        assert forall|i: int| 0 <= i < vs.len() implies ((#[trigger] states[i]).len() < capacity <==> i < capacity) by {
            assert(states[i] == vs.take(if i <= capacity { i } else { capacity as int }));
        }
    }
}

proof fn lemma_capacity_kept<T>(qs: Seq<UpQueue<T>>)
    requires
        qs.len() > 0,
        forall|i: int| 0 <= i < qs.len() - 1 ==> (#[trigger] qs[i + 1]).capacity_spec() == qs[i].capacity_spec(),
    ensures
        forall|i: int| 0 <= i < qs.len() ==> (#[trigger] qs[i]).capacity_spec() == qs[0].capacity_spec(),
    decreases qs.len(),
{
    if qs.len() > 1 {
        let front = qs.drop_last();
        assert forall|i: int| 0 <= i < front.len() - 1 implies (#[trigger] front[i + 1]).capacity_spec() == front[i].capacity_spec() by {
            assert(front[i + 1] == qs[i + 1]);
            assert(front[i] == qs[i]);
        }
        lemma_capacity_kept(front);
        assert forall|i: int| 0 <= i < qs.len() implies (#[trigger] qs[i]).capacity_spec() == qs[0].capacity_spec() by {
            if i < qs.len() - 1 {
                assert(front[i] == qs[i]);
            } else {
                let j = i - 1;
                assert(front[j] == qs[j]);
                assert(qs[j + 1].capacity_spec() == qs[j].capacity_spec());
            }
        }
    }
}

/// A list that starts empty with room for `c` items goes through the states `qs` as the
/// values `vs` are pushed one after another (each step as `UpQueue::try_push` states it). Its
/// room never changes; afterwards it holds the first `min(k, c)` of the `k` pushed values, so
/// its length is `min(k, c)`, and exactly the first `c` pushes found room.
pub proof fn lemma_pushes_fill_to_capacity_queue<T>(qs: Seq<UpQueue<T>>, vs: Seq<T>)
    requires
        qs.len() == vs.len() + 1,
        qs[0]@ == Seq::<T>::empty(),
        forall|i: int| 0 <= i < vs.len() ==> {
            &&& (#[trigger] qs[i + 1])@ == push_step(qs[i]@, qs[i].capacity_spec() as nat, vs[i])
            &&& qs[i + 1].capacity_spec() == qs[i].capacity_spec()
        },
    ensures
        forall|i: int| 0 <= i < qs.len() ==> (#[trigger] qs[i]).capacity_spec() == qs[0].capacity_spec(),
        qs.last()@ == vs.take(if vs.len() <= qs[0].capacity_spec() { vs.len() as int } else { qs[0].capacity_spec() as int }),
        qs.last()@.len() == if vs.len() <= qs[0].capacity_spec() { vs.len() } else { qs[0].capacity_spec() as nat },
        forall|i: int| 0 <= i < vs.len() ==> ((#[trigger] qs[i])@.len() < qs[0].capacity_spec() <==> i < qs[0].capacity_spec()),
{
    assert forall|i: int| 0 <= i < qs.len() - 1 implies (#[trigger] qs[i + 1]).capacity_spec() == qs[i].capacity_spec() by {
        assert(qs[i + 1] == qs[i + 1]);
    }
    lemma_capacity_kept(qs);
    let c = qs[0].capacity_spec() as nat;
    let states = Seq::new(qs.len(), |i: int| qs[i]@);
    assert forall|i: int| 0 <= i < vs.len() implies #[trigger] states[i + 1] == push_step(states[i], c, vs[i]) by {
        assert(qs[i + 1]@ == push_step(qs[i]@, qs[i].capacity_spec() as nat, vs[i]));
        assert(qs[i].capacity_spec() == qs[0].capacity_spec());
    }
    lemma_pushes_fill_to_capacity(states, vs, c);
    assert(states[vs.len() as int] == vs.take(if vs.len() <= c { vs.len() as int } else { c as int }));
    assert forall|i: int| 0 <= i < vs.len() implies ((#[trigger] qs[i])@.len() < qs[0].capacity_spec() <==> i < qs[0].capacity_spec()) by {
        assert(states[i] == qs[i]@);
        assert((states[i].len() < c <==> i < c));
    }
}

/// One step from the front of a walk over `items`: the window `from` (next index from the
/// front, index just past the next from the back) becomes `to`, and the step gives `out`.
pub open spec fn front_step<T>(items: Seq<T>, from: (int, int), to: (int, int), out: Option<T>) -> bool {
    if from.0 < from.1 {
        to == (from.0 + 1, from.1) && out == Some(items[from.0])
    } else {
        to == from && out is None
    }
}

/// One step from the back of a walk over `items`, as `front_step` from the other end.
pub open spec fn back_step<T>(items: Seq<T>, from: (int, int), to: (int, int), out: Option<T>) -> bool {
    if from.0 < from.1 {
        to == (from.0, from.1 - 1) && out == Some(items[from.1 - 1])
    } else {
        to == from && out is None
    }
}

/// The item a walk gives, with the reference taken off.
pub open spec fn deref_item<T>(r: Option<&T>) -> Option<T> {
    match r {
        Some(x) => Some(*x),
        None => None,
    }
}

/// The item an indexed walk gives, with the reference taken off.
pub open spec fn deref_indexed<T>(r: Option<(usize, &T)>) -> Option<(usize, T)> {
    match r {
        Some((i, x)) => Some((i, *x)),
        None => None,
    }
}

/// The items of `items`, each paired with its index.
pub open spec fn indexed<T>(items: Seq<T>) -> Seq<(usize, T)> {
    Seq::new(items.len(), |i: int| (i as usize, items[i]))
}

proof fn lemma_front_windows<T>(items: Seq<T>, ws: Seq<(int, int)>, outs: Seq<Option<T>>)
    requires
        ws.len() == outs.len() + 1,
        ws[0] == (0int, items.len() as int),
        forall|i: int| 0 <= i < outs.len() ==> front_step(items, ws[i], #[trigger] ws[i + 1], outs[i]),
    ensures
        forall|i: int| 0 <= i < ws.len() ==> #[trigger] ws[i] == (if i <= items.len() { i } else { items.len() as int }, items.len() as int),
    decreases outs.len(),
{
    if outs.len() > 0 {
        lemma_front_windows(items, ws.drop_last(), outs.drop_last());
        assert forall|i: int| 0 <= i < ws.len() implies #[trigger] ws[i] == (if i <= items.len() { i } else { items.len() as int }, items.len() as int) by {
            if i < ws.len() - 1 {
                assert(ws.drop_last()[i] == ws[i]);
            } else {
                assert(ws.drop_last()[i - 1] == ws[i - 1]);
                assert(front_step(items, ws[i - 1], ws[i], outs[i - 1]));
            }
        }
    }
}

/// A walk from the front over a whole list gives its items in order, then nothing: when a
/// fresh window goes through the steps `outs`, step `i` gives item `i`.
pub proof fn lemma_walk_front<T>(items: Seq<T>, ws: Seq<(int, int)>, outs: Seq<Option<T>>)
    requires
        ws.len() == outs.len() + 1,
        ws[0] == (0int, items.len() as int),
        forall|i: int| 0 <= i < outs.len() ==> front_step(items, ws[i], #[trigger] ws[i + 1], outs[i]),
    ensures
        forall|i: int| 0 <= i < outs.len() ==> #[trigger] outs[i] == if i < items.len() { Some(items[i]) } else { None },
{
    lemma_front_windows(items, ws, outs);
    assert forall|i: int| 0 <= i < outs.len() implies #[trigger] outs[i] == if i < items.len() { Some(items[i]) } else { None } by {
        assert(ws[i] == (if i <= items.len() { i } else { items.len() as int }, items.len() as int));
        assert(front_step(items, ws[i], ws[i + 1], outs[i]));
    }
}

proof fn lemma_back_windows<T>(items: Seq<T>, ws: Seq<(int, int)>, outs: Seq<Option<T>>)
    requires
        ws.len() == outs.len() + 1,
        ws[0] == (0int, items.len() as int),
        forall|i: int| 0 <= i < outs.len() ==> back_step(items, ws[i], #[trigger] ws[i + 1], outs[i]),
    ensures
        forall|i: int| 0 <= i < ws.len() ==> #[trigger] ws[i] == (0int, if i <= items.len() { items.len() - i } else { 0int }),
    decreases outs.len(),
{
    if outs.len() > 0 {
        lemma_back_windows(items, ws.drop_last(), outs.drop_last());
        assert forall|i: int| 0 <= i < ws.len() implies #[trigger] ws[i] == (0int, if i <= items.len() { items.len() - i } else { 0int }) by {
            if i < ws.len() - 1 {
                assert(ws.drop_last()[i] == ws[i]);
            } else {
                assert(ws.drop_last()[i - 1] == ws[i - 1]);
                assert(back_step(items, ws[i - 1], ws[i], outs[i - 1]));
            }
        }
    }
}

/// A walk from the back over a whole list gives its items in reverse order, then nothing:
/// step `i` gives the item `i` places from the end.
pub proof fn lemma_walk_back<T>(items: Seq<T>, ws: Seq<(int, int)>, outs: Seq<Option<T>>)
    requires
        ws.len() == outs.len() + 1,
        ws[0] == (0int, items.len() as int),
        forall|i: int| 0 <= i < outs.len() ==> back_step(items, ws[i], #[trigger] ws[i + 1], outs[i]),
    ensures
        forall|i: int| 0 <= i < outs.len() ==> #[trigger] outs[i] == if i < items.len() { Some(items[items.len() - 1 - i]) } else { None },
{
    lemma_back_windows(items, ws, outs);
    assert forall|i: int| 0 <= i < outs.len() implies #[trigger] outs[i] == if i < items.len() { Some(items[items.len() - 1 - i]) } else { None } by {
        assert(ws[i] == (0int, if i <= items.len() { items.len() - i } else { 0int }));
        assert(back_step(items, ws[i], ws[i + 1], outs[i]));
    }
}

/// A walk over the items of an `UpQueue` between two indices, from either end.
pub struct Iter<'a, T> {
    parent: &'a UpQueue<T>,
    start: usize,
    end: usize,
}

impl<'a, T> Iter<'a, T> {
    #[verifier::type_invariant]
    spec fn in_bounds(self) -> bool {
        self.start <= self.end <= self.parent@.len()
    }

    /// The items of the list walked over.
    pub closed spec fn items(self) -> Seq<T> {
        self.parent@
    }

    /// The index of the next item from the front.
    pub closed spec fn front(self) -> usize {
        self.start
    }

    /// The index just past the next item from the back.
    pub closed spec fn back(self) -> usize {
        self.end
    }

    /// The next item from the front, if any is left.
    pub fn next(&mut self) -> (r: Option<&'a T>)
        ensures
            front_step(old(self).items(), (old(self).front() as int, old(self).back() as int), (final(self).front() as int, final(self).back() as int), deref_item(r)),
            final(self).items() == old(self).items(),
            final(self).back() == old(self).back(),
            old(self).front() < old(self).back() ==> {
                &&& r == Some(&old(self).items()[old(self).front() as int])
                &&& final(self).front() == old(self).front() + 1
            },
            old(self).front() >= old(self).back() ==> r is None && final(self).front() == old(self).front(),
    {
        proof {
            use_type_invariant(&*self);
        }
        if self.start < self.end {
            let idx = self.start;
            self.start = self.start + 1;
            Some(&self.parent.items[idx])
        } else {
            None
        }
    }

    /// The next item from the back, if any is left.
    pub fn next_back(&mut self) -> (r: Option<&'a T>)
        ensures
            back_step(old(self).items(), (old(self).front() as int, old(self).back() as int), (final(self).front() as int, final(self).back() as int), deref_item(r)),
            final(self).items() == old(self).items(),
            final(self).front() == old(self).front(),
            old(self).front() < old(self).back() ==> {
                &&& r == Some(&old(self).items()[old(self).back() - 1])
                &&& final(self).back() == old(self).back() - 1
            },
            old(self).front() >= old(self).back() ==> r is None && final(self).back() == old(self).back(),
    {
        proof {
            use_type_invariant(&*self);
        }
        if self.start < self.end {
            self.end = self.end - 1;
            Some(&self.parent.items[self.end])
        } else {
            None
        }
    }

    /// Skips `n` items from the front and gives the next one; when fewer are left, the walk
    /// ends and gives nothing.
    pub fn nth(&mut self, n: usize) -> (r: Option<&'a T>)
        ensures
            final(self).items() == old(self).items(),
            final(self).back() == old(self).back(),
            old(self).front() + n < old(self).back() ==> {
                &&& r == Some(&old(self).items()[old(self).front() + n])
                &&& final(self).front() == old(self).front() + n + 1
            },
            old(self).front() + n >= old(self).back() ==> r is None && final(self).front() == old(self).back(),
    {
        proof {
            use_type_invariant(&*self);
        }
        if n < self.end - self.start {
            let idx = self.start + n;
            self.start = idx + 1;
            Some(&self.parent.items[idx])
        } else {
            self.start = self.end;
            None
        }
    }

    /// Skips `n` items from the back and gives the next one; when fewer are left, the walk
    /// ends and gives nothing.
    pub fn nth_back(&mut self, n: usize) -> (r: Option<&'a T>)
        ensures
            final(self).items() == old(self).items(),
            final(self).front() == old(self).front(),
            old(self).front() + n < old(self).back() ==> {
                &&& r == Some(&old(self).items()[old(self).back() - n - 1])
                &&& final(self).back() == old(self).back() - n - 1
            },
            old(self).front() + n >= old(self).back() ==> r is None && final(self).back() == old(self).front(),
    {
        proof {
            use_type_invariant(&*self);
        }
        if n < self.end - self.start {
            let idx = self.end - n - 1;
            self.end = idx;
            Some(&self.parent.items[idx])
        } else {
            self.end = self.start;
            None
        }
    }

    /// The number of items left.
    pub fn len(&self) -> (r: usize)
        ensures
            r == self.back() - self.front(),
    {
        proof {
            use_type_invariant(self);
        }
        self.end - self.start
    }
}

/// A walk over the items of an `UpQueue`, each with its index, between two indices, from
/// either end.
pub struct IterIndexed<'a, T> {
    parent: &'a UpQueue<T>,
    start: usize,
    end: usize,
}

impl<'a, T> IterIndexed<'a, T> {
    #[verifier::type_invariant]
    spec fn in_bounds(self) -> bool {
        self.start <= self.end <= self.parent@.len()
    }

    /// The items of the list walked over.
    pub closed spec fn items(self) -> Seq<T> {
        self.parent@
    }

    /// The index of the next item from the front.
    pub closed spec fn front(self) -> usize {
        self.start
    }

    /// The index just past the next item from the back.
    pub closed spec fn back(self) -> usize {
        self.end
    }

    /// The next item from the front with its index, if any is left.
    pub fn next(&mut self) -> (r: Option<(usize, &'a T)>)
        ensures
            front_step(indexed(old(self).items()), (old(self).front() as int, old(self).back() as int), (final(self).front() as int, final(self).back() as int), deref_indexed(r)),
            final(self).items() == old(self).items(),
            final(self).back() == old(self).back(),
            old(self).front() < old(self).back() ==> {
                &&& r == Some((old(self).front(), &old(self).items()[old(self).front() as int]))
                &&& final(self).front() == old(self).front() + 1
            },
            old(self).front() >= old(self).back() ==> r is None && final(self).front() == old(self).front(),
    {
        proof {
            use_type_invariant(&*self);
        }
        if self.start < self.end {
            let idx = self.start;
            self.start = self.start + 1;
            Some((idx, &self.parent.items[idx]))
        } else {
            None
        }
    }

    /// The next item from the back with its index, if any is left.
    pub fn next_back(&mut self) -> (r: Option<(usize, &'a T)>)
        ensures
            back_step(indexed(old(self).items()), (old(self).front() as int, old(self).back() as int), (final(self).front() as int, final(self).back() as int), deref_indexed(r)),
            final(self).items() == old(self).items(),
            final(self).front() == old(self).front(),
            old(self).front() < old(self).back() ==> {
                &&& r == Some(((old(self).back() - 1) as usize, &old(self).items()[old(self).back() - 1]))
                &&& final(self).back() == old(self).back() - 1
            },
            old(self).front() >= old(self).back() ==> r is None && final(self).back() == old(self).back(),
    {
        proof {
            use_type_invariant(&*self);
        }
        if self.start < self.end {
            self.end = self.end - 1;
            Some((self.end, &self.parent.items[self.end]))
        } else {
            None
        }
    }

    /// Skips `n` items from the front and gives the next one; when fewer are left, the walk
    /// ends and gives nothing.
    pub fn nth(&mut self, n: usize) -> (r: Option<(usize, &'a T)>)
        ensures
            final(self).items() == old(self).items(),
            final(self).back() == old(self).back(),
            old(self).front() + n < old(self).back() ==> {
                &&& r == Some(((old(self).front() + n) as usize, &old(self).items()[old(self).front() + n]))
                &&& final(self).front() == old(self).front() + n + 1
            },
            old(self).front() + n >= old(self).back() ==> r is None && final(self).front() == old(self).back(),
    {
        proof {
            use_type_invariant(&*self);
        }
        if n < self.end - self.start {
            let idx = self.start + n;
            self.start = idx + 1;
            Some((idx, &self.parent.items[idx]))
        } else {
            self.start = self.end;
            None
        }
    }

    /// Skips `n` items from the back and gives the next one; when fewer are left, the walk
    /// ends and gives nothing.
    pub fn nth_back(&mut self, n: usize) -> (r: Option<(usize, &'a T)>)
        ensures
            final(self).items() == old(self).items(),
            final(self).front() == old(self).front(),
            old(self).front() + n < old(self).back() ==> {
                &&& r == Some(((old(self).back() - n - 1) as usize, &old(self).items()[old(self).back() - n - 1]))
                &&& final(self).back() == old(self).back() - n - 1
            },
            old(self).front() + n >= old(self).back() ==> r is None && final(self).back() == old(self).front(),
    {
        proof {
            use_type_invariant(&*self);
        }
        if n < self.end - self.start {
            let idx = self.end - n - 1;
            self.end = idx;
            Some((idx, &self.parent.items[idx]))
        } else {
            self.end = self.start;
            None
        }
    }

    /// The number of items left.
    pub fn len(&self) -> (r: usize)
        ensures
            r == self.back() - self.front(),
    {
        proof {
            use_type_invariant(self);
        }
        self.end - self.start
    }
}

} // verus!
