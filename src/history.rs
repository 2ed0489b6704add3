use ringbuf::Rb;
use vstd::prelude::*;
use vstd::string::StringExecFns;

verus! {

/// A ring buffer of ringbuf's, holding lines of text. Verus sees it only
/// through `ring_lines` and `ring_capacity`.
#[verifier::external_body]
pub struct LineRing {
    rb: ringbuf::HeapRb<String>,
}

/// The lines held by a ring buffer, oldest first.
pub uninterp spec fn ring_lines(rb: LineRing) -> Seq<String>;

/// The number of slots a ring buffer was created with.
pub uninterp spec fn ring_capacity(rb: LineRing) -> nat;

/// Relies on ringbuf's `HeapRb::new`: an empty buffer with `capacity` slots.
/// It panics on a zero capacity.
#[verifier::external_body]
fn ring_new(capacity: usize) -> (r: LineRing)
    requires
        capacity > 0,
    ensures
        ring_lines(r) == Seq::<String>::empty(),
        ring_capacity(r) == capacity,
{
    LineRing { rb: ringbuf::HeapRb::new(capacity) }
}

/// Relies on ringbuf's `Rb::push_overwrite`: when the buffer is full the
/// oldest line is popped first, then the new line is appended.
#[verifier::external_body]
fn ring_push_overwrite(ring: &mut LineRing, line: String)
    requires
        ring_lines(*old(ring)).len() <= ring_capacity(*old(ring)),
    ensures
        ring_capacity(*final(ring)) == ring_capacity(*old(ring)),
        ring_lines(*final(ring)) == (if ring_lines(*old(ring)).len() == ring_capacity(*old(ring)) {
            ring_lines(*old(ring)).drop_first().push(line)
        } else {
            ring_lines(*old(ring)).push(line)
        }),
{
    ring.rb.push_overwrite(line);
}

/// Relies on ringbuf's `Rb::iter`: the held lines, front to back.
#[verifier::external_body]
fn ring_contents(ring: &LineRing) -> (r: Vec<String>)
    ensures
        r@ == ring_lines(*ring),
{
    ring.rb.iter().cloned().collect()
}

/// The last `capacity` items of `s` (all of them when there are fewer).
pub open spec fn keep_last(s: Seq<String>, capacity: nat) -> Seq<String> {
    if s.len() <= capacity {
        s
    } else {
        s.subrange(s.len() - capacity, s.len() as int)
    }
}

/// The lines written one after another, oldest first.
pub open spec fn joined(lines: Seq<String>) -> Seq<char>
    decreases lines.len(),
{
    if lines.len() == 0 {
        Seq::<char>::empty()
    } else {
        joined(lines.drop_last()) + lines.last()@
    }
}

/// A fixed-capacity, insertion-ordered store of the most recent output lines
/// of one stream; when full, the oldest line makes room for the newest.
pub struct LineHistory {
    ring: LineRing,
}

impl View for LineHistory {
    type V = Seq<String>;

    closed spec fn view(&self) -> Seq<String> {
        ring_lines(self.ring)
    }
}

impl LineHistory {
    /// The number of lines this history can hold.
    pub closed spec fn capacity(&self) -> nat {
        ring_capacity(self.ring)
    }

    /// The history holds at most its capacity, which is not zero.
    pub open spec fn wf(&self) -> bool {
        &&& self.capacity() > 0
        &&& self@.len() <= self.capacity()
    }

    /// An empty history that keeps at most `capacity` lines.
    pub fn new(capacity: usize) -> (r: LineHistory)
        requires
            capacity > 0,
        ensures
            r.wf(),
            r@ == Seq::<String>::empty(),
            r.capacity() == capacity,
    {
        LineHistory { ring: ring_new(capacity) }
    }

    /// Appends a line, evicting the oldest one when the history is full.
    pub fn push(&mut self, line: String)
        requires
            old(self).wf(),
        ensures
            final(self).wf(),
            final(self).capacity() == old(self).capacity(),
            final(self)@ == keep_last(old(self)@.push(line), old(self).capacity()),
    {
        let ghost before = self@;
        ring_push_overwrite(&mut self.ring, line);
        assert(self@ =~= keep_last(before.push(line), self.capacity()));
    }

    /// Appends the lines in order, as `push` would one by one.
    pub fn push_all(&mut self, lines: Vec<String>)
        requires
            old(self).wf(),
        ensures
            final(self).wf(),
            final(self).capacity() == old(self).capacity(),
            final(self)@ == keep_last(old(self)@ + lines@, old(self).capacity()),
    {
        let ghost start = self@;
        let ghost cap = self.capacity();
        let ghost incoming = lines@;
        let mut rest = lines;
        let total: usize = rest.len();
        let mut taken: usize = 0;
        while rest.len() > 0
            invariant
                incoming.len() == total,
                self.wf(),
                self.capacity() == cap,
                taken + rest@.len() == incoming.len(),
                rest@ == incoming.subrange(taken as int, incoming.len() as int),
                self@ == keep_last(start + incoming.subrange(0, taken as int), cap),
            decreases rest@.len(),
        {
            let line = rest.remove(0);
            let ghost prefix = start + incoming.subrange(0, taken as int);
            proof {
                lemma_keep_last_push(prefix, line, cap);
                assert(prefix.push(line) =~= start + incoming.subrange(0, taken + 1));
            }
            self.push(line);
            taken = taken + 1;
        }
        assert(incoming.subrange(0, taken as int) =~= incoming);
    }

    /// All held lines concatenated, oldest first, with nothing added between them.
    pub fn snapshot(&self) -> (r: String)
        ensures
            r@ == joined(self@),
    {
        let held = ring_contents(&self.ring);
        let mut out = String::new();
        let mut i: usize = 0;
        while i < held.len()
            invariant
                i <= held@.len(),
                held@ == self@,
                out@ == joined(held@.subrange(0, i as int)),
            decreases held@.len() - i,
        {
            assert(held@.subrange(0, i + 1).drop_last() =~= held@.subrange(0, i as int));
            out.append(held[i].as_str());
            i = i + 1;
        }
        assert(held@.subrange(0, i as int) =~= held@);
        out
    }

    /// The held lines, oldest first.
    pub fn lines(&self) -> (r: Vec<String>)
        ensures
            r@ == self@,
    {
        ring_contents(&self.ring)
    }
}

/// Trimming to the last `capacity` lines before a push and again after it
/// gives what trimming once after the push gives; a trimmed sequence fits
/// the capacity.
pub proof fn lemma_keep_last_push(s: Seq<String>, line: String, capacity: nat)
    requires
        capacity > 0,
    ensures
        keep_last(keep_last(s, capacity).push(line), capacity) == keep_last(s.push(line), capacity),
        keep_last(s, capacity).len() <= capacity,
{
    assert(keep_last(keep_last(s, capacity).push(line), capacity) =~= keep_last(s.push(line), capacity));
}

/// The lines held after pushing each of `pushed` in turn onto a history
/// holding `held`, one `push` at a time.
pub open spec fn push_each(held: Seq<String>, pushed: Seq<String>, capacity: nat) -> Seq<String>
    decreases pushed.len(),
{
    if pushed.len() == 0 {
        held
    } else {
        push_each(keep_last(held.push(pushed[0]), capacity), pushed.drop_first(), capacity)
    }
}

/// Whatever lines are pushed one by one, the history never holds more than
/// its capacity, and it holds exactly the most recent lines in push order:
/// once more lines than the capacity have arrived, the last `capacity` of them.
pub proof fn lemma_pushes_keep_last(held: Seq<String>, pushed: Seq<String>, capacity: nat)
    requires
        capacity > 0,
        held.len() <= capacity,
    ensures
        push_each(held, pushed, capacity) == keep_last(held + pushed, capacity),
        push_each(held, pushed, capacity).len() <= capacity,
        held.len() + pushed.len() >= capacity ==> push_each(held, pushed, capacity).len() == capacity,
        pushed.len() >= capacity ==> push_each(held, pushed, capacity) == pushed.subrange(
            pushed.len() - capacity,
            pushed.len() as int,
        ),
    decreases pushed.len(),
{
    if pushed.len() > 0 {
        let next = keep_last(held.push(pushed[0]), capacity);
        lemma_pushes_keep_last(next, pushed.drop_first(), capacity);
        lemma_keep_last_push(held, pushed[0], capacity);
        assert(keep_last(next + pushed.drop_first(), capacity) =~= keep_last(held + pushed, capacity));
    } else {
        assert(held + pushed =~= held);
    }
    if pushed.len() >= capacity {
        assert(keep_last(held + pushed, capacity) =~= pushed.subrange(
            pushed.len() - capacity,
            pushed.len() as int,
        ));
    }
}

} // verus!
