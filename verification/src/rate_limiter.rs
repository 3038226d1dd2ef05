use vstd::prelude::*;

verus! {

/// One observable event in the life of a rate limiter: an operation asking to
/// begin, or an admitted operation ending (its permit being released).
pub enum LimiterEvent {
    Begin,
    End,
}

/// How one event changes the number of admitted, still-running operations.
///
/// A `Begin` beyond capacity admits nothing: the caller keeps waiting and the
/// count is unchanged. An `End` releases one permit.
pub open spec fn limiter_step(capacity: nat, in_flight: nat, event: LimiterEvent) -> nat {
    match event {
        LimiterEvent::Begin => if in_flight < capacity {
            in_flight + 1
        } else {
            in_flight
        },
        LimiterEvent::End => if in_flight > 0 {
            (in_flight - 1) as nat
        } else {
            0
        },
    }
}

/// The number of admitted, still-running operations after a whole sequence of
/// events, starting from an idle limiter.
pub open spec fn in_flight_after(capacity: nat, events: Seq<LimiterEvent>) -> nat
    decreases events.len(),
{
    if events.len() == 0 {
        0
    } else {
        limiter_step(capacity, in_flight_after(capacity, events.drop_last()), events.last())
    }
}

/// However callers interleave their begins and ends, at most `capacity`
/// operations are ever running at once.
pub proof fn lemma_concurrency_bound(capacity: nat, events: Seq<LimiterEvent>)
    ensures
        in_flight_after(capacity, events) <= capacity,
    decreases events.len(),
{
    if events.len() > 0 {
        lemma_concurrency_bound(capacity, events.drop_last());
    }
}

/// With `capacity` operations running, one more `Begin` starts nothing; it is
/// admitted exactly after one running operation ends. An operation launched
/// beyond capacity therefore starts only after one of the others finishes.
pub proof fn lemma_extra_operation_waits(capacity: nat, events: Seq<LimiterEvent>)
    requires
        in_flight_after(capacity, events) == capacity,
    ensures
        in_flight_after(capacity, events.push(LimiterEvent::Begin)) == capacity,
        capacity > 0 ==> in_flight_after(
            capacity,
            events.push(LimiterEvent::End).push(LimiterEvent::Begin),
        ) == capacity,
{
    let blocked = events.push(LimiterEvent::Begin);
    assert(blocked.drop_last() =~= events);
    let freed = events.push(LimiterEvent::End);
    assert(freed.drop_last() =~= events);
    let retried = freed.push(LimiterEvent::Begin);
    assert(retried.drop_last() =~= freed);
    if capacity > 0 {
        assert(in_flight_after(capacity, freed) == capacity - 1);
        assert(in_flight_after(capacity, retried) == capacity);
    }
}

/// Starting from idle, up to `capacity` consecutive begins are all admitted.
pub proof fn lemma_consecutive_begins(capacity: nat, opens: Seq<LimiterEvent>)
    requires
        opens.len() <= capacity,
        forall|i: int| 0 <= i < opens.len() ==> opens[i] == LimiterEvent::Begin,
    ensures
        in_flight_after(capacity, opens) == opens.len(),
    decreases opens.len(),
{
    if opens.len() > 0 {
        lemma_consecutive_begins(capacity, opens.drop_last());
    }
}

/// A streaming operation holds its permit for the stream's whole lifetime:
/// its `Begin` is its admission and its `End` comes only when the stream is
/// drained, fails, or is dropped. So with `capacity` streams open, one extra
/// `stream` call is not admitted — merely having constructed the other
/// streams frees nothing — and it is admitted exactly after one of them ends.
pub proof fn lemma_stream_holds_permit(capacity: nat, opens: Seq<LimiterEvent>)
    requires
        capacity > 0,
        opens.len() == capacity,
        forall|i: int| 0 <= i < opens.len() ==> opens[i] == LimiterEvent::Begin,
    ensures
        in_flight_after(capacity, opens) == capacity,
        in_flight_after(capacity, opens.push(LimiterEvent::Begin)) == capacity,
        in_flight_after(capacity, opens.push(LimiterEvent::End).push(LimiterEvent::Begin))
            == capacity,
{
    lemma_consecutive_begins(capacity, opens);
    lemma_extra_operation_waits(capacity, opens);
}

/// A counting admission gate bounding the number of concurrent in-flight
/// operations. Work is delayed, never refused: an unadmitted caller asks once
/// more after some running operation releases its permit (in an asynchronous
/// host, after awaiting).
pub struct RateLimiter {
    capacity: usize,
    in_flight: usize,
}

impl RateLimiter {
    /// Number of operations the limiter admits at once; fixed at construction.
    pub closed spec fn capacity(&self) -> nat {
        self.capacity as nat
    }

    /// Number of admitted operations whose permits are still held.
    pub closed spec fn in_flight(&self) -> nat {
        self.in_flight as nat
    }

    /// The limiter's invariant: positive capacity, never exceeded.
    pub open spec fn wf(&self) -> bool {
        1 <= self.capacity() && self.in_flight() <= self.capacity()
    }

    /// Whether one more operation would be admitted right now.
    pub open spec fn can_admit(&self) -> bool {
        self.in_flight() < self.capacity()
    }

    pub fn new(capacity: usize) -> (r: RateLimiter)
        requires
            1 <= capacity,
        ensures
            r.wf(),
            r.capacity() == capacity,
            r.in_flight() == 0,
    {
        RateLimiter { capacity, in_flight: 0 }
    }

    /// Ask to begin one operation. Admits it (and takes one permit) exactly
    /// when fewer than `capacity` operations are in flight; otherwise leaves
    /// the limiter unchanged and the caller must retry after a release.
    pub fn try_acquire(&mut self) -> (admitted: bool)
        requires
            old(self).wf(),
        ensures
            final(self).wf(),
            final(self).capacity() == old(self).capacity(),
            admitted == old(self).can_admit(),
            final(self).in_flight() == limiter_step(
                old(self).capacity(),
                old(self).in_flight(),
                LimiterEvent::Begin,
            ),
    {
        if self.in_flight < self.capacity {
            self.in_flight = self.in_flight + 1;
            true
        } else {
            false
        }
    }

    /// Release the permit of one finished operation. Every admitted
    /// operation releases exactly once, on every exit path.
    pub fn release(&mut self)
        requires
            old(self).wf(),
            1 <= old(self).in_flight(),
        ensures
            final(self).wf(),
            final(self).capacity() == old(self).capacity(),
            final(self).in_flight() == limiter_step(
                old(self).capacity(),
                old(self).in_flight(),
                LimiterEvent::End,
            ),
    {
        self.in_flight = self.in_flight - 1;
    }
}

} // verus!
