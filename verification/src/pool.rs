//! The proxy connection pool: pooled connections with the times they were
//! opened and last checked, a bounded first-in first-out queue of them, and
//! the decisions the pool takes when it fills, checks and hands out
//! connections.
use crate::config::Config;
use crate::domain::{lemma_whole_seconds_laws, utc_now, Timestamp};
use crate::error::AgentError;
use vstd::multiset::Multiset;
use vstd::prelude::*;

verus! {

broadcast use vstd::seq_lib::group_to_multiset_ensures;

/// A proxy connection in the pool.
pub struct PooledProxyConnection<T> {
    inner: T,
    create_time: Timestamp,
    last_check_time: Timestamp,
    check_interval: i64,
    max_lifetime: i64,
}

impl<T> PooledProxyConnection<T> {
    /// The connection itself.
    pub closed spec fn spec_inner(&self) -> T {
        self.inner
    }

    /// When the connection was opened.
    pub closed spec fn spec_create_time(&self) -> Timestamp {
        self.create_time
    }

    /// When the connection was last found healthy (at first, when it was
    /// opened).
    pub closed spec fn spec_last_check_time(&self) -> Timestamp {
        self.last_check_time
    }

    /// How many seconds a connection may go unchecked.
    pub closed spec fn spec_check_interval(&self) -> i64 {
        self.check_interval
    }

    /// How many seconds a connection may live.
    pub closed spec fn spec_max_lifetime(&self) -> i64 {
        self.max_lifetime
    }

    /// Both times are well-formed timestamps.
    pub open spec fn wf(&self) -> bool {
        self.spec_create_time().wf() && self.spec_last_check_time().wf()
    }

    /// Whether, at `now`, more whole seconds than the check interval have
    /// passed since the last check.
    pub open spec fn spec_need_check(&self, now: Timestamp) -> bool {
        now.spec_whole_seconds_since(self.spec_last_check_time()) > self.spec_check_interval()
    }

    /// Whether, at `now`, more whole seconds than the maximum lifetime have
    /// passed since the connection was opened.
    pub open spec fn spec_need_close(&self, now: Timestamp) -> bool {
        now.spec_whole_seconds_since(self.spec_create_time()) > self.spec_max_lifetime()
    }

    /// Pools `inner`, opened and checked at `now`, under the configured
    /// check interval and maximum lifetime.
    pub fn new_at(inner: T, config: &Config, now: Timestamp) -> (c: Self)
        ensures
            c.spec_inner() == inner,
            c.spec_create_time() == now,
            c.spec_last_check_time() == now,
            c.spec_check_interval() == config.proxy_connection_check_interval,
            c.spec_max_lifetime() == config.proxy_connection_max_lifetime,
    {
        PooledProxyConnection {
            inner,
            create_time: now,
            last_check_time: now,
            check_interval: config.proxy_connection_check_interval,
            max_lifetime: config.proxy_connection_max_lifetime,
        }
    }

    /// Pools `inner`, opened and checked now.
    pub fn new(inner: T, config: &Config) -> (c: Self)
        ensures
            c.wf(),
            c.spec_inner() == inner,
            c.spec_create_time() == c.spec_last_check_time(),
            c.spec_check_interval() == config.proxy_connection_check_interval,
            c.spec_max_lifetime() == config.proxy_connection_max_lifetime,
    {
        let now = utc_now();
        Self::new_at(inner, config, now)
    }

    /// Whether the connection is due for a check at `now`.
    pub fn need_check_at(&self, now: &Timestamp) -> (b: bool)
        requires
            self.wf(),
            now.wf(),
        ensures
            b == self.spec_need_check(*now),
    {
        now.whole_seconds_since(&self.last_check_time) > self.check_interval
    }

    /// Whether the connection is due for a check now (a reading of the
    /// clock, at or after the epoch).
    pub fn need_check(&self) -> (b: bool)
        requires
            self.wf(),
        ensures
            exists|now: Timestamp| now.wf() && now.secs >= 0 && b == self.spec_need_check(now),
    {
        let now = utc_now();
        self.need_check_at(&now)
    }

    /// Whether the connection has outlived its maximum lifetime at `now`.
    pub fn need_close_at(&self, now: &Timestamp) -> (b: bool)
        requires
            self.wf(),
            now.wf(),
        ensures
            b == self.spec_need_close(*now),
    {
        now.whole_seconds_since(&self.create_time) > self.max_lifetime
    }

    /// Whether the connection has outlived its maximum lifetime now (a
    /// reading of the clock, at or after the epoch).
    pub fn need_close(&self) -> (b: bool)
        requires
            self.wf(),
        ensures
            exists|now: Timestamp| now.wf() && now.secs >= 0 && b == self.spec_need_close(now),
    {
        let now = utc_now();
        self.need_close_at(&now)
    }

    /// Records that the connection was found healthy at `now`.
    pub fn update_check_time_at(&mut self, now: Timestamp)
        ensures
            final(self).spec_last_check_time() == now,
            final(self).spec_inner() == old(self).spec_inner(),
            final(self).spec_create_time() == old(self).spec_create_time(),
            final(self).spec_check_interval() == old(self).spec_check_interval(),
            final(self).spec_max_lifetime() == old(self).spec_max_lifetime(),
    {
        self.last_check_time = now;
    }

    /// Records that the connection was found healthy now: the last check
    /// time becomes a reading of the clock (at or after the epoch).
    pub fn update_check_time(&mut self)
        requires
            old(self).wf(),
        ensures
            final(self).wf(),
            final(self).spec_last_check_time().secs >= 0,
            final(self).spec_inner() == old(self).spec_inner(),
            final(self).spec_create_time() == old(self).spec_create_time(),
            final(self).spec_check_interval() == old(self).spec_check_interval(),
            final(self).spec_max_lifetime() == old(self).spec_max_lifetime(),
    {
        let now = utc_now();
        self.update_check_time_at(now);
    }

    /// When the connection was opened.
    pub fn create_time(&self) -> (t: &Timestamp)
        ensures
            *t == self.spec_create_time(),
    {
        &self.create_time
    }

    /// When the connection was last found healthy.
    pub fn last_check_time(&self) -> (t: &Timestamp)
        ensures
            *t == self.spec_last_check_time(),
    {
        &self.last_check_time
    }

    /// The connection itself.
    pub fn inner(&self) -> (r: &T)
        ensures
            *r == self.spec_inner(),
    {
        &self.inner
    }

    /// The connection itself, for reading and writing.
    pub fn inner_mut(&mut self) -> (r: &mut T)
        ensures
            *r == old(self).spec_inner(),
            final(self).spec_inner() == *final(r),
            final(self).spec_create_time() == old(self).spec_create_time(),
            final(self).spec_last_check_time() == old(self).spec_last_check_time(),
            final(self).spec_check_interval() == old(self).spec_check_interval(),
            final(self).spec_max_lifetime() == old(self).spec_max_lifetime(),
    {
        &mut self.inner
    }

    /// Gives the connection itself back.
    pub fn into_inner(self) -> (r: T)
        ensures
            r == self.spec_inner(),
    {
        self.inner
    }
}

/// A connection that is due for a check, or has outlived its lifetime, at
/// some time stays so at every later time (until it is checked again).
pub proof fn lemma_due_stays_due<T>(connection: PooledProxyConnection<T>, now: Timestamp, later: Timestamp)
    requires
        now.total_nanos() <= later.total_nanos(),
    ensures
        connection.spec_need_check(now) ==> connection.spec_need_check(later),
        connection.spec_need_close(now) ==> connection.spec_need_close(later),
{
    lemma_whole_seconds_laws(now, connection.spec_last_check_time(), later);
    lemma_whole_seconds_laws(now, connection.spec_create_time(), later);
}

/// At the time it was last checked a connection is not due for a check, and
/// at the time it was opened it has not outlived its lifetime (for a check
/// interval and a lifetime that are not negative).
pub proof fn lemma_fresh_not_due<T>(connection: PooledProxyConnection<T>, now: Timestamp)
    ensures
        connection.spec_last_check_time() == now && connection.spec_check_interval() >= 0
            ==> !connection.spec_need_check(now),
        connection.spec_create_time() == now && connection.spec_max_lifetime() >= 0
            ==> !connection.spec_need_close(now),
{
}

/// A time at or after the epoch lies more than `limit` whole seconds after
/// any time that is more than `limit + 1` seconds before the epoch.
proof fn lemma_far_before_epoch(now: Timestamp, earlier: Timestamp, limit: i64)
    requires
        now.wf(),
        earlier.wf(),
        now.secs >= 0,
        earlier.secs + limit + 2 <= 0,
    ensures
        now.spec_whole_seconds_since(earlier) > limit,
{
    let d = now.total_nanos() - earlier.total_nanos();
    let x = (limit + 1) * 1000000000;
    assert(d >= x) by (nonlinear_arith)
        requires
            d == now.secs * 1000000000 + now.nanos - (earlier.secs * 1000000000 + earlier.nanos),
            now.secs >= 0,
            earlier.nanos < 1000000000,
            earlier.secs + limit + 2 <= 0,
            x == (limit + 1) * 1000000000,
    ;
    vstd::arithmetic::div_mod::lemma_div_is_ordered(x, d, 1000000000);
    vstd::arithmetic::div_mod::lemma_div_multiples_vanish((limit + 1) as int, 1000000000);
    assert(x / 1000000000 == limit + 1) by (nonlinear_arith)
        requires
            x == (limit + 1) * 1000000000,
            ((limit + 1) * 1000000000) / 1000000000 == limit + 1,
    ;
}

/// Whatever reading of the clock at or after the epoch a check uses, a
/// connection last checked more than its check interval (plus a second)
/// before the epoch is due for a check, and one opened more than its
/// lifetime (plus a second) before the epoch is past its lifetime: the
/// answer comes from the reading, not from the connection's own times.
pub proof fn lemma_clock_reading_decides<T>(connection: PooledProxyConnection<T>, now: Timestamp)
    requires
        connection.wf(),
        now.wf(),
        now.secs >= 0,
    ensures
        connection.spec_last_check_time().secs + connection.spec_check_interval() + 2 <= 0
            ==> connection.spec_need_check(now),
        connection.spec_create_time().secs + connection.spec_max_lifetime() + 2 <= 0
            ==> connection.spec_need_close(now),
{
    if connection.spec_last_check_time().secs + connection.spec_check_interval() + 2 <= 0 {
        lemma_far_before_epoch(now, connection.spec_last_check_time(), connection.spec_check_interval());
    }
    if connection.spec_create_time().secs + connection.spec_max_lifetime() + 2 <= 0 {
        lemma_far_before_epoch(now, connection.spec_create_time(), connection.spec_max_lifetime());
    }
}

/// The pool's answer to a push when it holds as many items as it may.
#[derive(Debug)]
pub enum PushError<T> {
    /// The pool is full; the item is handed back.
    Full(T),
}

/// The pool's answer to a pop when it holds nothing.
#[derive(Debug, Clone, Copy, PartialEq, Eq, Structural)]
pub enum PopError {
    /// The pool is empty.
    Empty,
}

/// A bounded first-in first-out queue of pooled connections.
pub struct ConnectionQueue<T> {
    items: Vec<T>,
    capacity: usize,
}

impl<T> ConnectionQueue<T> {
    /// The queued items, oldest first.
    pub closed spec fn view(&self) -> Seq<T> {
        self.items@
    }

    /// The most items the queue may hold.
    pub closed spec fn spec_capacity(&self) -> usize {
        self.capacity
    }

    /// The queue holds at least one and at most its capacity of items.
    pub open spec fn wf(&self) -> bool {
        0 < self.spec_capacity() && self.view().len() <= self.spec_capacity()
    }

    /// An empty queue that holds at most `capacity` items.
    pub fn bounded(capacity: usize) -> (q: Self)
        requires
            capacity > 0,
        ensures
            q.wf(),
            q.view() == Seq::<T>::empty(),
            q.spec_capacity() == capacity,
    {
        ConnectionQueue { items: Vec::new(), capacity }
    }

    /// How many items are queued.
    pub fn len(&self) -> (n: usize)
        ensures
            n == self.view().len(),
    {
        self.items.len()
    }

    /// Whether no item is queued.
    pub fn is_empty(&self) -> (b: bool)
        ensures
            b == (self.view().len() == 0),
    {
        self.items.len() == 0
    }

    /// Whether the queue holds as many items as it may.
    pub fn is_full(&self) -> (b: bool)
        ensures
            b == (self.view().len() >= self.spec_capacity()),
    {
        self.items.len() >= self.capacity
    }

    /// The most items the queue may hold.
    pub fn capacity(&self) -> (n: usize)
        ensures
            n == self.spec_capacity(),
    {
        self.capacity
    }

    /// Queues `item` at the back, or hands it back when the queue is full.
    pub fn push(&mut self, item: T) -> (r: Result<(), PushError<T>>)
        requires
            old(self).wf(),
        ensures
            final(self).wf(),
            final(self).spec_capacity() == old(self).spec_capacity(),
            old(self).view().len() < old(self).spec_capacity() ==> r is Ok && final(self).view()
                == old(self).view().push(item),
            old(self).view().len() >= old(self).spec_capacity() ==> r == Err::<(), PushError<T>>(
                PushError::Full(item),
            ) && final(self).view() == old(self).view(),
    {
        if self.items.len() >= self.capacity {
            Err(PushError::Full(item))
        } else {
            self.items.push(item);
            Ok(())
        }
    }

    /// Takes the oldest item, or reports that the queue is empty.
    pub fn pop(&mut self) -> (r: Result<T, PopError>)
        requires
            old(self).wf(),
        ensures
            final(self).wf(),
            final(self).spec_capacity() == old(self).spec_capacity(),
            old(self).view().len() == 0 ==> r == Err::<T, PopError>(PopError::Empty) && final(self).view()
                == old(self).view(),
            old(self).view().len() > 0 ==> r == Ok::<T, PopError>(old(self).view()[0])
                && final(self).view() == old(self).view().drop_first(),
    {
        if self.items.len() == 0 {
            Err(PopError::Empty)
        } else {
            let item = self.items.remove(0);
            assert(self.items@ =~= old(self).items@.drop_first());
            Ok(item)
        }
    }
}

/// What pushing and then popping on a queue gives: an empty queue hands back
/// the item pushed into it, and a queue of other items hands back its
/// oldest item, first in first out.
pub proof fn lemma_queue_first_in_first_out<T>(before: Seq<T>, item: T)
    ensures
        before.len() == 0 ==> before.push(item)[0] == item && before.push(item).drop_first()
            == Seq::<T>::empty(),
        before.len() > 0 ==> before.push(item)[0] == before[0] && before.push(item).drop_first()
            == before.drop_first().push(item),
{
    if before.len() == 0 {
        assert(before.push(item).drop_first() =~= Seq::<T>::empty());
    } else {
        assert(before.push(item).drop_first() =~= before.drop_first().push(item));
    }
}

/// How many of `offered` items a queue with `free` free places takes.
pub open spec fn taken_count(free: int, offered: int) -> int {
    if offered <= free {
        offered
    } else {
        free
    }
}

/// Puts `connections` into the queue in their order while it has room; the
/// rest, which do not fit, are handed back to be closed.
pub fn put_back_all<T>(queue: &mut ConnectionQueue<T>, connections: Vec<T>) -> (dropped: Vec<T>)
    requires
        old(queue).wf(),
    ensures
        final(queue).wf(),
        final(queue).spec_capacity() == old(queue).spec_capacity(),
        ({
            let kept = taken_count(
                old(queue).spec_capacity() - old(queue).view().len(),
                connections@.len() as int,
            );
            &&& final(queue).view() == old(queue).view() + connections@.take(kept)
            &&& dropped@ == connections@.skip(kept)
        }),
{
    let ghost original = connections@;
    let ghost start = queue.view();
    let ghost free: int = queue.spec_capacity() - queue.view().len();
    let mut rest = connections;
    let mut dropped: Vec<T> = Vec::new();
    let mut done: usize = 0;
    let count: usize = rest.len();
    assert(original.len() == count);
    while rest.len() > 0
        invariant
            queue.wf(),
            queue.spec_capacity() == old(queue).spec_capacity(),
            start == old(queue).view(),
            free == queue.spec_capacity() - start.len(),
            0 <= free,
            original.len() <= usize::MAX,
            done <= original.len(),
            done + rest.len() == original.len(),
            rest@ == original.skip(done as int),
            queue.view() == start + original.take(taken_count(free, done as int)),
            dropped@ == original.subrange(taken_count(free, done as int), done as int),
        decreases rest.len(),
    {
        let item = rest.remove(0);
        assert(item == original[done as int]);
        assert(rest@ =~= original.skip(done + 1));
        let ghost before = queue.view();
        match queue.push(item) {
            Ok(()) => {
                assert(before.len() < queue.spec_capacity());
                assert(original.take(taken_count(free, done + 1)) =~= original.take(
                    taken_count(free, done as int),
                ).push(item));
            },
            Err(PushError::Full(item)) => {
                dropped.push(item);
                assert(dropped@ =~= original.subrange(taken_count(free, done + 1), done + 1));
            },
        }
        done = done + 1;
    }
    assert(original.take(taken_count(free, done as int)) == original.take(
        taken_count(free, original.len() as int),
    ));
    assert(dropped@ =~= original.skip(taken_count(free, original.len() as int)));
    dropped
}

/// How many connections a fill opens: enough to bring `current` up to `max`.
pub fn connections_to_open(current: usize, max: usize) -> (n: usize)
    ensures
        n == if current < max {
            max - current
        } else {
            0
        },
{
    if current < max {
        max - current
    } else {
        0
    }
}

/// What the periodic check does with a connection taken from the pool.
#[derive(Debug, Clone, Copy, PartialEq, Eq, Structural)]
pub enum CheckTaskAction {
    /// It has outlived its maximum lifetime: close it.
    Close,
    /// It was checked recently enough: put it back as it is.
    PutBack,
    /// It is due for a heartbeat check.
    Check,
}

/// What the periodic check does with `connection` at `now`.
pub fn check_task_action<T>(connection: &PooledProxyConnection<T>, now: &Timestamp) -> (a: CheckTaskAction)
    requires
        connection.wf(),
        now.wf(),
    ensures
        a == if connection.spec_need_close(*now) {
            CheckTaskAction::Close
        } else if !connection.spec_need_check(*now) {
            CheckTaskAction::PutBack
        } else {
            CheckTaskAction::Check
        },
{
    if connection.need_close_at(now) {
        CheckTaskAction::Close
    } else if !connection.need_check_at(now) {
        CheckTaskAction::PutBack
    } else {
        CheckTaskAction::Check
    }
}

/// What taking a connection from the pool does next with what the pool
/// gave.
pub enum TakeStep<T> {
    /// Hand the connection out as it is.
    Hand(PooledProxyConnection<T>),
    /// Check the connection with a heartbeat, and hand it out if healthy.
    Check(PooledProxyConnection<T>),
    /// The pool is empty and no check is running: fill it, wait, try again.
    FillThenWait,
    /// The pool is empty while a check is running: wait, try again.
    Wait,
}

/// What taking a connection does with the result of a pop, given whether
/// the periodic check is running, at `now`.
pub fn take_step<T>(popped: Result<PooledProxyConnection<T>, PopError>, checking: bool, now: &Timestamp) -> (s: TakeStep<T>)
    requires
        popped matches Ok(c) ==> c.wf(),
        now.wf(),
    ensures
        popped is Err && !checking ==> s is FillThenWait,
        popped is Err && checking ==> s is Wait,
        popped matches Ok(c) ==> (if c.spec_need_check(*now) {
            s == TakeStep::Check(c)
        } else {
            s == TakeStep::Hand(c)
        }),
{
    match popped {
        Err(PopError::Empty) => if checking {
            TakeStep::Wait
        } else {
            TakeStep::FillThenWait
        },
        Ok(connection) => if connection.need_check_at(now) {
            TakeStep::Check(connection)
        } else {
            TakeStep::Hand(connection)
        },
    }
}

/// Whether a connection is put back as it is by a check at `now`: within its
/// lifetime and not due for a check.
pub open spec fn kept_at<T>(now: Timestamp) -> spec_fn(PooledProxyConnection<T>) -> bool {
    |c: PooledProxyConnection<T>| !c.spec_need_close(now) && !c.spec_need_check(now)
}

/// Whether a connection is checked with a heartbeat by a check at `now`:
/// within its lifetime and due for a check.
pub open spec fn checked_at<T>(now: Timestamp) -> spec_fn(PooledProxyConnection<T>) -> bool {
    |c: PooledProxyConnection<T>| !c.spec_need_close(now) && c.spec_need_check(now)
}

/// One round of the periodic check over the connections taken from the pool
/// at `now`: those past their lifetime are closed (dropped), those not due
/// are kept to be put back, and those due are handed out to be checked; each
/// group keeps the order the connections were taken in.
pub fn plan_check_round<T>(connections: Vec<PooledProxyConnection<T>>, now: &Timestamp) -> (r: (
    Vec<PooledProxyConnection<T>>,
    Vec<PooledProxyConnection<T>>,
))
    requires
        forall|i: int| 0 <= i < connections@.len() ==> (#[trigger] connections@[i]).wf(),
        now.wf(),
    ensures
        r.0@ == connections@.filter(kept_at(*now)),
        r.1@ == connections@.filter(checked_at(*now)),
{
    broadcast use vstd::seq_lib::group_seq_properties;
    let ghost original = connections@;
    let mut rest = connections;
    let mut kept: Vec<PooledProxyConnection<T>> = Vec::new();
    let mut checked: Vec<PooledProxyConnection<T>> = Vec::new();
    let mut done: usize = 0;
    let count: usize = rest.len();
    assert(original.take(0) =~= Seq::<PooledProxyConnection<T>>::empty());
    proof {
        reveal(Seq::filter);
        assert(original.take(0).filter(kept_at(*now)) =~= Seq::<PooledProxyConnection<T>>::empty());
        assert(original.take(0).filter(checked_at(*now)) =~= Seq::<PooledProxyConnection<T>>::empty());
    }
    while rest.len() > 0
        invariant
            original.len() == count,
            done + rest.len() == count,
            rest@ == original.skip(done as int),
            forall|i: int| 0 <= i < original.len() ==> (#[trigger] original[i]).wf(),
            now.wf(),
            kept@ == original.take(done as int).filter(kept_at(*now)),
            checked@ == original.take(done as int).filter(checked_at(*now)),
        decreases rest.len(),
    {
        let c = rest.remove(0);
        assert(c == original[done as int]);
        assert(rest@ =~= original.skip(done + 1));
        assert(original.take(done + 1) =~= original.take(done as int).push(c));
        proof {
            original.take(done as int).lemma_filter_push(c, kept_at(*now));
            original.take(done as int).lemma_filter_push(c, checked_at(*now));
        }
        match check_task_action(&c, now) {
            CheckTaskAction::Close => {},
            CheckTaskAction::PutBack => {
                kept.push(c);
            },
            CheckTaskAction::Check => {
                checked.push(c);
            },
        }
        done = done + 1;
    }
    assert(original.take(count as int) =~= original);
    (kept, checked)
}

/// Whether a connection is closed by a check at `now`: past its lifetime.
pub open spec fn closed_at<T>(now: Timestamp) -> spec_fn(PooledProxyConnection<T>) -> bool {
    |c: PooledProxyConnection<T>| c.spec_need_close(now)
}

/// A check round at `now` sends each connection taken from the pool one
/// way: every connection is closed, kept or checked, and the three groups
/// together are as many as were taken; none that is kept or checked is past
/// its lifetime.
pub proof fn lemma_check_round<T>(connections: Seq<PooledProxyConnection<T>>, now: Timestamp)
    ensures
        connections.filter(kept_at(now)).len() + connections.filter(checked_at(now)).len()
            + connections.filter(closed_at(now)).len() == connections.len(),
        forall|i: int|
            0 <= i < connections.filter(kept_at(now)).len() ==> !(#[trigger] connections.filter(
                kept_at(now),
            )[i]).spec_need_close(now),
        forall|i: int|
            0 <= i < connections.filter(checked_at(now)).len() ==> !(#[trigger] connections.filter(
                checked_at(now),
            )[i]).spec_need_close(now),
    decreases connections.len(),
{
    reveal(Seq::filter);
    broadcast use vstd::seq_lib::group_filter_ensures;
    if connections.len() > 0 {
        lemma_check_round(connections.drop_last(), now);
    }
    assert forall|i: int| 0 <= i < connections.filter(kept_at(now)).len() implies !(#[trigger] connections.filter(
        kept_at(now),
    )[i]).spec_need_close(now) by {
        assert(kept_at::<T>(now)(connections.filter(kept_at(now))[i]));
    }
    assert forall|i: int| 0 <= i < connections.filter(checked_at(now)).len() implies !(#[trigger] connections.filter(
        checked_at(now),
    )[i]).spec_need_close(now) by {
        assert(checked_at::<T>(now)(connections.filter(checked_at(now))[i]));
    }
}

/// Whether the connections are ordered by the time of their last check,
/// earliest first.
pub open spec fn ordered_by_last_check<T>(s: Seq<PooledProxyConnection<T>>) -> bool {
    forall|i: int, j: int|
        0 <= i < j < s.len() ==> #[trigger] s[i].spec_last_check_time().spec_le(
            #[trigger] s[j].spec_last_check_time(),
        )
}

/// Whether a connection was last checked at `t`.
pub open spec fn last_checked_at<T>(t: Timestamp) -> spec_fn(PooledProxyConnection<T>) -> bool {
    |c: PooledProxyConnection<T>| c.spec_last_check_time() == t
}

/// Inserting `item` in front of the connections checked strictly later than
/// it adds it at the end of those checked at its own time, and leaves those
/// checked at any other time as they were.
proof fn lemma_insert_before_later<T>(s: Seq<PooledProxyConnection<T>>, j: int, item: PooledProxyConnection<T>, t: Timestamp)
    requires
        0 <= j <= s.len(),
        forall|k: int|
            j <= k < s.len() ==> item.spec_last_check_time().spec_lt(
                #[trigger] s[k].spec_last_check_time(),
            ),
    ensures
        s.insert(j, item).filter(last_checked_at(t)) == if item.spec_last_check_time() == t {
            s.filter(last_checked_at(t)).push(item)
        } else {
            s.filter(last_checked_at(t))
        },
{
    broadcast use vstd::seq_lib::group_seq_properties;
    let p = last_checked_at::<T>(t);
    let front = s.take(j);
    let back = s.skip(j);
    assert(s =~= front + back);
    assert(s.insert(j, item) =~= front.push(item) + back);
    Seq::filter_distributes_over_add(front, back, p);
    Seq::filter_distributes_over_add(front.push(item), back, p);
    front.lemma_filter_push(item, p);
    if item.spec_last_check_time() == t {
        assert forall|k: int| 0 <= k < back.len() implies !p(#[trigger] back[k]) by {
            assert(back[k] == s[j + k]);
        }
        assert(back.all(|c: PooledProxyConnection<T>| !p(c)));
        back.lemma_all_neg_filter_empty(p);
        assert(back.filter(p) =~= Seq::<PooledProxyConnection<T>>::empty());
        assert(front.filter(p).push(item) + back.filter(p) =~= (front.filter(p) + back.filter(p)).push(item));
    }
}

/// Orders the connections by the time of their last check, earliest first;
/// connections checked at the same time keep their order.
pub fn sort_by_last_check_time<T>(connections: Vec<PooledProxyConnection<T>>) -> (sorted: Vec<
    PooledProxyConnection<T>,
>)
    ensures
        sorted@.to_multiset() == connections@.to_multiset(),
        ordered_by_last_check(sorted@),
        forall|t: Timestamp|
            #[trigger] sorted@.filter(last_checked_at(t)) == connections@.filter(last_checked_at(t)),
{
    let ghost original = connections@;
    let mut remaining = connections;
    let mut sorted: Vec<PooledProxyConnection<T>> = Vec::new();
    assert(remaining@.to_multiset() == original.to_multiset());
    assert forall|t: Timestamp|
        #[trigger] sorted@.filter(last_checked_at(t)) + remaining@.filter(last_checked_at(t))
            == original.filter(last_checked_at(t)) by {
        reveal(Seq::filter);
        assert(sorted@.filter(last_checked_at(t)) =~= Seq::<PooledProxyConnection<T>>::empty());
        assert(sorted@.filter(last_checked_at(t)) + remaining@.filter(last_checked_at(t))
            =~= remaining@.filter(last_checked_at(t)));
    }
    while remaining.len() > 0
        invariant
            sorted@.to_multiset().add(remaining@.to_multiset()) == original.to_multiset(),
            ordered_by_last_check(sorted@),
            forall|t: Timestamp|
                #[trigger] sorted@.filter(last_checked_at(t)) + remaining@.filter(last_checked_at(t))
                    == original.filter(last_checked_at(t)),
        decreases remaining.len(),
    {
        let ghost before_remaining = remaining@;
        let item = remaining.remove(0);
        assert(before_remaining.remove(0) == remaining@);
        let mut j = sorted.len();
        while j > 0 && !sorted[j - 1].last_check_time().le(item.last_check_time())
            invariant
                j <= sorted.len(),
                ordered_by_last_check(sorted@),
                forall|k: int|
                    j <= k < sorted.len() ==> item.spec_last_check_time().spec_lt(
                        #[trigger] sorted@[k].spec_last_check_time(),
                    ),
            decreases j,
        {
            j = j - 1;
        }
        let ghost before_sorted = sorted@;
        sorted.insert(j, item);
        assert(sorted@ == before_sorted.insert(j as int, item));
        assert forall|a: int, b: int| 0 <= a < b < sorted@.len() implies #[trigger] sorted@[a].spec_last_check_time().spec_le(
            #[trigger] sorted@[b].spec_last_check_time(),
        ) by {
            if a < j && b == j {
                assert(before_sorted[a].spec_last_check_time().spec_le(
                    before_sorted[j - 1].spec_last_check_time(),
                ) || a == j - 1);
            }
        }
        assert(sorted@.to_multiset() == before_sorted.to_multiset().insert(item));
        assert(before_remaining.to_multiset() == remaining@.to_multiset().insert(item)) by {
            assert(before_remaining[0] == item);
        }
        assert forall|t: Timestamp|
            #[trigger] sorted@.filter(last_checked_at(t)) + remaining@.filter(last_checked_at(t))
                == original.filter(last_checked_at(t)) by {
            lemma_insert_before_later(before_sorted, j as int, item, t);
            assert(before_remaining =~= seq![item] + remaining@);
            remaining@.lemma_filter_prepend(item, last_checked_at(t));
            assert(before_sorted.filter(last_checked_at(t)) + before_remaining.filter(last_checked_at(t))
                == original.filter(last_checked_at(t)));
            if item.spec_last_check_time() == t {
                assert(before_sorted.filter(last_checked_at(t)).push(item) + remaining@.filter(
                    last_checked_at(t),
                ) =~= before_sorted.filter(last_checked_at(t)) + (seq![item] + remaining@.filter(
                    last_checked_at(t),
                )));
            } else {
                assert(Seq::<PooledProxyConnection<T>>::empty() + remaining@.filter(last_checked_at(t))
                    =~= remaining@.filter(last_checked_at(t)));
            }
        }
    }
    assert(remaining@.to_multiset() =~= Multiset::<PooledProxyConnection<T>>::empty());
    assert forall|t: Timestamp|
        #[trigger] sorted@.filter(last_checked_at(t)) == original.filter(last_checked_at(t)) by {
        reveal(Seq::filter);
        assert(remaining@.filter(last_checked_at(t)) =~= Seq::<PooledProxyConnection<T>>::empty());
        assert(sorted@.filter(last_checked_at(t)) + remaining@.filter(last_checked_at(t))
            =~= sorted@.filter(last_checked_at(t)));
    }
    sorted
}

/// Whether `sorted` holds the connections of `returned`, ordered by the time
/// of their last check, those checked at the same time in their order in
/// `returned`.
pub open spec fn sorted_from<T>(returned: Seq<PooledProxyConnection<T>>, sorted: Seq<PooledProxyConnection<T>>) -> bool {
    &&& sorted.to_multiset() == returned.to_multiset()
    &&& ordered_by_last_check(sorted)
    &&& forall|t: Timestamp| #[trigger] sorted.filter(last_checked_at(t)) == returned.filter(last_checked_at(t))
}

/// The end of a check round: the connections that come back from it (those
/// kept and those that passed their check) go back into the pool earliest
/// checked first, as many as it has room for; the rest are handed back to be
/// closed.
pub fn finish_check_round<T>(queue: &mut ConnectionQueue<PooledProxyConnection<T>>, returned: Vec<PooledProxyConnection<T>>) -> (dropped: Vec<
    PooledProxyConnection<T>,
>)
    requires
        old(queue).wf(),
    ensures
        final(queue).wf(),
        final(queue).spec_capacity() == old(queue).spec_capacity(),
        exists|sorted: Seq<PooledProxyConnection<T>>|
            #[trigger] sorted_from(returned@, sorted) && {
                let kept = taken_count(
                    old(queue).spec_capacity() - old(queue).view().len(),
                    sorted.len() as int,
                );
                &&& final(queue).view() == old(queue).view() + sorted.take(kept)
                &&& dropped@ == sorted.skip(kept)
            },
{
    let sorted = sort_by_last_check_time(returned);
    assert(sorted_from(returned@, sorted@));
    put_back_all(queue, sorted)
}

/// Picks the proxy address for an unpooled connection from a random number.
pub fn pick_proxy_address_index(random: usize, address_count: usize) -> (i: usize)
    requires
        address_count > 0,
    ensures
        i == random % address_count,
        i < address_count,
{
    random % address_count
}

/// The keepalive interval and idle time, in seconds, to set on a new proxy
/// connection: none when keepalive is off; when it is on, both must be
/// configured.
pub fn proxy_keepalive_settings(config: &Config) -> (r: Result<Option<(u64, u64)>, AgentError>)
    ensures
        !config.proxy_connection_tcp_keepalive ==> r == Ok::<Option<(u64, u64)>, AgentError>(None),
        config.proxy_connection_tcp_keepalive && config.proxy_connection_tcp_keepalive_interval is None
            ==> (r matches Err(AgentError::Unknown(m)) && m@
            == "Fail to create proxy connection tcp socket becauause of no keepalive interval provided"@),
        config.proxy_connection_tcp_keepalive && config.proxy_connection_tcp_keepalive_interval is Some
            && config.proxy_connection_tcp_keepalive_time is None ==> (r matches Err(
            AgentError::Unknown(m),
        ) && m@ == "Fail to create proxy connection tcp socket becauause of no keepalive time provided"@),
        config.proxy_connection_tcp_keepalive && config.proxy_connection_tcp_keepalive_interval is Some
            && config.proxy_connection_tcp_keepalive_time is Some ==> r == Ok::<
            Option<(u64, u64)>,
            AgentError,
        >(
            Some(
                (
                    config.proxy_connection_tcp_keepalive_interval.unwrap(),
                    config.proxy_connection_tcp_keepalive_time.unwrap(),
                ),
            ),
        ),
{
    if !config.proxy_connection_tcp_keepalive {
        return Ok(None);
    }
    let interval = match config.proxy_connection_tcp_keepalive_interval {
        Some(interval) => interval,
        None => {
            return Err(
                AgentError::Unknown(
                    "Fail to create proxy connection tcp socket becauause of no keepalive interval provided".to_string(),
                ),
            );
        },
    };
    let time = match config.proxy_connection_tcp_keepalive_time {
        Some(time) => time,
        None => {
            return Err(
                AgentError::Unknown(
                    "Fail to create proxy connection tcp socket becauause of no keepalive time provided".to_string(),
                ),
            );
        },
    };
    Ok(Some((interval, time)))
}

} // verus!
