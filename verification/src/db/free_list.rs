//! Mathematical model of the pool: the list of idle connections, the
//! connections that live handles hold, and the events that move a connection
//! between the two.
use vstd::prelude::*;

verus! {

/// The idle list after a handle has been asked for: the oldest idle
/// connection leaves, an empty list stays empty.
pub open spec fn after_acquire<C>(idle: Seq<C>) -> Seq<C> {
    if idle.len() > 0 {
        idle.subrange(1, idle.len() as int)
    } else {
        idle
    }
}

/// The idle list after `conn` has been handed back: it joins the end while
/// there is room, and is dropped otherwise.
pub open spec fn after_release<C>(idle: Seq<C>, capacity: nat, conn: C) -> Seq<C> {
    if idle.len() < capacity {
        idle.push(conn)
    } else {
        idle
    }
}

/// Every connection the pool knows of: the idle ones, and one entry for each
/// live handle.
pub struct Ledger<C> {
    pub idle: Seq<C>,
    pub leased: Seq<C>,
    pub capacity: nat,
}

/// What can happen to a pool.
pub enum PoolEvent<C> {
    /// The pre-warm opens `fresh` and hands it to the pool.
    Seed { fresh: C },
    /// A caller asks for a handle; `attempt` is what the factory gives if no
    /// idle connection is at hand: a new connection, or nothing where it
    /// fails.
    Acquire { attempt: Option<C> },
    /// The live handle at position `handle` ends and hands its connection back.
    Release { handle: int },
}

impl<C> Ledger<C> {
    /// No connection is known twice: not twice idle, not held by two handles,
    /// and not idle while a handle holds it; and the idle list is within the
    /// capacity.
    pub open spec fn sound(self) -> bool {
        &&& self.idle.len() <= self.capacity
        &&& forall|i: int, j: int|
            0 <= i < j < self.idle.len() ==> self.idle[i] != self.idle[j]
        &&& forall|i: int, j: int|
            0 <= i < j < self.leased.len() ==> self.leased[i] != self.leased[j]
        &&& forall|i: int, j: int|
            0 <= i < self.idle.len() && 0 <= j < self.leased.len() ==> self.idle[i]
                != self.leased[j]
    }

    /// Whether `conn` is idle or held by a handle.
    pub open spec fn knows(self, conn: C) -> bool {
        self.idle.contains(conn) || self.leased.contains(conn)
    }

    /// Whether `event` can happen in this state: a release needs a live
    /// handle, and a factory never hands out a connection that exists already.
    pub open spec fn admits(self, event: PoolEvent<C>) -> bool {
        match event {
            PoolEvent::Seed { fresh } => !self.knows(fresh),
            PoolEvent::Acquire { attempt } => self.idle.len() > 0 || attempt is None
                || !self.knows(attempt->0),
            PoolEvent::Release { handle } => 0 <= handle < self.leased.len(),
        }
    }

    /// The state after `event`. An event that cannot happen changes nothing.
    pub open spec fn step(self, event: PoolEvent<C>) -> Ledger<C> {
        if !self.admits(event) {
            self
        } else {
            match event {
                PoolEvent::Seed { fresh } => Ledger {
                    idle: after_release(self.idle, self.capacity, fresh),
                    leased: self.leased,
                    capacity: self.capacity,
                },
                PoolEvent::Acquire { attempt } => Ledger {
                    idle: after_acquire(self.idle),
                    leased: if self.idle.len() > 0 {
                        self.leased.push(self.idle[0])
                    } else if attempt is Some {
                        self.leased.push(attempt->0)
                    } else {
                        self.leased
                    },
                    capacity: self.capacity,
                },
                PoolEvent::Release { handle } => Ledger {
                    idle: after_release(self.idle, self.capacity, self.leased[handle]),
                    leased: self.leased.remove(handle),
                    capacity: self.capacity,
                },
            }
        }
    }

    /// The state after all of `events`, in order.
    pub open spec fn run(self, events: Seq<PoolEvent<C>>) -> Ledger<C>
        decreases events.len(),
    {
        if events.len() == 0 {
            self
        } else {
            self.step(events[0]).run(events.subrange(1, events.len() as int))
        }
    }
}

/// Asking for a handle never lengthens the idle list.
pub proof fn lemma_acquire_shrinks<C>(idle: Seq<C>)
    ensures
        after_acquire(idle).len() <= idle.len(),
        idle.len() > 0 ==> after_acquire(idle).len() == idle.len() - 1,
{
}

/// Handing a connection back keeps the idle list within the capacity.
pub proof fn lemma_release_bounded<C>(idle: Seq<C>, capacity: nat, conn: C)
    requires
        idle.len() <= capacity,
    ensures
        after_release(idle, capacity, conn).len() <= capacity,
{
}

/// One event keeps a sound ledger sound.
pub proof fn lemma_step_sound<C>(ledger: Ledger<C>, event: PoolEvent<C>)
    requires
        ledger.sound(),
    ensures
        ledger.step(event).sound(),
        ledger.step(event).capacity == ledger.capacity,
{
    let next = ledger.step(event);
    if ledger.admits(event) {
        match event {
            PoolEvent::Seed { fresh } => {
                assert forall|i: int| 0 <= i < ledger.idle.len() implies ledger.idle[i]
                    != fresh by {
                    assert(ledger.idle.contains(ledger.idle[i]));
                }
                assert forall|j: int| 0 <= j < ledger.leased.len() implies ledger.leased[j]
                    != fresh by {
                    assert(ledger.leased.contains(ledger.leased[j]));
                }
            },
            PoolEvent::Acquire { attempt } => {
                if ledger.idle.len() > 0 {
                    assert forall|i: int| 0 <= i < next.idle.len() implies next.idle[i]
                        == ledger.idle[i + 1] by {}
                } else if attempt is Some {
                    assert forall|j: int| 0 <= j < ledger.leased.len() implies ledger.leased[j]
                        != attempt->0 by {
                        assert(ledger.leased.contains(ledger.leased[j]));
                    }
                }
            },
            PoolEvent::Release { handle } => {
                assert forall|j: int| 0 <= j < next.leased.len() implies next.leased[j] == (if j
                    < handle {
                    ledger.leased[j]
                } else {
                    ledger.leased[j + 1]
                }) by {}
            },
        }
    }
}

/// Whatever happens to a pool, in whatever order, the idle list stays within
/// the capacity and no connection is in two places at once.
pub proof fn lemma_run_sound<C>(ledger: Ledger<C>, events: Seq<PoolEvent<C>>)
    requires
        ledger.sound(),
    ensures
        ledger.run(events).sound(),
        ledger.run(events).idle.len() <= ledger.capacity,
        ledger.run(events).capacity == ledger.capacity,
    decreases events.len(),
{
    if events.len() > 0 {
        lemma_step_sound(ledger, events[0]);
        lemma_run_sound(ledger.step(events[0]), events.subrange(1, events.len() as int));
    }
}

/// A handle gives its connection back once: after it has ended, no handle
/// holds that connection any more.
pub proof fn lemma_released_once<C>(ledger: Ledger<C>, handle: int)
    requires
        ledger.sound(),
        0 <= handle < ledger.leased.len(),
    ensures
        !ledger.step(PoolEvent::Release { handle }).leased.contains(ledger.leased[handle]),
        ledger.step(PoolEvent::Release { handle }).leased.len() == ledger.leased.len() - 1,
{
    let next = ledger.step(PoolEvent::Release { handle });
    assert forall|j: int| 0 <= j < next.leased.len() implies next.leased[j]
        != ledger.leased[handle] by {
        if j < handle {
            assert(next.leased[j] == ledger.leased[j]);
        } else {
            assert(next.leased[j] == ledger.leased[j + 1]);
        }
    }
}

/// A connection that a handle holds is not idle, and no other handle holds it.
pub proof fn lemma_handle_is_sole_owner<C>(ledger: Ledger<C>, handle: int)
    requires
        ledger.sound(),
        0 <= handle < ledger.leased.len(),
    ensures
        !ledger.idle.contains(ledger.leased[handle]),
        forall|other: int|
            0 <= other < ledger.leased.len() && other != handle ==> ledger.leased[other]
                != ledger.leased[handle],
{
    assert forall|other: int|
        0 <= other < ledger.leased.len() && other != handle implies ledger.leased[other]
        != ledger.leased[handle] by {
        if other < handle {
        } else {
        }
    }
}

} // verus!
