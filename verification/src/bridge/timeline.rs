//! Timeline entries waiting for the frame pump, one queue per session.
//!
//! The queues share one fuse, `TIMELINE_QUEUE_CAP`. Entries that a later
//! checkpoint or snapshot repairs may be dropped at the fuse; entries that open,
//! seal or end something push an older entry out instead.

use std::collections::VecDeque;

use vstd::prelude::*;

use crate::text;

verus! {

/// How many entries the queues of all sessions hold together at most.
pub const TIMELINE_QUEUE_CAP: usize = 4_000;

/// What one timeline entry reports.
#[derive(Debug)]
pub enum TimelineEvent {
    /// A piece of streamed text.
    TextDelta { block_id: String, fragment_seq: u64, delta: String },
    /// The whole text of a block so far.
    BlockCheckpoint { block_id: String, text: String },
    /// The progress of a running tool.
    ToolProgress { block_id: String, detail: String },
    /// A turn began.
    TurnOpened { user_text: String },
    /// Any other structural change: something was opened, sealed or ended.
    Milestone { kind: String },
}

/// One entry of a session's timeline.
#[derive(Debug)]
pub struct TimelineEntry {
    pub timeline_seq: u64,
    pub turn_id: String,
    pub round_num: Option<u32>,
    pub event: TimelineEvent,
}

/// Whether losing `entry` is repaired by what follows it.
pub open spec fn droppable(entry: TimelineEntry) -> bool {
    match entry.event {
        TimelineEvent::TextDelta { .. } => true,
        TimelineEvent::BlockCheckpoint { .. } => true,
        TimelineEvent::ToolProgress { .. } => true,
        _ => false,
    }
}

/// `droppable`, executable.
pub fn is_timeline_delta(entry: &TimelineEntry) -> (r: bool)
    ensures
        r == droppable(*entry),
{
    match entry.event {
        TimelineEvent::TextDelta { .. } => true,
        TimelineEvent::BlockCheckpoint { .. } => true,
        TimelineEvent::ToolProgress { .. } => true,
        _ => false,
    }
}

/// Where the first droppable entry of `queue` stands.
pub open spec fn oldest_delta(queue: Seq<TimelineEntry>) -> Option<int>
    decreases queue.len(),
{
    if queue.len() == 0 {
        None
    } else {
        match oldest_delta(queue.drop_last()) {
            Some(i) => Some(i),
            None => if droppable(queue.last()) {
                Some(queue.len() - 1)
            } else {
                None
            },
        }
    }
}

/// `oldest_delta` is the least position of a droppable entry.
pub proof fn oldest_delta_is_least(queue: Seq<TimelineEntry>)
    ensures
        match oldest_delta(queue) {
            Some(i) => 0 <= i < queue.len() && droppable(queue[i]) && forall|j: int|
                0 <= j < i ==> !droppable(#[trigger] queue[j]),
            None => forall|j: int| 0 <= j < queue.len() ==> !droppable(#[trigger] queue[j]),
        },
    decreases queue.len(),
{
    if queue.len() > 0 {
        let front = queue.drop_last();
        oldest_delta_is_least(front);
        assert forall|j: int| 0 <= j < front.len() implies front[j] == queue[j] by {}
        match oldest_delta(front) {
            Some(i) => {
                assert forall|j: int| 0 <= j < i implies !droppable(#[trigger] queue[j]) by {
                    assert(!droppable(front[j]));
                }
            },
            None => {
                assert forall|j: int| 0 <= j < front.len() implies !droppable(
                    #[trigger] queue[j],
                ) by {
                    assert(!droppable(front[j]));
                }
            },
        }
    }
}

/// Where the first droppable entry of `queue` stands.
fn position_of_delta(queue: &VecDeque<TimelineEntry>) -> (r: Option<usize>)
    ensures
        match (r, oldest_delta(queue@)) {
            (Some(i), Some(j)) => i == j && i < queue@.len(),
            (None, None) => true,
            _ => false,
        },
{
    proof {
        oldest_delta_is_least(queue@);
    }
    let mut i: usize = 0;
    while i < queue.len()
        invariant
            i <= queue@.len(),
            forall|j: int| 0 <= j < i ==> !droppable(#[trigger] queue@[j]),
            match oldest_delta(queue@) {
                Some(i) => 0 <= i < queue@.len() && droppable(queue@[i]) && forall|j: int|
                    0 <= j < i ==> !droppable(#[trigger] queue@[j]),
                None => forall|j: int| 0 <= j < queue@.len() ==> !droppable(#[trigger] queue@[j]),
            },
        decreases queue@.len() - i,
    {
        if is_timeline_delta(&queue[i]) {
            assert(droppable(queue@[i as int]));
            return Some(i);
        }
        i = i + 1;
    }
    None
}

/// Takes the first droppable entry out of `queue`, if there is one.
pub fn remove_oldest_timeline_delta(queue: &mut VecDeque<TimelineEntry>) -> (r: bool)
    ensures
        match oldest_delta(old(queue)@) {
            Some(i) => r && final(queue)@ == old(queue)@.remove(i),
            None => !r && final(queue)@ == old(queue)@,
        },
{
    match position_of_delta(queue) {
        Some(i) => {
            let _ = queue.remove(i);
            true
        },
        None => false,
    }
}

/// The queue of one session.
type Lane = (String, VecDeque<TimelineEntry>);

spec fn is_lane(lanes: Seq<Lane>, i: int, seed: Seq<char>) -> bool {
    0 <= i < lanes.len() && lanes[i].0@ == seed
}

spec fn queue_in(lanes: Seq<Lane>, seed: Seq<char>) -> Seq<TimelineEntry> {
    if exists|i: int| is_lane(lanes, i, seed) {
        lanes[choose|i: int| is_lane(lanes, i, seed)].1@
    } else {
        Seq::empty()
    }
}

spec fn lanes_ok(lanes: Seq<Lane>) -> bool {
    &&& forall|i: int, j: int, seed: Seq<char>|
        #![trigger is_lane(lanes, i, seed), is_lane(lanes, j, seed)]
        is_lane(lanes, i, seed) && is_lane(lanes, j, seed) ==> i == j
    &&& forall|i: int| 0 <= i < lanes.len() ==> (#[trigger] lanes[i]).1@.len() > 0
}

spec fn seeds_of(lanes: Seq<Lane>) -> Seq<Seq<char>> {
    Seq::new(lanes.len(), |i: int| lanes[i].0@)
}

spec fn backlog(lanes: Seq<Lane>) -> nat
    decreases lanes.len(),
{
    if lanes.len() == 0 {
        0
    } else {
        backlog(lanes.drop_last()) + lanes.last().1@.len()
    }
}

/// The queue of a lane is the queue of its seed.
proof fn lane_queue(lanes: Seq<Lane>, i: int)
    requires
        lanes_ok(lanes),
        0 <= i < lanes.len(),
    ensures
        queue_in(lanes, lanes[i].0@) == lanes[i].1@,
{
    assert(is_lane(lanes, i, lanes[i].0@));
    let j = choose|j: int| is_lane(lanes, j, lanes[i].0@);
    assert(is_lane(lanes, j, lanes[i].0@));
}

proof fn backlog_of_lane(lanes: Seq<Lane>, i: int)
    requires
        0 <= i < lanes.len(),
    ensures
        lanes[i].1@.len() <= backlog(lanes),
    decreases lanes.len(),
{
    if i < lanes.len() - 1 {
        backlog_of_lane(lanes.drop_last(), i);
    }
}

proof fn backlog_remove(lanes: Seq<Lane>, i: int)
    requires
        0 <= i < lanes.len(),
    ensures
        backlog(lanes.remove(i)) == backlog(lanes) - lanes[i].1@.len(),
    decreases lanes.len(),
{
    let next = lanes.remove(i);
    if i < lanes.len() - 1 {
        backlog_remove(lanes.drop_last(), i);
        assert(next.drop_last() =~= lanes.drop_last().remove(i));
    } else {
        assert(next =~= lanes.drop_last());
    }
}

/// Dropping a lane empties the queue of its seed alone.
proof fn lanes_remove(lanes: Seq<Lane>, i: int)
    requires
        lanes_ok(lanes),
        0 <= i < lanes.len(),
    ensures
        lanes_ok(lanes.remove(i)),
        queue_in(lanes.remove(i), lanes[i].0@) == Seq::<TimelineEntry>::empty(),
        forall|seed: Seq<char>|
            seed != lanes[i].0@ ==> #[trigger] queue_in(lanes.remove(i), seed) == queue_in(
                lanes,
                seed,
            ),
{
    let next = lanes.remove(i);
    assert forall|k: int, seed: Seq<char>| #[trigger] is_lane(next, k, seed) implies is_lane(
        lanes,
        if k < i {
            k
        } else {
            k + 1
        },
        seed,
    ) by {}
    assert(lanes_ok(next));
    assert forall|k: int| !is_lane(next, k, lanes[i].0@) by {
        if is_lane(next, k, lanes[i].0@) {
            assert(is_lane(lanes, i, lanes[i].0@));
            assert(is_lane(
                lanes,
                if k < i {
                    k
                } else {
                    k + 1
                },
                lanes[i].0@,
            ));
        }
    }
    assert forall|seed: Seq<char>| seed != lanes[i].0@ implies #[trigger] queue_in(next, seed)
        == queue_in(lanes, seed) by {
        if exists|k: int| is_lane(lanes, k, seed) {
            let k = choose|k: int| is_lane(lanes, k, seed);
            let m = if k < i {
                k
            } else {
                k - 1
            };
            assert(is_lane(next, m, seed));
            lane_queue(next, m);
            lane_queue(lanes, k);
        } else {
            assert forall|k: int| !is_lane(next, k, seed) by {
                if is_lane(next, k, seed) {
                    assert(is_lane(
                        lanes,
                        if k < i {
                            k
                        } else {
                            k + 1
                        },
                        seed,
                    ));
                }
            }
        }
    }
}

/// A new lane becomes the queue of its seed and changes no other.
proof fn lanes_push(lanes: Seq<Lane>, lane: Lane)
    requires
        lanes_ok(lanes),
        lane.1@.len() > 0,
        forall|i: int| !is_lane(lanes, i, lane.0@),
    ensures
        lanes_ok(lanes.push(lane)),
        queue_in(lanes.push(lane), lane.0@) == lane.1@,
        forall|seed: Seq<char>|
            seed != lane.0@ ==> #[trigger] queue_in(lanes.push(lane), seed) == queue_in(
                lanes,
                seed,
            ),
        backlog(lanes.push(lane)) == backlog(lanes) + lane.1@.len(),
{
    let next = lanes.push(lane);
    assert(next.drop_last() =~= lanes);
    assert forall|k: int, seed: Seq<char>|
        k < lanes.len() && #[trigger] is_lane(next, k, seed) implies is_lane(lanes, k, seed) by {}
    assert(is_lane(next, lanes.len() as int, lane.0@));
    assert(lanes_ok(next));
    lane_queue(next, lanes.len() as int);
    assert forall|seed: Seq<char>| seed != lane.0@ implies #[trigger] queue_in(next, seed)
        == queue_in(lanes, seed) by {
        if exists|k: int| is_lane(lanes, k, seed) {
            let k = choose|k: int| is_lane(lanes, k, seed);
            assert(is_lane(next, k, seed));
            lane_queue(next, k);
            lane_queue(lanes, k);
        } else {
            assert forall|k: int| !is_lane(next, k, seed) by {
                if is_lane(next, k, seed) {
                    assert(k < lanes.len());
                    assert(is_lane(lanes, k, seed));
                }
            }
        }
    }
}

/// The queues of all sessions.
pub struct TimelineEventQueues {
    lanes: Vec<Lane>,
    total_len: usize,
}

impl TimelineEventQueues {
    #[verifier::type_invariant]
    spec fn inv(&self) -> bool {
        &&& lanes_ok(self.lanes@)
        &&& self.total_len == backlog(self.lanes@)
        &&& self.total_len <= TIMELINE_QUEUE_CAP
    }

    /// The entries that wait for the session `seed`, oldest first.
    pub closed spec fn queue(&self, seed: Seq<char>) -> Seq<TimelineEntry> {
        queue_in(self.lanes@, seed)
    }

    /// How many entries wait for all sessions together.
    pub closed spec fn total(&self) -> nat {
        backlog(self.lanes@)
    }

    /// The sessions that a queue is kept for.
    pub closed spec fn seeds(&self) -> Seq<Seq<char>> {
        seeds_of(self.lanes@)
    }

    /// How many entries wait for these sessions together.
    pub open spec fn waiting(&self, seeds: Seq<Seq<char>>) -> nat
        decreases seeds.len(),
    {
        if seeds.len() == 0 {
            0
        } else {
            self.waiting(seeds.drop_last()) + self.queue(seeds.last()).len()
        }
    }

    /// What holds of the queues at all times: one queue is kept for each session
    /// that entries wait for, and for no other; the count is that of all queues
    /// together, and never more than the fuse lets in.
    pub open spec fn tidy(&self) -> bool {
        &&& self.seeds().no_duplicates()
        &&& forall|seed: Seq<char>|
            self.seeds().contains(seed) <==> (#[trigger] self.queue(seed)).len() > 0
        &&& self.total() == self.waiting(self.seeds())
        &&& self.total() <= TIMELINE_QUEUE_CAP
    }

    /// The first queues hold as many entries as their sessions wait for.
    proof fn waiting_is_backlog(&self, n: int)
        requires
            lanes_ok(self.lanes@),
            0 <= n <= self.lanes@.len(),
        ensures
            self.waiting(self.seeds().take(n)) == backlog(self.lanes@.take(n)),
        decreases n,
    {
        if n > 0 {
            let lanes = self.lanes@;
            self.waiting_is_backlog(n - 1);
            assert(self.seeds().take(n).drop_last() =~= self.seeds().take(n - 1));
            assert(lanes.take(n).drop_last() =~= lanes.take(n - 1));
            lane_queue(lanes, n - 1);
        }
    }

    /// The invariant, as it is seen from outside.
    proof fn invariant_is_tidy(&self)
        requires
            self.inv(),
        ensures
            self.tidy(),
    {
        let lanes = self.lanes@;
        let seeds = self.seeds();
        assert forall|i: int, j: int| 0 <= i < j < seeds.len() implies seeds[i] != seeds[j] by {
            assert(is_lane(lanes, i, seeds[i]));
            if seeds[i] == seeds[j] {
                assert(is_lane(lanes, j, seeds[i]));
            }
        }
        assert forall|seed: Seq<char>|
            seeds.contains(seed) <==> (#[trigger] self.queue(seed)).len() > 0 by {
            if seeds.contains(seed) {
                let i = choose|i: int| 0 <= i < seeds.len() && seeds[i] == seed;
                lane_queue(lanes, i);
            }
            if self.queue(seed).len() > 0 {
                let i = choose|i: int| is_lane(lanes, i, seed);
                assert(is_lane(lanes, i, seed));
                assert(seeds[i] == seed);
            }
        }
        self.waiting_is_backlog(lanes.len() as int);
        assert(seeds.take(lanes.len() as int) =~= seeds);
        assert(lanes.take(lanes.len() as int) =~= lanes);
    }

    /// No queues.
    pub fn new() -> (r: Self)
        ensures
            r.tidy(),
            r.total() == 0,
            forall|seed: Seq<char>| #[trigger] r.queue(seed) == Seq::<TimelineEntry>::empty(),
    {
        let r = TimelineEventQueues { lanes: Vec::new(), total_len: 0 };
        assert forall|seed: Seq<char>| #[trigger]
            r.queue(seed) == Seq::<TimelineEntry>::empty() by {
            assert forall|i: int| !is_lane(r.lanes@, i, seed) by {}
        }
        proof {
            r.invariant_is_tidy();
        }
        r
    }

    /// How many entries wait for all sessions together: never more than the fuse
    /// lets in, and zero exactly when nothing waits.
    pub fn len(&self) -> (r: usize)
        ensures
            r == self.total(),
            self.tidy(),
    {
        proof {
            use_type_invariant(self);
            self.invariant_is_tidy();
        }
        self.total_len
    }

    /// Whether nothing waits.
    pub fn is_empty(&self) -> (r: bool)
        ensures
            r == (self.total() == 0),
    {
        self.len() == 0
    }
}

impl TimelineEventQueues {
    /// The lane of `seed`.
    fn position(&self, seed: &str) -> (r: Option<usize>)
        ensures
            match r {
                Some(i) => is_lane(self.lanes@, i as int, seed@),
                None => forall|i: int| !is_lane(self.lanes@, i, seed@),
            },
    {
        let mut i: usize = 0;
        while i < self.lanes.len()
            invariant
                i <= self.lanes@.len(),
                forall|k: int| 0 <= k < i ==> !is_lane(self.lanes@, k, seed@),
            decreases self.lanes@.len() - i,
        {
            if text::same(self.lanes[i].0.as_str(), seed) {
                return Some(i);
            }
            i = i + 1;
        }
        None
    }

    /// Takes entry `at` out of lane `lane`.
    fn take(&mut self, lane: usize, at: usize)
        requires
            lane < old(self).lanes@.len(),
            at < old(self).lanes@[lane as int].1@.len(),
        ensures
            final(self).tidy(),
            final(self).total() == old(self).total() - 1,
            final(self).queue(old(self).lanes@[lane as int].0@) == old(
                self,
            ).lanes@[lane as int].1@.remove(at as int),
            forall|seed: Seq<char>|
                seed != old(self).lanes@[lane as int].0@ ==> #[trigger] final(self).queue(seed)
                    == old(self).queue(seed),
    {
        proof {
            use_type_invariant(&*self);
            backlog_of_lane(self.lanes@, lane as int);
        }
        let ghost before = self.lanes@;
        let total: usize = self.total_len;
        let mut whole = TimelineEventQueues::new();
        std::mem::swap(&mut whole, self);
        let mut lanes = whole.lanes;
        let (seed, mut queue) = lanes.remove(lane);
        let _ = queue.remove(at);
        proof {
            backlog_remove(before, lane as int);
            lanes_remove(before, lane as int);
        }
        let ghost rest = lanes@;
        if queue.len() > 0 {
            proof {
                assert forall|i: int| !is_lane(rest, i, seed@) by {
                    if is_lane(rest, i, seed@) {
                        assert(is_lane(before, lane as int, seed@));
                        assert(is_lane(
                            before,
                            if i < lane {
                                i
                            } else {
                                i + 1
                            },
                            seed@,
                        ));
                    }
                }
                lanes_push(rest, (seed, queue));
            }
            lanes.push((seed, queue));
        } else {
            assert(queue@ =~= Seq::<TimelineEntry>::empty());
        }
        let total_len: usize = total - 1;
        *self = TimelineEventQueues { lanes, total_len };
        proof {
            self.invariant_is_tidy();
        }
    }
}

/// Which entry leaves to make room for one of `preferred`: the oldest droppable
/// entry of `preferred`, else the oldest droppable entry of some session, else
/// the oldest entry of `preferred`, else the oldest entry of some session.
pub open spec fn is_victim(
    queues: TimelineEventQueues,
    preferred: Seq<char>,
    victim: Seq<char>,
    at: int,
) -> bool {
    &&& 0 <= at < queues.queue(victim).len()
    &&& if oldest_delta(queues.queue(preferred)) is Some {
        victim == preferred && oldest_delta(queues.queue(victim)) == Some(at)
    } else if exists|s: Seq<char>| oldest_delta(#[trigger] queues.queue(s)) is Some {
        oldest_delta(queues.queue(victim)) == Some(at)
    } else if queues.queue(preferred).len() > 0 {
        victim == preferred && at == 0
    } else {
        at == 0
    }
}

/// `after` is `before` without entry `at` of `victim`.
pub open spec fn entry_left(
    before: TimelineEventQueues,
    after: TimelineEventQueues,
    victim: Seq<char>,
    at: int,
) -> bool {
    &&& after.total() == before.total() - 1
    &&& after.queue(victim) == before.queue(victim).remove(at)
    &&& forall|s: Seq<char>| s != victim ==> #[trigger] after.queue(s) == before.queue(s)
}

/// `after` is `before` with `entry` at the end of the queue of `seed`.
pub open spec fn entry_joined(
    before: TimelineEventQueues,
    after: TimelineEventQueues,
    seed: Seq<char>,
    entry: TimelineEntry,
) -> bool {
    &&& after.total() == before.total() + 1
    &&& after.queue(seed) == before.queue(seed).push(entry)
    &&& forall|s: Seq<char>| s != seed ==> #[trigger] after.queue(s) == before.queue(s)
}

/// `after` is what an attempt to append `entry` to the queue of `seed` makes of
/// `before`. It never holds more than the fuse lets in.
pub open spec fn after_push(
    before: TimelineEventQueues,
    after: TimelineEventQueues,
    seed: Seq<char>,
    entry: TimelineEntry,
    is_delta: bool,
) -> bool {
    &&& after.total() <= TIMELINE_QUEUE_CAP
    &&& if before.total() < TIMELINE_QUEUE_CAP {
        entry_joined(before, after, seed, entry)
    } else if is_delta {
        after == before
    } else {
        exists|mid: TimelineEventQueues, victim: Seq<char>, at: int|
            #![trigger entry_left(before, mid, victim, at)]
            is_victim(before, seed, victim, at) && entry_left(before, mid, victim, at)
                && entry_joined(mid, after, seed, entry)
    }
}

/// While there is an entry that may be dropped, no other entry leaves to make
/// room.
pub proof fn eviction_spares_structure(
    queues: TimelineEventQueues,
    preferred: Seq<char>,
    victim: Seq<char>,
    at: int,
    holder: Seq<char>,
)
    requires
        is_victim(queues, preferred, victim, at),
        oldest_delta(queues.queue(holder)) is Some,
    ensures
        droppable(queues.queue(victim)[at]),
{
    oldest_delta_is_least(queues.queue(victim));
}

impl TimelineEventQueues {
    /// Takes one entry out, to make room for an entry of `preferred`. Fails only
    /// where there is none.
    pub fn evict_one(&mut self, preferred: &str) -> (r: bool)
        ensures
            final(self).tidy(),
            r == (old(self).total() > 0),
            !r ==> *final(self) == *old(self),
            r ==> exists|victim: Seq<char>, at: int|
                #![trigger entry_left(*old(self), *final(self), victim, at)]
                is_victim(*old(self), preferred@, victim, at) && entry_left(
                    *old(self),
                    *final(self),
                    victim,
                    at,
                ),
    {
        proof {
            use_type_invariant(&*self);
            self.invariant_is_tidy();
        }
        let ghost before = *self;
        let ghost lanes = self.lanes@;
        let home = self.position(preferred);
        if let Some(h) = home {
            proof {
                lane_queue(lanes, h as int);
                backlog_of_lane(lanes, h as int);
            }
            if let Some(at) = position_of_delta(&self.lanes[h].1) {
                self.take(h, at);
                assert(entry_left(before, *self, preferred@, at as int));
                return true;
            }
        }
        assert(oldest_delta(before.queue(preferred@)) is None);
        let mut i: usize = 0;
        while i < self.lanes.len()
            invariant
                *self == before,
                lanes == self.lanes@,
                lanes_ok(lanes),
                i <= lanes.len(),
                oldest_delta(before.queue(preferred@)) is None,
                *old(self) == before,
                before.total() == backlog(lanes),
                forall|k: int| 0 <= k < i ==> oldest_delta(#[trigger] lanes[k].1@) is None,
            decreases lanes.len() - i,
        {
            if let Some(at) = position_of_delta(&self.lanes[i].1) {
                let ghost victim = lanes[i as int].0@;
                proof {
                    lane_queue(lanes, i as int);
                    backlog_of_lane(lanes, i as int);
                    assert(oldest_delta(before.queue(victim)) is Some);
                }
                self.take(i, at);
                assert(is_victim(before, preferred@, victim, at as int));
                assert(entry_left(before, *self, victim, at as int));
                return true;
            }
            i = i + 1;
        }
        proof {
            assert forall|s: Seq<char>| oldest_delta(#[trigger] before.queue(s)) is None by {
                if exists|k: int| is_lane(lanes, k, s) {
                    let k = choose|k: int| is_lane(lanes, k, s);
                    lane_queue(lanes, k);
                    assert(oldest_delta(lanes[k].1@) is None);
                }
            }
        }
        if let Some(h) = home {
            proof {
                lane_queue(lanes, h as int);
            }
            self.take(h, 0);
            assert(is_victim(before, preferred@, preferred@, 0));
            assert(entry_left(before, *self, preferred@, 0));
            return true;
        }
        if self.lanes.len() > 0 {
            let ghost victim = lanes[0].0@;
            proof {
                lane_queue(lanes, 0);
                backlog_of_lane(lanes, 0);
                assert(before.queue(preferred@).len() == 0);
            }
            self.take(0, 0);
            assert(is_victim(before, preferred@, victim, 0));
            assert(entry_left(before, *self, victim, 0));
            return true;
        }
        false
    }

    /// Appends `entry` to the queue of `seed`. At the fuse an entry that may be
    /// dropped is refused, and any other entry pushes one out.
    pub fn push(&mut self, seed: String, entry: TimelineEntry, is_delta: bool) -> (r: bool)
        ensures
            final(self).tidy(),
            r == (old(self).total() < TIMELINE_QUEUE_CAP || !is_delta),
            after_push(*old(self), *final(self), seed@, entry, is_delta),
    {
        proof {
            use_type_invariant(&*self);
            self.invariant_is_tidy();
        }
        let ghost before = *self;
        if self.total_len >= TIMELINE_QUEUE_CAP {
            if is_delta {
                return false;
            }
            let _ = self.evict_one(seed.as_str());
        }
        let ghost mid = *self;
        proof {
            use_type_invariant(&*self);
        }
        let ghost lanes_before = self.lanes@;
        let total: usize = self.total_len;
        let home = self.position(seed.as_str());
        let mut whole = TimelineEventQueues::new();
        std::mem::swap(&mut whole, self);
        let mut lanes = whole.lanes;
        let ghost key = seed@;
        match home {
            Some(i) => {
                proof {
                    lane_queue(lanes_before, i as int);
                    lanes_remove(lanes_before, i as int);
                    backlog_remove(lanes_before, i as int);
                    assert(lanes_before.remove(i as int).len() == lanes_before.len() - 1);
                }
                let (name, mut queue) = lanes.remove(i);
                let ghost rest = lanes@;
                queue.push_back(entry);
                proof {
                    assert forall|k: int| !is_lane(rest, k, key) by {
                        if is_lane(rest, k, key) {
                            assert(is_lane(
                                lanes_before,
                                if k < i {
                                    k
                                } else {
                                    k + 1
                                },
                                key,
                            ));
                        }
                    }
                    lanes_push(rest, (name, queue));
                }
                lanes.push((name, queue));
            },
            None => {
                let mut queue: VecDeque<TimelineEntry> = VecDeque::new();
                queue.push_back(entry);
                proof {
                    assert(queue_in(lanes_before, key) == Seq::<TimelineEntry>::empty());
                    lanes_push(lanes_before, (seed, queue));
                }
                lanes.push((seed, queue));
            },
        }
        let total_len: usize = total + 1;
        *self = TimelineEventQueues { lanes, total_len };
        assert(entry_joined(mid, *self, key, entry));
        proof {
            self.invariant_is_tidy();
        }
        true
    }

    /// Takes the oldest entries of `seed`, `limit` of them at most. The rest of
    /// its queue, and every other queue, stay as they were.
    pub fn drain_seed(&mut self, seed: &str, limit: usize) -> (r: Vec<TimelineEntry>)
        ensures
            final(self).tidy(),
            r@.len() == (if limit <= old(self).queue(seed@).len() {
                limit as nat
            } else {
                old(self).queue(seed@).len()
            }),
            r@ == old(self).queue(seed@).take(r@.len() as int),
            final(self).queue(seed@) == old(self).queue(seed@).skip(r@.len() as int),
            forall|s: Seq<char>|
                s != seed@ ==> #[trigger] final(self).queue(s) == old(self).queue(s),
            final(self).total() == old(self).total() - r@.len(),
    {
        proof {
            use_type_invariant(&*self);
            self.invariant_is_tidy();
        }
        let ghost before = *self;
        let ghost lanes_before = self.lanes@;
        let ghost key = seed@;
        let mut out: Vec<TimelineEntry> = Vec::new();
        let home = self.position(seed);
        let i: usize = match home {
            Some(i) => i,
            None => {
                assert(before.queue(key) =~= Seq::<TimelineEntry>::empty());
                assert(before.queue(key).skip(0) =~= before.queue(key));
                return out;
            },
        };
        proof {
            lane_queue(lanes_before, i as int);
            backlog_of_lane(lanes_before, i as int);
            lanes_remove(lanes_before, i as int);
            backlog_remove(lanes_before, i as int);
            assert(before.queue(key).skip(0) =~= before.queue(key));
        }
        if limit == 0 {
            return out;
        }
        let total: usize = self.total_len;
        let mut whole = TimelineEventQueues::new();
        std::mem::swap(&mut whole, self);
        let mut lanes = whole.lanes;
        let (name, mut queue) = lanes.remove(i);
        let ghost rest = lanes@;
        let ghost all = queue@;
        let take: usize = if limit <= queue.len() {
            limit
        } else {
            queue.len()
        };
        let mut n: usize = 0;
        while n < take
            invariant
                n <= take <= all.len(),
                out@ == all.take(n as int),
                queue@ == all.skip(n as int),
            decreases take - n,
        {
            let ghost left = queue@;
            let next = queue.pop_front();
            if let Some(entry) = next {
                proof {
                    assert(left[0] == all[n as int]);
                    all.lemma_take_succ_push(n as int);
                    assert(left.subrange(1, left.len() as int) =~= all.skip(n + 1));
                }
                out.push(entry);
            }
            n = n + 1;
        }
        if queue.len() > 0 {
            proof {
                assert forall|k: int| !is_lane(rest, k, key) by {
                    if is_lane(rest, k, key) {
                        assert(is_lane(
                            lanes_before,
                            if k < i {
                                k
                            } else {
                                k + 1
                            },
                            key,
                        ));
                    }
                }
                lanes_push(rest, (name, queue));
            }
            lanes.push((name, queue));
        } else {
            assert(queue@ =~= Seq::<TimelineEntry>::empty());
        }
        let total_len: usize = total - take;
        *self = TimelineEventQueues { lanes, total_len };
        proof {
            self.invariant_is_tidy();
        }
        out
    }
}

/// Only pieces of text, checkpoints and progress may be dropped: the start of a turn
/// and every other step of it may not.
pub proof fn steps_of_a_turn_are_never_droppable(entry: TimelineEntry)
    ensures
        droppable(entry) <==> entry.event is TextDelta || entry.event is BlockCheckpoint
            || entry.event is ToolProgress,
        entry.event is TurnOpened || entry.event is Milestone ==> !droppable(entry),
{
}

/// An entry joins its own queue, at its end, while there is room. A full store turns
/// away what may be dropped and is left as it was.
pub proof fn entries_join_while_there_is_room(
    before: TimelineEventQueues,
    after: TimelineEventQueues,
    seed: Seq<char>,
    entry: TimelineEntry,
    other: Seq<char>,
)
    requires
        after_push(before, after, seed, entry, droppable(entry)),
    ensures
        before.total() < TIMELINE_QUEUE_CAP ==> after.queue(seed) == before.queue(seed).push(entry)
            && (other != seed ==> after.queue(other) == before.queue(other)),
        before.total() >= TIMELINE_QUEUE_CAP && droppable(entry) ==> after == before,
        before.total() < TIMELINE_QUEUE_CAP || !droppable(entry) ==> after.queue(seed).len() > 0
            && after.queue(seed).last() == entry,
{
}

} // verus!
