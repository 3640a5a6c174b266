//! Iteration directions, and the walk of a partition list from both of its ends.
use vstd::prelude::*;

verus! {

/// [`GenIterator`](crate::core::iter::GenIterator)'s direction of iteration.
#[derive(Clone, Copy, Debug, PartialEq, Eq, Structural)]
#[non_exhaustive]
pub enum Direction {
    Forward,
    Backward,
}

impl Direction {
    /// The `libfdisk` iteration direction number (`FDISK_ITER_FORWARD`, `FDISK_ITER_BACKWARD`).
    pub open spec fn value(self) -> i32 {
        match self {
            Direction::Forward => 0,
            Direction::Backward => 1,
        }
    }

    /// The variant whose number is `v`, if there is one.
    pub open spec fn from_value(v: i32) -> Option<Direction> {
        match v {
            0 => Some(Direction::Forward),
            1 => Some(Direction::Backward),
            _ => None,
        }
    }

    /// Converts this value to its underlying `i32` number.
    pub fn to_i32(&self) -> (v: i32)
        ensures
            v == self.value(),
    {
        match self {
            Direction::Forward => 0,
            Direction::Backward => 1,
        }
    }

    /// Converts a `i32` number to the variant it stands for, or `None` when no variant has
    /// that number.
    pub fn try_from_i32(v: i32) -> (r: Option<Direction>)
        ensures
            r == Direction::from_value(v),
    {
        match v {
            0 => Some(Direction::Forward),
            1 => Some(Direction::Backward),
            _ => None,
        }
    }
}

impl From<Direction> for i32 {
    fn from(x: Direction) -> (v: i32)
        ensures
            v == x.value(),
    {
        x.to_i32()
    }
}

impl vstd::std_specs::convert::FromSpecImpl<Direction> for i32 {
    open spec fn obeys_from_spec() -> bool {
        true
    }

    open spec fn from_spec(x: Direction) -> i32 {
        x.value()
    }
}

/// Numbers and variants of `Direction` correspond one to one.
pub proof fn lemma_direction_roundtrip(x: Direction, v: i32)
    ensures
        Direction::from_value(x.value()) == Some(x),
        Direction::from_value(v) matches Some(y) ==> y.value() == v,
{
}

/// What one step of a walk over a partition list reported.
#[derive(Clone, Copy, Debug, PartialEq, Eq, Structural)]
pub enum WalkEvent {
    /// The next partition, given by its address.
    Found(usize),
    /// The walk reached the end of the list.
    End,
    /// The walk failed with this status code.
    Failed(i32),
}

/// The event that a step status and the address it handed out stand for: status `0` hands out a
/// partition, status `1` marks the end of the list, any other status is a failure.
pub open spec fn walk_event_of(status: i32, address: usize) -> WalkEvent {
    if status == 0 {
        WalkEvent::Found(address)
    } else if status == 1 {
        WalkEvent::End
    } else {
        WalkEvent::Failed(status)
    }
}

/// Reads the status and the address returned by one step of `libfdisk`'s partition list walk.
pub fn walk_event(status: i32, address: usize) -> (e: WalkEvent)
    ensures
        e == walk_event_of(status, address),
{
    if status == 0 {
        WalkEvent::Found(address)
    } else if status == 1 {
        WalkEvent::End
    } else {
        WalkEvent::Failed(status)
    }
}

/// The cursors of a walk that runs over a partition list from both ends at once, as a
/// double-ended iterator does: the last address handed out from the front, the last handed out
/// from the back (`0` before the first), and whether the two walks have met.
#[derive(Clone, Copy, Debug, PartialEq, Eq, Structural)]
pub struct WalkCursors {
    pub front: usize,
    pub back: usize,
    pub met: bool,
}

impl WalkCursors {
    /// The cursor of the walk that runs in `direction`.
    pub open spec fn own(self, direction: Direction) -> usize {
        match direction {
            Direction::Forward => self.front,
            Direction::Backward => self.back,
        }
    }

    /// The cursor of the walk that runs against `direction`.
    pub open spec fn opposite(self, direction: Direction) -> usize {
        match direction {
            Direction::Forward => self.back,
            Direction::Backward => self.front,
        }
    }

    /// Whether handing out `address` in `direction` would cross the other walk: the walks have
    /// met already, or the address is the one the other walk handed out last (while the two
    /// cursors differ).
    pub open spec fn crosses(self, direction: Direction, address: usize) -> bool {
        self.met || (self.front != self.back && address == self.opposite(direction))
    }

    /// These cursors with the cursor of the walk in `direction` moved to `address`.
    pub open spec fn moved(self, direction: Direction, address: usize) -> WalkCursors {
        match direction {
            Direction::Forward => WalkCursors { front: address, ..self },
            Direction::Backward => WalkCursors { back: address, ..self },
        }
    }

    /// The cursors after a step in `direction` that reported `event`, and the address the step
    /// hands out, if any. Both ends work on the same range and do not cross: a walk is over
    /// once it reaches what the other walk handed out.
    pub open spec fn after(self, direction: Direction, event: WalkEvent) -> (WalkCursors, Option<usize>) {
        match event {
            WalkEvent::Found(a) => if self.crosses(direction, a) {
                (WalkCursors { met: true, ..self }, None)
            } else {
                (self.moved(direction, a), Some(a))
            },
            _ => (self, None),
        }
    }

    /// The cursors of a walk that has not started.
    pub fn new() -> (c: WalkCursors)
        ensures
            c.front == 0,
            c.back == 0,
            !c.met,
    {
        WalkCursors { front: 0, back: 0, met: false }
    }

    /// Takes one step in `direction` that reported `event`, and returns the address to hand
    /// out, if any.
    pub fn advance(&mut self, direction: Direction, event: WalkEvent) -> (item: Option<usize>)
        ensures
            (*final(self), item) == old(self).after(direction, event),
    {
        match event {
            WalkEvent::Found(a) => {
                let other = match direction {
                    Direction::Forward => self.back,
                    Direction::Backward => self.front,
                };
                if self.met || (self.front != self.back && a == other) {
                    self.met = true;
                    None
                } else {
                    match direction {
                        Direction::Forward => {
                            self.front = a;
                        },
                        Direction::Backward => {
                            self.back = a;
                        },
                    }
                    Some(a)
                }
            },
            _ => None,
        }
    }
}

/// Once the two walks have met, every further step in either direction hands out nothing and
/// leaves the cursors as they are.
pub proof fn lemma_met_is_final(c: WalkCursors, direction: Direction, event: WalkEvent)
    requires
        c.met,
    ensures
        c.after(direction, event) == (c, None::<usize>),
{
}

/// A step hands out an address only when it found one that does not cross the other walk;
/// the address then becomes the cursor of its own walk, and the other cursor stays.
pub proof fn lemma_handed_out(c: WalkCursors, direction: Direction, event: WalkEvent)
    ensures
        c.after(direction, event).1 matches Some(a) ==> {
            &&& event == WalkEvent::Found(a)
            &&& !c.met
            &&& !(c.front != c.back && a == c.opposite(direction))
            &&& c.after(direction, event).0.own(direction) == a
            &&& c.after(direction, event).0.opposite(direction) == c.opposite(direction)
            &&& !c.after(direction, event).0.met
        },
{
}

/// The end of the list, and a failure, hand out nothing and change no cursor.
pub proof fn lemma_no_partition(c: WalkCursors, direction: Direction, status: i32, address: usize)
    requires
        status != 0,
    ensures
        c.after(direction, walk_event_of(status, address)) == (c, None::<usize>),
{
}

/// Walks never un-meet: whatever a step reports, the walks stay met once they have met, and a
/// step that hands out nothing while a partition was found marks them met.
pub proof fn lemma_meeting_is_monotone(c: WalkCursors, direction: Direction, event: WalkEvent)
    ensures
        c.met ==> c.after(direction, event).0.met,
        (event is Found && c.after(direction, event).1 is None) ==> c.after(direction, event).0.met,
{
}

/// What `libfdisk`'s iterator in `direction` reports on its next step over a list of partitions
/// given by their addresses, after `taken` steps: the partitions from the front, or from the
/// back, then the end of the list.
pub open spec fn list_step(list: Seq<usize>, direction: Direction, taken: nat) -> WalkEvent {
    if taken < list.len() {
        match direction {
            Direction::Forward => WalkEvent::Found(list[taken as int]),
            Direction::Backward => WalkEvent::Found(list[list.len() - 1 - taken]),
        }
    } else {
        WalkEvent::End
    }
}

/// A walk over `list` that takes `steps` in turn: the cursors, the number of partitions each of
/// `libfdisk`'s iterators went past (the forward one, then the backward one), and the addresses
/// handed out from the front and from the back, in the order they were handed out.
pub open spec fn walk_over(list: Seq<usize>, steps: Seq<Direction>) -> (
    WalkCursors,
    nat,
    nat,
    Seq<usize>,
    Seq<usize>,
)
    decreases steps.len(),
{
    if steps.len() == 0 {
        (WalkCursors { front: 0, back: 0, met: false }, 0, 0, Seq::empty(), Seq::empty())
    } else {
        let (c, i, j, f, b) = walk_over(list, steps.drop_last());
        let d = steps.last();
        match d {
            Direction::Forward => {
                let (c2, out) = c.after(d, list_step(list, d, i));
                let i2: nat = if i < list.len() {
                    i + 1
                } else {
                    i
                };
                (
                    c2,
                    i2,
                    j,
                    match out {
                        Some(a) => f.push(a),
                        None => f,
                    },
                    b,
                )
            },
            Direction::Backward => {
                let (c2, out) = c.after(d, list_step(list, d, j));
                let j2: nat = if j < list.len() {
                    j + 1
                } else {
                    j
                };
                (
                    c2,
                    i,
                    j2,
                    f,
                    match out {
                        Some(a) => b.push(a),
                        None => b,
                    },
                )
            },
        }
    }
}

/// What holds after every step of a walk over a list of distinct, non-null addresses.
spec fn walk_invariant(
    list: Seq<usize>,
    t: (WalkCursors, nat, nat, Seq<usize>, Seq<usize>),
) -> bool {
    let (c, i, j, f, b) = t;
    let n = list.len();
    &&& f.len() + b.len() <= n
    &&& forall|k: int| 0 <= k < f.len() ==> f[k] == list[k]
    &&& forall|k: int| 0 <= k < b.len() ==> b[k] == list[n - 1 - k]
    &&& c.met ==> f.len() + b.len() == n
    &&& !c.met ==> {
        &&& i == f.len()
        &&& j == b.len()
        &&& c.front == (if i > 0 {
            list[i - 1]
        } else {
            0
        })
        &&& c.back == (if j > 0 {
            list[n - j]
        } else {
            0
        })
    }
}

proof fn lemma_walk_invariant(list: Seq<usize>, steps: Seq<Direction>)
    requires
        list.no_duplicates(),
        forall|k: int| 0 <= k < list.len() ==> list[k] != 0,
    ensures
        walk_invariant(list, walk_over(list, steps)),
    decreases steps.len(),
{
    if steps.len() > 0 {
        lemma_walk_invariant(list, steps.drop_last());
        let (c, i, j, f, b) = walk_over(list, steps.drop_last());
        let n = list.len();
        if !c.met {
            if i > 0 && j > 0 && i - 1 != n - j {
                assert(list[i - 1] != list[n - j]);
            }
            if i < n && j > 0 && i != n - j {
                assert(list[i as int] != list[n - j]);
            }
            if j < n && i > 0 && n - 1 - j != i - 1 {
                assert(list[n - 1 - j] != list[i - 1]);
            }
            if i < n {
                assert(list[i as int] != 0);
            }
            if j < n {
                assert(list[n - 1 - j] != 0);
            }
            if i > 0 {
                assert(list[i - 1] != 0);
            }
            if j > 0 {
                assert(list[n - j] != 0);
            }
        }
        let t = walk_over(list, steps);
        assert(t.3 == f || t.3 == f.push(list[i as int]));
        assert forall|k: int| 0 <= k < t.3.len() implies t.3[k] == list[k] by {
            if k < f.len() {
                assert(t.3[k] == f[k]);
            }
        }
        assert forall|k: int| 0 <= k < t.4.len() implies t.4[k] == list[n - 1 - k] by {
            if k < b.len() {
                assert(t.4[k] == b[k]);
            }
        }
    }
}

/// A walk from both ends of a list of partitions hands out each partition at most once: the
/// front walk hands out the first partitions in order, the back walk the last ones from the
/// end, and the two never overlap. Once the walks meet, or either of `libfdisk`'s iterators
/// has gone through the whole list, every partition has been handed out exactly once.
pub proof fn lemma_walk_hands_out_each_once(list: Seq<usize>, steps: Seq<Direction>)
    requires
        list.no_duplicates(),
        forall|k: int| 0 <= k < list.len() ==> list[k] != 0,
    ensures
        walk_over(list, steps).3 == list.take(walk_over(list, steps).3.len() as int),
        walk_over(list, steps).4 == list.reverse().take(walk_over(list, steps).4.len() as int),
        walk_over(list, steps).3.len() + walk_over(list, steps).4.len() <= list.len(),
        (walk_over(list, steps).0.met || walk_over(list, steps).1 == list.len()
            || walk_over(list, steps).2 == list.len()) ==> walk_over(list, steps).3.len()
            + walk_over(list, steps).4.len() == list.len(),
{
    lemma_walk_invariant(list, steps);
    let (c, i, j, f, b) = walk_over(list, steps);
    assert(f =~= list.take(f.len() as int));
    let r = list.reverse();
    assert(b =~= r.take(b.len() as int)) by {
        assert forall|k: int| 0 <= k < b.len() implies b[k] == r[k] by {
            assert(r[k] == list[list.len() - 1 - k]);
        }
    }
}

} // verus!
