//! Append-only, arena-backed event graph.
//!
//! The graph is an ordered sequence of events whose index equals append
//! order; parent links form a forest. Once an index is committed it never
//! changes, and the count never decreases within a session. Every appended
//! record costs one fixed-size arena slot; when the arena cannot allocate,
//! the append is rejected without touching committed records.

use vstd::prelude::*;

use crate::arena::Arena;
use crate::event::{Category, Event, Status};

verus! {

/// Arena bytes consumed by one event record.
pub const EVENT_RECORD_BYTES: usize = 32;

/// Well-formedness of a committed event sequence: the id at index `i` is
/// `i + 1` (so ids are strictly increasing in append order), and a nonzero
/// parent id always names an earlier-appended event.
pub open spec fn wf_event_seq(s: Seq<Event>) -> bool {
    forall|i: int|
        0 <= i < s.len() ==> {
            &&& (#[trigger] s[i]).id == i + 1
            &&& (s[i].parent_id == 0 || s[i].parent_id < s[i].id)
        }
}

/// The parent id actually stored for a record: a nonzero parent that does
/// not name one of the `len` already-committed events falls back to 0
/// (a root event) rather than dangling.
pub open spec fn normalize_parent(parent_id: u64, len: int) -> u64 {
    if parent_id != 0 && parent_id <= len {
        parent_id
    } else {
        0
    }
}

/// Append-only forest of captured events linked by a parent/child id
/// relation, with storage accounted against a fixed-capacity arena.
pub struct EventGraph {
    records: Vec<Event>,
}

impl EventGraph {
    /// The committed events, in append order.
    pub closed spec fn events(self) -> Seq<Event> {
        self.records@
    }

    /// Every committed record has the id of its position and a parent
    /// link that points strictly earlier.
    pub open spec fn wf(self) -> bool {
        wf_event_seq(self.events())
    }

    /// Create an empty graph.
    pub fn new() -> (g: EventGraph)
        ensures
            g.wf(),
            g.events() == Seq::<Event>::empty(),
    {
        EventGraph { records: Vec::new() }
    }

    /// Number of committed events.
    pub fn count(&self) -> (n: usize)
        ensures
            n == self.events().len(),
    {
        self.records.len()
    }

    /// The committed event at `index`, or nothing when `index` is past the
    /// count. An out-of-bounds index is an ordinary absent result, never a
    /// fault.
    pub fn get(&self, index: usize) -> (r: Option<Event>)
        ensures
            index < self.events().len() ==> r == Some(self.events()[index as int]),
            index >= self.events().len() ==> r is None,
    {
        if index < self.records.len() {
            Some(self.records[index])
        } else {
            None
        }
    }

    /// Append one decoded event, paying one record slot from `arena`.
    ///
    /// The id is assigned here: one past the previous count, so ids are
    /// strictly increasing in append order. A parent id that does not name
    /// an earlier-committed event is stored as 0. When the arena is
    /// exhausted the append is rejected and neither the graph nor the
    /// arena changes.
    pub fn append(
        &mut self,
        arena: &mut Arena,
        parent_id: u64,
        timestamp: u64,
        category: Category,
        status: Status,
        operation: u8,
    ) -> (r: Option<u64>)
        requires
            old(self).wf(),
            old(arena).wf(),
            old(self).events().len() * EVENT_RECORD_BYTES == old(arena).spec_used(),
        ensures
            final(self).wf(),
            final(arena).wf(),
            final(arena).spec_capacity() == old(arena).spec_capacity(),
            final(self).events().len() * EVENT_RECORD_BYTES == final(arena).spec_used(),
            old(arena).spec_used() + EVENT_RECORD_BYTES <= old(arena).spec_capacity() ==> {
                &&& final(self).events() == old(self).events().push(
                    Event {
                        id: (old(self).events().len() + 1) as u64,
                        parent_id: normalize_parent(parent_id, old(self).events().len() as int),
                        timestamp,
                        category,
                        status,
                        operation,
                    },
                )
                &&& r == Some((old(self).events().len() + 1) as u64)
            },
            old(arena).spec_used() + EVENT_RECORD_BYTES > old(arena).spec_capacity() ==> {
                &&& final(self).events() == old(self).events()
                &&& final(arena).spec_used() == old(arena).spec_used()
                &&& r is None
            },
    {
        match arena.allocate(EVENT_RECORD_BYTES) {
            None => None,
            Some(_offset) => {
                let index = self.records.len();
                proof {
                    assert(index * EVENT_RECORD_BYTES <= usize::MAX);
                    assert(index < u64::MAX) by (nonlinear_arith)
                        requires
                            index >= 0,
                            index * EVENT_RECORD_BYTES <= usize::MAX,
                            EVENT_RECORD_BYTES == 32,
                            usize::MAX <= u64::MAX,
                    ;
                }
                let id = index as u64 + 1;
                let stored_parent = if parent_id != 0 && parent_id <= index as u64 {
                    parent_id
                } else {
                    0
                };
                self.records.push(
                    Event { id, parent_id: stored_parent, timestamp, category, status, operation },
                );
                Some(id)
            },
        }
    }

    /// Discard every committed event. Performed only between capture
    /// sessions, together with the arena reset.
    pub fn clear(&mut self)
        ensures
            final(self).wf(),
            final(self).events() == Seq::<Event>::empty(),
    {
        self.records.clear();
    }
}

/// Law: within a well-formed graph, ids are strictly increasing by append
/// order.
pub proof fn lemma_ids_strictly_increasing(s: Seq<Event>, i: int, j: int)
    requires
        wf_event_seq(s),
        0 <= i < j < s.len(),
    ensures
        s[i].id < s[j].id,
{
}

/// Law: within a well-formed graph, every event with a nonzero parent id
/// is preceded by an event carrying exactly that id.
pub proof fn lemma_parent_precedes(s: Seq<Event>, i: int)
    requires
        wf_event_seq(s),
        0 <= i < s.len(),
        s[i].parent_id != 0,
    ensures
        exists|j: int| 0 <= j < i && #[trigger] s[j].id == s[i].parent_id,
{
    let j = s[i].parent_id - 1;
    assert(s[j].id == s[i].parent_id);
}

} // verus!
