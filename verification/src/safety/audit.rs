use vstd::prelude::*;

use std::collections::VecDeque;

use crate::util::clock::now_secs;
use crate::util::text::str_to_string;

verus! {

/// One entry of the audit log.
#[derive(Debug, Clone)]
pub struct AuditEvent {
    pub timestamp: u64,
    pub action: String,
    pub path: Option<String>,
    pub details: String,
    pub success: bool,
}

impl AuditEvent {
    /// An event stamped with the current time in seconds.
    pub fn new(action: &str, path: Option<&str>, details: &str, success: bool) -> (e: Self)
        ensures
            e.action@ == action@,
            e.path is Some <==> path is Some,
            e.path matches Some(p) ==> p@ == path->Some_0@,
            e.details@ == details@,
            e.success == success,
    {
        let timestamp = now_secs();
        let path = match path {
            Some(p) => Some(str_to_string(p)),
            None => None,
        };
        AuditEvent { timestamp, action: str_to_string(action), path, details: str_to_string(details), success }
    }
}

/// A bounded log of audit events: once full, each new event pushes out the
/// oldest. It never holds more than its maximum, which is at least one.
pub struct AuditLog {
    events: VecDeque<AuditEvent>,
    max_entries: usize,
}

impl AuditLog {
    /// The events held, oldest first.
    pub closed spec fn spec_events(&self) -> Seq<AuditEvent> {
        self.events@
    }

    /// The most events the log holds.
    pub closed spec fn spec_max(&self) -> usize {
        self.max_entries
    }

    #[verifier::type_invariant]
    closed spec fn bounded(&self) -> bool {
        &&& self.max_entries >= 1
        &&& self.events@.len() <= self.max_entries
    }

    /// An empty log holding at most `max` events (at least one).
    pub fn new(max: usize) -> (log: Self)
        ensures
            log.spec_events().len() == 0,
            log.spec_max() == if max < 1 { 1 } else { max },
    {
        AuditLog { events: VecDeque::new(), max_entries: if max < 1 { 1 } else { max } }
    }

    /// Appends an event; when the log already holds its maximum, the oldest
    /// event is dropped first. The log never holds more than its maximum.
    pub fn log(&mut self, event: AuditEvent)
        ensures
            final(self).spec_max() == old(self).spec_max(),
            final(self).spec_events() == if old(self).spec_events().len() >= old(self).spec_max() {
                old(self).spec_events().drop_first().push(event)
            } else {
                old(self).spec_events().push(event)
            },
            final(self).spec_events().len() <= final(self).spec_max(),
    {
        proof {
            use_type_invariant(&*self);
        }
        let mut events: VecDeque<AuditEvent> = VecDeque::new();
        std::mem::swap(&mut events, &mut self.events);
        if events.len() >= self.max_entries {
            let _oldest = events.pop_front();
            assert(events@ =~= old(self).events@.drop_first());
        }
        events.push_back(event);
        self.events = events;
    }

    /// The `n` most recent events (or all, if fewer), newest first.
    pub fn recent(&self, n: usize) -> (r: Vec<&AuditEvent>)
        ensures
            r@.len() == if n < self.spec_events().len() { n as int } else { self.spec_events().len() as int },
            forall|k: int| 0 <= k < r@.len() ==> *#[trigger] r@[k] == self.spec_events()[self.spec_events().len() - 1 - k],
    {
        let len = self.events.len();
        let count = if n < len { n } else { len };
        let mut r: Vec<&AuditEvent> = Vec::new();
        let mut k: usize = 0;
        while k < count
            invariant
                k <= count,
                count <= len,
                len == self.events@.len(),
                r@.len() == k,
                forall|j: int| 0 <= j < k ==> *#[trigger] r@[j] == self.events@[len - 1 - j],
            decreases count - k,
        {
            r.push(&self.events[len - 1 - k]);
            k = k + 1;
        }
        r
    }

    /// The events held, oldest first.
    pub fn events(&self) -> (r: &VecDeque<AuditEvent>)
        ensures
            r@ == self.spec_events(),
    {
        &self.events
    }

    /// The most events the log holds.
    pub fn max_entries(&self) -> (r: usize)
        ensures
            r == self.spec_max(),
    {
        self.max_entries
    }

    /// The number of events held; never more than the maximum.
    pub fn len(&self) -> (n: usize)
        ensures
            n == self.spec_events().len(),
            n <= self.spec_max(),
    {
        proof {
            use_type_invariant(self);
        }
        self.events.len()
    }

    /// Whether no event is held.
    pub fn is_empty(&self) -> (r: bool)
        ensures
            r == (self.spec_events().len() == 0),
    {
        self.events.len() == 0
    }

    /// Drops every event.
    pub fn clear(&mut self)
        ensures
            final(self).spec_events().len() == 0,
            final(self).spec_max() == old(self).spec_max(),
    {
        proof {
            use_type_invariant(&*self);
        }
        self.events = VecDeque::new();
    }
}

} // verus!
