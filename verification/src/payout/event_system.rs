//! Event kinds and the stored event log. The events themselves are published
//! by the host.
use vstd::prelude::*;
use crate::assoc::AssocList;
use crate::text::{decimal, u64_to_decimal};

verus! {

#[derive(Clone, Copy, Debug, PartialEq, Eq, Structural)]
pub enum EventType {
    MatchCreated,
    MatchLocked,
    ResultSubmitted,
    Disputed,
    Resolved,
    PayoutProcessed,
    FeeAccrued,
    FeeWithdrawn,
    AdminActionExecuted,
}

pub struct EventLog {
    pub event_type: String,
    pub timestamp: u64,
    pub actor: String,
    pub data: String,
}

pub struct EventLogView {
    pub event_type: Seq<char>,
    pub timestamp: u64,
    pub actor: Seq<char>,
    pub data: Seq<char>,
}

impl DeepView for EventLog {
    type V = EventLogView;

    open spec fn deep_view(&self) -> EventLogView {
        EventLogView { event_type: self.event_type@, timestamp: self.timestamp, actor: self.actor@, data: self.data@ }
    }
}

/// The stored event log, keyed by "event_log:<event type>:<timestamp>".
pub struct EventLogStore {
    pub entries: AssocList<String, EventLog>,
}

/// The key under which an event of `event_type` at `timestamp` is logged.
pub open spec fn event_log_key(event_type: Seq<char>, timestamp: u64) -> Seq<char> {
    "event_log:"@ + event_type + ":"@ + decimal(timestamp as nat)
}

/// Log an event of `event_type` by `actor` with `data` at time `now`,
/// replacing an entry of the same type at the same time.
pub fn log_event(store: &mut EventLogStore, event_type: &str, actor: &String, data: &str, now: u64) -> (r: Result<
    (),
    (),
>)
    ensures
        r is Ok,
        final(store).entries.map() == old(store).entries.map().insert(
            event_log_key(event_type@, now),
            EventLogView { event_type: event_type@, timestamp: now, actor: actor@, data: data@ },
        ),
{
    let log = EventLog {
        event_type: String::from_str(event_type),
        timestamp: now,
        actor: actor.clone(),
        data: String::from_str(data),
    };
    let mut key = String::from_str("event_log:");
    key.append(event_type);
    key.append(":");
    let stamp = u64_to_decimal(now);
    key.append(stamp.as_str());
    proof {
        reveal_strlit("event_log:");
        reveal_strlit(":");
    }
    store.entries.insert(key, log);
    Ok(())
}

} // verus!
