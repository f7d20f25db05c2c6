//! The log: a bounded history of recent lines, each with its time and level.
//!
//! Times are milliseconds since the Unix epoch; the front end shows them in
//! local time.

use vstd::prelude::*;
use vstd::string::*;
use std::collections::VecDeque;
use crate::text::{owned, starts_with, starts_with_spec};

verus! {

/// The name of the event that carries a new line to the front end.
pub const EVENT_NAME: &'static str = "cf-log";
/// The history keeps at most this many lines.
pub const MAX_HISTORY: usize = 500;

#[derive(Clone, Debug)]
pub struct LogEvent {
    /// Milliseconds since the Unix epoch.
    pub ts: u64,
    pub level: String,
    pub msg: String,
}

pub struct EventModel {
    pub ts: u64,
    pub level: Seq<char>,
    pub msg: Seq<char>,
}

impl View for LogEvent {
    type V = EventModel;

    open spec fn view(&self) -> EventModel {
        EventModel { ts: self.ts, level: self.level@, msg: self.msg@ }
    }
}

impl LogEvent {
    pub fn copy(&self) -> (r: LogEvent)
        ensures
            r@ == self@,
    {
        LogEvent { ts: self.ts, level: self.level.clone(), msg: self.msg.clone() }
    }
}

/// The level of a line, from its prefix: `[ok]` is "ok", `[!!]` "error",
/// `[??]` "warn", anything else "info". The front end colours by it.
pub open spec fn level_spec(msg: Seq<char>) -> Seq<char> {
    if starts_with_spec(msg, "[ok]"@) {
        "ok"@
    } else if starts_with_spec(msg, "[!!]"@) {
        "error"@
    } else if starts_with_spec(msg, "[??]"@) {
        "warn"@
    } else {
        "info"@
    }
}

pub fn level_of(msg: &str) -> (r: &'static str)
    ensures
        r@ == level_spec(msg@),
{
    if starts_with(msg, "[ok]") {
        "ok"
    } else if starts_with(msg, "[!!]") {
        "error"
    } else if starts_with(msg, "[??]") {
        "warn"
    } else if starts_with(msg, "[..]") {
        "info"
    } else {
        "info"
    }
}

/// The event for the line `msg` logged at `ts`.
pub open spec fn event_spec(msg: Seq<char>, ts: u64) -> EventModel {
    EventModel { ts, level: level_spec(msg), msg }
}

pub fn make_event(msg: &str, ts: u64) -> (e: LogEvent)
    ensures
        e@ == event_spec(msg@, ts),
{
    LogEvent { ts, level: owned(level_of(msg)), msg: owned(msg) }
}

/// The history after one more event: the event at the end, the oldest
/// line dropped when the history was full.
pub open spec fn pushed(h: Seq<EventModel>, e: EventModel) -> Seq<EventModel> {
    if h.len() >= MAX_HISTORY {
        h.subrange(h.len() - MAX_HISTORY + 1, h.len() as int).push(e)
    } else {
        h.push(e)
    }
}

/// The last `n` elements of `s` (all of them where there are fewer).
pub open spec fn last_n<T>(s: Seq<T>, n: nat) -> Seq<T> {
    if s.len() <= n {
        s
    } else {
        s.subrange(s.len() - n, s.len() as int)
    }
}

/// The history after the events `es`, one after another, starting from `h`.
pub open spec fn pushed_all(h: Seq<EventModel>, es: Seq<EventModel>) -> Seq<EventModel>
    decreases es.len(),
{
    if es.len() == 0 {
        h
    } else {
        pushed(pushed_all(h, es.drop_last()), es.last())
    }
}

pub struct LogBus {
    history: VecDeque<LogEvent>,
}

pub open spec fn events_view(s: Seq<LogEvent>) -> Seq<EventModel> {
    s.map_values(|e: LogEvent| e@)
}

impl View for LogBus {
    type V = Seq<EventModel>;

    closed spec fn view(&self) -> Seq<EventModel> {
        events_view(self.history@)
    }
}

impl LogBus {
    #[verifier::type_invariant]
    spec fn bounded(self) -> bool {
        self.history@.len() <= MAX_HISTORY
    }

    /// The number of lines kept; never more than `MAX_HISTORY`.
    pub fn len(&self) -> (n: usize)
        ensures
            n == self@.len(),
            n <= MAX_HISTORY,
    {
        proof {
            use_type_invariant(self);
        }
        self.history.len()
    }

    pub fn new() -> (b: LogBus)
        ensures
            b@ == Seq::<EventModel>::empty(),
    {
        let b = LogBus { history: VecDeque::new() };
        assert(events_view(b.history@) =~= Seq::<EventModel>::empty());
        b
    }

    /// Logs `msg` at `ts`; the event comes back for broadcasting.
    pub fn push(&mut self, msg: &str, ts: u64) -> (e: LogEvent)
        ensures
            e@ == event_spec(msg@, ts),
            final(self)@ == pushed(old(self)@, event_spec(msg@, ts)),
    {
        proof {
            use_type_invariant(&*self);
        }
        let ev = make_event(msg, ts);
        let out = ev.copy();
        let ghost h0 = self.history@;
        let mut h = VecDeque::new();
        std::mem::swap(&mut h, &mut self.history);
        if h.len() >= MAX_HISTORY {
            h.pop_front();
        }
        h.push_back(ev);
        proof {
            if h0.len() >= MAX_HISTORY {
                assert(events_view(h@) =~= pushed(events_view(h0), event_spec(msg@, ts)));
            } else {
                assert(events_view(h@) =~= pushed(events_view(h0), event_spec(msg@, ts)));
            }
        }
        self.history = h;
        out
    }

    /// The lines kept, oldest first.
    pub fn history(&self) -> (v: Vec<LogEvent>)
        ensures
            events_view(v@) == self@,
    {
        let mut v: Vec<LogEvent> = Vec::new();
        let mut i: usize = 0;
        while i < self.history.len()
            invariant
                i <= self.history@.len(),
                v@.len() == i,
                forall|j: int| 0 <= j < i ==> (#[trigger] v@[j])@ == self.history@[j]@,
            decreases self.history@.len() - i,
        {
            v.push(self.history[i].copy());
            i = i + 1;
        }
        assert(events_view(v@) =~= events_view(self.history@));
        v
    }

    pub fn clear(&mut self)
        ensures
            final(self)@ == Seq::<EventModel>::empty(),
    {
        self.history = VecDeque::new();
        assert(events_view(self.history@) =~= Seq::<EventModel>::empty());
    }
}

impl Default for LogBus {
    fn default() -> (b: LogBus)
        ensures
            b@ == Seq::<EventModel>::empty(),
    {
        LogBus::new()
    }
}

/// The history keeps the last `MAX_HISTORY` lines that were logged: after
/// any run of events from an empty log, it is the last 500 of them, in
/// order.
pub proof fn lemma_history_is_last_lines(es: Seq<EventModel>)
    ensures
        pushed_all(Seq::empty(), es) == last_n(es, MAX_HISTORY as nat),
    decreases es.len(),
{
    if es.len() > 0 {
        lemma_history_is_last_lines(es.drop_last());
        let h = pushed_all(Seq::empty(), es.drop_last());
        assert(pushed(h, es.last()) =~= last_n(es, MAX_HISTORY as nat));
    }
}

/// One push adds the new line at the end and keeps the history within
/// `MAX_HISTORY` lines.
pub proof fn lemma_push_keeps_bound(h: Seq<EventModel>, e: EventModel)
    requires
        h.len() <= MAX_HISTORY,
    ensures
        pushed(h, e).len() <= MAX_HISTORY,
        pushed(h, e).last() == e,
        pushed(h, e).len() == if h.len() == MAX_HISTORY {
            h.len()
        } else {
            h.len() + 1
        },
{
}

} // verus!
