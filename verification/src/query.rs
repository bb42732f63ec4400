//! A query in progress: which register to read next, and what becomes of the
//! words that come back.
//!
//! The transport is the caller's. The caller asks for the next action,
//! performs it, and reports what happened; the query decodes, refines and
//! stores. A read that fails costs its own quantity and nothing else.

use vstd::prelude::*;
use crate::catalog::Quantity;
use crate::decode::{decode, decoded, DecodeError, Value, Variant};
use crate::results::ResultMap;
use crate::selection::{plan, planned, step_views, Step, StepView};
use crate::status::{describe_status, status_code, status_description};

verus! {

/// What is known of the inverter's time zone, in minutes east of UTC.
#[derive(Clone, Copy, Debug, PartialEq, Eq, Structural)]
pub enum Zone {
    /// Not asked for yet.
    Unread,
    /// Read, and stored in the result mapping.
    Known(i64),
    /// Asked for once, in vain; it is not asked for again.
    Failed,
}

/// What the caller reports back.
#[derive(Clone, Debug, PartialEq, Eq)]
pub enum Event {
    /// The read succeeded and returned these words.
    Words(Vec<u16>),
    /// The transport failed the read.
    Failed,
    /// Nothing was read: the action asked for none, and has been taken note
    /// of. Given in answer to a read, it counts as a failed one.
    Noted,
}

/// What an `Event` means.
pub enum EventView {
    Words(Seq<u16>),
    Failed,
    Noted,
}

impl View for Event {
    type V = EventView;

    open spec fn view(&self) -> EventView {
        match *self {
            Event::Words(words) => EventView::Words(words@),
            Event::Failed => EventView::Failed,
            Event::Noted => EventView::Noted,
        }
    }
}

/// What the caller is to do next.
#[derive(Clone, Debug, PartialEq, Eq)]
pub enum Action {
    /// Read the register of this quantity and report the outcome.
    Read(Quantity),
    /// Tell the operator that this token names no quantity.
    ReportUnknown(String),
    /// This timestamp is left out, for want of the time zone.
    Omit(Quantity),
    /// The query is through.
    Finished,
}

/// What an `Action` means.
pub enum ActionView {
    Read(Quantity),
    ReportUnknown(Seq<char>),
    Omit(Quantity),
    Finished,
}

impl View for Action {
    type V = ActionView;

    open spec fn view(&self) -> ActionView {
        match *self {
            Action::Read(q) => ActionView::Read(q),
            Action::ReportUnknown(token) => ActionView::ReportUnknown(token@),
            Action::Omit(q) => ActionView::Omit(q),
            Action::Finished => ActionView::Finished,
        }
    }
}

/// What an event did to the query.
#[derive(Clone, Copy, Debug, PartialEq, Eq, Structural)]
pub enum Outcome {
    /// The quantity was decoded and stored.
    Stored(Quantity),
    /// The transport failed the read of the quantity; nothing was stored.
    TransportFailed(Quantity),
    /// The words read for the quantity do not decode; nothing was stored.
    DecodeFailed(Quantity, DecodeError),
    /// A step without a read was passed.
    Passed,
    /// The query was through already.
    Idle,
}

/// The numerator of a number; zero for text.
pub open spec fn numerator(value: Value) -> int {
    match value {
        Value::Number { raw, gain } => raw,
        Value::Text(_) => 0,
    }
}

/// Inverter-local seconds moved to UTC: the value less sixty seconds for each
/// minute of the zone. Text is left alone.
pub open spec fn corrected(value: Value, zone_minutes: int) -> Value {
    match value {
        Value::Number { raw, gain } => Value::Number { raw: raw - 60 * zone_minutes * gain, gain },
        Value::Text(_) => value,
    }
}

/// What is stored for a quantity whose register decoded to `value`: the
/// description for the device status, UTC seconds for a timestamp, the value
/// itself for all others.
pub open spec fn refined(q: Quantity, value: Value, zone: Zone) -> Value {
    if q == Quantity::DeviceStatus {
        Value::Text(status_description(status_code(value)))
    } else if q.timestamp() {
        match zone {
            Zone::Known(minutes) => corrected(value, minutes as int),
            _ => value,
        }
    } else {
        value
    }
}

/// What a reported event yields for the register of `q`: the decoded value
/// of words, or the failure to tell the operator of.
pub open spec fn reading(q: Quantity, event: EventView) -> Result<Value, Outcome> {
    match event {
        EventView::Words(words) => match decoded(q.descriptor(), words) {
            Ok(value) => Ok(value),
            Err(e) => Err(Outcome::DecodeFailed(q, e)),
        },
        _ => Err(Outcome::TransportFailed(q)),
    }
}

/// The state of a query: its plan, how far it has come, what it has stored,
/// and what it knows of the time zone.
pub struct QueryState {
    pub steps: Seq<StepView>,
    pub pos: int,
    pub results: Map<Quantity, Value>,
    pub zone: Zone,
}

impl QueryState {
    /// The state in which a query starts.
    pub open spec fn initial(selection: Seq<char>) -> QueryState {
        QueryState {
            steps: planned(selection),
            pos: 0,
            results: Map::empty(),
            zone: Zone::Unread,
        }
    }

    /// What is to be done next. A timestamp asks for the time zone first,
    /// once; without it the timestamp is left out.
    pub open spec fn action(self) -> ActionView {
        if self.pos < 0 || self.pos >= self.steps.len() {
            ActionView::Finished
        } else {
            match self.steps[self.pos] {
                StepView::Unknown(token) => ActionView::ReportUnknown(token),
                StepView::Read(q) => if q.timestamp() {
                    match self.zone {
                        Zone::Unread => ActionView::Read(Quantity::TimeZone),
                        Zone::Failed => ActionView::Omit(q),
                        Zone::Known(_) => ActionView::Read(q),
                    }
                } else {
                    ActionView::Read(q)
                },
            }
        }
    }

    /// Whether a read of `q` is the current step's own, not one made on its
    /// behalf.
    pub open spec fn own_read(self, q: Quantity) -> bool {
        self.steps[self.pos] == StepView::Read(q)
    }

    /// The state after the event. A value that decodes is stored, refined;
    /// a failure stores nothing. The plan moves on unless the read was made
    /// on behalf of the current step, and a time zone that failed on behalf
    /// of a timestamp is marked as failed.
    pub open spec fn after(self, event: EventView) -> QueryState {
        match self.action() {
            ActionView::Finished => self,
            ActionView::ReportUnknown(_) | ActionView::Omit(_) => QueryState {
                pos: self.pos + 1,
                ..self
            },
            ActionView::Read(q) => {
                let pos = if self.own_read(q) {
                    self.pos + 1
                } else {
                    self.pos
                };
                match reading(q, event) {
                    Ok(value) => QueryState {
                        steps: self.steps,
                        pos,
                        results: self.results.insert(q, refined(q, value, self.zone)),
                        zone: if q == Quantity::TimeZone {
                            Zone::Known(numerator(value) as i64)
                        } else {
                            self.zone
                        },
                    },
                    Err(_) => QueryState {
                        steps: self.steps,
                        pos,
                        results: self.results,
                        zone: if self.own_read(q) {
                            self.zone
                        } else {
                            Zone::Failed
                        },
                    },
                }
            },
        }
    }

    /// What the event did.
    pub open spec fn outcome(self, event: EventView) -> Outcome {
        match self.action() {
            ActionView::Finished => Outcome::Idle,
            ActionView::ReportUnknown(_) | ActionView::Omit(_) => Outcome::Passed,
            ActionView::Read(q) => match reading(q, event) {
                Ok(_) => Outcome::Stored(q),
                Err(failure) => failure,
            },
        }
    }

    /// The time zone is in the mapping exactly when it is known, as the whole
    /// number of minutes that was read; and no timestamp is stored without it.
    pub open spec fn consistent(self) -> bool {
        &&& 0 <= self.pos <= self.steps.len()
        &&& match self.zone {
            Zone::Known(minutes) => {
                &&& -0x8000 <= minutes < 0x8000
                &&& self.results.contains_key(Quantity::TimeZone)
                &&& self.results[Quantity::TimeZone] == Value::Number {
                    raw: minutes as int,
                    gain: 1,
                }
            },
            _ => {
                &&& !self.results.contains_key(Quantity::TimeZone)
                &&& !self.results.contains_key(Quantity::StartupTime)
                &&& !self.results.contains_key(Quantity::ShutdownTime)
            },
        }
    }

    /// The state after a run of events, taken in one after the other.
    pub open spec fn after_all(self, events: Seq<EventView>) -> QueryState
        decreases events.len(),
    {
        if events.len() == 0 {
            self
        } else {
            self.after_all(events.drop_last()).after(events.last())
        }
    }

    /// Whether the event answers the action without a failure: words that
    /// decode where a read was asked for, anything where none was.
    pub open spec fn answered_by(self, event: EventView) -> bool {
        match self.action() {
            ActionView::Read(q) => reading(q, event) is Ok,
            _ => true,
        }
    }

    /// Whether each event of a run answers its action without a failure.
    pub open spec fn all_answered(self, events: Seq<EventView>) -> bool
        decreases events.len(),
    {
        events.len() == 0 || (self.all_answered(events.drop_last()) && self.after_all(
            events.drop_last(),
        ).answered_by(events.last()))
    }

    /// Whether the time zone has not failed and every read that the plan has
    /// passed is stored.
    pub open spec fn reads_stored(self) -> bool {
        &&& self.zone != Zone::Failed
        &&& forall|i: int|
            0 <= i < self.pos && i < self.steps.len() ==> (#[trigger] self.steps[i]
                matches StepView::Read(q) ==> self.results.contains_key(q))
    }

    /// How many more events the query can take at most before it is through.
    pub open spec fn remaining(self) -> int {
        2 * (self.steps.len() - self.pos) + if self.zone == Zone::Unread {
            1int
        } else {
            0int
        }
    }
}

/// A query in progress.
pub struct Query {
    steps: Vec<Step>,
    pos: usize,
    results: ResultMap,
    zone: Zone,
}

impl View for Query {
    type V = QueryState;

    closed spec fn view(&self) -> QueryState {
        QueryState {
            steps: step_views(self.steps@),
            pos: self.pos as int,
            results: self.results@,
            zone: self.zone,
        }
    }
}

/// Moves inverter-local seconds to UTC.
pub fn correct_timestamp(value: Variant, zone_minutes: i64) -> (utc: Variant)
    requires
        -0x8000 <= zone_minutes < 0x8000,
        value@ is Number ==> -0x1_0000_0000 <= numerator(value@) <= 0x1_0000_0000,
    ensures
        utc@ == corrected(value@, zone_minutes as int),
{
    match value {
        Variant::Number { raw, gain } => {
            let shift: i64 = 60 * zone_minutes;
            let scale: i64 = gain as i64;
            assert(-0x20_0000 * 0x1_0000_0000 <= shift * scale <= 0x20_0000 * 0x1_0000_0000)
                by (nonlinear_arith)
                requires
                    -0x20_0000 <= shift <= 0x20_0000,
                    0 <= scale <= 0x1_0000_0000,
            ;
            assert(60 * zone_minutes * gain == shift * scale) by (nonlinear_arith)
                requires
                    shift == 60 * zone_minutes,
                    scale == gain,
            ;
            Variant::Number { raw: raw - shift * scale, gain }
        },
        Variant::Text(text) => Variant::Text(text),
    }
}

impl Query {
    /// The mapping has room, and the state is consistent.
    pub closed spec fn well_formed(&self) -> bool {
        &&& self.results.well_formed()
        &&& self@.consistent()
    }

    /// A well-formed query is in a consistent state.
    pub proof fn well_formed_is_consistent(&self)
        requires
            self.well_formed(),
        ensures
            self@.consistent(),
    {
    }

    /// Starts the query that a selection asks for.
    pub fn start(selection: &str) -> (query: Query)
        ensures
            query.well_formed(),
            query@ == QueryState::initial(selection@),
    {
        Query { steps: plan(selection), pos: 0, results: ResultMap::new(), zone: Zone::Unread }
    }

    /// What the caller is to do next.
    pub fn next_action(&self) -> (action: Action)
        requires
            self.well_formed(),
        ensures
            action@ == self@.action(),
    {
        if self.pos >= self.steps.len() {
            return Action::Finished;
        }
        match &self.steps[self.pos] {
            Step::Unknown(token) => Action::ReportUnknown(token.clone()),
            Step::Read(q) => {
                if q.is_timestamp() {
                    match self.zone {
                        Zone::Unread => Action::Read(Quantity::TimeZone),
                        Zone::Failed => Action::Omit(*q),
                        Zone::Known(_) => Action::Read(*q),
                    }
                } else {
                    Action::Read(*q)
                }
            },
        }
    }

    /// Whether the query is through.
    pub fn is_finished(&self) -> (done: bool)
        requires
            self.well_formed(),
        ensures
            done == (self@.action() is Finished),
    {
        self.pos >= self.steps.len()
    }

    /// Takes in what the caller reports of the action last asked for.
    pub fn advance(&mut self, event: Event) -> (outcome: Outcome)
        requires
            old(self).well_formed(),
        ensures
            final(self).well_formed(),
            final(self)@ == old(self)@.after(event@),
            outcome == old(self)@.outcome(event@),
    {
        if self.pos >= self.steps.len() {
            return Outcome::Idle;
        }
        let target = match &self.steps[self.pos] {
            Step::Unknown(_) => {
                self.pos += 1;
                return Outcome::Passed;
            },
            Step::Read(q) => *q,
        };
        let q = if target.is_timestamp() {
            match self.zone {
                Zone::Unread => Quantity::TimeZone,
                Zone::Failed => {
                    self.pos += 1;
                    return Outcome::Passed;
                },
                Zone::Known(_) => target,
            }
        } else {
            target
        };
        let own = q == target;
        let register = q.register();
        let read = match event {
            Event::Words(words) => match decode(&register, &words) {
                Ok(value) => Ok(value),
                Err(e) => Err(Outcome::DecodeFailed(q, e)),
            },
            _ => Err(Outcome::TransportFailed(q)),
        };
        match read {
            Ok(value) => {
                let stored = if q == Quantity::DeviceStatus {
                    describe_status(&value)
                } else if q.is_timestamp() {
                    match self.zone {
                        Zone::Known(minutes) => correct_timestamp(value, minutes),
                        _ => value,
                    }
                } else {
                    value
                };
                if q == Quantity::TimeZone {
                    match &stored {
                        Variant::Number { raw, gain } => {
                            self.zone = Zone::Known(*raw);
                        },
                        Variant::Text(_) => {},
                    }
                }
                self.results.insert(q, stored);
                if own {
                    self.pos += 1;
                }
                Outcome::Stored(q)
            },
            Err(failure) => {
                if own {
                    self.pos += 1;
                } else {
                    self.zone = Zone::Failed;
                }
                failure
            },
        }
    }

    /// What has been stored so far.
    pub fn results(&self) -> (map: &ResultMap)
        requires
            self.well_formed(),
        ensures
            map.well_formed(),
            map@ == self@.results,
    {
        &self.results
    }

    /// Ends the query and hands out what it has stored.
    pub fn into_results(self) -> (map: ResultMap)
        requires
            self.well_formed(),
        ensures
            map.well_formed(),
            map@ == self@.results,
    {
        self.results
    }
}

/// A query starts in a consistent state.
pub proof fn initial_is_consistent(selection: Seq<char>)
    ensures
        QueryState::initial(selection).consistent(),
        QueryState::initial(selection).results.dom().is_empty(),
{
}

/// No event can make a consistent state inconsistent.
pub proof fn consistency_is_kept(state: QueryState, event: EventView)
    requires
        state.consistent(),
    ensures
        state.after(event).consistent(),
{
}

/// Wherever a timestamp is stored, the time zone is stored with it.
pub proof fn timestamp_comes_with_time_zone(state: QueryState, q: Quantity)
    requires
        state.consistent(),
        q.timestamp(),
        state.results.contains_key(q),
    ensures
        state.results.contains_key(Quantity::TimeZone),
{
}

/// The time zone is asked for at most once: after any event that answers the
/// request, it is never requested again.
pub proof fn time_zone_is_read_once(state: QueryState, event: EventView)
    requires
        state.consistent(),
        state.action() == ActionView::Read(Quantity::TimeZone),
        !state.own_read(Quantity::TimeZone),
    ensures
        state.after(event).zone != Zone::Unread,
        state.after(event).action() != ActionView::Read(Quantity::TimeZone),
{
}

/// Every event brings a query that is not through closer to its end.
pub proof fn every_event_makes_progress(state: QueryState, event: EventView)
    requires
        state.consistent(),
        !(state.action() is Finished),
    ensures
        0 <= state.after(event).remaining() < state.remaining(),
{
}

/// A failed read stores nothing, and a read that decodes stores one entry
/// under the quantity read and touches no other.
pub proof fn event_touches_one_entry(state: QueryState, event: EventView, other: Quantity)
    requires
        state.consistent(),
    ensures
        !(state.outcome(event) is Stored) ==> state.after(event).results == state.results,
        state.outcome(event) matches Outcome::Stored(q) ==> {
            &&& state.after(event).results.contains_key(q)
            &&& other != q ==> (state.after(event).results.contains_key(other)
                <==> state.results.contains_key(other))
            &&& other != q && state.results.contains_key(other) ==> state.after(
                event,
            ).results[other] == state.results[other]
        },
{
}

/// An event that answers its action without a failure leaves every passed
/// read stored.
pub proof fn answered_read_is_stored(state: QueryState, event: EventView)
    requires
        state.consistent(),
        state.reads_stored(),
        state.answered_by(event),
    ensures
        state.after(event).consistent(),
        state.after(event).reads_stored(),
{
    let next = state.after(event);
    assert forall|i: int| 0 <= i < next.pos && i < next.steps.len() implies (
    #[trigger] next.steps[i] matches StepView::Read(q) ==> next.results.contains_key(q)) by {
        if i < state.pos {
            assert(state.steps[i] matches StepView::Read(q) ==> state.results.contains_key(q));
        }
    }
}

/// A run of events that all answer their actions without a failure leaves
/// every passed read stored.
pub proof fn answered_reads_are_stored(state: QueryState, events: Seq<EventView>)
    requires
        state.consistent(),
        state.reads_stored(),
        state.all_answered(events),
    ensures
        state.after_all(events).consistent(),
        state.after_all(events).reads_stored(),
    decreases events.len(),
{
    if events.len() > 0 {
        answered_reads_are_stored(state, events.drop_last());
        answered_read_is_stored(state.after_all(events.drop_last()), events.last());
    }
}

/// Where no read fails, a query that is through has stored every quantity of
/// its plan.
pub proof fn answered_query_stores_its_plan(selection: Seq<char>, events: Seq<EventView>, i: int)
    requires
        QueryState::initial(selection).all_answered(events),
        QueryState::initial(selection).after_all(events).action() is Finished,
        0 <= i < planned(selection).len(),
    ensures
        planned(selection)[i] matches StepView::Read(q) ==> QueryState::initial(
            selection,
        ).after_all(events).results.contains_key(q),
{
    let start = QueryState::initial(selection);
    answered_reads_are_stored(start, events);
    plan_is_kept(start, events);
}

/// Events leave the plan as it is.
pub proof fn plan_is_kept(state: QueryState, events: Seq<EventView>)
    ensures
        state.after_all(events).steps == state.steps,
    decreases events.len(),
{
    if events.len() > 0 {
        plan_is_kept(state, events.drop_last());
    }
}

/// Where no read fails, the selection `all` stores the whole catalog: every
/// quantity that it names, and the time zone that its timestamps bring.
pub proof fn answered_full_query_stores_the_catalog(events: Seq<EventView>, q: Quantity)
    requires
        QueryState::initial("all"@).all_answered(events),
        QueryState::initial("all"@).after_all(events).action() is Finished,
    ensures
        QueryState::initial("all"@).after_all(events).results.contains_key(q),
{
    let start = QueryState::initial("all"@);
    let end = start.after_all(events);
    crate::selection::all_reads_the_full_catalog();
    answered_reads_are_stored(start, events);
    let wanted = if q == Quantity::TimeZone {
        Quantity::StartupTime
    } else {
        q
    };
    crate::catalog::catalog_is_complete(wanted);
    let full = crate::catalog::full_selection();
    let i = choose|i: int| 0 <= i < full.len() && full[i] == wanted;
    assert(planned("all"@)[i] == StepView::Read(wanted));
    answered_query_stores_its_plan("all"@, events, i);
}

} // verus!
