//! The poller: on every tick it asks for one price and, when it gets one,
//! hands a record to persistence and a sample to the broadcast hub.
//!
//! The poller decides; it performs nothing. Whoever runs it delivers events
//! (`PollEvent`) and carries out the action (`PollAction`) that each event is
//! answered with.

use crate::config::Config;
use crate::data::{TokenPrice, TokenPriceView, UnixTime};
use crate::decimal::{decimal_clone, decimal_text, decimal_to_string};
use crate::persistence::{TokenPriceModel, TokenPriceModelView};
use crate::scraper::{PriceUnavailable, Token};
use bigdecimal::BigDecimal;
use vstd::prelude::*;

verus! {

/// Where the poller stands in its cycle.
#[derive(Debug)]
pub enum PollPhase {
    /// Waiting for the next tick.
    Running,
    /// A price was asked for at `at` and has not come back.
    Fetching { at: UnixTime },
    /// The record of `price` was handed to persistence, which has not
    /// answered; the sample is still to be published.
    Saving { at: UnixTime, price: BigDecimal },
    /// The sample was handed to the hub, which has not answered.
    Publishing,
    /// The loop has ended. Nothing leaves this phase.
    Stopped,
}

/// The poller's whole state.
#[derive(Debug)]
pub struct PollState {
    pub phase: PollPhase,
    /// The shutdown signal arrived while a cycle was under way: the cycle is
    /// finished and no other begins.
    pub stopping: bool,
}

/// What the runtime reports to the poller.
#[derive(Debug)]
pub enum PollEvent {
    /// The interval fired; the clock read the given time.
    Tick(UnixTime),
    /// The price source answered.
    Fetched(Result<BigDecimal, PriceUnavailable>),
    /// Persistence answered: `true` if the record was queued.
    Saved(bool),
    /// The hub answered: `true` if a subscriber was there to receive.
    Published(bool),
    /// The shutdown signal fired.
    Cancelled,
}

impl Clone for PollEvent {
    fn clone(&self) -> (copy: Self)
        ensures
            copy == *self,
    {
        match self {
            PollEvent::Tick(at) => PollEvent::Tick(*at),
            PollEvent::Fetched(Ok(price)) => PollEvent::Fetched(Ok(decimal_clone(price))),
            PollEvent::Fetched(Err(failure)) => PollEvent::Fetched(Err(*failure)),
            PollEvent::Saved(queued) => PollEvent::Saved(*queued),
            PollEvent::Published(received) => PollEvent::Published(*received),
            PollEvent::Cancelled => PollEvent::Cancelled,
        }
    }
}

/// What the poller asks the runtime to do next.
#[derive(Debug)]
pub enum PollAction {
    /// Ask the price source for the price of the token, once.
    Fetch(Token),
    /// Hand the record to persistence.
    Save(TokenPriceModel),
    /// Hand the sample to the broadcast hub.
    Publish(TokenPrice),
    /// Nothing to do until the next event.
    Wait,
    /// Leave the loop.
    Stop,
}

/// What contracts see of a `PollAction`.
pub enum PollActionView {
    Fetch(Token),
    Save(TokenPriceModelView),
    Publish(TokenPriceView),
    Wait,
    Stop,
}

impl View for PollAction {
    type V = PollActionView;

    open spec fn view(&self) -> PollActionView {
        match *self {
            PollAction::Fetch(token) => PollActionView::Fetch(token),
            PollAction::Save(record) => PollActionView::Save(record@),
            PollAction::Publish(sample) => PollActionView::Publish(sample@),
            PollAction::Wait => PollActionView::Wait,
            PollAction::Stop => PollActionView::Stop,
        }
    }
}

/// The views of `actions`.
pub open spec fn action_views(actions: Seq<PollAction>) -> Seq<PollActionView> {
    actions.map_values(|action: PollAction| action@)
}

/// The record that a price fetched on the tick at `at` is stored as.
pub open spec fn record_of(at: UnixTime, price: BigDecimal) -> TokenPriceModelView {
    TokenPriceModelView { id: None, created_at: at, symbol: Token::Bitcoin.symbol(), price }
}

/// The sample that a price fetched on the tick at `at` is published as.
pub open spec fn sample_of(at: UnixTime, price: BigDecimal) -> TokenPriceView {
    TokenPriceView { symbol: Token::Bitcoin, timestamp: at.secs, price: decimal_text(price) }
}

impl PollState {
    /// The state before the first tick.
    pub open spec fn initial() -> PollState {
        PollState { phase: PollPhase::Running, stopping: false }
    }

    /// The terminal state.
    pub open spec fn stopped() -> PollState {
        PollState { phase: PollPhase::Stopped, stopping: true }
    }

    /// The shutdown signal has been seen: the loop has ended or ends with
    /// the cycle under way.
    pub open spec fn halting(self) -> bool {
        self.stopping || self.phase is Stopped
    }

    /// The state has ended the loop, or is about to do so on any event.
    pub open spec fn at_rest_halted(self) -> bool {
        self.phase is Stopped || (self.phase is Running && self.stopping)
    }

    /// Where a cycle ends: back to waiting, or stopped if the shutdown signal
    /// arrived meanwhile.
    pub open spec fn settle(self) -> (PollState, PollActionView) {
        if self.stopping {
            (PollState::stopped(), PollActionView::Stop)
        } else {
            (PollState { phase: PollPhase::Running, stopping: false }, PollActionView::Wait)
        }
    }

    /// The poller's transition function: the state after `event` and the
    /// action that answers it.
    pub open spec fn step(self, event: PollEvent) -> (PollState, PollActionView) {
        if self.at_rest_halted() {
            (PollState::stopped(), PollActionView::Stop)
        } else {
            match (self.phase, event) {
                (PollPhase::Running, PollEvent::Cancelled) => (
                    PollState::stopped(),
                    PollActionView::Stop,
                ),
                (PollPhase::Running, PollEvent::Tick(at)) => (
                    PollState { phase: PollPhase::Fetching { at }, stopping: false },
                    PollActionView::Fetch(Token::Bitcoin),
                ),
                (PollPhase::Fetching { at }, PollEvent::Fetched(Ok(price))) => (
                    PollState { phase: PollPhase::Saving { at, price }, stopping: self.stopping },
                    PollActionView::Save(record_of(at, price)),
                ),
                (PollPhase::Fetching { at }, PollEvent::Fetched(Err(_))) => self.settle(),
                (PollPhase::Saving { at, price }, PollEvent::Saved(_)) => (
                    PollState { phase: PollPhase::Publishing, stopping: self.stopping },
                    PollActionView::Publish(sample_of(at, price)),
                ),
                (PollPhase::Publishing, PollEvent::Published(_)) => self.settle(),
                (_, PollEvent::Cancelled) => (
                    PollState { phase: self.phase, stopping: true },
                    PollActionView::Wait,
                ),
                _ => (self, PollActionView::Wait),
            }
        }
    }

    /// The poll loop over a whole course of events: the state after the last
    /// of `events` and the actions that answered them, one for each.
    pub open spec fn run(self, events: Seq<PollEvent>) -> (PollState, Seq<PollActionView>)
        decreases events.len(),
    {
        if events.len() == 0 {
            (self, Seq::empty())
        } else {
            let (before, actions) = self.run(events.drop_last());
            let (after, action) = before.step(events.last());
            (after, actions.push(action))
        }
    }
}

/// A successful poll hands exactly one record to persistence and then
/// exactly one sample to the hub, whatever persistence answered, and the two
/// hold the same price and the same time.
pub proof fn lemma_one_record_one_sample(
    state: PollState,
    at: UnixTime,
    price: BigDecimal,
    queued: bool,
)
    requires
        state.phase == (PollPhase::Fetching { at }),
    ensures
        ({
            let (saving, first) = state.step(PollEvent::Fetched(Ok(price)));
            let (publishing, second) = saving.step(PollEvent::Saved(queued));
            &&& first == PollActionView::Save(record_of(at, price))
            &&& second == PollActionView::Publish(sample_of(at, price))
            &&& record_of(at, price).price == price
            &&& sample_of(at, price).price == decimal_text(record_of(at, price).price)
            &&& sample_of(at, price).timestamp == record_of(at, price).created_at.secs
            &&& publishing.phase is Publishing
        }),
{
}

/// Each kind of action has one cause: a price is asked for only on a tick
/// that finds the poller waiting, a record is handed over only when a price
/// came back, and a sample only when persistence has answered for its record.
/// A failed fetch hands over neither.
pub proof fn lemma_action_causes(state: PollState, event: PollEvent)
    ensures
        state.step(event).1 is Fetch <==> state.phase is Running && !state.stopping
            && event is Tick,
        state.step(event).1 is Save <==> state.phase is Fetching && (event matches PollEvent::Fetched(
            Ok(_),
        )),
        state.step(event).1 is Publish <==> state.phase is Saving && event is Saved,
{
}

/// A cycle under way waits for its own answer: until the price source has
/// answered a fetch, persistence a record or the hub a sample, no other event
/// moves the cycle on, and none is answered with a fetch, a record or a
/// sample. So no poll runs beside another, and nothing comes between a
/// record and its sample.
pub proof fn lemma_cycle_waits_for_its_answer(state: PollState, event: PollEvent)
    requires
        state.phase is Fetching && !(event is Fetched) || state.phase is Saving && !(event
            is Saved) || state.phase is Publishing && !(event is Published),
    ensures
        state.step(event).0.phase == state.phase,
        state.step(event).1 == PollActionView::Wait,
        state.step(event).0.stopping == (state.stopping || event is Cancelled),
{
}

/// Once the shutdown signal has been seen it stays seen, no price is asked
/// for any more, and the signal itself is always seen.
pub proof fn lemma_halting_is_final(state: PollState, event: PollEvent)
    ensures
        event is Cancelled ==> state.step(event).0.halting(),
        state.halting() ==> state.step(event).0.halting() && !(state.step(event).1 is Fetch),
        state.phase is Stopped ==> state.step(event) == (
            PollState::stopped(),
            PollActionView::Stop,
        ),
{
}

/// A run answers every event with one action, and the answer to the event
/// at `index` is the step taken from the state that the events before it led
/// to.
pub proof fn lemma_run_unfolds(state: PollState, events: Seq<PollEvent>, index: int)
    requires
        0 <= index < events.len(),
    ensures
        state.run(events).1.len() == events.len(),
        state.run(events).1[index] == state.run(events.take(index)).0.step(events[index]).1,
    decreases events.len(),
{
    let shorter = events.drop_last();
    lemma_run_length(state, events);
    if index == events.len() - 1 {
        assert(events.take(index) =~= shorter);
    } else {
        lemma_run_unfolds(state, shorter, index);
        assert(shorter.take(index) =~= events.take(index));
    }
}

/// A run answers every event with one action.
pub proof fn lemma_run_length(state: PollState, events: Seq<PollEvent>)
    ensures
        state.run(events).1.len() == events.len(),
    decreases events.len(),
{
    if events.len() > 0 {
        lemma_run_length(state, events.drop_last());
    }
}

/// A run that has seen the shutdown signal ends in a state that has seen it.
pub proof fn lemma_run_keeps_halting(state: PollState, events: Seq<PollEvent>, signal: int)
    requires
        0 <= signal < events.len(),
        events[signal] is Cancelled,
    ensures
        state.run(events).0.halting(),
    decreases events.len(),
{
    let shorter = events.drop_last();
    let before = state.run(shorter).0;
    lemma_halting_is_final(before, events.last());
    if signal < events.len() - 1 {
        lemma_run_keeps_halting(state, shorter, signal);
    }
}

/// After the shutdown signal no poll starts: in any course of events, from
/// any state, no event that follows the signal is answered by asking for a
/// price.
pub proof fn lemma_no_poll_after_shutdown(
    state: PollState,
    events: Seq<PollEvent>,
    signal: int,
    later: int,
)
    requires
        0 <= signal < later < events.len(),
        events[signal] is Cancelled,
    ensures
        !(state.run(events).1[later] is Fetch),
{
    lemma_run_unfolds(state, events, later);
    let seen = events.take(later);
    assert(seen[signal] == events[signal]);
    lemma_run_keeps_halting(state, seen, signal);
    lemma_halting_is_final(state.run(seen).0, events[later]);
}

/// The orchestrator of the service: the settings it started with and the
/// state of its poll loop.
#[derive(Debug)]
pub struct App {
    config: Config,
    state: PollState,
}

impl App {
    pub closed spec fn config(&self) -> Config {
        self.config
    }

    pub closed spec fn state(&self) -> PollState {
        self.state
    }

    /// A poller that waits for its first tick.
    pub fn new(config: Config) -> (app: App)
        ensures
            app.config() == config,
            app.state() == PollState::initial(),
    {
        App { config, state: PollState { phase: PollPhase::Running, stopping: false } }
    }

    /// The time between two ticks, in seconds.
    pub fn interval_secs(&self) -> (secs: u64)
        ensures
            secs == self.config().get_price_duration_sec,
    {
        self.config.get_price_duration_sec as u64
    }

    /// Whether the loop has ended.
    pub fn is_stopped(&self) -> (stopped: bool)
        ensures
            stopped == (self.state().phase is Stopped),
    {
        match self.state.phase {
            PollPhase::Stopped => true,
            _ => false,
        }
    }

    /// Takes one event and answers with the action to carry out.
    pub fn step(&mut self, event: PollEvent) -> (action: PollAction)
        ensures
            final(self).config() == old(self).config(),
            (final(self).state(), action@) == old(self).state().step(event),
    {
        let mut phase = PollPhase::Stopped;
        core::mem::swap(&mut self.state.phase, &mut phase);
        let stopping = self.state.stopping;
        let resting = match phase {
            PollPhase::Stopped => true,
            PollPhase::Running => stopping,
            _ => false,
        };
        if resting {
            self.state.stopping = true;
            return PollAction::Stop;
        }
        match (phase, event) {
            (PollPhase::Running, PollEvent::Cancelled) => {
                self.state.stopping = true;
                PollAction::Stop
            },
            (PollPhase::Running, PollEvent::Tick(at)) => {
                self.state.phase = PollPhase::Fetching { at };
                PollAction::Fetch(Token::Bitcoin)
            },
            (PollPhase::Fetching { at }, PollEvent::Fetched(Ok(price))) => {
                let record = TokenPriceModel {
                    id: None,
                    created_at: at,
                    symbol: Token::Bitcoin.to_string(),
                    price: decimal_clone(&price),
                };
                self.state.phase = PollPhase::Saving { at, price };
                PollAction::Save(record)
            },
            (PollPhase::Fetching { at }, PollEvent::Fetched(Err(_))) => self.settle(),
            (PollPhase::Saving { at, price }, PollEvent::Saved(_)) => {
                let sample = TokenPrice {
                    symbol: Token::Bitcoin,
                    timestamp: at.secs,
                    price: decimal_to_string(&price),
                };
                self.state.phase = PollPhase::Publishing;
                PollAction::Publish(sample)
            },
            (PollPhase::Publishing, PollEvent::Published(_)) => self.settle(),
            (other, PollEvent::Cancelled) => {
                self.state.phase = other;
                self.state.stopping = true;
                PollAction::Wait
            },
            (other, _) => {
                self.state.phase = other;
                PollAction::Wait
            },
        }
    }

    /// Runs the poll loop over a recorded course of events and returns the
    /// actions that answer them, one for each event and in their order.
    pub fn run(&mut self, events: &Vec<PollEvent>) -> (actions: Vec<PollAction>)
        ensures
            final(self).config() == old(self).config(),
            (final(self).state(), action_views(actions@)) == old(self).state().run(events@),
    {
        let mut actions: Vec<PollAction> = Vec::new();
        let mut i: usize = 0;
        assert(events@.take(0) =~= Seq::empty());
        assert(action_views(actions@) =~= Seq::empty());
        while i < events.len()
            invariant
                i <= events@.len(),
                self.config == old(self).config,
                (self.state, action_views(actions@)) == old(self).state.run(events@.take(i as int)),
            decreases events@.len() - i,
        {
            let ghost seen = action_views(actions@);
            let action = self.step(events[i].clone());
            proof {
                let next = events@.take(i as int + 1);
                assert(next.drop_last() =~= events@.take(i as int));
                assert(next.last() == events@[i as int]);
            }
            actions.push(action);
            assert(action_views(actions@) =~= seen.push(action@));
            i = i + 1;
        }
        assert(events@.take(events@.len() as int) =~= events@);
        actions
    }

    /// Ends a cycle: stops if the shutdown signal arrived meanwhile, else
    /// waits for the next tick.
    fn settle(&mut self) -> (action: PollAction)
        ensures
            final(self).config == old(self).config,
            (final(self).state, action@) == old(self).state.settle(),
    {
        if self.state.stopping {
            self.state.phase = PollPhase::Stopped;
            PollAction::Stop
        } else {
            self.state.phase = PollPhase::Running;
            PollAction::Wait
        }
    }
}

} // verus!
