//! Persistence of price records: the record itself, the bounded queue in
//! front of the single writer, the writer's decisions and the stored relation
//! with its window query.

use crate::data::UnixTime;
use crate::decimal::decimal_clone;
use bigdecimal::BigDecimal;
use std::collections::VecDeque;
use vstd::prelude::*;
use vstd::string::StringExecFns;

verus! {

/// How many records may wait for the writer.
pub const QUEUE_CAPACITY: usize = 100;

/// A price as it is stored: one row of the append-only relation.
#[derive(Debug)]
pub struct TokenPriceModel {
    /// Assigned by the storage; `None` until the record is stored.
    pub id: Option<i64>,
    pub created_at: UnixTime,
    pub symbol: String,
    pub price: BigDecimal,
}

/// What contracts see of a `TokenPriceModel`.
pub struct TokenPriceModelView {
    pub id: Option<i64>,
    pub created_at: UnixTime,
    pub symbol: Seq<char>,
    pub price: BigDecimal,
}

impl View for TokenPriceModel {
    type V = TokenPriceModelView;

    open spec fn view(&self) -> TokenPriceModelView {
        TokenPriceModelView {
            id: self.id,
            created_at: self.created_at,
            symbol: self.symbol@,
            price: self.price,
        }
    }
}

impl Clone for TokenPriceModel {
    fn clone(&self) -> (copy: Self)
        ensures
            copy == *self,
    {
        TokenPriceModel {
            id: self.id,
            created_at: self.created_at,
            symbol: self.symbol.clone(),
            price: decimal_clone(&self.price),
        }
    }
}

/// Where the single writer stands.
#[derive(Clone, Copy, Debug, PartialEq, Eq, Structural)]
pub enum WorkerPhase {
    /// Waiting for the next queued record.
    Running,
    /// A record was handed to the storage, which has not answered. This is
    /// the one write in flight.
    Inserting,
    /// The worker has ended. Nothing leaves this phase.
    Stopped,
}

/// The writer's whole state.
#[derive(Clone, Copy, Debug, PartialEq, Eq, Structural)]
pub struct WorkerState {
    pub phase: WorkerPhase,
    /// The shutdown signal arrived during a write: the write is finished and
    /// no other begins.
    pub stopping: bool,
}

/// What the runtime reports to the writer.
#[derive(Debug)]
pub enum WorkerEvent {
    /// The queue gave up its oldest record.
    Received(TokenPriceModel),
    /// The storage answered: `true` if the record was written. A connection
    /// that could not be had counts as a failed write.
    Inserted(bool),
    /// The shutdown signal fired.
    Cancelled,
}

/// What the writer asks the runtime to do next.
#[derive(Debug)]
pub enum WorkerAction {
    /// Take a connection and insert the record.
    Insert(TokenPriceModel),
    /// The record came while a write was in flight; it is handed back
    /// untouched.
    Refuse(TokenPriceModel),
    /// Wait for the next event.
    Wait,
    /// Leave the loop. What is still queued is not written.
    Stop,
}

impl WorkerState {
    /// The state of a worker that has just started.
    pub open spec fn initial() -> WorkerState {
        WorkerState { phase: WorkerPhase::Running, stopping: false }
    }

    /// The terminal state.
    pub open spec fn stopped() -> WorkerState {
        WorkerState { phase: WorkerPhase::Stopped, stopping: true }
    }

    /// The shutdown signal has been seen.
    pub open spec fn halting(self) -> bool {
        self.stopping || self.phase is Stopped
    }

    /// The worker takes the next record.
    pub open spec fn ready(self) -> bool {
        self.phase is Running && !self.stopping
    }

    /// The writer's transition function: the state after `event` and the
    /// action that answers it. A failed write changes nothing: the record is
    /// dropped and the worker goes on.
    pub open spec fn step(self, event: WorkerEvent) -> (WorkerState, WorkerAction) {
        if self.phase is Stopped || (self.phase is Running && self.stopping) {
            (WorkerState::stopped(), WorkerAction::Stop)
        } else {
            match (self.phase, event) {
                (WorkerPhase::Running, WorkerEvent::Received(record)) => (
                    WorkerState { phase: WorkerPhase::Inserting, stopping: false },
                    WorkerAction::Insert(record),
                ),
                (WorkerPhase::Running, WorkerEvent::Cancelled) => (
                    WorkerState::stopped(),
                    WorkerAction::Stop,
                ),
                (WorkerPhase::Inserting, WorkerEvent::Inserted(_)) => if self.stopping {
                    (WorkerState::stopped(), WorkerAction::Stop)
                } else {
                    (WorkerState::initial(), WorkerAction::Wait)
                },
                (WorkerPhase::Inserting, WorkerEvent::Received(record)) => (
                    self,
                    WorkerAction::Refuse(record),
                ),
                (WorkerPhase::Inserting, WorkerEvent::Cancelled) => (
                    WorkerState { phase: WorkerPhase::Inserting, stopping: true },
                    WorkerAction::Wait,
                ),
                _ => (self, WorkerAction::Wait),
            }
        }
    }
}

/// The single writer in front of the storage: it takes the queued records
/// one at a time, in the order in which they were queued.
///
/// The writer decides; it performs nothing. Whoever runs it delivers events
/// (`WorkerEvent`) and carries out the action (`WorkerAction`) that each is
/// answered with.
#[derive(Debug)]
pub struct PriceRepositoryActor {
    state: WorkerState,
}

impl PriceRepositoryActor {
    pub closed spec fn state(&self) -> WorkerState {
        self.state
    }

    /// A writer that waits for its first record.
    pub fn new() -> (actor: PriceRepositoryActor)
        ensures
            actor.state() == WorkerState::initial(),
    {
        PriceRepositoryActor { state: WorkerState { phase: WorkerPhase::Running, stopping: false } }
    }

    /// Whether the writer takes the next record.
    pub fn is_ready(&self) -> (ready: bool)
        ensures
            ready == self.state().ready(),
    {
        self.state.phase == WorkerPhase::Running && !self.state.stopping
    }

    /// Whether the writer has ended.
    pub fn is_stopped(&self) -> (stopped: bool)
        ensures
            stopped == (self.state().phase is Stopped),
    {
        self.state.phase == WorkerPhase::Stopped
    }

    /// Takes one event and answers with the action to carry out.
    pub fn step(&mut self, event: WorkerEvent) -> (action: WorkerAction)
        ensures
            (final(self).state(), action) == old(self).state().step(event),
    {
        let phase = self.state.phase;
        let stopping = self.state.stopping;
        if phase == WorkerPhase::Stopped || (phase == WorkerPhase::Running && stopping) {
            self.state = WorkerState { phase: WorkerPhase::Stopped, stopping: true };
            return WorkerAction::Stop;
        }
        match (phase, event) {
            (WorkerPhase::Running, WorkerEvent::Received(record)) => {
                self.state.phase = WorkerPhase::Inserting;
                WorkerAction::Insert(record)
            },
            (WorkerPhase::Running, WorkerEvent::Cancelled) => {
                self.state = WorkerState { phase: WorkerPhase::Stopped, stopping: true };
                WorkerAction::Stop
            },
            (WorkerPhase::Inserting, WorkerEvent::Inserted(_)) => {
                if stopping {
                    self.state.phase = WorkerPhase::Stopped;
                    WorkerAction::Stop
                } else {
                    self.state.phase = WorkerPhase::Running;
                    WorkerAction::Wait
                }
            },
            (WorkerPhase::Inserting, WorkerEvent::Received(record)) => WorkerAction::Refuse(record),
            (WorkerPhase::Inserting, WorkerEvent::Cancelled) => {
                self.state.stopping = true;
                WorkerAction::Wait
            },
            _ => WorkerAction::Wait,
        }
    }
}

/// The one failure of `save_price`: the queue is closed for good, because
/// the writer has ended.
#[derive(Clone, Copy, Debug, PartialEq, Eq, Structural)]
pub struct QueueClosed;

/// The records that a query for `symbol` since `since` selects: those with
/// exactly that symbol that were created after the start of second `since`.
pub open spec fn window_filter(symbol: Seq<char>, since: int) -> spec_fn(TokenPriceModel) -> bool {
    |record: TokenPriceModel| record.symbol@ == symbol && record.created_at.is_after(since)
}

/// The repository as contracts see it.
#[verifier::ext_equal]
pub struct RepositoryView {
    /// The stored records, in the order in which they were written.
    pub rows: Seq<TokenPriceModel>,
    /// The queued records, oldest first.
    pub pending: Seq<TokenPriceModel>,
    /// The writer is there and the queue is open.
    pub running: bool,
}

impl RepositoryView {
    /// An empty repository with its writer running.
    pub open spec fn fresh() -> RepositoryView {
        RepositoryView { rows: Seq::empty(), pending: Seq::empty(), running: true }
    }

    /// The repository after the writer stored the oldest queued record.
    pub open spec fn commit_next(self) -> RepositoryView {
        if self.running && self.pending.len() > 0 {
            RepositoryView {
                rows: self.rows.push(self.pending[0]),
                pending: self.pending.drop_first(),
                running: true,
            }
        } else {
            self
        }
    }

    /// The repository after `record` was saved. On a full queue the caller
    /// waits until the writer has stored the oldest record.
    pub open spec fn save(self, record: TokenPriceModel) -> RepositoryView {
        if !self.running {
            self
        } else if self.pending.len() >= QUEUE_CAPACITY {
            let freed = self.commit_next();
            RepositoryView { rows: freed.rows, pending: freed.pending.push(record), running: true }
        } else {
            RepositoryView { rows: self.rows, pending: self.pending.push(record), running: true }
        }
    }

    /// The repository after the writer stored all that was queued.
    pub open spec fn flush(self) -> RepositoryView {
        if self.running {
            RepositoryView { rows: self.rows + self.pending, pending: Seq::empty(), running: true }
        } else {
            self
        }
    }

    /// The repository after the shutdown signal: the writer has ended and
    /// what was queued is lost.
    pub open spec fn shutdown(self) -> RepositoryView {
        RepositoryView { rows: self.rows, pending: Seq::empty(), running: false }
    }

    /// What a query for `symbol` since `since` returns: the selected records
    /// in the order in which they were written.
    pub open spec fn query(self, symbol: Seq<char>, since: int) -> Seq<TokenPriceModel> {
        self.rows.filter(window_filter(symbol, since))
    }
}

impl RepositoryView {
    /// Every record that was saved and not lost, in the order in which it
    /// was saved: first what is stored, then what is queued.
    pub open spec fn history(self) -> Seq<TokenPriceModel> {
        self.rows + self.pending
    }

    /// The queue is within its capacity.
    pub open spec fn bounded(self) -> bool {
        self.pending.len() <= QUEUE_CAPACITY
    }
}

/// Saving puts the record behind all that was saved before it, and the
/// writer's turn changes no order: it moves the oldest queued record to the
/// end of what is stored.
pub proof fn lemma_order_is_kept(repository: RepositoryView, record: TokenPriceModel)
    ensures
        repository.running ==> repository.save(record).history() == repository.history().push(
            record,
        ),
        repository.commit_next().history() == repository.history(),
        repository.running ==> repository.flush().rows == repository.history(),
{
    let saved = repository.save(record);
    let turned = repository.commit_next();
    if repository.pending.len() > 0 {
        assert(turned.history() =~= repository.history());
    }
    if repository.running {
        assert(saved.history() =~= repository.history().push(record));
        assert(repository.flush().rows =~= repository.history());
    }
}

/// First in, first out: of two records saved one after the other, the first
/// is stored before the second, and both after all that was saved earlier.
pub proof fn lemma_first_in_first_out(
    repository: RepositoryView,
    first: TokenPriceModel,
    second: TokenPriceModel,
)
    requires
        repository.running,
    ensures
        ({
            let stored = repository.save(first).save(second).flush().rows;
            let earlier = repository.history().len() as int;
            &&& stored == repository.history().push(first).push(second)
            &&& stored[earlier] == first
            &&& stored[earlier + 1] == second
        }),
{
    let once = repository.save(first);
    lemma_order_is_kept(repository, first);
    lemma_order_is_kept(once, second);
    lemma_order_is_kept(once.save(second), second);
}

/// The queue never outgrows its capacity.
pub proof fn lemma_queue_stays_bounded(repository: RepositoryView, record: TokenPriceModel)
    requires
        repository.bounded(),
    ensures
        RepositoryView::fresh().bounded(),
        repository.save(record).bounded(),
        repository.commit_next().bounded(),
        repository.flush().bounded(),
        repository.shutdown().bounded(),
{
}

/// A query returns only records of the symbol asked for that are younger
/// than the bound, and it returns every such record that is stored.
pub proof fn lemma_query_selects_the_window(
    repository: RepositoryView,
    symbol: Seq<char>,
    since: int,
)
    ensures
        forall|i: int|
            0 <= i < repository.query(symbol, since).len() ==> {
                let found = #[trigger] repository.query(symbol, since)[i];
                &&& found.symbol@ == symbol
                &&& found.created_at.is_after(since)
                &&& repository.rows.contains(found)
            },
        forall|i: int|
            0 <= i < repository.rows.len() && (#[trigger] repository.rows[i]).symbol@ == symbol
                && repository.rows[i].created_at.is_after(since) ==> repository.query(
                symbol,
                since,
            ).contains(repository.rows[i]),
{
    let selects = window_filter(symbol, since);
    let found = repository.query(symbol, since);
    assert forall|i: int| 0 <= i < found.len() implies {
        let record = #[trigger] found[i];
        &&& record.symbol@ == symbol
        &&& record.created_at.is_after(since)
        &&& repository.rows.contains(record)
    } by {
        repository.rows.lemma_filter_pred(selects, i);
        assert(found.contains(found[i]));
        repository.rows.lemma_filter_contains_rev(selects, found[i]);
    }
    assert forall|i: int|
        0 <= i < repository.rows.len() && (#[trigger] repository.rows[i]).symbol@ == symbol
            && repository.rows[i].created_at.is_after(since) implies found.contains(
        repository.rows[i],
    ) by {
        repository.rows.lemma_filter_contains(selects, i);
    }
}

/// Reading changes nothing and depends on nothing but what is stored: two
/// queries with no write between them return the same records, and records
/// that are only queued do not show.
pub proof fn lemma_reads_repeat(
    repository: RepositoryView,
    other: RepositoryView,
    symbol: Seq<char>,
    since: int,
)
    requires
        other.rows == repository.rows,
    ensures
        other.query(symbol, since) == repository.query(symbol, since),
{
}

/// After the shutdown signal nothing more is written: what was queued is
/// lost, what was stored stays, and saving fails from then on.
pub proof fn lemma_shutdown_ends_writing(repository: RepositoryView, record: TokenPriceModel)
    ensures
        repository.shutdown().rows == repository.rows,
        repository.shutdown().save(record) == repository.shutdown(),
        repository.shutdown().commit_next() == repository.shutdown(),
        repository.shutdown().flush() == repository.shutdown(),
{
}

/// Once the writer has seen the shutdown signal it starts no write, and the
/// signal itself is always seen. A failed write stops nothing.
pub proof fn lemma_writer_stops_on_signal(state: WorkerState, event: WorkerEvent)
    ensures
        event is Cancelled ==> state.step(event).0.halting(),
        state.halting() ==> state.step(event).0.halting() && !(state.step(event).1 is Insert),
        state == (WorkerState { phase: WorkerPhase::Inserting, stopping: false }) ==> state.step(
            WorkerEvent::Inserted(false),
        ) == (WorkerState::initial(), WorkerAction::Wait),
{
}

/// At most one write is in flight, and what is written is what was
/// received: a write starts only on a record that finds the writer waiting,
/// and it is a write of that record.
pub proof fn lemma_one_write_in_flight(state: WorkerState, event: WorkerEvent)
    ensures
        state.phase is Inserting ==> !(state.step(event).1 is Insert),
        state.step(event).1 matches WorkerAction::Insert(written) ==> state.ready() && event
            == WorkerEvent::Received(written) && state.step(event).0.phase is Inserting,
{
}

/// The repository over a relation held in memory: writes go through the
/// bounded queue to the single writer, reads go to the relation directly.
#[derive(Debug)]
pub struct PriceRepositoryImpl {
    queue: VecDeque<TokenPriceModel>,
    rows: Vec<TokenPriceModel>,
    actor: PriceRepositoryActor,
}

impl View for PriceRepositoryImpl {
    type V = RepositoryView;

    closed spec fn view(&self) -> RepositoryView {
        RepositoryView {
            rows: self.rows@,
            pending: self.queue@,
            running: self.actor.state().ready(),
        }
    }
}

impl PriceRepositoryImpl {
    /// An empty repository; its writer is started with it.
    pub fn new() -> (repository: PriceRepositoryImpl)
        ensures
            repository@ == RepositoryView::fresh(),
    {
        PriceRepositoryImpl {
            queue: VecDeque::new(),
            rows: Vec::new(),
            actor: PriceRepositoryActor::new(),
        }
    }

    /// How many records wait for the writer.
    pub fn queued(&self) -> (count: usize)
        ensures
            count == self@.pending.len(),
    {
        self.queue.len()
    }

    /// How many records are stored.
    pub fn stored(&self) -> (count: usize)
        ensures
            count == self@.rows.len(),
    {
        self.rows.len()
    }

    /// The writer's turn: it takes the oldest queued record and stores it.
    /// Returns whether there was one to take.
    pub fn commit_next(&mut self) -> (committed: bool)
        ensures
            final(self)@ == old(self)@.commit_next(),
            committed == (old(self)@.running && old(self)@.pending.len() > 0),
    {
        if !self.actor.is_ready() {
            return false;
        }
        match self.queue.pop_front() {
            None => false,
            Some(record) => {
                match self.actor.step(WorkerEvent::Received(record)) {
                    WorkerAction::Insert(accepted) => {
                        self.rows.push(accepted);
                    },
                    _ => unreached(),
                }
                let _ = self.actor.step(WorkerEvent::Inserted(true));
                true
            },
        }
    }

    /// Queues `price` for the writer and returns once it is queued, not once
    /// it is stored. On a full queue the call waits for the writer to make
    /// room. It fails only when the queue is closed for good.
    pub fn save_price(&mut self, price: TokenPriceModel) -> (result: Result<(), QueueClosed>)
        ensures
            final(self)@ == old(self)@.save(price),
            result is Ok <==> old(self)@.running,
    {
        if !self.actor.is_ready() {
            return Err(QueueClosed);
        }
        if self.queue.len() >= QUEUE_CAPACITY {
            let _ = self.commit_next();
        }
        self.queue.push_back(price);
        Ok(())
    }

    /// The writer drains the queue, oldest record first. Returns how many
    /// records it stored.
    pub fn flush(&mut self) -> (written: usize)
        ensures
            final(self)@ == old(self)@.flush(),
            written == if old(self)@.running {
                old(self)@.pending.len()
            } else {
                0
            },
    {
        let queued = self.queue.len();
        let mut written: usize = 0;
        while self.commit_next()
            invariant
                queued == old(self)@.pending.len(),
                self@.running == old(self)@.running,
                self@.running ==> written + self@.pending.len() == old(self)@.pending.len(),
                self@.running ==> self@.rows + self@.pending == old(self)@.rows + old(
                    self,
                )@.pending,
                !self@.running ==> self@ == old(self)@ && written == 0,
            decreases self@.pending.len(),
        {
            written = written + 1;
        }
        written
    }

    /// The shutdown signal: the writer ends and the queue is closed. Returns
    /// how many queued records are lost by it.
    pub fn shutdown(&mut self) -> (lost: usize)
        ensures
            final(self)@ == old(self)@.shutdown(),
            lost == old(self)@.pending.len(),
    {
        let lost = self.queue.len();
        let _ = self.actor.step(WorkerEvent::Cancelled);
        self.queue.clear();
        lost
    }

    /// The stored records of `str_symbol` that were created after the start
    /// of second `timestamp_from`, in the order in which they were written.
    /// The queue is not consulted.
    pub fn get_prices(&self, str_symbol: &str, timestamp_from: i64) -> (found: Vec<TokenPriceModel>)
        ensures
            found@ == self@.query(str_symbol@, timestamp_from as int),
    {
        let wanted = String::from_str(str_symbol);
        let ghost selects = window_filter(str_symbol@, timestamp_from as int);
        let mut found: Vec<TokenPriceModel> = Vec::new();
        let mut i: usize = 0;
        proof {
            assert(self.rows@.take(0).filter(selects) == Seq::<TokenPriceModel>::empty()) by {
                reveal(Seq::filter);
            }
        }
        while i < self.rows.len()
            invariant
                i <= self.rows@.len(),
                wanted@ == str_symbol@,
                selects == window_filter(str_symbol@, timestamp_from as int),
                found@ == self.rows@.take(i as int).filter(selects),
            decreases self.rows@.len() - i,
        {
            proof {
                let seen = self.rows@.take(i as int);
                assert(self.rows@.take(i as int + 1) == seen.push(self.rows@[i as int]));
                seen.lemma_filter_push(self.rows@[i as int], selects);
            }
            if self.rows[i].symbol == wanted && self.rows[i].created_at.after(timestamp_from) {
                found.push(self.rows[i].clone());
            }
            i = i + 1;
        }
        proof {
            assert(self.rows@.take(self.rows@.len() as int) == self.rows@);
        }
        found
    }
}

} // verus!
