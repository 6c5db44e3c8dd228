//! The web side: the read endpoint over the trailing window, the streaming
//! connection and the address that the listener binds.
//!
//! Sockets and HTTP stay with the caller. Here is what is computed for them
//! and, for a streaming connection, what is decided.

use crate::app::sample_of;
use crate::data::{TokenPrice, TokenPriceView};
use crate::decimal::decimal_to_string;
use crate::hub::Delivery;
use crate::persistence::{
    lemma_query_selects_the_window, PriceRepositoryImpl, RepositoryView, TokenPriceModel,
};
use crate::scraper::Token;
use vstd::prelude::*;
use vstd::string::StringExecFns;

verus! {

/// The length of the window that the read endpoint looks back over: 15
/// minutes, in seconds.
pub const WINDOW_SECS: i64 = 900;

/// The read path failed.
#[derive(Clone, Copy, Debug, PartialEq, Eq, Structural)]
pub struct QueryFailed;

/// The second at which the window of a request arriving at second `now`
/// begins. Before the earliest second that an `i64` can hold the window
/// begins there, which selects the same records: none is that old.
pub open spec fn window_start_of(now: i64) -> i64 {
    if now - WINDOW_SECS < i64::MIN {
        i64::MIN
    } else {
        (now - WINDOW_SECS) as i64
    }
}

/// Computes where the window of a request that arrives at second `now` of
/// the Unix era begins.
pub fn window_start(now: i64) -> (since: i64)
    ensures
        since == window_start_of(now),
{
    if now < i64::MIN + WINDOW_SECS {
        i64::MIN
    } else {
        now - WINDOW_SECS
    }
}

/// The samples that `models` are answered with, one for each and in the same
/// order.
pub open spec fn samples_of(models: Seq<TokenPriceModel>) -> Seq<TokenPriceView> {
    models.map_values(|model: TokenPriceModel| sample_of(model.created_at, model.price))
}

/// The views of `samples`.
pub open spec fn views_of(samples: Seq<TokenPrice>) -> Seq<TokenPriceView> {
    samples.map_values(|sample: TokenPrice| sample@)
}

/// The transport form of a stored record: the one supported token, the
/// second in which the record was created and the price in decimal notation.
pub fn to_token_price(model: &TokenPriceModel) -> (sample: TokenPrice)
    ensures
        sample@ == sample_of(model.created_at, model.price),
{
    TokenPrice {
        symbol: Token::Bitcoin,
        timestamp: model.created_at.secs,
        price: decimal_to_string(&model.price),
    }
}

/// The body of the read endpoint's answer for what the read path returned:
/// the records in transport form, or nothing at all if the query failed.
pub fn prices_response(queried: Result<Vec<TokenPriceModel>, QueryFailed>) -> (samples: Vec<
    TokenPrice,
>)
    ensures
        views_of(samples@) == match queried {
            Ok(models) => samples_of(models@),
            Err(_) => Seq::empty(),
        },
{
    match queried {
        Ok(models) => {
            let mut samples: Vec<TokenPrice> = Vec::new();
            let mut i: usize = 0;
            while i < models.len()
                invariant
                    i <= models@.len(),
                    samples@.len() == i,
                    forall|j: int|
                        0 <= j < i ==> (#[trigger] samples@[j])@ == sample_of(
                            models@[j].created_at,
                            models@[j].price,
                        ),
                decreases models@.len() - i,
            {
                samples.push(to_token_price(&models[i]));
                i = i + 1;
            }
            assert(views_of(samples@) =~= samples_of(models@));
            samples
        },
        Err(_) => {
            let samples: Vec<TokenPrice> = Vec::new();
            assert(views_of(samples@) =~= Seq::empty());
            samples
        },
    }
}

/// The read endpoint, for a request that arrives at second `now` of the Unix
/// era: the stored records of the one supported token that are younger than
/// the window, in transport form and in storage order.
pub fn get_prices_handler(repository: &PriceRepositoryImpl, now: i64) -> (samples: Vec<TokenPrice>)
    ensures
        views_of(samples@) == samples_of(
            repository@.query(Token::Bitcoin.symbol(), window_start_of(now) as int),
        ),
{
    let since = window_start(now);
    let symbol = Token::Bitcoin.to_string();
    let models = repository.get_prices(symbol.as_str(), since);
    prices_response(Ok(models))
}

/// The read endpoint answers with nothing but stored records of the one
/// supported token that were created less than `WINDOW_SECS` before the
/// request, and with every one of those.
pub proof fn lemma_answer_is_the_window(repository: RepositoryView, now: i64)
    ensures
        ({
            let found = repository.query(Token::Bitcoin.symbol(), window_start_of(now) as int);
            &&& forall|i: int|
                0 <= i < found.len() ==> {
                    let record = #[trigger] found[i];
                    &&& record.symbol@ == Token::Bitcoin.symbol()
                    &&& record.created_at.is_after(now - WINDOW_SECS)
                    &&& repository.rows.contains(record)
                }
            &&& forall|i: int|
                0 <= i < repository.rows.len() && (#[trigger] repository.rows[i]).symbol@
                    == Token::Bitcoin.symbol() && repository.rows[i].created_at.is_after(
                    now - WINDOW_SECS,
                ) ==> found.contains(repository.rows[i])
            &&& samples_of(found).len() == found.len()
        }),
{
    lemma_query_selects_the_window(
        repository,
        Token::Bitcoin.symbol(),
        window_start_of(now) as int,
    );
}

/// The character of the decimal digit `digit`.
pub open spec fn digit_char(digit: nat) -> char {
    if digit == 0 {
        '0'
    } else if digit == 1 {
        '1'
    } else if digit == 2 {
        '2'
    } else if digit == 3 {
        '3'
    } else if digit == 4 {
        '4'
    } else if digit == 5 {
        '5'
    } else if digit == 6 {
        '6'
    } else if digit == 7 {
        '7'
    } else if digit == 8 {
        '8'
    } else {
        '9'
    }
}

/// The decimal numeral of `n`, without leading zeros.
pub open spec fn decimal_numeral(n: nat) -> Seq<char>
    decreases n,
{
    if n < 10 {
        seq![digit_char(n)]
    } else {
        decimal_numeral(n / 10).push(digit_char(n % 10))
    }
}

/// The address that the listener binds: the host, a colon and the port in
/// decimal notation.
pub open spec fn listen_address_of(host: Seq<char>, port: u32) -> Seq<char> {
    host + seq![':'] + decimal_numeral(port as nat)
}

fn digit_str(digit: u32) -> (text: &'static str)
    requires
        digit < 10,
    ensures
        text@ == seq![digit_char(digit as nat)],
{
    proof {
        reveal_strlit("0");
        reveal_strlit("1");
        reveal_strlit("2");
        reveal_strlit("3");
        reveal_strlit("4");
        reveal_strlit("5");
        reveal_strlit("6");
        reveal_strlit("7");
        reveal_strlit("8");
        reveal_strlit("9");
    }
    let text = if digit == 0 {
        "0"
    } else if digit == 1 {
        "1"
    } else if digit == 2 {
        "2"
    } else if digit == 3 {
        "3"
    } else if digit == 4 {
        "4"
    } else if digit == 5 {
        "5"
    } else if digit == 6 {
        "6"
    } else if digit == 7 {
        "7"
    } else if digit == 8 {
        "8"
    } else {
        "9"
    };
    assert(text@ =~= seq![digit_char(digit as nat)]);
    text
}

fn append_numeral(text: &mut String, n: u32)
    ensures
        final(text)@ == old(text)@ + decimal_numeral(n as nat),
    decreases n,
{
    if n >= 10 {
        append_numeral(text, n / 10);
    }
    text.append(digit_str(n % 10));
    assert(text@ =~= old(text)@ + decimal_numeral(n as nat));
}

/// Builds the address that the listener binds from the configured host and
/// port.
pub fn listen_address(host: &str, port: u32) -> (address: String)
    ensures
        address@ == listen_address_of(host@, port),
{
    proof {
        reveal_strlit(":");
    }
    let mut address = String::from_str(host);
    address.append(":");
    assert(address@ =~= host@ + seq![':']);
    append_numeral(&mut address, port);
    address
}

/// Where a streaming connection stands.
#[derive(Clone, Copy, Debug, PartialEq, Eq, Structural)]
pub enum StreamPhase {
    /// The connection was accepted; nothing was sent yet.
    Connected,
    /// The liveness probe was handed to the socket, which has not answered.
    Probing,
    /// Subscribed to the hub and waiting for it, or for the shutdown signal.
    Listening,
    /// A frame was handed to the socket, which has not answered.
    Sending,
    /// The close was handed to the socket, which has not answered.
    Closing,
    /// The connection has ended. Nothing leaves this phase.
    Closed,
}

/// The whole state of a streaming connection.
#[derive(Clone, Copy, Debug, PartialEq, Eq, Structural)]
pub struct StreamState {
    pub phase: StreamPhase,
    /// The shutdown signal arrived while the socket was busy: the socket is
    /// closed as soon as it answers.
    pub stopping: bool,
}

/// What the runtime reports to a streaming connection.
#[derive(Debug)]
pub enum StreamEvent {
    /// The connection was upgraded.
    Upgraded,
    /// The socket answered the probe: `true` if it went out.
    ProbeSent(bool),
    /// The hub answered.
    Received(Delivery),
    /// The socket answered a frame: `true` if it went out.
    FrameSent(bool),
    /// The socket answered the close: `true` if it went through.
    SocketClosed(bool),
    /// The shutdown signal fired.
    Cancelled,
}

/// What a streaming connection asks the runtime to do next.
#[derive(Debug)]
pub enum StreamAction {
    /// Send one liveness probe with the payload of `probe_payload`.
    SendProbe,
    /// Subscribe to the hub, then wait for it or for the shutdown signal.
    Subscribe,
    /// Wait for the hub or for the shutdown signal.
    Receive,
    /// Serialise the sample and send it as one text frame.
    SendText(TokenPrice),
    /// Close the socket.
    CloseSocket,
    /// Wait for the outstanding answer.
    Wait,
    /// End the connection's task.
    Finish,
}

impl StreamState {
    /// The state of a connection that was just accepted.
    pub open spec fn initial() -> StreamState {
        StreamState { phase: StreamPhase::Connected, stopping: false }
    }

    /// The terminal state.
    pub open spec fn closed() -> StreamState {
        StreamState { phase: StreamPhase::Closed, stopping: true }
    }

    /// The state in which the socket is being closed.
    pub open spec fn closing() -> StreamState {
        StreamState { phase: StreamPhase::Closing, stopping: true }
    }

    /// The shutdown signal has been seen, or the connection is over.
    pub open spec fn halting(self) -> bool {
        self.stopping || self.phase is Closing || self.phase is Closed
    }

    /// How many answers of the socket a connection that has seen the
    /// shutdown signal waits for, at most, until it is closed.
    pub open spec fn answers_left(self) -> nat {
        match self.phase {
            StreamPhase::Closed => 0,
            StreamPhase::Closing => 1,
            _ => 2,
        }
    }

    /// The transition function of a streaming connection: the state after
    /// `event` and the action that answers it.
    pub open spec fn step(self, event: StreamEvent) -> (StreamState, StreamAction) {
        match (self.phase, event) {
            (StreamPhase::Closed, _) => (StreamState::closed(), StreamAction::Finish),
            (StreamPhase::Closing, StreamEvent::SocketClosed(_)) => (
                StreamState::closed(),
                StreamAction::Finish,
            ),
            (StreamPhase::Closing, _) => (StreamState::closing(), StreamAction::Wait),
            (StreamPhase::Connected, StreamEvent::Cancelled) => (
                StreamState::closing(),
                StreamAction::CloseSocket,
            ),
            (StreamPhase::Listening, StreamEvent::Cancelled) => (
                StreamState::closing(),
                StreamAction::CloseSocket,
            ),
            (_, StreamEvent::Cancelled) => (
                StreamState { phase: self.phase, stopping: true },
                StreamAction::Wait,
            ),
            (StreamPhase::Connected, StreamEvent::Upgraded) => if self.stopping {
                (StreamState::closing(), StreamAction::CloseSocket)
            } else {
                (StreamState { phase: StreamPhase::Probing, stopping: false }, StreamAction::SendProbe)
            },
            (StreamPhase::Probing, StreamEvent::ProbeSent(_)) => if self.stopping {
                (StreamState::closing(), StreamAction::CloseSocket)
            } else {
                (
                    StreamState { phase: StreamPhase::Listening, stopping: false },
                    StreamAction::Subscribe,
                )
            },
            (StreamPhase::Listening, StreamEvent::Received(delivery)) => if self.stopping {
                (StreamState::closing(), StreamAction::CloseSocket)
            } else {
                match delivery {
                    Delivery::Sample(sample) => (
                        StreamState { phase: StreamPhase::Sending, stopping: false },
                        StreamAction::SendText(sample),
                    ),
                    Delivery::Closed => (StreamState::closed(), StreamAction::Finish),
                    _ => (self, StreamAction::Receive),
                }
            },
            (StreamPhase::Sending, StreamEvent::FrameSent(sent)) => if !sent {
                (StreamState::closed(), StreamAction::Finish)
            } else if self.stopping {
                (StreamState::closing(), StreamAction::CloseSocket)
            } else {
                (
                    StreamState { phase: StreamPhase::Listening, stopping: false },
                    StreamAction::Receive,
                )
            },
            _ => (self, StreamAction::Wait),
        }
    }
}

/// A connection that has seen the shutdown signal sends nothing more, and
/// the signal itself is always seen.
pub proof fn lemma_stream_halts_on_signal(state: StreamState, event: StreamEvent)
    ensures
        event is Cancelled ==> state.step(event).0.halting(),
        state.halting() ==> {
            let (after, action) = state.step(event);
            &&& after.halting()
            &&& after.answers_left() <= state.answers_left()
            &&& action is CloseSocket || action is Wait || action is Finish
        },
{
}

/// A connection closes within bounded time of the shutdown signal: the
/// socket's answer to what is outstanding brings the close, and its answer
/// to the close ends the connection. An idle connection is closed at once.
pub proof fn lemma_stream_closes_after_signal(state: StreamState, answered: bool)
    requires
        state.halting(),
    ensures
        state.phase is Connected ==> state.step(StreamEvent::Upgraded).0.phase is Closing,
        state.phase is Probing ==> state.step(StreamEvent::ProbeSent(answered)).0.phase
            is Closing,
        state.phase is Sending ==> state.step(StreamEvent::FrameSent(answered)).0.answers_left()
            <= 1,
        state.phase is Closing ==> state.step(StreamEvent::SocketClosed(answered)).0.phase
            is Closed,
        StreamState::initial().step(StreamEvent::Cancelled).0.phase is Closing,
        (StreamState { phase: StreamPhase::Listening, stopping: false }).step(
            StreamEvent::Cancelled,
        ) == (StreamState::closing(), StreamAction::CloseSocket),
{
}

/// A listening connection forwards every sample that the hub hands it, as it
/// is, and goes back to listening once the frame is out; it ends when the
/// frame fails or the hub is closed, and only notes a gap.
pub proof fn lemma_stream_forwards_in_order(sample: TokenPrice)
    ensures
        ({
            let listening = StreamState { phase: StreamPhase::Listening, stopping: false };
            let sending = StreamState { phase: StreamPhase::Sending, stopping: false };
            &&& listening.step(StreamEvent::Received(Delivery::Sample(sample))) == (
                sending,
                StreamAction::SendText(sample),
            )
            &&& sending.step(StreamEvent::FrameSent(true)) == (listening, StreamAction::Receive)
            &&& sending.step(StreamEvent::FrameSent(false)) == (
                StreamState::closed(),
                StreamAction::Finish,
            )
            &&& listening.step(StreamEvent::Received(Delivery::Closed)) == (
                StreamState::closed(),
                StreamAction::Finish,
            )
            &&& listening.step(StreamEvent::Received(Delivery::Lagged)) == (
                listening,
                StreamAction::Receive,
            )
        }),
{
}

/// The payload of the liveness probe that opens every streaming connection.
pub fn probe_payload() -> (payload: Vec<u8>)
    ensures
        payload@ == seq![1u8, 2u8, 3u8],
{
    let mut payload: Vec<u8> = Vec::new();
    payload.push(1);
    payload.push(2);
    payload.push(3);
    assert(payload@ =~= seq![1u8, 2u8, 3u8]);
    payload
}

/// One streaming connection: a probe first, then every sample that the hub
/// hands out, in the hub's order, until the socket fails, the hub closes or
/// the shutdown signal fires.
///
/// The session decides; it performs nothing. Whoever runs it delivers events
/// (`StreamEvent`) and carries out the action (`StreamAction`) that each is
/// answered with.
#[derive(Debug)]
pub struct StreamSession {
    state: StreamState,
}

impl StreamSession {
    pub closed spec fn state(&self) -> StreamState {
        self.state
    }

    /// The session of a connection that was just accepted.
    pub fn new() -> (session: StreamSession)
        ensures
            session.state() == StreamState::initial(),
    {
        StreamSession { state: StreamState { phase: StreamPhase::Connected, stopping: false } }
    }

    /// Whether the connection has ended.
    pub fn is_closed(&self) -> (closed: bool)
        ensures
            closed == (self.state().phase is Closed),
    {
        self.state.phase == StreamPhase::Closed
    }

    /// Takes one event and answers with the action to carry out.
    pub fn step(&mut self, event: StreamEvent) -> (action: StreamAction)
        ensures
            (final(self).state(), action) == old(self).state().step(event),
    {
        let stopping = self.state.stopping;
        let closing = StreamState { phase: StreamPhase::Closing, stopping: true };
        let closed = StreamState { phase: StreamPhase::Closed, stopping: true };
        match (self.state.phase, event) {
            (StreamPhase::Closed, _) => {
                self.state = closed;
                StreamAction::Finish
            },
            (StreamPhase::Closing, StreamEvent::SocketClosed(_)) => {
                self.state = closed;
                StreamAction::Finish
            },
            (StreamPhase::Closing, _) => {
                self.state = closing;
                StreamAction::Wait
            },
            (StreamPhase::Connected, StreamEvent::Cancelled) => {
                self.state = closing;
                StreamAction::CloseSocket
            },
            (StreamPhase::Listening, StreamEvent::Cancelled) => {
                self.state = closing;
                StreamAction::CloseSocket
            },
            (_, StreamEvent::Cancelled) => {
                self.state.stopping = true;
                StreamAction::Wait
            },
            (StreamPhase::Connected, StreamEvent::Upgraded) => {
                if stopping {
                    self.state = closing;
                    StreamAction::CloseSocket
                } else {
                    self.state.phase = StreamPhase::Probing;
                    StreamAction::SendProbe
                }
            },
            (StreamPhase::Probing, StreamEvent::ProbeSent(_)) => {
                if stopping {
                    self.state = closing;
                    StreamAction::CloseSocket
                } else {
                    self.state.phase = StreamPhase::Listening;
                    StreamAction::Subscribe
                }
            },
            (StreamPhase::Listening, StreamEvent::Received(delivery)) => {
                if stopping {
                    self.state = closing;
                    StreamAction::CloseSocket
                } else {
                    match delivery {
                        Delivery::Sample(sample) => {
                            self.state.phase = StreamPhase::Sending;
                            StreamAction::SendText(sample)
                        },
                        Delivery::Closed => {
                            self.state = closed;
                            StreamAction::Finish
                        },
                        _ => StreamAction::Receive,
                    }
                }
            },
            (StreamPhase::Sending, StreamEvent::FrameSent(sent)) => {
                if !sent {
                    self.state = closed;
                    StreamAction::Finish
                } else if stopping {
                    self.state = closing;
                    StreamAction::CloseSocket
                } else {
                    self.state.phase = StreamPhase::Listening;
                    StreamAction::Receive
                }
            },
            _ => StreamAction::Wait,
        }
    }
}

} // verus!
