//! Next-market stream monitor: resolves the next interval's market into its
//! token identifiers, subscribes one market channel per identifier on a
//! streaming connection, consumes events until the stream closes or fails,
//! and after any termination waits a fixed backoff before restarting the
//! whole cycle with a freshly recomputed slug. The decisions form a state
//! machine from state and event to next state and action; the connection
//! itself lives with the caller that performs the actions.

use vstd::prelude::*;
use serde_json::Value;
use crate::interval::INTERVAL_SECONDS;
use crate::interval::interval_start;
use crate::slug::slug_of;
use crate::slug::next_market_slug;
use crate::report::{opt_lines, push_labeled};

verus! {

/// Fixed backoff between two cycles of the stream monitor, in seconds.
pub const STREAM_BACKOFF_SECONDS: u64 = 10;

/// A market update event received on the stream: the recognized fields of
/// one text message, each absent when the message lacks it. The numeric
/// fields hold the JSON value rendered as text, since they are only ever
/// reported verbatim.
#[derive(Clone, Debug)]
pub struct MarketUpdate {
    pub msg_type: Option<String>,
    pub market: Option<String>,
    pub asset_id: Option<String>,
    pub price: Option<String>,
    pub last: Option<String>,
    pub bid: Option<String>,
    pub ask: Option<String>,
}

/// The mathematical value of a market update: each field as an optional
/// character sequence.
pub struct MarketUpdateV {
    pub msg_type: Option<Seq<char>>,
    pub market: Option<Seq<char>>,
    pub asset_id: Option<Seq<char>>,
    pub price: Option<Seq<char>>,
    pub last: Option<Seq<char>>,
    pub bid: Option<Seq<char>>,
    pub ask: Option<Seq<char>>,
}

impl View for MarketUpdate {
    type V = MarketUpdateV;

    open spec fn view(&self) -> MarketUpdateV {
        MarketUpdateV {
            msg_type: self.msg_type.deep_view(),
            market: self.market.deep_view(),
            asset_id: self.asset_id.deep_view(),
            price: self.price.deep_view(),
            last: self.last.deep_view(),
            bid: self.bid.deep_view(),
            ask: self.ask.deep_view(),
        }
    }
}

/// What a streamed text frame parses into: `None` when the text is not JSON,
/// otherwise the recognized fields as the extraction reads them. A function
/// of the text alone.
pub uninterp spec fn update_of(text: Seq<char>) -> Option<MarketUpdateV>;

/// Relies on serde_json::from_str to parse one streamed text frame as a JSON
/// value, on serde_json::Value::get and Value::as_str to read the recognized
/// event fields, and on Value's Display impl (through ToString) for the ones
/// reported verbatim. Whether the text parses, and into which fields, is a
/// function of the text alone; each field is moved into the update
/// unchanged, absent fields become None.
#[verifier::external_body]
fn parse_update_text(text: &str) -> (r: Option<MarketUpdate>)
    ensures
        r is Some <==> update_of(text@) is Some,
        r matches Some(u) ==> Some(u@) == update_of(text@),
{
    let v: Value = serde_json::from_str(text).ok()?;
    Some(MarketUpdate {
        msg_type: v.get("type").and_then(Value::as_str).map(str::to_string),
        market: v.get("market").map(|x| x.to_string()),
        asset_id: v.get("asset_id").and_then(Value::as_str).map(str::to_string),
        price: v.get("price").map(|x| x.to_string()),
        last: v.get("last").map(|x| x.to_string()),
        bid: v.get("bid").map(|x| x.to_string()),
        ask: v.get("ask").map(|x| x.to_string()),
    })
}

/// Parses one streamed text frame into a market update; `None` exactly when
/// the text is not JSON, and the update's fields are exactly what the
/// extraction reads from the text.
pub fn parse_market_update(text: &str) -> (r: Option<MarketUpdate>)
    ensures
        r is Some <==> update_of(text@) is Some,
        r matches Some(u) ==> Some(u@) == update_of(text@),
{
    parse_update_text(text)
}

/// The report lines of a market update: one labeled line per present field,
/// in the fixed order type, market, token identifier, price, last trade
/// price, bid, ask.
pub open spec fn update_report(u: MarketUpdateV) -> Seq<Seq<char>> {
    opt_lines("Type: "@, u.msg_type) + opt_lines("Market: "@, u.market) + opt_lines(
        "Token ID: "@,
        u.asset_id,
    ) + opt_lines("Price: "@, u.price) + opt_lines("Last Price: "@, u.last) + opt_lines(
        "Bid: "@,
        u.bid,
    ) + opt_lines("Ask: "@, u.ask)
}

/// The structured report of one market update: every present recognized
/// field is represented, absent fields are skipped.
pub fn market_update_report(u: &MarketUpdate) -> (r: Vec<String>)
    ensures
        r.deep_view() == update_report(u@),
{
    let mut lines: Vec<String> = Vec::new();
    push_labeled(&mut lines, "Type: ", &u.msg_type);
    push_labeled(&mut lines, "Market: ", &u.market);
    push_labeled(&mut lines, "Token ID: ", &u.asset_id);
    push_labeled(&mut lines, "Price: ", &u.price);
    push_labeled(&mut lines, "Last Price: ", &u.last);
    push_labeled(&mut lines, "Bid: ", &u.bid);
    push_labeled(&mut lines, "Ask: ", &u.ask);
    proof {
        assert(lines.deep_view() =~= update_report(u@));
    }
    lines
}

/// The subscription request naming one token identifier as the target, on
/// the shared market channel.
pub open spec fn subscribe_message_of(token: Seq<char>) -> Seq<char> {
    "{\"type\":\"subscribe\",\"channel\":\"market\",\"market\":\""@ + token + "\"}"@
}

/// Builds the subscription request for one token identifier.
pub fn subscribe_message(token: &str) -> (r: String)
    ensures
        r@ == subscribe_message_of(token@),
{
    let mut s = String::from_str("{\"type\":\"subscribe\",\"channel\":\"market\",\"market\":\"");
    s.append(token);
    s.append("\"}");
    s
}

/// Builds one subscription request per token identifier, in order: all
/// requests are prepared before any frame is awaited.
pub fn subscribe_messages(tokens: &Vec<String>) -> (r: Vec<String>)
    ensures
        r.deep_view() == tokens.deep_view().map_values(
            |t: Seq<char>| subscribe_message_of(t),
        ),
{
    let ghost goal = tokens.deep_view().map_values(|t: Seq<char>| subscribe_message_of(t));
    let mut v: Vec<String> = Vec::new();
    let mut j: usize = 0;
    while j < tokens.len()
        invariant
            j <= tokens.len(),
            goal == tokens.deep_view().map_values(|t: Seq<char>| subscribe_message_of(t)),
            v.deep_view() == goal.take(j as int),
        decreases tokens.len() - j,
    {
        let ghost prev = v.deep_view();
        let m = subscribe_message(tokens[j].as_str());
        proof {
            assert(m.deep_view() == goal[j as int]);
        }
        v.push(m);
        j += 1;
        proof {
            assert(v.deep_view() =~= prev.push(goal[j - 1]));
            assert(prev.push(goal[j - 1]) =~= goal.take(j as int));
        }
    }
    proof {
        assert(goal.take(tokens.len() as int) =~= goal);
    }
    v
}

/// The states of the stream monitor's cycle. There is no terminal state: a
/// disconnect leads through the backoff to a fresh resolution, indefinitely.
#[derive(Clone, Copy, PartialEq, Eq, Structural, Debug)]
pub enum StreamState {
    Resolving,
    Subscribing,
    Streaming,
    Backoff,
}

/// What the outside world hands the monitor: the outcome of a catalog
/// resolution, of a connect-and-subscribe attempt, one received frame, or
/// the end of the backoff wait.
#[derive(Debug)]
pub enum StreamEvent {
    Resolved(Vec<String>),
    ResolveFailed,
    Subscribed,
    SubscribeFailed,
    TextFrame(String),
    CloseFrame,
    StreamFailed,
    BackoffElapsed,
}

/// What the monitor asks the outside world to do next.
#[derive(Debug)]
pub enum StreamAction {
    /// Query the catalog for this slug and extract its token identifiers.
    Resolve(String),
    /// Open a fresh streaming connection and send these frames, in order.
    Subscribe(Vec<String>),
    /// Await the next frame on the open connection.
    AwaitFrame,
    /// Emit these report lines, then await the next frame.
    Report(Vec<String>),
    /// Wait this many seconds, then report the backoff as elapsed.
    Wait(u64),
}

/// Which events belong to which state: resolution outcomes while resolving,
/// subscription outcomes while subscribing, frames while streaming, and the
/// elapsed wait while backing off.
pub open spec fn state_accepts(state: StreamState, event: StreamEvent) -> bool {
    match state {
        StreamState::Resolving => event matches StreamEvent::Resolved(_) || event matches
            StreamEvent::ResolveFailed,
        StreamState::Subscribing => event matches StreamEvent::Subscribed || event matches
            StreamEvent::SubscribeFailed,
        StreamState::Streaming => event matches StreamEvent::TextFrame(_) || event matches
            StreamEvent::CloseFrame || event matches StreamEvent::StreamFailed,
        StreamState::Backoff => event matches StreamEvent::BackoffElapsed,
    }
}

/// The action that starts a cycle: resolve the next interval's market,
/// computed from the clock at the moment the cycle starts.
pub fn stream_start(now: u64) -> (r: StreamAction)
    requires
        now <= u64::MAX - INTERVAL_SECONDS,
    ensures
        (r matches StreamAction::Resolve(slug) && slug@ == slug_of(
            (interval_start(now) + INTERVAL_SECONDS) as u64,
        )),
{
    StreamAction::Resolve(next_market_slug(now))
}

/// One step of the stream monitor: from the current state and the event the
/// outside world observed, the next state and the next action.
///
/// Zero resolved token identifiers are a soft failure: no connection is
/// opened, the cycle ends in the backoff. Any stream termination — a close
/// frame as much as a transport error — leads to the same fixed backoff, and
/// the cycle that follows resolves a fresh slug from the clock at that
/// moment, never reusing the previous cycle's identifiers. An event that
/// does not belong to the state leaves the state unchanged and imposes the
/// same backoff.
pub fn stream_step(state: StreamState, event: StreamEvent, now: u64) -> (r: (
    StreamState,
    StreamAction,
))
    requires
        now <= u64::MAX - INTERVAL_SECONDS,
    ensures
        event matches StreamEvent::Resolved(t) ==> ((state is Resolving && t.deep_view().len()
            == 0) ==> (r.0 is Backoff && (r.1 matches StreamAction::Wait(s) && s
            == STREAM_BACKOFF_SECONDS))),
        event matches StreamEvent::Resolved(t) ==> ((state is Resolving && t.deep_view().len()
            > 0) ==> (r.0 is Subscribing && (r.1 matches StreamAction::Subscribe(msgs)
            && msgs.deep_view() == t.deep_view().map_values(
            |x: Seq<char>| subscribe_message_of(x),
        )))),
        (state is Resolving && event is ResolveFailed) ==> (r.0 is Backoff
            && (r.1 matches StreamAction::Wait(s) && s == STREAM_BACKOFF_SECONDS)),
        (state is Subscribing && event is Subscribed) ==> (r.0 is Streaming
            && r.1 is AwaitFrame),
        (state is Subscribing && event is SubscribeFailed) ==> (r.0 is Backoff
            && (r.1 matches StreamAction::Wait(s) && s == STREAM_BACKOFF_SECONDS)),
        event matches StreamEvent::TextFrame(t) ==> (state is Streaming ==> (r.0 is Streaming
            && (r.1 matches StreamAction::Report(lines) && (update_of(t@) matches Some(u)
            ==> lines.deep_view() == update_report(u)) && (update_of(t@) is None
            ==> lines.deep_view().len() == 0)))),
        (state is Streaming && event is CloseFrame) ==> (r.0 is Backoff
            && (r.1 matches StreamAction::Wait(s) && s == STREAM_BACKOFF_SECONDS)),
        (state is Streaming && event is StreamFailed) ==> (r.0 is Backoff
            && (r.1 matches StreamAction::Wait(s) && s == STREAM_BACKOFF_SECONDS)),
        (state is Backoff && event is BackoffElapsed) ==> (r.0 is Resolving
            && (r.1 matches StreamAction::Resolve(slug) && slug@ == slug_of(
            (interval_start(now) + INTERVAL_SECONDS) as u64,
        ))),
        !state_accepts(state, event) ==> (r.0 == state && (r.1 matches StreamAction::Wait(s)
            && s == STREAM_BACKOFF_SECONDS)),
{
    match (state, event) {
        (StreamState::Resolving, StreamEvent::Resolved(tokens)) => {
            if tokens.len() == 0 {
                (StreamState::Backoff, StreamAction::Wait(STREAM_BACKOFF_SECONDS))
            } else {
                let msgs = subscribe_messages(&tokens);
                (StreamState::Subscribing, StreamAction::Subscribe(msgs))
            }
        },
        (StreamState::Resolving, StreamEvent::ResolveFailed) => {
            (StreamState::Backoff, StreamAction::Wait(STREAM_BACKOFF_SECONDS))
        },
        (StreamState::Subscribing, StreamEvent::Subscribed) => {
            (StreamState::Streaming, StreamAction::AwaitFrame)
        },
        (StreamState::Subscribing, StreamEvent::SubscribeFailed) => {
            (StreamState::Backoff, StreamAction::Wait(STREAM_BACKOFF_SECONDS))
        },
        (StreamState::Streaming, StreamEvent::TextFrame(text)) => {
            let lines = match parse_market_update(text.as_str()) {
                Option::Some(u) => market_update_report(&u),
                Option::None => Vec::new(),
            };
            (StreamState::Streaming, StreamAction::Report(lines))
        },
        (StreamState::Streaming, StreamEvent::CloseFrame) => {
            (StreamState::Backoff, StreamAction::Wait(STREAM_BACKOFF_SECONDS))
        },
        (StreamState::Streaming, StreamEvent::StreamFailed) => {
            (StreamState::Backoff, StreamAction::Wait(STREAM_BACKOFF_SECONDS))
        },
        (StreamState::Backoff, StreamEvent::BackoffElapsed) => {
            (StreamState::Resolving, StreamAction::Resolve(next_market_slug(now)))
        },
        (s, _) => (s, StreamAction::Wait(STREAM_BACKOFF_SECONDS)),
    }
}

} // verus!
