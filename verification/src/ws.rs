use vstd::prelude::*;
use vstd::string::StringExecFns;

verus! {

/// How often, in seconds, a ping frame is sent to the client.
pub const HEARTBEAT_INTERVAL_SECS: u64 = 30;

/// How long, in seconds, to wait for a pong after a ping before closing the
/// connection; sending the ping itself is bounded by the same time.
pub const PONG_TIMEOUT_SECS: u64 = 10;

/// Default number of events returned on a resync request.
pub const RESYNC_DEFAULT_LIMIT: i64 = 20;

/// Maximum number of events a client may request in a single resync.
pub const RESYNC_MAX_LIMIT: i64 = 100;

/// The query string of a websocket upgrade request.
#[derive(Debug)]
pub struct WsQuery {
    pub token: Option<String>,
}

/// Accepts a websocket authentication token when it is not empty.
pub fn validate_token(token: &str) -> (valid: bool)
    ensures
        valid == (token@.len() > 0),
{
    !token.is_empty()
}

/// The token that authenticates an upgrade request, or `None` when the request
/// must be answered with `401 Unauthorized`: the token is absent or empty.
pub fn authenticate(params: WsQuery) -> (token: Option<String>)
    ensures
        token is Some <==> (params.token is Some && params.token->0@.len() > 0),
        token is Some ==> token == params.token,
{
    match params.token {
        Some(t) => {
            if validate_token(t.as_str()) {
                Some(t)
            } else {
                None
            }
        },
        None => None,
    }
}

/// The label under which a connection is logged: the client's address where
/// it is known, else `unknown`.
pub fn client_addr_label(addr: Option<String>) -> (label: String)
    ensures
        addr is Some ==> label == addr->0,
        addr is None ==> label@ == "unknown"@,
{
    match addr {
        Some(a) => a,
        None => String::from_str("unknown"),
    }
}

/// The number of events a resync answers with: the requested limit, or the
/// default when none was given, clamped to `1..=RESYNC_MAX_LIMIT`.
pub open spec fn spec_resync_limit(requested: Option<i64>) -> i64 {
    let limit = match requested {
        Some(l) => l,
        None => RESYNC_DEFAULT_LIMIT,
    };
    if limit < 1 {
        1
    } else if limit > RESYNC_MAX_LIMIT {
        RESYNC_MAX_LIMIT
    } else {
        limit
    }
}

pub fn resync_limit(requested: Option<i64>) -> (limit: i64)
    ensures
        limit == spec_resync_limit(requested),
        1 <= limit <= RESYNC_MAX_LIMIT,
{
    let limit = match requested {
        Some(l) => l,
        None => RESYNC_DEFAULT_LIMIT,
    };
    if limit < 1 {
        1
    } else if limit > RESYNC_MAX_LIMIT {
        RESYNC_MAX_LIMIT
    } else {
        limit
    }
}

/// Every resync answers with at least one and at most `RESYNC_MAX_LIMIT`
/// events; a limit already in that range is kept as it is, and a request
/// without a limit gets the default.
pub proof fn lemma_resync_limit_bounds(requested: Option<i64>)
    ensures
        1 <= spec_resync_limit(requested) <= RESYNC_MAX_LIMIT,
        requested matches Some(l) ==> (1 <= l <= RESYNC_MAX_LIMIT ==> spec_resync_limit(
            requested,
        ) == l),
        requested is None ==> spec_resync_limit(requested) == RESYNC_DEFAULT_LIMIT,
{
}

/// Clamping is idempotent: asking again with the limit that was granted is
/// granted the same limit.
pub proof fn lemma_resync_limit_idempotent(requested: Option<i64>)
    ensures
        spec_resync_limit(Some(spec_resync_limit(requested))) == spec_resync_limit(requested),
{
}

/// Messages the client may send to the server.
#[derive(Debug)]
pub enum ClientMessage {
    /// Ask for the latest `limit` events (defaults to `RESYNC_DEFAULT_LIMIT`).
    Resync { limit: Option<i64> },
}

/// What the server does with a text frame from the client.
pub enum ClientAction {
    /// The frame did not parse as a client message: it is ignored.
    Ignore,
    /// Query the latest `limit` transactions and send them as a resync.
    Resync { limit: i64 },
}

/// Decides what a client text frame asks for, given what it parsed to.
pub fn client_message_action(msg: Option<ClientMessage>) -> (action: ClientAction)
    ensures
        msg is None ==> action is Ignore,
        msg matches Some(ClientMessage::Resync { limit }) ==> action == (ClientAction::Resync {
            limit: spec_resync_limit(limit),
        }),
{
    match msg {
        None => ClientAction::Ignore,
        Some(ClientMessage::Resync { limit }) => ClientAction::Resync { limit: resync_limit(limit) },
    }
}

/// What the server answers a resync with, given the outcome of the store
/// query: the rows it found, or nothing at all when the query failed.
pub fn resync_reply<T, E>(outcome: Result<T, E>) -> (reply: Option<T>)
    ensures
        outcome matches Ok(rows) ==> reply == Some(rows),
        outcome is Err ==> reply is None,
{
    match outcome {
        Ok(rows) => Some(rows),
        Err(_) => None,
    }
}

/// A frame received from the client, or the end of the stream.
pub enum IncomingFrame {
    Text(String),
    Binary,
    Ping,
    Pong,
    Close,
}

/// What the receive side does with a frame.
pub enum ReceiveAction {
    /// Handle a client message.
    HandleText(String),
    /// Nothing to do; wait for the next frame.
    Continue,
    /// The client closed the connection or the stream ended.
    Stop,
}

/// What the send side does when the heartbeat timer fires.
pub enum HeartbeatAction {
    /// A pong arrived since the last ping: send the next ping.
    SendPing,
    /// No pong since the last ping: the connection is dead and is closed.
    Close,
}

/// What the send side does when the pong deadline of a ping passes.
pub enum DeadlineAction {
    /// The pong came in time: keep the connection.
    Keep,
    /// No pong within `PONG_TIMEOUT_SECS` of the ping: close the connection.
    Close,
}

/// An event on the broadcast channel that the send side reads.
pub enum BroadcastEvent {
    /// An update; `json` is its serialized form, `None` if it failed to serialize.
    Update { json: Option<String> },
    /// The client fell behind and `skipped` messages were dropped.
    Lagged { skipped: u64 },
    /// The broadcast channel was closed.
    Closed,
}

/// What the send side does with a broadcast event.
pub enum BroadcastAction {
    /// Send the serialized update as a text frame.
    SendUpdate(String),
    /// Nothing to send (the update did not serialize); keep going.
    Skip,
    /// Notify the client that `count` messages were dropped.
    NotifyDropped { count: u64 },
    /// Stop the send side.
    Stop,
}

/// Which frame the send side tried to deliver.
pub enum SentFrame {
    Ping,
    Update,
    DroppedNotice,
}

/// Whether a loop goes on.
pub enum LoopControl {
    Continue,
    Stop,
}

/// The per-connection state shared by the receive and send sides.
pub struct ConnectionState {
    /// Whether a pong was received since the last ping.
    pub pong_received: bool,
    /// Messages dropped for this client because it was too slow.
    pub messages_dropped_total: u64,
}

/// The state and action after a heartbeat tick: the pong flag is read and
/// cleared, and the connection is closed when it was not set.
pub open spec fn heartbeat_next(s: ConnectionState) -> (ConnectionState, HeartbeatAction) {
    (
        ConnectionState { pong_received: false, ..s },
        if s.pong_received {
            HeartbeatAction::SendPing
        } else {
            HeartbeatAction::Close
        },
    )
}

/// The state and action after a frame from the client (`None`: the stream
/// ended or failed).
pub open spec fn frame_next(s: ConnectionState, frame: Option<IncomingFrame>) -> (
    ConnectionState,
    ReceiveAction,
) {
    match frame {
        None => (s, ReceiveAction::Stop),
        Some(IncomingFrame::Text(t)) => (s, ReceiveAction::HandleText(t)),
        Some(IncomingFrame::Pong) => (
            ConnectionState { pong_received: true, ..s },
            ReceiveAction::Continue,
        ),
        Some(IncomingFrame::Ping) => (s, ReceiveAction::Continue),
        Some(IncomingFrame::Binary) => (s, ReceiveAction::Continue),
        Some(IncomingFrame::Close) => (s, ReceiveAction::Stop),
    }
}

/// The state and action when the pong deadline of the last ping passes: the
/// connection is closed when no pong came since that ping.
pub open spec fn pong_deadline_next(s: ConnectionState) -> (ConnectionState, DeadlineAction) {
    (
        s,
        if s.pong_received {
            DeadlineAction::Keep
        } else {
            DeadlineAction::Close
        },
    )
}

/// Adds to the dropped-message counter, wrapping around past `u64::MAX` as the
/// atomic counter does.
pub open spec fn add_dropped(total: u64, skipped: u64) -> u64 {
    if total + skipped > u64::MAX {
        (total + skipped - 0x1_0000_0000_0000_0000) as u64
    } else {
        (total + skipped) as u64
    }
}

/// The state and action after a broadcast event.
pub open spec fn broadcast_next(s: ConnectionState, event: BroadcastEvent) -> (
    ConnectionState,
    BroadcastAction,
) {
    match event {
        BroadcastEvent::Update { json: Some(j) } => (s, BroadcastAction::SendUpdate(j)),
        BroadcastEvent::Update { json: None } => (s, BroadcastAction::Skip),
        BroadcastEvent::Lagged { skipped } => (
            ConnectionState {
                messages_dropped_total: add_dropped(s.messages_dropped_total, skipped),
                ..s
            },
            BroadcastAction::NotifyDropped { count: skipped },
        ),
        BroadcastEvent::Closed => (s, BroadcastAction::Stop),
    }
}

/// Whether the send side goes on after trying to deliver a frame: a failed
/// ping or update ends it; the dropped-messages notice is best effort.
pub open spec fn spec_after_send(frame: SentFrame, delivered: bool) -> LoopControl {
    match frame {
        SentFrame::DroppedNotice => LoopControl::Continue,
        _ => if delivered {
            LoopControl::Continue
        } else {
            LoopControl::Stop
        },
    }
}

pub fn after_send(frame: SentFrame, delivered: bool) -> (ctl: LoopControl)
    ensures
        ctl == spec_after_send(frame, delivered),
{
    match frame {
        SentFrame::DroppedNotice => LoopControl::Continue,
        _ => if delivered {
            LoopControl::Continue
        } else {
            LoopControl::Stop
        },
    }
}

impl ConnectionState {
    /// A freshly opened connection: counted as having answered (no ping was
    /// sent yet) and with nothing dropped.
    pub fn new() -> (s: Self)
        ensures
            s.pong_received,
            s.messages_dropped_total == 0,
    {
        ConnectionState { pong_received: true, messages_dropped_total: 0 }
    }

    /// The heartbeat timer fired.
    pub fn on_heartbeat(&mut self) -> (action: HeartbeatAction)
        ensures
            (*final(self), action) == heartbeat_next(*old(self)),
    {
        let was_received = self.pong_received;
        self.pong_received = false;
        if was_received {
            HeartbeatAction::SendPing
        } else {
            HeartbeatAction::Close
        }
    }

    /// The pong deadline of the last ping passed.
    pub fn on_pong_deadline(&mut self) -> (action: DeadlineAction)
        ensures
            (*final(self), action) == pong_deadline_next(*old(self)),
    {
        if self.pong_received {
            DeadlineAction::Keep
        } else {
            DeadlineAction::Close
        }
    }

    /// A frame arrived from the client, or the stream ended (`None`).
    pub fn on_frame(&mut self, frame: Option<IncomingFrame>) -> (action: ReceiveAction)
        ensures
            (*final(self), action) == frame_next(*old(self), frame),
            frame matches Some(IncomingFrame::Text(t)) ==> action == ReceiveAction::HandleText(t),
            final(self).messages_dropped_total == old(self).messages_dropped_total,
    {
        match frame {
            None => ReceiveAction::Stop,
            Some(IncomingFrame::Text(t)) => ReceiveAction::HandleText(t),
            Some(IncomingFrame::Pong) => {
                self.pong_received = true;
                ReceiveAction::Continue
            },
            Some(IncomingFrame::Ping) => ReceiveAction::Continue,
            Some(IncomingFrame::Binary) => ReceiveAction::Continue,
            Some(IncomingFrame::Close) => ReceiveAction::Stop,
        }
    }

    /// An event arrived on the broadcast channel.
    pub fn on_broadcast(&mut self, event: BroadcastEvent) -> (action: BroadcastAction)
        ensures
            (*final(self), action) == broadcast_next(*old(self), event),
            event matches BroadcastEvent::Update { json: Some(j) } ==> action
                == BroadcastAction::SendUpdate(j),
            final(self).pong_received == old(self).pong_received,
    {
        match event {
            BroadcastEvent::Update { json: Some(j) } => BroadcastAction::SendUpdate(j),
            BroadcastEvent::Update { json: None } => BroadcastAction::Skip,
            BroadcastEvent::Lagged { skipped } => {
                self.messages_dropped_total = self.messages_dropped_total.wrapping_add(skipped);
                BroadcastAction::NotifyDropped { count: skipped }
            },
            BroadcastEvent::Closed => BroadcastAction::Stop,
        }
    }
}

/// A connection that does not answer a ping is closed at the next heartbeat:
/// two ticks with no pong in between always close it.
pub proof fn lemma_silent_client_is_closed(s: ConnectionState)
    ensures
        heartbeat_next(heartbeat_next(s).0).1 is Close,
{
}

/// A ping that is not answered closes the connection at its pong deadline,
/// `PONG_TIMEOUT_SECS` after it was sent, whatever other frames arrived in
/// between.
pub proof fn lemma_unanswered_ping_closes_at_deadline(
    s: ConnectionState,
    frame: Option<IncomingFrame>,
)
    requires
        heartbeat_next(s).1 is SendPing,
        !(frame matches Some(IncomingFrame::Pong)),
    ensures
        pong_deadline_next(heartbeat_next(s).0).1 is Close,
        pong_deadline_next(frame_next(heartbeat_next(s).0, frame).0).1 is Close,
{
}

/// A pong before the deadline keeps the connection open at the deadline.
pub proof fn lemma_answered_ping_is_kept(s: ConnectionState)
    ensures
        pong_deadline_next(frame_next(heartbeat_next(s).0, Some(IncomingFrame::Pong)).0).1 is Keep,
{
}

/// A pong between two ticks keeps the connection open: the second tick sends
/// the next ping.
pub proof fn lemma_pong_keeps_connection_alive(s: ConnectionState)
    ensures
        heartbeat_next(frame_next(heartbeat_next(s).0, Some(IncomingFrame::Pong)).0).1 is SendPing,
{
}

/// Frames from the client never touch the dropped-message counter, and only a
/// pong sets the pong flag.
pub proof fn lemma_frames_keep_counter(s: ConnectionState, frame: Option<IncomingFrame>)
    ensures
        frame_next(s, frame).0.messages_dropped_total == s.messages_dropped_total,
        !(frame matches Some(IncomingFrame::Pong)) ==> frame_next(s, frame).0 == s,
{
}

/// The dropped-message counter is the sum of what the lag events skipped
/// (wrapping around past `u64::MAX`): a lag adds its count, every other
/// broadcast event leaves it as it was, and the pong flag is untouched.
pub proof fn lemma_dropped_counter_accumulates(s: ConnectionState, event: BroadcastEvent)
    ensures
        broadcast_next(s, event).0.pong_received == s.pong_received,
        event matches BroadcastEvent::Lagged { skipped } ==> broadcast_next(
            s,
            event,
        ).0.messages_dropped_total == add_dropped(s.messages_dropped_total, skipped),
        event matches BroadcastEvent::Lagged { skipped } ==> (s.messages_dropped_total + skipped
            <= u64::MAX ==> broadcast_next(s, event).0.messages_dropped_total
            == s.messages_dropped_total + skipped),
        !(event is Lagged) ==> broadcast_next(s, event).0 == s,
{
}

/// Every text frame is handed to the message handler, with its text
/// unchanged, whatever the connection went through before (pongs, lag,
/// dropped messages): the action depends on the frame alone, and handling
/// it changes no state.
pub proof fn lemma_text_frames_are_always_handled(s: ConnectionState, t: String)
    ensures
        frame_next(s, Some(IncomingFrame::Text(t))).1 == ReceiveAction::HandleText(t),
        frame_next(s, Some(IncomingFrame::Text(t))).0 == s,
{
}

/// What each kind of frame does, in any state: a close or the end of the
/// stream stops the receive side, a pong records that the client answered,
/// pings and binary frames change nothing.
pub proof fn lemma_frame_kinds(s: ConnectionState)
    ensures
        frame_next(s, None).1 is Stop,
        frame_next(s, Some(IncomingFrame::Close)).1 is Stop,
        frame_next(s, Some(IncomingFrame::Pong)).1 is Continue,
        frame_next(s, Some(IncomingFrame::Pong)).0.pong_received,
        frame_next(s, Some(IncomingFrame::Ping)) == (s, ReceiveAction::Continue),
        frame_next(s, Some(IncomingFrame::Binary)) == (s, ReceiveAction::Continue),
{
}

/// Every update that serialized is sent to the client, unchanged, whatever
/// the connection went through before (lag, dropped messages, missing
/// pongs): the action depends on the event alone, and sending it changes no
/// state.
pub proof fn lemma_updates_are_always_sent(s: ConnectionState, j: String)
    ensures
        broadcast_next(s, BroadcastEvent::Update { json: Some(j) }).1 == BroadcastAction::SendUpdate(j),
        broadcast_next(s, BroadcastEvent::Update { json: Some(j) }).0 == s,
{
}

/// What each other broadcast event does, in any state: an update that did not
/// serialize is skipped, a lag notifies the client of exactly the count that
/// was skipped, and a closed channel stops the send side.
pub proof fn lemma_broadcast_kinds(s: ConnectionState, skipped: u64)
    ensures
        broadcast_next(s, BroadcastEvent::Update { json: None }) == (s, BroadcastAction::Skip),
        broadcast_next(s, BroadcastEvent::Lagged { skipped }).1 == (BroadcastAction::NotifyDropped {
            count: skipped,
        }),
        broadcast_next(s, BroadcastEvent::Closed) == (s, BroadcastAction::Stop),
{
}

/// The counter adds modulo 2^64, as an atomic counter does.
pub proof fn lemma_add_dropped_wraps(total: u64, skipped: u64)
    ensures
        add_dropped(total, skipped) == (total + skipped) % 0x1_0000_0000_0000_0000,
{
}

/// A heartbeat tick sends a ping exactly when the client answered the last
/// one, and always clears the answer flag for the new ping; the dropped
/// counter is untouched.
pub proof fn lemma_heartbeat_rule(s: ConnectionState)
    ensures
        heartbeat_next(s).1 is SendPing <==> s.pong_received,
        !heartbeat_next(s).0.pong_received,
        heartbeat_next(s).0.messages_dropped_total == s.messages_dropped_total,
{
}

/// At the pong deadline the connection is closed exactly when no pong came,
/// and the state is left as it was.
pub proof fn lemma_pong_deadline_rule(s: ConnectionState)
    ensures
        pong_deadline_next(s).1 is Close <==> !s.pong_received,
        pong_deadline_next(s).0 == s,
{
}

/// A resync limit outside the allowed range is moved to its nearest end.
pub proof fn lemma_resync_limit_clamps(l: i64)
    ensures
        l < 1 ==> spec_resync_limit(Some(l)) == 1,
        l > 100 ==> spec_resync_limit(Some(l)) == 100,
        spec_resync_limit(None) == 20,
{
}

/// The send side stops exactly when the channel closed, or when a ping or an
/// update could not be delivered.
pub proof fn lemma_send_side_stops(frame: SentFrame, delivered: bool)
    ensures
        spec_after_send(frame, delivered) is Stop <==> (!delivered && !(frame is DroppedNotice)),
{
}

} // verus!
