//! The live orderbook feed: Socket.IO v4 over a WebSocket, spoken by hand.
//! The connection's decisions are a step function from the state and what
//! the socket delivered to the next state and what to do; the caller reads
//! the socket, performs the actions and reports back.
//!
//! Engine.IO packets: "0" open, "2" ping, "3" pong, "4" message. Socket.IO
//! packets inside a message: "40" connect, "41" disconnect, "42" event,
//! "44" connect error, each followed by the namespace and a comma.

use vstd::prelude::*;
use vstd::string::StringSliceAdditionalSpecFns;
use crate::chars::{chars_equal, chars_of, chars_start_with, string_from_chars, string_of};

verus! {

/// The Socket.IO namespace of market data.
pub const NAMESPACE: &'static str = "/markets";

/// The path and query that open an Engine.IO session over WebSocket.
pub const SOCKET_IO_PATH: &'static str = "/socket.io/?EIO=4&transport=websocket";

/// The WebSocket URL of the feed below a base URL.
pub fn feed_url(ws_base: &str) -> (res: String)
    ensures
        res@ == ws_base@ + SOCKET_IO_PATH@,
{
    let mut u = string_of(ws_base);
    u.append(SOCKET_IO_PATH);
    u
}

/// A character of JSON string text, as `serde_json` writes it: the quote,
/// the backslash and the control characters below U+0020 are escaped.
pub open spec fn json_escape_char(c: char) -> Seq<char> {
    if c == '"' {
        seq!['\\', '"']
    } else if c == '\\' {
        seq!['\\', '\\']
    } else if c == '\u{8}' {
        seq!['\\', 'b']
    } else if c == '\t' {
        seq!['\\', 't']
    } else if c == '\n' {
        seq!['\\', 'n']
    } else if c == '\u{c}' {
        seq!['\\', 'f']
    } else if c == '\r' {
        seq!['\\', 'r']
    } else if (c as u32) < 0x20 {
        seq!['\\', 'u', '0', '0', hex_digit((c as u32 / 16) as nat), hex_digit((c as u32 % 16) as nat)]
    } else {
        seq![c]
    }
}

/// A lowercase hex digit.
pub open spec fn hex_digit(n: nat) -> char {
    if n < 10 {
        ((n + 48) as u32) as char
    } else {
        ((n + 87) as u32) as char
    }
}

/// The escaped characters of a text.
pub open spec fn json_escape(s: Seq<char>) -> Seq<char>
    decreases s.len(),
{
    if s.len() == 0 {
        seq![]
    } else {
        json_escape(s.drop_last()) + json_escape_char(s.last())
    }
}

/// A JSON string literal: the escaped text between double quotes.
pub open spec fn json_string(s: Seq<char>) -> Seq<char> {
    seq!['"'] + json_escape(s) + seq!['"']
}

fn hex_digit_exec(n: u32) -> (res: char)
    requires
        n < 16,
    ensures
        res == hex_digit(n as nat),
{
    if n < 10 {
        let v: u8 = (n + 48) as u8;
        v as char
    } else {
        let v: u8 = (n + 87) as u8;
        v as char
    }
}

/// The JSON string literal of a text, as `serde_json` writes it.
pub fn json_string_literal(s: &str) -> (res: String)
    ensures
        res@ == json_string(s@),
{
    let cs = chars_of(s);
    let mut out: Vec<char> = Vec::new();
    out.push('"');
    let mut i: usize = 0;
    while i < cs.len()
        invariant
            0 <= i <= cs.len(),
            cs@ == s@,
            out@ == seq!['"'] + json_escape(cs@.subrange(0, i as int)),
        decreases cs.len() - i,
    {
        let c = cs[i];
        let ghost before = out@;
        if c == '"' {
            out.push('\\');
            out.push('"');
        } else if c == '\\' {
            out.push('\\');
            out.push('\\');
        } else if c == '\u{8}' {
            out.push('\\');
            out.push('b');
        } else if c == '\t' {
            out.push('\\');
            out.push('t');
        } else if c == '\n' {
            out.push('\\');
            out.push('n');
        } else if c == '\u{c}' {
            out.push('\\');
            out.push('f');
        } else if c == '\r' {
            out.push('\\');
            out.push('r');
        } else if (c as u32) < 0x20 {
            let code = c as u32;
            out.push('\\');
            out.push('u');
            out.push('0');
            out.push('0');
            out.push(hex_digit_exec(code / 16));
            out.push(hex_digit_exec(code % 16));
        } else {
            out.push(c);
        }
        assert(cs@.subrange(0, i + 1).drop_last() =~= cs@.subrange(0, i as int));
        assert(out@ =~= before + json_escape_char(c));
        i = i + 1;
    }
    out.push('"');
    assert(cs@.subrange(0, cs@.len() as int) =~= cs@);
    assert(out@ =~= json_string(s@));
    string_from_chars(out.as_slice())
}

/// The packet that connects to the namespace: "40/markets,".
pub open spec fn connect_packet() -> Seq<char> {
    "40"@ + NAMESPACE@ + ","@
}

/// The packet that subscribes to a market's prices:
/// `42/markets,["subscribe_market_prices",{"marketSlugs":["<slug>"]}]`.
pub open spec fn subscribe_packet(slug: Seq<char>) -> Seq<char> {
    "42"@ + NAMESPACE@ + ","@ + "[\"subscribe_market_prices\",{\"marketSlugs\":["@ + json_string(
        slug,
    ) + "]}]"@
}

fn connect_packet_exec() -> (res: String)
    ensures
        res@ == connect_packet(),
{
    let mut p = string_of("40");
    p.append(NAMESPACE);
    p.append(",");
    p
}

fn subscribe_packet_exec(slug: &str) -> (res: String)
    ensures
        res@ == subscribe_packet(slug@),
{
    let mut p = string_of("42");
    p.append(NAMESPACE);
    p.append(",");
    p.append("[\"subscribe_market_prices\",{\"marketSlugs\":[");
    let lit = json_string_literal(slug);
    p.append(lit.as_str());
    p.append("]}]");
    p
}

/// The JSON body of a Socket.IO event packet: the text after "42" and, where
/// the namespace follows, after the namespace and its comma; `None` when the
/// packet is no event or the namespace lacks its comma.
pub open spec fn event_payload(raw: Seq<char>) -> Option<Seq<char>> {
    if raw.len() >= 2 && raw.subrange(0, 2) == "42"@ {
        let after = raw.skip(2);
        if after.len() >= NAMESPACE@.len() && after.subrange(0, NAMESPACE@.len() as int)
            == NAMESPACE@ {
            let rest = after.skip(NAMESPACE@.len() as int);
            if rest.len() >= 1 && rest[0] == ',' {
                Some(rest.skip(1))
            } else {
                None
            }
        } else {
            Some(after)
        }
    } else {
        None
    }
}

fn skip_chars(cs: &Vec<char>, k: usize) -> (res: Vec<char>)
    requires
        k <= cs.len(),
    ensures
        res@ == cs@.skip(k as int),
{
    let mut out: Vec<char> = Vec::new();
    let mut i: usize = k;
    while i < cs.len()
        invariant
            k <= i <= cs.len(),
            out@ == cs@.subrange(k as int, i as int),
        decreases cs.len() - i,
    {
        out.push(cs[i]);
        i = i + 1;
        assert(out@ =~= cs@.subrange(k as int, i as int));
    }
    assert(out@ =~= cs@.skip(k as int));
    out
}

/// The JSON body of a Socket.IO event packet.
pub fn sio_event_payload(raw: &str) -> (res: Option<String>)
    ensures
        match res {
            Some(j) => event_payload(raw@) == Some(j@),
            None => event_payload(raw@) is None,
        },
{
    proof {
        reveal_strlit("42");
        reveal_strlit("/markets");
    }
    let cs = chars_of(raw);
    if !chars_start_with(&cs, "42") {
        return None;
    }
    let after = skip_chars(&cs, 2);
    let ns_len: usize = 8;
    if chars_start_with(&after, NAMESPACE) {
        let rest = skip_chars(&after, ns_len);
        if rest.len() >= 1 && rest[0] == ',' {
            let body = skip_chars(&rest, 1);
            Some(string_from_chars(body.as_slice()))
        } else {
            None
        }
    } else {
        Some(string_from_chars(after.as_slice()))
    }
}

/// Where the connection stands.
#[derive(Clone, Copy, Debug, PartialEq, Eq, Structural)]
pub enum FeedState {
    /// Waiting for the Engine.IO open packet.
    AwaitingOpen,
    /// The connect packet is sent; waiting for its acknowledgement.
    AwaitingAck,
    /// The subscription is being sent.
    Subscribing,
    /// Subscribed; updates flow.
    Streaming,
    /// The connection is over.
    Finished,
}

/// The kind of a WebSocket message.
#[derive(Clone, Copy, Debug, PartialEq, Eq, Structural)]
pub enum FrameKind {
    Text,
    Ping,
    Close,
    Other,
}

/// What the socket delivered or how a send went.
#[derive(Clone, Debug)]
pub enum FeedEvent {
    /// A message: its kind, its text where the message reads as text, and
    /// the payload of a ping.
    Message { kind: FrameKind, text: Option<String>, payload: Vec<u8> },
    /// Reading failed.
    ReadError(String),
    /// The socket has no more messages.
    StreamEnd,
    /// The last send went through.
    SendDone,
    /// The last send failed.
    SendFailed,
}

/// Why the handshake failed.
#[derive(Clone, Debug)]
pub enum FeedFailure {
    ClosedBeforeOpen,
    ReadFailedBeforeOpen(String),
    OpenNotText,
    UnexpectedOpen(String),
    ConnectSendFailed,
    ClosedBeforeAck,
    ReadFailedBeforeAck(String),
    ConnectRejected(String),
    UnexpectedAck(String),
    SubscribeSendFailed,
}

/// What to do.
#[derive(Clone, Debug)]
pub enum FeedAction {
    /// Send a text message.
    Send(String),
    /// Answer a WebSocket ping with this payload.
    Pong(Vec<u8>),
    /// Report that the namespace is connected.
    Connected,
    /// Report that the feed ended, and why.
    Disconnected(String),
    /// Hand on the JSON body of an event.
    Event(String),
    /// Report that the handshake failed.
    Fail(FeedFailure),
}

/// A handshake failure, with its texts as sequences.
pub enum FailureView {
    ClosedBeforeOpen,
    ReadFailedBeforeOpen(Seq<char>),
    OpenNotText,
    UnexpectedOpen(Seq<char>),
    ConnectSendFailed,
    ClosedBeforeAck,
    ReadFailedBeforeAck(Seq<char>),
    ConnectRejected(Seq<char>),
    UnexpectedAck(Seq<char>),
    SubscribeSendFailed,
}

/// The view of a handshake failure.
pub open spec fn failure_view(f: FeedFailure) -> FailureView {
    match f {
        FeedFailure::ClosedBeforeOpen => FailureView::ClosedBeforeOpen,
        FeedFailure::ReadFailedBeforeOpen(e) => FailureView::ReadFailedBeforeOpen(e@),
        FeedFailure::OpenNotText => FailureView::OpenNotText,
        FeedFailure::UnexpectedOpen(t) => FailureView::UnexpectedOpen(t@),
        FeedFailure::ConnectSendFailed => FailureView::ConnectSendFailed,
        FeedFailure::ClosedBeforeAck => FailureView::ClosedBeforeAck,
        FeedFailure::ReadFailedBeforeAck(e) => FailureView::ReadFailedBeforeAck(e@),
        FeedFailure::ConnectRejected(t) => FailureView::ConnectRejected(t@),
        FeedFailure::UnexpectedAck(t) => FailureView::UnexpectedAck(t@),
        FeedFailure::SubscribeSendFailed => FailureView::SubscribeSendFailed,
    }
}

/// An action, with its texts and bytes as sequences.
pub enum ActionView {
    Send(Seq<char>),
    Pong(Seq<u8>),
    Connected,
    Disconnected(Seq<char>),
    Event(Seq<char>),
    Fail(FailureView),
}

/// The view of an action.
pub open spec fn action_view(a: FeedAction) -> ActionView {
    match a {
        FeedAction::Send(t) => ActionView::Send(t@),
        FeedAction::Pong(p) => ActionView::Pong(p@),
        FeedAction::Connected => ActionView::Connected,
        FeedAction::Disconnected(r) => ActionView::Disconnected(r@),
        FeedAction::Event(j) => ActionView::Event(j@),
        FeedAction::Fail(f) => ActionView::Fail(failure_view(f)),
    }
}

/// Whether `t` starts with `p`.
pub open spec fn starts_with(t: Seq<char>, p: Seq<char>) -> bool {
    p.len() <= t.len() && t.subrange(0, p.len() as int) == p
}

/// The step of the connection: the next state and the actions, in order.
pub open spec fn feed_step_spec(st: FeedState, ev: FeedEvent, slug: Seq<char>) -> (
    FeedState,
    Seq<ActionView>,
) {
    match st {
        FeedState::AwaitingOpen => match ev {
            FeedEvent::StreamEnd => (
                FeedState::Finished,
                seq![ActionView::Fail(FailureView::ClosedBeforeOpen)],
            ),
            FeedEvent::ReadError(e) => (
                FeedState::Finished,
                seq![ActionView::Fail(FailureView::ReadFailedBeforeOpen(e@))],
            ),
            FeedEvent::Message { kind, text, payload } => match text {
                None => (FeedState::Finished, seq![ActionView::Fail(FailureView::OpenNotText)]),
                Some(t) => if t@.len() >= 1 && t@[0] == '0' {
                    (FeedState::AwaitingAck, seq![ActionView::Send(connect_packet())])
                } else {
                    (FeedState::Finished, seq![ActionView::Fail(FailureView::UnexpectedOpen(t@))])
                },
            },
            _ => (st, seq![]),
        },
        FeedState::AwaitingAck => match ev {
            FeedEvent::StreamEnd => (
                FeedState::Finished,
                seq![ActionView::Fail(FailureView::ClosedBeforeAck)],
            ),
            FeedEvent::ReadError(e) => (
                FeedState::Finished,
                seq![ActionView::Fail(FailureView::ReadFailedBeforeAck(e@))],
            ),
            FeedEvent::SendFailed => (
                FeedState::Finished,
                seq![ActionView::Fail(FailureView::ConnectSendFailed)],
            ),
            FeedEvent::SendDone => (st, seq![]),
            FeedEvent::Message { kind, text, payload } => {
                let t = match text {
                    Some(t) => t@,
                    None => Seq::empty(),
                };
                if starts_with(t, connect_packet()) {
                    (
                        FeedState::Subscribing,
                        seq![ActionView::Connected, ActionView::Send(subscribe_packet(slug))],
                    )
                } else if starts_with(t, "44"@ + NAMESPACE@ + ","@) {
                    (FeedState::Finished, seq![ActionView::Fail(FailureView::ConnectRejected(t))])
                } else {
                    (FeedState::Finished, seq![ActionView::Fail(FailureView::UnexpectedAck(t))])
                }
            },
        },
        FeedState::Subscribing => match ev {
            FeedEvent::SendDone => (FeedState::Streaming, seq![]),
            FeedEvent::SendFailed => (
                FeedState::Finished,
                seq![ActionView::Fail(FailureView::SubscribeSendFailed)],
            ),
            _ => (st, seq![]),
        },
        FeedState::Streaming => match ev {
            FeedEvent::StreamEnd => (
                FeedState::Finished,
                seq![ActionView::Disconnected("WS stream ended"@)],
            ),
            FeedEvent::ReadError(e) => (
                FeedState::Finished,
                seq![
                    ActionView::Disconnected("WS error: "@ + e@),
                    ActionView::Disconnected("WS stream ended"@),
                ],
            ),
            FeedEvent::SendFailed => (
                FeedState::Finished,
                seq![ActionView::Disconnected("WS stream ended"@)],
            ),
            FeedEvent::SendDone => (st, seq![]),
            FeedEvent::Message { kind, text, payload } => match kind {
                FrameKind::Text => {
                    let t = match text {
                        Some(t) => t@,
                        None => Seq::empty(),
                    };
                    if t == "2"@ {
                        (st, seq![ActionView::Send("3"@)])
                    } else if t == "3"@ {
                        (st, seq![])
                    } else if starts_with(t, "42"@) {
                        match event_payload(t) {
                            Some(j) => (st, seq![ActionView::Event(j)]),
                            None => (st, seq![]),
                        }
                    } else if starts_with(t, "41"@) {
                        (
                            FeedState::Finished,
                            seq![
                                ActionView::Disconnected("server sent disconnect"@),
                                ActionView::Disconnected("WS stream ended"@),
                            ],
                        )
                    } else {
                        (st, seq![])
                    }
                },
                FrameKind::Ping => (st, seq![ActionView::Pong(payload@)]),
                FrameKind::Close => (
                    FeedState::Finished,
                    seq![
                        ActionView::Disconnected("WS closed"@),
                        ActionView::Disconnected("WS stream ended"@),
                    ],
                ),
                FrameKind::Other => (st, seq![]),
            },
        },
        FeedState::Finished => (st, seq![]),
    }
}

fn one(a: FeedAction) -> (res: Vec<FeedAction>)
    ensures
        res@.map_values(|x: FeedAction| action_view(x)) == seq![action_view(a)],
{
    let mut v: Vec<FeedAction> = Vec::new();
    v.push(a);
    assert(v@.map_values(|x: FeedAction| action_view(x)) =~= seq![action_view(a)]);
    v
}

fn two(a: FeedAction, b: FeedAction) -> (res: Vec<FeedAction>)
    ensures
        res@.map_values(|x: FeedAction| action_view(x)) == seq![action_view(a), action_view(b)],
{
    let mut v: Vec<FeedAction> = Vec::new();
    v.push(a);
    v.push(b);
    assert(v@.map_values(|x: FeedAction| action_view(x)) =~= seq![action_view(a), action_view(b)]);
    v
}

fn none() -> (res: Vec<FeedAction>)
    ensures
        res@.map_values(|x: FeedAction| action_view(x)) == Seq::<ActionView>::empty(),
{
    let v: Vec<FeedAction> = Vec::new();
    assert(v@.map_values(|x: FeedAction| action_view(x)) =~= Seq::<ActionView>::empty());
    v
}

/// One step of the connection to a market's feed.
pub fn feed_step(st: FeedState, ev: FeedEvent, slug: &str) -> (res: (FeedState, Vec<FeedAction>))
    ensures
        res.0 == feed_step_spec(st, ev, slug@).0,
        res.1@.map_values(|x: FeedAction| action_view(x)) == feed_step_spec(st, ev, slug@).1,
{
    proof {
        reveal_strlit("40");
        reveal_strlit("44");
        reveal_strlit("42");
        reveal_strlit("41");
        reveal_strlit("2");
        reveal_strlit("3");
        reveal_strlit(",");
        reveal_strlit("/markets");
    }
    match st {
        FeedState::AwaitingOpen => match ev {
            FeedEvent::StreamEnd => (FeedState::Finished, one(FeedAction::Fail(FeedFailure::ClosedBeforeOpen))),
            FeedEvent::ReadError(e) => (
                FeedState::Finished,
                one(FeedAction::Fail(FeedFailure::ReadFailedBeforeOpen(e))),
            ),
            FeedEvent::Message { kind, text, payload } => match text {
                None => (FeedState::Finished, one(FeedAction::Fail(FeedFailure::OpenNotText))),
                Some(t) => {
                    let cs = chars_of(t.as_str());
                    if cs.len() >= 1 && cs[0] == '0' {
                        (FeedState::AwaitingAck, one(FeedAction::Send(connect_packet_exec())))
                    } else {
                        (FeedState::Finished, one(FeedAction::Fail(FeedFailure::UnexpectedOpen(t))))
                    }
                },
            },
            _ => (st, none()),
        },
        FeedState::AwaitingAck => match ev {
            FeedEvent::StreamEnd => (FeedState::Finished, one(FeedAction::Fail(FeedFailure::ClosedBeforeAck))),
            FeedEvent::ReadError(e) => (
                FeedState::Finished,
                one(FeedAction::Fail(FeedFailure::ReadFailedBeforeAck(e))),
            ),
            FeedEvent::SendFailed => (
                FeedState::Finished,
                one(FeedAction::Fail(FeedFailure::ConnectSendFailed)),
            ),
            FeedEvent::SendDone => (st, none()),
            FeedEvent::Message { kind, text, payload } => {
                let t = match &text {
                    Some(t) => t.clone(),
                    None => String::new(),
                };
                let cs = chars_of(t.as_str());
                let connect = connect_packet_exec();
                let mut rejected = string_of("44");
                rejected.append(NAMESPACE);
                rejected.append(",");
                if chars_start_with(&cs, connect.as_str()) {
                    (
                        FeedState::Subscribing,
                        two(FeedAction::Connected, FeedAction::Send(subscribe_packet_exec(slug))),
                    )
                } else if chars_start_with(&cs, rejected.as_str()) {
                    (FeedState::Finished, one(FeedAction::Fail(FeedFailure::ConnectRejected(t))))
                } else {
                    (FeedState::Finished, one(FeedAction::Fail(FeedFailure::UnexpectedAck(t))))
                }
            },
        },
        FeedState::Subscribing => match ev {
            FeedEvent::SendDone => (FeedState::Streaming, none()),
            FeedEvent::SendFailed => (
                FeedState::Finished,
                one(FeedAction::Fail(FeedFailure::SubscribeSendFailed)),
            ),
            _ => (st, none()),
        },
        FeedState::Streaming => match ev {
            FeedEvent::StreamEnd => (
                FeedState::Finished,
                one(FeedAction::Disconnected(string_of("WS stream ended"))),
            ),
            FeedEvent::ReadError(e) => {
                let mut r = string_of("WS error: ");
                r.append(e.as_str());
                (
                    FeedState::Finished,
                    two(FeedAction::Disconnected(r), FeedAction::Disconnected(string_of("WS stream ended"))),
                )
            },
            FeedEvent::SendFailed => (
                FeedState::Finished,
                one(FeedAction::Disconnected(string_of("WS stream ended"))),
            ),
            FeedEvent::SendDone => (st, none()),
            FeedEvent::Message { kind, text, payload } => match kind {
                FrameKind::Text => {
                    let t = match &text {
                        Some(t) => t.clone(),
                        None => String::new(),
                    };
                    let cs = chars_of(t.as_str());
                    if chars_equal(&cs, "2") {
                        (st, one(FeedAction::Send(string_of("3"))))
                    } else if chars_equal(&cs, "3") {
                        (st, none())
                    } else if chars_start_with(&cs, "42") {
                        match sio_event_payload(t.as_str()) {
                            Some(j) => (st, one(FeedAction::Event(j))),
                            None => (st, none()),
                        }
                    } else if chars_start_with(&cs, "41") {
                        (
                            FeedState::Finished,
                            two(
                                FeedAction::Disconnected(string_of("server sent disconnect")),
                                FeedAction::Disconnected(string_of("WS stream ended")),
                            ),
                        )
                    } else {
                        (st, none())
                    }
                },
                FrameKind::Ping => (st, one(FeedAction::Pong(payload))),
                FrameKind::Close => (
                    FeedState::Finished,
                    two(
                        FeedAction::Disconnected(string_of("WS closed")),
                        FeedAction::Disconnected(string_of("WS stream ended")),
                    ),
                ),
                FrameKind::Other => (st, none()),
            },
        },
        FeedState::Finished => (st, none()),
    }
}

/// The subscription goes out only in answer to the namespace's
/// acknowledgement, and the feed reports the connection just before it.
pub proof fn law_subscribe_only_after_ack(st: FeedState, ev: FeedEvent, slug: Seq<char>)
    requires
        feed_step_spec(st, ev, slug).1.contains(ActionView::Send(subscribe_packet(slug))),
    ensures
        st == FeedState::AwaitingAck,
        ev matches FeedEvent::Message { text, .. } && text matches Some(t) && starts_with(
            t@,
            connect_packet(),
        ),
        feed_step_spec(st, ev, slug).1 == seq![
            ActionView::Connected,
            ActionView::Send(subscribe_packet(slug)),
        ],
{
    reveal_strlit("3");
    reveal_strlit("42");
    reveal_strlit("40");
    reveal_strlit(",");
    reveal_strlit("/markets");
    let acts = feed_step_spec(st, ev, slug).1;
    let i = choose|i: int| 0 <= i < acts.len() && acts[i] == ActionView::Send(subscribe_packet(slug));
    if st == FeedState::Streaming {
        if acts == seq![ActionView::Send("3"@)] {
            assert(acts[0] == ActionView::Send("3"@));
            assert(subscribe_packet(slug).len() > 1);
        }
    }
    if st == FeedState::AwaitingOpen {
        if acts.len() == 1 && acts[0] == ActionView::Send(connect_packet()) {
            assert(subscribe_packet(slug)[1] == '2');
            assert(connect_packet()[1] == '0');
        }
    }
}

/// While streaming, every Engine.IO ping is answered with a pong and the
/// feed stays up.
pub proof fn law_ping_answered(kind: FrameKind, text: String, payload: Vec<u8>, slug: Seq<char>)
    requires
        kind == FrameKind::Text,
        text@ == "2"@,
    ensures
        feed_step_spec(
            FeedState::Streaming,
            FeedEvent::Message { kind, text: Some(text), payload },
            slug,
        ) == (FeedState::Streaming, seq![ActionView::Send("3"@)]),
{
}

/// A finished connection stays finished and does nothing more.
pub proof fn law_finished_is_final(ev: FeedEvent, slug: Seq<char>)
    ensures
        feed_step_spec(FeedState::Finished, ev, slug) == (FeedState::Finished, Seq::<ActionView>::empty()),
{
}

/// The first characters of a packet shown in an error: at most 80 bytes.
/// The cut must fall on a character boundary (the command-line program stops
/// on other input).
pub fn packet_preview(t: &str) -> (res: String)
    requires
        t.spec_bytes().len() <= usize::MAX,
        t.spec_bytes().len() > 80 ==> vstd::utf8::is_char_boundary(t.spec_bytes(), 80),
    ensures
        t.spec_bytes().len() <= 80 ==> res@ == t@,
        t.spec_bytes().len() > 80 ==> res@ == vstd::utf8::decode_utf8(t.spec_bytes().subrange(0, 80)),
{
    if t.len() <= 80 {
        string_of(t)
    } else {
        let (head, _) = t.split_at(80);
        proof {
            vstd::utf8::encode_utf8_decode_utf8(head@);
        }
        string_of(head)
    }
}

/// While streaming, the feed finishes exactly when its last action reports
/// "WS stream ended"; every other step keeps it streaming. The end of the
/// stream finishes it and reports just that; and in every state but the
/// subscription, the end of the stream finishes the feed with one action.
pub proof fn law_stream_end_is_reported(st: FeedState, ev: FeedEvent, slug: Seq<char>)
    ensures
        ({
            let (next, acts) = feed_step_spec(FeedState::Streaming, ev, slug);
            &&& next == FeedState::Finished <==> (acts.len() > 0 && acts.last()
                == ActionView::Disconnected("WS stream ended"@))
            &&& next != FeedState::Finished ==> next == FeedState::Streaming
        }),
        feed_step_spec(FeedState::Streaming, FeedEvent::StreamEnd, slug) == (
            FeedState::Finished,
            seq![ActionView::Disconnected("WS stream ended"@)],
        ),
        ev is StreamEnd && st != FeedState::Subscribing ==> feed_step_spec(st, ev, slug).0
            == FeedState::Finished && (st != FeedState::Finished ==> feed_step_spec(
            st,
            ev,
            slug,
        ).1.len() == 1),
{
}

} // verus!
