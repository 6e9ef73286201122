use vstd::prelude::*;

use crate::access::{address_views, admits, user_ip_allowed};
use crate::reply::{forbidden_reply, is_forbidden_reply, Reply};
use crate::server::{route_is, Endpoint, Method, Route};

verus! {

/// Settings of the WebSocket gateway: the client addresses it lets connect.
#[derive(Clone, Debug)]
pub struct WebSocketSettings {
    pub whitelisted_ips: Vec<String>,
}

impl Default for WebSocketSettings {
    /// No address is whitelisted.
    fn default() -> (s: Self)
        ensures
            s.whitelisted_ips@.len() == 0,
    {
        WebSocketSettings { whitelisted_ips: Vec::new() }
    }
}

impl WebSocketSettings {
    /// The whitelisted addresses, each taken as its characters.
    pub open spec fn whitelist(self) -> Seq<Seq<char>> {
        address_views(self.whitelisted_ips@)
    }

    /// The whitelist holds every configured address, in order: the address
    /// at each position is the configured one at that position.
    pub proof fn law_whitelist_is_every_address(self)
        ensures
            self.whitelist().len() == self.whitelisted_ips@.len(),
            forall|i: int| 0 <= i < self.whitelisted_ips@.len()
                ==> #[trigger] self.whitelist()[i] == self.whitelisted_ips@[i]@,
    {
    }

    /// The settings a gateway starts with: those it was given, or the default
    /// (an empty whitelist) when it was given none.
    pub fn or_default(settings: Option<WebSocketSettings>) -> (s: WebSocketSettings)
        ensures
            match settings {
                Some(given) => s == given,
                None => s.whitelisted_ips@.len() == 0,
            },
    {
        match settings {
            Some(given) => given,
            None => WebSocketSettings::default(),
        }
    }
}

/// What the WebSocket gateway does with a request to open a connection.
#[derive(Debug)]
pub enum UpgradeDecision {
    /// The request becomes a WebSocket connection.
    Upgrade,
    /// The request is answered with this reply and no connection is opened.
    Refuse(Reply),
}

/// The WebSocket gateway's decision on a connection request from the client
/// at `ip`: an admitted client gets its connection, any other client is
/// answered `403 Unauthorized access`.
pub fn upgrade_decision(settings: &WebSocketSettings, ip: &str, debug_build: bool) -> (d: UpgradeDecision)
    ensures
        (d is Upgrade) == admits(debug_build, ip@, settings.whitelist()),
        debug_build ==> d is Upgrade,
        !debug_build ==> (d is Upgrade <==> exists|i: int|
            0 <= i < settings.whitelisted_ips@.len() && #[trigger] settings.whitelisted_ips@[i]@ == ip@),
        d matches UpgradeDecision::Refuse(r) ==> is_forbidden_reply(r),
{
    let whitelisted_ips = settings.whitelisted_ips.clone();
    if !user_ip_allowed(ip, whitelisted_ips, debug_build) {
        return UpgradeDecision::Refuse(forbidden_reply());
    }
    UpgradeDecision::Upgrade
}

/// The routes of the WebSocket gateway: the home page on `GET /`, and
/// connections on `GET /ws` and `GET /websocket`.
pub fn routes() -> (r: Vec<Route>)
    ensures
        r@.len() == 3,
        route_is(r@[0], Method::Get, "/"@, Endpoint::Home),
        route_is(r@[1], Method::Get, "/ws"@, Endpoint::Upgrade),
        route_is(r@[2], Method::Get, "/websocket"@, Endpoint::Upgrade),
{
    let mut r: Vec<Route> = Vec::new();
    r.push(Route { method: Method::Get, path: String::from_str("/"), endpoint: Endpoint::Home });
    r.push(Route { method: Method::Get, path: String::from_str("/ws"), endpoint: Endpoint::Upgrade });
    r.push(Route { method: Method::Get, path: String::from_str("/websocket"), endpoint: Endpoint::Upgrade });
    r
}

/// What a connection receives next. A text or binary frame carries its
/// payload decoded as a gateway message: `Some` when the payload is one,
/// `None` when it is not.
#[derive(Debug)]
pub enum Frame<M> {
    Ping,
    Pong,
    Text(Option<M>),
    Binary(Option<M>),
    Close,
    /// The client's stream ended or failed.
    Ended,
}

/// What a connection does with what it received.
#[derive(Debug)]
pub enum FrameAction<M> {
    /// Nothing: pings and pongs are answered by the transport.
    Ignore,
    /// Hand the message upstream and read on.
    Forward(M),
    /// Drop a payload that is no gateway message and read on.
    Discard,
    /// Stop reading: the connection is over.
    Stop,
}

/// The action a connection takes on `frame`.
pub open spec fn action_on<M>(frame: Frame<M>) -> FrameAction<M> {
    match frame {
        Frame::Ping => FrameAction::Ignore,
        Frame::Pong => FrameAction::Ignore,
        Frame::Text(Some(m)) => FrameAction::Forward(m),
        Frame::Text(None) => FrameAction::Discard,
        Frame::Binary(Some(m)) => FrameAction::Forward(m),
        Frame::Binary(None) => FrameAction::Discard,
        Frame::Close => FrameAction::Stop,
        Frame::Ended => FrameAction::Stop,
    }
}

/// Decides what a connection does with the next thing it received: pings
/// and pongs are left alone, a payload that is a gateway message goes
/// upstream and one that is not is dropped, and a close or the end of the
/// stream stops the connection.
pub fn frame_action<M>(frame: Frame<M>) -> (a: FrameAction<M>)
    ensures
        a == action_on(frame),
{
    match frame {
        Frame::Ping => FrameAction::Ignore,
        Frame::Pong => FrameAction::Ignore,
        Frame::Text(decoded) => match decoded {
            Some(m) => FrameAction::Forward(m),
            None => FrameAction::Discard,
        },
        Frame::Binary(decoded) => match decoded {
            Some(m) => FrameAction::Forward(m),
            None => FrameAction::Discard,
        },
        Frame::Close => FrameAction::Stop,
        Frame::Ended => FrameAction::Stop,
    }
}

/// The messages a connection hands upstream, in order, when it receives
/// `frames` one after the other: it acts on each frame as `action_on` says
/// and reads no further once an action is `Stop`.
pub open spec fn forwarded<M>(frames: Seq<Frame<M>>) -> Seq<M>
    decreases frames.len(),
{
    if frames.len() == 0 {
        Seq::empty()
    } else {
        match action_on(frames[0]) {
            FrameAction::Stop => Seq::empty(),
            FrameAction::Forward(m) => seq![m] + forwarded(frames.drop_first()),
            _ => forwarded(frames.drop_first()),
        }
    }
}

/// Some frame of `frames` stops the connection.
pub open spec fn stops<M>(frames: Seq<Frame<M>>) -> bool {
    exists|i: int| 0 <= i < frames.len() && action_on(#[trigger] frames[i]) is Stop
}

/// A connection that receives `first` and then `second` hands upstream what
/// it hands upstream over `first`, followed, unless `first` stopped it, by
/// what it hands upstream over `second`.
pub proof fn law_forwarded_append<M>(first: Seq<Frame<M>>, second: Seq<Frame<M>>)
    ensures
        forwarded(first + second) == if stops(first) {
            forwarded(first)
        } else {
            forwarded(first) + forwarded(second)
        },
    decreases first.len(),
{
    if first.len() == 0 {
        assert(first + second =~= second);
        assert(forwarded(first) =~= Seq::<M>::empty());
        assert(!stops(first));
    } else {
        let rest = first.drop_first();
        assert((first + second).drop_first() =~= rest + second);
        assert((first + second)[0] == first[0]);
        law_forwarded_append(rest, second);
        if action_on(first[0]) is Stop {
            assert(stops(first));
        } else {
            assert(stops(first) == stops(rest)) by {
                if stops(first) {
                    let i = choose|i: int| 0 <= i < first.len() && action_on(#[trigger] first[i]) is Stop;
                    assert(i != 0);
                    assert(rest[i - 1] == first[i]);
                }
                if stops(rest) {
                    let i = choose|i: int| 0 <= i < rest.len() && action_on(#[trigger] rest[i]) is Stop;
                    assert(first[i + 1] == rest[i]);
                }
            }
            match action_on(first[0]) {
                FrameAction::Forward(m) => {
                    assert(seq![m] + (forwarded(rest) + forwarded(second))
                        =~= (seq![m] + forwarded(rest)) + forwarded(second));
                },
                _ => {},
            }
        }
    }
}

/// Once a close arrives or the stream ends, nothing more goes upstream:
/// whatever follows a stopping frame is never forwarded.
pub proof fn law_nothing_forwarded_after_stop<M>(before: Seq<Frame<M>>, stop: Frame<M>, after: Seq<Frame<M>>)
    requires
        action_on(stop) is Stop,
    ensures
        forwarded(before + seq![stop] + after) == forwarded(before),
{
    law_forwarded_append(before + seq![stop], after);
    law_forwarded_append(before, seq![stop]);
    assert((before + seq![stop])[before.len() as int] == stop);
    assert(stops(before + seq![stop]));
    assert(forwarded(seq![stop]) =~= Seq::<M>::empty()) by {
        assert(seq![stop][0] == stop);
    }
    assert(forwarded(before) + Seq::<M>::empty() =~= forwarded(before));
}

/// Pings, pongs and payloads that are no gateway message neither end the
/// connection nor change what goes upstream: the connection reads on as if
/// they had not come.
pub proof fn law_skipped_frames_change_nothing<M>(before: Seq<Frame<M>>, skipped: Frame<M>, after: Seq<Frame<M>>)
    requires
        action_on(skipped) is Ignore || action_on(skipped) is Discard,
    ensures
        forwarded(before + seq![skipped] + after) == forwarded(before + after),
{
    law_forwarded_append(before + seq![skipped], after);
    law_forwarded_append(before, seq![skipped]);
    law_forwarded_append(before, after);
    let one = seq![skipped];
    assert(one[0] == skipped);
    assert(!stops(one));
    assert(forwarded(one) =~= Seq::<M>::empty()) by {
        assert(one.drop_first() =~= Seq::<Frame<M>>::empty());
        assert(forwarded(one.drop_first()) =~= Seq::<M>::empty());
    }
    assert(stops(before + one) == stops(before)) by {
        if stops(before + one) {
            let i = choose|i: int| 0 <= i < (before + one).len() && action_on(#[trigger] (before + one)[i]) is Stop;
            if i < before.len() {
                assert(before[i] == (before + one)[i]);
            }
        }
        if stops(before) {
            let i = choose|i: int| 0 <= i < before.len() && action_on(#[trigger] before[i]) is Stop;
            assert((before + one)[i] == before[i]);
        }
    }
    assert(forwarded(before) + Seq::<M>::empty() =~= forwarded(before));
}

/// A message is handled alike whether it came in a text or a binary frame.
pub proof fn law_text_and_binary_alike<M>(before: Seq<Frame<M>>, decoded: Option<M>, after: Seq<Frame<M>>)
    ensures
        forwarded(before + seq![Frame::Text(decoded)] + after)
            == forwarded(before + seq![Frame::Binary(decoded)] + after),
{
    let t = seq![Frame::Text(decoded)];
    let b = seq![Frame::Binary(decoded)];
    law_forwarded_append(before + t, after);
    law_forwarded_append(before + b, after);
    law_forwarded_append(before, t);
    law_forwarded_append(before, b);
    assert(t[0] == Frame::Text(decoded));
    assert(b[0] == Frame::Binary(decoded));
    assert(t.drop_first() =~= b.drop_first());
    assert(!stops(t));
    assert(!stops(b));
    assert(forwarded(t) == forwarded(b));
    assert(stops(before + t) == stops(before + b)) by {
        assert forall|i: int| 0 <= i < (before + t).len() implies
            (action_on(#[trigger] (before + t)[i]) is Stop) == (action_on((before + b)[i]) is Stop) by {
            if i < before.len() {
                assert((before + t)[i] == before[i]);
                assert((before + b)[i] == before[i]);
            }
        }
        if stops(before + t) {
            let i = choose|i: int| 0 <= i < (before + t).len() && action_on(#[trigger] (before + t)[i]) is Stop;
            assert(action_on((before + b)[i]) is Stop);
        }
        if stops(before + b) {
            let i = choose|i: int| 0 <= i < (before + b).len() && action_on(#[trigger] (before + b)[i]) is Stop;
            assert(action_on((before + t)[i]) is Stop);
        }
    }
}

/// A connection hands upstream at most one message per frame it received.
pub proof fn law_at_most_one_message_per_frame<M>(frames: Seq<Frame<M>>)
    ensures
        forwarded(frames).len() <= frames.len(),
    decreases frames.len(),
{
    if frames.len() > 0 {
        law_at_most_one_message_per_frame(frames.drop_first());
    }
}

} // verus!
