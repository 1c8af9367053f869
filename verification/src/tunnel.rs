//! The tunnel sender: one persistent relay connection multiplexing
//! JSON control messages and binary audio frames.
//!
//! The connection lifecycle — authenticate, connect, run, reconnect
//! with a single fast retry before backing off — is a state machine
//! whose transitions are pure; the surrounding tasks perform the
//! actions it asks for.  Outbound messages gather in an explicit queue
//! that a single writer drains; frames of aborted requests are dropped
//! at the queue's mouth, never written to the wire.

use vstd::prelude::*;
use tokio_util::sync::CancellationToken;
use crate::cancel::{cancel_token, clone_token, new_token};

verus! {

/// A close was refused.
#[derive(Debug)]
pub enum CloseError {
    Unknown(String),
}

/// Bytes could not be queued for the relay.
#[derive(Debug)]
pub enum SendBytesError {
    Unknown(String),
}

/// A message could not be queued for the relay.
#[derive(Debug)]
pub enum SendMessageError {
    Unknown(String),
}

/// A proxied tunnel request was refused.
#[derive(Debug)]
pub enum TunnelRequestError {
    InvalidQuery(String),
    BadRequest(String),
    UnsupportedMethod,
    WebsocketSend(String),
}

/// The HTTP method a tunnelled request asks for.
#[derive(Clone, Copy, Debug, PartialEq, Eq, Structural)]
pub enum Method {
    Get,
    Post,
    Head,
    Put,
    Patch,
    Delete,
}

/// How payloads ride the tunnel: raw binary frames, or text envelopes.
#[derive(Clone, Copy, Debug, PartialEq, Eq, Structural)]
pub enum TunnelEncoding {
    Binary,
    Base64,
}

/// One message read off the relay socket.
#[derive(Debug)]
pub enum TunnelMessage {
    Text(String),
    Binary(Vec<u8>),
    Ping(Vec<u8>),
    Pong(Vec<u8>),
    Close,
    Frame(Vec<u8>),
}

/// The body of an outbound relay message.
#[derive(Debug)]
pub enum WirePayload {
    Text(String),
    Binary(Vec<u8>),
}

/// One framed chunk bound for a specific pending tunnel request.
#[derive(Debug)]
pub struct TunnelResponsePacket {
    pub request_id: u64,
    pub packet_id: u32,
    pub message: WirePayload,
}

/// A control or broadcast message, with optional routing filters.
#[derive(Debug)]
pub struct TunnelResponseWs {
    pub message: WirePayload,
    pub exclude_connection_ids: Option<Vec<u64>>,
    pub to_connection_ids: Option<Vec<u64>>,
}

/// One entry of the outbound relay queue.
#[derive(Debug)]
pub enum TunnelResponseMessage {
    Packet(TunnelResponsePacket),
    Ws(TunnelResponseWs),
}

/// The connection lifecycle's states.
#[derive(Clone, Copy, Debug, PartialEq, Eq, Structural)]
pub enum TunnelConnectionState {
    /// Fetching a signature token from the auth endpoint.
    Authenticating,
    /// Opening the relay socket; remembers whether the previous
    /// attempt was already an immediate retry.
    Connecting { just_retried: bool },
    /// Both socket loops running.
    Connected,
    /// Terminal: the sender-wide cancellation fired.
    Closed,
}

/// What the lifecycle observes.
#[derive(Clone, Copy, Debug, PartialEq, Eq, Structural)]
pub enum TunnelEvent {
    CancelRequested,
    TokenFetched,
    TokenFetchFailed,
    ConnectSucceeded,
    ConnectFailed,
    ConnectionClosed,
}

/// What the driver must do after a transition.
#[derive(Clone, Copy, Debug, PartialEq, Eq, Structural)]
pub enum TunnelStep {
    FetchToken,
    WaitThenFetchToken { wait_ms: u64 },
    Connect,
    WaitThenConnect { wait_ms: u64 },
    RunConnection,
    Stop,
}

/// The whole connection lifecycle in one transition function.
///
/// Cancellation wins everywhere and is terminal.  A failed token fetch
/// waits five seconds and tries again.  A lost or failed connection is
/// retried immediately exactly once; while that immediate retry is the
/// latest attempt, further failures wait five seconds first.  A
/// successful connection clears the fast-retry memory.
pub fn tunnel_transition(state: TunnelConnectionState, event: TunnelEvent) -> (r: (
    TunnelConnectionState,
    TunnelStep,
))
    ensures
        event is CancelRequested ==> r == (TunnelConnectionState::Closed, TunnelStep::Stop),
        state is Closed ==> r == (TunnelConnectionState::Closed, TunnelStep::Stop),
        !(event is CancelRequested) && !(state is Closed) ==> r == (match (state, event) {
            (TunnelConnectionState::Authenticating, TunnelEvent::TokenFetched) => (
                TunnelConnectionState::Connecting { just_retried: false },
                TunnelStep::Connect,
            ),
            (TunnelConnectionState::Authenticating, _) => (
                TunnelConnectionState::Authenticating,
                TunnelStep::WaitThenFetchToken { wait_ms: 5000 },
            ),
            (TunnelConnectionState::Connecting { just_retried }, TunnelEvent::ConnectSucceeded) => (
                TunnelConnectionState::Connected,
                TunnelStep::RunConnection,
            ),
            (TunnelConnectionState::Connecting { just_retried }, _) => if just_retried {
                (
                    TunnelConnectionState::Connecting { just_retried: true },
                    TunnelStep::WaitThenConnect { wait_ms: 5000 },
                )
            } else {
                (TunnelConnectionState::Connecting { just_retried: true }, TunnelStep::Connect)
            },
            (TunnelConnectionState::Connected, _) => (
                TunnelConnectionState::Connecting { just_retried: true },
                TunnelStep::Connect,
            ),
            (TunnelConnectionState::Closed, _) => (TunnelConnectionState::Closed, TunnelStep::Stop),
        }),
{
    if let TunnelEvent::CancelRequested = event {
        return (TunnelConnectionState::Closed, TunnelStep::Stop);
    }
    match (state, event) {
        (TunnelConnectionState::Authenticating, TunnelEvent::TokenFetched) => (
            TunnelConnectionState::Connecting { just_retried: false },
            TunnelStep::Connect,
        ),
        (TunnelConnectionState::Authenticating, _) => (
            TunnelConnectionState::Authenticating,
            TunnelStep::WaitThenFetchToken { wait_ms: 5000 },
        ),
        (TunnelConnectionState::Connecting { just_retried }, TunnelEvent::ConnectSucceeded) => (
            TunnelConnectionState::Connected,
            TunnelStep::RunConnection,
        ),
        (TunnelConnectionState::Connecting { just_retried }, _) => if just_retried {
            (
                TunnelConnectionState::Connecting { just_retried: true },
                TunnelStep::WaitThenConnect { wait_ms: 5000 },
            )
        } else {
            (TunnelConnectionState::Connecting { just_retried: true }, TunnelStep::Connect)
        },
        (TunnelConnectionState::Connected, _) => (
            TunnelConnectionState::Connecting { just_retried: true },
            TunnelStep::Connect,
        ),
        (TunnelConnectionState::Closed, _) => (TunnelConnectionState::Closed, TunnelStep::Stop),
    }
}

/// A handle that can close the tunnel from outside.
pub struct TunnelSenderHandle {
    pub cancellation_token: CancellationToken,
}

impl TunnelSenderHandle {
    /// Signals the sender-wide cancellation: every loop observes it at
    /// its next check point.
    pub fn close(&self) -> (r: Result<(), CloseError>)
        ensures
            r is Ok,
    {
        cancel_token(&self.cancellation_token);
        Ok(())
    }
}

/// Manages the persistent relay connection: outbound multiplexing with
/// per-request aborts, and the lifecycle configuration.
pub struct TunnelSender {
    /// Opaque random handle, doubling as this sender's connection id.
    pub id: u64,
    pub host: String,
    pub url: String,
    pub client_id: String,
    pub access_token: String,
    /// Whether a connection currently accepts outbound messages.
    pub connected: bool,
    /// Outbound messages not yet written; one writer drains them.
    pub queue: Vec<TunnelResponseMessage>,
    /// Requests whose remaining frames must be dropped.
    pub aborted_requests: Vec<u64>,
    pub cancellation_token: CancellationToken,
}

/// Whether a request is marked aborted.
pub open spec fn spec_aborted(s: &TunnelSender, request_id: u64) -> bool {
    s.aborted_requests@.contains(request_id)
}

/// Whether the queue entry may go to the wire: packets of aborted
/// requests may not, everything else may.
pub open spec fn spec_forward(s: &TunnelSender, m: &TunnelResponseMessage) -> bool {
    match m {
        TunnelResponseMessage::Packet(p) => !spec_aborted(s, p.request_id),
        TunnelResponseMessage::Ws(_) => true,
    }
}

impl TunnelSender {
    /// A sender for one relay, with its closing handle.
    pub fn new(host: String, url: String, client_id: String, access_token: String) -> (r: (
        TunnelSender,
        TunnelSenderHandle,
    ))
        ensures
            r.0.host@ == host@,
            r.0.url@ == url@,
            r.0.client_id@ == client_id@,
            r.0.access_token@ == access_token@,
            !r.0.connected,
            r.0.queue@.len() == 0,
            r.0.aborted_requests@.len() == 0,
    {
        let cancellation_token = new_token();
        let handle = TunnelSenderHandle { cancellation_token: clone_token(&cancellation_token) };
        (
            TunnelSender {
                id: crate::random::random_u64(),
                host,
                url,
                client_id,
                access_token,
                connected: false,
                queue: Vec::new(),
                aborted_requests: Vec::new(),
                cancellation_token,
            },
            handle,
        )
    }

    /// Records that a connection is (or no longer is) accepting
    /// outbound messages.
    pub fn set_connected(&mut self, connected: bool)
        ensures
            *final(self) == (TunnelSender { connected, ..*old(self) }),
    {
        self.connected = connected;
    }

    /// Whether a request is marked aborted.  Consulted before every
    /// frame is built and before every frame is written.
    pub fn is_request_aborted(&self, request_id: u64) -> (r: bool)
        ensures
            r == spec_aborted(self, request_id),
    {
        let mut i: usize = 0;
        while i < self.aborted_requests.len()
            invariant
                0 <= i <= self.aborted_requests@.len(),
                forall|j: int| 0 <= j < i ==> self.aborted_requests@[j] != request_id,
            decreases self.aborted_requests@.len() - i,
        {
            if self.aborted_requests[i] == request_id {
                return true;
            }
            i = i + 1;
        }
        false
    }

    /// Marks a request aborted: none of its remaining frames will be
    /// written, and its stream loop stops at its next check.
    pub fn abort_request(&mut self, request_id: u64)
        ensures
            final(self).aborted_requests@ == old(self).aborted_requests@.push(request_id),
            final(self).queue@ == old(self).queue@,
            final(self).connected == old(self).connected,
            spec_aborted(final(self), request_id),
    {
        self.aborted_requests.push(request_id);
        proof {
            assert(self.aborted_requests@[self.aborted_requests@.len() - 1] == request_id);
        }
    }

    /// Forgets a completed request's abort mark, so the registry does
    /// not grow without bound.
    pub fn complete_request(&mut self, request_id: u64)
        ensures
            final(self).aborted_requests@ == old(self).aborted_requests@.filter(
                keeps_other_request(request_id),
            ),
            final(self).queue@ == old(self).queue@,
            !spec_aborted(final(self), request_id),
    {
        let mut kept: Vec<u64> = Vec::new();
        let mut i: usize = 0;
        proof {
            reveal(Seq::filter);
            assert(old(self).aborted_requests@.take(0) =~= Seq::<u64>::empty());
        }
        while i < self.aborted_requests.len()
            invariant
                0 <= i <= self.aborted_requests@.len(),
                self.aborted_requests@ == old(self).aborted_requests@,
                self.queue@ == old(self).queue@,
                kept@ == old(self).aborted_requests@.take(i as int).filter(
                    keeps_other_request(request_id),
                ),
            decreases self.aborted_requests@.len() - i,
        {
            let v = self.aborted_requests[i];
            if v != request_id {
                kept.push(v);
            }
            proof {
                reveal(Seq::filter);
                let prefix = self.aborted_requests@.take(i as int + 1);
                assert(prefix.drop_last() =~= self.aborted_requests@.take(i as int));
                assert(prefix.last() == self.aborted_requests@[i as int]);
                assert(kept@ == prefix.filter(keeps_other_request(request_id)));
            }
            i = i + 1;
        }
        proof {
            assert(self.aborted_requests@.take(self.aborted_requests@.len() as int)
                =~= self.aborted_requests@);
        }
        self.aborted_requests = kept;
        proof {
            reveal(Seq::filter);
            if self.aborted_requests@.contains(request_id) {
                let j = choose|j: int|
                    0 <= j < self.aborted_requests@.len() && self.aborted_requests@[j]
                        == request_id;
                old(self).aborted_requests@.lemma_filter_pred(
                    keeps_other_request(request_id),
                    j,
                );
            }
        }
    }

    /// Queues one binary frame for a pending request.  Fails when no
    /// connection is accepting messages.
    pub fn send_bytes(&mut self, request_id: u64, packet_id: u32, bytes: Vec<u8>) -> (r: Result<
        (),
        SendBytesError,
    >)
        ensures
            old(self).connected ==> (r is Ok && final(self).queue@ == old(self).queue@.push(
                TunnelResponseMessage::Packet(
                    TunnelResponsePacket {
                        request_id,
                        packet_id,
                        message: WirePayload::Binary(bytes),
                    },
                ),
            )),
            !old(self).connected ==> (r is Err && *final(self) == *old(self)),
            final(self).aborted_requests@ == old(self).aborted_requests@,
            final(self).connected == old(self).connected,
    {
        if !self.connected {
            return Err(SendBytesError::Unknown("no outbound connection".to_owned()));
        }
        self.queue.push(
            TunnelResponseMessage::Packet(
                TunnelResponsePacket { request_id, packet_id, message: WirePayload::Binary(bytes) },
            ),
        );
        Ok(())
    }

    /// Queues one text message for a pending request.  Fails when no
    /// connection is accepting messages.
    pub fn send_message(&mut self, request_id: u64, packet_id: u32, message: String) -> (r: Result<
        (),
        SendMessageError,
    >)
        ensures
            old(self).connected ==> (r is Ok && final(self).queue@ == old(self).queue@.push(
                TunnelResponseMessage::Packet(
                    TunnelResponsePacket {
                        request_id,
                        packet_id,
                        message: WirePayload::Text(message),
                    },
                ),
            )),
            !old(self).connected ==> (r is Err && *final(self) == *old(self)),
            final(self).aborted_requests@ == old(self).aborted_requests@,
            final(self).connected == old(self).connected,
    {
        if !self.connected {
            return Err(SendMessageError::Unknown("no outbound connection".to_owned()));
        }
        self.queue.push(
            TunnelResponseMessage::Packet(
                TunnelResponsePacket { request_id, packet_id, message: WirePayload::Text(message) },
            ),
        );
        Ok(())
    }

    /// Queues a control or broadcast message with routing filters.
    pub fn send_ws_message(&mut self, message: TunnelResponseWs)
        ensures
            final(self).queue@ == old(self).queue@.push(TunnelResponseMessage::Ws(message)),
            final(self).aborted_requests@ == old(self).aborted_requests@,
            final(self).connected == old(self).connected,
    {
        self.queue.push(TunnelResponseMessage::Ws(message));
    }

    /// Hands the writer everything that may go to the wire, in queue
    /// order: packets of aborted requests are dropped here and never
    /// reach the socket.  The queue is left empty.
    pub fn drain_outbound(&mut self) -> (r: Vec<TunnelResponseMessage>)
        ensures
            final(self).queue@.len() == 0,
            final(self).aborted_requests@ == old(self).aborted_requests@,
            final(self).connected == old(self).connected,
            r@ == old(self).queue@.filter(forwards(old(self).aborted_requests@)),
    {
        let mut pending: Vec<TunnelResponseMessage> = Vec::new();
        core::mem::swap(&mut pending, &mut self.queue);
        let ghost pending0 = pending@;
        let total = pending.len();
        let mut out: Vec<TunnelResponseMessage> = Vec::new();
        let mut taken: usize = 0;
        let ghost aborted = self.aborted_requests@;
        proof {
            reveal(Seq::filter);
            assert(pending0.take(0) =~= Seq::<TunnelResponseMessage>::empty());
        }
        while pending.len() > 0
            invariant
                0 <= taken <= pending0.len(),
                pending0.len() == total,
                pending@ == pending0.skip(taken as int),
                aborted == self.aborted_requests@,
                self.queue@.len() == 0,
                self.connected == old(self).connected,
                self.aborted_requests@ == old(self).aborted_requests@,
                out@ == pending0.take(taken as int).filter(forwards(aborted)),
            decreases pending@.len(),
        {
            let m = pending.remove(0);
            proof {
                assert(m == pending0[taken as int]);
                assert(pending0.skip(taken as int).remove(0) =~= pending0.skip(taken as int + 1));
            }
            let keep = match &m {
                TunnelResponseMessage::Packet(p) => !self.is_request_aborted(p.request_id),
                TunnelResponseMessage::Ws(_) => true,
            };
            if keep {
                out.push(m);
            }
            proof {
                reveal(Seq::filter);
                let prefix = pending0.take(taken as int + 1);
                assert(prefix.drop_last() =~= pending0.take(taken as int));
                assert(prefix.last() == pending0[taken as int]);
                assert(out@ == prefix.filter(forwards(aborted)));
            }
            proof {
                assert(taken < pending0.len());
            }
            taken = taken + 1;
        }
        proof {
            assert(pending0.skip(taken as int).len() == 0);
            assert(taken as int == pending0.len());
            assert(pending0.take(taken as int) =~= pending0);
        }
        out
    }
}

/// The text of a connection-id list: the identifiers in decimal,
/// comma-separated, between brackets.
pub open spec fn id_list_inner(ids: Seq<u64>) -> Seq<char>
    decreases ids.len(),
{
    if ids.len() == 0 {
        Seq::empty()
    } else if ids.len() == 1 {
        crate::num::dec_str(ids.last() as nat)
    } else {
        id_list_inner(ids.drop_last()) + seq![','] + crate::num::dec_str(ids.last() as nat)
    }
}

pub open spec fn id_list_text(ids: Seq<u64>) -> Seq<char> {
    seq!['['] + id_list_inner(ids) + seq![']']
}

/// Renders a connection-id list.
fn render_id_list(ids: &Vec<u64>) -> (r: String)
    ensures
        r@ == id_list_text(ids@),
{
    proof {
        reveal_strlit("[");
        reveal_strlit(",");
        reveal_strlit("]");
    }
    let mut out = String::new();
    out.append("[");
    let mut i: usize = 0;
    proof {
        assert(ids@.take(0) =~= Seq::<u64>::empty());
        assert(out@ =~= seq!['['] + id_list_inner(ids@.take(0)));
    }
    while i < ids.len()
        invariant
            0 <= i <= ids@.len(),
            out@ == seq!['['] + id_list_inner(ids@.take(i as int)),
        decreases ids@.len() - i,
    {
        proof {
            reveal_strlit(",");
        }
        if i > 0 {
            out.append(",");
        }
        let n = crate::num::format_u64(ids[i]);
        out.append(n.as_str());
        proof {
            assert(ids@.take(i as int + 1).drop_last() =~= ids@.take(i as int));
            assert(ids@.take(i as int + 1).last() == ids@[i as int]);
            assert(out@ =~= seq!['['] + id_list_inner(ids@.take(i as int + 1)));
        }
        i = i + 1;
    }
    out.append("]");
    proof {
        reveal_strlit("]");
        assert(ids@.take(ids@.len() as int) =~= ids@);
        assert(out@ =~= id_list_text(ids@));
    }
    out
}

/// The relay control envelope, character by character: the request
/// identifier, the normalized body, and the optional routing-filter
/// lists, in the fields spec'd for the wire.
pub open spec fn ws_envelope_text(
    request_id: u64,
    body: Seq<char>,
    exclude: Option<Seq<u64>>,
    to: Option<Seq<u64>>,
) -> Seq<char> {
    "{\"request_id\":"@ + crate::num::dec_str(request_id as nat) + ",\"body\":"@ + body + (
    match exclude {
        Some(l) => ",\"exclude_connection_ids\":"@ + id_list_text(l),
        None => Seq::<char>::empty(),
    }) + (match to {
        Some(l) => ",\"to_connection_ids\":"@ + id_list_text(l),
        None => Seq::<char>::empty(),
    }) + "}"@
}

/// Builds the relay control envelope around a message body: the body
/// is first normalized through the JSON codec (and refused when it is
/// not JSON), then framed between the envelope's fields, which this
/// function spells out itself.
pub fn wrap_ws_envelope(
    request_id: u64,
    body: &str,
    exclude: &Option<Vec<u64>>,
    to: &Option<Vec<u64>>,
) -> (r: Option<String>)
    ensures
        match crate::json::json_normal_of(body@) {
            Some(bn) => r matches Some(s) && s@ == ws_envelope_text(
                request_id,
                bn,
                match exclude {
                    Some(v) => Some(v@),
                    None => None,
                },
                match to {
                    Some(v) => Some(v@),
                    None => None,
                },
            ),
            None => r is None,
        },
{
    proof {
        reveal_strlit("{\"request_id\":");
        reveal_strlit(",\"body\":");
        reveal_strlit(",\"exclude_connection_ids\":");
        reveal_strlit(",\"to_connection_ids\":");
        reveal_strlit("}");
    }
    let normal = match crate::json::normalize_json(body) {
        Some(n) => n,
        None => {
            return None;
        },
    };
    let mut out = String::new();
    out.append("{\"request_id\":");
    let rid_text = crate::num::format_u64(request_id);
    out.append(rid_text.as_str());
    out.append(",\"body\":");
    out.append(normal.as_str());
    if let Some(ids) = exclude {
        out.append(",\"exclude_connection_ids\":");
        let l = render_id_list(ids);
        out.append(l.as_str());
    }
    if let Some(ids) = to {
        out.append(",\"to_connection_ids\":");
        let l = render_id_list(ids);
        out.append(l.as_str());
    }
    out.append("}");
    proof {
        assert(out@ =~= ws_envelope_text(
            request_id,
            crate::json::json_normal_of(body@)->Some_0,
            match exclude {
                Some(v) => Some(v@),
                None => None,
            },
            match to {
                Some(v) => Some(v@),
                None => None,
            },
        ));
    }
    Some(out)
}

/// Renders one queue entry for the wire.  Packets pass through
/// untouched; a text control message is wrapped in the relay envelope
/// under request zero, and is dropped when its body is not JSON.
pub fn prepare_outbound_message(msg: TunnelResponseMessage) -> (r: Option<WirePayload>)
    ensures
        match msg {
            TunnelResponseMessage::Packet(p) => r == Some(p.message),
            TunnelResponseMessage::Ws(w) => match w.message {
                WirePayload::Text(t) => (match crate::json::json_normal_of(t@) {
                    Some(bn) => r matches Some(out) && out matches WirePayload::Text(s) && s@
                        == ws_envelope_text(
                        0,
                        bn,
                        match w.exclude_connection_ids {
                            Some(v) => Some(v@),
                            None => None,
                        },
                        match w.to_connection_ids {
                            Some(v) => Some(v@),
                            None => None,
                        },
                    ),
                    None => r is None,
                }),
                WirePayload::Binary(b) => r == Some(WirePayload::Binary(b)),
            },
        },
{
    match msg {
        TunnelResponseMessage::Packet(p) => Some(p.message),
        TunnelResponseMessage::Ws(w) => match w.message {
            WirePayload::Text(t) => {
                let wrapped = wrap_ws_envelope(
                    0,
                    t.as_str(),
                    &w.exclude_connection_ids,
                    &w.to_connection_ids,
                );
                match wrapped {
                    Some(s) => Some(WirePayload::Text(s)),
                    None => None,
                }
            },
            WirePayload::Binary(b) => Some(WirePayload::Binary(b)),
        },
    }
}

/// Whether a queue entry may go to the wire, given the aborted set.
pub open spec fn forwards(aborted: Seq<u64>) -> spec_fn(TunnelResponseMessage) -> bool {
    |m: TunnelResponseMessage|
        match m {
            TunnelResponseMessage::Packet(p) => !aborted.contains(p.request_id),
            TunnelResponseMessage::Ws(_) => true,
        }
}

/// Reading the byte stream behind a tunnelled request failed.
#[derive(Debug)]
pub enum ByteStreamError {
    Closed,
}

/// Keeps the abort marks of every other request.
pub open spec fn keeps_other_request(request_id: u64) -> spec_fn(u64) -> bool {
    |v: u64| v != request_id
}

} // verus!
