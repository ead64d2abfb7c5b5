//! The multiplexing broker: one Steam connection, any number of clients.
//!
//! The broker is a state machine. The program around it owns the sockets and
//! the queues; it tells the broker what happened on a connection and carries
//! out the reaction that the broker answers with.

use std::collections::HashMap;
use vstd::prelude::*;
use crate::config::{strings_view, AuthConfig, AuthConfigView};
use crate::inject::{DebuggerUrlError, InjectError};
use crate::laws::{forward_keeps_well_formed, step_keeps_ids_fresh, step_keeps_well_formed};
use crate::json::{fields_view, find, json_document, json_string, lookup, members_view};
use crate::json::{object_json, object_text};
use crate::json::{parse_object, quote, DocumentView, Member, MemberView};
use crate::message::{request_in, request_view, RpcRequest, RpcRequestView};
use crate::text::{decimal, decimal_digits, starts_with, str_eq};

verus! {

/// Names one connection. The program around the broker hands the numbers
/// out, a fresh one for each connection it accepts, and finds the
/// connection's outbound queue by it.
pub type ConnId = u64;

/// Where a connection stands.
#[derive(Clone, Copy, Debug, PartialEq, Eq, Structural)]
pub enum Phase {
    /// Accepted; its first frame decides what it is.
    AwaitHello,
    /// The connection of the injected payload.
    Steam,
    /// A client whose first request was forwarded.
    Client,
    /// Done; nothing more is read from it.
    Closed,
}

/// Why the broker answers a client's first request with an error.
#[derive(Clone, Copy, Debug, PartialEq, Eq, Structural)]
pub enum Refusal {
    InvalidMessage,
    NotConnected,
    SecretRequired,
    WrongSecret,
}

/// Why nothing is sent in reaction to an input: what the log should say.
#[derive(Clone, Copy, Debug, PartialEq, Eq, Structural)]
pub enum Cause {
    /// A frame that is not text.
    NotText,
    /// A client frame that is no request.
    InvalidRequest,
    /// A Steam frame that is no JSON object.
    NotAnObject,
    /// A Steam reply without a numeric `messageId`.
    NoMessageId,
    /// A Steam reply under an id that no client has a request out under;
    /// the id is the number as the reply gives it.
    NoClient(u64),
    /// The Steam queue did not take a forwarded request.
    SteamLost,
    /// The connection is closed.
    ConnectionClosed,
}

/// What happened on a connection.
#[derive(Debug, PartialEq, Eq)]
pub enum Input {
    /// A text frame arrived.
    Frame(String),
    /// A frame arrived that does not decode to text.
    NotText,
    /// The socket failed or reached its end.
    Closed,
    /// The request that was last forwarded for this connection could not be
    /// put on the Steam queue.
    SteamQueueFailed,
}

/// What the program around the broker has to do.
#[derive(Debug, PartialEq, Eq)]
pub enum Reaction {
    /// This connection is Steam now: fire the init signal and send the text
    /// `Ready` on its socket.
    Ready,
    /// Put `text` on the outbound queue of the Steam connection `to`.
    Forward { to: ConnId, seq: u32, text: String },
    /// Put `text` on the outbound queue of the client connection `to`.
    Deliver { to: ConnId, text: String },
    /// Send the error reply on this connection's socket.
    Refuse(Refusal),
    /// Fire the exit signal with `true`.
    Terminate,
    /// Steam is gone: start the reconnect task.
    Reconnect,
    /// Send nothing, and log the cause.
    Dropped(Cause),
}

pub enum InputView {
    Frame(Seq<char>),
    NotText,
    Closed,
    SteamQueueFailed,
}

pub enum ReactionView {
    Ready,
    Forward { to: ConnId, seq: u32, text: Seq<char> },
    Deliver { to: ConnId, text: Seq<char> },
    Refuse(Refusal),
    Terminate,
    Reconnect,
    Dropped(Cause),
}

impl View for Input {
    type V = InputView;

    open spec fn view(&self) -> InputView {
        match self {
            Input::Frame(text) => InputView::Frame(text@),
            Input::NotText => InputView::NotText,
            Input::Closed => InputView::Closed,
            Input::SteamQueueFailed => InputView::SteamQueueFailed,
        }
    }
}

impl View for Reaction {
    type V = ReactionView;

    open spec fn view(&self) -> ReactionView {
        match self {
            Reaction::Ready => ReactionView::Ready,
            Reaction::Forward { to, seq, text } => ReactionView::Forward {
                to: *to,
                seq: *seq,
                text: text@,
            },
            Reaction::Deliver { to, text } => ReactionView::Deliver { to: *to, text: text@ },
            Reaction::Refuse(refusal) => ReactionView::Refuse(*refusal),
            Reaction::Terminate => ReactionView::Terminate,
            Reaction::Reconnect => ReactionView::Reconnect,
            Reaction::Dropped(cause) => ReactionView::Dropped(*cause),
        }
    }
}

/// The text that tells the payload that its connection is taken for Steam's.
pub fn ready_frame() -> (r: &'static str)
    ensures
        r@ == "Ready"@,
{
    "Ready"
}

impl Refusal {
    /// The error text that the client is told.
    pub open spec fn message_spec(self) -> Seq<char> {
        match self {
            Refusal::InvalidMessage => "Message is not valid"@,
            Refusal::NotConnected => "Not connected to Steam"@,
            Refusal::SecretRequired => "A secret is required"@,
            Refusal::WrongSecret => "Wrong secret! Are you a hacker?"@,
        }
    }

    /// The error reply as JSON text.
    pub open spec fn reply_spec(self) -> Seq<char> {
        "{\"success\":false,\"error\":\""@ + self.message_spec() + "\"}"@
    }

    pub fn message(&self) -> (r: &'static str)
        ensures
            r@ == self.message_spec(),
    {
        match self {
            Refusal::InvalidMessage => "Message is not valid",
            Refusal::NotConnected => "Not connected to Steam",
            Refusal::SecretRequired => "A secret is required",
            Refusal::WrongSecret => "Wrong secret! Are you a hacker?",
        }
    }

    /// The error reply to send: `success` false and the error text.
    pub fn reply(&self) -> (r: String)
        ensures
            r@ == self.reply_spec(),
    {
        let mut r = "{\"success\":false,\"error\":\"".to_owned();
        r.append(self.message());
        r.append("\"}");
        r
    }
}

/// One request that the broker forwarded: the id it gave the request, the
/// connection the request came from, and the id the client had given it.
pub struct Forwarded {
    pub seq: u32,
    pub conn: ConnId,
    pub client_id: Option<u32>,
}

/// The broker's state as the contracts see it.
#[verifier::ext_equal]
pub struct BrokerView {
    /// Whether Steam is taken to be there.
    pub steam_connected: bool,
    /// The Steam connection, whose queue forwarded requests go to.
    pub steam_outbound: Option<ConnId>,
    /// The id that the next forwarded request gets.
    pub next_message_id: u32,
    /// For each id given out, the client connection that the reply goes to.
    pub client_by_seq: Map<u32, ConnId>,
    /// For each id given out to a request that had an id, the client's id.
    pub client_id_by_seq: Map<u32, u32>,
    pub steam_secret: Seq<char>,
    pub auth_enabled: bool,
    pub client_secrets: Option<Seq<Seq<char>>>,
    pub payload_text: Seq<char>,
    /// Every request forwarded so far, oldest first.
    pub forwarded: Seq<Forwarded>,
}

/// The id after `seq`; after the largest comes 0 again.
pub open spec fn next_seq(seq: u32) -> u32 {
    if seq == u32::MAX {
        0
    } else {
        (seq + 1) as u32
    }
}

/// The members of a Steam reply that are passed on, each as the string
/// literal of its key and the text of its value: all but `messageId`.
pub open spec fn passed_on(members: Seq<MemberView>) -> Seq<(Seq<char>, Seq<char>)>
    decreases members.len(),
{
    if members.len() == 0 {
        Seq::empty()
    } else if members.last().key == "messageId"@ {
        passed_on(members.drop_last())
    } else {
        passed_on(members.drop_last()).push(
            (json_string(members.last().key), members.last().value.text),
        )
    }
}

/// The members of the reply that a client gets: those of Steam's reply
/// without its `messageId`, and after them the client's own id, where the
/// client had given one.
pub open spec fn reply_fields(members: Seq<MemberView>, client_id: Option<u32>) -> Seq<
    (Seq<char>, Seq<char>),
> {
    match client_id {
        Some(id) => passed_on(members).push(("\"messageId\""@, decimal_digits(id as nat))),
        None => passed_on(members),
    }
}

/// The number that a Steam reply gives as its `messageId`, if it gives one.
pub open spec fn reply_number(members: Seq<MemberView>) -> Option<u64> {
    match lookup(members, "messageId"@) {
        Some(item) => item.number,
        None => None,
    }
}

/// The broker-assigned id that a Steam reply answers, if it answers one: its
/// numeric `messageId`, where that is an id, which is a number of 32 bits.
pub open spec fn reply_seq(members: Seq<MemberView>) -> Option<u32> {
    match reply_number(members) {
        Some(n) => if n <= u32::MAX {
            Some(n as u32)
        } else {
            None
        },
        None => None,
    }
}

impl BrokerView {
    /// A broker that has served nothing yet.
    pub open spec fn initial(
        steam_secret: Seq<char>,
        auth: Option<AuthConfigView>,
        payload_text: Seq<char>,
    ) -> BrokerView {
        BrokerView {
            steam_connected: false,
            steam_outbound: None,
            next_message_id: 0,
            client_by_seq: Map::empty(),
            client_id_by_seq: Map::empty(),
            steam_secret,
            auth_enabled: auth matches Some(a) && a.enabled,
            client_secrets: match auth {
                Some(a) => a.tokens,
                None => None,
            },
            payload_text,
            forwarded: Seq::empty(),
        }
    }

    /// What holds of the broker between any two inputs.
    pub open spec fn wf(self) -> bool {
        &&& self.steam_connected ==> self.steam_outbound is Some
        &&& forall|k: u32| #[trigger]
            self.client_id_by_seq.contains_key(k) ==> self.client_by_seq.contains_key(k)
        &&& forall|k: u32| #[trigger]
            self.client_by_seq.contains_key(k) ==> self.was_forwarded(k, self.client_by_seq[k])
    }

    /// Whether every id given out so far lies below the counter, as it does
    /// until the counter has given out the largest id and begins again.
    pub open spec fn ids_are_fresh(self) -> bool {
        forall|k: u32| #[trigger] self.client_by_seq.contains_key(k) ==> k < self.next_message_id
    }

    /// Whether a request from `conn` was forwarded under the id `seq`.
    pub open spec fn was_forwarded(self, seq: u32, conn: ConnId) -> bool {
        exists|i: int|
            0 <= i < self.forwarded.len() && #[trigger] self.forwarded[i].seq == seq
                && self.forwarded[i].conn == conn
    }

    /// Whether `secret` is one of the configured client secrets.
    pub open spec fn accepts(self, secret: Seq<char>) -> bool {
        self.client_secrets matches Some(tokens) && tokens.contains(secret)
    }

    /// Why a client's first request is not forwarded, if it is not.
    pub open spec fn refusal(self, request: RpcRequestView) -> Option<Refusal> {
        if self.steam_outbound is None {
            Some(Refusal::NotConnected)
        } else if self.auth_enabled && request.secret is None {
            Some(Refusal::SecretRequired)
        } else if self.auth_enabled && !self.accepts(request.secret->0) {
            Some(Refusal::WrongSecret)
        } else {
            None
        }
    }

    /// The request as it leaves for Steam: with Steam's secret and the next
    /// id in place of the client's.
    pub open spec fn rewritten(self, request: RpcRequestView) -> RpcRequestView {
        RpcRequestView {
            command: request.command,
            secret: Some(self.steam_secret),
            message_id: Some(self.next_message_id),
            args: request.args,
        }
    }

    /// The broker after it has forwarded `request` for `conn`.
    pub open spec fn after_forward(self, conn: ConnId, request: RpcRequestView) -> BrokerView {
        let seq = self.next_message_id;
        BrokerView {
            next_message_id: next_seq(seq),
            client_by_seq: self.client_by_seq.insert(seq, conn),
            client_id_by_seq: match request.message_id {
                Some(id) => self.client_id_by_seq.insert(seq, id),
                None => self.client_id_by_seq,
            },
            forwarded: self.forwarded.push(
                Forwarded { seq, conn, client_id: request.message_id },
            ),
            ..self
        }
    }

    /// The reaction that forwards `request`.
    pub open spec fn forwarding(self, request: RpcRequestView) -> ReactionView {
        ReactionView::Forward {
            to: self.steam_outbound->0,
            seq: self.next_message_id,
            text: self.rewritten(request).json(),
        }
    }

    /// The broker once `conn` has taken the Steam role.
    pub open spec fn claimed_by(self, conn: ConnId) -> BrokerView {
        BrokerView { steam_connected: true, steam_outbound: Some(conn), ..self }
    }

    /// The broker once Steam is presumed dead, its connection still open.
    pub open spec fn steam_lost(self) -> BrokerView {
        BrokerView { steam_connected: false, ..self }
    }

    /// The broker once the Steam connection is closed.
    pub open spec fn steam_closed(self) -> BrokerView {
        BrokerView { steam_connected: false, steam_outbound: None, ..self }
    }

    /// What follows the first frame of a client, given the request that the
    /// frame holds, if it holds one: the request is forwarded if Steam is
    /// there and the client's secret is in order; else the client is told why
    /// not, and its connection ends.
    pub open spec fn first_request(self, conn: ConnId, request: Option<RpcRequestView>) -> (
        BrokerView,
        Phase,
        ReactionView,
    ) {
        match request {
            None => (self, Phase::Closed, ReactionView::Refuse(Refusal::InvalidMessage)),
            Some(request) => match self.refusal(request) {
                Some(refusal) => (self, Phase::Closed, ReactionView::Refuse(refusal)),
                None => (
                    self.after_forward(conn, request),
                    Phase::Client,
                    self.forwarding(request),
                ),
            },
        }
    }

    /// The first frame of a connection: what becomes of the broker and of
    /// the connection, and the reaction. A frame that starts with `init:`
    /// while Steam is not connected makes the connection Steam. Any other
    /// frame is a client's, and has to be a request.
    pub open spec fn first_frame(self, conn: ConnId, text: Seq<char>) -> (
        BrokerView,
        Phase,
        ReactionView,
    ) {
        if !self.steam_connected && "init:"@.is_prefix_of(text) {
            (self.claimed_by(conn), Phase::Steam, ReactionView::Ready)
        } else {
            self.first_request(conn, request_in(text))
        }
    }

    /// What follows a later frame of a client, given the request that the
    /// frame holds, if it holds one. Without Steam the client is told so;
    /// a frame that is no request is dropped; a request is forwarded.
    pub open spec fn client_request(self, conn: ConnId, request: Option<RpcRequestView>) -> (
        BrokerView,
        ReactionView,
    ) {
        if self.steam_outbound is None {
            (self, ReactionView::Refuse(Refusal::NotConnected))
        } else {
            match request {
                None => (self, ReactionView::Dropped(Cause::InvalidRequest)),
                Some(request) => (self.after_forward(conn, request), self.forwarding(request)),
            }
        }
    }

    /// A later frame of a client: what becomes of the broker, and the
    /// reaction.
    pub open spec fn client_frame(self, conn: ConnId, text: Seq<char>) -> (
        BrokerView,
        ReactionView,
    ) {
        self.client_request(conn, request_in(text))
    }

    /// One step of a connection: what becomes of the broker and of the
    /// connection when `input` happens on `conn`, and the reaction.
    pub open spec fn step(self, phase: Phase, conn: ConnId, input: InputView) -> (
        BrokerView,
        Phase,
        ReactionView,
    ) {
        match phase {
            Phase::Closed => (self, Phase::Closed, ReactionView::Dropped(Cause::ConnectionClosed)),
            Phase::AwaitHello => match input {
                InputView::Frame(text) => self.first_frame(conn, text),
                InputView::NotText => (self, Phase::Closed, ReactionView::Dropped(Cause::NotText)),
                InputView::Closed => (
                    self,
                    Phase::Closed,
                    ReactionView::Dropped(Cause::ConnectionClosed),
                ),
                InputView::SteamQueueFailed => (
                    self,
                    Phase::AwaitHello,
                    ReactionView::Dropped(Cause::SteamLost),
                ),
            },
            Phase::Steam => match input {
                InputView::Frame(text) => (self, Phase::Steam, self.steam_frame(text)),
                InputView::NotText => (self, Phase::Steam, ReactionView::Dropped(Cause::NotText)),
                InputView::Closed => (self.steam_closed(), Phase::Closed, ReactionView::Reconnect),
                InputView::SteamQueueFailed => (
                    self,
                    Phase::Steam,
                    ReactionView::Dropped(Cause::SteamLost),
                ),
            },
            Phase::Client => match input {
                InputView::Frame(text) => (
                    self.client_frame(conn, text).0,
                    Phase::Client,
                    self.client_frame(conn, text).1,
                ),
                InputView::NotText => (self, Phase::Client, ReactionView::Dropped(Cause::NotText)),
                InputView::Closed => (
                    self,
                    Phase::Closed,
                    ReactionView::Dropped(Cause::ConnectionClosed),
                ),
                InputView::SteamQueueFailed => (
                    self.steam_lost(),
                    Phase::Closed,
                    ReactionView::Dropped(Cause::SteamLost),
                ),
            },
        }
    }

    /// The reaction to a frame from Steam.
    pub open spec fn steam_frame(self, text: Seq<char>) -> ReactionView {
        if text == "Terminate"@ {
            ReactionView::Terminate
        } else {
            match json_document(text) {
                Some(DocumentView::Object(members)) => self.routed(members),
                _ => ReactionView::Dropped(Cause::NotAnObject),
            }
        }
    }

    /// The client's own id for the request that went out as `seq`.
    pub open spec fn client_id(self, seq: u32) -> Option<u32> {
        if self.client_id_by_seq.contains_key(seq) {
            Some(self.client_id_by_seq[seq])
        } else {
            None
        }
    }

    /// Where a reply of Steam goes, given its members: to the client whose
    /// request went out under the reply's number. A reply without a number,
    /// or with a number that no request went out under, goes nowhere.
    pub open spec fn routed(self, members: Seq<MemberView>) -> ReactionView {
        match reply_number(members) {
            None => ReactionView::Dropped(Cause::NoMessageId),
            Some(n) => match reply_seq(members) {
                Some(seq) => if self.client_by_seq.contains_key(seq) {
                    ReactionView::Deliver {
                        to: self.client_by_seq[seq],
                        text: object_text(reply_fields(members, self.client_id(seq))),
                    }
                } else {
                    ReactionView::Dropped(Cause::NoClient(n))
                },
                None => ReactionView::Dropped(Cause::NoClient(n)),
            },
        }
    }
}

/// The broker: what is known of Steam, the ids given out, and the settings.
pub struct BrokerContext {
    steam_connected: bool,
    steam_outbound: Option<ConnId>,
    next_message_id: u32,
    client_by_seq: HashMap<u32, ConnId>,
    client_id_by_seq: HashMap<u32, u32>,
    steam_secret: String,
    auth_enabled: bool,
    client_secrets: Option<Vec<String>>,
    payload_text: String,
    forwarded: Ghost<Seq<Forwarded>>,
}

impl View for BrokerContext {
    type V = BrokerView;

    closed spec fn view(&self) -> BrokerView {
        BrokerView {
            steam_connected: self.steam_connected,
            steam_outbound: self.steam_outbound,
            next_message_id: self.next_message_id,
            client_by_seq: self.client_by_seq@,
            client_id_by_seq: self.client_id_by_seq@,
            steam_secret: self.steam_secret@,
            auth_enabled: self.auth_enabled,
            client_secrets: match self.client_secrets {
                Some(tokens) => Some(strings_view(tokens@)),
                None => None,
            },
            payload_text: self.payload_text@,
            forwarded: self.forwarded@,
        }
    }
}

/// The view of settings that may be missing.
pub open spec fn auth_view(auth: Option<AuthConfig>) -> Option<AuthConfigView> {
    match auth {
        Some(a) => Some(a@),
        None => None,
    }
}

impl BrokerContext {
    /// A broker for the given settings, with no Steam and no ids given out.
    pub fn new(steam_secret: String, auth_cfg: Option<AuthConfig>, payload: String) -> (ctx:
        BrokerContext)
        ensures
            ctx@ == BrokerView::initial(steam_secret@, auth_view(auth_cfg), payload@),
            ctx@.wf(),
            ctx@.ids_are_fresh(),
    {
        let mut auth_enabled = false;
        let mut client_secrets: Option<Vec<String>> = None;
        match auth_cfg {
            Some(cfg) => {
                auth_enabled = cfg.enabled;
                client_secrets = cfg.tokens;
            },
            None => {},
        }
        BrokerContext {
            steam_connected: false,
            steam_outbound: None,
            next_message_id: 0,
            client_by_seq: HashMap::new(),
            client_id_by_seq: HashMap::new(),
            steam_secret,
            auth_enabled,
            client_secrets,
            payload_text: payload,
            forwarded: Ghost(Seq::empty()),
        }
    }

    /// Whether Steam is taken to be there.
    pub fn is_steam_connected(&self) -> (r: bool)
        ensures
            r == self@.steam_connected,
    {
        self.steam_connected
    }

    /// The Steam connection, while there is one.
    pub fn steam_outbound(&self) -> (r: Option<ConnId>)
        ensures
            r == self@.steam_outbound,
    {
        self.steam_outbound
    }

    /// The id that the next forwarded request gets.
    pub fn next_message_id(&self) -> (r: u32)
        ensures
            r == self@.next_message_id,
    {
        self.next_message_id
    }

    /// The client connection that a reply to the id `seq` goes to.
    pub fn client_by_seq(&self, seq: u32) -> (r: Option<ConnId>)
        ensures
            r == if self@.client_by_seq.contains_key(seq) {
                Some(self@.client_by_seq[seq])
            } else {
                None
            },
    {
        match self.client_by_seq.get(&seq) {
            Some(conn) => Some(*conn),
            None => None,
        }
    }

    /// The id that the client had given the request that went out as `seq`.
    pub fn client_id_by_seq(&self, seq: u32) -> (r: Option<u32>)
        ensures
            r == if self@.client_id_by_seq.contains_key(seq) {
                Some(self@.client_id_by_seq[seq])
            } else {
                None
            },
    {
        match self.client_id_by_seq.get(&seq) {
            Some(id) => Some(*id),
            None => None,
        }
    }

    /// The secret that requests carry to Steam.
    pub fn steam_secret(&self) -> (r: &str)
        ensures
            r@ == self@.steam_secret,
    {
        self.steam_secret.as_str()
    }

    /// The rendered payload, kept for injecting it again.
    pub fn payload_text(&self) -> (r: &str)
        ensures
            r@ == self@.payload_text,
    {
        self.payload_text.as_str()
    }

    /// Whether clients have to show a secret.
    pub fn auth_enabled(&self) -> (r: bool)
        ensures
            r == self@.auth_enabled,
    {
        self.auth_enabled
    }

    /// Whether `secret` is one of the configured client secrets.
    pub fn accepts(&self, secret: &str) -> (r: bool)
        ensures
            r == self@.accepts(secret@),
    {
        match &self.client_secrets {
            None => false,
            Some(tokens) => {
                let ghost all = strings_view(tokens@);
                let mut i: usize = 0;
                while i < tokens.len()
                    invariant
                        i <= tokens.len(),
                        all == strings_view(tokens@),
                        self@.client_secrets == Some(all),
                        forall|j: int| 0 <= j < i ==> all[j] != secret@,
                    decreases tokens.len() - i,
                {
                    if str_eq(tokens[i].as_str(), secret) {
                        assert(all[i as int] == secret@);
                        return true;
                    }
                    i = i + 1;
                }
                false
            },
        }
    }

    /// Why a client's first request is not forwarded, if it is not.
    pub fn refusal(&self, request: &RpcRequest) -> (r: Option<Refusal>)
        ensures
            r == self@.refusal(request@),
    {
        if self.steam_outbound.is_none() {
            return Some(Refusal::NotConnected);
        }
        if self.auth_enabled {
            match &request.secret {
                None => {
                    return Some(Refusal::SecretRequired);
                },
                Some(secret) => {
                    if !self.accepts(secret.as_str()) {
                        return Some(Refusal::WrongSecret);
                    }
                },
            }
        }
        None
    }

    /// Forwards a request for `conn`: gives it the next id, notes where the
    /// reply goes and which id the client had given, and puts Steam's secret
    /// and the new id in place of the client's.
    fn forward(&mut self, to: ConnId, conn: ConnId, request: RpcRequest) -> (r: Reaction)
        requires
            old(self)@.steam_outbound == Some(to),
        ensures
            final(self)@ == old(self)@.after_forward(conn, request@),
            r@ == old(self)@.forwarding(request@),
    {
        let seq = self.next_message_id;
        self.next_message_id = if seq == u32::MAX {
            0
        } else {
            seq + 1
        };
        match request.message_id {
            Some(id) => {
                self.client_id_by_seq.insert(seq, id);
            },
            None => {},
        }
        self.client_by_seq.insert(seq, conn);
        self.forwarded = Ghost(
            self.forwarded@.push(Forwarded { seq, conn, client_id: request.message_id }),
        );
        let outgoing = RpcRequest {
            command: request.command,
            secret: Some(self.steam_secret.clone()),
            message_id: Some(seq),
            args: request.args,
        };
        Reaction::Forward { to, seq, text: outgoing.to_json() }
    }
}

/// Writes the reply that a client gets from the members of Steam's reply.
fn reply_json(members: &Vec<Member>, client_id: Option<u32>) -> (r: String)
    ensures
        r@ == object_text(reply_fields(members_view(members@), client_id)),
{
    let ghost all = members_view(members@);
    let mut fields: Vec<(String, String)> = Vec::new();
    let mut i: usize = 0;
    assert(all.take(0) =~= Seq::empty());
    while i < members.len()
        invariant
            i <= members.len(),
            all == members_view(members@),
            fields_view(fields@) == passed_on(all.take(i as int)),
        decreases members.len() - i,
    {
        let ghost next = all.take(i + 1);
        assert(next.drop_last() =~= all.take(i as int));
        assert(next.last() == members@[i as int]@);
        if !str_eq(members[i].key.as_str(), "messageId") {
            let ghost before = fields@;
            let key = quote(members[i].key.as_str());
            let value = members[i].value.text.clone();
            fields.push((key, value));
            assert(fields_view(fields@) =~= fields_view(before).push(
                (json_string(members@[i as int].key@), members@[i as int].value.text@),
            ));
        }
        i = i + 1;
    }
    assert(all.take(i as int) =~= all);
    match client_id {
        Some(id) => {
            let ghost before = fields@;
            fields.push(("\"messageId\"".to_owned(), decimal(id as u64)));
            assert(fields_view(fields@) =~= fields_view(before).push(
                ("\"messageId\""@, decimal_digits(id as nat)),
            ));
        },
        None => {},
    }
    object_json(&fields)
}

/// Routes a reply of Steam, given as the members of its object: to the
/// client whose request went out under the reply's number, with the client's
/// own id in place of the broker's. A number that is no id of 32 bits was
/// given to no request, so the reply is dropped.
pub fn route_reply(ctx: &BrokerContext, members: &Vec<Member>) -> (r: Reaction)
    ensures
        r@ == ctx@.routed(members_view(members@)),
{
    let number: u64 = match find(members, "messageId") {
        Some(item) => match item.number {
            Some(n) => n,
            None => {
                return Reaction::Dropped(Cause::NoMessageId);
            },
        },
        None => {
            return Reaction::Dropped(Cause::NoMessageId);
        },
    };
    if number > 0xffff_ffff {
        return Reaction::Dropped(Cause::NoClient(number));
    }
    let seq: u32 = number as u32;
    let client_id: Option<u32> = match ctx.client_id_by_seq.get(&seq) {
        Some(id) => Some(*id),
        None => None,
    };
    match ctx.client_by_seq.get(&seq) {
        Some(conn) => Reaction::Deliver { to: *conn, text: reply_json(members, client_id) },
        None => Reaction::Dropped(Cause::NoClient(number)),
    }
}

/// Handles the first frame of a client, given the request that the frame
/// holds, if it holds one.
pub fn handle_first_request(
    ctx: &mut BrokerContext,
    conn: ConnId,
    request: Option<RpcRequest>,
) -> (r: (Phase, Reaction))
    ensures
        final(ctx)@ == old(ctx)@.first_request(conn, request_view(request)).0,
        r.0 == old(ctx)@.first_request(conn, request_view(request)).1,
        r.1@ == old(ctx)@.first_request(conn, request_view(request)).2,
        old(ctx)@.wf() ==> final(ctx)@.wf(),
{
    proof {
        if ctx@.wf() && request is Some {
            forward_keeps_well_formed(ctx@, conn, request->0@);
        }
    }
    let request = match request {
        Some(request) => request,
        None => {
            return (Phase::Closed, Reaction::Refuse(Refusal::InvalidMessage));
        },
    };
    match ctx.refusal(&request) {
        Some(refusal) => (Phase::Closed, Reaction::Refuse(refusal)),
        None => {
            let to = match ctx.steam_outbound {
                Some(to) => to,
                None => {
                    return (Phase::Closed, Reaction::Refuse(Refusal::NotConnected));
                },
            };
            (Phase::Client, ctx.forward(to, conn, request))
        },
    }
}

/// Handles the first frame of a connection, which decides what the
/// connection is: Steam, a client, or nothing.
pub fn handle_first_message(ctx: &mut BrokerContext, conn: ConnId, msg: &str) -> (r: (
    Phase,
    Reaction,
))
    ensures
        final(ctx)@ == old(ctx)@.first_frame(conn, msg@).0,
        r.0 == old(ctx)@.first_frame(conn, msg@).1,
        r.1@ == old(ctx)@.first_frame(conn, msg@).2,
        old(ctx)@.wf() ==> final(ctx)@.wf(),
{
    proof {
        if ctx@.wf() {
            step_keeps_well_formed(ctx@, Phase::AwaitHello, conn, InputView::Frame(msg@));
        }
    }
    if !ctx.steam_connected && starts_with(msg, "init:") {
        ctx.steam_connected = true;
        ctx.steam_outbound = Some(conn);
        return (Phase::Steam, Reaction::Ready);
    }
    handle_first_request(ctx, conn, RpcRequest::parse(msg))
}

/// Handles a later frame of a client, given the request that the frame
/// holds, if it holds one.
pub fn handle_client_request(
    ctx: &mut BrokerContext,
    conn: ConnId,
    request: Option<RpcRequest>,
) -> (r: Reaction)
    ensures
        final(ctx)@ == old(ctx)@.client_request(conn, request_view(request)).0,
        r@ == old(ctx)@.client_request(conn, request_view(request)).1,
        old(ctx)@.wf() ==> final(ctx)@.wf(),
{
    proof {
        if ctx@.wf() && request is Some {
            forward_keeps_well_formed(ctx@, conn, request->0@);
        }
    }
    let to = match ctx.steam_outbound {
        Some(to) => to,
        None => {
            return Reaction::Refuse(Refusal::NotConnected);
        },
    };
    match request {
        Some(request) => ctx.forward(to, conn, request),
        None => Reaction::Dropped(Cause::InvalidRequest),
    }
}

/// Handles a frame that a client sent after its first.
pub fn handle_client_message(ctx: &mut BrokerContext, conn: ConnId, msg: &str) -> (r: Reaction)
    ensures
        final(ctx)@ == old(ctx)@.client_frame(conn, msg@).0,
        r@ == old(ctx)@.client_frame(conn, msg@).1,
        old(ctx)@.wf() ==> final(ctx)@.wf(),
{
    proof {
        if ctx@.wf() {
            step_keeps_well_formed(ctx@, Phase::Client, conn, InputView::Frame(msg@));
        }
    }
    if ctx.steam_outbound.is_none() {
        return Reaction::Refuse(Refusal::NotConnected);
    }
    handle_client_request(ctx, conn, RpcRequest::parse(msg))
}

/// One step of a connection. `phase` is where the connection stands, and is
/// moved on; the result is what the program has to do. A connection whose
/// phase is `Closed` afterwards is to be shut.
pub fn handle_connection(
    ctx: &mut BrokerContext,
    phase: &mut Phase,
    conn: ConnId,
    input: Input,
) -> (r: Reaction)
    ensures
        final(ctx)@ == old(ctx)@.step(*old(phase), conn, input@).0,
        *final(phase) == old(ctx)@.step(*old(phase), conn, input@).1,
        r@ == old(ctx)@.step(*old(phase), conn, input@).2,
        old(ctx)@.wf() ==> final(ctx)@.wf(),
        old(ctx)@.wf() && old(ctx)@.ids_are_fresh() && old(ctx)@.next_message_id < u32::MAX
            ==> final(ctx)@.ids_are_fresh(),
{
    proof {
        if ctx@.wf() {
            step_keeps_well_formed(ctx@, *phase, conn, input@);
            if ctx@.ids_are_fresh() && ctx@.next_message_id < u32::MAX {
                step_keeps_ids_fresh(ctx@, *phase, conn, input@);
            }
        }
    }
    match *phase {
        Phase::Closed => Reaction::Dropped(Cause::ConnectionClosed),
        Phase::AwaitHello => match input {
            Input::Frame(text) => {
                if !ctx.steam_connected && starts_with(text.as_str(), "init:") {
                    ctx.steam_connected = true;
                    ctx.steam_outbound = Some(conn);
                    *phase = Phase::Steam;
                    Reaction::Ready
                } else {
                    let request = RpcRequest::parse(text.as_str());
                    let (next, reaction) = handle_first_request(ctx, conn, request);
                    *phase = next;
                    reaction
                }
            },
            Input::NotText => {
                *phase = Phase::Closed;
                Reaction::Dropped(Cause::NotText)
            },
            Input::Closed => {
                *phase = Phase::Closed;
                Reaction::Dropped(Cause::ConnectionClosed)
            },
            Input::SteamQueueFailed => Reaction::Dropped(Cause::SteamLost),
        },
        Phase::Steam => match input {
            Input::Frame(text) => if str_eq(text.as_str(), "Terminate") {
                Reaction::Terminate
            } else {
                match parse_object(text.as_str()) {
                    Some(members) => route_reply(ctx, &members),
                    None => Reaction::Dropped(Cause::NotAnObject),
                }
            },
            Input::NotText => Reaction::Dropped(Cause::NotText),
            Input::Closed => {
                ctx.steam_connected = false;
                ctx.steam_outbound = None;
                *phase = Phase::Closed;
                Reaction::Reconnect
            },
            Input::SteamQueueFailed => Reaction::Dropped(Cause::SteamLost),
        },
        Phase::Client => match input {
            Input::Frame(text) => if ctx.steam_outbound.is_none() {
                Reaction::Refuse(Refusal::NotConnected)
            } else {
                handle_client_request(ctx, conn, RpcRequest::parse(text.as_str()))
            },
            Input::NotText => Reaction::Dropped(Cause::NotText),
            Input::Closed => {
                *phase = Phase::Closed;
                Reaction::Dropped(Cause::ConnectionClosed)
            },
            Input::SteamQueueFailed => {
                ctx.steam_connected = false;
                *phase = Phase::Closed;
                Reaction::Dropped(Cause::SteamLost)
            },
        },
    }
}

/// Handles a frame that Steam sent after its first: `Terminate` ends the
/// program, a reply goes to the client that asked, anything else is dropped.
pub fn handle_steam_message(ctx: &BrokerContext, msg: &str) -> (r: Reaction)
    ensures
        r@ == ctx@.steam_frame(msg@),
{
    if str_eq(msg, "Terminate") {
        return Reaction::Terminate;
    }
    match parse_object(msg) {
        Some(members) => route_reply(ctx, &members),
        None => Reaction::Dropped(Cause::NotAnObject),
    }
}

/// How long the reconnect task waits before it looks for the debugger.
pub const RECONNECT_DELAY_MILLIS: u64 = 100;

/// How long the injected payload is given to connect.
pub const RECONNECT_SETTLE_MILLIS: u64 = 700;

/// How often the reconnect task asks for the debugger URL, and how often it
/// sends the payload.
pub const RECONNECT_TRIES: u32 = 5;

/// Where the reconnect task stands.
#[derive(Clone, Copy, Debug, PartialEq, Eq, Structural)]
pub enum ReconnectState {
    /// Not begun.
    Start,
    /// In its first pause.
    Waiting,
    /// Looking for the debugger URL.
    Discovering,
    /// Sending the payload.
    Injecting,
    /// Giving the payload time to connect.
    Settling,
    /// Over.
    Done,
}

/// What happened to the reconnect task.
#[derive(Debug, PartialEq, Eq)]
pub enum ReconnectEvent {
    /// The task was started.
    Begin,
    /// The pause is over.
    Elapsed,
    /// The search for the debugger URL has ended.
    Discovered(Result<String, DebuggerUrlError>),
    /// The injection has ended.
    Injected(Result<(), InjectError>),
}

/// What the reconnect task has to do next.
#[derive(Debug, PartialEq, Eq)]
pub enum ReconnectAction {
    /// Wait.
    Sleep { millis: u64 },
    /// Look for the debugger URL, with `max_tries` as the budget.
    Discover { max_tries: u32 },
    /// Send the payload to the debugger at `url`, at most `max_tries` times.
    Inject { url: String, payload: String, max_tries: u32 },
    /// Steam did not come back: fire the exit signal with `false`.
    GiveUp,
    /// Steam is back.
    Finished,
    /// The event does not belong to the state: do nothing.
    Ignore,
}

pub enum ReconnectEventView {
    Begin,
    Elapsed,
    Discovered(Result<Seq<char>, DebuggerUrlError>),
    Injected(Result<(), InjectError>),
}

pub enum ReconnectActionView {
    Sleep { millis: u64 },
    Discover { max_tries: u32 },
    Inject { url: Seq<char>, payload: Seq<char>, max_tries: u32 },
    GiveUp,
    Finished,
    Ignore,
}

impl View for ReconnectEvent {
    type V = ReconnectEventView;

    open spec fn view(&self) -> ReconnectEventView {
        match self {
            ReconnectEvent::Begin => ReconnectEventView::Begin,
            ReconnectEvent::Elapsed => ReconnectEventView::Elapsed,
            ReconnectEvent::Discovered(Ok(url)) => ReconnectEventView::Discovered(Ok(url@)),
            ReconnectEvent::Discovered(Err(e)) => ReconnectEventView::Discovered(Err(*e)),
            ReconnectEvent::Injected(result) => ReconnectEventView::Injected(*result),
        }
    }
}

impl View for ReconnectAction {
    type V = ReconnectActionView;

    open spec fn view(&self) -> ReconnectActionView {
        match self {
            ReconnectAction::Sleep { millis } => ReconnectActionView::Sleep { millis: *millis },
            ReconnectAction::Discover { max_tries } => ReconnectActionView::Discover {
                max_tries: *max_tries,
            },
            ReconnectAction::Inject { url, payload, max_tries } => ReconnectActionView::Inject {
                url: url@,
                payload: payload@,
                max_tries: *max_tries,
            },
            ReconnectAction::GiveUp => ReconnectActionView::GiveUp,
            ReconnectAction::Finished => ReconnectActionView::Finished,
            ReconnectAction::Ignore => ReconnectActionView::Ignore,
        }
    }
}

impl BrokerView {
    /// One step of the reconnect task: a short pause, the search for the
    /// debugger URL, the injection of the payload, a longer pause, and then
    /// the question whether Steam has connected. Whatever fails ends the
    /// task, and with it the program.
    pub open spec fn reconnect_step(self, state: ReconnectState, event: ReconnectEventView) -> (
        ReconnectState,
        ReconnectActionView,
    ) {
        match (state, event) {
            (ReconnectState::Start, ReconnectEventView::Begin) => (
                ReconnectState::Waiting,
                ReconnectActionView::Sleep { millis: RECONNECT_DELAY_MILLIS },
            ),
            (ReconnectState::Waiting, ReconnectEventView::Elapsed) => (
                ReconnectState::Discovering,
                ReconnectActionView::Discover { max_tries: RECONNECT_TRIES },
            ),
            (ReconnectState::Discovering, ReconnectEventView::Discovered(Ok(url))) => (
                ReconnectState::Injecting,
                ReconnectActionView::Inject {
                    url,
                    payload: self.payload_text,
                    max_tries: RECONNECT_TRIES,
                },
            ),
            (ReconnectState::Discovering, ReconnectEventView::Discovered(Err(_))) => (
                ReconnectState::Done,
                ReconnectActionView::GiveUp,
            ),
            (ReconnectState::Injecting, ReconnectEventView::Injected(Ok(_))) => (
                ReconnectState::Settling,
                ReconnectActionView::Sleep { millis: RECONNECT_SETTLE_MILLIS },
            ),
            (ReconnectState::Injecting, ReconnectEventView::Injected(Err(_))) => (
                ReconnectState::Done,
                ReconnectActionView::GiveUp,
            ),
            (ReconnectState::Settling, ReconnectEventView::Elapsed) => (
                ReconnectState::Done,
                if self.steam_connected {
                    ReconnectActionView::Finished
                } else {
                    ReconnectActionView::GiveUp
                },
            ),
            _ => (state, ReconnectActionView::Ignore),
        }
    }
}

/// One step of the task that brings Steam back after its connection was
/// lost: takes where the task stands and what happened, and answers with
/// where it stands then and what to do.
pub fn reconnect_to_steam(ctx: &BrokerContext, state: ReconnectState, event: ReconnectEvent) -> (r:
    (ReconnectState, ReconnectAction))
    ensures
        r.0 == ctx@.reconnect_step(state, event@).0,
        r.1@ == ctx@.reconnect_step(state, event@).1,
{
    match state {
        ReconnectState::Start => match event {
            ReconnectEvent::Begin => (
                ReconnectState::Waiting,
                ReconnectAction::Sleep { millis: RECONNECT_DELAY_MILLIS },
            ),
            _ => (state, ReconnectAction::Ignore),
        },
        ReconnectState::Waiting => match event {
            ReconnectEvent::Elapsed => (
                ReconnectState::Discovering,
                ReconnectAction::Discover { max_tries: RECONNECT_TRIES },
            ),
            _ => (state, ReconnectAction::Ignore),
        },
        ReconnectState::Discovering => match event {
            ReconnectEvent::Discovered(Ok(url)) => (
                ReconnectState::Injecting,
                ReconnectAction::Inject {
                    url,
                    payload: ctx.payload_text.clone(),
                    max_tries: RECONNECT_TRIES,
                },
            ),
            ReconnectEvent::Discovered(Err(_)) => (ReconnectState::Done, ReconnectAction::GiveUp),
            _ => (state, ReconnectAction::Ignore),
        },
        ReconnectState::Injecting => match event {
            ReconnectEvent::Injected(Ok(_)) => (
                ReconnectState::Settling,
                ReconnectAction::Sleep { millis: RECONNECT_SETTLE_MILLIS },
            ),
            ReconnectEvent::Injected(Err(_)) => (ReconnectState::Done, ReconnectAction::GiveUp),
            _ => (state, ReconnectAction::Ignore),
        },
        ReconnectState::Settling => match event {
            ReconnectEvent::Elapsed => (
                ReconnectState::Done,
                if ctx.steam_connected {
                    ReconnectAction::Finished
                } else {
                    ReconnectAction::GiveUp
                },
            ),
            _ => (state, ReconnectAction::Ignore),
        },
        ReconnectState::Done => (state, ReconnectAction::Ignore),
    }
}

} // verus!
