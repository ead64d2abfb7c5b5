//! Finding the debugger of Steam's browser and sending it what to evaluate.
//!
//! The requests and sockets belong to the program around this crate. Here is
//! what is sent, what is made of the answers, and when to try again.

use vstd::prelude::*;
use crate::json::{find, items_view, json_document, json_string, lookup, members_view};
use crate::json::{parse_array, parse_object, quote};
use crate::json::{DocumentView, ItemView, Member, MemberView};
use crate::text::{decimal, decimal_digits, str_eq};

verus! {

/// Where the list of the browser's tabs is asked for.
pub fn tabs_url() -> (r: &'static str)
    ensures
        r@ == "http://localhost:8080/json"@,
{
    "http://localhost:8080/json"
}

/// How long one request for the list of tabs may take, in milliseconds.
pub const REQUEST_TIMEOUT_MILLIS: u64 = 500;

/// How long to wait after a request for the list of tabs that found nothing.
pub const DISCOVER_PAUSE_MILLIS: u64 = 1000;

/// How long to wait after a send that the socket did not accept.
pub const SEND_PAUSE_MILLIS: u64 = 200;

/// Why no debugger URL was found.
#[derive(Clone, Copy, Debug, PartialEq, Eq, Structural)]
pub enum DebuggerUrlError {
    CreateClientFailed,
    MaxRetriesReached,
}

/// Why nothing was sent to the debugger.
#[derive(Clone, Copy, Debug, PartialEq, Eq, Structural)]
pub enum InjectError {
    NotConnected,
    NotSent,
}

impl DebuggerUrlError {
    pub open spec fn message_spec(self) -> Seq<char> {
        match self {
            DebuggerUrlError::CreateClientFailed => "Failed to create HTTP client"@,
            DebuggerUrlError::MaxRetriesReached => "Max retries reached"@,
        }
    }

    /// The error as a line for the log.
    pub fn message(&self) -> (r: &'static str)
        ensures
            r@ == self.message_spec(),
    {
        match self {
            DebuggerUrlError::CreateClientFailed => "Failed to create HTTP client",
            DebuggerUrlError::MaxRetriesReached => "Max retries reached",
        }
    }
}

impl InjectError {
    pub open spec fn message_spec(self) -> Seq<char> {
        match self {
            InjectError::NotConnected => "Failed to connect with Steam client"@,
            InjectError::NotSent => "Failed to send payload"@,
        }
    }

    /// The error as a line for the log.
    pub fn message(&self) -> (r: &'static str)
        ensures
            r@ == self.message_spec(),
    {
        match self {
            InjectError::NotConnected => "Failed to connect with Steam client",
            InjectError::NotSent => "Failed to send payload",
        }
    }
}

/// One tab of the browser, as its list of tabs describes it.
#[derive(Debug, PartialEq, Eq)]
pub struct TabEntry {
    pub title: String,
    pub web_socket_debugger_url: String,
}

pub struct TabEntryView {
    pub title: Seq<char>,
    pub web_socket_debugger_url: Seq<char>,
}

impl View for TabEntry {
    type V = TabEntryView;

    open spec fn view(&self) -> TabEntryView {
        TabEntryView {
            title: self.title@,
            web_socket_debugger_url: self.web_socket_debugger_url@,
        }
    }
}

pub open spec fn tabs_view(tabs: Seq<TabEntry>) -> Seq<TabEntryView> {
    tabs.map_values(|t: TabEntry| t@)
}

/// The tab that an object's members describe, if they describe one: `title`
/// and `webSocketDebuggerUrl` are strings.
pub open spec fn tab_of(members: Seq<MemberView>) -> Option<TabEntryView> {
    let title = lookup(members, "title"@);
    let url = lookup(members, "webSocketDebuggerUrl"@);
    if title is Some && title->0.string is Some && url is Some && url->0.string is Some {
        Some(TabEntryView { title: title->0.string->0, web_socket_debugger_url: url->0.string->0 })
    } else {
        None
    }
}

/// The tab that a JSON text describes.
pub open spec fn tab_in(text: Seq<char>) -> Option<TabEntryView> {
    match json_document(text) {
        Some(DocumentView::Object(members)) => tab_of(members),
        _ => None,
    }
}

/// The tabs that the elements of an array describe: every element has to
/// describe one.
pub open spec fn tabs_of(items: Seq<ItemView>) -> Option<Seq<TabEntryView>>
    decreases items.len(),
{
    if items.len() == 0 {
        Some(Seq::empty())
    } else {
        match (tabs_of(items.drop_last()), tab_in(items.last().text)) {
            (Some(tabs), Some(tab)) => Some(tabs.push(tab)),
            _ => None,
        }
    }
}

/// The tabs that a list of tabs holds: it is a JSON array of tabs.
pub open spec fn tabs_in(text: Seq<char>) -> Option<Seq<TabEntryView>> {
    match json_document(text) {
        Some(DocumentView::Array(items)) => tabs_of(items),
        _ => None,
    }
}

/// The debugger URL of the first tab whose title is `SharedJSContext`.
pub open spec fn shared_context_url(tabs: Seq<TabEntryView>) -> Option<Seq<char>>
    decreases tabs.len(),
{
    if tabs.len() == 0 {
        None
    } else if tabs[0].title == "SharedJSContext"@ {
        Some(tabs[0].web_socket_debugger_url)
    } else {
        shared_context_url(tabs.drop_first())
    }
}

/// The debugger URL that an answer to the request for the list of tabs
/// gives: there is an answer, it is a list of tabs, and one of them is the
/// shared context.
pub open spec fn url_found(body: Option<Seq<char>>) -> Option<Seq<char>> {
    match body {
        Some(text) => match tabs_in(text) {
            Some(tabs) => shared_context_url(tabs),
            None => None,
        },
        None => None,
    }
}

/// The view of a string that may be missing.
pub open spec fn text_view(text: Option<String>) -> Option<Seq<char>> {
    match text {
        Some(s) => Some(s@),
        None => None,
    }
}

/// The view of a borrowed string that may be missing.
pub open spec fn str_view(text: Option<&str>) -> Option<Seq<char>> {
    match text {
        Some(s) => Some(s@),
        None => None,
    }
}

/// The view of a tab that may be missing.
pub open spec fn tab_view(tab: Option<TabEntry>) -> Option<TabEntryView> {
    match tab {
        Some(t) => Some(t@),
        None => None,
    }
}

impl TabEntry {
    /// Reads a tab from the members of a JSON object.
    pub fn from_members(members: &Vec<Member>) -> (r: Option<TabEntry>)
        ensures
            tab_view(r) == tab_of(members_view(members@)),
    {
        let title = match find(members, "title") {
            Some(item) => match &item.string {
                Some(title) => title.clone(),
                None => {
                    return None;
                },
            },
            None => {
                return None;
            },
        };
        let url = match find(members, "webSocketDebuggerUrl") {
            Some(item) => match &item.string {
                Some(url) => url.clone(),
                None => {
                    return None;
                },
            },
            None => {
                return None;
            },
        };
        Some(TabEntry { title, web_socket_debugger_url: url })
    }
}

/// Reads the list of tabs from the body of an answer.
pub fn parse_tabs(body: &str) -> (r: Option<Vec<TabEntry>>)
    ensures
        match r {
            Some(tabs) => tabs_in(body@) == Some(tabs_view(tabs@)),
            None => tabs_in(body@) is None,
        },
{
    let items = match parse_array(body) {
        Some(items) => items,
        None => {
            return None;
        },
    };
    let ghost all = items_view(items@);
    let mut tabs: Vec<TabEntry> = Vec::new();
    let mut i: usize = 0;
    assert(all.take(0) =~= Seq::empty());
    while i < items.len()
        invariant
            i <= items.len(),
            all == items_view(items@),
            json_document(body@) == Some(DocumentView::Array(all)),
            tabs_of(all.take(i as int)) == Some(tabs_view(tabs@)),
        decreases items.len() - i,
    {
        let ghost next = all.take(i + 1);
        assert(next.drop_last() =~= all.take(i as int));
        assert(next.last() == items@[i as int]@);
        let tab = match parse_object(items[i].text.as_str()) {
            Some(members) => TabEntry::from_members(&members),
            None => None,
        };
        match tab {
            Some(tab) => {
                let ghost before = tabs@;
                tabs.push(tab);
                assert(tabs_view(tabs@) =~= tabs_view(before).push(tab@));
            },
            None => {
                proof {
                    assert(tabs_of(next) is None);
                    if tabs_of(all) is Some {
                        lemma_tabs_need_every_prefix(all, i + 1);
                    }
                }
                return None;
            },
        }
        i = i + 1;
    }
    assert(all.take(i as int) =~= all);
    Some(tabs)
}

/// Where a list of elements describes tabs, each of its prefixes does.
proof fn lemma_tabs_need_every_prefix(items: Seq<ItemView>, n: int)
    requires
        0 <= n <= items.len(),
        tabs_of(items) is Some,
    ensures
        tabs_of(items.take(n)) is Some,
    decreases items.len(),
{
    if n == items.len() {
        assert(items.take(n) =~= items);
    } else {
        lemma_tabs_need_every_prefix(items.drop_last(), n);
        assert(items.drop_last().take(n) =~= items.take(n));
    }
}

/// Picks the debugger URL of the shared context from a list of tabs.
pub fn find_shared_context(tabs: &Vec<TabEntry>) -> (r: Option<String>)
    ensures
        text_view(r) == shared_context_url(tabs_view(tabs@)),
{
    let ghost all = tabs_view(tabs@);
    let mut i: usize = 0;
    assert(all.skip(0) =~= all);
    while i < tabs.len()
        invariant
            i <= tabs.len(),
            all == tabs_view(tabs@),
            shared_context_url(all) == shared_context_url(all.skip(i as int)),
        decreases tabs.len() - i,
    {
        let ghost rest = all.skip(i as int);
        assert(rest[0] == tabs@[i as int]@);
        assert(rest.drop_first() =~= all.skip(i + 1));
        if str_eq(tabs[i].title.as_str(), "SharedJSContext") {
            return Some(tabs[i].web_socket_debugger_url.clone());
        }
        i = i + 1;
    }
    assert(all.skip(i as int).len() == 0);
    None
}

/// Makes a debugger URL of the answer to a request for the list of tabs;
/// `None` stands for a request that failed.
pub fn find_url(body: Option<&str>) -> (r: Option<String>)
    ensures
        text_view(r) == url_found(str_view(body)),
{
    match body {
        Some(text) => match parse_tabs(text) {
            Some(tabs) => find_shared_context(&tabs),
            None => None,
        },
        None => None,
    }
}

/// What to do after an attempt to get the list of tabs.
#[derive(Debug, PartialEq, Eq)]
pub enum Discovery {
    /// The debugger URL is found.
    Found(String),
    /// Wait, then ask again with `tries_left` as what is left of the budget.
    Retry { pause_millis: u64, tries_left: Option<u32> },
    /// Wait, then fail with the error.
    GiveUp { pause_millis: u64, error: DebuggerUrlError },
}

pub enum DiscoveryView {
    Found(Seq<char>),
    Retry { pause_millis: u64, tries_left: Option<u32> },
    GiveUp { pause_millis: u64, error: DebuggerUrlError },
}

impl View for Discovery {
    type V = DiscoveryView;

    open spec fn view(&self) -> DiscoveryView {
        match self {
            Discovery::Found(url) => DiscoveryView::Found(url@),
            Discovery::Retry { pause_millis, tries_left } => DiscoveryView::Retry {
                pause_millis: *pause_millis,
                tries_left: *tries_left,
            },
            Discovery::GiveUp { pause_millis, error } => DiscoveryView::GiveUp {
                pause_millis: *pause_millis,
                error: *error,
            },
        }
    }
}

/// What follows an attempt that found `found`, with `tries_left` attempts
/// in the budget, this one included; no budget means no limit. An attempt
/// that finds nothing is followed by a pause, and by the next attempt while
/// the budget lasts.
pub open spec fn after_attempt(tries_left: Option<u32>, found: Option<Seq<char>>) -> DiscoveryView {
    match found {
        Some(url) => DiscoveryView::Found(url),
        None => match tries_left {
            None => DiscoveryView::Retry { pause_millis: DISCOVER_PAUSE_MILLIS, tries_left: None },
            Some(n) => if n <= 1 {
                DiscoveryView::GiveUp {
                    pause_millis: DISCOVER_PAUSE_MILLIS,
                    error: DebuggerUrlError::MaxRetriesReached,
                }
            } else {
                DiscoveryView::Retry {
                    pause_millis: DISCOVER_PAUSE_MILLIS,
                    tries_left: Some((n - 1) as u32),
                }
            },
        },
    }
}

/// Decides what follows an attempt, given what the attempt found.
pub fn next_attempt(tries_left: Option<u32>, found: Option<String>) -> (r: Discovery)
    ensures
        r@ == after_attempt(tries_left, text_view(found)),
{
    match found {
        Some(url) => Discovery::Found(url),
        None => match tries_left {
            None => Discovery::Retry { pause_millis: DISCOVER_PAUSE_MILLIS, tries_left: None },
            Some(n) => if n <= 1 {
                Discovery::GiveUp {
                    pause_millis: DISCOVER_PAUSE_MILLIS,
                    error: DebuggerUrlError::MaxRetriesReached,
                }
            } else {
                Discovery::Retry { pause_millis: DISCOVER_PAUSE_MILLIS, tries_left: Some(n - 1) }
            },
        },
    }
}

/// One round of the search for the debugger URL: takes the answer to the
/// request for the list of tabs (`None` for a request that failed) and says
/// whether the URL is found, or to try again, or to give up.
pub fn try_get_debugger_url(tries_left: Option<u32>, body: Option<&str>) -> (r: Discovery)
    ensures
        r@ == after_attempt(tries_left, url_found(str_view(body))),
{
    next_attempt(tries_left, find_url(body))
}

/// The frame that asks the debugger to evaluate an expression, which is
/// given as a JSON string literal.
pub open spec fn evaluate_text(id: u32, expression: Seq<char>) -> Seq<char> {
    "{\"id\":"@ + decimal_digits(id as nat)
        + ",\"method\":\"Runtime.evaluate\",\"params\":{\"expression\":"@ + expression
        + ",\"awaitPromise\":true}}"@
}

/// Puts the frame together from an expression that is a JSON string literal
/// already.
pub fn frame_evaluate(id: u32, expression: &str) -> (r: String)
    ensures
        r@ == evaluate_text(id, expression@),
{
    let mut r = "{\"id\":".to_owned();
    let digits = decimal(id as u64);
    r.append(digits.as_str());
    r.append(",\"method\":\"Runtime.evaluate\",\"params\":{\"expression\":");
    r.append(expression);
    r.append(",\"awaitPromise\":true}}");
    r
}

/// The frame that asks the debugger to evaluate `expression` and to wait
/// for what it promises.
pub fn evaluate(id: u32, expression: &str) -> (r: String)
    ensures
        r@ == evaluate_text(id, json_string(expression@)),
{
    let literal = quote(expression);
    frame_evaluate(id, literal.as_str())
}

/// The frame that asks for the secret of an instance that is already there.
pub fn probe_frame() -> (r: String)
    ensures
        r@ == evaluate_text(0, json_string("window.rpcSecret"@)),
{
    evaluate(0, "window.rpcSecret")
}

/// The frame that tells an instance that is already there to terminate.
pub fn kill_frame() -> (r: String)
    ensures
        r@ == evaluate_text(1, json_string("window.terminate()"@)),
{
    evaluate(1, "window.terminate()")
}

/// The frame that injects the payload.
pub fn inject_frame(payload: &str) -> (r: String)
    ensures
        r@ == evaluate_text(1, json_string(payload@)),
{
    evaluate(1, payload)
}

/// What the debugger says of `window.rpcSecret`: the type of the value, and
/// the value where it is a string; `None` for any other value and for none.
#[derive(Debug, PartialEq, Eq)]
pub struct ProbeReply {
    pub kind: String,
    pub value: Option<String>,
}

pub struct ProbeReplyView {
    pub kind: Seq<char>,
    pub value: Option<Seq<char>>,
}

impl View for ProbeReply {
    type V = ProbeReplyView;

    open spec fn view(&self) -> ProbeReplyView {
        ProbeReplyView { kind: self.kind@, value: text_view(self.value) }
    }
}

/// The view of a probe's reply that may be missing.
pub open spec fn probe_view(reply: Option<ProbeReply>) -> Option<ProbeReplyView> {
    match reply {
        Some(r) => Some(r@),
        None => None,
    }
}

/// The members of the object that a value is, if it is one.
pub open spec fn object_of(item: Option<ItemView>) -> Option<Seq<MemberView>> {
    match item {
        Some(i) => match json_document(i.text) {
            Some(DocumentView::Object(members)) => Some(members),
            _ => None,
        },
        None => None,
    }
}

/// The string that a member holds, if the member is there and holds one.
pub open spec fn string_of(item: Option<ItemView>) -> Option<Seq<char>> {
    match item {
        Some(i) => i.string,
        None => None,
    }
}

/// What an object's members say of the value: `type` is a string; `value`
/// counts where it is a string, and as no value where it is anything else.
pub open spec fn probe_of(members: Seq<MemberView>) -> Option<ProbeReplyView> {
    match string_of(lookup(members, "type"@)) {
        Some(kind) => Some(ProbeReplyView { kind, value: string_of(lookup(members, "value"@)) }),
        None => None,
    }
}

/// The members that describe the value in the debugger's reply: the reply
/// is an object whose `result` is an object whose `result` is the object
/// that describes the value.
pub open spec fn probe_members_in(text: Seq<char>) -> Option<Seq<MemberView>> {
    match json_document(text) {
        Some(DocumentView::Object(outer)) => match object_of(lookup(outer, "result"@)) {
            Some(inner) => object_of(lookup(inner, "result"@)),
            None => None,
        },
        _ => None,
    }
}

/// What the debugger's reply says of the value.
pub open spec fn probe_in(text: Seq<char>) -> Option<ProbeReplyView> {
    match probe_members_in(text) {
        Some(members) => probe_of(members),
        None => None,
    }
}

/// Whether a probe shows another instance: the type of the value is not
/// `undefined`, and the value is not this instance's own secret. A value
/// that is no string is not the secret. A probe without a reply shows none.
pub open spec fn another_instance(reply: Option<ProbeReplyView>, rpc_secret: Seq<char>) -> bool {
    match reply {
        Some(r) => r.kind != "undefined"@ && r.value != Some(rpc_secret),
        None => false,
    }
}

fn member_object(members: &Vec<Member>, key: &str) -> (r: Option<Vec<Member>>)
    ensures
        match r {
            Some(inner) => object_of(lookup(members_view(members@), key@)) == Some(
                members_view(inner@),
            ),
            None => object_of(lookup(members_view(members@), key@)) is None,
        },
{
    match find(members, key) {
        Some(item) => parse_object(item.text.as_str()),
        None => None,
    }
}

impl ProbeReply {
    /// Reads what is said of the value from the members of a JSON object.
    pub fn from_members(members: &Vec<Member>) -> (r: Option<ProbeReply>)
        ensures
            probe_view(r) == probe_of(members_view(members@)),
    {
        let kind = match find(members, "type") {
            Some(item) => match &item.string {
                Some(kind) => kind.clone(),
                None => {
                    return None;
                },
            },
            None => {
                return None;
            },
        };
        let value: Option<String> = match find(members, "value") {
            Some(item) => match &item.string {
                Some(s) => Some(s.clone()),
                None => None,
            },
            None => None,
        };
        Some(ProbeReply { kind, value })
    }

    /// Reads the debugger's reply to a probe.
    pub fn parse(text: &str) -> (r: Option<ProbeReply>)
        ensures
            probe_view(r) == probe_in(text@),
    {
        match probe_members(text) {
            Some(members) => ProbeReply::from_members(&members),
            None => None,
        }
    }

    /// Whether this reply shows another instance than the one whose secret
    /// is `rpc_secret`.
    pub fn shows_another_instance(&self, rpc_secret: &str) -> (r: bool)
        ensures
            r == another_instance(Some(self@), rpc_secret@),
    {
        if str_eq(self.kind.as_str(), "undefined") {
            return false;
        }
        match &self.value {
            Some(value) => !str_eq(value.as_str(), rpc_secret),
            None => true,
        }
    }
}

/// Finds the members that describe the value in the debugger's reply.
pub fn probe_members(text: &str) -> (r: Option<Vec<Member>>)
    ensures
        match r {
            Some(members) => probe_members_in(text@) == Some(members_view(members@)),
            None => probe_members_in(text@) is None,
        },
{
    let outer = match parse_object(text) {
        Some(outer) => outer,
        None => {
            return None;
        },
    };
    let inner = match member_object(&outer, "result") {
        Some(inner) => inner,
        None => {
            return None;
        },
    };
    member_object(&inner, "result")
}

/// Judges a probe by the members that describe the value in the reply.
pub fn judge_probe(members: &Vec<Member>, rpc_secret: &str) -> (r: bool)
    ensures
        r == another_instance(probe_of(members_view(members@)), rpc_secret@),
{
    match ProbeReply::from_members(members) {
        Some(reply) => reply.shows_another_instance(rpc_secret),
        None => false,
    }
}

/// Judges a probe by the debugger's reply; `None` stands for a probe that
/// got no reply, because connecting, sending or receiving failed.
pub fn is_another_instance_running(reply: Option<&str>, rpc_secret: &str) -> (r: bool)
    ensures
        r == another_instance(
            match reply {
                Some(text) => probe_in(text@),
                None => None,
            },
            rpc_secret@,
        ),
{
    match reply {
        Some(text) => match probe_members(text) {
            Some(members) => judge_probe(&members, rpc_secret),
            None => false,
        },
        None => false,
    }
}

/// A frame on its way to the debugger, and how often it may still be sent.
#[derive(Debug, PartialEq, Eq)]
pub struct Injection {
    pub frame: String,
    pub tries_left: u32,
}

/// What happened to an injection.
#[derive(Clone, Copy, Debug, PartialEq, Eq, Structural)]
pub enum InjectEvent {
    /// No socket to the debugger could be opened.
    ConnectFailed,
    /// The socket to the debugger is open.
    Connected,
    /// The socket did not accept the frame.
    SendFailed,
    /// The socket accepted the frame.
    Sent,
}

/// What to do next with an injection.
#[derive(Clone, Copy, Debug, PartialEq, Eq)]
pub enum InjectAction {
    /// Wait, then send the frame.
    Send { pause_millis: u64 },
    /// Wait, then finish with the result.
    Done { pause_millis: u64, result: Result<(), InjectError> },
}

/// What follows an event with `tries_left` sends left: how many are left
/// then, and what to do. The frame is sent until the socket accepts it or
/// no send is left, with a pause after each send that was not accepted.
pub open spec fn after_event(tries_left: u32, event: InjectEvent) -> (u32, InjectAction) {
    match event {
        InjectEvent::ConnectFailed => (
            tries_left,
            InjectAction::Done { pause_millis: 0, result: Err(InjectError::NotConnected) },
        ),
        InjectEvent::Sent => (tries_left, InjectAction::Done { pause_millis: 0, result: Ok(()) }),
        InjectEvent::Connected => if tries_left == 0 {
            (0, InjectAction::Done { pause_millis: 0, result: Err(InjectError::NotSent) })
        } else {
            ((tries_left - 1) as u32, InjectAction::Send { pause_millis: 0 })
        },
        InjectEvent::SendFailed => if tries_left == 0 {
            (
                0,
                InjectAction::Done {
                    pause_millis: SEND_PAUSE_MILLIS,
                    result: Err(InjectError::NotSent),
                },
            )
        } else {
            ((tries_left - 1) as u32, InjectAction::Send { pause_millis: SEND_PAUSE_MILLIS })
        },
    }
}

impl Injection {
    /// Moves the injection on by one event.
    pub fn step(&mut self, event: InjectEvent) -> (r: InjectAction)
        ensures
            final(self).frame == old(self).frame,
            final(self).tries_left == after_event(old(self).tries_left, event).0,
            r == after_event(old(self).tries_left, event).1,
    {
        match event {
            InjectEvent::ConnectFailed => InjectAction::Done {
                pause_millis: 0,
                result: Err(InjectError::NotConnected),
            },
            InjectEvent::Sent => InjectAction::Done { pause_millis: 0, result: Ok(()) },
            InjectEvent::Connected => if self.tries_left == 0 {
                InjectAction::Done { pause_millis: 0, result: Err(InjectError::NotSent) }
            } else {
                self.tries_left = self.tries_left - 1;
                InjectAction::Send { pause_millis: 0 }
            },
            InjectEvent::SendFailed => if self.tries_left == 0 {
                InjectAction::Done {
                    pause_millis: SEND_PAUSE_MILLIS,
                    result: Err(InjectError::NotSent),
                }
            } else {
                self.tries_left = self.tries_left - 1;
                InjectAction::Send { pause_millis: SEND_PAUSE_MILLIS }
            },
        }
    }
}

/// Starts telling an instance that is already there to terminate: the frame
/// goes out at most `max_tries` times.
pub fn kill_running_instance(max_tries: u32) -> (r: Injection)
    ensures
        r.frame@ == evaluate_text(1, json_string("window.terminate()"@)),
        r.tries_left == max_tries,
{
    Injection { frame: kill_frame(), tries_left: max_tries }
}

/// Starts injecting the payload: the frame goes out at most `max_tries`
/// times.
pub fn inject_payload(payload: &str, max_tries: u32) -> (r: Injection)
    ensures
        r.frame@ == evaluate_text(1, json_string(payload@)),
        r.tries_left == max_tries,
{
    Injection { frame: inject_frame(payload), tries_left: max_tries }
}

} // verus!
