//! What holds of the broker whatever happens on its connections.

use vstd::prelude::*;
use crate::config::AuthConfigView;
use crate::json::{json_string, object_text, MemberView};
use crate::message::{request_in, RpcRequestView};
use crate::server::{next_seq, passed_on, reply_fields, reply_number, reply_seq};
use crate::server::{BrokerView, Cause, ConnId, Forwarded, InputView, Phase, ReactionView, Refusal};
use crate::text::decimal_digits;

verus! {

/// A broker that has served nothing yet is well formed.
pub proof fn initial_is_well_formed(
    steam_secret: Seq<char>,
    auth: Option<AuthConfigView>,
    payload_text: Seq<char>,
)
    ensures
        BrokerView::initial(steam_secret, auth, payload_text).wf(),
{
}

/// Forwarding a request keeps the broker well formed.
pub proof fn forward_keeps_well_formed(b: BrokerView, conn: ConnId, request: RpcRequestView)
    requires
        b.wf(),
    ensures
        b.after_forward(conn, request).wf(),
{
    let after = b.after_forward(conn, request);
    let seq = b.next_message_id;
    assert forall|k: u32| #[trigger] after.client_by_seq.contains_key(k) implies after.was_forwarded(
        k,
        after.client_by_seq[k],
    ) by {
        if k == seq {
            let i = b.forwarded.len() as int;
            assert(after.forwarded[i].seq == seq && after.forwarded[i].conn == conn);
        } else {
            assert(b.client_by_seq.contains_key(k));
            assert(b.was_forwarded(k, b.client_by_seq[k]));
            let i = choose|i: int|
                0 <= i < b.forwarded.len() && #[trigger] b.forwarded[i].seq == k
                    && b.forwarded[i].conn == b.client_by_seq[k];
            assert(after.forwarded[i].seq == k && after.forwarded[i].conn == after.client_by_seq[k]);
        }
    }
}

/// While Steam counts as connected, no other connection becomes Steam.
pub proof fn steam_role_is_taken_once(b: BrokerView, phase: Phase, conn: ConnId, input: InputView)
    requires
        b.steam_connected,
        phase != Phase::Steam,
    ensures
        b.step(phase, conn, input).1 != Phase::Steam,
{
}

/// A connection becomes Steam by its first frame only, and the broker then
/// counts Steam as connected and knows the connection.
pub proof fn steam_role_is_claimed(b: BrokerView, phase: Phase, conn: ConnId, input: InputView)
    requires
        phase != Phase::Steam,
        b.step(phase, conn, input).1 == Phase::Steam,
    ensures
        phase == Phase::AwaitHello,
        !b.steam_connected,
        input matches InputView::Frame(text) && "init:"@.is_prefix_of(text),
        b.step(phase, conn, input).0 == b.claimed_by(conn),
        b.step(phase, conn, input).2 == ReactionView::Ready,
{
}

/// Every step keeps the broker well formed: while Steam counts as connected
/// its connection is known, every id with a client's id has a client, and
/// every id with a client was given to a request of that client.
pub proof fn step_keeps_well_formed(b: BrokerView, phase: Phase, conn: ConnId, input: InputView)
    requires
        b.wf(),
    ensures
        b.step(phase, conn, input).0.wf(),
{
    if let InputView::Frame(text) = input {
        if let Some(request) = request_in(text) {
            forward_keeps_well_formed(b, conn, request);
        }
    }
}

/// The id that a forwarded request carries is a key of the table of clients
/// once the step is done, and leads to the connection that the request came
/// from. The request leaves with that id and with Steam's secret.
pub proof fn forwarded_id_is_recorded(b: BrokerView, phase: Phase, conn: ConnId, input: InputView)
    ensures
        b.step(phase, conn, input).2 matches ReactionView::Forward { to, seq, text } ==> {
            let after = b.step(phase, conn, input).0;
            &&& after.client_by_seq.contains_key(seq)
            &&& after.client_by_seq[seq] == conn
            &&& b.steam_outbound == Some(to)
            &&& input matches InputView::Frame(frame)
            &&& request_in(frame) matches Some(request)
            &&& text == b.rewritten(request).json()
            &&& b.rewritten(request).message_id == Some(seq)
            &&& b.rewritten(request).secret == Some(b.steam_secret)
        },
{
}

/// The record of forwarded requests grows by one with every request that is
/// forwarded, by the id it left with and the connection it came from, and
/// stays as it is in every other step.
pub proof fn forwards_are_recorded(b: BrokerView, phase: Phase, conn: ConnId, input: InputView)
    ensures
        match b.step(phase, conn, input).2 {
            ReactionView::Forward { to, seq, text } => exists|client_id: Option<u32>|
                b.step(phase, conn, input).0.forwarded == b.forwarded.push(
                    Forwarded { seq, conn, client_id },
                ),
            _ => b.step(phase, conn, input).0.forwarded == b.forwarded,
        },
{
    if let ReactionView::Forward { to, seq, text } = b.step(phase, conn, input).2 {
        let frame = input->Frame_0;
        let request = request_in(frame)->0;
        assert(b.step(phase, conn, input).0.forwarded == b.forwarded.push(
            Forwarded { seq, conn, client_id: request.message_id },
        ));
    }
}

/// A reply of Steam is delivered only where a request was forwarded under
/// the very number that the reply gives, and only to the connection which
/// that request came from.
pub proof fn reply_follows_request(b: BrokerView, members: Seq<MemberView>)
    requires
        b.wf(),
    ensures
        b.routed(members) matches ReactionView::Deliver { to, text } ==> {
            &&& reply_number(members) matches Some(n)
            &&& n <= u32::MAX
            &&& reply_seq(members) == Some(n as u32)
            &&& b.client_by_seq.contains_key(n as u32)
            &&& b.client_by_seq[n as u32] == to
            &&& b.was_forwarded(n as u32, to)
        },
{
}

/// A reply of Steam under a number that no client has a request out under
/// is dropped, and the number is the cause given for the log. So is every
/// reply whose number is no id of 32 bits, whatever the tables hold.
pub proof fn reply_to_nobody_is_dropped(b: BrokerView, members: Seq<MemberView>, n: u64)
    requires
        reply_number(members) == Some(n),
        n > u32::MAX || !b.client_by_seq.contains_key(n as u32),
    ensures
        b.routed(members) == ReactionView::Dropped(Cause::NoClient(n)),
{
}

/// Without a Steam connection no request is forwarded: a client's request
/// is answered with the error that Steam is not connected, and the broker
/// stays as it was. This holds of any frame that holds a request and is not
/// Steam's own first frame.
pub proof fn request_without_steam_is_refused(
    b: BrokerView,
    phase: Phase,
    conn: ConnId,
    text: Seq<char>,
)
    requires
        b.wf(),
        b.steam_outbound is None,
        phase == Phase::AwaitHello || phase == Phase::Client,
        request_in(text) is Some,
        !"init:"@.is_prefix_of(text),
    ensures
        b.step(phase, conn, InputView::Frame(text)).0 == b,
        b.step(phase, conn, InputView::Frame(text)).2 == ReactionView::Refuse(
            Refusal::NotConnected,
        ),
{
}

/// While Steam is presumed dead and its connection is still open, a request
/// that passes the checks is put on Steam's queue. When the queue does not
/// take it, the client's connection is closed and the loss is the cause
/// given for the log: the request is not dropped in silence.
pub proof fn request_to_dead_steam_is_logged(
    b: BrokerView,
    phase: Phase,
    conn: ConnId,
    text: Seq<char>,
)
    requires
        b.wf(),
        !b.steam_connected,
        b.steam_outbound is Some,
        phase == Phase::AwaitHello || phase == Phase::Client,
        request_in(text) matches Some(request) && b.refusal(request) is None,
        !"init:"@.is_prefix_of(text),
    ensures
        ({
            let (after, next, reaction) = b.step(phase, conn, InputView::Frame(text));
            &&& reaction is Forward
            &&& next == Phase::Client
            &&& after.step(next, conn, InputView::SteamQueueFailed) == (
                after.steam_lost(),
                Phase::Closed,
                ReactionView::Dropped(Cause::SteamLost),
            )
        }),
{
}

/// The counter moves only when a request is forwarded: the request gets the
/// counter's value, and the counter goes on to the next.
pub proof fn counter_moves_with_forwards(
    b: BrokerView,
    phase: Phase,
    conn: ConnId,
    input: InputView,
)
    ensures
        match b.step(phase, conn, input).2 {
            ReactionView::Forward { to, seq, text } => {
                &&& seq == b.next_message_id
                &&& b.step(phase, conn, input).0.next_message_id == next_seq(seq)
            },
            _ => b.step(phase, conn, input).0.next_message_id == b.next_message_id,
        },
{
}

/// The counter never decreases, until it has given out the largest id.
pub proof fn counter_never_decreases(b: BrokerView, phase: Phase, conn: ConnId, input: InputView)
    requires
        b.next_message_id < u32::MAX,
    ensures
        b.step(phase, conn, input).0.next_message_id >= b.next_message_id,
{
}

/// Of two requests forwarded one after the other, the second gets another
/// id than the first, and a larger one unless the first got the largest.
pub proof fn consecutive_ids_increase(
    b: BrokerView,
    phase1: Phase,
    conn1: ConnId,
    input1: InputView,
    phase2: Phase,
    conn2: ConnId,
    input2: InputView,
)
    requires
        b.step(phase1, conn1, input1).2 is Forward,
        b.step(phase1, conn1, input1).0.step(phase2, conn2, input2).2 is Forward,
    ensures
        ({
            let first = b.step(phase1, conn1, input1).2->Forward_seq;
            let second = b.step(phase1, conn1, input1).0.step(phase2, conn2, input2).2->Forward_seq;
            &&& second == next_seq(first)
            &&& second != first
            &&& first < u32::MAX ==> first < second
        }),
{
}

/// No step touches the settings: Steam's secret, the client secrets and the
/// payload stay what the broker was made with.
pub proof fn settings_stay(b: BrokerView, phase: Phase, conn: ConnId, input: InputView)
    ensures
        ({
            let after = b.step(phase, conn, input).0;
            &&& after.steam_secret == b.steam_secret
            &&& after.auth_enabled == b.auth_enabled
            &&& after.client_secrets == b.client_secrets
            &&& after.payload_text == b.payload_text
        }),
{
}

/// A broker that has served nothing yet has given out no id.
pub proof fn initial_ids_are_fresh(
    steam_secret: Seq<char>,
    auth: Option<AuthConfigView>,
    payload_text: Seq<char>,
)
    ensures
        BrokerView::initial(steam_secret, auth, payload_text).ids_are_fresh(),
{
}

/// Until the counter has given out the largest id, every id given out lies
/// below the counter.
pub proof fn step_keeps_ids_fresh(b: BrokerView, phase: Phase, conn: ConnId, input: InputView)
    requires
        b.ids_are_fresh(),
        b.next_message_id < u32::MAX,
    ensures
        b.step(phase, conn, input).0.ids_are_fresh(),
{
    let after = b.step(phase, conn, input).0;
    assert forall|k: u32| #[trigger] after.client_by_seq.contains_key(k) implies k
        < after.next_message_id by {
        if k != b.next_message_id {
            assert(b.client_by_seq.contains_key(k));
        }
    }
}

/// While every id given out lies below the counter, a step only adds to the
/// tables: the id that a forwarded request gets was no key before, it leads
/// to the connection that the request came from, and every entry that was
/// there is there afterwards, with the value it had, in both tables.
pub proof fn forward_only_adds(b: BrokerView, phase: Phase, conn: ConnId, input: InputView)
    requires
        b.wf(),
        b.ids_are_fresh(),
    ensures
        ({
            let after = b.step(phase, conn, input).0;
            &&& b.step(phase, conn, input).2 matches ReactionView::Forward { to, seq, text } ==> {
                &&& !b.client_by_seq.contains_key(seq)
                &&& !b.client_id_by_seq.contains_key(seq)
                &&& after.client_by_seq == b.client_by_seq.insert(seq, conn)
            }
            &&& forall|k: u32| #[trigger]
                b.client_by_seq.contains_key(k) ==> after.client_by_seq.contains_key(k)
                    && after.client_by_seq[k] == b.client_by_seq[k]
            &&& forall|k: u32| #[trigger]
                b.client_id_by_seq.contains_key(k) ==> after.client_id_by_seq.contains_key(k)
                    && after.client_id_by_seq[k] == b.client_id_by_seq[k]
        }),
{
    let after = b.step(phase, conn, input).0;
    let seq = b.next_message_id;
    if b.client_by_seq.contains_key(seq) {
        assert(seq < b.next_message_id);
    }
    if b.client_id_by_seq.contains_key(seq) {
        assert(b.client_by_seq.contains_key(seq));
    }
    assert forall|k: u32| #[trigger] b.client_by_seq.contains_key(k) implies after.client_by_seq.contains_key(
        k,
    ) && after.client_by_seq[k] == b.client_by_seq[k] by {
        assert(k != seq);
    }
    assert forall|k: u32| #[trigger] b.client_id_by_seq.contains_key(k) implies after.client_id_by_seq.contains_key(
        k,
    ) && after.client_id_by_seq[k] == b.client_id_by_seq[k] by {
        assert(b.client_by_seq.contains_key(k));
        assert(k != seq);
    }
}

/// Whatever the counter has done, a step keeps every entry but the one under
/// the id that it gives out itself.
pub proof fn tables_grow(b: BrokerView, phase: Phase, conn: ConnId, input: InputView, k: u32)
    requires
        !(b.step(phase, conn, input).2 matches ReactionView::Forward { to, seq, text } && seq == k),
    ensures
        ({
            let after = b.step(phase, conn, input).0;
            &&& b.client_by_seq.contains_key(k) ==> after.client_by_seq.contains_key(k)
                && after.client_by_seq[k] == b.client_by_seq[k]
            &&& b.client_id_by_seq.contains_key(k) ==> after.client_id_by_seq.contains_key(k)
                && after.client_id_by_seq[k] == b.client_id_by_seq[k]
        }),
{
}

/// None of the members that are passed on from Steam's reply is its
/// `messageId`: the id that the broker gave out does not reach the client.
pub proof fn broker_id_is_not_passed_on(members: Seq<MemberView>, i: int)
    requires
        0 <= i < passed_on(members).len(),
    ensures
        exists|j: int|
            0 <= j < members.len() && (#[trigger] members[j]).key != "messageId"@ && passed_on(
                members,
            )[i] == (json_string(members[j].key), members[j].value.text),
    decreases members.len(),
{
    if members.len() > 0 {
        let init = members.drop_last();
        if members.last().key == "messageId"@ {
            broker_id_is_not_passed_on(init, i);
            let j = choose|j: int|
                0 <= j < init.len() && (#[trigger] init[j]).key != "messageId"@ && passed_on(
                    init,
                )[i] == (json_string(init[j].key), init[j].value.text);
            assert(members[j] == init[j]);
        } else if i < passed_on(init).len() {
            broker_id_is_not_passed_on(init, i);
            let j = choose|j: int|
                0 <= j < init.len() && (#[trigger] init[j]).key != "messageId"@ && passed_on(
                    init,
                )[i] == (json_string(init[j].key), init[j].value.text);
            assert(members[j] == init[j]);
        } else {
            let j = members.len() - 1;
            assert(members[j] == members.last());
        }
    }
}

/// A request that carries the client's id `c` comes back with it: when the
/// request is forwarded under an id, Steam's reply to that id is delivered
/// to the connection that the request came from, and its `messageId` is `c`.
pub proof fn reply_restores_client_id(
    b: BrokerView,
    phase: Phase,
    conn: ConnId,
    frame: Seq<char>,
    c: u32,
    reply: Seq<MemberView>,
)
    requires
        request_in(frame) matches Some(request) && request.message_id == Some(c),
        b.step(phase, conn, InputView::Frame(frame)).2 matches ReactionView::Forward {
            to,
            seq,
            text,
        } && reply_seq(reply) == Some(seq),
    ensures
        ({
            let after = b.step(phase, conn, InputView::Frame(frame)).0;
            let fields = reply_fields(reply, Some(c));
            &&& after.routed(reply) == ReactionView::Deliver { to: conn, text: object_text(fields) }
            &&& fields == passed_on(reply).push(("\"messageId\""@, decimal_digits(c as nat)))
        }),
{
}

} // verus!
