//! The request that clients send and that the broker forwards to Steam.

use vstd::prelude::*;
use crate::json::{find, json_document, json_string, lookup, members_view, parse_object, quote};
use crate::json::{DocumentView, Item, ItemView, Member, MemberView};
use crate::text::{decimal, decimal_digits};

verus! {

/// A request on the wire: a JSON object with the members `command`, `args`,
/// `secret` and `messageId`, of which the last two may be left out.
#[derive(Debug, PartialEq, Eq)]
pub struct RpcRequest {
    /// Name of the command, which the payload interprets.
    pub command: String,
    /// On the way in, the client's token; on the way to Steam, Steam's secret.
    pub secret: Option<String>,
    /// On the way in, the client's own id; on the way to Steam, the broker's.
    pub message_id: Option<u32>,
    /// The arguments as compact JSON text; the broker does not look inside.
    pub args: String,
}

pub struct RpcRequestView {
    pub command: Seq<char>,
    pub secret: Option<Seq<char>>,
    pub message_id: Option<u32>,
    pub args: Seq<char>,
}

impl View for RpcRequest {
    type V = RpcRequestView;

    open spec fn view(&self) -> RpcRequestView {
        RpcRequestView {
            command: self.command@,
            secret: match self.secret {
                Some(s) => Some(s@),
                None => None,
            },
            message_id: self.message_id,
            args: self.args@,
        }
    }
}

/// An optional string member: absent and `null` both stand for none; the
/// outer `None` says that the member holds something else.
pub open spec fn optional_string(item: Option<ItemView>) -> Option<Option<Seq<char>>> {
    match item {
        None => Some(None),
        Some(i) => if i.null {
            Some(None)
        } else {
            match i.string {
                Some(s) => Some(Some(s)),
                None => None,
            }
        },
    }
}

/// An optional 32-bit member: absent and `null` both stand for none; the
/// outer `None` says that the member holds something else.
pub open spec fn optional_u32(item: Option<ItemView>) -> Option<Option<u32>> {
    match item {
        None => Some(None),
        Some(i) => if i.null {
            Some(None)
        } else {
            match i.number {
                Some(n) => if n <= u32::MAX {
                    Some(Some(n as u32))
                } else {
                    None
                },
                None => None,
            }
        },
    }
}

/// The request that an object's members spell, if they spell one: `command`
/// is a string, `args` is there, `secret` is a string if it is there, and
/// `messageId` fits 32 bits if it is there. Other members are ignored.
pub open spec fn request_of(members: Seq<MemberView>) -> Option<RpcRequestView> {
    let command = lookup(members, "command"@);
    let args = lookup(members, "args"@);
    let secret = optional_string(lookup(members, "secret"@));
    let message_id = optional_u32(lookup(members, "messageId"@));
    if command is Some && command->0.string is Some && args is Some && secret is Some
        && message_id is Some {
        Some(
            RpcRequestView {
                command: command->0.string->0,
                secret: secret->0,
                message_id: message_id->0,
                args: args->0.text,
            },
        )
    } else {
        None
    }
}

/// The request that a frame holds: it is a JSON object, and its members
/// spell a request.
pub open spec fn request_in(text: Seq<char>) -> Option<RpcRequestView> {
    match json_document(text) {
        Some(DocumentView::Object(members)) => request_of(members),
        _ => None,
    }
}

/// A request as JSON text, made of its parts as they stand on the wire:
/// `command` and `secret` are JSON string literals, `args` is JSON text.
pub open spec fn wire_text(
    command: Seq<char>,
    args: Seq<char>,
    secret: Option<Seq<char>>,
    message_id: Option<u32>,
) -> Seq<char> {
    let head = "{\"command\":"@ + command + ",\"args\":"@ + args;
    let with_secret = match secret {
        Some(s) => head + ",\"secret\":"@ + s,
        None => head,
    };
    let with_id = match message_id {
        Some(id) => with_secret + ",\"messageId\":"@ + decimal_digits(id as nat),
        None => with_secret,
    };
    with_id + "}"@
}

impl RpcRequestView {
    /// The request as JSON text.
    pub open spec fn json(self) -> Seq<char> {
        wire_text(
            json_string(self.command),
            self.args,
            match self.secret {
                Some(s) => Some(json_string(s)),
                None => None,
            },
            self.message_id,
        )
    }
}

fn read_optional_string(item: Option<&Item>) -> (r: Option<Option<String>>)
    ensures
        match r {
            Some(Some(s)) => optional_string(item_view(item)) == Some(Some(s@)),
            Some(None) => optional_string(item_view(item)) == Some(None::<Seq<char>>),
            None => optional_string(item_view(item)) is None,
        },
{
    match item {
        None => Some(None),
        Some(i) => if i.null {
            Some(None)
        } else {
            match &i.string {
                Some(s) => Some(Some(s.clone())),
                None => None,
            }
        },
    }
}

fn read_optional_u32(item: Option<&Item>) -> (r: Option<Option<u32>>)
    ensures
        r == optional_u32(item_view(item)),
{
    match item {
        None => Some(None),
        Some(i) => if i.null {
            Some(None)
        } else {
            match i.number {
                Some(n) => if n <= 0xffff_ffff {
                    Some(Some(n as u32))
                } else {
                    None
                },
                None => None,
            }
        },
    }
}

/// The view of an item that may be missing.
pub open spec fn item_view(item: Option<&Item>) -> Option<ItemView> {
    match item {
        Some(i) => Some(i@),
        None => None,
    }
}

/// The view of a request that may be missing.
pub open spec fn request_view(request: Option<RpcRequest>) -> Option<RpcRequestView> {
    match request {
        Some(r) => Some(r@),
        None => None,
    }
}

/// Puts a request together from parts that are JSON text already.
pub fn frame_request(
    command: &str,
    args: &str,
    secret: Option<&str>,
    message_id: Option<u32>,
) -> (r: String)
    ensures
        r@ == wire_text(
            command@,
            args@,
            match secret {
                Some(s) => Some(s@),
                None => None,
            },
            message_id,
        ),
{
    let mut r = "{\"command\":".to_owned();
    r.append(command);
    r.append(",\"args\":");
    r.append(args);
    match secret {
        Some(s) => {
            r.append(",\"secret\":");
            r.append(s);
        },
        None => {},
    }
    match message_id {
        Some(id) => {
            r.append(",\"messageId\":");
            let digits = decimal(id as u64);
            r.append(digits.as_str());
        },
        None => {},
    }
    r.append("}");
    r
}

impl RpcRequest {
    /// Reads a request from the members of a JSON object.
    pub fn from_members(members: &Vec<Member>) -> (r: Option<RpcRequest>)
        ensures
            request_view(r) == request_of(members_view(members@)),
    {
        let command = match find(members, "command") {
            Some(item) => match &item.string {
                Some(name) => name.clone(),
                None => { return None; },
            },
            None => { return None; },
        };
        let args = match find(members, "args") {
            Some(item) => item.text.clone(),
            None => { return None; },
        };
        let secret = match read_optional_string(find(members, "secret")) {
            Some(s) => s,
            None => { return None; },
        };
        let message_id = match read_optional_u32(find(members, "messageId")) {
            Some(id) => id,
            None => { return None; },
        };
        Some(RpcRequest { command, secret, message_id, args })
    }

    /// Reads a request from a frame.
    pub fn parse(text: &str) -> (r: Option<RpcRequest>)
        ensures
            request_view(r) == request_in(text@),
    {
        match parse_object(text) {
            Some(members) => RpcRequest::from_members(&members),
            None => None,
        }
    }

    /// Writes the request as JSON text; a secret or an id that is not there
    /// is left out.
    pub fn to_json(&self) -> (r: String)
        ensures
            r@ == self@.json(),
    {
        let command = quote(self.command.as_str());
        match &self.secret {
            Some(s) => {
                let secret = quote(s.as_str());
                frame_request(
                    command.as_str(),
                    self.args.as_str(),
                    Some(secret.as_str()),
                    self.message_id,
                )
            },
            None => frame_request(command.as_str(), self.args.as_str(), None, self.message_id),
        }
    }
}

} // verus!
