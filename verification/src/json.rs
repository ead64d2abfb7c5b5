//! JSON text as the broker reads and writes it.
//!
//! Parsing and string escaping are done by `serde_json`. A parsed document is
//! handed over as plain records (`Item`, `Member`), on which the rest of the
//! crate works; objects are written back by concatenation.

use vstd::prelude::*;
use crate::text::str_eq;

verus! {

/// A JSON value, reduced to what the broker reads of one.
#[derive(Debug, PartialEq, Eq)]
pub struct Item {
    /// The value as compact JSON text.
    pub text: String,
    /// The string, when the value is a JSON string.
    pub string: Option<String>,
    /// The number, when the value is a non-negative integer below 2^64.
    pub number: Option<u64>,
    /// Whether the value is `null`.
    pub null: bool,
}

/// One member of a JSON object.
#[derive(Debug, PartialEq, Eq)]
pub struct Member {
    pub key: String,
    pub value: Item,
}

/// A parsed JSON text.
#[derive(Debug, PartialEq, Eq)]
pub enum Document {
    Object(Vec<Member>),
    Array(Vec<Item>),
    /// A string, number, boolean or `null` at the top level.
    Other,
}

pub struct ItemView {
    pub text: Seq<char>,
    pub string: Option<Seq<char>>,
    pub number: Option<u64>,
    pub null: bool,
}

pub struct MemberView {
    pub key: Seq<char>,
    pub value: ItemView,
}

pub enum DocumentView {
    Object(Seq<MemberView>),
    Array(Seq<ItemView>),
    Other,
}

impl View for Item {
    type V = ItemView;

    open spec fn view(&self) -> ItemView {
        ItemView {
            text: self.text@,
            string: match self.string {
                Some(s) => Some(s@),
                None => None,
            },
            number: self.number,
            null: self.null,
        }
    }
}

impl View for Member {
    type V = MemberView;

    open spec fn view(&self) -> MemberView {
        MemberView { key: self.key@, value: self.value@ }
    }
}

pub open spec fn items_view(items: Seq<Item>) -> Seq<ItemView> {
    items.map_values(|i: Item| i@)
}

pub open spec fn members_view(members: Seq<Member>) -> Seq<MemberView> {
    members.map_values(|m: Member| m@)
}

impl View for Document {
    type V = DocumentView;

    open spec fn view(&self) -> DocumentView {
        match self {
            Document::Object(members) => DocumentView::Object(members_view(members@)),
            Document::Array(items) => DocumentView::Array(items_view(items@)),
            Document::Other => DocumentView::Other,
        }
    }
}

/// What `serde_json::from_str` makes of a text: `None` where it is not JSON.
pub uninterp spec fn json_document(text: Seq<char>) -> Option<DocumentView>;

/// The JSON string literal that `serde_json::to_string` writes for a string.
pub uninterp spec fn json_string(s: Seq<char>) -> Seq<char>;

/// Parses `text` with `serde_json::from_str` into a `serde_json::Value` and
/// hands the value over as plain records: the members of an object in the
/// order in which its map yields them, the elements of an array in order.
/// Each value is read through `to_string`, `as_str`, `as_u64` and `is_null`.
/// The contract claims only that the same text always gives the same document.
#[verifier::external_body]
pub(crate) fn parse_document(text: &str) -> (r: Option<Document>)
    ensures
        match r {
            Some(d) => json_document(text@) == Some(d@),
            None => json_document(text@) is None,
        },
{
    let item = |v: &serde_json::Value| Item {
        text: v.to_string(),
        string: v.as_str().map(str::to_owned),
        number: v.as_u64(),
        null: v.is_null(),
    };
    match serde_json::from_str::<serde_json::Value>(text) {
        Ok(serde_json::Value::Object(map)) => Some(Document::Object(
            map.iter().map(|(k, v)| Member { key: k.clone(), value: item(v) }).collect())),
        Ok(serde_json::Value::Array(items)) => Some(Document::Array(items.iter().map(item).collect())),
        Ok(_) => Some(Document::Other),
        Err(_) => None,
    }
}

/// Writes `s` as a JSON string literal with `serde_json::to_string`, which
/// cannot fail on a string written into memory. The contract claims only that
/// the same string always gives the same literal.
#[verifier::external_body]
pub(crate) fn quote(s: &str) -> (r: String)
    ensures
        r@ == json_string(s@),
{
    match serde_json::to_string(s) {
        Ok(literal) => literal,
        Err(_) => String::new(),
    }
}

/// The value of the first member of `members` whose key is `key`.
pub open spec fn lookup(members: Seq<MemberView>, key: Seq<char>) -> Option<ItemView>
    decreases members.len(),
{
    if members.len() == 0 {
        None
    } else if members[0].key == key {
        Some(members[0].value)
    } else {
        lookup(members.drop_first(), key)
    }
}

/// Looks a member up by its key.
pub fn find<'a>(members: &'a Vec<Member>, key: &str) -> (r: Option<&'a Item>)
    ensures
        match r {
            Some(item) => lookup(members_view(members@), key@) == Some(item@),
            None => lookup(members_view(members@), key@) is None,
        },
{
    let ghost all = members_view(members@);
    let mut i: usize = 0;
    assert(all.skip(0) =~= all);
    while i < members.len()
        invariant
            i <= members.len(),
            all == members_view(members@),
            lookup(all, key@) == lookup(all.skip(i as int), key@),
        decreases members.len() - i,
    {
        let ghost rest = all.skip(i as int);
        assert(rest[0] == members@[i as int]@);
        assert(rest.drop_first() =~= all.skip(i + 1));
        if str_eq(members[i].key.as_str(), key) {
            return Some(&members[i].value);
        }
        i = i + 1;
    }
    assert(all.skip(i as int).len() == 0);
    None
}

/// The members of an object between its braces: each a key, a colon and a
/// value, with commas in between. `fields` holds each member as the JSON
/// string literal of its key and the JSON text of its value.
pub open spec fn object_body(fields: Seq<(Seq<char>, Seq<char>)>) -> Seq<char>
    decreases fields.len(),
{
    if fields.len() == 0 {
        Seq::empty()
    } else if fields.len() == 1 {
        fields[0].0 + ":"@ + fields[0].1
    } else {
        object_body(fields.drop_last()) + ","@ + fields.last().0 + ":"@ + fields.last().1
    }
}

/// A JSON object as compact text.
pub open spec fn object_text(fields: Seq<(Seq<char>, Seq<char>)>) -> Seq<char> {
    "{"@ + object_body(fields) + "}"@
}

/// The views of a list of pairs of strings.
pub open spec fn fields_view(fields: Seq<(String, String)>) -> Seq<(Seq<char>, Seq<char>)> {
    fields.map_values(|f: (String, String)| (f.0@, f.1@))
}

/// Writes a JSON object from members that are JSON text already: of each
/// pair the first is the string literal of a key, the second a value.
pub fn object_json(fields: &Vec<(String, String)>) -> (r: String)
    ensures
        r@ == object_text(fields_view(fields@)),
{
    let ghost all = fields_view(fields@);
    let mut body = String::new();
    let mut i: usize = 0;
    assert(all.take(0) =~= Seq::empty());
    while i < fields.len()
        invariant
            i <= fields.len(),
            all == fields_view(fields@),
            body@ == object_body(all.take(i as int)),
        decreases fields.len() - i,
    {
        let ghost next = all.take(i + 1);
        assert(next.drop_last() =~= all.take(i as int));
        assert(next.last() == (fields@[i as int].0@, fields@[i as int].1@));
        if i > 0 {
            body.append(",");
        }
        body.append(fields[i].0.as_str());
        body.append(":");
        body.append(fields[i].1.as_str());
        assert(body@ =~= object_body(next));
        i = i + 1;
    }
    assert(all.take(i as int) =~= all);
    let mut r = "{".to_owned();
    r.append(body.as_str());
    r.append("}");
    r
}

/// Parses `text` and keeps it where it is a JSON object.
pub fn parse_object(text: &str) -> (r: Option<Vec<Member>>)
    ensures
        match r {
            Some(members) => json_document(text@) == Some(
                DocumentView::Object(members_view(members@)),
            ),
            None => !(json_document(text@) matches Some(DocumentView::Object(_))),
        },
{
    match parse_document(text) {
        Some(Document::Object(members)) => Some(members),
        _ => None,
    }
}

/// Parses `text` and keeps it where it is a JSON array.
pub fn parse_array(text: &str) -> (r: Option<Vec<Item>>)
    ensures
        match r {
            Some(items) => json_document(text@) == Some(DocumentView::Array(items_view(items@))),
            None => !(json_document(text@) matches Some(DocumentView::Array(_))),
        },
{
    match parse_document(text) {
        Some(Document::Array(items)) => Some(items),
        _ => None,
    }
}

} // verus!
