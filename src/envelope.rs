//! The JSON-RPC request envelope and how it is read from a request body.
//!
//! A body is a valid envelope when it is one JSON object whose `jsonrpc` and
//! `method` members are strings and whose `id` member is a string, a number or
//! null. The `params` member may hold any value, or be absent, and is kept as it came.
use serde_json::Value;
use vstd::prelude::*;
use vstd::string::StringExecFns;

verus! {

/// The JSON value held by one member of an object: a string by its text, a
/// number, array or object by its JSON text as serde_json writes it.
#[derive(Clone, Debug)]
pub enum Member {
    Null,
    Bool(bool),
    Number(String),
    Text(String),
    Array(String),
    Object(String),
}

/// The mathematical form of a [`Member`].
pub enum MemberView {
    Null,
    Bool(bool),
    Number(Seq<char>),
    Text(Seq<char>),
    Array(Seq<char>),
    Object(Seq<char>),
}

impl View for Member {
    type V = MemberView;

    open spec fn view(&self) -> MemberView {
        match self {
            Member::Null => MemberView::Null,
            Member::Bool(b) => MemberView::Bool(*b),
            Member::Number(n) => MemberView::Number(n@),
            Member::Text(s) => MemberView::Text(s@),
            Member::Array(a) => MemberView::Array(a@),
            Member::Object(o) => MemberView::Object(o@),
        }
    }
}

/// The identifier of a request: a string, a number (by its JSON text) or null.
#[derive(Clone, Debug)]
pub enum RequestId {
    Null,
    Number(String),
    Text(String),
}

/// The mathematical form of a [`RequestId`].
pub enum RequestIdView {
    Null,
    Number(Seq<char>),
    Text(Seq<char>),
}

impl View for RequestId {
    type V = RequestIdView;

    open spec fn view(&self) -> RequestIdView {
        match self {
            RequestId::Null => RequestIdView::Null,
            RequestId::Number(n) => RequestIdView::Number(n@),
            RequestId::Text(s) => RequestIdView::Text(s@),
        }
    }
}

/// A parsed JSON-RPC request: protocol version tag, method name, parameters
/// (absent when the request has none) and identifier.
#[derive(Clone, Debug)]
pub struct Envelope {
    pub jsonrpc: String,
    pub method: String,
    pub params: Option<Member>,
    pub id: RequestId,
}

/// The mathematical form of an [`Envelope`].
pub struct EnvelopeView {
    pub jsonrpc: Seq<char>,
    pub method: Seq<char>,
    pub params: Option<MemberView>,
    pub id: RequestIdView,
}

impl View for Envelope {
    type V = EnvelopeView;

    open spec fn view(&self) -> EnvelopeView {
        EnvelopeView {
            jsonrpc: self.jsonrpc@,
            method: self.method@,
            params: match self.params {
                Some(p) => Some(p@),
                None => None,
            },
            id: self.id@,
        }
    }
}

/// The members that serde_json reads from `b` when `b` holds one JSON object,
/// each as its key and its value; `None` when `b` is no JSON object.
pub uninterp spec fn json_object_members(b: Seq<u8>) -> Option<Seq<(Seq<char>, MemberView)>>;

/// The mathematical form of a list of members.
pub open spec fn members_view(ms: Seq<(String, Member)>) -> Seq<(Seq<char>, MemberView)> {
    ms.map_values(|p: (String, Member)| (p.0@, p.1@))
}

/// The value of the first member named `key`, if any.
pub open spec fn member_lookup(ms: Seq<(Seq<char>, MemberView)>, key: Seq<char>) -> Option<MemberView>
    decreases ms.len(),
{
    if ms.len() == 0 {
        None
    } else if ms[0].0 == key {
        Some(ms[0].1)
    } else {
        member_lookup(ms.drop_first(), key)
    }
}

/// The identifier that a member value stands for, if it may serve as one.
pub open spec fn id_of_member(m: MemberView) -> Option<RequestIdView> {
    match m {
        MemberView::Null => Some(RequestIdView::Null),
        MemberView::Number(n) => Some(RequestIdView::Number(n)),
        MemberView::Text(s) => Some(RequestIdView::Text(s)),
        _ => None,
    }
}

/// The envelope that an object's members make up, or `None` when a required
/// member is missing or of the wrong kind.
pub open spec fn envelope_of_members(ms: Seq<(Seq<char>, MemberView)>) -> Option<EnvelopeView> {
    match (member_lookup(ms, "jsonrpc"@), member_lookup(ms, "method"@), member_lookup(ms, "id"@)) {
        (Some(MemberView::Text(v)), Some(MemberView::Text(m)), Some(i)) => match id_of_member(i) {
            Some(id) => Some(EnvelopeView { jsonrpc: v, method: m, params: member_lookup(ms, "params"@), id }),
            None => None,
        },
        _ => None,
    }
}

/// The envelope that a request body holds, or `None` when it holds none.
pub open spec fn envelope_of(b: Seq<u8>) -> Option<EnvelopeView> {
    match json_object_members(b) {
        Some(ms) => envelope_of_members(ms),
        None => None,
    }
}

/// The view of an optional envelope.
pub open spec fn opt_envelope_view(e: Option<Envelope>) -> Option<EnvelopeView> {
    match e {
        Some(x) => Some(x@),
        None => None,
    }
}

/// Relies on serde_json::from_slice into a `serde_json::Map`: reads the body as one
/// JSON object and hands out its members; an empty input is no JSON value. Numbers,
/// arrays and objects are handed out as the text their `Display` writes.
#[verifier::external_body]
fn read_object(bytes: &[u8]) -> (r: Option<Vec<(String, Member)>>)
    ensures
        r.is_none() <==> json_object_members(bytes@).is_none(),
        r matches Some(ms) ==> json_object_members(bytes@) == Some(members_view(ms@)),
        bytes@.len() == 0 ==> r.is_none(),
{
    match serde_json::from_slice::<serde_json::Map<String, Value>>(bytes) {
        Err(_) => None,
        Ok(map) => Some(map.into_iter().map(|(k, v)| (k, match v {
            Value::Null => Member::Null,
            Value::Bool(b) => Member::Bool(b),
            Value::Number(n) => Member::Number(n.to_string()),
            Value::String(s) => Member::Text(s),
            a @ Value::Array(_) => Member::Array(a.to_string()),
            o @ Value::Object(_) => Member::Object(o.to_string()),
        })).collect()),
    }
}

impl Member {
    /// A copy of this member.
    pub fn duplicate(&self) -> (r: Member)
        ensures
            r@ == self@,
    {
        match self {
            Member::Null => Member::Null,
            Member::Bool(b) => Member::Bool(*b),
            Member::Number(n) => Member::Number(n.clone()),
            Member::Text(s) => Member::Text(s.clone()),
            Member::Array(a) => Member::Array(a.clone()),
            Member::Object(o) => Member::Object(o.clone()),
        }
    }
}

/// The value of the first member named `key`.
pub fn find_member(ms: &Vec<(String, Member)>, key: &str) -> (r: Option<Member>)
    ensures
        r matches Some(m) ==> member_lookup(members_view(ms@), key@) == Some(m@),
        r is None ==> member_lookup(members_view(ms@), key@) is None,
{
    let wanted = <String as StringExecFns>::from_str(key);
    let mut i: usize = 0;
    assert(members_view(ms@).subrange(0, ms@.len() as int) =~= members_view(ms@));
    while i < ms.len()
        invariant
            i <= ms.len(),
            wanted@ == key@,
            member_lookup(members_view(ms@), key@) == member_lookup(members_view(ms@).subrange(i as int, ms@.len() as int), key@),
        decreases ms.len() - i,
    {
        let ghost rest = members_view(ms@).subrange(i as int, ms@.len() as int);
        assert(rest.drop_first() =~= members_view(ms@).subrange(i + 1, ms@.len() as int));
        if ms[i].0 == wanted {
            return Some(ms[i].1.duplicate());
        }
        i = i + 1;
    }
    assert(members_view(ms@).subrange(i as int, ms@.len() as int).len() == 0);
    None
}

/// The envelope that an object's members make up.
pub fn envelope_from_members(ms: &Vec<(String, Member)>) -> (r: Option<Envelope>)
    ensures
        opt_envelope_view(r) == envelope_of_members(members_view(ms@)),
{
    let version = find_member(ms, "jsonrpc");
    let method = find_member(ms, "method");
    let id = find_member(ms, "id");
    let params = find_member(ms, "params");
    match (version, method, id) {
        (Some(Member::Text(v)), Some(Member::Text(m)), Some(i)) => {
            let id = match i {
                Member::Null => RequestId::Null,
                Member::Number(n) => RequestId::Number(n),
                Member::Text(s) => RequestId::Text(s),
                _ => {
                    return None;
                },
            };
            Some(Envelope { jsonrpc: v, method: m, params, id })
        },
        _ => None,
    }
}

/// Reads a request body as an envelope: `None` when the body is not JSON, not an
/// object, or lacks a required member of the required kind.
pub fn parse_envelope(bytes: &[u8]) -> (r: Option<Envelope>)
    ensures
        opt_envelope_view(r) == envelope_of(bytes@),
        bytes@.len() == 0 ==> r is None,
{
    match read_object(bytes) {
        Some(ms) => envelope_from_members(&ms),
        None => None,
    }
}

} // verus!
