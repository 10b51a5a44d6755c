//! JSON documents as plain values: what the library reads from a request and
//! what it hands out to be written.

use crate::text::same;
use vstd::prelude::*;

verus! {

/// A JSON document.
#[derive(Debug)]
pub enum JsonValue {
    Null,
    Bool(bool),
    /// A number, in the notation in which it was written.
    Number(String),
    String(String),
    Array(Vec<JsonValue>),
    /// The members of an object, in the order in which they are written.
    Object(Vec<JsonMember>),
}

/// One member of a JSON object.
#[derive(Debug)]
pub struct JsonMember {
    pub key: String,
    pub value: JsonValue,
}

/// The mathematical value of a [`JsonValue`].
pub ghost enum JsonView {
    Null,
    Bool(bool),
    Number(Seq<char>),
    String(Seq<char>),
    Array(Seq<JsonView>),
    Object(Seq<MemberView>),
}

/// The mathematical value of a [`JsonMember`].
pub ghost struct MemberView {
    pub key: Seq<char>,
    pub value: JsonView,
}

/// The values of a sequence of documents.
pub open spec fn json_views(items: Seq<JsonValue>) -> Seq<JsonView>
    decreases items,
{
    Seq::new(
        items.len(),
        |i: int|
            if 0 <= i < items.len() {
                items[i]@
            } else {
                arbitrary()
            },
    )
}

/// The values of a sequence of members.
pub open spec fn member_views(members: Seq<JsonMember>) -> Seq<MemberView>
    decreases members,
{
    Seq::new(
        members.len(),
        |i: int|
            if 0 <= i < members.len() {
                members[i]@
            } else {
                arbitrary()
            },
    )
}

impl View for JsonValue {
    type V = JsonView;

    open spec fn view(&self) -> JsonView
        decreases self,
    {
        match self {
            JsonValue::Null => JsonView::Null,
            JsonValue::Bool(flag) => JsonView::Bool(*flag),
            JsonValue::Number(digits) => JsonView::Number(digits@),
            JsonValue::String(text) => JsonView::String(text@),
            JsonValue::Array(items) => JsonView::Array(json_views(items@)),
            JsonValue::Object(members) => JsonView::Object(member_views(members@)),
        }
    }
}

impl View for JsonMember {
    type V = MemberView;

    open spec fn view(&self) -> MemberView
        decreases self,
    {
        MemberView { key: self.key@, value: self.value@ }
    }
}

/// The value of the first member with the given key.
pub open spec fn first_member(members: Seq<MemberView>, key: Seq<char>) -> Option<JsonView>
    decreases members.len(),
{
    if members.len() == 0 {
        None
    } else if members.first().key == key {
        Some(members.first().value)
    } else {
        first_member(members.drop_first(), key)
    }
}

/// The member `key` of a document: the value of the first member of that
/// name where the document is an object, nothing otherwise.
pub open spec fn member_of(document: JsonView, key: Seq<char>) -> Option<JsonView> {
    match document {
        JsonView::Object(members) => first_member(members, key),
        _ => None,
    }
}

/// The items of a document that is an array.
pub open spec fn items_of(document: JsonView) -> Option<Seq<JsonView>> {
    match document {
        JsonView::Array(items) => Some(items),
        _ => None,
    }
}

/// The text of a document that is a string.
pub open spec fn text_of(document: JsonView) -> Option<Seq<char>> {
    match document {
        JsonView::String(text) => Some(text),
        _ => None,
    }
}

impl JsonValue {
    /// The member `key` of an object; `None` where there is no such member
    /// or the document is no object.
    pub fn get(&self, key: &str) -> (found: Option<&JsonValue>)
        ensures
            match member_of(self@, key@) {
                Some(value) => found matches Some(member) && member@ == value,
                None => found is None,
            },
    {
        match self {
            JsonValue::Object(members) => {
                let ghost all = member_views(members@);
                assert(all.skip(0) =~= all);
                let mut at: usize = 0;
                while at < members.len()
                    invariant
                        at <= members@.len(),
                        self@ == JsonView::Object(all),
                        all == member_views(members@),
                        first_member(all, key@) == first_member(all.skip(at as int), key@),
                    decreases members@.len() - at,
                {
                    let member = &members[at];
                    proof {
                        assert(all.skip(at as int).drop_first() =~= all.skip(at + 1));
                    }
                    if same(member.key.as_str(), key) {
                        return Some(&member.value);
                    }
                    at = at + 1;
                }
                None
            },
            _ => None,
        }
    }

    /// The items of an array; `None` where the document is no array.
    pub fn as_array(&self) -> (items: Option<&Vec<JsonValue>>)
        ensures
            match items_of(self@) {
                Some(expected) => items matches Some(found) && json_views(found@) == expected,
                None => items is None,
            },
    {
        match self {
            JsonValue::Array(items) => Some(items),
            _ => None,
        }
    }

    /// The text of a string; `None` where the document is no string.
    pub fn as_str(&self) -> (text: Option<&str>)
        ensures
            match text_of(self@) {
                Some(expected) => text matches Some(found) && found@ == expected,
                None => text is None,
            },
    {
        match self {
            JsonValue::String(text) => Some(text.as_str()),
            _ => None,
        }
    }
}

} // verus!
