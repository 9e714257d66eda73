//! The JSON values that the library reads, and where in a chat-completions
//! reply body the content, usage and model are found.
use vstd::prelude::*;
use crate::client::{ResponseFields, UsageFields};

verus! {

/// A JSON value as the library reads it.
#[derive(Debug)]
pub enum JsonValue {
    Null,
    Bool(bool),
    /// A number: its value when it is an unsigned integer that fits in 64
    /// bits, else `None`.
    Number(Option<u64>),
    Text(String),
    Array(Vec<JsonValue>),
    /// An object's members, each key once.
    Object(Vec<(String, JsonValue)>),
}

/// The value of the first member named `key`.
pub open spec fn member(entries: Seq<(String, JsonValue)>, key: Seq<char>) -> Option<JsonValue>
    decreases entries.len(),
{
    if entries.len() == 0 {
        None
    } else if entries[0].0@ == key {
        Some(entries[0].1)
    } else {
        member(entries.drop_first(), key)
    }
}

/// The member `key` of an object; `None` for a missing member or a value
/// that is not an object.
pub open spec fn json_field(v: JsonValue, key: Seq<char>) -> Option<JsonValue> {
    match v {
        JsonValue::Object(entries) => member(entries@, key),
        _ => None,
    }
}

/// Element `i` of an array; `None` out of range or for a value that is not
/// an array.
pub open spec fn json_index(v: JsonValue, i: int) -> Option<JsonValue> {
    match v {
        JsonValue::Array(items) => if 0 <= i < items@.len() {
            Some(items@[i])
        } else {
            None
        },
        _ => None,
    }
}

/// The text of a value that is a string.
pub open spec fn json_text(v: Option<JsonValue>) -> Option<Seq<char>> {
    match v {
        Some(JsonValue::Text(s)) => Some(s@),
        _ => None,
    }
}

/// The number of a value that is an unsigned integer.
pub open spec fn json_u64(v: Option<JsonValue>) -> Option<u64> {
    match v {
        Some(JsonValue::Number(n)) => n,
        _ => None,
    }
}

/// The string at `choices[0].message.content` of a reply body.
pub open spec fn reply_content(body: JsonValue) -> Option<Seq<char>> {
    match json_field(body, "choices"@) {
        Some(choices) => match json_index(choices, 0) {
            Some(choice) => match json_field(choice, "message"@) {
                Some(message) => json_text(json_field(message, "content"@)),
                None => None,
            },
            None => None,
        },
        None => None,
    }
}

/// The token counts of a reply's `usage` value.
pub open spec fn reply_usage(usage: JsonValue) -> UsageFields {
    UsageFields {
        prompt_tokens: json_u64(json_field(usage, "prompt_tokens"@)),
        completion_tokens: json_u64(json_field(usage, "completion_tokens"@)),
        total_tokens: json_u64(json_field(usage, "total_tokens"@)),
    }
}

fn get_member<'a>(v: &'a JsonValue, key: &str) -> (r: Option<&'a JsonValue>)
    ensures
        match r {
            Some(x) => json_field(*v, key@) == Some(*x),
            None => json_field(*v, key@) is None,
        },
{
    match v {
        JsonValue::Object(entries) => {
            let k = String::from_str(key);
            let mut i: usize = 0;
            assert(entries@.skip(0) =~= entries@);
            while i < entries.len()
                invariant
                    i <= entries@.len(),
                    k@ == key@,
                    json_field(*v, key@) == member(entries@, key@),
                    member(entries@, key@) == member(entries@.skip(i as int), key@),
                decreases entries@.len() - i,
            {
                assert(entries@.skip(i as int).drop_first() =~= entries@.skip(i + 1));
                assert(entries@.skip(i as int)[0] == entries@[i as int]);
                if entries[i].0 == k {
                    assert(member(entries@.skip(i as int), key@) == Some(entries@[i as int].1));
                    return Some(&entries[i].1);
                }
                i = i + 1;
            }
            assert(entries@.skip(i as int).len() == 0);
            None
        },
        _ => None,
    }
}

fn get_index<'a>(v: &'a JsonValue, i: usize) -> (r: Option<&'a JsonValue>)
    ensures
        match r {
            Some(x) => json_index(*v, i as int) == Some(*x),
            None => json_index(*v, i as int) is None,
        },
{
    match v {
        JsonValue::Array(items) => if i < items.len() {
            Some(&items[i])
        } else {
            None
        },
        _ => None,
    }
}

fn get_text(v: Option<&JsonValue>) -> (r: Option<String>)
    ensures
        json_text(
            match v {
                Some(x) => Some(*x),
                None => None,
            },
        ) == match r {
            Some(s) => Some(s@),
            None => None,
        },
{
    match v {
        Some(JsonValue::Text(s)) => Some(s.clone()),
        _ => None,
    }
}

fn get_u64(v: Option<&JsonValue>) -> (r: Option<u64>)
    ensures
        r == json_u64(
            match v {
                Some(x) => Some(*x),
                None => None,
            },
        ),
{
    match v {
        Some(JsonValue::Number(n)) => *n,
        _ => None,
    }
}

/// Reads a chat-completions reply body: the string at
/// `choices[0].message.content`, the token counts of `usage` (present exactly
/// when the body has that member), and the string at `model`.
pub fn reply_fields(body: &JsonValue) -> (r: ResponseFields)
    ensures
        match r.content {
            Some(c) => reply_content(*body) == Some(c@),
            None => reply_content(*body) is None,
        },
        r.usage == (match json_field(*body, "usage"@) {
            Some(u) => Some(reply_usage(u)),
            None => None::<UsageFields>,
        }),
        json_text(json_field(*body, "model"@)) == match r.model {
            Some(m) => Some(m@),
            None => None,
        },
{
    let content = match get_member(body, "choices") {
        Some(choices) => match get_index(choices, 0) {
            Some(choice) => match get_member(choice, "message") {
                Some(message) => get_text(get_member(message, "content")),
                None => None,
            },
            None => None,
        },
        None => None,
    };
    let usage = match get_member(body, "usage") {
        Some(u) => Some(
            UsageFields {
                prompt_tokens: get_u64(get_member(u, "prompt_tokens")),
                completion_tokens: get_u64(get_member(u, "completion_tokens")),
                total_tokens: get_u64(get_member(u, "total_tokens")),
            },
        ),
        None => None,
    };
    let model = get_text(get_member(body, "model"));
    ResponseFields { content, usage, model }
}

} // verus!
