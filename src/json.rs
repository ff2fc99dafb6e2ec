use vstd::prelude::*;
use vstd::string::StringExecFns;

verus! {

/// A JSON document as the signaling protocol exchanges it.
///
/// Object members keep the order in which they were written. Numbers that are
/// neither a `u64` nor a negative `i64` keep their decimal text.
#[derive(Debug)]
pub enum JsonValue {
    Null,
    Bool(bool),
    UInt(u64),
    Int(i64),
    Num(String),
    Str(String),
    Array(Vec<JsonValue>),
    Object(Vec<(String, JsonValue)>),
}

/// The value of the first member of `fields` named `key`.
pub open spec fn member(fields: Seq<(String, JsonValue)>, key: Seq<char>) -> Option<JsonValue>
    decreases fields.len(),
{
    if fields.len() == 0 {
        None
    } else if fields[0].0@ == key {
        Some(fields[0].1)
    } else {
        member(fields.drop_first(), key)
    }
}

/// The member `key` of `v` when `v` is an object.
pub open spec fn field(v: JsonValue, key: Seq<char>) -> Option<JsonValue> {
    match v {
        JsonValue::Object(fields) => member(fields@, key),
        _ => None,
    }
}

/// The text of member `key` of `v` when it is a string.
pub open spec fn str_field(v: JsonValue, key: Seq<char>) -> Option<Seq<char>> {
    match field(v, key) {
        Some(JsonValue::Str(s)) => Some(s@),
        _ => None,
    }
}

/// The member `key` of `v` when it is a non-negative integer.
pub open spec fn uint_field(v: JsonValue, key: Seq<char>) -> Option<u64> {
    match field(v, key) {
        Some(JsonValue::UInt(n)) => Some(n),
        _ => None,
    }
}

/// The member `key` of `v` when it is a boolean.
pub open spec fn bool_field(v: JsonValue, key: Seq<char>) -> Option<bool> {
    match field(v, key) {
        Some(JsonValue::Bool(b)) => Some(b),
        _ => None,
    }
}

/// An owned copy of a string slice.
pub fn text(s: &str) -> (r: String)
    ensures
        r@ == s@,
{
    String::from_str(s)
}

/// Looks up the member `key` of `v`; `None` when `v` is not an object or
/// has no such member.
pub fn get_field<'a>(v: &'a JsonValue, key: &str) -> (r: Option<&'a JsonValue>)
    ensures
        match r {
            Some(x) => field(*v, key@) == Some(*x),
            None => field(*v, key@) is None,
        },
{
    match v {
        JsonValue::Object(fields) => {
            let k = text(key);
            let mut i: usize = 0;
            assert(fields@.skip(0) =~= fields@);
            while i < fields.len()
                invariant
                    i <= fields@.len(),
                    k@ == key@,
                    field(*v, key@) == member(fields@, key@),
                    member(fields@, key@) == member(fields@.skip(i as int), key@),
                decreases fields.len() - i,
            {
                assert(fields@.skip(i as int).drop_first() =~= fields@.skip(i + 1));
                assert(fields@.skip(i as int)[0] == fields@[i as int]);
                if fields[i].0 == k {
                    return Some(&fields[i].1);
                }
                i = i + 1;
            }
            None
        },
        _ => None,
    }
}

/// The member `key` of `v` when it is a string.
pub fn get_str(v: &JsonValue, key: &str) -> (r: Option<String>)
    ensures
        match r {
            Some(s) => str_field(*v, key@) == Some(s@),
            None => str_field(*v, key@) is None,
        },
{
    match get_field(v, key) {
        Some(JsonValue::Str(s)) => Some(s.clone()),
        _ => None,
    }
}

/// The member `key` of `v` when it is a non-negative integer.
pub fn get_uint(v: &JsonValue, key: &str) -> (r: Option<u64>)
    ensures
        r == uint_field(*v, key@),
{
    match get_field(v, key) {
        Some(JsonValue::UInt(n)) => Some(*n),
        _ => None,
    }
}

/// The member `key` of `v` when it is a boolean.
pub fn get_bool(v: &JsonValue, key: &str) -> (r: Option<bool>)
    ensures
        r == bool_field(*v, key@),
{
    match get_field(v, key) {
        Some(JsonValue::Bool(b)) => Some(*b),
        _ => None,
    }
}

} // verus!

verus! {

/// A member whose name occurs at no earlier position is the one found.
pub proof fn lemma_member_at(fields: Seq<(String, JsonValue)>, i: int, key: Seq<char>)
    requires
        0 <= i < fields.len(),
        fields[i].0@ == key,
        forall|j: int| 0 <= j < i ==> fields[j].0@ != key,
    ensures
        member(fields, key) == Some(fields[i].1),
    decreases i,
{
    if i > 0 {
        lemma_member_at(fields.drop_first(), i - 1, key);
    }
}

/// A name that no member carries is not found.
pub proof fn lemma_member_absent(fields: Seq<(String, JsonValue)>, key: Seq<char>)
    requires
        forall|j: int| 0 <= j < fields.len() ==> fields[j].0@ != key,
    ensures
        member(fields, key) is None,
    decreases fields.len(),
{
    if fields.len() > 0 {
        lemma_member_absent(fields.drop_first(), key);
    }
}

} // verus!

verus! {

/// The member names and tags of the signaling protocol are pairwise distinct
/// wherever one frame could hold both.
pub proof fn lemma_protocol_names_distinct()
    ensures
        "type"@ != "version"@,
        "type"@ != "checksum"@,
        "type"@ != "roomType"@,
        "type"@ != "roomToken"@,
        "type"@ != "participantToken"@,
        "type"@ != "quit"@,
        "type"@ != "data"@,
        "version"@ != "checksum"@,
        "roomType"@ != "roomToken"@,
        "roomType"@ != "participantToken"@,
        "roomToken"@ != "participantToken"@,
        "roomType"@ != "quit"@,
        "hello"@ != "join"@,
        "hello"@ != "joined"@,
        "hello"@ != "message"@,
        "hello"@ != "bye"@,
        "join"@ != "joined"@,
        "join"@ != "message"@,
        "join"@ != "bye"@,
        "joined"@ != "message"@,
        "joined"@ != "bye"@,
        "message"@ != "bye"@,
        "type"@ != "data"@,
        "type"@ != "sdp"@,
        "type"@ != "recipient"@,
        "type"@ != "candidate"@,
        "type"@ != "sdpMid"@,
        "type"@ != "sdpMLineIndex"@,
        "sdp"@ != "recipient"@,
        "candidate"@ != "sdpMid"@,
        "candidate"@ != "sdpMLineIndex"@,
        "candidate"@ != "recipient"@,
        "sdpMid"@ != "sdpMLineIndex"@,
        "sdpMid"@ != "recipient"@,
        "sdpMLineIndex"@ != "recipient"@,
{
    reveal_strlit("type");
    reveal_strlit("version");
    reveal_strlit("checksum");
    reveal_strlit("roomType");
    reveal_strlit("roomToken");
    reveal_strlit("participantToken");
    reveal_strlit("quit");
    reveal_strlit("data");
    reveal_strlit("hello");
    reveal_strlit("join");
    reveal_strlit("joined");
    reveal_strlit("message");
    reveal_strlit("bye");
    reveal_strlit("sdp");
    reveal_strlit("recipient");
    reveal_strlit("candidate");
    reveal_strlit("sdpMid");
    reveal_strlit("sdpMLineIndex");
    assert("type"@.len() == 4);
    assert("version"@.len() == 7);
    assert("checksum"@.len() == 8);
    assert("roomType"@.len() == 8);
    assert("roomToken"@.len() == 9);
    assert("participantToken"@.len() == 16);
    assert("quit"@.len() == 4);
    assert("data"@.len() == 4);
    assert("hello"@.len() == 5);
    assert("join"@.len() == 4);
    assert("joined"@.len() == 6);
    assert("message"@.len() == 7);
    assert("bye"@.len() == 3);
    assert("sdp"@.len() == 3);
    assert("recipient"@.len() == 9);
    assert("candidate"@.len() == 9);
    assert("sdpMid"@.len() == 6);
    assert("sdpMLineIndex"@.len() == 13);
    assert("type"@[0] != "quit"@[0]);
    assert("type"@[0] != "data"@[0]);
    assert("roomType"@[5] != "roomToken"@[5]);
    assert("candidate"@[0] != "recipient"@[0]);
}

} // verus!
