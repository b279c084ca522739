use vstd::prelude::*;

verus! {

/// A stored JSON document, holding what the service reads of it: strings,
/// arrays and objects. Numbers carry no value here because no rule reads one.
/// An object's members stand in the order in which the document is walked.
pub enum JsonValue {
    Null,
    Bool(bool),
    Number,
    Str(String),
    Array(Vec<JsonValue>),
    Object(Vec<(String, JsonValue)>),
}

/// The member of an object named `key`: the first one with that name, if any.
/// Values that are not objects have no members.
pub open spec fn member_of(v: JsonValue, key: Seq<char>) -> Option<JsonValue> {
    match v {
        JsonValue::Object(members) => first_member(members@, key),
        _ => None,
    }
}

/// The value of the first pair in `members` whose name is `key`.
pub open spec fn first_member(members: Seq<(String, JsonValue)>, key: Seq<char>) -> Option<
    JsonValue,
>
    decreases members.len(),
{
    if members.len() == 0 {
        None
    } else if members[0].0@ == key {
        Some(members[0].1)
    } else {
        first_member(members.drop_first(), key)
    }
}

/// Lookup by name finds the first member with that name, wherever it stands,
/// and finds nothing only when no member has that name.
pub proof fn lemma_first_member_finds_the_first_named(members: Seq<(String, JsonValue)>, key: Seq<char>)
    ensures
        first_member(members, key) is Some <==> exists|i: int|
            0 <= i < members.len() && (#[trigger] members[i]).0@ == key,
        forall|i: int|
            0 <= i < members.len() && (#[trigger] members[i]).0@ == key && (forall|j: int|
                0 <= j < i ==> members[j].0@ != key) ==> first_member(members, key) == Some(
                members[i].1,
            ),
    decreases members.len(),
{
    if members.len() > 0 {
        let rest = members.drop_first();
        lemma_first_member_finds_the_first_named(rest, key);
        if members[0].0@ != key {
            assert forall|i: int|
                0 <= i < members.len() && (#[trigger] members[i]).0@ == key implies 1 <= i
                && rest[i - 1].0@ == key by {}
            assert forall|i: int|
                0 <= i < rest.len() && (#[trigger] rest[i]).0@ == key implies members[i + 1].0@
                == key by {}
            assert forall|i: int|
                0 <= i < members.len() && (#[trigger] members[i]).0@ == key && (forall|j: int|
                    0 <= j < i ==> members[j].0@ != key) implies first_member(members, key) == Some(
                members[i].1,
            ) by {
                assert(rest[i - 1] == members[i]);
                assert forall|j: int| 0 <= j < i - 1 implies rest[j].0@ != key by {
                    assert(rest[j] == members[j + 1]);
                }
            }
        } else {
            assert(members[0].0@ == key);
        }
    }
}

/// The member of a value named `key`: for an object, the first member with
/// that name wherever it stands, and none only when no member has it; a value
/// that is not an object has no members.
pub proof fn lemma_member_of_finds_any_named_member(v: JsonValue, key: Seq<char>)
    ensures
        !(v is Object) ==> member_of(v, key) is None,
        v matches JsonValue::Object(members) ==> {
            &&& member_of(v, key) is Some <==> exists|i: int|
                0 <= i < members@.len() && (#[trigger] members@[i]).0@ == key
            &&& forall|i: int|
                0 <= i < members@.len() && (#[trigger] members@[i]).0@ == key && (forall|j: int|
                    0 <= j < i ==> members@[j].0@ != key) ==> member_of(v, key) == Some(
                    members@[i].1,
                )
        },
{
    if let JsonValue::Object(members) = v {
        lemma_first_member_finds_the_first_named(members@, key);
    }
}

/// Looks up the member named `key` of an object.
pub fn member<'a>(value: &'a JsonValue, key: &str) -> (found: Option<&'a JsonValue>)
    ensures
        match found {
            Some(v) => member_of(*value, key@) == Some(*v),
            None => member_of(*value, key@) is None,
        },
{
    match value {
        JsonValue::Object(members) => {
            let wanted = String::from_str(key);
            let n = members.len();
            let mut i: usize = 0;
            assert(members@.subrange(0, n as int) =~= members@);
            while i < n
                invariant
                    n == members@.len(),
                    i <= n,
                    wanted@ == key@,
                    member_of(*value, key@) == first_member(members@, key@),
                    first_member(members@, key@) == first_member(
                        members@.subrange(i as int, n as int),
                        key@,
                    ),
                decreases n - i,
            {
                assert(members@.subrange(i as int, n as int).drop_first() =~= members@.subrange(
                    i + 1,
                    n as int,
                ));
                assert(members@.subrange(i as int, n as int)[0] == members@[i as int]);
                if members[i].0 == wanted {
                    return Some(&members[i].1);
                }
                i = i + 1;
            }
            None
        },
        _ => None,
    }
}

} // verus!
