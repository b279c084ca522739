use vstd::prelude::*;

use crate::json::{JsonValue, first_member, member, member_of};
use crate::models::{DocumentSections, opt_view};

verus! {

/// `parts` joined with a newline between each two of them.
pub open spec fn join_lines(parts: Seq<Seq<char>>) -> Seq<char>
    decreases parts.len(),
{
    if parts.len() == 0 {
        Seq::empty()
    } else if parts.len() == 1 {
        parts[0]
    } else {
        join_lines(parts.subrange(0, parts.len() - 1)) + seq!['\n'] + parts.last()
    }
}

/// All the text of a value: a string is its own text; an array or an object
/// gives the non-empty texts of its elements (or member values), in order,
/// one per line; any other value has no text.
pub open spec fn all_text(v: JsonValue) -> Seq<char>
    decreases v,
{
    match v {
        JsonValue::Str(s) => s@,
        JsonValue::Array(items) => join_lines(item_texts(items@)),
        JsonValue::Object(members) => join_lines(member_texts(members@)),
        _ => Seq::empty(),
    }
}

/// The non-empty texts of `items`, in order.
pub open spec fn item_texts(items: Seq<JsonValue>) -> Seq<Seq<char>>
    decreases items,
{
    if items.len() == 0 {
        Seq::empty()
    } else {
        let rest = item_texts(items.subrange(0, items.len() - 1));
        let t = all_text(items[items.len() - 1]);
        if t.len() == 0 {
            rest
        } else {
            rest.push(t)
        }
    }
}

/// The non-empty texts of the values of `members`, in order.
pub open spec fn member_texts(members: Seq<(String, JsonValue)>) -> Seq<Seq<char>>
    decreases members,
{
    if members.len() == 0 {
        Seq::empty()
    } else {
        let rest = member_texts(members.subrange(0, members.len() - 1));
        let t = all_text(members[members.len() - 1].1);
        if t.len() == 0 {
            rest
        } else {
            rest.push(t)
        }
    }
}

/// The non-empty texts of two lists of values, one after the other, are
/// those of the first list followed by those of the second.
proof fn lemma_item_texts_concat(a: Seq<JsonValue>, b: Seq<JsonValue>)
    ensures
        item_texts(a + b) == item_texts(a) + item_texts(b),
    decreases b.len(),
{
    if b.len() == 0 {
        assert(a + b =~= a);
        assert(item_texts(a) + item_texts(b) =~= item_texts(a));
    } else {
        let front = b.subrange(0, b.len() - 1);
        lemma_item_texts_concat(a, front);
        let ab = a + b;
        assert(ab.subrange(0, ab.len() - 1) =~= a + front);
        assert(ab[ab.len() - 1] == b[b.len() - 1]);
        let t = all_text(b[b.len() - 1]);
        assert((item_texts(a) + item_texts(front)).push(t) =~= item_texts(a) + item_texts(
            front,
        ).push(t));
    }
}

/// The non-empty texts of two lists of members, one after the other, are
/// those of the first list followed by those of the second.
proof fn lemma_member_texts_concat(a: Seq<(String, JsonValue)>, b: Seq<(String, JsonValue)>)
    ensures
        member_texts(a + b) == member_texts(a) + member_texts(b),
    decreases b.len(),
{
    if b.len() == 0 {
        assert(a + b =~= a);
        assert(member_texts(a) + member_texts(b) =~= member_texts(a));
    } else {
        let front = b.subrange(0, b.len() - 1);
        lemma_member_texts_concat(a, front);
        let ab = a + b;
        assert(ab.subrange(0, ab.len() - 1) =~= a + front);
        assert(ab[ab.len() - 1] == b[b.len() - 1]);
        let t = all_text(b[b.len() - 1].1);
        assert((member_texts(a) + member_texts(front)).push(t) =~= member_texts(a)
            + member_texts(front).push(t));
    }
}

/// The non-empty texts of a single value.
proof fn lemma_item_texts_single(x: JsonValue)
    ensures
        item_texts(seq![x]) == if all_text(x).len() == 0 {
            Seq::<Seq<char>>::empty()
        } else {
            seq![all_text(x)]
        },
{
    assert(seq![x].subrange(0, 0) =~= Seq::<JsonValue>::empty());
    assert(item_texts(Seq::<JsonValue>::empty()) == Seq::<Seq<char>>::empty());
    assert(Seq::<Seq<char>>::empty().push(all_text(x)) =~= seq![all_text(x)]);
}

/// The non-empty texts of a single member.
proof fn lemma_member_texts_single(m: (String, JsonValue))
    ensures
        member_texts(seq![m]) == if all_text(m.1).len() == 0 {
            Seq::<Seq<char>>::empty()
        } else {
            seq![all_text(m.1)]
        },
{
    assert(seq![m].subrange(0, 0) =~= Seq::<(String, JsonValue)>::empty());
    assert(member_texts(Seq::<(String, JsonValue)>::empty()) == Seq::<Seq<char>>::empty());
    assert(Seq::<Seq<char>>::empty().push(all_text(m.1)) =~= seq![all_text(m.1)]);
}

/// A value wrapped in an array of its own has the same text as the value.
pub proof fn lemma_wrapping_in_array_keeps_text(v: JsonValue, items: Vec<JsonValue>)
    requires
        items@ == seq![v],
    ensures
        all_text(JsonValue::Array(items)) == all_text(v),
{
    lemma_item_texts_single(v);
}

/// Adding an element without text (null, a boolean, a number, an empty
/// string, or any value made only of these) anywhere in an array leaves the
/// array's text unchanged.
pub proof fn lemma_blank_element_keeps_text(
    items: Vec<JsonValue>,
    grown: Vec<JsonValue>,
    i: int,
    blank: JsonValue,
)
    requires
        0 <= i <= items@.len(),
        grown@ == items@.insert(i, blank),
        all_text(blank).len() == 0,
    ensures
        all_text(JsonValue::Array(grown)) == all_text(JsonValue::Array(items)),
{
    let s = items@;
    assert(s.insert(i, blank) =~= s.subrange(0, i) + seq![blank] + s.subrange(i, s.len() as int));
    assert(s =~= s.subrange(0, i) + s.subrange(i, s.len() as int));
    lemma_item_texts_concat(s.subrange(0, i) + seq![blank], s.subrange(i, s.len() as int));
    lemma_item_texts_concat(s.subrange(0, i), seq![blank]);
    lemma_item_texts_concat(s.subrange(0, i), s.subrange(i, s.len() as int));
    lemma_item_texts_single(blank);
    assert(item_texts(s.subrange(0, i)) + Seq::<Seq<char>>::empty() =~= item_texts(
        s.subrange(0, i),
    ));
}

/// Adding a member whose value has no text anywhere in an object leaves the
/// object's text unchanged.
pub proof fn lemma_blank_member_keeps_text(
    members: Vec<(String, JsonValue)>,
    grown: Vec<(String, JsonValue)>,
    i: int,
    blank: (String, JsonValue),
)
    requires
        0 <= i <= members@.len(),
        grown@ == members@.insert(i, blank),
        all_text(blank.1).len() == 0,
    ensures
        all_text(JsonValue::Object(grown)) == all_text(JsonValue::Object(members)),
{
    let s = members@;
    assert(s.insert(i, blank) =~= s.subrange(0, i) + seq![blank] + s.subrange(i, s.len() as int));
    assert(s =~= s.subrange(0, i) + s.subrange(i, s.len() as int));
    lemma_member_texts_concat(s.subrange(0, i) + seq![blank], s.subrange(i, s.len() as int));
    lemma_member_texts_concat(s.subrange(0, i), seq![blank]);
    lemma_member_texts_concat(s.subrange(0, i), s.subrange(i, s.len() as int));
    lemma_member_texts_single(blank);
    assert(member_texts(s.subrange(0, i)) + Seq::<Seq<char>>::empty() =~= member_texts(
        s.subrange(0, i),
    ));
}

/// Replacing an element of an array by a value with the same text leaves the
/// array's text unchanged. With the two laws above, this carries a blank
/// added at any depth up to the whole value.
pub proof fn lemma_same_text_element_keeps_text(
    items: Vec<JsonValue>,
    changed: Vec<JsonValue>,
    i: int,
    x: JsonValue,
)
    requires
        0 <= i < items@.len(),
        changed@ == items@.update(i, x),
        all_text(x) == all_text(items@[i]),
    ensures
        all_text(JsonValue::Array(changed)) == all_text(JsonValue::Array(items)),
{
    let s = items@;
    let n = s.len() as int;
    assert(s.update(i, x) =~= s.subrange(0, i) + seq![x] + s.subrange(i + 1, n));
    assert(s =~= s.subrange(0, i) + seq![s[i]] + s.subrange(i + 1, n));
    lemma_item_texts_concat(s.subrange(0, i) + seq![x], s.subrange(i + 1, n));
    lemma_item_texts_concat(s.subrange(0, i), seq![x]);
    lemma_item_texts_concat(s.subrange(0, i) + seq![s[i]], s.subrange(i + 1, n));
    lemma_item_texts_concat(s.subrange(0, i), seq![s[i]]);
    lemma_item_texts_single(x);
    lemma_item_texts_single(s[i]);
}

/// Replacing a member of an object by one whose value has the same text
/// leaves the object's text unchanged.
pub proof fn lemma_same_text_member_keeps_text(
    members: Vec<(String, JsonValue)>,
    changed: Vec<(String, JsonValue)>,
    i: int,
    m: (String, JsonValue),
)
    requires
        0 <= i < members@.len(),
        changed@ == members@.update(i, m),
        all_text(m.1) == all_text(members@[i].1),
    ensures
        all_text(JsonValue::Object(changed)) == all_text(JsonValue::Object(members)),
{
    let s = members@;
    let n = s.len() as int;
    assert(s.update(i, m) =~= s.subrange(0, i) + seq![m] + s.subrange(i + 1, n));
    assert(s =~= s.subrange(0, i) + seq![s[i]] + s.subrange(i + 1, n));
    lemma_member_texts_concat(s.subrange(0, i) + seq![m], s.subrange(i + 1, n));
    lemma_member_texts_concat(s.subrange(0, i), seq![m]);
    lemma_member_texts_concat(s.subrange(0, i) + seq![s[i]], s.subrange(i + 1, n));
    lemma_member_texts_concat(s.subrange(0, i), seq![s[i]]);
    lemma_member_texts_single(m);
    lemma_member_texts_single(s[i]);
}

/// The views of a list of strings.
pub open spec fn views(texts: Seq<String>) -> Seq<Seq<char>> {
    texts.map_values(|t: String| t@)
}

/// Joins `parts` with a newline between each two of them.
pub fn join_with_newlines(parts: &Vec<String>) -> (joined: String)
    ensures
        joined@ == join_lines(views(parts@)),
{
    let mut joined = String::new();
    let n = parts.len();
    for i in 0..n
        invariant
            n == parts@.len(),
            joined@ == join_lines(views(parts@.subrange(0, i as int))),
    {
        proof {
            let pre = views(parts@.subrange(0, i as int));
            let post = views(parts@.subrange(0, i + 1));
            assert(post.subrange(0, post.len() - 1) =~= pre);
            assert(post.last() == parts@[i as int]@);
        }
        if i > 0 {
            proof {
                reveal_strlit("\n");
            }
            joined.append("\n");
        }
        joined.append(parts[i].as_str());
    }
    assert(parts@.subrange(0, n as int) =~= parts@);
    joined
}

/// Gathers all the text of a document value, as [`all_text`] describes it.
pub fn extract_all_text(value: &JsonValue) -> (text: String)
    ensures
        text@ == all_text(*value),
    decreases value,
{
    match value {
        JsonValue::Str(s) => s.clone(),
        JsonValue::Array(items) => {
            let mut texts: Vec<String> = Vec::new();
            let n = items.len();
            for i in 0..n
                invariant
                    n == items@.len(),
                    *value == JsonValue::Array(*items),
                    views(texts@) == item_texts(items@.subrange(0, i as int)),
            {
                proof {
                    let sub = items@.subrange(0, i + 1);
                    assert(sub.subrange(0, sub.len() - 1) =~= items@.subrange(0, i as int));
                    assert(sub[sub.len() - 1] == items@[i as int]);
                    assert(decreases_to!(*value => (*value)->Array_0));
                    assert(decreases_to!(*items => items@));
                    assert(decreases_to!(items@ => items@[i as int]));
                    assert(decreases_to!(*value => items@[i as int]));
                }
                let t = extract_all_text(&items[i]);
                if !t.as_str().is_empty() {
                    texts.push(t);
                    assert(views(texts@) =~= item_texts(items@.subrange(0, i + 1)));
                }
            }
            assert(items@.subrange(0, n as int) =~= items@);
            join_with_newlines(&texts)
        },
        JsonValue::Object(members) => {
            let mut texts: Vec<String> = Vec::new();
            let n = members.len();
            for i in 0..n
                invariant
                    n == members@.len(),
                    *value == JsonValue::Object(*members),
                    views(texts@) == member_texts(members@.subrange(0, i as int)),
            {
                proof {
                    let sub = members@.subrange(0, i + 1);
                    assert(sub.subrange(0, sub.len() - 1) =~= members@.subrange(0, i as int));
                    assert(sub[sub.len() - 1] == members@[i as int]);
                    assert(decreases_to!(*value => (*value)->Object_0));
                    assert(decreases_to!(*members => members@));
                    assert(decreases_to!(members@ => members@[i as int]));
                    assert(decreases_to!(members@[i as int] => members@[i as int].1));
                    assert(decreases_to!(*value => members@[i as int].1));
                }
                let t = extract_all_text(&members[i].1);
                if !t.as_str().is_empty() {
                    texts.push(t);
                    assert(views(texts@) =~= member_texts(members@.subrange(0, i + 1)));
                }
            }
            assert(members@.subrange(0, n as int) =~= members@);
            join_with_newlines(&texts)
        },
        _ => String::new(),
    }
}

/// A string's text is the whole string.
pub proof fn lemma_string_is_its_own_text(s: String)
    ensures
        all_text(JsonValue::Str(s)) == s@,
{
}

/// Whether `part` stands whole in `whole`, starting at place `k`.
pub open spec fn occurs_at(whole: Seq<char>, part: Seq<char>, k: int) -> bool {
    0 <= k && k + part.len() <= whole.len() && whole.subrange(k, k + part.len()) == part
}

/// Each of the joined parts stands whole, at some place, in the joined text.
proof fn lemma_join_keeps_each_part(parts: Seq<Seq<char>>, j: int)
    requires
        0 <= j < parts.len(),
    ensures
        exists|k: int| #[trigger] occurs_at(join_lines(parts), parts[j], k),
    decreases parts.len(),
{
    let joined = join_lines(parts);
    if parts.len() == 1 {
        assert(joined.subrange(0, parts[j].len() as int) =~= parts[j]);
        assert(occurs_at(joined, parts[j], 0));
    } else {
        let front = parts.subrange(0, parts.len() - 1);
        let head = join_lines(front) + seq!['\n'];
        assert(joined == head + parts.last());
        if j == parts.len() - 1 {
            assert(joined.subrange(head.len() as int, (head.len() + parts[j].len()) as int) =~= parts[j]);
            assert(occurs_at(joined, parts[j], head.len() as int));
        } else {
            lemma_join_keeps_each_part(front, j);
            assert(front[j] == parts[j]);
            let k = choose|k: int| #[trigger] occurs_at(join_lines(front), front[j], k);
            assert(joined.subrange(k, k + parts[j].len()) =~= join_lines(front).subrange(
                k,
                k + front[j].len(),
            ));
            assert(occurs_at(joined, parts[j], k));
        }
    }
}

/// The non-empty text of each element is one of the parts of the array's text.
proof fn lemma_item_text_is_a_part(items: Seq<JsonValue>, i: int)
    requires
        0 <= i < items.len(),
        all_text(items[i]).len() > 0,
    ensures
        item_texts(items).contains(all_text(items[i])),
    decreases items.len(),
{
    let last = items.len() - 1;
    let rest = items.subrange(0, last);
    if i < last {
        lemma_item_text_is_a_part(rest, i);
        assert(rest[i] == items[i]);
        let t = all_text(items[i]);
        let k = choose|k: int| 0 <= k < item_texts(rest).len() && item_texts(rest)[k] == t;
        if all_text(items[last]).len() > 0 {
            assert(item_texts(items)[k] == t);
        }
    } else {
        assert(item_texts(items).last() == all_text(items[i]));
    }
}

/// Every non-empty text of an element of an array (every non-empty string
/// element in particular) stands whole, at some place, in the array's text.
pub proof fn lemma_element_text_occurs_in_text(items: Vec<JsonValue>, i: int)
    requires
        0 <= i < items@.len(),
    ensures
        exists|k: int| #[trigger] occurs_at(all_text(JsonValue::Array(items)), all_text(items@[i]), k),
{
    let t = all_text(items@[i]);
    let whole = all_text(JsonValue::Array(items));
    if t.len() == 0 {
        assert(whole.subrange(0, 0) =~= t);
        assert(occurs_at(whole, t, 0));
    } else {
        lemma_item_text_is_a_part(items@, i);
        let j = choose|j: int| 0 <= j < item_texts(items@).len() && item_texts(items@)[j] == t;
        lemma_join_keeps_each_part(item_texts(items@), j);
    }
}

/// Every non-empty text of a member value of an object (every non-empty
/// string member in particular) stands whole, at some place, in the object's
/// text.
pub proof fn lemma_member_value_text_occurs_in_text(members: Vec<(String, JsonValue)>, i: int)
    requires
        0 <= i < members@.len(),
    ensures
        exists|k: int|
            #[trigger] occurs_at(all_text(JsonValue::Object(members)), all_text(members@[i].1), k),
{
    let t = all_text(members@[i].1);
    let whole = all_text(JsonValue::Object(members));
    if t.len() == 0 {
        assert(whole.subrange(0, 0) =~= t);
        assert(occurs_at(whole, t, 0));
    } else {
        lemma_member_text_is_a_part(members@, i);
        let j = choose|j: int| 0 <= j < member_texts(members@).len() && member_texts(members@)[j]
            == t;
        lemma_join_keeps_each_part(member_texts(members@), j);
    }
}

/// The whole of every string member of an object stands, at some place, in
/// the object's text.
pub proof fn lemma_string_member_occurs_in_text(members: Vec<(String, JsonValue)>, i: int)
    requires
        0 <= i < members@.len(),
        members@[i].1 is Str,
    ensures
        exists|k: int|
            #[trigger] occurs_at(all_text(JsonValue::Object(members)), members@[i].1->Str_0@, k),
{
    lemma_member_value_text_occurs_in_text(members, i);
}

/// The whole of every string element of an array stands, at some place, in
/// the array's text.
pub proof fn lemma_string_element_occurs_in_text(items: Vec<JsonValue>, i: int)
    requires
        0 <= i < items@.len(),
        items@[i] is Str,
    ensures
        exists|k: int| #[trigger] occurs_at(all_text(JsonValue::Array(items)), items@[i]->Str_0@, k),
{
    lemma_element_text_occurs_in_text(items, i);
}

/// The member found by name is one of the object's members.
proof fn lemma_first_member_is_a_member(members: Seq<(String, JsonValue)>, key: Seq<char>)
    ensures
        first_member(members, key) matches Some(v) ==> exists|i: int|
            0 <= i < members.len() && (#[trigger] members[i]).1 == v,
    decreases members.len(),
{
    if members.len() > 0 && members[0].0@ != key {
        lemma_first_member_is_a_member(members.drop_first(), key);
        if let Some(v) = first_member(members, key) {
            let i = choose|i: int| 0 <= i < members.len() - 1 && (#[trigger] members.drop_first()[i]).1 == v;
            assert(members[i + 1] == members.drop_first()[i]);
        }
    }
}

/// The non-empty text of each member value is one of the parts of the
/// object's text.
proof fn lemma_member_text_is_a_part(members: Seq<(String, JsonValue)>, i: int)
    requires
        0 <= i < members.len(),
        all_text(members[i].1).len() > 0,
    ensures
        member_texts(members).contains(all_text(members[i].1)),
    decreases members.len(),
{
    let last = members.len() - 1;
    let rest = members.subrange(0, last);
    if i < last {
        lemma_member_text_is_a_part(rest, i);
        assert(rest[i] == members[i]);
        let t = all_text(members[i].1);
        let k = choose|k: int| 0 <= k < member_texts(rest).len() && member_texts(rest)[k] == t;
        if all_text(members[last].1).len() > 0 {
            assert(member_texts(members)[k] == t);
        }
    } else {
        assert(member_texts(members).last() == all_text(members[i].1));
    }
}

/// The text of a section of a stored document is one of the parts that make
/// up the document's full text, one per line.
pub proof fn lemma_section_text_is_part_of_full_text(doc: JsonValue, key: Seq<char>)
    ensures
        section_text(member_of(doc, key)) matches Some(t) ==> (doc matches JsonValue::Object(
            members,
        ) && member_texts(members@).contains(t) && all_text(doc) == join_lines(
            member_texts(members@),
        )),
{
    if let JsonValue::Object(members) = doc {
        lemma_first_member_is_a_member(members@, key);
        if let Some(v) = first_member(members@, key) {
            if all_text(v).len() > 0 {
                let i = choose|i: int| 0 <= i < members@.len() && (#[trigger] members@[i]).1 == v;
                lemma_member_text_is_a_part(members@, i);
            }
        }
    }
}

/// The text of an optional section: present only when the section is there
/// and has some text.
pub open spec fn section_text(v: Option<JsonValue>) -> Option<Seq<char>> {
    match v {
        Some(x) => if all_text(x).len() > 0 {
            Some(all_text(x))
        } else {
            None
        },
        None => None,
    }
}

/// `first` if it is there, else `second`.
pub open spec fn either_member(first: Option<JsonValue>, second: Option<JsonValue>) -> Option<
    JsonValue,
> {
    match first {
        Some(_) => first,
        None => second,
    }
}

/// A job analysis's requirements section is read from its `requirements`
/// member whenever there is one, whether or not it also has an `experience`
/// member; the `experience` member is read only when there is no
/// `requirements` member.
pub proof fn lemma_requirements_come_before_experience(doc: JsonValue)
    ensures
        member_of(doc, "requirements"@) is Some ==> section_text(
            either_member(member_of(doc, "requirements"@), member_of(doc, "experience"@)),
        ) == section_text(member_of(doc, "requirements"@)),
        member_of(doc, "requirements"@) is None ==> section_text(
            either_member(member_of(doc, "requirements"@), member_of(doc, "experience"@)),
        ) == section_text(member_of(doc, "experience"@)),
{
}

/// Gathers the text of an optional section, keeping it only when it is not empty.
fn optional_section_text(v: Option<&JsonValue>) -> (text: Option<String>)
    ensures
        opt_view(text) == section_text(
            match v {
                Some(x) => Some(*x),
                None => None,
            },
        ),
{
    match v {
        Some(x) => {
            let t = extract_all_text(x);
            if t.as_str().is_empty() {
                None
            } else {
                Some(t)
            }
        },
        None => None,
    }
}

/// The sections of a stored resume: all of its text, and the text of its
/// `skills`, `experience` and `education` members where they have some.
pub fn resume_sections(doc: &JsonValue) -> (sections: DocumentSections)
    ensures
        sections.full_text@ == all_text(*doc),
        opt_view(sections.skills) == section_text(member_of(*doc, "skills"@)),
        opt_view(sections.experience_or_requirements) == section_text(
            member_of(*doc, "experience"@),
        ),
        opt_view(sections.education) == section_text(member_of(*doc, "education"@)),
{
    let full_text = extract_all_text(doc);
    let skills = optional_section_text(member(doc, "skills"));
    let experience_or_requirements = optional_section_text(member(doc, "experience"));
    let education = optional_section_text(member(doc, "education"));
    DocumentSections { full_text, skills, experience_or_requirements, education }
}

/// The sections of a stored job analysis: all of its text, the text of its
/// `skills` member, and that of its `requirements` member, or of its
/// `experience` member where there is no `requirements` member. A job
/// analysis has no education section.
pub fn job_analysis_sections(doc: &JsonValue) -> (sections: DocumentSections)
    ensures
        sections.full_text@ == all_text(*doc),
        opt_view(sections.skills) == section_text(member_of(*doc, "skills"@)),
        opt_view(sections.experience_or_requirements) == section_text(
            either_member(member_of(*doc, "requirements"@), member_of(*doc, "experience"@)),
        ),
        sections.education is None,
        member_of(*doc, "requirements"@) is Some ==> opt_view(sections.experience_or_requirements)
            == section_text(member_of(*doc, "requirements"@)),
        member_of(*doc, "requirements"@) is None ==> opt_view(sections.experience_or_requirements)
            == section_text(member_of(*doc, "experience"@)),
{
    let full_text = extract_all_text(doc);
    let skills = optional_section_text(member(doc, "skills"));
    let requirements = match member(doc, "requirements") {
        Some(r) => Some(r),
        None => member(doc, "experience"),
    };
    let experience_or_requirements = optional_section_text(requirements);
    DocumentSections { full_text, skills, experience_or_requirements, education: None }
}

} // verus!
