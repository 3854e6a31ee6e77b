//! JSON values, as the bridge's messages are made of them.

use vstd::prelude::*;

use crate::text::same_text;

verus! {

/// A JSON value. A number is held as it is written; an object holds its members in order.
#[derive(Debug)]
pub enum Json {
    Null,
    Bool(bool),
    Number(String),
    Text(String),
    Array(Vec<Json>),
    Object(Vec<Member>),
}

/// A member of a JSON object.
#[derive(Debug)]
pub struct Member {
    pub name: String,
    pub value: Json,
}

/// What a JSON value holds.
pub enum JsonView {
    Null,
    Bool(bool),
    Number(Seq<char>),
    Text(Seq<char>),
    Array(Seq<JsonView>),
    Object(Seq<(Seq<char>, JsonView)>),
}

impl Json {
    /// What the value holds.
    pub open spec fn view(&self) -> JsonView
        decreases self,
    {
        match self {
            Json::Null => JsonView::Null,
            Json::Bool(b) => JsonView::Bool(*b),
            Json::Number(text) => JsonView::Number(text@),
            Json::Text(text) => JsonView::Text(text@),
            Json::Array(items) => JsonView::Array(
                Seq::new(
                    items@.len(),
                    |i: int|
                        if 0 <= i < items@.len() {
                            items@[i].view()
                        } else {
                            JsonView::Null
                        },
                ),
            ),
            Json::Object(members) => JsonView::Object(
                Seq::new(
                    members@.len(),
                    |i: int|
                        if 0 <= i < members@.len() {
                            (members@[i].name@, members@[i].value.view())
                        } else {
                            (Seq::empty(), JsonView::Null)
                        },
                ),
            ),
        }
    }
}

/// What the members of an object hold.
pub open spec fn members_view(members: Seq<Member>) -> Seq<(Seq<char>, JsonView)> {
    Seq::new(members.len(), |i: int| (members[i].name@, members[i].value.view()))
}

/// What the items of an array hold.
pub open spec fn items_view(items: Seq<Json>) -> Seq<JsonView> {
    Seq::new(items.len(), |i: int| items[i].view())
}

/// An object holds its members, an array its items.
pub broadcast proof fn object_view(members: Vec<Member>)
    ensures
        #[trigger] Json::Object(members).view() == JsonView::Object(members_view(members@)),
{
    let v = Json::Object(members).view();
    assert(v->Object_0 =~= members_view(members@));
}

/// An object holds its members, an array its items.
pub broadcast proof fn array_view(items: Vec<Json>)
    ensures
        #[trigger] Json::Array(items).view() == JsonView::Array(items_view(items@)),
{
    let v = Json::Array(items).view();
    assert(v->Array_0 =~= items_view(items@));
}

/// The index of the first member of the name.
pub open spec fn member_index(members: Seq<(Seq<char>, JsonView)>, name: Seq<char>) -> Option<int>
    decreases members.len(),
{
    if members.len() == 0 {
        None
    } else {
        match member_index(members.drop_last(), name) {
            Some(i) => Some(i),
            None => if members.last().0 == name {
                Some(members.len() - 1)
            } else {
                None
            },
        }
    }
}

/// The value of the first member of the name.
pub open spec fn lookup(members: Seq<(Seq<char>, JsonView)>, name: Seq<char>) -> Option<JsonView> {
    match member_index(members, name) {
        Some(i) => Some(members[i].1),
        None => None,
    }
}

/// The members with `name` set to `value`: in the place that it had, or at the end.
pub open spec fn with_member(
    members: Seq<(Seq<char>, JsonView)>,
    name: Seq<char>,
    value: JsonView,
) -> Seq<(Seq<char>, JsonView)> {
    match member_index(members, name) {
        Some(i) => members.update(i, (name, value)),
        None => members.push((name, value)),
    }
}

/// `member_index` is exact: it gives the first member of the name, and `None` where there is none.
pub proof fn member_index_is_first(members: Seq<(Seq<char>, JsonView)>, name: Seq<char>)
    ensures
        match member_index(members, name) {
            Some(i) => {
                &&& 0 <= i < members.len()
                &&& members[i].0 == name
                &&& forall|j: int| 0 <= j < i ==> (#[trigger] members[j]).0 != name
            },
            None => forall|j: int| 0 <= j < members.len() ==> (#[trigger] members[j]).0 != name,
        },
    decreases members.len(),
{
    if members.len() > 0 {
        let rest = members.drop_last();
        member_index_is_first(rest, name);
        assert(forall|j: int| 0 <= j < rest.len() ==> #[trigger] members[j] == rest[j]);
    }
}

/// A member that was set is read back, and every other member is as it was.
pub proof fn set_member_is_read_back(
    members: Seq<(Seq<char>, JsonView)>,
    name: Seq<char>,
    value: JsonView,
    other: Seq<char>,
)
    ensures
        lookup(with_member(members, name, value), name) == Some(value),
        other != name ==> lookup(with_member(members, name, value), other) == lookup(members, other),
{
    let after = with_member(members, name, value);
    member_index_is_first(members, name);
    member_index_is_first(after, name);
    member_index_is_first(members, other);
    member_index_is_first(after, other);
    match member_index(members, name) {
        Some(i) => {
            assert(after[i].0 == name);
            if let Some(k) = member_index(after, name) {
                if k < i {
                    assert(members[k].0 == name);
                }
            }
            if other != name {
                if let Some(k) = member_index(members, other) {
                    assert(after[k] == members[k]);
                }
                if let Some(k) = member_index(after, other) {
                    assert(after[k] == members[k]);
                }
            }
        },
        None => {
            assert(after[members.len() as int].0 == name);
            if let Some(k) = member_index(after, name) {
                if k < members.len() {
                    assert(after[k] == members[k]);
                }
            }
            if other != name {
                if let Some(k) = member_index(members, other) {
                    assert(after[k] == members[k]);
                }
                if let Some(k) = member_index(after, other) {
                    assert(k < members.len());
                    assert(after[k] == members[k]);
                }
            }
        },
    }
}

/// No two members have the same name.
pub open spec fn names_are_unique(members: Seq<(Seq<char>, JsonView)>) -> bool {
    forall|i: int, j: int|
        0 <= i < j < members.len() ==> (#[trigger] members[i]).0 != (#[trigger] members[j]).0
}

/// Setting a member keeps names unique.
pub proof fn setting_keeps_names_unique(
    members: Seq<(Seq<char>, JsonView)>,
    name: Seq<char>,
    value: JsonView,
)
    requires
        names_are_unique(members),
    ensures
        names_are_unique(with_member(members, name, value)),
{
    member_index_is_first(members, name);
}

/// Finds the first member of the name.
pub fn find_member(members: &Vec<Member>, name: &str) -> (r: Option<usize>)
    ensures
        match r {
            Some(i) => i < members@.len() && member_index(members_view(members@), name@) == Some(
                i as int,
            ),
            None => member_index(members_view(members@), name@) is None,
        },
{
    let mut i: usize = 0;
    proof {
        member_index_is_first(members_view(members@), name@);
    }
    while i < members.len()
        invariant
            i <= members.len(),
            match member_index(members_view(members@), name@) {
                Some(k) => {
                    &&& 0 <= k < members@.len()
                    &&& members_view(members@)[k].0 == name@
                    &&& forall|j: int| 0 <= j < k ==> (#[trigger] members_view(members@)[j]).0 != name@
                },
                None => forall|j: int|
                    0 <= j < members@.len() ==> (#[trigger] members_view(members@)[j]).0 != name@,
            },
            forall|j: int| 0 <= j < i ==> (#[trigger] members_view(members@)[j]).0 != name@,
        decreases members.len() - i,
    {
        assert(members_view(members@)[i as int].0 == members@[i as int].name@);
        if same_text(members[i].name.as_str(), name) {
            return Some(i);
        }
        i = i + 1;
    }
    None
}

/// Sets a member: in the place that it had, or at the end.
pub fn set_member(members: &mut Vec<Member>, name: &str, value: Json)
    ensures
        members_view(final(members)@) == with_member(
            members_view(old(members)@),
            name@,
            value.view(),
        ),
{
    let member = Member { name: name.to_string(), value };
    match find_member(members, name) {
        Some(i) => {
            members.set(i, member);
            assert(members_view(members@) =~= members_view(old(members)@).update(
                i as int,
                (name@, value.view()),
            ));
        },
        None => {
            members.push(member);
            assert(members_view(members@) =~= members_view(old(members)@).push((name@, value.view())));
        },
    }
}

/// Takes the value of the first member of the name out of an object, and leaves null in its place.
pub fn take_member(members: &mut Vec<Member>, name: &str) -> (r: Option<Json>)
    ensures
        match lookup(members_view(old(members)@), name@) {
            Some(value) => {
                &&& r matches Some(v)
                &&& v.view() == value
                &&& members_view(final(members)@) == with_member(
                    members_view(old(members)@),
                    name@,
                    JsonView::Null,
                )
            },
            None => r is None && final(members)@ == old(members)@,
        },
{
    match find_member(members, name) {
        Some(i) => {
            let taken = members.remove(i);
            members.insert(i, member(name, Json::Null));
            assert(members_view(members@) =~= members_view(old(members)@).update(
                i as int,
                (name@, JsonView::Null),
            ));
            assert(members_view(old(members)@)[i as int].1 == taken.value.view());
            Some(taken.value)
        },
        None => None,
    }
}

/// A member of an object.
pub fn member(name: &str, value: Json) -> (r: Member)
    ensures
        r.name@ == name@,
        r.value == value,
{
    Member { name: name.to_string(), value }
}

/// A text.
pub fn text(s: &str) -> (r: Json)
    ensures
        r.view() == JsonView::Text(s@),
{
    Json::Text(s.to_string())
}

/// The object with the one member.
pub fn object1(a: &str, av: Json) -> (r: Json)
    ensures
        r.view() == JsonView::Object(seq![(a@, av.view())]),
{
    let mut members: Vec<Member> = Vec::new();
    members.push(member(a, av));
    proof {
        assert(members_view(members@) =~= seq![(a@, av.view())]);
        object_view(members);
    }
    Json::Object(members)
}

/// The object with the two members.
pub fn object2(a: &str, av: Json, b: &str, bv: Json) -> (r: Json)
    ensures
        r.view() == JsonView::Object(seq![(a@, av.view()), (b@, bv.view())]),
{
    let mut members: Vec<Member> = Vec::new();
    members.push(member(a, av));
    members.push(member(b, bv));
    proof {
        assert(members_view(members@) =~= seq![(a@, av.view()), (b@, bv.view())]);
        object_view(members);
    }
    Json::Object(members)
}

/// The object with the three members.
pub fn object3(a: &str, av: Json, b: &str, bv: Json, c: &str, cv: Json) -> (r: Json)
    ensures
        r.view() == JsonView::Object(seq![(a@, av.view()), (b@, bv.view()), (c@, cv.view())]),
{
    let mut members: Vec<Member> = Vec::new();
    members.push(member(a, av));
    members.push(member(b, bv));
    members.push(member(c, cv));
    proof {
        assert(members_view(members@) =~= seq![
            (a@, av.view()),
            (b@, bv.view()),
            (c@, cv.view()),
        ]);
        object_view(members);
    }
    Json::Object(members)
}

} // verus!
