//! JSON values as plain data.

use vstd::prelude::*;
use crate::strmap::DeepClone;

verus! {

/// A JSON value. A number is held as its decimal text; an object as its
/// members in order.
#[derive(Debug, PartialEq, Eq)]
pub enum JsonValue {
    Null,
    Bool(bool),
    Number(String),
    Text(String),
    Array(Vec<JsonValue>),
    Object(Vec<(String, JsonValue)>),
}

/// The mathematical content of a [`JsonValue`].
pub ghost enum JsonView {
    Null,
    Bool(bool),
    Number(Seq<char>),
    Text(Seq<char>),
    Array(Seq<JsonView>),
    Object(Seq<(Seq<char>, JsonView)>),
}

impl DeepView for JsonValue {
    type V = JsonView;

    open spec fn deep_view(&self) -> JsonView
        decreases self,
    {
        match self {
            JsonValue::Null => JsonView::Null,
            JsonValue::Bool(b) => JsonView::Bool(*b),
            JsonValue::Number(n) => JsonView::Number(n@),
            JsonValue::Text(s) => JsonView::Text(s@),
            JsonValue::Array(items) => JsonView::Array(
                Seq::new(
                    items@.len(),
                    |i: int|
                        if 0 <= i < items@.len() {
                            items@[i].deep_view()
                        } else {
                            JsonView::Null
                        },
                ),
            ),
            JsonValue::Object(members) => JsonView::Object(
                Seq::new(
                    members@.len(),
                    |i: int|
                        (
                            members@[i].0@,
                            if 0 <= i < members@.len() {
                                members@[i].1.deep_view()
                            } else {
                                JsonView::Null
                            },
                        ),
                ),
            ),
        }
    }
}

impl View for JsonValue {
    type V = JsonView;

    open spec fn view(&self) -> JsonView {
        self.deep_view()
    }
}

/// The members of an object, as a list of entries stands for them.
pub open spec fn members_view(s: Seq<(String, JsonValue)>) -> Seq<(Seq<char>, JsonView)> {
    Seq::new(s.len(), |i: int| (s[i].0@, s[i].1.deep_view()))
}

/// The view of an object is the object of the views of its members.
proof fn lemma_object_view(v: JsonValue)
    requires
        v is Object,
    ensures
        v.deep_view() == JsonView::Object(members_view(v->Object_0@)),
{
    assert(v.deep_view()->Object_0 =~= members_view(v->Object_0@));
}

impl DeepClone for JsonValue {
    #[verifier::loop_isolation(false)]
    fn deep_clone(&self) -> (r: JsonValue)
        decreases self,
    {
        match self {
            JsonValue::Null => JsonValue::Null,
            JsonValue::Bool(b) => JsonValue::Bool(*b),
            JsonValue::Number(n) => JsonValue::Number(n.clone()),
            JsonValue::Text(s) => JsonValue::Text(s.clone()),
            JsonValue::Array(items) => {
                let mut out: Vec<JsonValue> = Vec::new();
                let mut i: usize = 0;
                while i < items.len()
                    invariant
                        i <= items.len(),
                        out@.len() == i,
                        forall|k: int| 0 <= k < i ==> out@[k].deep_view() == items@[k].deep_view(),
                    decreases items.len() - i,
                {
                    out.push(items[i].deep_clone());
                    i += 1;
                }
                let r = JsonValue::Array(out);
                assert(r.deep_view()->Array_0 =~= self.deep_view()->Array_0);
                r
            },
            JsonValue::Object(members) => {
                let mut out: Vec<(String, JsonValue)> = Vec::new();
                let mut i: usize = 0;
                while i < members.len()
                    invariant
                        i <= members.len(),
                        out@.len() == i,
                        forall|k: int|
                            0 <= k < i ==> out@[k].0@ == members@[k].0@ && out@[k].1.deep_view()
                                == members@[k].1.deep_view(),
                    decreases members.len() - i,
                {
                    out.push((members[i].0.clone(), members[i].1.deep_clone()));
                    i += 1;
                }
                let r = JsonValue::Object(out);
                assert(r.deep_view()->Object_0 =~= self.deep_view()->Object_0);
                r
            },
        }
    }
}

/// The value of the first member of the name `key`.
pub open spec fn member_of(members: Seq<(Seq<char>, JsonView)>, key: Seq<char>) -> Option<JsonView>
    decreases members.len(),
{
    if members.len() == 0 {
        None
    } else if members[0].0 == key {
        Some(members[0].1)
    } else {
        member_of(members.drop_first(), key)
    }
}

/// The member `key` of an object; a value that is no object has no members.
pub open spec fn json_member(v: JsonView, key: Seq<char>) -> Option<JsonView> {
    match v {
        JsonView::Object(members) => member_of(members, key),
        _ => None,
    }
}

/// The text of a value that is a string.
pub open spec fn json_text(v: Option<JsonView>) -> Option<Seq<char>> {
    match v {
        Some(JsonView::Text(s)) => Some(s),
        _ => None,
    }
}

/// The strings among `items`, in order.
pub open spec fn texts_in(items: Seq<JsonView>) -> Seq<Seq<char>>
    decreases items.len(),
{
    if items.len() == 0 {
        Seq::empty()
    } else {
        texts_in(items.drop_last()) + match items.last() {
            JsonView::Text(s) => seq![s],
            _ => Seq::empty(),
        }
    }
}

/// The strings of a value that is an array; any other value has none.
pub open spec fn json_texts(v: Option<JsonView>) -> Seq<Seq<char>> {
    match v {
        Some(JsonView::Array(items)) => texts_in(items),
        _ => Seq::empty(),
    }
}

impl JsonValue {
    /// The member `key` of an object.
    pub fn get(&self, key: &str) -> (r: Option<&JsonValue>)
        ensures
            r.deep_view() == json_member(self@, key@),
    {
        match self {
            JsonValue::Object(members) => {
                proof {
                    lemma_object_view(*self);
                }
                let ghost all = members_view(members@);
                let mut i: usize = 0;
                assert(all.skip(0) =~= all);
                while i < members.len()
                    invariant
                        i <= members.len(),
                        all == members_view(members@),
                        self@ == JsonView::Object(all),
                        member_of(all, key@) == member_of(all.skip(i as int), key@),
                    decreases members.len() - i,
                {
                    proof {
                        assert(all.skip(i as int)[0] == all[i as int]);
                        assert(all.skip(i as int).drop_first() =~= all.skip(i + 1));
                    }
                    if crate::text::str_eq(members[i].0.as_str(), key) {
                        assert(all[i as int] == (members@[i as int].0@, members@[i as int].1.deep_view()));
                        return Some(&members[i].1);
                    }
                    i += 1;
                }
                None
            },
            _ => None,
        }
    }

    /// The text of a string.
    pub fn as_text(&self) -> (r: Option<&String>)
        ensures
            r.deep_view() == json_text(Some(self@)),
    {
        match self {
            JsonValue::Text(s) => Some(s),
            _ => None,
        }
    }

    /// The strings of an array.
    pub fn texts(&self) -> (r: Vec<String>)
        ensures
            r.deep_view() == json_texts(Some(self@)),
    {
        let mut out: Vec<String> = Vec::new();
        assert(out.deep_view() =~= Seq::<Seq<char>>::empty());
        match self {
            JsonValue::Array(items) => {
                let ghost all = self@->Array_0;
                let mut i: usize = 0;
                assert(all.take(0) =~= Seq::<JsonView>::empty());
                while i < items.len()
                    invariant
                        i <= items.len(),
                        all.len() == items@.len(),
                        forall|k: int| 0 <= k < all.len() ==> all[k] == items@[k].deep_view(),
                        out.deep_view() == texts_in(all.take(i as int)),
                    decreases items.len() - i,
                {
                    let ghost before = out.deep_view();
                    proof {
                        assert(all.take(i + 1).drop_last() =~= all.take(i as int));
                        assert(all.take(i + 1).last() == items@[i as int].deep_view());
                    }
                    match &items[i] {
                        JsonValue::Text(s) => {
                            out.push(s.clone());
                            assert(out.deep_view() =~= before.push(s@));
                            assert(before.push(s@) =~= before + seq![s@]);
                        },
                        _ => {
                            assert(before + Seq::<Seq<char>>::empty() =~= before);
                        },
                    }
                    i += 1;
                }
                assert(all.take(items.len() as int) =~= all);
                out
            },
            _ => out,
        }
    }
}

/// The text of the member `key` of `v`, where it has such a member and the
/// member is a string.
pub fn text_at(v: &JsonValue, key: &str) -> (r: Option<String>)
    ensures
        r.deep_view() == json_text(json_member(v@, key@)),
{
    match v.get(key) {
        Some(m) => match m.as_text() {
            Some(s) => Some(s.clone()),
            None => None,
        },
        None => None,
    }
}

/// The strings of the member `key` of `v`, where it has such a member and
/// the member is an array.
pub fn texts_at(v: &JsonValue, key: &str) -> (r: Vec<String>)
    ensures
        r.deep_view() == json_texts(json_member(v@, key@)),
{
    match v.get(key) {
        Some(m) => m.texts(),
        None => {
            let out: Vec<String> = Vec::new();
            assert(out.deep_view() =~= Seq::<Seq<char>>::empty());
            out
        },
    }
}

/// Appends the member `key` with the value `value`.
pub fn push_member(members: &mut Vec<(String, JsonValue)>, key: &str, value: JsonValue)
    ensures
        members_view(final(members)@) == members_view(old(members)@).push((key@, value@)),
{
    members.push((key.to_owned(), value));
    assert(members_view(members@) =~= members_view(old(members)@).push((key@, value@)));
}

/// The object with the members `members`.
pub fn object_of(members: Vec<(String, JsonValue)>) -> (r: JsonValue)
    ensures
        r@ == JsonView::Object(members_view(members@)),
{
    let r = JsonValue::Object(members);
    proof {
        lemma_object_view(r);
    }
    r
}

/// The strings of `v` as a JSON array.
pub open spec fn text_array(v: Seq<Seq<char>>) -> JsonView {
    JsonView::Array(Seq::new(v.len(), |i: int| JsonView::Text(v[i])))
}

/// The strings of `v` as a JSON array.
pub fn texts_to_json(v: &Vec<String>) -> (r: JsonValue)
    ensures
        r@ == text_array(v.deep_view()),
{
    let mut out: Vec<JsonValue> = Vec::new();
    let mut i: usize = 0;
    while i < v.len()
        invariant
            i <= v.len(),
            out@.len() == i,
            forall|k: int| 0 <= k < i ==> out@[k].deep_view() == JsonView::Text(v@[k]@),
        decreases v.len() - i,
    {
        out.push(JsonValue::Text(v[i].clone()));
        i += 1;
    }
    let r = JsonValue::Array(out);
    assert(r@->Array_0 =~= text_array(v.deep_view())->Array_0);
    r
}

/// The string `s` as a JSON value.
pub fn text_json(s: &str) -> (r: JsonValue)
    ensures
        r@ == JsonView::Text(s@),
{
    JsonValue::Text(s.to_owned())
}

impl Clone for JsonValue {
    fn clone(&self) -> (r: JsonValue)
        ensures
            r@ == self@,
    {
        self.deep_clone()
    }
}

} // verus!
