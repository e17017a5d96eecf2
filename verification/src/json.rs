//! JSON values.
use vstd::prelude::*;

use crate::text::same_text;
use crate::value::Fraction;

verus! {

/// A JSON value.
#[derive(Debug)]
pub enum Json {
    Null,
    Bool(bool),
    /// A whole number that fits a `u64`.
    Unsigned(u64),
    /// A whole number that fits an `i64`.
    Signed(i64),
    /// Any other number.
    Fraction(Fraction),
    String(String),
    Array(Vec<Json>),
    Object(Object),
}

/// The members of a JSON object. Where a name occurs twice, the later member
/// counts.
#[derive(Debug)]
pub struct Object {
    pub members: Vec<(String, Json)>,
}

/// What a JSON value is: whole numbers are one kind whatever holds them, other
/// numbers are known by the numeral they are written with, and an object maps
/// each name to one value.
pub enum JsonView {
    Null,
    Bool(bool),
    Integer(int),
    Fraction(Seq<char>),
    String(Seq<char>),
    Array(Seq<JsonView>),
    Object(Map<Seq<char>, JsonView>),
}

pub open spec fn json_view(json: Json) -> JsonView
    decreases json,
{
    match json {
        Json::Null => JsonView::Null,
        Json::Bool(b) => JsonView::Bool(b),
        Json::Unsigned(n) => JsonView::Integer(n as int),
        Json::Signed(n) => JsonView::Integer(n as int),
        Json::Fraction(fraction) => JsonView::Fraction(fraction.numeral()),
        Json::String(s) => JsonView::String(s@),
        Json::Array(items) => JsonView::Array(items_view(items@)),
        Json::Object(object) => JsonView::Object(members_view(object.members@)),
    }
}

/// The views of a list of values, one by one.
pub open spec fn items_view(items: Seq<Json>) -> Seq<JsonView>
    decreases items,
{
    Seq::new(
        items.len(),
        |i: int|
            if 0 <= i < items.len() {
                json_view(items[i])
            } else {
                JsonView::Null
            },
    )
}

/// The map that a list of members stands for.
pub open spec fn members_view(members: Seq<(String, Json)>) -> Map<Seq<char>, JsonView>
    decreases members,
{
    if members.len() == 0 {
        Map::empty()
    } else {
        members_view(members.drop_last()).insert(members.last().0@, json_view(members.last().1))
    }
}

impl View for Json {
    type V = JsonView;

    open spec fn view(&self) -> JsonView {
        json_view(*self)
    }
}

impl View for Object {
    type V = Map<Seq<char>, JsonView>;

    open spec fn view(&self) -> Map<Seq<char>, JsonView> {
        members_view(self.members@)
    }
}

impl JsonView {
    /// The value of a member, where the value is an object that has it.
    pub open spec fn member(self, name: Seq<char>) -> Option<JsonView> {
        match self {
            JsonView::Object(members) => members.get(name),
            _ => None,
        }
    }
}

/// Whether no member after position `at` is called `name`.
spec fn last_named(members: Seq<(String, Json)>, name: Seq<char>, at: int) -> bool {
    &&& 0 <= at < members.len()
    &&& members[at].0@ == name
    &&& forall|i: int| at < i < members.len() ==> (#[trigger] members[i]).0@ != name
}

proof fn last_named_counts(members: Seq<(String, Json)>, name: Seq<char>, at: int)
    requires
        last_named(members, name, at),
    ensures
        members_view(members).contains_key(name),
        members_view(members)[name] == json_view(members[at].1),
    decreases members.len(),
{
    if at < members.len() - 1 {
        assert(members.last().0@ != name);
        last_named_counts(members.drop_last(), name, at);
    }
}

proof fn unnamed_is_absent(members: Seq<(String, Json)>, name: Seq<char>)
    requires
        forall|i: int| 0 <= i < members.len() ==> (#[trigger] members[i]).0@ != name,
    ensures
        !members_view(members).contains_key(name),
    decreases members.len(),
{
    if members.len() > 0 {
        assert(members.last().0@ != name);
        unnamed_is_absent(members.drop_last(), name);
    }
}

impl Object {
    pub fn new() -> (object: Object)
        ensures
            object@ == Map::<Seq<char>, JsonView>::empty(),
    {
        Object { members: Vec::new() }
    }

    /// The object with one member more, or with another value of a member.
    pub fn with(self, name: &str, value: Json) -> (object: Object)
        ensures
            object@ == self@.insert(name@, value@),
    {
        let ghost before = self.members@;
        let mut members = self.members;
        members.push((name.to_owned(), value));
        assert(members@.drop_last() =~= before);
        Object { members }
    }

    /// The position of the member that counts for `name`.
    fn position(&self, name: &str) -> (position: Option<usize>)
        ensures
            match position {
                Some(at) => last_named(self.members@, name@, at as int) && self@.contains_key(
                    name@,
                ) && self@[name@] == self.members@[at as int].1@,
                None => !self@.contains_key(name@),
            },
    {
        let mut at: usize = self.members.len();
        while at > 0
            invariant
                at <= self.members@.len(),
                forall|i: int|
                    at <= i < self.members@.len() ==> (#[trigger] self.members@[i]).0@ != name@,
            decreases at,
        {
            at = at - 1;
            if same_text(self.members[at].0.as_str(), name) {
                proof {
                    last_named_counts(self.members@, name@, at as int);
                }
                return Some(at);
            }
        }
        proof {
            unnamed_is_absent(self.members@, name@);
        }
        None
    }

    /// The value of a member.
    pub fn get(&self, name: &str) -> (value: Option<&Json>)
        ensures
            match value {
                Some(json) => self@.get(name@) == Some(json@),
                None => self@.get(name@) is None,
            },
    {
        match self.position(name) {
            Some(at) => Some(&self.members[at].1),
            None => None,
        }
    }

    /// Takes a member out of the object and hands out its value.
    pub fn take(&mut self, name: &str) -> (value: Option<Json>)
        ensures
            match value {
                Some(json) => old(self)@.get(name@) == Some(json@),
                None => old(self)@.get(name@) is None,
            },
            final(self)@ == old(self)@.remove(name@),
    {
        let mut members: Vec<(String, Json)> = Vec::new();
        std::mem::swap(&mut members, &mut self.members);
        let ghost all = members@;
        let mut kept: Vec<(String, Json)> = Vec::new();
        let mut value: Option<Json> = None;
        assert(members_view(kept@) =~= members_view(all.take(0)).remove(name@));
        for member in iter: members
            invariant
                iter.seq() == all,
                members_view(kept@) == members_view(all.take(iter.index() as int)).remove(name@),
                match value {
                    Some(json) => members_view(all.take(iter.index() as int)).get(name@) == Some(
                        json@,
                    ),
                    None => members_view(all.take(iter.index() as int)).get(name@) is None,
                },
        {
            let ghost before = kept@;
            let ghost seen = all.take(iter.index() + 1);
            proof {
                assert(seen.drop_last() =~= all.take(iter.index() as int));
                assert(seen.last() == member);
            }
            if same_text(member.0.as_str(), name) {
                value = Some(member.1);
                assert(members_view(kept@) =~= members_view(seen).remove(name@));
            } else {
                kept.push(member);
                assert(kept@.drop_last() =~= before);
                assert(members_view(kept@) =~= members_view(seen).remove(name@));
            }
        }
        assert(all.take(all.len() as int) =~= all);
        self.members = kept;
        value
    }
}

impl Json {
    /// The value of a member, where the value is an object that has it.
    pub fn get(&self, name: &str) -> (value: Option<&Json>)
        ensures
            match value {
                Some(json) => self@.member(name@) == Some(json@),
                None => self@.member(name@) is None,
            },
    {
        match self {
            Json::Object(object) => object.get(name),
            _ => None,
        }
    }
}

} // verus!
