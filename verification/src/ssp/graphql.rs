//! Questions to the service provider, and its replies.

use vstd::prelude::*;

use std::sync::Arc;

use crate::model::views;

verus! {

/// The service provider, reached through a client `C`.
pub struct ServiceProvider<C> {
    pub gql_client: Arc<C>,
}

/// The value of a variable of a question.
#[derive(Debug, PartialEq, Eq)]
pub enum Variable {
    Null,
    Number(u64),
    Text(String),
    TextList(Vec<String>),
}

/// The view of a `Variable`.
pub enum VariableView {
    Null,
    Number(nat),
    Text(Seq<char>),
    TextList(Seq<Seq<char>>),
}

impl View for Variable {
    type V = VariableView;

    open spec fn view(&self) -> VariableView {
        match self {
            Variable::Null => VariableView::Null,
            Variable::Number(number) => VariableView::Number(*number as nat),
            Variable::Text(text) => VariableView::Text(text@),
            Variable::TextList(items) => VariableView::TextList(views(items@)),
        }
    }
}

/// A variable of a question, with its name.
#[derive(Debug, PartialEq, Eq)]
pub struct NamedVariable {
    pub name: String,
    pub value: Variable,
}

impl View for NamedVariable {
    type V = (Seq<char>, VariableView);

    open spec fn view(&self) -> (Seq<char>, VariableView) {
        (self.name@, self.value@)
    }
}

/// A question: a document, the operation in it that is meant, and the document's variables.
#[derive(Debug, PartialEq, Eq)]
pub struct GraphQuery {
    pub operation_name: String,
    pub query: String,
    pub variables: Vec<NamedVariable>,
}

/// The view of a `GraphQuery`.
pub struct GraphQueryView {
    pub operation_name: Seq<char>,
    pub query: Seq<char>,
    pub variables: Seq<(Seq<char>, VariableView)>,
}

impl View for GraphQuery {
    type V = GraphQueryView;

    open spec fn view(&self) -> GraphQueryView {
        GraphQueryView {
            operation_name: self.operation_name@,
            query: self.query@,
            variables: views(self.variables@),
        }
    }
}

/// Whether a document holds a passage.
pub open spec fn mentions(document: Seq<char>, passage: Seq<char>) -> bool {
    exists|at: int|
        0 <= at <= document.len() - passage.len() && #[trigger] document.subrange(
            at,
            at + passage.len(),
        ) == passage
}

/// A passage that stands at some place of a document is held by it.
pub proof fn lemma_mentions(document: Seq<char>, passage: Seq<char>, at: int)
    requires
        0 <= at <= document.len() - passage.len(),
        document.subrange(at, at + passage.len()) =~= passage,
    ensures
        mentions(document, passage),
{
}

/// The variable with a name and a number.
pub fn number_variable(name: &str, number: u64) -> (variable: NamedVariable)
    ensures
        variable@ == (name@, VariableView::Number(number as nat)),
        variable.name@ == name@,
        variable.value == Variable::Number(number),
{
    NamedVariable { name: name.to_string(), value: Variable::Number(number) }
}

/// The variable with a name and a text.
pub fn text_variable(name: &str, text: &str) -> (variable: NamedVariable)
    ensures
        variable@ == (name@, VariableView::Text(text@)),
        variable.name@ == name@,
        variable.value matches Variable::Text(held) && held@ == text@,
{
    NamedVariable { name: name.to_string(), value: Variable::Text(text.to_string()) }
}

/// A JSON value, with its numbers in the form `N` in which they came.
#[derive(Debug, PartialEq, Eq)]
pub enum Json<N> {
    Null,
    Bool(bool),
    Number(N),
    Text(String),
    List(Vec<Json<N>>),
    Object(Vec<Member<N>>),
}

/// A member of a JSON object.
#[derive(Debug, PartialEq, Eq)]
pub struct Member<N> {
    pub name: String,
    pub value: Json<N>,
}

/// Whether a JSON value is a copy of another: of the same shape, with the same texts and flags, and
/// with copies of the numbers.
pub open spec fn is_copy<N: Clone>(json: Json<N>, copy: Json<N>) -> bool
    decreases json,
{
    match (json, copy) {
        (Json::Null, Json::Null) => true,
        (Json::Bool(flag), Json::Bool(copied)) => copied == flag,
        (Json::Number(number), Json::Number(copied)) => cloned(number, copied),
        (Json::Text(text), Json::Text(copied)) => copied@ == text@,
        (Json::List(items), Json::List(copied)) => {
            &&& copied@.len() == items@.len()
            &&& forall|i: int|
                0 <= i < items@.len() ==> is_copy(#[trigger] items@[i], copied@[i])
        },
        (Json::Object(members), Json::Object(copied)) => {
            &&& copied@.len() == members@.len()
            &&& forall|i: int|
                0 <= i < members@.len() ==> copied@[i].name@ == (#[trigger] members@[i]).name@
                    && is_copy(members@[i].value, copied@[i].value)
        },
        _ => false,
    }
}

impl<N: Clone> Clone for Json<N> {
    fn clone(&self) -> (copy: Self)
        ensures
            is_copy(*self, copy),
            match (*self, copy) {
                (Json::Null, Json::Null) => true,
                (Json::Bool(flag), Json::Bool(copied)) => copied == flag,
                (Json::Number(number), Json::Number(copied)) => cloned(number, copied),
                (Json::Text(text), Json::Text(copied)) => copied@ == text@,
                (Json::List(items), Json::List(copied)) => copied@.len() == items@.len(),
                (Json::Object(members), Json::Object(copied)) => copied@.len() == members@.len(),
                _ => false,
            },
        decreases self,
    {
        match self {
            Json::Null => Json::Null,
            Json::Bool(flag) => Json::Bool(*flag),
            Json::Number(number) => Json::Number(number.clone()),
            Json::Text(text) => Json::Text(text.clone()),
            Json::List(items) => {
                let mut copied: Vec<Json<N>> = Vec::new();
                let mut i: usize = 0;
                while i < items.len()
                    invariant
                        i <= items@.len(),
                        *self == Json::List(*items),
                        copied@.len() == i,
                        forall|j: int|
                            0 <= j < i ==> is_copy(#[trigger] items@[j], copied@[j]),
                    decreases items@.len() - i,
                {
                    assert(decreases_to!(*self => self->List_0@[i as int]));
                    copied.push(items[i].clone());
                    i = i + 1;
                }
                Json::List(copied)
            },
            Json::Object(members) => {
                let mut copied: Vec<Member<N>> = Vec::new();
                let mut i: usize = 0;
                while i < members.len()
                    invariant
                        i <= members@.len(),
                        *self == Json::Object(*members),
                        copied@.len() == i,
                        forall|j: int|
                            0 <= j < i ==> copied@[j].name@ == (#[trigger] members@[j]).name@
                                && is_copy(members@[j].value, copied@[j].value),
                    decreases members@.len() - i,
                {
                    assert(decreases_to!(*self => self->Object_0@[i as int].value));
                    let name = members[i].name.clone();
                    copied.push(Member { name, value: members[i].value.clone() });
                    i = i + 1;
                }
                Json::Object(copied)
            },
        }
    }
}

/// A copy has the members of what was copied: under each name a copy of the member there, or none
/// where there was none. A copied text is the same text.
pub proof fn copies_have_the_same_members<N: Clone>(json: Json<N>, copy: Json<N>, name: Seq<char>)
    requires
        is_copy(json, copy),
    ensures
        member_of(json, name) is Some <==> member_of(copy, name) is Some,
        member_of(json, name) matches Some(value) ==> is_copy(value, member_of(copy, name)->Some_0),
        json matches Json::Text(text) ==> (copy matches Json::Text(copied) && copied@ == text@),
        json matches Json::List(items) ==> (copy matches Json::List(copied) && copied@.len()
            == items@.len() && forall|i: int|
            0 <= i < items@.len() ==> is_copy(#[trigger] items@[i], copied@[i])),
{
    if let Json::Object(members) = json {
        if let Json::Object(copied) = copy {
            lemma_copied_members(members@, copied@, name);
        }
    }
}

proof fn lemma_copied_members<N: Clone>(
    members: Seq<Member<N>>,
    copied: Seq<Member<N>>,
    name: Seq<char>,
)
    requires
        copied.len() == members.len(),
        forall|i: int|
            0 <= i < members.len() ==> copied[i].name@ == (#[trigger] members[i]).name@ && is_copy(
                members[i].value,
                copied[i].value,
            ),
    ensures
        first_named(members, name) is Some <==> first_named(copied, name) is Some,
        first_named(members, name) matches Some(value) ==> is_copy(
            value,
            first_named(copied, name)->Some_0,
        ),
    decreases members.len(),
{
    if members.len() > 0 {
        let rest = members.drop_first();
        let copied_rest = copied.drop_first();
        assert(members[0] == members.first());
        assert forall|i: int| 0 <= i < rest.len() implies copied_rest[i].name@ == (
        #[trigger] rest[i]).name@ && is_copy(rest[i].value, copied_rest[i].value) by {
            assert(rest[i] == members[i + 1]);
            assert(copied_rest[i] == copied[i + 1]);
        }
        lemma_copied_members(rest, copied_rest, name);
    }
}

impl<N: Clone> Clone for Member<N> {
    fn clone(&self) -> (copy: Self)
        ensures
            copy.name@ == self.name@,
            is_copy(self.value, copy.value),
    {
        Member { name: self.name.clone(), value: self.value.clone() }
    }
}

/// The first of some members that has a name.
pub open spec fn first_named<N>(members: Seq<Member<N>>, name: Seq<char>) -> Option<Json<N>>
    decreases members.len(),
{
    if members.len() == 0 {
        None
    } else if members.first().name@ == name {
        Some(members.first().value)
    } else {
        first_named(members.drop_first(), name)
    }
}

/// The member of a JSON value under a name. Only an object has members.
pub open spec fn member_of<N>(json: Json<N>, name: Seq<char>) -> Option<Json<N>> {
    match json {
        Json::Object(members) => first_named(members@, name),
        _ => None,
    }
}

/// The member of a member of a JSON value.
pub open spec fn member_of_member<N>(
    json: Json<N>,
    outer: Seq<char>,
    inner: Seq<char>,
) -> Option<Json<N>> {
    match member_of(json, outer) {
        Some(value) => member_of(value, inner),
        None => None,
    }
}

/// What a reference that may be missing refers to.
pub open spec fn referred<N>(value: Option<&Json<N>>) -> Option<Json<N>> {
    match value {
        Some(json) => Some(*json),
        None => None,
    }
}

/// The member under a name is the value of the first member with that name. An object has none
/// exactly where no member has the name, and what is no object has none at all.
pub proof fn members_are_found_by_name<N>(json: Json<N>, name: Seq<char>)
    ensures
        match (json, member_of(json, name)) {
            (Json::Object(members), Some(found)) => exists|i: int|
                {
                    &&& 0 <= i < members@.len()
                    &&& (#[trigger] members@[i]).name@ == name
                    &&& members@[i].value == found
                    &&& forall|j: int| 0 <= j < i ==> (#[trigger] members@[j]).name@ != name
                },
            (Json::Object(members), None) => forall|i: int|
                0 <= i < members@.len() ==> (#[trigger] members@[i]).name@ != name,
            (_, found) => found is None,
        },
{
    if let Json::Object(members) = json {
        lemma_first_named(members@, name);
    }
}

proof fn lemma_first_named<N>(members: Seq<Member<N>>, name: Seq<char>)
    ensures
        match first_named(members, name) {
            Some(found) => exists|i: int|
                {
                    &&& 0 <= i < members.len()
                    &&& (#[trigger] members[i]).name@ == name
                    &&& members[i].value == found
                    &&& forall|j: int| 0 <= j < i ==> (#[trigger] members[j]).name@ != name
                },
            None => forall|i: int|
                0 <= i < members.len() ==> (#[trigger] members[i]).name@ != name,
        },
    decreases members.len(),
{
    if members.len() > 0 {
        if members.first().name@ == name {
            assert(members[0].name@ == name);
        } else {
            let rest = members.drop_first();
            lemma_first_named(rest, name);
            match first_named(rest, name) {
                Some(found) => {
                    let i = choose|i: int|
                        {
                            &&& 0 <= i < rest.len()
                            &&& (#[trigger] rest[i]).name@ == name
                            &&& rest[i].value == found
                            &&& forall|j: int| 0 <= j < i ==> (#[trigger] rest[j]).name@ != name
                        };
                    assert(members[i + 1] == rest[i]);
                    assert forall|j: int| 0 <= j < i + 1 implies (#[trigger] members[j]).name@
                        != name by {
                        if j > 0 {
                            assert(rest[j - 1] == members[j]);
                        }
                    }
                },
                None => {
                    assert forall|i: int| 0 <= i < members.len() implies (
                    #[trigger] members[i]).name@ != name by {
                        if i > 0 {
                            assert(rest[i - 1] == members[i]);
                        }
                    }
                },
            }
        }
    }
}

impl<N> Json<N> {
    /// The member under a name, if the value is an object that has one.
    pub fn member(&self, name: &str) -> (value: Option<&Json<N>>)
        ensures
            referred(value) == member_of(*self, name@),
            match (*self, value) {
                (Json::Object(members), Some(found)) => exists|i: int|
                    {
                        &&& 0 <= i < members@.len()
                        &&& (#[trigger] members@[i]).name@ == name@
                        &&& members@[i].value == *found
                        &&& forall|j: int| 0 <= j < i ==> (#[trigger] members@[j]).name@ != name@
                    },
                (Json::Object(members), None) => forall|i: int|
                    0 <= i < members@.len() ==> (#[trigger] members@[i]).name@ != name@,
                (_, found) => found is None,
            },
    {
        let members = match self {
            Json::Object(members) => members,
            _ => return None,
        };
        let wanted = name.to_string();
        let ghost all = members@;
        let mut i: usize = 0;
        assert(all.skip(0) =~= all);
        while i < members.len()
            invariant
                i <= members@.len(),
                all == members@,
                *self == Json::Object(*members),
                wanted@ == name@,
                member_of(*self, name@) == first_named(all, name@),
                first_named(all, name@) == first_named(all.skip(i as int), name@),
                forall|j: int| 0 <= j < i ==> (#[trigger] members@[j]).name@ != name@,
            decreases members@.len() - i,
        {
            assert(all.skip(i as int).first() == members@[i as int]);
            assert(all.skip(i as int).drop_first() =~= all.skip(i + 1));
            if members[i].name == wanted {
                return Some(&members[i].value);
            }
            i = i + 1;
        }
        None
    }

    /// The member of a member.
    pub fn member_of_member(&self, outer: &str, inner: &str) -> (value: Option<&Json<N>>)
        ensures
            referred(value) == member_of_member(*self, outer@, inner@),
            value is Some <==> (member_of(*self, outer@) matches Some(between) && member_of(
                between,
                inner@,
            ) is Some),
    {
        match self.member(outer) {
            Some(value) => value.member(inner),
            None => None,
        }
    }
}

} // verus!
