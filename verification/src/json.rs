//! JSON values as the manifest holds them.

use vstd::prelude::*;

verus! {

/// A JSON value. A number is kept as its literal text, and an object as its
/// members in the order they were written.
#[derive(Debug, PartialEq, Eq)]
pub enum Json {
    Null,
    Bool(bool),
    Number(String),
    Text(String),
    List(Vec<Json>),
    Object(Vec<Member>),
}

/// One member of a JSON object.
#[derive(Debug, PartialEq, Eq)]
pub struct Member {
    pub key: String,
    pub value: Json,
}

/// The mathematical value of a [`Json`].
pub ghost enum JsonView {
    Null,
    Bool(bool),
    Number(Seq<char>),
    Text(Seq<char>),
    List(Seq<JsonView>),
    Object(Seq<MemberView>),
}

/// The mathematical value of a [`Member`].
pub ghost struct MemberView {
    pub key: Seq<char>,
    pub value: JsonView,
}

impl View for Member {
    type V = MemberView;

    open spec fn view(&self) -> MemberView
        decreases self,
    {
        MemberView { key: self.key@, value: self.value.view() }
    }
}

impl View for Json {
    type V = JsonView;

    open spec fn view(&self) -> JsonView
        decreases self,
    {
        match self {
            Json::Null => JsonView::Null,
            Json::Bool(b) => JsonView::Bool(*b),
            Json::Number(literal) => JsonView::Number(literal@),
            Json::Text(text) => JsonView::Text(text@),
            Json::List(items) => JsonView::List(
                Seq::new(
                    items@.len(),
                    |i: int|
                        if 0 <= i < items@.len() {
                            items@[i].view()
                        } else {
                            JsonView::Null
                        },
                ),
            ),
            Json::Object(members) => JsonView::Object(
                Seq::new(
                    members@.len(),
                    |i: int|
                        if 0 <= i < members@.len() {
                            members@[i].view()
                        } else {
                            MemberView { key: Seq::empty(), value: JsonView::Null }
                        },
                ),
            ),
        }
    }
}

/// The list that holds the one pair `[target, alias]`.
pub open spec fn alias_table(target: Seq<char>, alias: Seq<char>) -> JsonView {
    JsonView::List(seq![JsonView::List(seq![JsonView::Text(target), JsonView::Text(alias)])])
}

impl Json {
    /// The JSON string `text`.
    pub fn text(text: &str) -> (json: Json)
        ensures
            json@ == JsonView::Text(text@),
    {
        Json::Text(text.to_owned())
    }

    /// The list of `items`, in their order.
    pub fn list(items: Vec<Json>) -> (json: Json)
        ensures
            json@ == JsonView::List(items@.map_values(|item: Json| item@)),
    {
        let json = Json::List(items);
        assert(json@->List_0 =~= items@.map_values(|item: Json| item@));
        json
    }

    /// The object of `members`, in their order.
    pub fn object(members: Vec<Member>) -> (json: Json)
        ensures
            json@ == JsonView::Object(members@.map_values(|member: Member| member@)),
    {
        let json = Json::Object(members);
        assert(json@->Object_0 =~= members@.map_values(|member: Member| member@));
        json
    }

    /// The list `[[target, alias]]`: one shim or shortcut.
    pub fn alias_table(target: &str, alias: &str) -> (json: Json)
        ensures
            json@ == alias_table(target@, alias@),
    {
        let mut pair: Vec<Json> = Vec::new();
        pair.push(Json::text(target));
        pair.push(Json::text(alias));
        let pair = Json::list(pair);
        let mut table: Vec<Json> = Vec::new();
        table.push(pair);
        let json = Json::list(table);
        assert(pair@->List_0 =~= seq![JsonView::Text(target@), JsonView::Text(alias@)]);
        assert(json@->List_0 =~= seq![pair@]);
        json
    }
}

} // verus!
