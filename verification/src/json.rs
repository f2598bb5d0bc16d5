//! The JSON values that requests carry.

use vstd::prelude::*;
use vstd::string::StringExecFns;

verus! {

/// A JSON value, as far as the requests of this library need one.
#[derive(Debug, PartialEq, Eq)]
pub enum Json {
    Null,
    Text(String),
    List(Vec<Json>),
    Object(Vec<Member>),
}

/// A member of a JSON object.
#[derive(Debug, PartialEq, Eq)]
pub struct Member {
    pub name: String,
    pub value: Json,
}

/// A JSON value as plain values; an object is the sequence of its members.
pub enum JsonView {
    Null,
    Text(Seq<char>),
    List(Seq<JsonView>),
    Object(Seq<(Seq<char>, JsonView)>),
}

impl Json {
    /// The value as plain values.
    pub open spec fn model(self) -> JsonView
        decreases self,
    {
        match self {
            Json::Null => JsonView::Null,
            Json::Text(text) => JsonView::Text(text@),
            Json::List(items) => JsonView::List(
                Seq::new(
                    items@.len(),
                    |i: int|
                        if 0 <= i < items@.len() {
                            items@[i].model()
                        } else {
                            JsonView::Null
                        },
                ),
            ),
            Json::Object(members) => JsonView::Object(
                Seq::new(
                    members@.len(),
                    |i: int|
                        if 0 <= i < members@.len() {
                            (members@[i].name@, members@[i].value.model())
                        } else {
                            (Seq::empty(), JsonView::Null)
                        },
                ),
            ),
        }
    }
}

impl View for Json {
    type V = JsonView;

    open spec fn view(&self) -> JsonView {
        self.model()
    }
}

impl DeepView for Json {
    type V = JsonView;

    open spec fn deep_view(&self) -> JsonView {
        self.view()
    }
}

/// A text, or null where there is none.
pub open spec fn optional_text(text: Option<Seq<char>>) -> JsonView {
    match text {
        Some(t) => JsonView::Text(t),
        None => JsonView::Null,
    }
}

/// The list of the given texts.
pub open spec fn text_list(texts: Seq<Seq<char>>) -> JsonView {
    JsonView::List(Seq::new(texts.len(), |i: int| JsonView::Text(texts[i])))
}

impl Json {
    /// The JSON string that holds `text`.
    pub fn text(text: &str) -> (r: Json)
        ensures
            r@ == JsonView::Text(text@),
    {
        Json::Text(String::from_str(text))
    }

    /// The JSON string that holds the text, or null where there is none.
    pub fn optional(text: &Option<String>) -> (r: Json)
        ensures
            r@ == optional_text(text.deep_view()),
    {
        match text {
            Some(t) => Json::Text(t.clone()),
            None => Json::Null,
        }
    }

    /// The JSON array of the given texts.
    pub fn texts(texts: &Vec<String>) -> (r: Json)
        ensures
            r@ == text_list(texts.deep_view()),
    {
        let mut items: Vec<Json> = Vec::new();
        let mut i: usize = 0;
        while i < texts.len()
            invariant
                i <= texts.len(),
                items@.len() == i,
                forall|k: int| 0 <= k < i ==> (#[trigger] items@[k])@ == JsonView::Text(texts@[k]@),
            decreases texts.len() - i,
        {
            items.push(Json::Text(texts[i].clone()));
            i = i + 1;
        }
        let r = Json::List(items);
        assert(r@->List_0 =~= text_list(texts.deep_view())->List_0);
        r
    }

    /// The JSON object with the given members, in the sequence given.
    pub fn object(members: Vec<Member>) -> (r: Json)
        ensures
            r@ == JsonView::Object(
                Seq::new(members@.len(), |i: int| (members@[i].name@, members@[i].value@)),
            ),
    {
        let r = Json::Object(members);
        assert(r@->Object_0 =~= Seq::new(
            members@.len(),
            |i: int| (members@[i].name@, members@[i].value@),
        ));
        r
    }
}

impl Member {
    /// The member that gives `value` the name `name`.
    pub fn new(name: &str, value: Json) -> (r: Member)
        ensures
            r.name@ == name@,
            r.value == value,
    {
        Member { name: String::from_str(name), value }
    }
}

} // verus!
