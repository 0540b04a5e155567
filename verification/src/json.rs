//! JSON values, as far as the OTLP encoding needs them.

use vstd::prelude::*;

verus! {

/// A JSON value. The fields of an object stand in the order they were given.
#[derive(Debug, PartialEq, Eq)]
pub enum Json {
    Text(String),
    Number(u64),
    List(Vec<Json>),
    Object(Vec<(String, Json)>),
}

/// A JSON value, as characters and sequences.
pub enum JsonView {
    Text(Seq<char>),
    Number(int),
    List(Seq<JsonView>),
    Object(Seq<(Seq<char>, JsonView)>),
}

impl Json {
    /// The value, as characters and sequences.
    pub open spec fn meaning(self) -> JsonView
        decreases self,
    {
        match self {
            Json::Text(text) => JsonView::Text(text@),
            Json::Number(n) => JsonView::Number(n as int),
            Json::List(items) => JsonView::List(
                Seq::new(
                    items@.len(),
                    |i: int|
                        if 0 <= i < items@.len() {
                            items@[i].meaning()
                        } else {
                            arbitrary()
                        },
                ),
            ),
            Json::Object(fields) => JsonView::Object(
                Seq::new(
                    fields@.len(),
                    |i: int|
                        if 0 <= i < fields@.len() {
                            (fields@[i].0@, fields@[i].1.meaning())
                        } else {
                            arbitrary()
                        },
                ),
            ),
        }
    }
}

/// The values of a list.
pub open spec fn meanings(items: Seq<Json>) -> Seq<JsonView> {
    Seq::new(items.len(), |i: int| items[i].meaning())
}

/// The fields of an object.
pub open spec fn field_meanings(fields: Seq<(String, Json)>) -> Seq<(Seq<char>, JsonView)> {
    Seq::new(fields.len(), |i: int| (fields[i].0@, fields[i].1.meaning()))
}

impl Json {
    /// A string.
    pub fn text(s: &str) -> (r: Json)
        ensures
            r.meaning() == JsonView::Text(s@),
    {
        Json::Text(s.to_owned())
    }

    /// A list of values.
    pub fn list(items: Vec<Json>) -> (r: Json)
        ensures
            r.meaning() == JsonView::List(meanings(items@)),
    {
        let r = Json::List(items);
        assert(r.meaning()->List_0 =~= meanings(items@));
        r
    }

    /// A list of one value.
    pub fn singleton(item: Json) -> (r: Json)
        ensures
            r.meaning() == JsonView::List(seq![item.meaning()]),
    {
        let mut items: Vec<Json> = Vec::new();
        items.push(item);
        assert(meanings(items@) =~= seq![item.meaning()]);
        Json::list(items)
    }

    /// An object with some fields.
    pub fn object(fields: Vec<(String, Json)>) -> (r: Json)
        ensures
            r.meaning() == JsonView::Object(field_meanings(fields@)),
    {
        let r = Json::Object(fields);
        assert(r.meaning()->Object_0 =~= field_meanings(fields@));
        r
    }

    /// An object with one field.
    pub fn wrapped(key: &str, value: Json) -> (r: Json)
        ensures
            r.meaning() == JsonView::Object(seq![(key@, value.meaning())]),
    {
        let mut fields: Vec<(String, Json)> = Vec::new();
        put(&mut fields, key, value);
        assert(field_meanings(fields@) =~= seq![(key@, value.meaning())]);
        Json::object(fields)
    }

    /// An object with two fields.
    pub fn pair(first: &str, one: Json, second: &str, other: Json) -> (r: Json)
        ensures
            r.meaning() == JsonView::Object(
                seq![(first@, one.meaning()), (second@, other.meaning())],
            ),
    {
        let mut fields: Vec<(String, Json)> = Vec::new();
        put(&mut fields, first, one);
        put(&mut fields, second, other);
        assert(field_meanings(fields@) =~= seq![
            (first@, one.meaning()),
            (second@, other.meaning()),
        ]);
        Json::object(fields)
    }
}

/// Adds a field behind some others.
pub fn put(fields: &mut Vec<(String, Json)>, key: &str, value: Json)
    ensures
        field_meanings(final(fields)@) == field_meanings(old(fields)@).push((key@, value.meaning())),
{
    let ghost before = fields@;
    fields.push((key.to_owned(), value));
    assert(field_meanings(fields@) =~= field_meanings(before).push((key@, value.meaning())));
}

/// A document means what it holds: its text, its number, its items in their order, and
/// its fields in their order under their own keys.
pub proof fn documents_mean_what_they_hold(
    text: String,
    n: u64,
    items: Vec<Json>,
    fields: Vec<(String, Json)>,
)
    ensures
        Json::Text(text).meaning() == JsonView::Text(text@),
        Json::Number(n).meaning() == JsonView::Number(n as int),
        Json::List(items).meaning() matches JsonView::List(all) && {
            &&& all.len() == items@.len()
            &&& forall|i: int| 0 <= i < items@.len() ==> #[trigger] all[i] == items@[i].meaning()
        },
        Json::Object(fields).meaning() matches JsonView::Object(all) && {
            &&& all.len() == fields@.len()
            &&& forall|i: int|
                0 <= i < fields@.len() ==> #[trigger] all[i] == (
                    fields@[i].0@,
                    fields@[i].1.meaning(),
                )
        },
{
}

} // verus!
