//! JSON values.
//!
//! `serde_json` does the parsing. What the library reads of a parsed value is
//! held by a type of its own, `Json`, whose model is `JsonView`.

use vstd::prelude::*;

use crate::model;
use crate::text;

verus! {

/// `serde_json::Value`, carried from the parser to the conversion into `Json`.
#[verifier::external_type_specification]
#[verifier::external_body]
pub struct ExValue(serde_json::Value);

/// A JSON value. Of a number only its value as a `u64` is kept, where it has
/// one.
pub enum Json {
    Null,
    Bool(bool),
    Number(Option<u64>),
    Text(String),
    List(Vec<Json>),
    Object(Vec<(String, Json)>),
}

/// The model of a `Json`.
#[verifier::ext_equal]
pub enum JsonView {
    Null,
    Bool(bool),
    Number(Option<u64>),
    Text(Seq<char>),
    List(Seq<JsonView>),
    Object(Seq<(Seq<char>, JsonView)>),
}

impl Json {
    /// The model of this value.
    pub open spec fn view(&self) -> JsonView
        decreases self,
    {
        match self {
            Json::Null => JsonView::Null,
            Json::Bool(b) => JsonView::Bool(*b),
            Json::Number(n) => JsonView::Number(*n),
            Json::Text(s) => JsonView::Text(s@),
            Json::List(items) => JsonView::List(
                Seq::new(
                    items@.len(),
                    |i: int|
                        if 0 <= i < items@.len() {
                            items@[i].view()
                        } else {
                            JsonView::Null
                        },
                ),
            ),
            Json::Object(fields) => JsonView::Object(
                Seq::new(
                    fields@.len(),
                    |i: int|
                        if 0 <= i < fields@.len() {
                            (fields@[i].0@, fields@[i].1.view())
                        } else {
                            (Seq::empty(), JsonView::Null)
                        },
                ),
            ),
        }
    }
}

/// What `serde_json` reads `text` as: the value, or none where it is no JSON
/// text.
pub uninterp spec fn json_text(text: Seq<char>) -> Option<JsonView>;

/// The value that a parsed `serde_json::Value` holds.
pub uninterp spec fn json_tree(value: serde_json::Value) -> JsonView;

/// `serde_json::from_str` at the type `serde_json::Value`: parses `text` as one
/// JSON value. Which texts it accepts, and the value it reads them as, are
/// functions of the text alone, named `json_text`.
#[verifier::external_body]
fn serde_parse(text: &str) -> (r: Option<serde_json::Value>)
    ensures
        r is Some <==> json_text(text@) is Some,
        r matches Some(value) ==> Some(json_tree(value)) == json_text(text@),
{
    serde_json::from_str::<serde_json::Value>(text).ok()
}

/// Takes a `serde_json::Value` apart, one variant of `Json` for each of its
/// variants. A number is kept as `serde_json::Number::as_u64` gives it. What the
/// value holds is named `json_tree`.
#[verifier::external_body]
fn from_serde(value: serde_json::Value) -> (r: Json)
    ensures
        r@ == json_tree(value),
{
    match value {
        serde_json::Value::Null => Json::Null,
        serde_json::Value::Bool(b) => Json::Bool(b),
        serde_json::Value::Number(n) => Json::Number(n.as_u64()),
        serde_json::Value::String(s) => Json::Text(s),
        serde_json::Value::Array(items) => Json::List(items.into_iter().map(from_serde).collect()),
        serde_json::Value::Object(fields) => Json::Object(
            fields.into_iter().map(|(key, field)| (key, from_serde(field))).collect(),
        ),
    }
}

/// Parses `text` as one JSON value.
pub fn parse(text: &str) -> (r: Option<Json>)
    ensures
        r is Some <==> json_text(text@) is Some,
        r matches Some(json) ==> Some(json@) == json_text(text@),
{
    match serde_parse(text) {
        Some(value) => Some(from_serde(value)),
        None => None,
    }
}

/// The first field named `key`.
pub open spec fn lookup(fields: Seq<(Seq<char>, JsonView)>, key: Seq<char>) -> Option<JsonView>
    decreases fields.len(),
{
    if fields.len() == 0 {
        None
    } else if fields[0].0 == key {
        Some(fields[0].1)
    } else {
        lookup(fields.subrange(1, fields.len() as int), key)
    }
}

impl JsonView {
    /// The field named `key`, if this is an object that has one.
    pub open spec fn field(self, key: Seq<char>) -> Option<JsonView> {
        match self {
            JsonView::Object(fields) => lookup(fields, key),
            _ => None,
        }
    }

    /// The text, if this is one.
    pub open spec fn as_text(self) -> Option<Seq<char>> {
        match self {
            JsonView::Text(s) => Some(s),
            _ => None,
        }
    }

    /// The field named `key` as a text, if it is there and is one.
    pub open spec fn text_field(self, key: Seq<char>) -> Option<Seq<char>> {
        match self.field(key) {
            Some(JsonView::Text(s)) => Some(s),
            _ => None,
        }
    }

    /// The field named `key` as a text; the empty text where there is none.
    pub open spec fn text_or_empty(self, key: Seq<char>) -> Seq<char> {
        match self.text_field(key) {
            Some(s) => s,
            None => Seq::empty(),
        }
    }

    /// The field named `key` as a flag; false where there is none.
    pub open spec fn flag(self, key: Seq<char>) -> bool {
        self.field(key) == Some(JsonView::Bool(true))
    }

    /// The field named `key` as a `u64`; 0 where there is none.
    pub open spec fn count(self, key: Seq<char>) -> u64 {
        match self.field(key) {
            Some(JsonView::Number(Some(n))) => n,
            _ => 0,
        }
    }

    /// The items of the field named `key`; none where it is no list.
    pub open spec fn items(self, key: Seq<char>) -> Seq<JsonView> {
        match self.field(key) {
            Some(JsonView::List(items)) => items,
            _ => Seq::empty(),
        }
    }

    /// The texts among the items of the field named `key`.
    pub open spec fn texts(self, key: Seq<char>) -> Seq<Seq<char>> {
        self.items(key).filter_map(|item: JsonView| item.as_text())
    }
}

impl Json {
    /// The field named `key`, if this is an object that has one.
    pub fn get(&self, key: &str) -> (r: Option<&Json>)
        ensures
            match (r, self@.field(key@)) {
                (Some(json), Some(view)) => json@ == view,
                (None, None) => true,
                _ => false,
            },
    {
        match self {
            Json::Object(fields) => {
                let ghost all = self@->Object_0;
                let mut i: usize = 0;
                assert(all.subrange(0, all.len() as int) =~= all);
                while i < fields.len()
                    invariant
                        i <= fields@.len(),
                        all.len() == fields@.len(),
                        self@ == JsonView::Object(all),
                        forall|k: int|
                            0 <= k < all.len() ==> #[trigger] all[k] == (
                            fields@[k].0@, fields@[k].1@),
                        lookup(all, key@) == lookup(
                            all.subrange(i as int, all.len() as int),
                            key@,
                        ),
                    decreases fields@.len() - i,
                {
                    let ghost rest = all.subrange(i as int, all.len() as int);
                    assert(rest[0] == all[i as int]);
                    if text::same(fields[i].0.as_str(), key) {
                        return Some(&fields[i].1);
                    }
                    assert(rest.subrange(1, rest.len() as int) =~= all.subrange(
                        i + 1,
                        all.len() as int,
                    ));
                    i = i + 1;
                }
                assert(all.subrange(all.len() as int, all.len() as int).len() == 0);
                None
            },
            _ => None,
        }
    }

    /// The text, if this is one.
    pub fn as_str(&self) -> (r: Option<&String>)
        ensures
            match (r, self@.as_text()) {
                (Some(s), Some(view)) => s@ == view,
                (None, None) => true,
                _ => false,
            },
    {
        match self {
            Json::Text(s) => Some(s),
            _ => None,
        }
    }

    /// The field named `key` as a text.
    pub fn text_field(&self, key: &str) -> (r: Option<String>)
        ensures
            model::opt_view(r) == self@.text_field(key@),
    {
        match self.get(key) {
            Some(Json::Text(s)) => Some(s.clone()),
            _ => None,
        }
    }

    /// The field named `key` as a text; the empty text where there is none.
    pub fn text_or_empty(&self, key: &str) -> (r: String)
        ensures
            r@ == self@.text_or_empty(key@),
    {
        match self.text_field(key) {
            Some(s) => s,
            None => String::new(),
        }
    }

    /// The field named `key` as a flag; false where there is none.
    pub fn flag(&self, key: &str) -> (r: bool)
        ensures
            r == self@.flag(key@),
    {
        match self.get(key) {
            Some(Json::Bool(b)) => *b,
            _ => false,
        }
    }

    /// The field named `key` as a `u64`; 0 where there is none.
    pub fn count(&self, key: &str) -> (r: u64)
        ensures
            r == self@.count(key@),
    {
        match self.get(key) {
            Some(Json::Number(Some(n))) => *n,
            _ => 0,
        }
    }

    /// The texts among the items of the field named `key`.
    pub fn texts(&self, key: &str) -> (r: Vec<String>)
        ensures
            model::views(r@) == self@.texts(key@),
    {
        let mut out: Vec<String> = Vec::new();
        let ghost pick = |item: JsonView| item.as_text();
        match self.get(key) {
            Some(Json::List(items)) => {
                let ghost all = self@.items(key@);
                let mut i: usize = 0;
                assert(model::views(out@) =~= all.take(0).filter_map(pick)) by {
                    reveal_with_fuel(Seq::filter_map, 1);
                }
                while i < items.len()
                    invariant
                        i <= items@.len(),
                        all.len() == items@.len(),
                        forall|k: int| 0 <= k < all.len() ==> #[trigger] all[k] == items@[k]@,
                        pick == (|item: JsonView| item.as_text()),
                        model::views(out@) == all.take(i as int).filter_map(pick),
                    decreases items@.len() - i,
                {
                    proof {
                        all.lemma_filter_map_take_succ(pick, i as int);
                    }
                    if let Some(s) = items[i].as_str() {
                        let ghost before = out@;
                        out.push(s.clone());
                        assert(model::views(out@) =~= model::views(before).push(s@));
                    }
                    i = i + 1;
                }
                assert(all.take(all.len() as int) =~= all);
            },
            _ => {
                assert(model::views(out@) =~= self@.texts(key@)) by {
                    reveal_with_fuel(Seq::filter_map, 1);
                }
            },
        }
        out
    }
}

/// The first field of a name is the one found; without one of that name there is none.
pub proof fn first_field_of_a_name_counts(
    fields: Seq<(Seq<char>, JsonView)>,
    key: Seq<char>,
    i: int,
)
    ensures
        0 <= i < fields.len() && fields[i].0 == key && (forall|j: int|
            0 <= j < i ==> (#[trigger] fields[j]).0 != key) ==> lookup(fields, key) == Some(
            fields[i].1,
        ),
        (forall|j: int| 0 <= j < fields.len() ==> (#[trigger] fields[j]).0 != key) ==> lookup(
            fields,
            key,
        ) is None,
    decreases fields.len(),
{
    if fields.len() > 0 && fields[0].0 != key {
        let rest = fields.subrange(1, fields.len() as int);
        first_field_of_a_name_counts(rest, key, i - 1);
        if 0 <= i < fields.len() && fields[i].0 == key && (forall|j: int|
            0 <= j < i ==> (#[trigger] fields[j]).0 != key) {
            assert(rest[i - 1] == fields[i]);
            assert forall|j: int| 0 <= j < i - 1 implies (#[trigger] rest[j]).0 != key by {
                assert(fields[j + 1].0 != key);
            }
        }
        if forall|j: int| 0 <= j < fields.len() ==> (#[trigger] fields[j]).0 != key {
            assert forall|j: int| 0 <= j < rest.len() implies (#[trigger] rest[j]).0 != key by {
                assert(fields[j + 1].0 != key);
            }
        }
    } else if fields.len() > 0 && 0 < i < fields.len() {
        assert(fields[0].0 == key);
    }
}

/// A field is read as what it is: a text, a flag or a number, and as nothing, off or 0
/// where it is of another kind or is not there.
pub proof fn fields_are_read_by_their_kind(value: JsonView, key: Seq<char>)
    ensures
        value.field(key) matches Some(JsonView::Text(s)) ==> value.text_field(key) == Some(s)
            && value.text_or_empty(key) == s,
        !(value.field(key) matches Some(JsonView::Text(_))) ==> value.text_field(key) is None
            && value.text_or_empty(key).len() == 0,
        value.field(key) matches Some(JsonView::Bool(b)) ==> value.flag(key) == b,
        !(value.field(key) matches Some(JsonView::Bool(_))) ==> !value.flag(key),
        value.field(key) matches Some(JsonView::Number(Some(n))) ==> value.count(key) == n,
        !(value.field(key) matches Some(JsonView::Number(Some(_)))) ==> value.count(key) == 0,
        value.field(key) matches Some(JsonView::List(items)) ==> value.items(key) == items,
        !(value.field(key) matches Some(JsonView::List(_))) ==> value.items(key).len() == 0,
        !(value is Object) ==> value.field(key) is None,
{
}

/// The texts of a field are the items of its list that are texts, and no others.
pub proof fn texts_are_the_texts_of_the_list(value: JsonView, key: Seq<char>, found: Seq<char>)
    ensures
        value.texts(key).contains(found) <==> value.items(key).contains(JsonView::Text(found)),
{
    let items = value.items(key);
    let pick = |item: JsonView| item.as_text();
    model::picked_is_given_by_an_item(items, pick, found);
    if value.texts(key).contains(found) {
        let i = choose|i: int| 0 <= i < items.len() && pick(#[trigger] items[i]) == Some(found);
        assert(items[i] == JsonView::Text(found));
    }
    if items.contains(JsonView::Text(found)) {
        let i = choose|i: int| 0 <= i < items.len() && items[i] == JsonView::Text(found);
        assert(pick(items[i]) == Some(found));
    }
}

} // verus!
