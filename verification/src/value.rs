//! The JSON values, numbers and errors of `serde_json`, and the way from them
//! to [`Json`] and back.
use serde::de::Unexpected;
use serde_json::{Error, Number, Value};
use vstd::prelude::*;

use crate::json::{items_view, members_view, Json, JsonView, Object};
use crate::text::decimal;

verus! {

/// `serde_json::Value`: a JSON value of any kind.
#[verifier::external_type_specification]
#[verifier::external_body]
pub struct ExValue(Value);

/// `serde_json::Number`: a number of a JSON value.
#[verifier::external_type_specification]
#[verifier::external_body]
pub struct ExNumber(Number);

/// `serde_json::Error`: why a text or a value could not be read.
#[verifier::external_type_specification]
#[verifier::external_body]
pub struct ExError(Error);

/// What a `serde_json::Value` holds.
pub uninterp spec fn value_contents(value: Value) -> JsonView;

/// What a `serde_json::Number` holds: a whole number between `i64::MIN` and
/// `u64::MAX`, or a fraction, which the text that `Number` displays stands for.
pub uninterp spec fn number_contents(number: Number) -> JsonView;

/// The text that a `serde_json::Error` displays.
pub uninterp spec fn error_message(error: Error) -> Seq<char>;

/// What `serde_json::from_str` reads in a text: a value, or the message of the
/// error.
pub uninterp spec fn parsed(text: Seq<char>) -> Result<JsonView, Seq<char>>;

/// The compact text that `serde_json` writes for a value.
pub uninterp spec fn json_text(json: JsonView) -> Seq<char>;

/// A text between quotation marks, as its `Debug` form shows it.
pub uninterp spec fn quoted(text: Seq<char>) -> Seq<char>;

/// A JSON number that is neither a `u64` nor an `i64`, carried as it was read.
#[derive(Debug)]
pub struct Fraction {
    number: Number,
}

impl Fraction {
    #[verifier::type_invariant]
    closed spec fn is_fraction(self) -> bool {
        number_contents(self.number) is Fraction
    }

    /// The text that the number is written with.
    pub closed spec fn numeral(self) -> Seq<char> {
        number_contents(self.number)->Fraction_0
    }
}

/// The outermost layer of a `serde_json::Value`.
pub(crate) enum Layer {
    Null,
    Bool(bool),
    Number(Number),
    String(String),
    Array(Vec<Value>),
    Object(Vec<(String, Value)>),
}

/// What a list of values holds, one by one.
pub(crate) open spec fn list_contents(items: Seq<Value>) -> Seq<JsonView> {
    items.map_values(|item: Value| value_contents(item))
}

/// What a list of members holds. Where a name occurs twice, the later member
/// counts.
pub(crate) open spec fn map_contents(members: Seq<(String, Value)>) -> Map<Seq<char>, JsonView>
    decreases members.len(),
{
    if members.len() == 0 {
        Map::empty()
    } else {
        map_contents(members.drop_last()).insert(
            members.last().0@,
            value_contents(members.last().1),
        )
    }
}

/// What the value under an outermost layer holds.
pub(crate) open spec fn layer_contents(layer: Layer) -> JsonView {
    match layer {
        Layer::Null => JsonView::Null,
        Layer::Bool(b) => JsonView::Bool(b),
        Layer::Number(number) => number_contents(number),
        Layer::String(s) => JsonView::String(s@),
        Layer::Array(items) => JsonView::Array(list_contents(items@)),
        Layer::Object(members) => JsonView::Object(map_contents(members@)),
    }
}

/// Whether no two members have one name.
pub(crate) open spec fn names_differ(members: Seq<(String, Value)>) -> bool {
    forall|i: int, j: int| 0 <= i < j < members.len() ==> members[i].0@ != members[j].0@
}

/// Tells the variants of `serde_json::Value` apart and hands out what each
/// holds. An object gives its members through `serde_json::Map::into_iter`, each
/// name once.
#[verifier::external_body]
fn open_value(value: Value) -> (layer: Layer)
    ensures
        layer_contents(layer) == value_contents(value),
        layer matches Layer::Object(members) ==> names_differ(members@),
{
    match value {
        Value::Null => Layer::Null,
        Value::Bool(b) => Layer::Bool(b),
        Value::Number(number) => Layer::Number(number),
        Value::String(s) => Layer::String(s),
        Value::Array(items) => Layer::Array(items),
        Value::Object(members) => Layer::Object(members.into_iter().collect()),
    }
}

/// Builds a `serde_json::Value` of each variant from what it holds. An object is
/// made by `serde_json::Map::from_iter`, in which the later of two members with
/// one name stays.
#[verifier::external_body]
fn close_value(layer: Layer) -> (value: Value)
    ensures
        value_contents(value) == layer_contents(layer),
{
    match layer {
        Layer::Null => Value::Null,
        Layer::Bool(b) => Value::Bool(b),
        Layer::Number(number) => Value::Number(number),
        Layer::String(s) => Value::String(s),
        Layer::Array(items) => Value::Array(items),
        Layer::Object(members) => Value::Object(members.into_iter().collect()),
    }
}

/// Calls `serde_json::Number::as_u64`, which gives the number where it is whole
/// and not below zero.
#[verifier::external_body]
fn number_as_u64(number: &Number) -> (whole: Option<u64>)
    ensures
        match whole {
            Some(n) => number_contents(*number) == JsonView::Integer(n as int),
            None => match number_contents(*number) {
                JsonView::Integer(n) => n < 0,
                contents => contents is Fraction,
            },
        },
{
    number.as_u64()
}

/// Calls `serde_json::Number::as_i64`, which gives the number where it is whole
/// and not above `i64::MAX`.
#[verifier::external_body]
fn number_as_i64(number: &Number) -> (whole: Option<i64>)
    ensures
        match whole {
            Some(n) => number_contents(*number) == JsonView::Integer(n as int),
            None => match number_contents(*number) {
                JsonView::Integer(n) => n > i64::MAX,
                contents => contents is Fraction,
            },
        },
{
    number.as_i64()
}

/// Calls `serde_json::Number::from` on a `u64`.
#[verifier::external_body]
fn number_from_u64(n: u64) -> (number: Number)
    ensures
        number_contents(number) == JsonView::Integer(n as int),
{
    Number::from(n)
}

/// Calls `serde_json::Number::from` on an `i64`.
#[verifier::external_body]
fn number_from_i64(n: i64) -> (number: Number)
    ensures
        number_contents(number) == JsonView::Integer(n as int),
{
    Number::from(n)
}

/// Calls `serde_json::from_str` for a `serde_json::Value`. What it makes of a
/// text depends on the text alone.
#[verifier::external_body]
fn parse_value(text: &str) -> (outcome: Result<Value, Error>)
    ensures
        match outcome {
            Ok(value) => parsed(text@) == Ok::<JsonView, Seq<char>>(value_contents(value)),
            Err(error) => parsed(text@) == Err::<JsonView, Seq<char>>(error_message(error)),
        },
{
    serde_json::from_str::<Value>(text)
}

/// Whether a value holds no fraction, and arrays and objects lie in one another at
/// most `depth` deep.
pub open spec fn is_plain(json: JsonView, depth: nat) -> bool
    decreases depth,
{
    match json {
        JsonView::Fraction(_) => false,
        JsonView::Array(items) => depth > 0 && forall|i: int|
            0 <= i < items.len() ==> is_plain(#[trigger] items[i], (depth - 1) as nat),
        JsonView::Object(members) => depth > 0 && forall|name: Seq<char>|
            members.contains_key(name) ==> is_plain(#[trigger] members[name], (depth - 1) as nat),
        _ => true,
    }
}

/// Whether the text of a value is sure to read as that value again: fractions may
/// come back a little changed, and what lies deeper is not read.
pub open spec fn reads_back(json: JsonView) -> bool {
    is_plain(json, 127)
}

/// Calls `to_string` on a `serde_json::Value`, which writes the value as compact
/// JSON text. The text depends on what the value holds alone. Control characters
/// of strings are escaped and nothing stands between tokens, so no line feed
/// occurs in it. Where no fraction occurs in the value and it lies within the
/// depth that `serde_json::from_str` reads, the text reads as the value again. Of
/// what other values read as, nothing is said.
#[verifier::external_body]
fn value_text(value: &Value) -> (text: String)
    ensures
        text@ == json_text(value_contents(*value)),
        !text@.contains('\n'),
        reads_back(value_contents(*value)) ==> parsed(text@) is Ok && parsed(text@)->Ok_0
            == value_contents(*value),
{
    value.to_string()
}

/// Calls `to_string` on a `serde_json::Error`.
#[verifier::external_body]
pub(crate) fn error_text(error: &Error) -> (text: String)
    ensures
        text@ == error_message(*error),
{
    error.to_string()
}

/// Whether the last character of a text is a decimal digit. A message that ends
/// so could end in a line and a column, which `serde_json::Error` takes off and
/// shows in its own way.
pub open spec fn ends_in_digit(text: Seq<char>) -> bool {
    text.len() > 0 && '0' <= text.last() && text.last() <= '9'
}

/// How an error describes a value that it did not expect.
pub open spec fn described(json: JsonView) -> Seq<char> {
    match json {
        JsonView::Null => "null"@,
        JsonView::Bool(b) => if b {
            "boolean `true`"@
        } else {
            "boolean `false`"@
        },
        JsonView::Integer(n) => "integer `"@ + decimal(n) + "`"@,
        JsonView::Fraction(numeral) => "floating point `"@ + numeral + "`"@,
        JsonView::String(s) => "string "@ + quoted(s),
        JsonView::Array(_) => "sequence"@,
        JsonView::Object(_) => "map"@,
    }
}

/// The message for a value of another kind than the one expected.
pub open spec fn invalid_type_message(json: JsonView, expected: Seq<char>) -> Seq<char> {
    "invalid type: "@ + described(json) + ", expected "@ + expected
}

/// The message for a list of another length than the one expected.
pub open spec fn invalid_length_message(length: int, expected: Seq<char>) -> Seq<char> {
    "invalid length "@ + decimal(length) + ", expected "@ + expected
}

/// The message for a member that an object has to have and has not.
pub open spec fn missing_field_message(name: Seq<char>) -> Seq<char> {
    "missing field `"@ + name + "`"@
}

/// Calls `serde::de::Error::invalid_type` for `serde_json::Error`. The value is
/// handed on as the `serde::de::Unexpected` of its kind.
#[verifier::external_body]
pub(crate) fn invalid_type(json: &Json, expected: &str) -> (error: Error)
    requires
        !ends_in_digit(expected@),
    ensures
        error_message(error) == invalid_type_message(json@, expected@),
        json@ matches JsonView::String(s) ==> error_message(error) == "invalid type: string "@
            + quoted(s) + ", expected "@ + expected@,
{
    let unexpected = match json {
        Json::Null => Unexpected::Unit,
        Json::Bool(b) => Unexpected::Bool(*b),
        Json::Unsigned(n) => Unexpected::Unsigned(*n),
        Json::Signed(n) => Unexpected::Signed(*n),
        Json::Fraction(fraction) => Unexpected::Float(fraction.number.as_f64().unwrap_or_default()),
        Json::String(s) => Unexpected::Str(s),
        Json::Array(_) => Unexpected::Seq,
        Json::Object(_) => Unexpected::Map,
    };
    <Error as serde::de::Error>::invalid_type(unexpected, &expected)
}

/// Calls `serde::de::Error::invalid_length` for `serde_json::Error`.
#[verifier::external_body]
pub(crate) fn invalid_length(length: usize, expected: &str) -> (error: Error)
    requires
        !ends_in_digit(expected@),
    ensures
        error_message(error) == invalid_length_message(length as int, expected@),
{
    <Error as serde::de::Error>::invalid_length(length, &expected)
}

/// Calls `serde::de::Error::missing_field` for `serde_json::Error`.
#[verifier::external_body]
pub(crate) fn missing_field(name: &'static str) -> (error: Error)
    ensures
        error_message(error) == missing_field_message(name@),
{
    <Error as serde::de::Error>::missing_field(name)
}

/// Calls `serde::de::Error::custom` for `serde_json::Error`.
#[verifier::external_body]
pub(crate) fn custom_error(message: &str) -> (error: Error)
    requires
        !ends_in_digit(message@),
    ensures
        error_message(error) == message@,
{
    <Error as serde::de::Error>::custom(message)
}

proof fn map_contents_has(members: Seq<(String, Value)>, at: int)
    requires
        names_differ(members),
        0 <= at < members.len(),
    ensures
        map_contents(members).dom().finite(),
        map_contents(members).contains_key(members[at].0@),
        map_contents(members)[members[at].0@] == value_contents(members[at].1),
    decreases members.len(),
{
    if at < members.len() - 1 {
        assert(members.last().0@ != members[at].0@);
        map_contents_has(members.drop_last(), at);
    } else {
        map_contents_finite(members.drop_last());
    }
}

proof fn map_contents_finite(members: Seq<(String, Value)>)
    ensures
        map_contents(members).dom().finite(),
    decreases members.len(),
{
    if members.len() > 0 {
        map_contents_finite(members.drop_last());
    }
}

proof fn item_is_smaller(whole: JsonView, at: int)
    requires
        whole is Array,
        0 <= at < whole->Array_0.len(),
    ensures
        decreases_to!(whole => whole->Array_0[at]),
{
    let items = whole->Array_0;
    assert(decreases_to!(whole => whole->Array_0));
    assert(decreases_to!(items => items[at]));
}

proof fn member_is_smaller(whole: JsonView, name: Seq<char>)
    requires
        whole is Object,
        whole->Object_0.dom().finite(),
        whole->Object_0.contains_key(name),
    ensures
        decreases_to!(whole => whole->Object_0[name]),
{
    let members = whole->Object_0;
    assert(decreases_to!(whole => whole->Object_0));
    assert(decreases_to!(members => members[name]));
}

/// Turns a `serde_json::Value` into the [`Json`] that holds the same.
fn json_from_value(value: Value) -> (json: Json)
    ensures
        json@ == value_contents(value),
    decreases value_contents(value),
{
    let ghost whole = value_contents(value);
    match open_value(value) {
        Layer::Null => Json::Null,
        Layer::Bool(b) => Json::Bool(b),
        Layer::Number(number) => {
            match number_as_u64(&number) {
                Some(n) => Json::Unsigned(n),
                None => match number_as_i64(&number) {
                    Some(n) => Json::Signed(n),
                    None => Json::Fraction(Fraction { number }),
                },
            }
        },
        Layer::String(s) => Json::String(s),
        Layer::Array(items) => {
            let ghost all = items@;
            let mut done: Vec<Json> = Vec::new();
            for item in iter: items
                invariant
                    iter.seq() == all,
                    whole == value_contents(value),
                    whole == JsonView::Array(list_contents(all)),
                    items_view(done@) == list_contents(all).take(iter.index() as int),
            {
                proof {
                    assert(item == all[iter.index() as int]);
                    assert(list_contents(all)[iter.index() as int] == value_contents(item));
                    item_is_smaller(whole, iter.index() as int);
                }
                let ghost before = done@;
                done.push(json_from_value(item));
                proof {
                    assert(items_view(done@) =~= items_view(before).push(value_contents(item)));
                    assert(items_view(done@) =~= list_contents(all).take(iter.index() + 1));
                }
            }
            assert(list_contents(all).take(all.len() as int) =~= list_contents(all));
            Json::Array(done)
        },
        Layer::Object(members) => {
            let ghost all = members@;
            let mut done: Vec<(String, Json)> = Vec::new();
            for member in iter: members
                invariant
                    iter.seq() == all,
                    names_differ(all),
                    whole == value_contents(value),
                    whole == JsonView::Object(map_contents(all)),
                    members_view(done@) == map_contents(all.take(iter.index() as int)),
            {
                let (name, inner) = member;
                proof {
                    map_contents_has(all, iter.index() as int);
                    member_is_smaller(whole, name@);
                }
                let ghost before = done@;
                done.push((name, json_from_value(inner)));
                proof {
                    assert(done@.drop_last() =~= before);
                    assert(all.take(iter.index() + 1).drop_last() =~= all.take(iter.index() as int));
                }
            }
            assert(all.take(all.len() as int) =~= all);
            Json::Object(Object { members: done })
        },
    }
}

/// Turns a [`Json`] into the `serde_json::Value` that holds the same.
fn value_from_json(json: Json) -> (value: Value)
    ensures
        value_contents(value) == json@,
    decreases json,
{
    let ghost whole = json;
    match json {
        Json::Null => close_value(Layer::Null),
        Json::Bool(b) => close_value(Layer::Bool(b)),
        Json::Unsigned(n) => close_value(Layer::Number(number_from_u64(n))),
        Json::Signed(n) => close_value(Layer::Number(number_from_i64(n))),
        Json::Fraction(fraction) => {
            proof {
                use_type_invariant(&fraction);
            }
            close_value(Layer::Number(fraction.number))
        },
        Json::String(s) => close_value(Layer::String(s)),
        Json::Array(items) => {
            let ghost all = items@;
            let mut done: Vec<Value> = Vec::new();
            for item in iter: items
                invariant
                    iter.seq() == all,
                    whole == json,
                    whole is Array,
                    whole->Array_0@ == all,
                    list_contents(done@) == items_view(all).take(iter.index() as int),
            {
                proof {
                    assert(item == all[iter.index() as int]);
                    assert(decreases_to!(whole => whole->Array_0@[iter.index() as int]));
                }
                let ghost before = done@;
                done.push(value_from_json(item));
                proof {
                    assert(list_contents(done@) =~= list_contents(before).push(item@));
                    assert(list_contents(done@) =~= items_view(all).take(iter.index() + 1));
                }
            }
            assert(items_view(all).take(all.len() as int) =~= items_view(all));
            close_value(Layer::Array(done))
        },
        Json::Object(object) => {
            let ghost all = object.members@;
            let mut done: Vec<(String, Value)> = Vec::new();
            for member in iter: object.members
                invariant
                    iter.seq() == all,
                    whole == json,
                    whole is Object,
                    whole->Object_0.members@ == all,
                    map_contents(done@) == members_view(all.take(iter.index() as int)),
            {
                proof {
                    assert(member == all[iter.index() as int]);
                    assert(decreases_to!(whole => whole->Object_0.members@[iter.index() as int].1));
                }
                let (name, inner) = member;
                let ghost before = done@;
                done.push((name, value_from_json(inner)));
                proof {
                    assert(done@.drop_last() =~= before);
                    assert(all.take(iter.index() + 1).drop_last() =~= all.take(iter.index() as int));
                }
            }
            assert(all.take(all.len() as int) =~= all);
            close_value(Layer::Object(done))
        },
    }
}

/// Reads a text as JSON. Where it is none, the error says why.
pub fn parse_json(text: &str) -> (outcome: Result<Json, String>)
    ensures
        match outcome {
            Ok(json) => parsed(text@) == Ok::<JsonView, Seq<char>>(json@),
            Err(details) => parsed(text@) == Err::<JsonView, Seq<char>>(details@),
        },
{
    match parse_value(text) {
        Ok(value) => Ok(json_from_value(value)),
        Err(error) => Err(error_text(&error)),
    }
}

/// Writes a value as JSON text, all on one line. A plain value can be read from
/// it again.
pub fn render_json(json: Json) -> (text: String)
    ensures
        text@ == json_text(json@),
        !text@.contains('\n'),
        reads_back(json@) ==> parsed(text@) == Ok::<JsonView, Seq<char>>(json@),
{
    let value = value_from_json(json);
    value_text(&value)
}

} // verus!
