//! JSON documents.
//!
//! Parsing and printing are `serde_json`'s. The library reads a document
//! through [`Json`], which holds as plain values what `serde_json::Value`
//! holds.

use vstd::prelude::*;

use crate::text::same_text;

verus! {

/// The declaration of `serde_json::Value`, which is opaque here.
#[verifier::external_type_specification]
#[verifier::external_body]
pub struct ExValue(serde_json::Value);

/// One JSON value.
#[derive(Debug, Eq, PartialEq)]
pub enum Json {
    Null,
    Bool(bool),
    /// An integer in the range of `u64`.
    Unsigned(u64),
    /// Any other number, as it prints.
    OtherNumber(String),
    Text(String),
    Array(Vec<Json>),
    /// The fields of an object, in the order in which its map is walked.
    Object(Vec<(String, Json)>),
}

/// What a [`Json`] holds.
pub enum JsonModel {
    Null,
    Bool(bool),
    Unsigned(u64),
    OtherNumber(Seq<char>),
    Text(Seq<char>),
    Array(Seq<JsonModel>),
    Object(Seq<(Seq<char>, JsonModel)>),
}

/// What `json` holds.
pub open spec fn json_model(json: Json) -> JsonModel
    decreases json,
{
    match json {
        Json::Null => JsonModel::Null,
        Json::Bool(value) => JsonModel::Bool(value),
        Json::Unsigned(value) => JsonModel::Unsigned(value),
        Json::OtherNumber(text) => JsonModel::OtherNumber(text@),
        Json::Text(text) => JsonModel::Text(text@),
        Json::Array(items) => JsonModel::Array(item_models(items@)),
        Json::Object(fields) => JsonModel::Object(field_models(fields@)),
    }
}

/// What the items of an array hold.
pub open spec fn item_models(items: Seq<Json>) -> Seq<JsonModel>
    decreases items,
{
    if items.len() == 0 {
        seq![]
    } else {
        item_models(items.drop_last()).push(json_model(items.last()))
    }
}

/// What the fields of an object hold.
pub open spec fn field_models(fields: Seq<(String, Json)>) -> Seq<(Seq<char>, JsonModel)>
    decreases fields,
{
    if fields.len() == 0 {
        seq![]
    } else {
        field_models(fields.drop_last()).push((fields.last().0@, json_model(fields.last().1)))
    }
}

impl View for Json {
    type V = JsonModel;

    open spec fn view(&self) -> JsonModel {
        json_model(*self)
    }
}

/// Each item of an array has its model at the same position.
pub proof fn lemma_item_models(items: Seq<Json>)
    ensures
        item_models(items).len() == items.len(),
        forall|i: int| 0 <= i < items.len() ==> #[trigger] item_models(items)[i] == items[i]@,
    decreases items.len(),
{
    if items.len() > 0 {
        lemma_item_models(items.drop_last());
        assert forall|i: int| 0 <= i < items.len() implies #[trigger] item_models(items)[i]
            == items[i]@ by {
            if i < items.len() - 1 {
                assert(item_models(items)[i] == item_models(items.drop_last())[i]);
            }
        }
    }
}

/// Each field of an object has its model at the same position.
pub proof fn lemma_field_models(fields: Seq<(String, Json)>)
    ensures
        field_models(fields).len() == fields.len(),
        forall|i: int|
            0 <= i < fields.len() ==> #[trigger] field_models(fields)[i] == (
                fields[i].0@,
                fields[i].1@,
            ),
    decreases fields.len(),
{
    if fields.len() > 0 {
        lemma_field_models(fields.drop_last());
        assert forall|i: int| 0 <= i < fields.len() implies #[trigger] field_models(fields)[i] == (
            fields[i].0@,
            fields[i].1@,
        ) by {
            if i < fields.len() - 1 {
                assert(field_models(fields)[i] == field_models(fields.drop_last())[i]);
            }
        }
    }
}

/// The value of the first field with the name `key`.
pub open spec fn field_of(fields: Seq<(Seq<char>, JsonModel)>, key: Seq<char>) -> Option<JsonModel>
    decreases fields.len(),
{
    if fields.len() == 0 {
        None
    } else if fields[0].0 == key {
        Some(fields[0].1)
    } else {
        field_of(fields.skip(1), key)
    }
}

/// The value of the field `key` of an object; nothing for any other value.
pub open spec fn field(json: JsonModel, key: Seq<char>) -> Option<JsonModel> {
    match json {
        JsonModel::Object(fields) => field_of(fields, key),
        _ => None,
    }
}

/// The field `key` where it is a text.
pub open spec fn text_field(json: JsonModel, key: Seq<char>) -> Option<Seq<char>> {
    match field(json, key) {
        Some(JsonModel::Text(text)) => Some(text),
        _ => None,
    }
}

/// The field `key` where it is an array.
pub open spec fn array_field(json: JsonModel, key: Seq<char>) -> Option<Seq<JsonModel>> {
    match field(json, key) {
        Some(JsonModel::Array(items)) => Some(items),
        _ => None,
    }
}

/// The field `key` where it is an integer in the range of `u64`.
pub open spec fn unsigned_field(json: JsonModel, key: Seq<char>) -> Option<u64> {
    match field(json, key) {
        Some(JsonModel::Unsigned(value)) => Some(value),
        _ => None,
    }
}

impl Json {
    /// The value of the field `key` of an object; nothing for any other value.
    pub fn get(&self, key: &str) -> (value: Option<&Json>)
        ensures
            match value {
                Some(value) => field(self@, key@) == Some(value@),
                None => field(self@, key@) is None,
            },
    {
        match self {
            Json::Object(fields) => {
                let ghost models = field_models(fields@);
                proof {
                    lemma_field_models(fields@);
                    assert(models.skip(0) =~= models);
                }
                let mut i: usize = 0;
                while i < fields.len()
                    invariant
                        i <= fields.len(),
                        *self == Json::Object(*fields),
                        models == field_models(fields@),
                        models.len() == fields.len(),
                        forall|k: int|
                            0 <= k < fields.len() ==> #[trigger] models[k] == (
                                fields@[k].0@,
                                fields@[k].1@,
                            ),
                        field_of(models, key@) == field_of(models.skip(i as int), key@),
                    decreases fields.len() - i,
                {
                    let ghost rest = models.skip(i as int);
                    assert(rest[0] == models[i as int]);
                    if same_text(fields[i].0.as_str(), key) {
                        return Some(&fields[i].1);
                    }
                    assert(rest.skip(1) =~= models.skip(i + 1));
                    i += 1;
                }
                None
            },
            _ => None,
        }
    }

    /// The text of a text value.
    pub fn as_text(&self) -> (text: Option<&String>)
        ensures
            match text {
                Some(text) => self@ == JsonModel::Text(text@),
                None => !(self@ is Text),
            },
    {
        match self {
            Json::Text(text) => Some(text),
            _ => None,
        }
    }

    /// The items of an array.
    pub fn as_array(&self) -> (items: Option<&Vec<Json>>)
        ensures
            match items {
                Some(items) => self@ == JsonModel::Array(item_models(items@)),
                None => !(self@ is Array),
            },
    {
        match self {
            Json::Array(items) => Some(items),
            _ => None,
        }
    }

    /// The field `key` where it is a text.
    pub fn text_at(&self, key: &str) -> (text: Option<&String>)
        ensures
            match text {
                Some(text) => text_field(self@, key@) == Some(text@),
                None => text_field(self@, key@) is None,
            },
    {
        match self.get(key) {
            Some(value) => value.as_text(),
            None => None,
        }
    }

    /// The field `key` where it is an array.
    pub fn array_at(&self, key: &str) -> (items: Option<&Vec<Json>>)
        ensures
            match items {
                Some(items) => array_field(self@, key@) == Some(item_models(items@)),
                None => array_field(self@, key@) is None,
            },
    {
        match self.get(key) {
            Some(value) => value.as_array(),
            None => None,
        }
    }

    /// The field `key` where it is an integer in the range of `u64`.
    pub fn unsigned_at(&self, key: &str) -> (number: Option<u64>)
        ensures
            number == unsigned_field(self@, key@),
    {
        match self.get(key) {
            Some(Json::Unsigned(number)) => Some(*number),
            _ => None,
        }
    }

    /// A copy of the value.
    pub fn copied(&self) -> (copy: Json)
        ensures
            copy@ == self@,
        decreases self,
    {
        match self {
            Json::Null => Json::Null,
            Json::Bool(value) => Json::Bool(*value),
            Json::Unsigned(value) => Json::Unsigned(*value),
            Json::OtherNumber(text) => Json::OtherNumber(text.clone()),
            Json::Text(text) => Json::Text(text.clone()),
            Json::Array(items) => {
                let mut copy: Vec<Json> = Vec::new();
                let mut i: usize = 0;
                while i < items.len()
                    invariant
                        i <= items.len(),
                        *self == Json::Array(*items),
                        item_models(copy@) == item_models(items@.take(i as int)),
                    decreases items.len() - i,
                {
                    proof {
                        assert(decreases_to!(items@ => items@[i as int]));
                        assert(decreases_to!(*self => self->Array_0));
                    }
                    let item = items[i].copied();
                    let ghost before = copy@;
                    copy.push(item);
                    i += 1;
                    proof {
                        assert(copy@.drop_last() =~= before);
                        assert(items@.take(i as int).drop_last() =~= items@.take(i - 1));
                    }
                }
                assert(items@.take(i as int) =~= items@);
                Json::Array(copy)
            },
            Json::Object(fields) => {
                let mut copy: Vec<(String, Json)> = Vec::new();
                let mut i: usize = 0;
                while i < fields.len()
                    invariant
                        i <= fields.len(),
                        *self == Json::Object(*fields),
                        field_models(copy@) == field_models(fields@.take(i as int)),
                    decreases fields.len() - i,
                {
                    proof {
                        assert(decreases_to!(fields@ => fields@[i as int]));
                        assert(decreases_to!(fields@[i as int] => fields@[i as int].1));
                        assert(decreases_to!(*self => self->Object_0));
                    }
                    let item = fields[i].1.copied();
                    let ghost before = copy@;
                    copy.push((fields[i].0.clone(), item));
                    i += 1;
                    proof {
                        assert(copy@.drop_last() =~= before);
                        assert(fields@.take(i as int).drop_last() =~= fields@.take(i - 1));
                    }
                }
                assert(fields@.take(i as int) =~= fields@);
                Json::Object(copy)
            },
        }
    }
}

impl Clone for Json {
    fn clone(&self) -> (copy: Json)
        ensures
            copy@ == self@,
    {
        self.copied()
    }
}

/// What `serde_json::from_str` makes of a text: a value, or the message of the
/// error.
pub uninterp spec fn json_value_of(text: Seq<char>) -> Result<serde_json::Value, Seq<char>>;

/// What `serde_json::from_slice` makes of bytes: a value, or the message of the
/// error.
pub uninterp spec fn json_value_of_bytes(bytes: Seq<u8>) -> Result<serde_json::Value, Seq<char>>;

/// What `serde_json::from_str` makes of a text that is to be a list: its values,
/// or the message of the error.
pub uninterp spec fn json_list_of(text: Seq<char>) -> Result<Seq<serde_json::Value>, Seq<char>>;

/// What a `serde_json::Value` holds.
pub uninterp spec fn value_contents(value: serde_json::Value) -> JsonModel;

/// The `serde_json::Value` that is made of what a [`Json`] holds.
pub uninterp spec fn value_holding(model: JsonModel) -> serde_json::Value;

/// How `serde_json::to_string_pretty` prints a value, or the message of the error.
pub uninterp spec fn value_pretty(value: serde_json::Value) -> Result<Seq<char>, Seq<char>>;

/// How a `serde_json::Value` displays.
pub uninterp spec fn value_display(value: serde_json::Value) -> Seq<char>;

/// The value that a text parses to, with two spaces of indentation; empty where
/// the text does not parse or the value cannot be printed.
pub open spec fn json_pretty(text: Seq<char>) -> Seq<char> {
    match json_value_of(text) {
        Ok(value) => match value_pretty(value) {
            Ok(printed) => printed,
            Err(_) => ""@,
        },
        Err(_) => ""@,
    }
}

/// The value that a text parses to, without white space; empty where the text
/// does not parse.
pub open spec fn json_compact(text: Seq<char>) -> Seq<char> {
    match json_value_of(text) {
        Ok(value) => value_display(value),
        Err(_) => ""@,
    }
}

/// How what a [`Json`] holds prints, without white space.
pub open spec fn json_text(model: JsonModel) -> Seq<char> {
    value_display(value_holding(model))
}

/// What a text holds as JSON, or the parser's message.
pub open spec fn parsed_json(text: Seq<char>) -> Result<JsonModel, Seq<char>> {
    match json_value_of(text) {
        Ok(value) => Ok(value_contents(value)),
        Err(message) => Err(message),
    }
}

/// What bytes hold as JSON, or the parser's message.
pub open spec fn parsed_json_bytes(bytes: Seq<u8>) -> Result<JsonModel, Seq<char>> {
    match json_value_of_bytes(bytes) {
        Ok(value) => Ok(value_contents(value)),
        Err(message) => Err(message),
    }
}

/// What a text holds as a JSON list, or the parser's message.
pub open spec fn parsed_json_list(text: Seq<char>) -> Result<Seq<JsonModel>, Seq<char>> {
    match json_list_of(text) {
        Ok(values) => Ok(values.map_values(|value: serde_json::Value| value_contents(value))),
        Err(message) => Err(message),
    }
}

/// Calls `serde_json::from_str`. The contract claims that the value, or the
/// message of the error, is a function of the text.
#[verifier::external_body]
fn value_from_text(text: &str) -> (result: Result<serde_json::Value, String>)
    ensures
        match result {
            Ok(value) => json_value_of(text@) == Ok::<serde_json::Value, Seq<char>>(value),
            Err(message) => json_value_of(text@) == Err::<serde_json::Value, Seq<char>>(message@),
        },
{
    serde_json::from_str::<serde_json::Value>(text).map_err(|error| error.to_string())
}

/// Calls `serde_json::from_slice`. The contract claims that the value, or the
/// message of the error, is a function of the bytes.
#[verifier::external_body]
fn value_from_bytes(bytes: &Vec<u8>) -> (result: Result<serde_json::Value, String>)
    ensures
        match result {
            Ok(value) => json_value_of_bytes(bytes@) == Ok::<serde_json::Value, Seq<char>>(value),
            Err(message) => json_value_of_bytes(bytes@) == Err::<serde_json::Value, Seq<char>>(
                message@,
            ),
        },
{
    serde_json::from_slice::<serde_json::Value>(bytes).map_err(|error| error.to_string())
}

/// Calls `serde_json::from_str` for a list of values. The contract claims that
/// the values, or the message of the error, are a function of the text.
#[verifier::external_body]
fn values_from_text(text: &str) -> (result: Result<Vec<serde_json::Value>, String>)
    ensures
        match result {
            Ok(values) => json_list_of(text@) == Ok::<Seq<serde_json::Value>, Seq<char>>(values@),
            Err(message) => json_list_of(text@) == Err::<Seq<serde_json::Value>, Seq<char>>(
                message@,
            ),
        },
{
    serde_json::from_str::<Vec<serde_json::Value>>(text).map_err(|error| error.to_string())
}

/// Takes a `serde_json::Value` apart, variant by variant and in the order in
/// which its arrays and maps are walked. The contract claims that what comes
/// out is a function of the value, which [`value_contents`] names.
#[verifier::external_body]
fn json_of_value(value: serde_json::Value) -> (json: Json)
    ensures
        json@ == value_contents(value),
{
    match value {
        serde_json::Value::Null => Json::Null,
        serde_json::Value::Bool(flag) => Json::Bool(flag),
        serde_json::Value::Number(number) => match number.as_u64() {
            Some(unsigned) => Json::Unsigned(unsigned),
            None => Json::OtherNumber(number.to_string()),
        },
        serde_json::Value::String(text) => Json::Text(text),
        serde_json::Value::Array(items) => Json::Array(items.into_iter().map(json_of_value).collect()),
        serde_json::Value::Object(fields) => {
            Json::Object(fields.into_iter().map(|(name, value)| (name, json_of_value(value))).collect())
        }
    }
}

/// Puts a `serde_json::Value` together, variant by variant. `serde_json` reads a
/// number that is held as a text; what it does not read stays a text. The
/// contract claims that the value is a function of what the [`Json`] holds, which
/// [`value_holding`] names. That [`json_of_value`] gives the same back is not
/// claimed: a map of `serde_json` has an order of its own.
#[verifier::external_body]
fn value_of_json(json: Json) -> (value: serde_json::Value)
    ensures
        value == value_holding(json@),
{
    match json {
        Json::Null => serde_json::Value::Null,
        Json::Bool(flag) => serde_json::Value::Bool(flag),
        Json::Unsigned(number) => serde_json::Value::from(number),
        Json::OtherNumber(text) => match text.parse::<serde_json::Number>() {
            Ok(number) => serde_json::Value::Number(number),
            Err(_) => serde_json::Value::String(text),
        },
        Json::Text(text) => serde_json::Value::String(text),
        Json::Array(items) => serde_json::Value::Array(items.into_iter().map(value_of_json).collect()),
        Json::Object(fields) => serde_json::Value::Object(
            fields.into_iter().map(|(name, value)| (name, value_of_json(value))).collect(),
        ),
    }
}

/// Calls `serde_json::to_string_pretty`. The contract claims that what is printed,
/// or the message of the error, is a function of the value.
#[verifier::external_body]
fn pretty_of_value(value: &serde_json::Value) -> (result: Result<String, String>)
    ensures
        match result {
            Ok(printed) => value_pretty(*value) == Ok::<Seq<char>, Seq<char>>(printed@),
            Err(message) => value_pretty(*value) == Err::<Seq<char>, Seq<char>>(message@),
        },
{
    serde_json::to_string_pretty(value).map_err(|error| error.to_string())
}

/// Displays a `serde_json::Value`. The contract claims that the text is a function
/// of the value.
#[verifier::external_body]
fn display_of_value(value: &serde_json::Value) -> (text: String)
    ensures
        text@ == value_display(*value),
{
    value.to_string()
}

/// Read bytes as JSON. The error is the parser's message.
pub fn parse_json_bytes(bytes: &Vec<u8>) -> (result: Result<Json, String>)
    ensures
        match result {
            Ok(json) => parsed_json_bytes(bytes@) == Ok::<JsonModel, Seq<char>>(json@),
            Err(message) => parsed_json_bytes(bytes@) == Err::<JsonModel, Seq<char>>(message@),
        },
{
    match value_from_bytes(bytes) {
        Ok(value) => Ok(json_of_value(value)),
        Err(message) => Err(message),
    }
}

/// Read a text as a JSON list. The error is the parser's message.
pub fn parse_json_list(text: &str) -> (result: Result<Vec<Json>, String>)
    ensures
        match result {
            Ok(items) => parsed_json_list(text@) == Ok::<Seq<JsonModel>, Seq<char>>(
                item_models(items@),
            ),
            Err(message) => parsed_json_list(text@) == Err::<Seq<JsonModel>, Seq<char>>(message@),
        },
{
    match values_from_text(text) {
        Ok(values) => {
            let mut values = values;
            let ghost all = values@;
            let ghost models = all.map_values(
                |value: serde_json::Value| value_contents(value),
            );
            let mut reversed: Vec<Json> = Vec::new();
            while values.len() > 0
                invariant
                    values.len() + reversed.len() == all.len(),
                    values@ == all.take(values.len() as int),
                    models == all.map_values(|value: serde_json::Value| value_contents(value)),
                    forall|k: int|
                        0 <= k < reversed.len() ==> (#[trigger] reversed@[k])@ == models[all.len()
                            - 1 - k],
                decreases values.len(),
            {
                match values.pop() {
                    Some(value) => {
                        reversed.push(json_of_value(value));
                    },
                    None => {},
                }
            }
            let mut items: Vec<Json> = Vec::new();
            while reversed.len() > 0
                invariant
                    items.len() + reversed.len() == all.len(),
                    models.len() == all.len(),
                    forall|k: int|
                        0 <= k < reversed.len() ==> (#[trigger] reversed@[k])@ == models[all.len()
                            - 1 - k],
                    item_models(items@) == models.take(items.len() as int),
                decreases reversed.len(),
            {
                match reversed.pop() {
                    Some(item) => {
                        let ghost before = items@;
                        items.push(item);
                        proof {
                            assert(items@.drop_last() =~= before);
                            assert(models.take(items.len() as int) =~= models.take(
                                before.len() as int,
                            ).push(item@));
                        }
                    },
                    None => {},
                }
            }
            assert(models.take(items.len() as int) =~= models);
            Ok(items)
        },
        Err(message) => Err(message),
    }
}

/// A JSON text together with the value that it stands for.
#[derive(Debug, Eq, PartialEq)]
pub struct JsonDocument {
    pub text: String,
    pub value: Json,
}

impl JsonDocument {
    /// The value is what the text parses to.
    pub open spec fn well_formed(&self) -> bool {
        parsed_json(self.text@) == Ok::<JsonModel, Seq<char>>(self.value@)
    }

    /// Read `text` as JSON. The error is the parser's message.
    pub fn parse(text: &str) -> (result: Result<JsonDocument, String>)
        ensures
            match result {
                Ok(document) => document.text@ == text@ && document.well_formed(),
                Err(message) => parsed_json(text@) == Err::<JsonModel, Seq<char>>(message@),
            },
    {
        match value_from_text(text) {
            Ok(value) => {
                let json = json_of_value(value);
                Ok(JsonDocument { text: text.to_owned(), value: json })
            },
            Err(message) => Err(message),
        }
    }

    /// Print `value`.
    pub fn of(value: Json) -> (document: JsonDocument)
        ensures
            document.value@ == value@,
            document.text@ == json_text(value@),
    {
        let printed = value_of_json(value.copied());
        JsonDocument { text: display_of_value(&printed), value }
    }

    /// The document with two spaces of indentation.
    pub fn pretty(&self) -> (printed: String)
        ensures
            printed@ == json_pretty(self.text@),
    {
        match value_from_text(self.text.as_str()) {
            Ok(value) => match pretty_of_value(&value) {
                Ok(printed) => printed,
                Err(_) => "".to_owned(),
            },
            Err(_) => "".to_owned(),
        }
    }

    /// The document without white space.
    pub fn compact(&self) -> (printed: String)
        ensures
            printed@ == json_compact(self.text@),
    {
        match value_from_text(self.text.as_str()) {
            Ok(value) => display_of_value(&value),
            Err(_) => "".to_owned(),
        }
    }

    /// A copy of the document.
    pub fn copied(&self) -> (copy: JsonDocument)
        ensures
            copy.text == self.text,
            copy.value@ == self.value@,
    {
        JsonDocument { text: self.text.clone(), value: self.value.copied() }
    }
}

impl Clone for JsonDocument {
    fn clone(&self) -> (copy: JsonDocument)
        ensures
            copy.text == self.text,
            copy.value@ == self.value@,
    {
        self.copied()
    }
}

} // verus!
