//! JSON documents as values of the library, and the reading of a text into
//! one. The text is parsed by `serde_json`; what it returns is walked by
//! verified code.

use crate::error::DatapackError;
use crate::error::Fault;
use crate::strings::str_equal;
use vstd::prelude::*;

verus! {

/// A JSON number: a non-negative integer, a negative integer, or a finite
/// binary64 number held by its bits.
#[derive(Debug, Clone, Copy, PartialEq, Eq, Hash, Structural)]
pub enum JsonNumber {
    PosInt(u64),
    NegInt(i64),
    Float(u64),
}

/// A JSON document, as a mathematical value.
pub enum Json {
    Null,
    Bool(bool),
    Number(JsonNumber),
    String(Seq<char>),
    Array(Seq<Json>),
    Object(Seq<(Seq<char>, Json)>),
}

/// A JSON document.
#[derive(Debug, PartialEq, Eq)]
pub enum JsonValue {
    Null,
    Bool(bool),
    Number(JsonNumber),
    String(String),
    Array(Vec<JsonValue>),
    Object(Vec<(String, JsonValue)>),
}

/// The six shapes of a JSON document.
#[derive(Debug, Clone, Copy, PartialEq, Eq, Structural)]
pub enum JsonKind {
    Null,
    Bool,
    Number,
    String,
    Array,
    Object,
}

/// The document that a value of the library stands for.
pub open spec fn json_view(v: JsonValue) -> Json
    decreases v,
{
    match v {
        JsonValue::Null => Json::Null,
        JsonValue::Bool(b) => Json::Bool(b),
        JsonValue::Number(n) => Json::Number(n),
        JsonValue::String(s) => Json::String(s@),
        JsonValue::Array(a) => Json::Array(
            Seq::new(
                a@.len(),
                |i: int|
                    if 0 <= i < a@.len() {
                        json_view(a@[i])
                    } else {
                        Json::Null
                    },
            ),
        ),
        JsonValue::Object(o) => Json::Object(
            Seq::new(
                o@.len(),
                |i: int|
                    if 0 <= i < o@.len() {
                        (o@[i].0@, json_view(o@[i].1))
                    } else {
                        (Seq::empty(), Json::Null)
                    },
            ),
        ),
    }
}

impl View for JsonValue {
    type V = Json;

    open spec fn view(&self) -> Json {
        json_view(*self)
    }
}

/// The documents that a list of values stands for.
pub open spec fn json_views(items: Seq<JsonValue>) -> Seq<Json> {
    Seq::new(items.len(), |i: int| items[i]@)
}

/// The value of the first member named `key` among `members[from..]`.
pub open spec fn find_member(members: Seq<(Seq<char>, Json)>, key: Seq<char>, from: int) -> Option<
    Json,
>
    decreases members.len() - from,
{
    if from < 0 || from >= members.len() {
        None
    } else if members[from].0 == key {
        Some(members[from].1)
    } else {
        find_member(members, key, from + 1)
    }
}

impl Json {
    /// The shape of the document.
    pub open spec fn kind(self) -> JsonKind {
        match self {
            Json::Null => JsonKind::Null,
            Json::Bool(_) => JsonKind::Bool,
            Json::Number(_) => JsonKind::Number,
            Json::String(_) => JsonKind::String,
            Json::Array(_) => JsonKind::Array,
            Json::Object(_) => JsonKind::Object,
        }
    }

    /// The member named `key` of an object; `None` for a document that is no
    /// object or has no such member.
    pub open spec fn member(self, key: Seq<char>) -> Option<Json> {
        match self {
            Json::Object(members) => find_member(members, key, 0),
            _ => None,
        }
    }

    /// The integer that the document is, if it is an integer number.
    pub open spec fn integer(self) -> Option<int> {
        match self {
            Json::Number(JsonNumber::PosInt(n)) => Some(n as int),
            Json::Number(JsonNumber::NegInt(n)) => Some(n as int),
            _ => None,
        }
    }

    /// The text that the document is, if it is a string.
    pub open spec fn text(self) -> Option<Seq<char>> {
        match self {
            Json::String(s) => Some(s),
            _ => None,
        }
    }

    /// The truth value that the document is, if it is a boolean.
    pub open spec fn boolean(self) -> Option<bool> {
        match self {
            Json::Bool(b) => Some(b),
            _ => None,
        }
    }
}

impl JsonValue {
    /// The shape of the document.
    pub fn kind(&self) -> (k: JsonKind)
        ensures
            k == self@.kind(),
    {
        match self {
            JsonValue::Null => JsonKind::Null,
            JsonValue::Bool(_) => JsonKind::Bool,
            JsonValue::Number(_) => JsonKind::Number,
            JsonValue::String(_) => JsonKind::String,
            JsonValue::Array(_) => JsonKind::Array,
            JsonValue::Object(_) => JsonKind::Object,
        }
    }

    /// The member named `key` of an object, the first if several have that
    /// name.
    pub fn get(&self, key: &str) -> (r: Option<&JsonValue>)
        ensures
            match r {
                Some(v) => self@.member(key@) == Some(v@),
                None => self@.member(key@) is None,
            },
    {
        match self {
            JsonValue::Object(o) => {
                let mut i: usize = 0;
                while i < o.len()
                    invariant
                        i <= o.len(),
                        self@ is Object,
                        self@->Object_0.len() == o@.len(),
                        forall|k: int|
                            0 <= k < o@.len() ==> #[trigger] self@->Object_0[k] == (
                                o@[k].0@,
                                o@[k].1@,
                            ),
                        find_member(self@->Object_0, key@, 0) == find_member(
                            self@->Object_0,
                            key@,
                            i as int,
                        ),
                    decreases o.len() - i,
                {
                    if str_equal(o[i].0.as_str(), key) {
                        return Some(&o[i].1);
                    }
                    i += 1;
                }
                None
            },
            _ => None,
        }
    }

    /// The integer that the document is, if it is an integer number that fits
    /// `i64`.
    pub fn as_integer(&self) -> (r: Option<i64>)
        ensures
            r is Some ==> self@.integer() == Some(r.unwrap() as int),
            r is None ==> (self@.integer() is None || self@.integer().unwrap() > i64::MAX),
    {
        match self {
            JsonValue::Number(JsonNumber::PosInt(n)) => {
                if *n <= 0x7fff_ffff_ffff_ffff {
                    Some(*n as i64)
                } else {
                    None
                }
            },
            JsonValue::Number(JsonNumber::NegInt(n)) => Some(*n),
            _ => None,
        }
    }

    /// The number that the document is, if it is an integer number.
    pub fn as_whole(&self) -> (r: Option<JsonNumber>)
        ensures
            match r {
                Some(n) => self@ == Json::Number(n) && self@.integer() is Some,
                None => self@.integer() is None,
            },
    {
        match self {
            JsonValue::Number(JsonNumber::PosInt(n)) => Some(JsonNumber::PosInt(*n)),
            JsonValue::Number(JsonNumber::NegInt(n)) => Some(JsonNumber::NegInt(*n)),
            _ => None,
        }
    }

    /// The text that the document is, if it is a string.
    pub fn as_text(&self) -> (r: Option<&String>)
        ensures
            match r {
                Some(s) => self@.text() == Some(s@),
                None => self@.text() is None,
            },
    {
        match self {
            JsonValue::String(s) => Some(s),
            _ => None,
        }
    }

    /// The truth value that the document is, if it is a boolean.
    pub fn as_boolean(&self) -> (r: Option<bool>)
        ensures
            r == self@.boolean(),
    {
        match self {
            JsonValue::Bool(b) => Some(*b),
            _ => None,
        }
    }

    /// Whether the document is `null`.
    pub fn is_null(&self) -> (r: bool)
        ensures
            r == (self@ is Null),
    {
        match self {
            JsonValue::Null => true,
            _ => false,
        }
    }

    /// The optional member `key` as a string; a member of another shape
    /// gives a `Deserialize` error.
    pub fn optional_string(&self, key: &str) -> (r: Result<Option<String>, DatapackError>)
        ensures
            match optional_text(self@, key@) {
                Some(Some(s)) => r matches Ok(Some(x)) && x@ == s,
                Some(None) => r matches Ok(None),
                None => r matches Err(e) && e.describes(Fault::Deserialize) && e.spec_payload()
                    == key@,
            },
    {
        match self.get(key) {
            None => Ok(None),
            Some(member) => match member {
                JsonValue::Null => Ok(None),
                JsonValue::String(s) => Ok(Some(s.clone())),
                _ => Err(DatapackError::Deserialize(key.to_owned())),
            },
        }
    }

    /// The document as a 32-bit integer, if it is an integer in that range.
    pub fn as_small_integer(&self) -> (r: Option<i32>)
        ensures
            r == self@.small_integer(),
    {
        match self.as_integer() {
            Some(n) => if -0x8000_0000 <= n && n <= 0x7fff_ffff {
                Some(n as i32)
            } else {
                None
            },
            None => None,
        }
    }

    /// The member `key`, which must be there as a 32-bit integer; else a
    /// `Deserialize` error that names the member.
    pub fn small_integer_member(&self, key: &str) -> (r: Result<i32, DatapackError>)
        ensures
            match required_small_integer(self@, key@) {
                Some(n) => r == Ok::<_, DatapackError>(n),
                None => r matches Err(e) && e.describes(Fault::Deserialize) && e.spec_payload()
                    == key@,
            },
    {
        match self.get(key) {
            Some(member) => match member.as_small_integer() {
                Some(n) => Ok(n),
                None => Err(DatapackError::Deserialize(key.to_owned())),
            },
            None => Err(DatapackError::Deserialize(key.to_owned())),
        }
    }

    /// The optional member `key` as a 32-bit integer; a member of another
    /// shape gives a `Deserialize` error that names the member.
    pub fn optional_small_integer_member(&self, key: &str) -> (r: Result<
        Option<i32>,
        DatapackError,
    >)
        ensures
            match optional_small_integer(self@, key@) {
                Some(n) => r == Ok::<_, DatapackError>(n),
                None => r matches Err(e) && e.describes(Fault::Deserialize) && e.spec_payload()
                    == key@,
            },
    {
        match self.get(key) {
            None => Ok(None),
            Some(member) => {
                if member.is_null() {
                    return Ok(None);
                }
                match member.as_small_integer() {
                    Some(n) => Ok(Some(n)),
                    None => Err(DatapackError::Deserialize(key.to_owned())),
                }
            },
        }
    }

    /// The member `key`, which must be there as a number; else a
    /// `Deserialize` error that names the member.
    pub fn number_member(&self, key: &str) -> (r: Result<JsonNumber, DatapackError>)
        ensures
            match required_number(self@, key@) {
                Some(n) => r == Ok::<_, DatapackError>(n),
                None => r matches Err(e) && e.describes(Fault::Deserialize) && e.spec_payload()
                    == key@,
            },
    {
        match self.get(key) {
            Some(JsonValue::Number(n)) => Ok(*n),
            _ => Err(DatapackError::Deserialize(key.to_owned())),
        }
    }

    /// The optional member `key` as a number; a member of another shape gives
    /// a `Deserialize` error that names the member.
    pub fn optional_number_member(&self, key: &str) -> (r: Result<
        Option<JsonNumber>,
        DatapackError,
    >)
        ensures
            match optional_number(self@, key@) {
                Some(n) => r == Ok::<_, DatapackError>(n),
                None => r matches Err(e) && e.describes(Fault::Deserialize) && e.spec_payload()
                    == key@,
            },
    {
        match self.get(key) {
            None => Ok(None),
            Some(member) => match member {
                JsonValue::Null => Ok(None),
                JsonValue::Number(n) => Ok(Some(*n)),
                _ => Err(DatapackError::Deserialize(key.to_owned())),
            },
        }
    }

    /// The member `key`, which must be there as a boolean; else a
    /// `Deserialize` error that names the member.
    pub fn bool_member(&self, key: &str) -> (r: Result<bool, DatapackError>)
        ensures
            match required_flag(self@, key@) {
                Some(b) => r == Ok::<_, DatapackError>(b),
                None => r matches Err(e) && e.describes(Fault::Deserialize) && e.spec_payload()
                    == key@,
            },
    {
        match self.get(key) {
            Some(JsonValue::Bool(b)) => Ok(*b),
            _ => Err(DatapackError::Deserialize(key.to_owned())),
        }
    }

    /// The optional member `key` as a boolean; a member of another shape
    /// gives a `Deserialize` error.
    pub fn optional_bool(&self, key: &str) -> (r: Result<Option<bool>, DatapackError>)
        ensures
            match optional_flag(self@, key@) {
                Some(b) => r == Ok::<_, DatapackError>(b),
                None => r matches Err(e) && e.describes(Fault::Deserialize) && e.spec_payload()
                    == key@,
            },
    {
        match self.get(key) {
            None => Ok(None),
            Some(member) => match member {
                JsonValue::Null => Ok(None),
                JsonValue::Bool(b) => Ok(Some(*b)),
                _ => Err(DatapackError::Deserialize(key.to_owned())),
            },
        }
    }
}

/// A member of an object is smaller than the object, so that a definition
/// may descend into it.
pub proof fn lemma_member_decreases(j: Json, key: Seq<char>)
    ensures
        j.member(key) is Some ==> decreases_to!(j => j.member(key)->0),
{
    if let Json::Object(members) = j {
        lemma_find_member_decreases(j, key, 0);
    }
}

proof fn lemma_find_member_decreases(j: Json, key: Seq<char>, from: int)
    requires
        j is Object,
        0 <= from,
    ensures
        find_member(j->Object_0, key, from) is Some ==> decreases_to!(j => find_member(j->Object_0, key, from)->0),
    decreases j->Object_0.len() - from,
{
    let members = j->Object_0;
    if from < members.len() {
        if members[from].0 == key {
            assert(decreases_to!(j => j->Object_0));
            assert(decreases_to!(j->Object_0 => j->Object_0[from]));
            assert(decreases_to!(j->Object_0[from] => j->Object_0[from].1));
        } else {
            lemma_find_member_decreases(j, key, from + 1);
        }
    }
}

/// An optional member that is a string: `Some(None)` where the member is
/// absent or `null`, `None` where it is anything but a string.
pub open spec fn optional_text(j: Json, key: Seq<char>) -> Option<Option<Seq<char>>> {
    match j.member(key) {
        None => Some(None),
        Some(Json::Null) => Some(None),
        Some(Json::String(s)) => Some(Some(s)),
        Some(_) => None,
    }
}

/// An optional member that is a boolean: `Some(None)` where the member is
/// absent or `null`, `None` where it is anything but a boolean.
pub open spec fn optional_flag(j: Json, key: Seq<char>) -> Option<Option<bool>> {
    match j.member(key) {
        None => Some(None),
        Some(Json::Null) => Some(None),
        Some(Json::Bool(b)) => Some(Some(b)),
        Some(_) => None,
    }
}

impl Json {
    /// The document as a 32-bit integer, if it is an integer in that range.
    pub open spec fn small_integer(self) -> Option<i32> {
        match self.integer() {
            Some(n) => if i32::MIN <= n <= i32::MAX {
                Some(n as i32)
            } else {
                None
            },
            None => None,
        }
    }

    /// The number that the document is, if it is a number.
    pub open spec fn number(self) -> Option<JsonNumber> {
        match self {
            Json::Number(n) => Some(n),
            _ => None,
        }
    }
}

/// An optional member that is a 32-bit integer: `Some(None)` where the
/// member is absent or `null`, `None` where it is anything else.
pub open spec fn optional_small_integer(j: Json, key: Seq<char>) -> Option<Option<i32>> {
    match j.member(key) {
        None => Some(None),
        Some(Json::Null) => Some(None),
        Some(member) => match member.small_integer() {
            Some(n) => Some(Some(n)),
            None => None,
        },
    }
}

/// An optional member that is a number: `Some(None)` where the member is
/// absent or `null`, `None` where it is anything but a number.
pub open spec fn optional_number(j: Json, key: Seq<char>) -> Option<Option<JsonNumber>> {
    match j.member(key) {
        None => Some(None),
        Some(Json::Null) => Some(None),
        Some(Json::Number(n)) => Some(Some(n)),
        Some(_) => None,
    }
}

/// A member that must be there as a 32-bit integer.
pub open spec fn required_small_integer(j: Json, key: Seq<char>) -> Option<i32> {
    match j.member(key) {
        Some(member) => member.small_integer(),
        None => None,
    }
}

/// A member that must be there as a number.
pub open spec fn required_number(j: Json, key: Seq<char>) -> Option<JsonNumber> {
    match j.member(key) {
        Some(member) => member.number(),
        None => None,
    }
}

/// A member that must be there as a boolean.
pub open spec fn required_flag(j: Json, key: Seq<char>) -> Option<bool> {
    match j.member(key) {
        Some(member) => member.boolean(),
        None => None,
    }
}

/// A document as `serde_json` holds it after parsing.
#[verifier::external_type_specification]
#[verifier::external_body]
pub struct ExParsedDocument(serde_json::Value);

/// Why `serde_json` rejected a text.
#[verifier::external_type_specification]
#[verifier::external_body]
pub struct ExParseFault(serde_json::Error);

/// The document that `serde_json::from_str` reads from a text, or `None`
/// where it rejects the text.
pub uninterp spec fn json_of_text(text: Seq<char>) -> Option<Json>;

/// The document that a `serde_json::Value` holds.
pub uninterp spec fn json_of_value(value: serde_json::Value) -> Json;

/// `serde_json::from_str`, reading a `serde_json::Value`: it accepts a text
/// exactly when the text is a JSON document, and the value then holds that
/// document.
#[verifier::external_body]
fn read_document(text: &str) -> (r: Result<serde_json::Value, serde_json::Error>)
    ensures
        r is Ok <==> json_of_text(text@) is Some,
        r matches Ok(v) ==> json_of_text(text@) == Some(json_of_value(v)),
{
    serde_json::from_str(text)
}

/// `serde_json::Error`'s rendering as text. Nothing is claimed of the text.
#[verifier::external_body]
fn fault_text(fault: &serde_json::Error) -> (r: String) {
    fault.to_string()
}

/// `serde_json::Value::as_bool`: the truth value of a boolean, `None` for
/// every other document.
#[verifier::external_body]
fn document_bool(value: &serde_json::Value) -> (r: Option<bool>)
    ensures
        r == json_of_value(*value).boolean(),
{
    value.as_bool()
}

/// `serde_json::Value::as_u64`: the integer of a non-negative integer number,
/// `None` for every other document.
#[verifier::external_body]
fn document_u64(value: &serde_json::Value) -> (r: Option<u64>)
    ensures
        r == (match json_of_value(*value) {
            Json::Number(JsonNumber::PosInt(n)) => Some(n),
            _ => None,
        }),
{
    value.as_u64()
}

/// `serde_json::Value::as_i64`: the integer of a negative integer number, or
/// of a non-negative one that fits; `None` for every other document.
#[verifier::external_body]
fn document_i64(value: &serde_json::Value) -> (r: Option<i64>)
    ensures
        r == (match json_of_value(*value) {
            Json::Number(JsonNumber::NegInt(n)) => Some(n),
            Json::Number(JsonNumber::PosInt(n)) => if n <= i64::MAX {
                Some(n as i64)
            } else {
                None
            },
            _ => None,
        }),
{
    value.as_i64()
}

/// `serde_json::Value::as_f64`, by the bits of what it returns: `Some` for
/// exactly the numbers, and the held bits for a number that is no integer.
#[verifier::external_body]
fn document_float_bits(value: &serde_json::Value) -> (r: Option<u64>)
    ensures
        r is Some <==> json_of_value(*value) is Number,
        json_of_value(*value) matches Json::Number(JsonNumber::Float(bits)) ==> r == Some(bits),
{
    match value.as_f64() {
        Some(x) => Some(x.to_bits()),
        None => None,
    }
}

/// `serde_json::Value::as_str`: the text of a string, `None` for every other
/// document.
#[verifier::external_body]
fn document_text(value: &serde_json::Value) -> (r: Option<&str>)
    ensures
        match r {
            Some(s) => json_of_value(*value).text() == Some(s@),
            None => json_of_value(*value).text() is None,
        },
{
    value.as_str()
}

/// `serde_json::Value::as_array`: the items of an array, in order; `None` for
/// every other document.
#[verifier::external_body]
fn document_items(value: &serde_json::Value) -> (r: Option<&Vec<serde_json::Value>>)
    ensures
        match r {
            Some(items) => json_of_value(*value) is Array && items@.len() == json_of_value(
                *value,
            )->Array_0.len() && forall|i: int|
                0 <= i < items@.len() ==> json_of_value(#[trigger] items@[i]) == json_of_value(
                    *value,
                )->Array_0[i],
            None => !(json_of_value(*value) is Array),
        },
{
    value.as_array()
}

/// `serde_json::Value::as_object` and the walk of the map it gives: the
/// members of an object, each with its name, in the order in which the map
/// is walked; `None` for every other document.
#[verifier::external_body]
fn document_members(value: &serde_json::Value) -> (r: Option<Vec<(&String, &serde_json::Value)>>)
    ensures
        match r {
            Some(members) => json_of_value(*value) is Object && members@.len() == json_of_value(
                *value,
            )->Object_0.len() && forall|i: int|
                0 <= i < members@.len() ==> (#[trigger] members@[i]).0@ == json_of_value(
                    *value,
                )->Object_0[i].0 && json_of_value(*members@[i].1) == json_of_value(
                    *value,
                )->Object_0[i].1,
            None => !(json_of_value(*value) is Object),
        },
{
    match value.as_object() {
        Some(map) => Some(map.iter().collect()),
        None => None,
    }
}

/// Copies a parsed document into a value of the library.
fn convert_document(value: &serde_json::Value) -> (r: JsonValue)
    ensures
        r@ == json_of_value(*value),
    decreases json_of_value(*value),
{
    if let Some(b) = document_bool(value) {
        return JsonValue::Bool(b);
    }
    if let Some(n) = document_u64(value) {
        return JsonValue::Number(JsonNumber::PosInt(n));
    }
    if let Some(n) = document_i64(value) {
        return JsonValue::Number(JsonNumber::NegInt(n));
    }
    if let Some(bits) = document_float_bits(value) {
        return JsonValue::Number(JsonNumber::Float(bits));
    }
    if let Some(s) = document_text(value) {
        return JsonValue::String(s.to_owned());
    }
    if let Some(items) = document_items(value) {
        let ghost a = json_of_value(*value)->Array_0;
        let mut out: Vec<JsonValue> = Vec::new();
        let mut i: usize = 0;
        while i < items.len()
            invariant
                i <= items.len(),
                out@.len() == i,
                json_of_value(*value) == Json::Array(a),
                items@.len() == a.len(),
                forall|k: int| 0 <= k < items@.len() ==> json_of_value(#[trigger] items@[k]) == a[k],
                forall|k: int| 0 <= k < i ==> (#[trigger] out@[k])@ == a[k],
            decreases items.len() - i,
        {
            proof {
                assert(json_of_value(items@[i as int]) == a[i as int]);
                let j = json_of_value(*value);
                assert(decreases_to!(j => j->Array_0));
                assert(decreases_to!(j->Array_0 => j->Array_0[i as int]));
            }
            let item = convert_document(&items[i]);
            out.push(item);
            i += 1;
        }
        let r = JsonValue::Array(out);
        assert(r@->Array_0 =~= a);
        return r;
    }
    if let Some(members) = document_members(value) {
        let ghost o = json_of_value(*value)->Object_0;
        let mut out: Vec<(String, JsonValue)> = Vec::new();
        let mut i: usize = 0;
        while i < members.len()
            invariant
                i <= members.len(),
                out@.len() == i,
                json_of_value(*value) == Json::Object(o),
                members@.len() == o.len(),
                forall|k: int|
                    0 <= k < members@.len() ==> (#[trigger] members@[k]).0@ == o[k].0
                        && json_of_value(*members@[k].1) == o[k].1,
                forall|k: int|
                    0 <= k < i ==> (#[trigger] out@[k]).0@ == o[k].0 && out@[k].1@ == o[k].1,
            decreases members.len() - i,
        {
            let name = members[i].0.clone();
            proof {
                assert(json_of_value(*members@[i as int].1) == o[i as int].1);
                let j = json_of_value(*value);
                assert(decreases_to!(j => j->Object_0));
                assert(decreases_to!(j->Object_0 => j->Object_0[i as int]));
                assert(decreases_to!(j->Object_0[i as int] => j->Object_0[i as int].1));
            }
            let item = convert_document(members[i].1);
            out.push((name, item));
            i += 1;
        }
        let r = JsonValue::Object(out);
        assert(r@->Object_0 =~= o);
        return r;
    }
    JsonValue::Null
}

/// Reads a JSON text. A text that is no JSON document gives a `Deserialize`
/// error.
pub fn parse_json(text: &str) -> (r: Result<JsonValue, DatapackError>)
    ensures
        match json_of_text(text@) {
            Some(document) => r matches Ok(v) && v@ == document,
            None => r matches Err(e) && e.spec_kind() == crate::error::ErrorKind::Deserialize,
        },
{
    match read_document(text) {
        Ok(value) => Ok(convert_document(&value)),
        Err(fault) => Err(DatapackError::Deserialize(fault_text(&fault))),
    }
}

} // verus!
