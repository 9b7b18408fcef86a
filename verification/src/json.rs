//! JSON values as the service reads them, and the typed lookups of fields
//! in a JSON object.
use vstd::prelude::*;
use crate::error::{is_custom, ServiceError, RC_FAIL};
use crate::order::{names_distinct, pair_order, pairs_view};
use crate::text::{
    append_str, chars_of, str_eq, decimal, hex_digit_lower, i64_to_decimal, parse_i64, parse_i64_spec,
    push_char, signed_decimal,
    u64_to_decimal, IntErrorKind,
};

verus! {

/// A JSON number as parsed from a text: a non-negative integer, a negative
/// integer, or a number with a fraction or exponent. For the last, the value
/// keeps its text (as `serde_json` prints it) and the integer that
/// converting it to `i64` gives (truncated toward zero, saturating).
#[derive(Debug, PartialEq)]
pub enum JsonNumber {
    PosInt(u64),
    NegInt(i64),
    Float { text: String, as_int: i64 },
}

/// A JSON value.
#[derive(Debug, PartialEq)]
pub enum JsonValue {
    Null,
    Bool(bool),
    Number(JsonNumber),
    Str(String),
    Array(Vec<JsonValue>),
    Object(JsonObject),
}

/// A JSON object: its members in order. A name given twice stands for the
/// member given last, as when the members are inserted into a map one by one.
#[derive(Debug, PartialEq)]
pub struct JsonObject {
    pub fields: Vec<(String, JsonValue)>,
}

/// Index of the last member of `fields` named `name`, or -1.
pub open spec fn last_index_of(fields: Seq<(String, JsonValue)>, name: Seq<char>) -> int
    decreases fields.len(),
{
    if fields.len() == 0 {
        -1
    } else if fields.last().0@ == name {
        fields.len() - 1
    } else {
        last_index_of(fields.drop_last(), name)
    }
}

pub proof fn lemma_last_index_of_range(fields: Seq<(String, JsonValue)>, name: Seq<char>)
    ensures
        -1 <= last_index_of(fields, name) < fields.len(),
        last_index_of(fields, name) >= 0 ==> fields[last_index_of(fields, name)].0@ == name,
    decreases fields.len(),
{
    if fields.len() > 0 && fields.last().0@ != name {
        lemma_last_index_of_range(fields.drop_last(), name);
    }
}

/// In `a` followed by `b`, the last member named `name` is the last such
/// member of `b` where `b` has one, else the last such member of `a`.
pub proof fn lemma_last_index_of_concat(
    a: Seq<(String, JsonValue)>,
    b: Seq<(String, JsonValue)>,
    name: Seq<char>,
)
    ensures
        last_index_of(a + b, name) == if last_index_of(b, name) >= 0 {
            a.len() + last_index_of(b, name)
        } else {
            last_index_of(a, name)
        },
    decreases b.len(),
{
    if b.len() == 0 {
        assert(a + b =~= a);
    } else {
        assert((a + b).drop_last() =~= a + b.drop_last());
        assert((a + b).last() == b.last());
        lemma_last_index_of_concat(a, b.drop_last(), name);
    }
}

/// The member named `name`, if any.
pub open spec fn member(obj: JsonObject, name: Seq<char>) -> Option<JsonValue> {
    let i = last_index_of(obj.fields@, name);
    if i >= 0 {
        Some(obj.fields@[i].1)
    } else {
        None
    }
}

impl JsonObject {
    /// The member named `name`, if any (`Map::get`).
    pub fn get(&self, name: &str) -> (res: Option<&JsonValue>)
        ensures
            match res {
                Some(v) => member(*self, name@) == Some(*v),
                None => member(*self, name@) is None,
            },
    {
        proof {
            lemma_last_index_of_range(self.fields@, name@);
            assert(self.fields@.take(self.fields@.len() as int) =~= self.fields@);
        }
        let mut i: usize = self.fields.len();
        while i > 0
            invariant
                i <= self.fields@.len(),
                last_index_of(self.fields@, name@) == last_index_of(
                    self.fields@.take(i as int),
                    name@,
                ),
            decreases i,
        {
            let ghost t = self.fields@.take(i as int);
            assert(t.last() == self.fields@[i - 1]);
            assert(t.drop_last() =~= self.fields@.take(i - 1));
            if str_eq(self.fields[i - 1].0.as_str(), name) {
                return Some(&self.fields[i - 1].1);
            }
            i = i - 1;
        }
        proof {
            assert(self.fields@.take(0) =~= Seq::<(String, JsonValue)>::empty());
        }
        None
    }
}

/// The text of a number as `format!("{}", n)` writes it.
pub open spec fn number_text(n: JsonNumber) -> Seq<char> {
    match n {
        JsonNumber::PosInt(u) => decimal(u as nat),
        JsonNumber::NegInt(i) => signed_decimal(i as int),
        JsonNumber::Float { text, as_int } => text@,
    }
}

/// The `i64` a number stands for: itself where it fits, the largest `i64`
/// for a larger integer, and the truncated value of a fraction.
pub open spec fn number_as_i64(n: JsonNumber) -> int {
    match n {
        JsonNumber::PosInt(u) => if u <= i64::MAX {
            u as int
        } else {
            i64::MAX as int
        },
        JsonNumber::NegInt(i) => i as int,
        JsonNumber::Float { text, as_int } => as_int as int,
    }
}

/// The message of an error about the field `name`: `field <name><what>`.
pub open spec fn field_msg(name: Seq<char>, what: Seq<char>) -> Seq<char> {
    "field "@ + name + what
}

fn field_error(name: &str, what: &str) -> (res: ServiceError)
    ensures
        is_custom(res, RC_FAIL, field_msg(name@, what@)),
{
    let mut m = String::new();
    append_str(&mut m, "field ");
    append_str(&mut m, name);
    append_str(&mut m, what);
    proof {
        assert(m@ =~= field_msg(name@, what@));
    }
    ServiceError::Custom(RC_FAIL, m)
}

/// What `get_json_str` gives: the text of a string or number member.
pub open spec fn json_str_spec(obj: JsonObject, name: Seq<char>) -> Result<Seq<char>, Seq<char>> {
    match member(obj, name) {
        Some(JsonValue::Str(s)) => Ok(s@),
        Some(JsonValue::Number(n)) => Ok(number_text(n)),
        Some(_) => Err(field_msg(name, " is not string"@)),
        None => Err(field_msg(name, " not found"@)),
    }
}

fn number_to_text(n: &JsonNumber) -> (res: String)
    ensures
        res@ == number_text(*n),
{
    match n {
        JsonNumber::PosInt(u) => u64_to_decimal(*u),
        JsonNumber::NegInt(i) => i64_to_decimal(*i),
        JsonNumber::Float { text, as_int } => text.clone(),
    }
}

/// The text of the member `field_name`, which must be a string or a number.
pub fn get_json_str(root: &JsonObject, field_name: &str) -> (res: Result<String, ServiceError>)
    ensures
        match json_str_spec(*root, field_name@) {
            Ok(s) => res matches Ok(r) && r@ == s,
            Err(m) => res matches Err(e) && is_custom(e, RC_FAIL, m),
        },
{
    match root.get(field_name) {
        Some(v) => match v {
            JsonValue::Str(s) => Ok(s.clone()),
            JsonValue::Number(n) => Ok(number_to_text(n)),
            _ => Err(field_error(field_name, " is not string")),
        },
        None => Err(field_error(field_name, " not found")),
    }
}

/// The message `ParseIntError` shows for each kind.
pub open spec fn int_error_text(e: IntErrorKind) -> Seq<char> {
    match e {
        IntErrorKind::Empty => "cannot parse integer from empty string"@,
        IntErrorKind::InvalidDigit => "invalid digit found in string"@,
        IntErrorKind::PosOverflow => "number too large to fit in target type"@,
        IntErrorKind::NegOverflow => "number too small to fit in target type"@,
    }
}

fn int_error_message(e: IntErrorKind) -> (res: &'static str)
    ensures
        res@ == int_error_text(e),
{
    match e {
        IntErrorKind::Empty => "cannot parse integer from empty string",
        IntErrorKind::InvalidDigit => "invalid digit found in string",
        IntErrorKind::PosOverflow => "number too large to fit in target type",
        IntErrorKind::NegOverflow => "number too small to fit in target type",
    }
}

/// What `get_json_integer` gives.
pub open spec fn json_integer_spec(obj: JsonObject, name: Seq<char>) -> Result<int, Seq<char>> {
    match member(obj, name) {
        Some(JsonValue::Str(s)) => match parse_i64_spec(s@) {
            Ok(v) => Ok(v),
            Err(e) => Err(field_msg(name, " is not integer: "@ + int_error_text(e))),
        },
        Some(JsonValue::Number(n)) => Ok(number_as_i64(n)),
        Some(_) => Err(field_msg(name, " is not integer"@)),
        None => Err(field_msg(name, " not found"@)),
    }
}

/// The member `field_name` as an integer: a number, or a string holding
/// one in decimal.
pub fn get_json_integer(root: &JsonObject, field_name: &str) -> (res: Result<i64, ServiceError>)
    ensures
        match json_integer_spec(*root, field_name@) {
            Ok(v) => res matches Ok(x) && x == v,
            Err(m) => res matches Err(e) && is_custom(e, RC_FAIL, m),
        },
{
    match root.get(field_name) {
        Some(v) => match v {
            JsonValue::Str(s) => match parse_i64(s.as_str()) {
                Ok(x) => Ok(x),
                Err(e) => {
                    let mut m = String::new();
                    append_str(&mut m, "field ");
                    append_str(&mut m, field_name);
                    append_str(&mut m, " is not integer: ");
                    append_str(&mut m, int_error_message(e));
                    proof {
                        assert(m@ =~= field_msg(
                            field_name@,
                            " is not integer: "@ + int_error_text(e),
                        ));
                    }
                    Err(ServiceError::Custom(RC_FAIL, m))
                },
            },
            JsonValue::Number(n) => match n {
                JsonNumber::PosInt(u) => if *u <= i64::MAX as u64 {
                    Ok(*u as i64)
                } else {
                    Ok(i64::MAX)
                },
                JsonNumber::NegInt(i) => Ok(*i),
                JsonNumber::Float { text, as_int } => Ok(*as_int),
            },
            _ => Err(field_error(field_name, " is not integer")),
        },
        None => Err(field_error(field_name, " not found")),
    }
}

/// An integer member reads as itself: a non-negative integer up to
/// `i64::MAX` and every negative integer give exactly their value, a larger
/// one gives `i64::MAX`, and a string member that parses as an `i64` gives
/// that number.
pub proof fn lemma_json_integer_reads_integers(obj: JsonObject, name: Seq<char>, u: u64, i: i64, s: String)
    ensures
        member(obj, name) == Some(JsonValue::Number(JsonNumber::PosInt(u))) && u <= i64::MAX
            ==> json_integer_spec(obj, name) == Ok::<int, Seq<char>>(u as int),
        member(obj, name) == Some(JsonValue::Number(JsonNumber::PosInt(u))) && u > i64::MAX
            ==> json_integer_spec(obj, name) == Ok::<int, Seq<char>>(i64::MAX as int),
        member(obj, name) == Some(JsonValue::Number(JsonNumber::NegInt(i)))
            ==> json_integer_spec(obj, name) == Ok::<int, Seq<char>>(i as int),
        member(obj, name) == Some(JsonValue::Str(s)) && parse_i64_spec(s@) is Ok
            ==> json_integer_spec(obj, name) == Ok::<int, Seq<char>>(parse_i64_spec(s@)->Ok_0),
{
}

/// `s` with every quote, single or double, replaced by `'|'`.
pub open spec fn quotes_replaced(s: Seq<char>) -> Seq<char> {
    s.map_values(|c: char| if c == '\'' || c == '"' { '|' } else { c })
}

/// Replaces the quotes of `s` by `'|'`, so that it can stand in a JSON text.
pub fn safe_json_str(s: String) -> (res: String)
    ensures
        res@ == quotes_replaced(s@),
{
    let cs = chars_of(s.as_str());
    let mut out = String::new();
    let mut i: usize = 0;
    while i < cs.len()
        invariant
            i <= cs@.len(),
            cs@ == s@,
            out@ == quotes_replaced(s@.take(i as int)),
        decreases cs@.len() - i,
    {
        let c = cs[i];
        let d = if c == '\'' || c == '"' { '|' } else { c };
        push_char(&mut out, d);
        proof {
            assert(quotes_replaced(s@.take(i + 1)) =~= quotes_replaced(s@.take(i as int)).push(d));
        }
        i = i + 1;
    }
    proof {
        assert(s@.take(cs@.len() as int) =~= s@);
    }
    out
}

/// Replacing the quotes a second time changes nothing.
pub proof fn lemma_safe_json_str_idempotent(s: Seq<char>)
    ensures
        quotes_replaced(quotes_replaced(s)) == quotes_replaced(s),
{
    assert(quotes_replaced(quotes_replaced(s)) =~= quotes_replaced(s));
}

/// How `serde_json` writes the character `c` inside a string: `"` and `\`
/// behind a backslash, the control characters with a short escape (`\b`,
/// `\t`, `\n`, `\f`, `\r`) or as `\u00` and two lower-case hexadecimal
/// digits, every other character as it is.
pub open spec fn json_char_escape(c: char) -> Seq<char> {
    let n = c as u32;
    if c == '"' {
        seq!['\\', '"']
    } else if c == '\\' {
        seq!['\\', '\\']
    } else if n == 8 {
        seq!['\\', 'b']
    } else if n == 9 {
        seq!['\\', 't']
    } else if n == 10 {
        seq!['\\', 'n']
    } else if n == 12 {
        seq!['\\', 'f']
    } else if n == 13 {
        seq!['\\', 'r']
    } else if n < 32 {
        seq!['\\', 'u', '0', '0', hex_digit_lower((n / 16) as nat), hex_digit_lower((n % 16) as nat)]
    } else {
        seq![c]
    }
}

/// The characters of `s`, each written as `json_char_escape` says.
pub open spec fn json_escape(s: Seq<char>) -> Seq<char>
    decreases s.len(),
{
    if s.len() == 0 {
        seq![]
    } else {
        json_escape(s.drop_last()) + json_char_escape(s.last())
    }
}

/// A JSON string: `s` escaped, between double quotes.
pub open spec fn json_string_text(s: Seq<char>) -> Seq<char> {
    seq!['"'] + json_escape(s) + seq!['"']
}

/// The members `name:value` of a JSON object of strings, joined by `,`.
pub open spec fn json_members_text(ps: Seq<(Seq<char>, Seq<char>)>) -> Seq<char>
    decreases ps.len(),
{
    if ps.len() == 0 {
        seq![]
    } else if ps.len() == 1 {
        json_string_text(ps[0].0) + seq![':'] + json_string_text(ps[0].1)
    } else {
        json_members_text(ps.drop_last()) + seq![','] + json_string_text(ps.last().0) + seq![':']
            + json_string_text(ps.last().1)
    }
}

/// The compact JSON text of an object whose members are the given strings,
/// ordered by name (`serde_json::to_string` of such an object, whose map
/// orders its keys).
pub open spec fn json_string_object_text(members: Seq<(Seq<char>, Seq<char>)>) -> Seq<char> {
    seq!['{'] + json_members_text(members.sort_by(pair_order())) + seq!['}']
}

/// `serde_json::to_string` of the object whose members are the string
/// values of `members`, each name given once. serde_json's `Map` is a
/// `BTreeMap` (the `preserve_order` feature is off), so the members come out
/// ordered by name; the compact formatter writes `{`, the members as
/// `"name":"value"` joined by `,`, and `}`; strings are escaped by its
/// `ESCAPE` table. The call cannot fail here: serde_json fails only on a
/// failing `Serialize` impl or on a map key that is no string.
#[verifier::external_body]
pub(crate) fn json_string_object(members: Vec<(String, String)>) -> (res: String)
    requires
        names_distinct(pairs_view(members@)),
    ensures
        res@ == json_string_object_text(pairs_view(members@)),
{
    let map: serde_json::Map<String, serde_json::Value> = members.into_iter().map(
        |(k, v)| (k, serde_json::Value::String(v)),
    ).collect();
    serde_json::to_string(&serde_json::Value::Object(map)).unwrap_or_default()
}

#[verifier::external_type_specification]
#[verifier::external_body]
pub struct ExSerdeJsonValue(serde_json::Value);

#[verifier::external_type_specification]
#[verifier::external_body]
pub struct ExSerdeJsonNumber(serde_json::Number);

/// The JSON object that `bytes` holds, as `serde_json::from_slice` reads it
/// into a `serde_json::Map`, if they hold one.
pub uninterp spec fn json_object_in(bytes: Seq<u8>) -> Option<JsonObject>;

/// `serde_json::from_slice::<serde_json::Map<String, Value>>`: the JSON
/// object that `bytes` hold, its members in the order of the map, or `None`
/// where they hold no JSON object.
#[verifier::external_body]
pub fn parse_json_object(bytes: &[u8]) -> (res: Option<JsonObject>)
    ensures
        res == json_object_in(bytes@),
{
    match serde_json::from_slice::<serde_json::Map<String, serde_json::Value>>(bytes) {
        Ok(m) => Some(JsonObject {
            fields: m.iter().map(|(k, v)| (k.clone(), json_value_of(v))).collect(),
        }),
        Err(_) => None,
    }
}

/// A `serde_json::Value` as a `JsonValue`, member for member.
#[verifier::external_body]
fn json_value_of(v: &serde_json::Value) -> JsonValue {
    match v {
        serde_json::Value::Null => JsonValue::Null,
        serde_json::Value::Bool(b) => JsonValue::Bool(*b),
        serde_json::Value::Number(n) => JsonValue::Number(json_number_of(n)),
        serde_json::Value::String(s) => JsonValue::Str(s.clone()),
        serde_json::Value::Array(a) => JsonValue::Array(a.iter().map(json_value_of).collect()),
        serde_json::Value::Object(m) => JsonValue::Object(JsonObject {
            fields: m.iter().map(|(k, v)| (k.clone(), json_value_of(v))).collect(),
        }),
    }
}

/// A `serde_json::Number` as a `JsonNumber`: a `u64`, else an `i64`, else
/// its text and its value converted to `i64` (truncated, saturating).
#[verifier::external_body]
fn json_number_of(n: &serde_json::Number) -> JsonNumber {
    match (n.as_u64(), n.as_i64()) {
        (Some(u), _) => JsonNumber::PosInt(u),
        (None, Some(i)) => JsonNumber::NegInt(i),
        (None, None) => JsonNumber::Float {
            text: n.to_string(),
            as_int: n.as_f64().map(|f| f as i64).unwrap_or(0),
        },
    }
}

} // verus!
