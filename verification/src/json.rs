//! Reading the launcher's JSON replies: the top-level fields of a reply, as
//! far as the library's decisions read them (strings and booleans).

use vstd::prelude::*;
use crate::text::str_eq;

verus! {

/// A top-level field of a JSON reply: a string, a boolean, or any other
/// value (number, null, array, object).
#[derive(Debug, Clone, PartialEq, Eq)]
pub enum JsonField {
    Str(String),
    Bool(bool),
    Other,
}

/// A field's value as the contracts see it.
pub enum FieldView {
    Str(Seq<char>),
    Bool(bool),
    Other,
}

pub open spec fn field_view(f: JsonField) -> FieldView {
    match f {
        JsonField::Str(s) => FieldView::Str(s@),
        JsonField::Bool(b) => FieldView::Bool(b),
        JsonField::Other => FieldView::Other,
    }
}

/// The fields of a reply, each key with its value's view.
pub open spec fn fields_view(v: Seq<(String, JsonField)>) -> Seq<(Seq<char>, FieldView)> {
    Seq::new(v.len(), |i: int| (v[i].0@, field_view(v[i].1)))
}

/// What `serde_json::from_str` makes of `text`: the top-level fields, in
/// the order the parsed object holds them (none for a JSON value that is
/// not an object), or the parser's error, as its debug description, when
/// `text` is not JSON.
pub uninterp spec fn json_fields_of(text: Seq<char>) -> Result<Seq<(Seq<char>, FieldView)>, Seq<char>>;

/// Parses `text` as JSON (`serde_json::from_str` into a `Value`) and hands
/// back its top-level fields with strings and booleans kept, or the parse
/// error's debug description. The result depends on the text alone.
#[verifier::external_body]
fn parse_fields(text: &str) -> (r: Result<Vec<(String, JsonField)>, String>)
    ensures
        r is Ok <==> json_fields_of(text@) is Ok,
        r matches Ok(v) ==> fields_view(v@) == json_fields_of(text@)->Ok_0,
        r matches Err(m) ==> m@ == json_fields_of(text@)->Err_0,
{
    match serde_json::from_str::<serde_json::Value>(text) {
        Ok(serde_json::Value::Object(map)) => Ok(map.into_iter().map(|(k, v)| match v {
            serde_json::Value::String(s) => (k, JsonField::Str(s)),
            serde_json::Value::Bool(b) => (k, JsonField::Bool(b)),
            _ => (k, JsonField::Other),
        }).collect()),
        Ok(_) => Ok(Vec::new()),
        Err(e) => Err(format!("{:?}", e)),
    }
}

/// The top-level fields of the JSON in `text`, or the parse error's
/// description.
pub fn read_fields(text: &str) -> (r: Result<Vec<(String, JsonField)>, String>)
    ensures
        r is Ok <==> json_fields_of(text@) is Ok,
        r matches Ok(v) ==> fields_view(v@) == json_fields_of(text@)->Ok_0,
        r matches Err(m) ==> m@ == json_fields_of(text@)->Err_0,
{
    parse_fields(text)
}

/// The value of the first field named `key`, if any.
pub open spec fn field_of(fields: Seq<(Seq<char>, FieldView)>, key: Seq<char>) -> Option<FieldView>
    decreases fields.len(),
{
    if fields.len() == 0 {
        None
    } else if fields[0].0 == key {
        Some(fields[0].1)
    } else {
        field_of(fields.drop_first(), key)
    }
}

/// The field `key` when it is a string.
pub open spec fn str_field_of(fields: Seq<(Seq<char>, FieldView)>, key: Seq<char>) -> Option<Seq<char>> {
    match field_of(fields, key) {
        Some(FieldView::Str(s)) => Some(s),
        _ => None,
    }
}

/// The field `key` when it is a boolean.
pub open spec fn bool_field_of(fields: Seq<(Seq<char>, FieldView)>, key: Seq<char>) -> Option<bool> {
    match field_of(fields, key) {
        Some(FieldView::Bool(b)) => Some(b),
        _ => None,
    }
}

/// The index of the first field named `key`, if any.
fn find_field(fields: &Vec<(String, JsonField)>, key: &str) -> (r: Option<usize>)
    ensures
        match r {
            Some(i) => i < fields@.len() && field_of(fields_view(fields@), key@) == Some(field_view(fields@[i as int].1)),
            None => field_of(fields_view(fields@), key@) is None,
        },
{
    let ghost fv = fields_view(fields@);
    let mut i: usize = 0;
    assert(fv.subrange(0, fv.len() as int) =~= fv);
    while i < fields.len()
        invariant
            i <= fields@.len(),
            fv == fields_view(fields@),
            field_of(fv, key@) == field_of(fv.subrange(i as int, fv.len() as int), key@),
        decreases fields@.len() - i,
    {
        let ghost rest = fv.subrange(i as int, fv.len() as int);
        assert(rest[0] == fv[i as int]);
        if str_eq(fields[i].0.as_str(), key) {
            return Some(i);
        }
        assert(rest.drop_first() =~= fv.subrange(i + 1, fv.len() as int));
        i = i + 1;
    }
    assert(fv.subrange(i as int, fv.len() as int).len() == 0);
    None
}

/// The string field `key`, if the fields hold one.
pub fn str_field(fields: &Vec<(String, JsonField)>, key: &str) -> (r: Option<String>)
    ensures
        match r {
            Some(s) => str_field_of(fields_view(fields@), key@) == Some(s@),
            None => str_field_of(fields_view(fields@), key@) is None,
        },
{
    match find_field(fields, key) {
        Some(i) => match &fields[i].1 {
            JsonField::Str(s) => Some(s.clone()),
            _ => None,
        },
        None => None,
    }
}

/// The boolean field `key`, if the fields hold one.
pub fn bool_field(fields: &Vec<(String, JsonField)>, key: &str) -> (r: Option<bool>)
    ensures
        r == bool_field_of(fields_view(fields@), key@),
{
    match find_field(fields, key) {
        Some(i) => match &fields[i].1 {
            JsonField::Bool(b) => Some(*b),
            _ => None,
        },
        None => None,
    }
}

} // verus!
