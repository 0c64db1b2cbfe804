//! Top-level fields of a JSON object body, as the response classifiers read them.
use vstd::prelude::*;

verus! {

/// One top-level value of a JSON object, as far as the response readers look into it.
#[derive(Debug)]
pub enum JsonField {
    Null,
    Bool(bool),
    /// A number, with its value when it is a non-negative integer that fits in `u64`.
    Number(Option<u64>),
    Text(String),
    /// An array or an object.
    Nested,
}

/// The mathematical value of a `JsonField`.
pub ghost enum JsonFieldView {
    Null,
    Bool(bool),
    Number(Option<u64>),
    Text(Seq<char>),
    Nested,
}

impl View for JsonField {
    type V = JsonFieldView;

    open spec fn view(&self) -> JsonFieldView {
        match self {
            JsonField::Null => JsonFieldView::Null,
            JsonField::Bool(b) => JsonFieldView::Bool(*b),
            JsonField::Number(n) => JsonFieldView::Number(*n),
            JsonField::Text(s) => JsonFieldView::Text(s@),
            JsonField::Nested => JsonFieldView::Nested,
        }
    }
}

pub type FieldsView = Seq<(Seq<char>, JsonFieldView)>;

/// The fields of a parsed object, in the order held.
pub open spec fn fields_view(fields: &Vec<(String, JsonField)>) -> FieldsView {
    fields@.map_values(|p: (String, JsonField)| (p.0@, p.1@))
}

/// The fields of a parse result.
pub open spec fn parsed_view(parsed: Option<Vec<(String, JsonField)>>) -> Option<FieldsView> {
    match parsed {
        Some(f) => Some(fields_view(&f)),
        None => None,
    }
}

/// What `serde_json::from_str` makes of `text` when asked for an object: its fields,
/// or `None` when `text` is not a JSON object.
pub uninterp spec fn json_object_fields(text: Seq<char>) -> Option<FieldsView>;

/// Relies on `serde_json::from_str` into a `serde_json::Map`, whose entries are
/// carried over one by one.
#[verifier::external_body]
pub(crate) fn parse_json_object(text: &str) -> (r: Option<Vec<(String, JsonField)>>)
    ensures
        r.is_some() == json_object_fields(text@).is_some(),
        r.is_some() ==> json_object_fields(text@) == Some(fields_view(&r.unwrap())),
{
    let map = serde_json::from_str::<serde_json::Map<String, serde_json::Value>>(text).ok()?;
    let mut fields = Vec::new();
    for (key, value) in map {
        let field = match value {
            serde_json::Value::Null => JsonField::Null,
            serde_json::Value::Bool(b) => JsonField::Bool(b),
            serde_json::Value::Number(n) => JsonField::Number(n.as_u64()),
            serde_json::Value::String(s) => JsonField::Text(s),
            _ => JsonField::Nested,
        };
        fields.push((key, field));
    }
    Some(fields)
}

/// The first field named `key`.
pub open spec fn field_of(fields: FieldsView, key: Seq<char>) -> Option<JsonFieldView>
    decreases fields.len(),
{
    if fields.len() == 0 {
        None
    } else if fields[0].0 == key {
        Some(fields[0].1)
    } else {
        field_of(fields.drop_first(), key)
    }
}

/// How a field declared `Option<String>` reads: absent or null is `None`, text is
/// `Some`, anything else fails to decode (the outer `None`).
pub open spec fn optional_text(f: Option<JsonFieldView>) -> Option<Option<Seq<char>>> {
    match f {
        None => Some(None),
        Some(JsonFieldView::Null) => Some(None),
        Some(JsonFieldView::Text(s)) => Some(Some(s)),
        Some(_) => None,
    }
}

/// How a field declared `String` reads: only text decodes.
pub open spec fn required_text(f: Option<JsonFieldView>) -> Option<Seq<char>> {
    match f {
        Some(JsonFieldView::Text(s)) => Some(s),
        _ => None,
    }
}

/// How a field declared `Option<u64>` reads.
pub open spec fn optional_u64(f: Option<JsonFieldView>) -> Option<Option<u64>> {
    match f {
        None => Some(None),
        Some(JsonFieldView::Null) => Some(None),
        Some(JsonFieldView::Number(Some(n))) => Some(Some(n)),
        Some(_) => None,
    }
}

/// Looks up the first field named `key`.
pub fn find_field<'a>(fields: &'a Vec<(String, JsonField)>, key: &str) -> (r: Option<&'a JsonField>)
    ensures
        match r {
            Some(f) => field_of(fields_view(fields), key@) == Some(f@),
            None => field_of(fields_view(fields), key@).is_none(),
        },
{
    let mut i: usize = 0;
    proof {
        assert(fields_view(fields).skip(0) =~= fields_view(fields));
    }
    while i < fields.len()
        invariant
            i <= fields.len(),
            field_of(fields_view(fields), key@) == field_of(fields_view(fields).skip(i as int), key@),
        decreases fields.len() - i,
    {
        proof {
            let s = fields_view(fields).skip(i as int);
            assert(s.drop_first() =~= fields_view(fields).skip(i + 1));
        }
        if crate::text::text_eq(fields[i].0.as_str(), key) {
            return Some(&fields[i].1);
        }
        i = i + 1;
    }
    proof {
        assert(fields_view(fields).skip(i as int).len() == 0);
    }
    None
}

/// Reads the field `key` as an `Option<String>`.
pub fn read_optional_text(fields: &Vec<(String, JsonField)>, key: &str) -> (r: Option<Option<String>>)
    ensures
        optional_text(field_of(fields_view(fields), key@)) == match r {
            Some(Some(s)) => Some(Some(s@)),
            Some(None) => Some(None::<Seq<char>>),
            None => None::<Option<Seq<char>>>,
        },
{
    match find_field(fields, key) {
        None => Some(None),
        Some(JsonField::Null) => Some(None),
        Some(JsonField::Text(s)) => Some(Some(s.clone())),
        Some(_) => None,
    }
}

/// Reads the field `key` as a `String`.
pub fn read_required_text(fields: &Vec<(String, JsonField)>, key: &str) -> (r: Option<String>)
    ensures
        required_text(field_of(fields_view(fields), key@)) == match r {
            Some(s) => Some(s@),
            None => None::<Seq<char>>,
        },
{
    match find_field(fields, key) {
        Some(JsonField::Text(s)) => Some(s.clone()),
        _ => None,
    }
}

/// Reads the field `key` as an `Option<u64>`.
pub fn read_optional_u64(fields: &Vec<(String, JsonField)>, key: &str) -> (r: Option<Option<u64>>)
    ensures
        r == optional_u64(field_of(fields_view(fields), key@)),
{
    match find_field(fields, key) {
        None => Some(None),
        Some(JsonField::Null) => Some(None),
        Some(JsonField::Number(Some(n))) => Some(Some(*n)),
        Some(_) => None,
    }
}

} // verus!
