//! A flat model of a JSON object: its top-level fields, each value kept
//! only as far as the command pipeline reads it (a string, a null, or
//! something else). Parsing itself is the trusted boundary to
//! `serde_json`; everything that interprets the fields is verified.

use vstd::prelude::*;

verus! {

/// Mathematical model of one top-level JSON field value.
pub enum JsonFieldV {
    /// The value is a JSON string with these characters.
    Text(Seq<char>),
    /// The value is JSON `null`.
    Null,
    /// The value is anything else (number, bool, array, object).
    Other,
}

/// One top-level JSON field value, as the pipeline distinguishes them.
pub enum JsonField {
    Text(String),
    Null,
    Other,
}

impl View for JsonField {
    type V = JsonFieldV;

    open spec fn view(&self) -> JsonFieldV {
        match self {
            JsonField::Text(s) => JsonFieldV::Text(s@),
            JsonField::Null => JsonFieldV::Null,
            JsonField::Other => JsonFieldV::Other,
        }
    }
}

impl DeepView for JsonField {
    type V = JsonFieldV;

    open spec fn deep_view(&self) -> JsonFieldV {
        self.view()
    }
}

/// The top-level fields of the JSON object that `s` parses to, in the
/// order `serde_json` hands them out, or nothing where `s` is not a JSON
/// object.
pub uninterp spec fn json_object_fields(s: Seq<char>) -> Option<Seq<(Seq<char>, JsonFieldV)>>;

/// Relies on `serde_json::from_str` to a `serde_json::Value` together
/// with `Value::as_object`: parsing succeeds exactly on text that is a
/// JSON object, and the result is a function of the text alone.
#[verifier::external_body]
pub fn parse_json_object(s: &str) -> (r: Option<Vec<(String, JsonField)>>)
    ensures
        match r {
            Some(fields) => json_object_fields(s@) == Some(fields.deep_view()),
            None => json_object_fields(s@) is None,
        },
{
    let value: serde_json::Value = serde_json::from_str(s).ok()?;
    let object = value.as_object()?;
    let mut fields: Vec<(String, JsonField)> = Vec::new();
    for (key, val) in object {
        let f = match val {
            serde_json::Value::String(t) => JsonField::Text(t.clone()),
            serde_json::Value::Null => JsonField::Null,
            _ => JsonField::Other,
        };
        fields.push((key.clone(), f));
    }
    Some(fields)
}

/// The value of the first field named `key`, if any.
pub open spec fn field_lookup(fields: Seq<(Seq<char>, JsonFieldV)>, key: Seq<char>) -> Option<
    JsonFieldV,
>
    decreases fields.len(),
{
    if fields.len() == 0 {
        None
    } else if fields[0].0 == key {
        Some(fields[0].1)
    } else {
        field_lookup(fields.drop_first(), key)
    }
}

/// Find the first field named `key`.
pub fn find_field<'a>(fields: &'a Vec<(String, JsonField)>, key: &str) -> (r: Option<
    &'a JsonField,
>)
    ensures
        match r {
            Some(f) => field_lookup(fields.deep_view(), key@) == Some(f@),
            None => field_lookup(fields.deep_view(), key@) is None,
        },
{
    let n = fields.len();
    proof {
        assert(fields.deep_view().skip(0) =~= fields.deep_view());
    }
    let mut i: usize = 0;
    while i < n
        invariant
            n == fields@.len(),
            i <= n,
            field_lookup(fields.deep_view(), key@) == field_lookup(
                fields.deep_view().skip(i as int),
                key@,
            ),
        decreases n - i,
    {
        proof {
            assert(fields.deep_view().skip(i as int).drop_first() =~= fields.deep_view().skip(
                i + 1,
            ));
            assert(fields.deep_view().skip(i as int)[0] == fields.deep_view()[i as int]);
        }
        if crate::text::str_eq(fields[i].0.as_str(), key) {
            return Some(&fields[i].1);
        }
        i += 1;
    }
    proof {
        assert(fields.deep_view().skip(n as int) =~= Seq::<(Seq<char>, JsonFieldV)>::empty());
    }
    None
}

} // verus!
