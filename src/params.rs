//! Request fields, and their encodings as a query string and as a JSON body.
use vstd::prelude::*;

verus! {

/// The value of one request field.
#[derive(Debug)]
pub enum Param {
    Text(String),
    Flag(bool),
    Number(u32),
}

/// What a field value is, as a mathematical value.
pub enum ParamValue {
    Text(Seq<char>),
    Flag(bool),
    Number(nat),
}

impl View for Param {
    type V = ParamValue;

    open spec fn view(&self) -> ParamValue {
        match self {
            Param::Text(s) => ParamValue::Text(s@),
            Param::Flag(b) => ParamValue::Flag(*b),
            Param::Number(n) => ParamValue::Number(*n as nat),
        }
    }
}

/// The fields of a request, in order, as names and values.
pub open spec fn fields_view(fields: Seq<(String, Param)>) -> Seq<(Seq<char>, ParamValue)> {
    fields.map_values(|f: (String, Param)| (f.0@, f.1@))
}

/// Whether no two fields of the list share a name.
pub open spec fn distinct_names(fields: Seq<(Seq<char>, ParamValue)>) -> bool {
    forall|i: int, j: int| 0 <= i < j < fields.len() ==> #[trigger] fields[i].0 != #[trigger] fields[j].0
}

/// Whether a field of the list is named `name`.
pub open spec fn has_name(fields: Seq<(Seq<char>, ParamValue)>, name: Seq<char>) -> bool {
    exists|i: int| 0 <= i < fields.len() && #[trigger] fields[i].0 == name
}

/// The `x-www-form-urlencoded` text of a list of fields.
pub uninterp spec fn url_params_of(fields: Seq<(Seq<char>, ParamValue)>) -> Seq<char>;

/// The pretty-printed JSON object of a list of fields.
pub uninterp spec fn json_object_of(fields: Seq<(Seq<char>, ParamValue)>) -> Seq<char>;

/// Relies on `serde_url_params::to_string`: one `name=value` pair per field,
/// in the order of the list, values percent-encoded. The fields pass through
/// a `serde_json::Map`, which keeps the order of insertion (feature
/// `preserve_order`) and, the names being distinct, holds each field. Over
/// a map of strings, flags and numbers the serializer does not fail.
#[verifier::external_body]
pub(crate) fn encode_url_params(fields: &Vec<(String, Param)>) -> (r: Result<String, serde_url_params::Error>)
    requires
        distinct_names(fields_view(fields@)),
    ensures
        r is Ok && r->Ok_0@ == url_params_of(fields_view(fields@)),
{
    let map: serde_json::Map<String, serde_json::Value> = fields.iter().map(|(k, v)| (k.clone(), match v {
        Param::Text(s) => serde_json::Value::from(s.clone()),
        Param::Flag(b) => serde_json::Value::from(*b),
        Param::Number(n) => serde_json::Value::from(*n),
    })).collect();
    serde_url_params::to_string(&map)
}

/// Relies on `serde_json::to_string_pretty`: a JSON object with one member
/// per field, in the order of the list (the `serde_json::Map` keeps the
/// order of insertion and, the names being distinct, holds each field).
/// Serialization fails only on a failing `Serialize` impl or a key that is
/// no string, neither of which a map of strings, flags and numbers has.
#[verifier::external_body]
pub(crate) fn encode_json_object(fields: &Vec<(String, Param)>) -> (r: Result<String, serde_json::Error>)
    requires
        distinct_names(fields_view(fields@)),
    ensures
        r is Ok && r->Ok_0@ == json_object_of(fields_view(fields@)),
{
    let map: serde_json::Map<String, serde_json::Value> = fields.iter().map(|(k, v)| (k.clone(), match v {
        Param::Text(s) => serde_json::Value::from(s.clone()),
        Param::Flag(b) => serde_json::Value::from(*b),
        Param::Number(n) => serde_json::Value::from(*n),
    })).collect();
    serde_json::to_string_pretty(&map)
}

/// The field `name`, where it has a value: no field at all where it has none.
pub open spec fn opt_field(name: Seq<char>, value: Option<ParamValue>) -> Seq<(Seq<char>, ParamValue)> {
    match value {
        Some(v) => seq![(name, v)],
        None => Seq::empty(),
    }
}

/// The value of an optional field.
pub open spec fn opt_value(p: Option<Param>) -> Option<ParamValue> {
    match p {
        Some(p) => Some(p@),
        None => None,
    }
}

/// The value of an optional text field.
pub open spec fn opt_text_value(s: Option<String>) -> Option<ParamValue> {
    match s {
        Some(s) => Some(ParamValue::Text(s@)),
        None => None,
    }
}

/// The value of an optional flag.
pub open spec fn opt_flag_value(b: Option<bool>) -> Option<ParamValue> {
    match b {
        Some(b) => Some(ParamValue::Flag(b)),
        None => None,
    }
}

/// The value of an optional number.
pub open spec fn opt_number_value(n: Option<u32>) -> Option<ParamValue> {
    match n {
        Some(n) => Some(ParamValue::Number(n as nat)),
        None => None,
    }
}

/// The field value of an optional text.
pub(crate) fn text_param(s: &Option<String>) -> (p: Option<Param>)
    ensures
        opt_value(p) == opt_text_value(*s),
{
    match s {
        Some(s) => Some(Param::Text(s.clone())),
        None => None,
    }
}

/// The field value of an optional flag.
pub(crate) fn flag_param(b: Option<bool>) -> (p: Option<Param>)
    ensures
        opt_value(p) == opt_flag_value(b),
{
    match b {
        Some(b) => Some(Param::Flag(b)),
        None => None,
    }
}

/// The field value of an optional number.
pub(crate) fn number_param(n: Option<u32>) -> (p: Option<Param>)
    ensures
        opt_value(p) == opt_number_value(n),
{
    match n {
        Some(n) => Some(Param::Number(n)),
        None => None,
    }
}

/// Appends the field `name` where `value` holds one; a field without a
/// value is left out.
pub(crate) fn push_field(fields: &mut Vec<(String, Param)>, name: &str, value: Option<Param>)
    requires
        distinct_names(fields_view(old(fields)@)),
        !has_name(fields_view(old(fields)@), name@),
    ensures
        fields_view(final(fields)@) == fields_view(old(fields)@) + opt_field(name@, opt_value(value)),
        distinct_names(fields_view(final(fields)@)),
        forall|n: Seq<char>| #[trigger] has_name(fields_view(final(fields)@), n) ==> has_name(fields_view(old(fields)@), n) || n == name@,
{
    match value {
        Some(v) => {
            let ghost before = fields@;
            fields.push((String::from_str(name), v));
            assert(fields_view(fields@) =~= fields_view(before) + opt_field(name@, opt_value(value)));
            let ghost fv = fields_view(fields@);
            let ghost bv = fields_view(before);
            assert forall|i: int, j: int| 0 <= i < j < fv.len() implies #[trigger] fv[i].0 != #[trigger] fv[j].0 by {
                if j == bv.len() {
                    assert(fv[i] == bv[i]);
                } else {
                    assert(fv[i] == bv[i] && fv[j] == bv[j]);
                }
            }
            assert forall|n: Seq<char>| #[trigger] has_name(fv, n) implies has_name(bv, n) || n == name@ by {
                let i = choose|i: int| 0 <= i < fv.len() && #[trigger] fv[i].0 == n;
                if i < bv.len() {
                    assert(fv[i] == bv[i]);
                }
            }
        },
        None => {
            assert(fields_view(fields@) =~= fields_view(fields@) + opt_field(name@, opt_value(value)));
        },
    }
}

/// The string that an optional reference points to.
pub open spec fn opt_owned(s: Option<&String>) -> Option<String> {
    match s {
        Some(s) => Some(*s),
        None => None,
    }
}

/// A reference to the string that an option holds.
pub open spec fn opt_ref<'b>(s: &'b Option<String>) -> Option<&'b String> {
    match s {
        Some(x) => Some(x),
        None => None,
    }
}

/// An owned copy of an optional borrowed string.
pub(crate) fn owned(s: Option<&String>) -> (r: Option<String>)
    ensures
        opt_text_value(r) == opt_text_value(opt_owned(s)),
{
    match s {
        Some(s) => Some(s.clone()),
        None => None,
    }
}

/// The value of an optional text, given as characters.
pub open spec fn text_value(s: Option<Seq<char>>) -> Option<ParamValue> {
    match s {
        Some(t) => Some(ParamValue::Text(t)),
        None => None,
    }
}

} // verus!
