//! JSON objects of scalar members, as the bodies of POST calls.

use vstd::prelude::*;
use vstd::string::*;

verus! {

/// A scalar value of a JSON object.
#[derive(Debug, Clone)]
pub enum JsonScalar {
    Text(String),
    Unsigned(u64),
    Signed(i64),
    Flag(bool),
}

/// What a scalar holds.
pub enum ScalarView {
    Text(Seq<char>),
    Unsigned(u64),
    Signed(i64),
    Flag(bool),
}

impl DeepView for JsonScalar {
    type V = ScalarView;

    open spec fn deep_view(&self) -> ScalarView {
        match *self {
            JsonScalar::Text(text) => ScalarView::Text(text@),
            JsonScalar::Unsigned(n) => ScalarView::Unsigned(n),
            JsonScalar::Signed(n) => ScalarView::Signed(n),
            JsonScalar::Flag(b) => ScalarView::Flag(b),
        }
    }
}

/// The members of a JSON object, by name and value.
pub type Members = Seq<(Seq<char>, ScalarView)>;

/// The JSON text of the object with the given members, as serde_json writes
/// it: `to_string` of the `Value::Object` that holds them.
pub uninterp spec fn json_object_text(members: Seq<(Seq<char>, ScalarView)>) -> Seq<char>;

/// No member for a value that is absent, one for a value that is present.
pub open spec fn optional_text(name: Seq<char>, value: Option<Seq<char>>) -> Members {
    match value {
        Some(text) => seq![(name, ScalarView::Text(text))],
        None => Seq::empty(),
    }
}

/// As [`optional_text`], for an unsigned number.
pub open spec fn optional_unsigned(name: Seq<char>, value: Option<u64>) -> Members {
    match value {
        Some(n) => seq![(name, ScalarView::Unsigned(n))],
        None => Seq::empty(),
    }
}

/// As [`optional_text`], for a signed number.
pub open spec fn optional_signed(name: Seq<char>, value: Option<i64>) -> Members {
    match value {
        Some(n) => seq![(name, ScalarView::Signed(n))],
        None => Seq::empty(),
    }
}

/// As [`optional_text`], for a flag.
pub open spec fn optional_flag(name: Seq<char>, value: Option<bool>) -> Members {
    match value {
        Some(b) => seq![(name, ScalarView::Flag(b))],
        None => Seq::empty(),
    }
}

/// Builds a `serde_json::Value::Object` of the members, each scalar as the
/// JSON value of its kind, and writes it with `serde_json::to_string`. Writing
/// such a value does not fail.
#[verifier::external_body]
pub(crate) fn json_object_to_string(members: &Vec<(String, JsonScalar)>) -> (text: String)
    ensures
        text@ == json_object_text(members.deep_view()),
{
    let object: serde_json::Map<String, serde_json::Value> = members.iter().map(
        |(name, value)| (name.clone(), match value {
            JsonScalar::Text(text) => serde_json::Value::from(text.as_str()),
            JsonScalar::Unsigned(n) => serde_json::Value::from(*n),
            JsonScalar::Signed(n) => serde_json::Value::from(*n),
            JsonScalar::Flag(b) => serde_json::Value::from(*b),
        }),
    ).collect();
    serde_json::to_string(&serde_json::Value::Object(object)).unwrap_or_default()
}

/// Appends a text member.
pub fn push_text(members: &mut Vec<(String, JsonScalar)>, name: &str, value: &str)
    ensures
        final(members).deep_view() == old(members).deep_view().push(
            (name@, ScalarView::Text(value@)),
        ),
{
    members.push((String::from_str(name), JsonScalar::Text(String::from_str(value))));
    assert(final(members).deep_view() =~= old(members).deep_view().push(
        (name@, ScalarView::Text(value@)),
    ));
}

/// Appends a text member where the value is present.
pub fn push_optional_text(
    members: &mut Vec<(String, JsonScalar)>,
    name: &str,
    value: &Option<String>,
)
    ensures
        final(members).deep_view() == old(members).deep_view() + optional_text(
            name@,
            value.deep_view(),
        ),
{
    match value {
        Some(text) => {
            push_text(members, name, text.as_str());
            assert(final(members).deep_view() =~= old(members).deep_view() + optional_text(
                name@,
                value.deep_view(),
            ));
        },
        None => {
            assert(final(members).deep_view() =~= old(members).deep_view() + optional_text(
                name@,
                value.deep_view(),
            ));
        },
    }
}

/// Appends an unsigned member where the value is present.
pub fn push_optional_unsigned(
    members: &mut Vec<(String, JsonScalar)>,
    name: &str,
    value: Option<u64>,
)
    ensures
        final(members).deep_view() == old(members).deep_view() + optional_unsigned(name@, value),
{
    match value {
        Some(n) => {
            members.push((String::from_str(name), JsonScalar::Unsigned(n)));
        },
        None => {},
    }
    assert(final(members).deep_view() =~= old(members).deep_view() + optional_unsigned(
        name@,
        value,
    ));
}

/// Appends a signed member where the value is present.
pub fn push_optional_signed(
    members: &mut Vec<(String, JsonScalar)>,
    name: &str,
    value: Option<i64>,
)
    ensures
        final(members).deep_view() == old(members).deep_view() + optional_signed(name@, value),
{
    match value {
        Some(n) => {
            members.push((String::from_str(name), JsonScalar::Signed(n)));
        },
        None => {},
    }
    assert(final(members).deep_view() =~= old(members).deep_view() + optional_signed(
        name@,
        value,
    ));
}

/// Appends a flag where the value is present.
pub fn push_optional_flag(
    members: &mut Vec<(String, JsonScalar)>,
    name: &str,
    value: Option<bool>,
)
    ensures
        final(members).deep_view() == old(members).deep_view() + optional_flag(name@, value),
{
    match value {
        Some(b) => {
            members.push((String::from_str(name), JsonScalar::Flag(b)));
        },
        None => {},
    }
    assert(final(members).deep_view() =~= old(members).deep_view() + optional_flag(name@, value));
}

} // verus!
