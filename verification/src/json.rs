//! The JSON binding: intermediate values to and from JSON text.
//!
//! `serde_json` writes and reads the text. What it writes for a value, and
//! what it reads from a text, are named here and not spelled out: the codec
//! is proved for whatever text and values these are.

use crate::intermediate::{Dict, Intermediate, IntermediateView};
use serde_json::Value as Json;
use vstd::prelude::*;

verus! {

/// `serde_json::Error`: why text could not be read or written. The codec
/// never looks into it.
#[verifier::external_type_specification]
#[verifier::external_body]
pub struct ExJsonError(serde_json::Error);

/// `serde_json::Value`: the tree that `serde_json` reads text into and
/// writes text from. It only passes between the functions of this file.
#[verifier::external_type_specification]
#[verifier::external_body]
pub struct ExJson(serde_json::Value);

/// The JSON text that `serde_json::to_string` writes for a value, or `None`
/// where it writes none: a number that is kept as text and is not the text
/// of a JSON number.
pub uninterp spec fn json_text(value: IntermediateView) -> Option<Seq<char>>;

/// The value that `serde_json::from_str` reads from a text, or `None` where
/// the text is not JSON.
pub uninterp spec fn json_value(text: Seq<char>) -> Option<IntermediateView>;

/// Carries a value over into `serde_json::Value`, variant by variant. The
/// text of a number goes through `Number::from_str`, which fails on a text
/// that is no JSON number.
#[verifier::external_body]
fn to_json(value: &Intermediate) -> Result<Json, serde_json::Error> {
    Ok(match value {
        Intermediate::Null => Json::Null,
        Intermediate::Bool(b) => Json::from(*b),
        Intermediate::U64(u) => Json::from(*u),
        Intermediate::I64(i) => Json::from(*i),
        Intermediate::Real(s) => Json::Number(s.parse()?),
        Intermediate::String(s) => Json::from(s.as_str()),
        Intermediate::Array(a) => Json::Array(a.iter().map(to_json).collect::<Result<_, _>>()?),
        Intermediate::Object(d) => Json::Object(
            d.entries().iter().map(|e| Ok((e.0.clone(), to_json(&e.1)?)))
                .collect::<Result<_, serde_json::Error>>()?,
        ),
    })
}

/// Carries a `serde_json::Value` over into a value, variant by variant. A
/// number becomes `U64` where `Number::as_u64` gives it, else `I64` where
/// `Number::as_i64` gives it, else the text that the number prints as.
#[verifier::external_body]
fn from_json(json: Json) -> Intermediate {
    match json {
        Json::Null => Intermediate::Null,
        Json::Bool(b) => Intermediate::Bool(b),
        Json::Number(n) => match (n.as_u64(), n.as_i64()) {
            (Some(u), _) => Intermediate::U64(u),
            (None, Some(i)) => Intermediate::I64(i),
            (None, None) => Intermediate::Real(n.to_string()),
        },
        Json::String(s) => Intermediate::String(s),
        Json::Array(a) => Intermediate::Array(a.into_iter().map(from_json).collect()),
        Json::Object(o) => Intermediate::Object(
            o.into_iter().fold(Dict::new(), |d, (k, v)| d.with(k, from_json(v))),
        ),
    }
}

/// `serde_json::to_string` on the value. The text is a function of what the
/// value holds; nothing more is claimed of it.
#[verifier::external_body]
pub(crate) fn to_string(value: &Intermediate) -> (r: Result<String, serde_json::Error>)
    ensures
        match r {
            Ok(text) => json_text(value@) == Some(text@),
            Err(_) => json_text(value@) is None,
        },
{
    serde_json::to_string(&to_json(value)?)
}

/// `serde_json::from_str` on the text. The value is a function of the text;
/// nothing more is claimed of it.
#[verifier::external_body]
pub(crate) fn from_str(text: &str) -> (r: Result<Intermediate, serde_json::Error>)
    ensures
        match r {
            Ok(value) => json_value(text@) == Some(value@),
            Err(_) => json_value(text@) is None,
        },
{
    serde_json::from_str::<Json>(text).map(from_json)
}

} // verus!
