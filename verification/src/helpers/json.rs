//! The lookup on the data that the template engine holds: a JSON value.

use crate::helpers::resolver::{answerable, collapse, output, LookupError};
use handlebars::JsonRender;
use serde_json::Value;
use vstd::prelude::*;

verus! {

/// `serde_json::Value`, carried through as an opaque value: what it holds is
/// read through `member` and `render` alone.
#[verifier::external_type_specification]
#[verifier::external_body]
pub struct ExValue(serde_json::Value);

/// What `Value::get` answers for a string key: the member of a JSON object
/// under that key; nothing where the object has no such member, or where the
/// value is no object.
pub uninterp spec fn json_member(value: Value, key: Seq<char>) -> Option<Value>;

/// What `JsonRender::render` makes of a JSON value: its text in the default
/// format of the template engine.
pub uninterp spec fn json_text(value: Value) -> Seq<char>;

/// `Value::get` with a string key. It answers by `json_member`: the same
/// value and key give the same member.
#[verifier::external_body]
fn member<'a>(value: &'a Value, key: &str) -> (found: Option<&'a Value>)
    ensures
        match found {
            Some(inner) => json_member(*value, key@) == Some(*inner),
            None => json_member(*value, key@) is None,
        },
{
    value.get(key)
}

/// `JsonRender::render` of a JSON value. It answers by `json_text`: the same
/// value gives the same text.
#[verifier::external_body]
fn render(value: &Value) -> (text: String)
    ensures
        text@ == json_text(*value),
{
    value.render()
}

/// The title that the directive's argument stands for: its text.
pub open spec fn title_of(argument: Option<&Value>) -> Option<Seq<char>> {
    match argument {
        Some(value) => Some(json_text(*value)),
        None => None,
    }
}

/// The content slot of a field: the text of its member `content`, where it
/// has one.
pub open spec fn content_of(field: Value) -> Option<Seq<char>> {
    match json_member(field, "content"@) {
        Some(content) => Some(json_text(content)),
        None => None,
    }
}

/// The mapping from title to content slot that the data holds under
/// `fields`, where it has that member.
pub open spec fn fields_of(data: Value) -> Option<Map<Seq<char>, Option<Seq<char>>>> {
    match json_member(data, "fields"@) {
        Some(fields) => Some(
            Map::new(
                |title: Seq<char>| json_member(fields, title) is Some,
                |title: Seq<char>| content_of(json_member(fields, title)->0),
            ),
        ),
        None => None,
    }
}

/// The text of the directive on the engine's data: the content of the field
/// that `argument` names, or the diagnostic of the step that failed. There
/// is no text only where the field is there and has no content.
pub fn get_from(argument: Option<&Value>, data: &Value) -> (text: Option<String>)
    ensures
        match text {
            Some(text) => answerable(title_of(argument), fields_of(*data)) && text@ == output(
                title_of(argument),
                fields_of(*data),
            ),
            None => !answerable(title_of(argument), fields_of(*data)),
        },
{
    let found = match argument {
        None => Err(LookupError::NoTitle),
        Some(value) => {
            let title = render(value);
            match member(data, "fields") {
                None => Err(LookupError::NoFields),
                Some(fields) => match member(fields, title.as_str()) {
                    None => Err(LookupError::NoSuchField(title)),
                    Some(field) => match member(field, "content") {
                        Some(content) => Ok(render(content)),
                        None => { return None; },
                    },
                },
            }
        },
    };
    Some(collapse(found))
}

} // verus!
