//! The lookup behind the `get` directive: from a module title and a render
//! context to the text that stands in the rendered page.

use crate::helpers::context::RenderContext;
use vstd::prelude::*;
use vstd::string::StringExecFns;

verus! {

/// The name under which the directive is registered with the template
/// engine.
pub const DIRECTIVE: &'static str = "get";

/// Why a lookup found no field.
#[derive(Debug)]
pub enum LookupError {
    /// The directive was given no module title.
    NoTitle,
    /// The context has no mapping of fields.
    NoFields,
    /// The mapping has no field under the title, which is carried along.
    NoSuchField(String),
}

/// What a failed lookup is, mathematically.
pub ghost enum Failure {
    NoTitle,
    NoFields,
    NoSuchField(Seq<char>),
}

impl View for LookupError {
    type V = Failure;

    open spec fn view(&self) -> Failure {
        match self {
            LookupError::NoTitle => Failure::NoTitle,
            LookupError::NoFields => Failure::NoFields,
            LookupError::NoSuchField(title) => Failure::NoSuchField(title@),
        }
    }
}

/// The text that stands in the output where a lookup failed.
pub open spec fn diagnostic(failure: Failure) -> Seq<char> {
    match failure {
        Failure::NoTitle => "No module title provided to helper function."@,
        Failure::NoFields => "No fields exist on this page."@,
        Failure::NoSuchField(title) => "Field `"@ + title + "` does not exist on the page."@,
    }
}

/// The content slot of the field that the directive names: the title is
/// looked at first, then the mapping, then the field.
pub open spec fn located(
    title: Option<Seq<char>>,
    context: Option<Map<Seq<char>, Option<Seq<char>>>>,
) -> Result<Option<Seq<char>>, Failure> {
    match title {
        None => Err(Failure::NoTitle),
        Some(title) => match context {
            None => Err(Failure::NoFields),
            Some(fields) => if fields.contains_key(title) {
                Ok(fields[title])
            } else {
                Err(Failure::NoSuchField(title))
            },
        },
    }
}

/// Whether the lookup can be finished: a field that is found has content.
pub open spec fn answerable(
    title: Option<Seq<char>>,
    context: Option<Map<Seq<char>, Option<Seq<char>>>>,
) -> bool {
    located(title, context) matches Ok(content) ==> content is Some
}

/// The content of the field that the directive names, or why there is
/// none.
pub open spec fn resolved(
    title: Option<Seq<char>>,
    context: Option<Map<Seq<char>, Option<Seq<char>>>>,
) -> Result<Seq<char>, Failure> {
    match located(title, context) {
        Ok(content) => Ok(content->0),
        Err(failure) => Err(failure),
    }
}

/// The text that the directive puts into the output.
pub open spec fn output(
    title: Option<Seq<char>>,
    context: Option<Map<Seq<char>, Option<Seq<char>>>>,
) -> Seq<char> {
    match resolved(title, context) {
        Ok(content) => content,
        Err(failure) => diagnostic(failure),
    }
}

/// The view of an optional title.
pub open spec fn title_view(title: Option<&str>) -> Option<Seq<char>> {
    match title {
        Some(title) => Some(title@),
        None => None,
    }
}

impl LookupError {
    /// The text that stands in the output in place of the content.
    pub fn message(&self) -> (text: String)
        ensures
            text@ == diagnostic(self@),
    {
        match self {
            LookupError::NoTitle => String::from_str(
                "No module title provided to helper function.",
            ),
            LookupError::NoFields => String::from_str("No fields exist on this page."),
            LookupError::NoSuchField(title) => String::from_str("Field `").concat(
                title.as_str(),
            ).concat("` does not exist on the page."),
        }
    }
}

/// Whether `resolve` and `get` can be called on `title` and `context`:
/// false only where the field is there and has no content.
pub fn can_answer(title: Option<&str>, context: &RenderContext) -> (yes: bool)
    ensures
        yes == answerable(title_view(title), context@),
{
    match title {
        None => true,
        Some(title) => match context.field(title) {
            Some(field) => field.content().is_some(),
            None => true,
        },
    }
}

/// Looks the field up, step by step, and stops at the first step that
/// fails.
pub fn resolve(title: Option<&str>, context: &RenderContext) -> (found: Result<String, LookupError>)
    requires
        answerable(title_view(title), context@),
    ensures
        match found {
            Ok(content) => resolved(title_view(title), context@) == Ok::<Seq<char>, Failure>(
                content@,
            ),
            Err(error) => resolved(title_view(title), context@) == Err::<Seq<char>, Failure>(
                error@,
            ),
        },
{
    let title = match title {
        Some(title) => title,
        None => { return Err(LookupError::NoTitle); },
    };
    if !context.has_fields() {
        return Err(LookupError::NoFields);
    }
    let field = match context.field(title) {
        Some(field) => field,
        None => { return Err(LookupError::NoSuchField(title.to_owned())); },
    };
    Ok(field.content().unwrap().to_owned())
}

/// The one text that a lookup comes down to: the content that was found, or
/// the diagnostic of the step that failed.
pub fn collapse(found: Result<String, LookupError>) -> (text: String)
    ensures
        text@ == match found {
            Ok(content) => content@,
            Err(error) => diagnostic(error@),
        },
{
    match found {
        Ok(content) => content,
        Err(error) => error.message(),
    }
}

/// The text of the directive: the content of the field, or the diagnostic
/// of the step that failed.
pub fn get(title: Option<&str>, context: &RenderContext) -> (text: String)
    requires
        answerable(title_view(title), context@),
    ensures
        text@ == output(title_view(title), context@),
{
    collapse(resolve(title, context))
}

} // verus!
