//! The persistence boundary: the tag registry's JSON text, and the recovery
//! policy that turns a missing or unreadable artifact into an empty value.

use vstd::prelude::*;
use crate::data::{Statistics, Task, TaskError};
use crate::tags::tag_names;

verus! {

#[verifier::external_type_specification]
#[verifier::external_body]
pub struct ExJsonError(serde_json::Error);

/// The pretty-printed JSON text serde_json writes for a list of strings.
pub uninterp spec fn json_of_strings(items: Seq<Seq<char>>) -> Seq<char>;

/// The list of strings serde_json reads from a JSON text, if it holds one.
pub uninterp spec fn strings_of_json(text: Seq<char>) -> Option<Seq<Seq<char>>>;

/// Relies on serde_json::to_string_pretty on a `Vec<String>`: the text
/// depends on the strings alone, and it cannot fail, since strings always
/// serialize and the output goes to an in-memory buffer.
#[verifier::external_body]
fn strings_to_json(items: &Vec<String>) -> (r: Result<String, serde_json::Error>)
    ensures
        r is Ok,
        r matches Ok(s) ==> s@ == json_of_strings(tag_names(items@)),
{
    serde_json::to_string_pretty(items)
}

/// Relies on serde_json::from_str into a `Vec<String>`: the outcome depends
/// on the text alone.
#[verifier::external_body]
fn strings_from_json(text: &str) -> (r: Result<Vec<String>, serde_json::Error>)
    ensures
        r is Ok <==> strings_of_json(text@) is Some,
        r matches Ok(v) ==> strings_of_json(text@) == Some(tag_names(v@)),
{
    serde_json::from_str(text)
}

/// The JSON text of the tag registry, to be written to its artifact.
pub fn save_tags(tags: &Vec<String>) -> (r: Result<String, TaskError>)
    ensures
        r is Ok,
        r matches Ok(s) ==> s@ == json_of_strings(tag_names(tags@)),
        r matches Err(e) ==> e == TaskError::PersistenceUnavailable,
{
    match strings_to_json(tags) {
        Ok(s) => Ok(s),
        Err(_) => Err(TaskError::PersistenceUnavailable),
    }
}

/// The tag registry read back from its artifact's text (`None` when the
/// artifact could not be read). Missing or unreadable content gives an
/// empty registry.
pub fn load_tags(text: Option<&str>) -> (r: Vec<String>)
    ensures
        text is None ==> r@.len() == 0,
        text matches Some(t) ==> match strings_of_json(t@) {
            Some(v) => tag_names(r@) == v,
            None => r@.len() == 0,
        },
{
    match text {
        None => Vec::new(),
        Some(t) => match strings_from_json(t) {
            Ok(v) => v,
            Err(_) => Vec::new(),
        },
    }
}

/// The task store recovered from its artifact: what was decoded, or an
/// empty store when the artifact was missing or could not be decoded.
pub fn load_tasks(decoded: Option<Vec<Task>>) -> (r: Vec<Task>)
    ensures
        decoded matches Some(v) ==> r@ == v@,
        decoded is None ==> r@.len() == 0,
{
    match decoded {
        Some(v) => v,
        None => Vec::new(),
    }
}

/// The statistics recovered from their artifact: what was decoded, or
/// zeroed counters when the artifact was missing or could not be decoded.
pub fn load_stats(decoded: Option<Statistics>) -> (r: Statistics)
    ensures
        decoded matches Some(s) ==> r == s,
        decoded is None ==> r.is_zero(),
{
    match decoded {
        Some(s) => s,
        None => Statistics::new(),
    }
}

} // verus!
