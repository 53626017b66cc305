//! JSON schemas of tool arguments, as Draft 2020-12 reads them.

use crate::json::Json;
use vstd::prelude::*;

verus! {

/// The text is a JSON document that the Draft 2020-12 meta-schema accepts.
pub uninterp spec fn obeys_meta_schema(schema: Seq<char>) -> bool;

/// The text is a JSON document from which a Draft 2020-12 validator can be built.
pub uninterp spec fn builds_validator(schema: Seq<char>) -> bool;

/// The validator built from the schema accepts the arguments.
pub uninterp spec fn accepts_arguments(schema: Seq<char>, arguments: Seq<char>) -> bool;

/// `jsonschema::draft202012::meta::validate` on the document that the text holds: no
/// answer where the meta-schema accepts it, else the words for a violation. A text
/// that is no JSON document is refused in the words of its parser. Which of several
/// violations the words are about is left unsaid.
#[verifier::external_body]
fn meta_violation(schema: &str) -> (violation: Option<String>)
    ensures
        (violation is None) == obeys_meta_schema(schema@),
{
    match serde_json::from_str::<serde_json::Value>(schema) {
        Ok(value) => jsonschema::draft202012::meta::validate(&value).err().map(|e| e.to_string()),
        Err(e) => Some(e.to_string()),
    }
}

/// `jsonschema::draft202012::new` on the document that the text holds: no answer where
/// a validator comes out, else the words of the error. A text that is no JSON document
/// is refused in the words of its parser. The words are left unsaid.
#[verifier::external_body]
fn build_fault(schema: &str) -> (fault: Option<String>)
    ensures
        (fault is None) == builds_validator(schema@),
{
    match serde_json::from_str::<serde_json::Value>(schema) {
        Ok(value) => jsonschema::draft202012::new(&value).err().map(|e| e.to_string()),
        Err(e) => Some(e.to_string()),
    }
}

/// `jsonschema::draft202012::validate` on the two documents that the texts hold: no
/// answer where the arguments are accepted, else the words for a violation. It panics
/// where no validator can be built from the schema. A text that is no JSON document is
/// refused in the words of its parser. Which of several violations the words are about
/// is left unsaid.
#[verifier::external_body]
fn violation(schema: &str, arguments: &str) -> (violation: Option<String>)
    requires
        builds_validator(schema@),
    ensures
        (violation is None) == accepts_arguments(schema@, arguments@),
{
    let schema: Result<serde_json::Value, serde_json::Error> = serde_json::from_str(schema);
    let arguments: Result<serde_json::Value, serde_json::Error> = serde_json::from_str(arguments);
    match (schema, arguments) {
        (Ok(schema), Ok(arguments)) => jsonschema::draft202012::validate(&schema, &arguments)
            .err()
            .map(|e| e.to_string()),
        (Err(e), _) | (_, Err(e)) => Some(e.to_string()),
    }
}

/// What came of checking arguments.
#[derive(Debug, PartialEq, Eq)]
pub enum Validation {
    Valid,
    Invalid(String),
    /// The check itself broke down.
    Fault,
}

/// Why a schema cannot be used, if it cannot.
#[derive(Debug, PartialEq, Eq)]
pub enum SchemaFault {
    /// The meta-schema does not accept it.
    NotDraft202012(String),
    /// No validator can be built from it.
    NotCompiled(String),
}

/// The schema can be used for checking arguments.
pub open spec fn is_usable_schema(schema: Seq<char>) -> bool {
    obeys_meta_schema(schema) && builds_validator(schema)
}

/// Whether a document is a Draft 2020-12 schema.
pub fn validate_local_schema(schema: &Json) -> (result: Result<(), SchemaFault>)
    ensures
        (result is Ok) == obeys_meta_schema(schema@),
        result matches Err(e) ==> e is NotDraft202012,
{
    match meta_violation(schema.as_str()) {
        Some(words) => Err(SchemaFault::NotDraft202012(words)),
        None => Ok(()),
    }
}

/// Whether a validator can be built from a schema.
pub fn compile_schema(schema: &Json) -> (result: Result<(), SchemaFault>)
    ensures
        (result is Ok) == builds_validator(schema@),
        result matches Err(e) ==> e is NotCompiled,
{
    match build_fault(schema.as_str()) {
        Some(words) => Err(SchemaFault::NotCompiled(words)),
        None => Ok(()),
    }
}

/// Checks arguments against a schema from which a validator can be built.
pub fn validate_arguments(schema: &Json, arguments: &Json) -> (validation: Validation)
    requires
        builds_validator(schema@),
    ensures
        (validation is Valid) == accepts_arguments(schema@, arguments@),
        !(validation is Fault),
{
    match violation(schema.as_str(), arguments.as_str()) {
        Some(words) => Validation::Invalid(words),
        None => Validation::Valid,
    }
}

/// Checks arguments against a schema. A schema that builds no validator breaks the
/// check down.
pub fn check_arguments(schema: &Json, arguments: &Json) -> (validation: Validation)
    ensures
        (validation is Fault) == !builds_validator(schema@),
        (validation is Valid) == (builds_validator(schema@) && accepts_arguments(
            schema@,
            arguments@,
        )),
{
    if compile_schema(schema).is_err() {
        Validation::Fault
    } else {
        validate_arguments(schema, arguments)
    }
}

} // verus!
