//! Named fields of structured (JSON) input.
use serde_json::Value;
use vstd::prelude::*;
use vstd::string::StringExecFns;

verus! {

#[verifier::external_type_specification]
#[verifier::external_body]
pub struct ExValue(serde_json::Value);

/// Why a named field could not be read from structured input.
#[derive(Clone, Debug)]
pub enum FieldError {
    /// No field of this name is present.
    Missing(String),
}

/// The description of a field error.
pub open spec fn field_error_message_spec(e: FieldError) -> Seq<char> {
    match e {
        FieldError::Missing(name) => "Field "@ + name@ + " not present, but should be."@,
    }
}

impl FieldError {
    /// The description of this error, naming the field.
    pub fn message(&self) -> (r: String)
        ensures
            r@ == field_error_message_spec(*self),
    {
        match self {
            FieldError::Missing(name) => {
                let mut r = String::from_str("Field ");
                r.append(name.as_str());
                r.append(" not present, but should be.");
                r
            },
        }
    }
}

/// The value of the field `fname` of `v`, where `v` is an object holding
/// such a field.
pub uninterp spec fn field_of(v: Value, fname: Seq<char>) -> Option<Value>;

/// Relies on serde_json::Value::get with a `&str` index: the value of the
/// field of that name where `v` is an object holding one, else `None`; the
/// result depends on `v` and the name alone.
#[verifier::external_body]
fn lookup_field(v: &Value, fname: &str) -> (r: Option<Value>)
    ensures
        r == field_of(*v, fname@),
{
    v.get(fname).cloned()
}

/// The value found under `fname`, or the error that names the missing field.
pub fn field_or_missing(found: Option<Value>, fname: &str) -> (r: Result<Value, FieldError>)
    ensures
        found matches Some(x) ==> r == Ok::<Value, FieldError>(x),
        found is None ==> (r matches Err(FieldError::Missing(n)) && n@ == fname@),
{
    match found {
        Some(x) => Ok(x),
        None => Err(FieldError::Missing(String::from_str(fname))),
    }
}

/// The value of the field `fname` of `v`, or the error that names it where
/// `v` holds no such field.
pub fn try_get_field(v: &Value, fname: &str) -> (r: Result<Value, FieldError>)
    ensures
        field_of(*v, fname@) matches Some(x) ==> r == Ok::<Value, FieldError>(x),
        field_of(*v, fname@) is None ==> (r matches Err(FieldError::Missing(n)) && n@ == fname@),
{
    field_or_missing(lookup_field(v, fname), fname)
}

} // verus!
