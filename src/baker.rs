//! Baker (block validator) key requests: which kind of key set is asked
//! for, and the answer handed back for each outcome of the request.
use vstd::prelude::*;
use vstd::string::StringExecFns;
use crate::facade::{failure_message, failure_spec, Operation};

verus! {

/// Whether fresh baker keys register a new baker or replace the keys of an
/// existing one. The keys are generated the same way for both.
#[allow(non_camel_case_types)]
#[derive(Clone, Copy, Debug, PartialEq, Eq, Structural)]
pub enum BakerKeyVariant {
    ADD,
    UPDATE,
}

/// Why a baker key request failed.
#[derive(Clone, Debug)]
pub enum BakerKeysFailure {
    /// The sender's account address did not parse; holds the cause.
    SenderAddress(String),
    /// The generated keys could not be serialized; holds the cause.
    Serialization(String),
}

/// The cause that a failed baker key request reports.
pub open spec fn baker_keys_cause_spec(f: BakerKeysFailure) -> Seq<char> {
    match f {
        BakerKeysFailure::SenderAddress(e) => "unable to parse sender account address: "@ + e@,
        BakerKeysFailure::Serialization(e) => "unable to serialize baker keys: "@ + e@,
    }
}

/// The answer to a baker key request with the given outcome.
pub open spec fn baker_keys_answer_spec(outcome: Result<String, BakerKeysFailure>) -> Seq<char> {
    match outcome {
        Ok(s) => s@,
        Err(f) => failure_spec(Operation::GenerateBakerKeys, baker_keys_cause_spec(f)),
    }
}

impl BakerKeysFailure {
    /// The cause that this failure reports, naming the step that failed.
    pub fn cause(&self) -> (r: String)
        ensures
            r@ == baker_keys_cause_spec(*self),
    {
        match self {
            BakerKeysFailure::SenderAddress(e) => {
                let mut r = String::from_str("unable to parse sender account address: ");
                r.append(e.as_str());
                r
            },
            BakerKeysFailure::Serialization(e) => {
                let mut r = String::from_str("unable to serialize baker keys: ");
                r.append(e.as_str());
                r
            },
        }
    }
}

/// The single string handed back for a baker key request: the serialized
/// key set, or the failure message of the operation with the step that failed.
pub fn generate_baker_keys_answer(outcome: Result<String, BakerKeysFailure>) -> (r: String)
    ensures
        r@ == baker_keys_answer_spec(outcome),
{
    match outcome {
        Ok(s) => s,
        Err(f) => {
            let cause = f.cause();
            failure_message(Operation::GenerateBakerKeys, cause.as_str())
        },
    }
}

} // verus!
