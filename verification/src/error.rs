//! Errors of the command line and the structured errors of the restack machine protocol.

use vstd::prelude::*;

use crate::text::literal;

verus! {

/// Whether a machine error blames the invocation or the environment.
#[derive(Debug, PartialEq, Eq, Structural, Clone, Copy)]
pub enum MachineKind {
    Usage,
    Failure,
}

/// One value in the details object of a machine error.
#[derive(Debug, Clone)]
pub enum DetailValue {
    Text(String),
    Number(u64),
    Texts(Vec<String>),
    /// A fixed JSON fragment, such as the example parameters of a usage error.
    Json(String),
}

/// A machine-readable error: a stable code, a message and a details object whose
/// fields are listed in ascending key order.
#[derive(Debug, Clone)]
pub struct MachineError {
    pub kind: MachineKind,
    pub code: String,
    pub message: String,
    pub details: Vec<(String, DetailValue)>,
}

/// Errors of the command line.
#[derive(Debug, Clone)]
pub enum CliError {
    Config(String),
    Git(String),
    InvalidInput(String),
    JiraResponse(String),
    Authentication,
    JiraStatus(u16),
    LoginCancelled,
    /// A structured error of the machine protocol.
    Machine(MachineError),
    /// A machine error reported to a person after an interactive restack.
    Restack(MachineError),
}

/// The machine error with kind `kind`, code `code`, message `message` and `details`.
pub open spec fn machine_spec(
    kind: MachineKind,
    code: Seq<char>,
    message: Seq<char>,
    details: Seq<(String, DetailValue)>,
    error: CliError,
) -> bool {
    match error {
        CliError::Machine(m) => {
            &&& m.kind == kind
            &&& m.code@ == code
            &&& m.message@ == message
            &&& m.details@ == details
        },
        _ => false,
    }
}

/// A usage error of the machine protocol.
pub fn machine_usage(code: &str, message: &str, details: Vec<(String, DetailValue)>) -> (error:
    CliError)
    ensures
        machine_spec(MachineKind::Usage, code@, message@, details@, error),
{
    CliError::Machine(
        MachineError {
            kind: MachineKind::Usage,
            code: literal(code),
            message: literal(message),
            details,
        },
    )
}

/// A failure of the machine protocol.
pub fn machine_failure(code: &str, message: &str, details: Vec<(String, DetailValue)>) -> (error:
    CliError)
    ensures
        machine_spec(MachineKind::Failure, code@, message@, details@, error),
{
    CliError::Machine(
        MachineError {
            kind: MachineKind::Failure,
            code: literal(code),
            message: literal(message),
            details,
        },
    )
}

/// A details object with one text field.
pub fn text_detail(key: &str, value: &str) -> (details: Vec<(String, DetailValue)>)
    ensures
        details@.len() == 1,
        details@[0].0@ == key@,
        details@[0].1 matches DetailValue::Text(text) && text@ == value@,
{
    let mut details = Vec::new();
    details.push((literal(key), DetailValue::Text(literal(value))));
    details
}

/// An interactive restack reports machine errors to the person with their details;
/// every other error passes through unchanged.
pub fn interactive_error(error: CliError) -> (result: CliError)
    ensures
        match error {
            CliError::Machine(m) => result == CliError::Restack(m),
            _ => result == error,
        },
{
    match error {
        CliError::Machine(error) => CliError::Restack(error),
        error => error,
    }
}

} // verus!
